//! What holds of frames and of the handshake, byte by byte.

use crate::bytes;
use crate::crypto::{self, CryptoError, PeerView};
use crate::primitives;
use crate::protocol::{
    self, FrameError, HandshakeError, Party, Progress, Stage, Step,
};
use vstd::prelude::*;
use vstd::utf8::encode_utf8;

verus! {

/// A frame is four bytes that spell the length of its payload, then the payload
/// as it is.
pub proof fn frame_is_length_and_payload(payload: Seq<u8>)
    requires
        payload.len() < 0x1_0000_0000,
    ensures
        ({
            let f = protocol::frame(payload);
            &&& f.len() == payload.len() + 4
            &&& f.skip(4) == payload
            &&& payload.len() == 16777216 * f[0] + 65536 * f[1] + 256 * f[2] + f[3]
        }),
{
    let n = payload.len() as u32;
    let prefix = bytes::u32_be(n);
    crate::laws::texts::four_bytes_of_a_number(n, prefix);
    assert(protocol::frame(payload) == prefix + payload);
    assert((prefix + payload).skip(4) =~= payload);
}

/// What is read from bytes that start with a length: that many bytes, and the
/// rest is left. More than 65536 bytes are refused, and fewer than the length
/// says are the end.
pub proof fn length_decides_what_is_read(b0: u8, b1: u8, b2: u8, b3: u8, rest: Seq<u8>)
    ensures
        ({
            let n = 16777216 * b0 + 65536 * b1 + 256 * b2 + b3;
            let (read, left) = protocol::parse_frame(seq![b0, b1, b2, b3] + rest);
            &&& n > 65536 ==> read == Err::<Seq<u8>, FrameError>(
                FrameError::TooLarge { len: n as u32 },
            ) && left == rest
            &&& n <= 65536 && rest.len() < n ==> read == Err::<Seq<u8>, FrameError>(
                FrameError::UnexpectedEof,
            ) && left.len() == 0
            &&& n <= 65536 && rest.len() >= n ==> read == Ok::<Seq<u8>, FrameError>(rest.take(n))
                && left == rest.skip(n)
        }),
{
    let prefix = seq![b0, b1, b2, b3];
    let input = prefix + rest;
    let n = 16777216 * b0 + 65536 * b1 + 256 * b2 + b3;
    assert(input.take(4) =~= prefix);
    assert(input.skip(4) =~= rest);
    crate::laws::texts::four_bytes_of_a_number(0, prefix);
    assert(bytes::u32_of_be(input.take(4)) == n);
    if rest.len() >= n {
        assert(input.subrange(4, 4 + n) =~= rest.take(n));
        assert(input.skip(4 + n) =~= rest.skip(n));
    }
}

/// Fewer than four bytes are no frame.
pub proof fn short_input_is_no_frame(input: Seq<u8>)
    requires
        input.len() < 4,
    ensures
        protocol::parse_frame(input).0 == Err::<Seq<u8>, FrameError>(FrameError::UnexpectedEof),
        protocol::parse_frame(input).1.len() == 0,
{
}

/// A side's bundle is its ephemeral key, its static key, its signing key; and a
/// peer's keys are read from those places.
pub proof fn bundle_has_three_keys(me: Party, bundle: Seq<u8>)
    requires
        me.ephemeral.wf(),
        bundle.len() == 96,
    ensures
        protocol::my_bundle(me) == me.ephemeral.public_bytes() + me.identity.public@
            + me.identity.signing.verifying@,
        protocol::my_bundle(me).len() == 96,
        protocol::peer_in(bundle).ephemeral_public == bundle.subrange(0, 32),
        protocol::peer_in(bundle).static_public == bundle.subrange(32, 64),
        protocol::peer_in(bundle).signing_public == bundle.subrange(64, 96),
{
}

/// What the two sides sign: the context, a version byte, both static keys, both
/// ephemeral keys, the initiator's first, and the letter of the signer's role.
pub open spec fn message_to_sign(
    initiator_static: Seq<u8>,
    responder_static: Seq<u8>,
    initiator_ephemeral: Seq<u8>,
    responder_ephemeral: Seq<u8>,
    letter: char,
) -> Seq<u8> {
    (encode_utf8("directmessages-v3-handshake"@) + seq![1u8] + initiator_static + responder_static
        + initiator_ephemeral + responder_ephemeral).push(letter as u8)
}

/// The initiator signs under I, and takes from the responder nothing but a
/// signature under R over the same keys.
pub proof fn initiator_signs_under_i(me: Party, peer: PeerView, signature: Seq<u8>)
    requires
        me.is_initiator,
    ensures
        protocol::my_signature(me, peer) == primitives::ed25519_signature(
            me.identity.signing.seed@,
            message_to_sign(
                me.identity.public@,
                peer.static_public,
                me.ephemeral.public_bytes(),
                peer.ephemeral_public,
                'I',
            ),
        ),
        protocol::is_signed_by(me, peer, signature) == primitives::ed25519_verifies(
            peer.signing_public,
            message_to_sign(
                me.identity.public@,
                peer.static_public,
                me.ephemeral.public_bytes(),
                peer.ephemeral_public,
                'R',
            ),
            signature,
        ),
{
}

/// The responder signs under R, and takes from the initiator nothing but a
/// signature under I over the same keys.
pub proof fn responder_signs_under_r(me: Party, peer: PeerView, signature: Seq<u8>)
    requires
        !me.is_initiator,
    ensures
        protocol::my_signature(me, peer) == primitives::ed25519_signature(
            me.identity.signing.seed@,
            message_to_sign(
                peer.static_public,
                me.identity.public@,
                peer.ephemeral_public,
                me.ephemeral.public_bytes(),
                'R',
            ),
        ),
        protocol::is_signed_by(me, peer, signature) == primitives::ed25519_verifies(
            peer.signing_public,
            message_to_sign(
                peer.static_public,
                me.identity.public@,
                peer.ephemeral_public,
                me.ephemeral.public_bytes(),
                'I',
            ),
            signature,
        ),
{
}

/// What is signed on its own, from a transcript and a role.
pub proof fn signed_bytes_end_in_the_role(
    initiator_static: Seq<u8>,
    responder_static: Seq<u8>,
    initiator_ephemeral: Seq<u8>,
    responder_ephemeral: Seq<u8>,
)
    ensures
        ({
            let t = protocol::transcript(
                initiator_static,
                responder_static,
                initiator_ephemeral,
                responder_ephemeral,
            );
            &&& protocol::signed_message(t, true) == message_to_sign(
                initiator_static,
                responder_static,
                initiator_ephemeral,
                responder_ephemeral,
                'I',
            )
            &&& protocol::signed_message(t, false) == message_to_sign(
                initiator_static,
                responder_static,
                initiator_ephemeral,
                responder_ephemeral,
                'R',
            )
        }),
{
}

/// What each side does in which order. The initiator sends its bundle, receives
/// the peer's, receives the peer's signature and sends its own. The responder
/// receives the peer's bundle, sends its own, sends its signature and receives
/// the peer's.
pub proof fn sides_take_turns(me: Party, bundle: Seq<u8>, signature: Seq<u8>)
    requires
        primitives::ed25519_is_key(bundle.subrange(64, 96)),
    ensures
        ({
            let peer = protocol::peer_in(bundle);
            let had_bundle = Stage::SendBundle { peer_bundle: Some(bundle) };
            let had_signature = Stage::SendSignature { peer, peer_signature: Some(signature) };
            let no_bundle = Stage::SendBundle { peer_bundle: None };
            let no_signature = Stage::SendSignature { peer, peer_signature: None };
            let waits = Stage::ReceiveSignature { peer };
            &&& protocol::first_stage(true) == no_bundle
            &&& protocol::first_stage(false) == Stage::ReceiveBundle
            &&& me.is_initiator ==> {
                &&& protocol::after_sending(me, no_bundle) == Step::Next(Stage::ReceiveBundle)
                &&& protocol::after_receiving(me, Stage::ReceiveBundle, bundle) == Step::Next(waits)
                &&& protocol::after_receiving(me, waits, signature) == Step::Next(had_signature)
                &&& protocol::after_sending(me, had_signature) == protocol::run(
                    me,
                    bundle,
                    signature,
                )
            }
            &&& !me.is_initiator ==> {
                &&& protocol::after_receiving(me, Stage::ReceiveBundle, bundle) == Step::Next(
                    had_bundle,
                )
                &&& protocol::after_sending(me, had_bundle) == Step::Next(no_signature)
                &&& protocol::after_sending(me, no_signature) == Step::Next(waits)
                &&& protocol::after_receiving(me, waits, signature) == protocol::run(
                    me,
                    bundle,
                    signature,
                )
            }
        }),
{
}

/// A session stands exactly where the bytes that the peer sent as its signing
/// key are one, that key accepts its signature over this session's keys, and
/// neither of its other keys is all zeros. Each failure has its own error.
pub proof fn session_stands_on_the_initiators_side_when(
    me: Party,
    bundle: Seq<u8>,
    signature: Seq<u8>,
)
    requires
        me.is_initiator,
        bundle.len() == 96,
    ensures
        ({
            let zero = Seq::new(32, |i: int| 0u8);
            let key = bundle.subrange(64, 96);
            let peer = PeerView {
                ephemeral_public: bundle.subrange(0, 32),
                static_public: bundle.subrange(32, 64),
                signing_public: key,
            };
            let signed = message_to_sign(
                me.identity.public@,
                peer.static_public,
                me.ephemeral.public_bytes(),
                peer.ephemeral_public,
                'R',
            );
            protocol::run(me, bundle, signature) == if !primitives::ed25519_is_key(key) {
                Step::Failed(HandshakeError::InvalidSigningKey)
            } else if !primitives::ed25519_verifies(key, signed, signature) {
                Step::Failed(HandshakeError::BadSignature)
            } else if peer.static_public == zero || peer.ephemeral_public == zero {
                Step::Failed(HandshakeError::Session(CryptoError::DegenerateKey))
            } else {
                Step::Done(peer)
            }
        }),
{
    crate::laws::texts::only_zeros_are_all_zero(bundle.subrange(0, 32));
    crate::laws::texts::only_zeros_are_all_zero(bundle.subrange(32, 64));
}

/// The same on the responder's side, whose peer signs as the initiator.
pub proof fn session_stands_on_the_responders_side_when(
    me: Party,
    bundle: Seq<u8>,
    signature: Seq<u8>,
)
    requires
        !me.is_initiator,
        bundle.len() == 96,
    ensures
        ({
            let zero = Seq::new(32, |i: int| 0u8);
            let key = bundle.subrange(64, 96);
            let peer = PeerView {
                ephemeral_public: bundle.subrange(0, 32),
                static_public: bundle.subrange(32, 64),
                signing_public: key,
            };
            let signed = message_to_sign(
                peer.static_public,
                me.identity.public@,
                peer.ephemeral_public,
                me.ephemeral.public_bytes(),
                'I',
            );
            protocol::run(me, bundle, signature) == if !primitives::ed25519_is_key(key) {
                Step::Failed(HandshakeError::InvalidSigningKey)
            } else if !primitives::ed25519_verifies(key, signed, signature) {
                Step::Failed(HandshakeError::BadSignature)
            } else if peer.static_public == zero || peer.ephemeral_public == zero {
                Step::Failed(HandshakeError::Session(CryptoError::DegenerateKey))
            } else {
                Step::Done(peer)
            }
        }),
{
    crate::laws::texts::only_zeros_are_all_zero(bundle.subrange(0, 32));
    crate::laws::texts::only_zeros_are_all_zero(bundle.subrange(32, 64));
}

/// What a step hands back is what it came to: the handshake at its next stage,
/// the error, or the session with the peer's keys.
pub proof fn step_hands_back_what_it_came_to(
    res: Result<Progress, HandshakeError>,
    me: Party,
    step: Step,
)
    requires
        protocol::came_to(res, me, step),
    ensures
        match res {
            Ok(Progress::Continue(next)) => step == Step::Next(next.stage()) && next.party() == me,
            Ok(Progress::Established { sender, receiver, peer }) => step == Step::Done(peer@)
                && crypto::is_session(
                sender,
                receiver,
                me.identity,
                me.ephemeral,
                peer@,
                me.is_initiator,
            ),
            Err(e) => step == Step::Failed(e),
        },
{
}

} // verus!
