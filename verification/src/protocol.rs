//! The wire protocol: the authenticated handshake and length-prefixed frames.
//!
//! Each side sends its ephemeral key, its static key and its Ed25519 key, then
//! a signature over the transcript of both sides' static and ephemeral keys.
//! The initiator's keys come first in the transcript, so that both sides sign
//! the same bytes, each with its own role tag at the end.

use crate::bytes;
use crate::crypto::{
    self, CryptoError, EphemeralSecret, Identity, PeerKeys, PeerView, PublicKey, SessionReceiver,
    SessionSender, VerifyingKey, MAX_MESSAGE_LEN, PUBLIC_KEY_LEN, SIGNATURE_LEN, SIGNING_KEY_LEN,
};
use crate::primitives;
use crate::text;
use vstd::prelude::*;

verus! {

/// Length of one peer's bundle: ephemeral key, static key and signing key.
pub const BUNDLE_LEN: usize = 2 * PUBLIC_KEY_LEN + SIGNING_KEY_LEN;

/// What can go wrong with a frame.
#[derive(Clone, Copy, Debug, PartialEq, Eq, Structural)]
pub enum FrameError {
    /// The length prefix is above the maximum.
    TooLarge { len: u32 },
    /// The bytes end before the frame does.
    UnexpectedEof,
}

impl FrameError {
    /// The error in words.
    pub open spec fn text(self) -> Seq<char> {
        match self {
            FrameError::TooLarge { len } => "frame too large: "@ + text::decimal(len as nat)
                + " bytes"@,
            FrameError::UnexpectedEof => "failed to fill whole buffer"@,
        }
    }

    /// The error in words.
    pub fn message(&self) -> (res: String)
        ensures
            res@ == self.text(),
    {
        match self {
            FrameError::TooLarge { len } => {
                let digits = text::decimal_text(*len as u64);
                let start = text::join("frame too large: ", digits.as_str());
                text::join(start.as_str(), " bytes")
            },
            FrameError::UnexpectedEof => "failed to fill whole buffer".to_string(),
        }
    }
}

/// A payload with its length in front, in four bytes. The length is cut to 32
/// bits.
pub open spec fn frame(payload: Seq<u8>) -> Seq<u8> {
    bytes::u32_be((payload.len() % 0x1_0000_0000) as u32) + payload
}

/// Frames, one after the other.
pub open spec fn frames(payloads: Seq<Seq<u8>>) -> Seq<u8>
    decreases payloads.len(),
{
    if payloads.len() == 0 {
        Seq::empty()
    } else {
        frame(payloads.first()) + frames(payloads.drop_first())
    }
}

/// What reading a frame from some bytes gives, and the bytes that are left.
pub open spec fn parse_frame(input: Seq<u8>) -> (Result<Seq<u8>, FrameError>, Seq<u8>) {
    if input.len() < 4 {
        (Err(FrameError::UnexpectedEof), Seq::empty())
    } else {
        let len = bytes::u32_of_be(input.take(4));
        if len > MAX_MESSAGE_LEN {
            (Err(FrameError::TooLarge { len: len as u32 }), input.skip(4))
        } else if input.len() < 4 + len {
            (Err(FrameError::UnexpectedEof), Seq::empty())
        } else {
            (Ok(input.subrange(4, 4 + len)), input.skip(4 + len))
        }
    }
}

/// Writes a single length-prefixed frame at the end of `w`.
pub fn write_frame(w: &mut Vec<u8>, payload: &[u8])
    ensures
        final(w)@ == old(w)@ + frame(payload@),
{
    let len: u32 = (payload.len() as u64 % 0x1_0000_0000) as u32;
    let prefix: [u8; 4] = bytes::encode_u32(len);
    bytes::append(w, prefix.as_slice());
    bytes::append(w, payload);
    assert(w@ =~= old(w)@ + frame(payload@));
}

/// How many bytes of payload follow a length prefix. More than the maximum is
/// refused before anything is allocated for it.
pub fn frame_body_len(prefix: &[u8; 4]) -> (res: Result<usize, FrameError>)
    ensures
        match res {
            Ok(len) => len == bytes::u32_of_be(prefix@) && len <= MAX_MESSAGE_LEN,
            Err(e) => bytes::u32_of_be(prefix@) > MAX_MESSAGE_LEN && e == (FrameError::TooLarge {
                len: bytes::u32_of_be(prefix@) as u32,
            }),
        },
{
    let len: u32 = bytes::decode_u32(prefix);
    if len > MAX_MESSAGE_LEN as u32 {
        Err(FrameError::TooLarge { len })
    } else {
        Ok(len as usize)
    }
}

/// Bytes to be read, from a position on.
pub struct ByteReader {
    pub data: Vec<u8>,
    pub pos: usize,
}

impl ByteReader {
    /// The position is not past the end.
    pub open spec fn wf(self) -> bool {
        self.pos <= self.data@.len()
    }

    /// The bytes that are left to read.
    pub open spec fn remaining(self) -> Seq<u8> {
        self.data@.skip(self.pos as int)
    }

    /// A reader of all of `data`.
    pub fn new(data: Vec<u8>) -> (res: Self)
        ensures
            res.wf(),
            res.remaining() == data@,
    {
        assert(data@.skip(0) =~= data@);
        ByteReader { data, pos: 0 }
    }
}

/// Reads a single length-prefixed frame.
pub fn read_frame(r: &mut ByteReader) -> (res: Result<Vec<u8>, FrameError>)
    requires
        old(r).wf(),
    ensures
        final(r).wf(),
        final(r).data == old(r).data,
        final(r).remaining() == parse_frame(old(r).remaining()).1,
        match res {
            Ok(payload) => parse_frame(old(r).remaining()).0 == Ok::<Seq<u8>, FrameError>(
                payload@,
            ),
            Err(e) => parse_frame(old(r).remaining()).0 == Err::<Seq<u8>, FrameError>(e),
        },
{
    let end: usize = r.data.len();
    let ghost input = r.remaining();
    if end - r.pos < 4 {
        r.pos = end;
        assert(r.remaining() =~= Seq::<u8>::empty());
        return Err(FrameError::UnexpectedEof);
    }
    let prefix: [u8; 4] = [
        r.data[r.pos],
        r.data[r.pos + 1],
        r.data[r.pos + 2],
        r.data[r.pos + 3],
    ];
    assert(prefix@ =~= input.take(4));
    r.pos = r.pos + 4;
    assert(r.remaining() =~= input.skip(4));
    let len: usize = match frame_body_len(&prefix) {
        Ok(len) => len,
        Err(e) => return Err(e),
    };
    if end - r.pos < len {
        r.pos = end;
        assert(r.remaining() =~= Seq::<u8>::empty());
        return Err(FrameError::UnexpectedEof);
    }
    let mut payload: Vec<u8> = Vec::with_capacity(len);
    bytes::append(&mut payload, vstd::slice::slice_subrange(r.data.as_slice(), r.pos, r.pos + len));
    r.pos = r.pos + len;
    assert(payload@ =~= input.subrange(4, 4 + len));
    assert(r.remaining() =~= input.skip(4 + len));
    Ok(payload)
}

/// A frame whose payload is within the maximum is read back as it was written,
/// and nothing after it is touched.
#[verifier::spinoff_prover]
pub proof fn frame_reads_back(payload: Seq<u8>, rest: Seq<u8>)
    requires
        payload.len() <= MAX_MESSAGE_LEN,
    ensures
        parse_frame(frame(payload) + rest) == (Ok::<Seq<u8>, FrameError>(payload), rest),
{
    let n = payload.len() as u32;
    let prefix = bytes::u32_be(n);
    bytes::u32_be_reads_back(n);
    assert(frame(payload) == prefix + payload);
    let input = prefix + payload + rest;
    assert(input.take(4) =~= prefix);
    assert(input.subrange(4, 4 + payload.len() as int) =~= payload);
    assert(input.skip(4 + payload.len() as int) =~= rest);
}

/// What reading frames from some bytes gives, one after the other.
pub open spec fn parse_frames(input: Seq<u8>, count: nat) -> Result<Seq<Seq<u8>>, FrameError>
    decreases count,
{
    if count == 0 {
        Ok(Seq::empty())
    } else {
        let (first, rest) = parse_frame(input);
        match (first, parse_frames(rest, (count - 1) as nat)) {
            (Ok(payload), Ok(payloads)) => Ok(seq![payload] + payloads),
            (Err(e), _) => Err(e),
            (Ok(_), Err(e)) => Err(e),
        }
    }
}

/// Frames written one after the other, each within the maximum, are read back
/// one after the other.
pub proof fn frames_read_back_in_order(payloads: Seq<Seq<u8>>)
    requires
        forall|i: int| 0 <= i < payloads.len() ==> (#[trigger] payloads[i]).len() <= MAX_MESSAGE_LEN,
    ensures
        parse_frames(frames(payloads), payloads.len()) == Ok::<Seq<Seq<u8>>, FrameError>(payloads),
    decreases payloads.len(),
{
    if payloads.len() == 0 {
        assert(payloads =~= Seq::<Seq<u8>>::empty());
    } else {
        let rest = payloads.drop_first();
        assert forall|i: int| 0 <= i < rest.len() implies (#[trigger] rest[i]).len()
            <= MAX_MESSAGE_LEN by {
            assert(rest[i] == payloads[i + 1]);
        }
        frames_read_back_in_order(rest);
        frame_reads_back(payloads.first(), frames(rest));
        assert(payloads =~= seq![payloads.first()] + rest);
    }
}

/// A payload above the maximum is refused by the reader, as long as its length
/// fits the prefix.
pub proof fn oversized_frame_is_refused(payload: Seq<u8>, rest: Seq<u8>)
    requires
        MAX_MESSAGE_LEN < payload.len() < 0x1_0000_0000,
    ensures
        parse_frame(frame(payload) + rest).0 == Err::<Seq<u8>, FrameError>(
            FrameError::TooLarge { len: payload.len() as u32 },
        ),
{
    let n = payload.len() as u32;
    bytes::u32_be_reads_back(n);
    assert((frame(payload) + rest).take(4) =~= bytes::u32_be(n));
}

/// The keys that a side sends: its ephemeral key, its static key, its signing
/// key.
pub open spec fn bundle_of(ephemeral: Seq<u8>, static_public: Seq<u8>, signing: Seq<u8>) -> Seq<
    u8,
> {
    ephemeral + static_public + signing
}

/// The keys in a bundle.
pub open spec fn peer_in(bundle: Seq<u8>) -> PeerView {
    PeerView {
        ephemeral_public: bundle.subrange(0, 32),
        static_public: bundle.subrange(32, 64),
        signing_public: bundle.subrange(64, 96),
    }
}

/// The prefix that keeps handshake signatures apart from any others.
pub open spec fn sign_context() -> Seq<u8> {
    vstd::utf8::encode_utf8("directmessages-v3-handshake"@)
}

/// The transcript that both sides sign: the prefix, a version byte, both static
/// keys and both ephemeral keys, the initiator's first.
pub open spec fn transcript(
    initiator_static: Seq<u8>,
    responder_static: Seq<u8>,
    initiator_ephemeral: Seq<u8>,
    responder_ephemeral: Seq<u8>,
) -> Seq<u8> {
    sign_context() + seq![1u8] + initiator_static + responder_static + initiator_ephemeral
        + responder_ephemeral
}

/// The byte that tells apart what the initiator signs from what the responder
/// signs: `I` or `R`.
pub open spec fn role_tag(is_initiator: bool) -> u8 {
    if is_initiator {
        73
    } else {
        82
    }
}

/// What a role signs: the transcript, then the role's tag.
pub open spec fn signed_message(transcript: Seq<u8>, is_initiator: bool) -> Seq<u8> {
    transcript.push(role_tag(is_initiator))
}

/// The transcript of a handshake as one side sees it.
pub open spec fn transcript_with(me: Party, peer: PeerView) -> Seq<u8> {
    if me.is_initiator {
        transcript(
            me.identity.public@,
            peer.static_public,
            me.ephemeral.public_bytes(),
            peer.ephemeral_public,
        )
    } else {
        transcript(
            peer.static_public,
            me.identity.public@,
            peer.ephemeral_public,
            me.ephemeral.public_bytes(),
        )
    }
}

/// Builds the transcript that the handshake signatures cover.
pub fn transcript_bytes(
    initiator_static: &PublicKey,
    responder_static: &PublicKey,
    initiator_ephemeral: &PublicKey,
    responder_ephemeral: &PublicKey,
) -> (res: Vec<u8>)
    ensures
        res@ == transcript(
            initiator_static@,
            responder_static@,
            initiator_ephemeral@,
            responder_ephemeral@,
        ),
{
    let context: &str = "directmessages-v3-handshake";
    let mut res: Vec<u8> = Vec::new();
    bytes::append(&mut res, context.as_bytes());
    res.push(1);
    bytes::append(&mut res, initiator_static.as_bytes().as_slice());
    bytes::append(&mut res, responder_static.as_bytes().as_slice());
    bytes::append(&mut res, initiator_ephemeral.as_bytes().as_slice());
    bytes::append(&mut res, responder_ephemeral.as_bytes().as_slice());
    assert(res@ =~= transcript(
        initiator_static@,
        responder_static@,
        initiator_ephemeral@,
        responder_ephemeral@,
    ));
    res
}

/// Adds the role tag to a transcript, which makes it what that role signs.
pub fn transcript_for_signing(transcript: &[u8], is_initiator: bool) -> (res: Vec<u8>)
    ensures
        res@ == signed_message(transcript@, is_initiator),
{
    let mut message: Vec<u8> = Vec::new();
    bytes::append(&mut message, transcript);
    message.push(
        if is_initiator {
            73
        } else {
            82
        },
    );
    assert(message@ =~= signed_message(transcript@, is_initiator));
    message
}

/// Why a handshake failed.
#[derive(Clone, Copy, Debug, PartialEq, Eq, Structural)]
pub enum HandshakeError {
    /// The peer's signing key is not an Ed25519 key.
    InvalidSigningKey,
    /// The peer's signature is not one of its key over this transcript.
    BadSignature,
    /// No session can be made with the peer's keys.
    Session(CryptoError),
}

impl HandshakeError {
    /// The error in words.
    pub open spec fn text(self) -> Seq<char> {
        match self {
            HandshakeError::InvalidSigningKey => "peer signing key is not a valid Ed25519 point"@,
            HandshakeError::BadSignature => {
                "handshake signature verification failed (possible MITM)"@
            },
            HandshakeError::Session(e) => e.text(),
        }
    }

    /// The error in words.
    pub fn message(&self) -> (res: String)
        ensures
            res@ == self.text(),
    {
        match self {
            HandshakeError::InvalidSigningKey => {
                "peer signing key is not a valid Ed25519 point".to_string()
            },
            HandshakeError::BadSignature => {
                "handshake signature verification failed (possible MITM)".to_string()
            },
            HandshakeError::Session(e) => e.message(),
        }
    }
}

/// Verifies the peer's signature over the transcript, under the role that it
/// signed in.
pub fn verify_signature(
    signing_public: &VerifyingKey,
    signature: &[u8; 64],
    transcript: &[u8],
    is_initiator: bool,
) -> (res: Result<(), HandshakeError>)
    ensures
        res == (if primitives::ed25519_verifies(
            signing_public@,
            signed_message(transcript@, is_initiator),
            signature@,
        ) {
            Ok::<(), HandshakeError>(())
        } else {
            Err::<(), HandshakeError>(HandshakeError::BadSignature)
        }),
{
    let message = transcript_for_signing(transcript, is_initiator);
    if signing_public.verify(message.as_slice(), signature) {
        Ok(())
    } else {
        Err(HandshakeError::BadSignature)
    }
}

/// One side of a handshake: who it is, its key for this session, its role.
pub struct Party {
    pub identity: Identity,
    pub ephemeral: EphemeralSecret,
    pub is_initiator: bool,
}

/// How far a handshake has come.
///
/// The initiator sends its bundle, receives the peer's, receives the peer's
/// signature and sends its own. The responder receives the bundle, sends its
/// own, sends its signature and receives the peer's.
pub enum Stage {
    /// The next thing to do is to send the bundle. The responder has received
    /// the peer's by now.
    SendBundle { peer_bundle: Option<Seq<u8>> },
    /// The next thing to do is to receive the peer's bundle.
    ReceiveBundle,
    /// The next thing to do is to send the signature. The initiator has
    /// received the peer's by now.
    SendSignature { peer: PeerView, peer_signature: Option<Seq<u8>> },
    /// The next thing to do is to receive the peer's signature.
    ReceiveSignature { peer: PeerView },
}

/// What a handshake does next.
pub enum Step {
    /// It goes on.
    Next(Stage),
    /// It has failed.
    Failed(HandshakeError),
    /// It is done: a session with this peer stands.
    Done(PeerView),
}

/// The bundle that a side sends.
pub open spec fn my_bundle(me: Party) -> Seq<u8> {
    bundle_of(me.ephemeral.public_bytes(), me.identity.public@, me.identity.signing.verifying@)
}

/// The signature that a side sends.
pub open spec fn my_signature(me: Party, peer: PeerView) -> Seq<u8> {
    primitives::ed25519_signature(
        me.identity.signing.seed@,
        signed_message(transcript_with(me, peer), me.is_initiator),
    )
}

/// Where a side starts.
pub open spec fn first_stage(is_initiator: bool) -> Stage {
    if is_initiator {
        Stage::SendBundle { peer_bundle: None }
    } else {
        Stage::ReceiveBundle
    }
}

/// What follows once both bundles are exchanged.
pub open spec fn after_bundles(me: Party, bundle: Seq<u8>) -> Step {
    let peer = peer_in(bundle);
    if !primitives::ed25519_is_key(peer.signing_public) {
        Step::Failed(HandshakeError::InvalidSigningKey)
    } else if me.is_initiator {
        Step::Next(Stage::ReceiveSignature { peer })
    } else {
        Step::Next(Stage::SendSignature { peer, peer_signature: None })
    }
}

/// Whether a signature is one of the peer's key over this session's keys, under
/// the role opposite to one's own.
pub open spec fn is_signed_by(me: Party, peer: PeerView, signature: Seq<u8>) -> bool {
    primitives::ed25519_verifies(
        peer.signing_public,
        signed_message(transcript_with(me, peer), !me.is_initiator),
        signature,
    )
}

/// What follows once both signatures are exchanged.
pub open spec fn after_signatures(me: Party, peer: PeerView, signature: Seq<u8>) -> Step {
    if !is_signed_by(me, peer, signature) {
        Step::Failed(HandshakeError::BadSignature)
    } else if crypto::is_degenerate(peer) {
        Step::Failed(HandshakeError::Session(CryptoError::DegenerateKey))
    } else {
        Step::Done(peer)
    }
}

/// What follows when the bytes of a sending stage have been sent.
pub open spec fn after_sending(me: Party, stage: Stage) -> Step {
    match stage {
        Stage::SendBundle { peer_bundle: None } => Step::Next(Stage::ReceiveBundle),
        Stage::SendBundle { peer_bundle: Some(bundle) } => after_bundles(me, bundle),
        Stage::SendSignature { peer, peer_signature: None } => Step::Next(
            Stage::ReceiveSignature { peer },
        ),
        Stage::SendSignature { peer, peer_signature: Some(signature) } => after_signatures(
            me,
            peer,
            signature,
        ),
        _ => Step::Next(stage),
    }
}

/// What follows when the bytes of a receiving stage have come.
pub open spec fn after_receiving(me: Party, stage: Stage, data: Seq<u8>) -> Step {
    match stage {
        Stage::ReceiveBundle => if me.is_initiator {
            after_bundles(me, data)
        } else {
            Step::Next(Stage::SendBundle { peer_bundle: Some(data) })
        },
        Stage::ReceiveSignature { peer } => if me.is_initiator {
            Step::Next(Stage::SendSignature { peer, peer_signature: Some(data) })
        } else {
            after_signatures(me, peer, data)
        },
        _ => Step::Next(stage),
    }
}

/// A stage, with what the peer has sent.
enum StageData {
    SendBundle { peer_bundle: Option<[u8; 96]> },
    ReceiveBundle,
    SendSignature { peer: PeerKeys, peer_signature: Option<[u8; 64]> },
    ReceiveSignature { peer: PeerKeys },
}

impl View for StageData {
    type V = Stage;

    closed spec fn view(&self) -> Stage {
        match self {
            StageData::SendBundle { peer_bundle: Some(bundle) } => Stage::SendBundle {
                peer_bundle: Some(bundle@),
            },
            StageData::SendBundle { peer_bundle: None } => Stage::SendBundle { peer_bundle: None },
            StageData::ReceiveBundle => Stage::ReceiveBundle,
            StageData::SendSignature { peer, peer_signature: Some(signature) } => Stage::SendSignature {
                peer: peer@,
                peer_signature: Some(signature@),
            },
            StageData::SendSignature { peer, peer_signature: None } => Stage::SendSignature {
                peer: peer@,
                peer_signature: None,
            },
            StageData::ReceiveSignature { peer } => Stage::ReceiveSignature { peer: peer@ },
        }
    }
}

/// A handshake under way.
pub struct Handshake {
    party: Party,
    stage: StageData,
}

/// What a handshake asks its caller to do.
pub enum HandshakeAction {
    /// Send these bytes.
    Send(Vec<u8>),
    /// Receive this many bytes.
    Receive(usize),
}

/// What a handshake has come to.
pub enum Progress {
    /// There is more to exchange.
    Continue(Handshake),
    /// The session stands.
    Established { sender: SessionSender, receiver: SessionReceiver, peer: PeerKeys },
}

/// Whether a step of a handshake came out as it should.
pub open spec fn came_to(res: Result<Progress, HandshakeError>, me: Party, step: Step) -> bool {
    match step {
        Step::Next(stage) => match res {
            Ok(Progress::Continue(next)) => next.party() == me && next.stage() == stage,
            _ => false,
        },
        Step::Failed(e) => match res {
            Err(f) => f == e,
            _ => false,
        },
        Step::Done(view) => match res {
            Ok(Progress::Established { sender, receiver, peer }) => {
                &&& peer@ == view
                &&& crypto::is_session(
                    sender,
                    receiver,
                    me.identity,
                    me.ephemeral,
                    view,
                    me.is_initiator,
                )
            },
            _ => false,
        },
    }
}

impl Handshake {
    /// The side that runs the handshake.
    pub closed spec fn party(self) -> Party {
        self.party
    }

    /// How far it has come.
    pub closed spec fn stage(self) -> Stage {
        self.stage@
    }

    /// Starts a handshake. The ephemeral key must be fresh.
    pub fn start(identity: &Identity, ephemeral: EphemeralSecret, is_initiator: bool) -> (res: Self)
        ensures
            res.party() == (Party { identity: *identity, ephemeral, is_initiator }),
            res.stage() == first_stage(is_initiator),
    {
        let party = Party { identity: identity.clone(), ephemeral, is_initiator };
        let stage = if is_initiator {
            StageData::SendBundle { peer_bundle: None }
        } else {
            StageData::ReceiveBundle
        };
        Handshake { party, stage }
    }

    /// The transcript, once the peer's keys are known.
    fn transcript(&self, peer: &PeerKeys) -> (res: Vec<u8>)
        ensures
            res@ == transcript_with(self.party(), peer@),
    {
        let me = &self.party;
        if me.is_initiator {
            transcript_bytes(
                &me.identity.public,
                &peer.static_public,
                me.ephemeral.public(),
                &peer.ephemeral_public,
            )
        } else {
            transcript_bytes(
                &peer.static_public,
                &me.identity.public,
                &peer.ephemeral_public,
                me.ephemeral.public(),
            )
        }
    }

    /// What to do next: which bytes to send, or how many to receive.
    pub fn action(&self) -> (res: HandshakeAction)
        ensures
            match self.stage() {
                Stage::SendBundle { peer_bundle } => {
                    &&& res matches HandshakeAction::Send(data)
                    &&& data@ == my_bundle(self.party())
                    &&& data@.len() == BUNDLE_LEN
                },
                Stage::ReceiveBundle => res == HandshakeAction::Receive(BUNDLE_LEN),
                Stage::SendSignature { peer, peer_signature } => {
                    &&& res matches HandshakeAction::Send(data)
                    &&& data@ == my_signature(self.party(), peer)
                    &&& data@.len() == SIGNATURE_LEN
                },
                Stage::ReceiveSignature { peer } => res == HandshakeAction::Receive(SIGNATURE_LEN),
            },
    {
        match &self.stage {
            StageData::SendBundle { peer_bundle } => {
                let mut bundle: Vec<u8> = Vec::new();
                let me = &self.party;
                bytes::append(&mut bundle, me.ephemeral.public().as_bytes().as_slice());
                bytes::append(&mut bundle, me.identity.public.as_bytes().as_slice());
                let verifying = me.identity.signing.verifying_key();
                bytes::append(&mut bundle, verifying.as_bytes().as_slice());
                assert(bundle@ =~= my_bundle(self.party()));
                HandshakeAction::Send(bundle)
            },
            StageData::ReceiveBundle => HandshakeAction::Receive(BUNDLE_LEN),
            StageData::SendSignature { peer, peer_signature } => {
                let transcript = self.transcript(peer);
                let message = transcript_for_signing(
                    transcript.as_slice(),
                    self.party.is_initiator,
                );
                let signature: [u8; 64] = self.party.identity.signing.sign(message.as_slice());
                let mut data: Vec<u8> = Vec::new();
                bytes::append(&mut data, signature.as_slice());
                assert(data@ =~= signature@);
                HandshakeAction::Send(data)
            },
            StageData::ReceiveSignature { peer } => HandshakeAction::Receive(SIGNATURE_LEN),
        }
    }

    /// Goes on when both bundles are exchanged.
    fn bundles_exchanged(self, bundle: &[u8; 96]) -> (res: Result<Progress, HandshakeError>)
        ensures
            came_to(res, self.party(), after_bundles(self.party(), bundle@)),
    {
        let slice = bundle.as_slice();
        let ephemeral_public = PublicKey::from_bytes(bytes::array_32(slice, 0));
        let static_public = PublicKey::from_bytes(bytes::array_32(slice, 32));
        let signing_public = match VerifyingKey::from_bytes(bytes::array_32(slice, 64)) {
            Some(key) => key,
            None => return Err(HandshakeError::InvalidSigningKey),
        };
        let peer = PeerKeys { static_public, signing_public, ephemeral_public };
        let stage = if self.party.is_initiator {
            StageData::ReceiveSignature { peer }
        } else {
            StageData::SendSignature { peer, peer_signature: None }
        };
        Ok(Progress::Continue(Handshake { party: self.party, stage }))
    }

    /// Concludes when both signatures are exchanged.
    fn signatures_exchanged(self, peer: PeerKeys, signature: &[u8; 64]) -> (res: Result<
        Progress,
        HandshakeError,
    >)
        ensures
            came_to(res, self.party(), after_signatures(self.party(), peer@, signature@)),
    {
        let transcript = self.transcript(&peer);
        let me = &self.party;
        verify_signature(
            &peer.signing_public,
            signature,
            transcript.as_slice(),
            !me.is_initiator,
        )?;
        match crypto::make_session(&me.identity, &me.ephemeral, &peer, me.is_initiator) {
            Ok((sender, receiver)) => Ok(Progress::Established { sender, receiver, peer }),
            Err(e) => Err(HandshakeError::Session(e)),
        }
    }

    /// Goes on after the bytes of the last action have been sent.
    pub fn sent(self) -> (res: Result<Progress, HandshakeError>)
        ensures
            came_to(res, self.party(), after_sending(self.party(), self.stage())),
    {
        match self.stage {
            StageData::SendBundle { peer_bundle: None } => Ok(
                Progress::Continue(
                    Handshake { party: self.party, stage: StageData::ReceiveBundle },
                ),
            ),
            StageData::SendBundle { peer_bundle: Some(bundle) } => self.bundles_exchanged(&bundle),
            StageData::SendSignature { peer, peer_signature: None } => Ok(
                Progress::Continue(
                    Handshake {
                        party: self.party,
                        stage: StageData::ReceiveSignature { peer },
                    },
                ),
            ),
            StageData::SendSignature { peer, peer_signature: Some(signature) } => {
                self.signatures_exchanged(peer, &signature)
            },
            _ => Ok(Progress::Continue(self)),
        }
    }

    /// Goes on after the bytes that the last action asked for have come.
    pub fn received(self, data: &[u8]) -> (res: Result<Progress, HandshakeError>)
        requires
            self.stage() is ReceiveBundle ==> data@.len() == BUNDLE_LEN,
            self.stage() is ReceiveSignature ==> data@.len() == SIGNATURE_LEN,
        ensures
            came_to(res, self.party(), after_receiving(self.party(), self.stage(), data@)),
    {
        match self.stage {
            StageData::ReceiveBundle => {
                let bundle: [u8; 96] = array_96(data);
                if self.party.is_initiator {
                    self.bundles_exchanged(&bundle)
                } else {
                    let stage = StageData::SendBundle { peer_bundle: Some(bundle) };
                    Ok(Progress::Continue(Handshake { party: self.party, stage }))
                }
            },
            StageData::ReceiveSignature { peer } => {
                let signature: [u8; 64] = array_64(data);
                if self.party.is_initiator {
                    let stage = StageData::SendSignature { peer, peer_signature: Some(signature) };
                    Ok(Progress::Continue(Handshake { party: self.party, stage }))
                } else {
                    self.signatures_exchanged(peer, &signature)
                }
            },
            _ => Ok(Progress::Continue(self)),
        }
    }
}

/// A bundle's worth of bytes.
fn array_96(data: &[u8]) -> (res: [u8; 96])
    requires
        data@.len() == 96,
    ensures
        res@ == data@,
{
    let mut res: [u8; 96] = [0u8; 96];
    let mut i: usize = 0;
    while i < 96
        invariant
            i <= 96,
            data@.len() == 96,
            forall|j: int| 0 <= j < i ==> res@[j] == data@[j],
        decreases 96 - i,
    {
        res[i] = data[i];
        i = i + 1;
    }
    assert(res@ =~= data@);
    res
}

/// A signature's worth of bytes.
fn array_64(data: &[u8]) -> (res: [u8; 64])
    requires
        data@.len() == 64,
    ensures
        res@ == data@,
{
    let mut res: [u8; 64] = [0u8; 64];
    let mut i: usize = 0;
    while i < 64
        invariant
            i <= 64,
            data@.len() == 64,
            forall|j: int| 0 <= j < i ==> res@[j] == data@[j],
        decreases 64 - i,
    {
        res[i] = data[i];
        i = i + 1;
    }
    assert(res@ =~= data@);
    res
}

/// Keys of the lengths that a transcript is made of.
pub open spec fn are_keys(a: Seq<u8>, b: Seq<u8>, c: Seq<u8>, d: Seq<u8>) -> bool {
    a.len() == 32 && b.len() == 32 && c.len() == 32 && d.len() == 32
}

/// What is signed binds every key and the role: where two signed messages are
/// the same, so are all four keys and the role. A signature from an earlier
/// session, or from the other role, is one on different bytes.
pub proof fn signed_message_binds_keys_and_role(
    is1: Seq<u8>,
    rs1: Seq<u8>,
    ie1: Seq<u8>,
    re1: Seq<u8>,
    role1: bool,
    is2: Seq<u8>,
    rs2: Seq<u8>,
    ie2: Seq<u8>,
    re2: Seq<u8>,
    role2: bool,
)
    requires
        are_keys(is1, rs1, ie1, re1),
        are_keys(is2, rs2, ie2, re2),
        signed_message(transcript(is1, rs1, ie1, re1), role1) == signed_message(
            transcript(is2, rs2, ie2, re2),
            role2,
        ),
    ensures
        is1 == is2,
        rs1 == rs2,
        ie1 == ie2,
        re1 == re2,
        role1 == role2,
{
    let m1 = signed_message(transcript(is1, rs1, ie1, re1), role1);
    let m2 = signed_message(transcript(is2, rs2, ie2, re2), role2);
    let n = sign_context().len() as int + 1;
    assert(is1 =~= m1.subrange(n, n + 32));
    assert(is2 =~= m2.subrange(n, n + 32));
    assert(rs1 =~= m1.subrange(n + 32, n + 64));
    assert(rs2 =~= m2.subrange(n + 32, n + 64));
    assert(ie1 =~= m1.subrange(n + 64, n + 96));
    assert(ie2 =~= m2.subrange(n + 64, n + 96));
    assert(re1 =~= m1.subrange(n + 96, n + 128));
    assert(re2 =~= m2.subrange(n + 96, n + 128));
    assert(m1[n + 128] == role_tag(role1));
    assert(m2[n + 128] == role_tag(role2));
}

/// No session stands unless the bytes that the peer sent as its signature are
/// one of the key that it sent as its own, over this session's keys and under
/// the peer's role, and neither of the peer's public keys is all zeros.
pub proof fn session_needs_a_valid_signature(me: Party, stage: Stage, data: Seq<u8>, peer: PeerView)
    ensures
        after_sending(me, stage) == Step::Done(peer) ==> {
            &&& stage matches Stage::SendSignature { peer: sent, peer_signature: Some(signature) }
                && sent == peer && is_signed_by(me, peer, signature)
            &&& !crypto::is_degenerate(peer)
        },
        after_receiving(me, stage, data) == Step::Done(peer) ==> {
            &&& stage == (Stage::ReceiveSignature { peer })
            &&& is_signed_by(me, peer, data)
            &&& !crypto::is_degenerate(peer)
        },
{
}

/// Goes on with the next step, unless the handshake is over.
pub open spec fn and_then(step: Step, next: spec_fn(Stage) -> Step) -> Step {
    match step {
        Step::Next(stage) => next(stage),
        over => over,
    }
}

/// What a handshake comes to, step by step, where the peer sends this bundle
/// and this signature. The initiator sends its bundle first and its signature
/// last; the responder receives the bundle first and the signature last.
pub open spec fn run(me: Party, bundle: Seq<u8>, signature: Seq<u8>) -> Step {
    let send = |stage: Stage| after_sending(me, stage);
    let receive_bundle = |stage: Stage| after_receiving(me, stage, bundle);
    let receive_signature = |stage: Stage| after_receiving(me, stage, signature);
    let start = Step::Next(first_stage(me.is_initiator));
    if me.is_initiator {
        and_then(
            and_then(and_then(and_then(start, send), receive_bundle), receive_signature),
            send,
        )
    } else {
        and_then(
            and_then(and_then(and_then(start, receive_bundle), send), send),
            receive_signature,
        )
    }
}

/// What the peer sends alone decides the handshake. Either side fails where
/// the signing key in the bundle is none, then where the signature is not one
/// of that key over this session's keys, then where a public key is all zeros;
/// and else it stands, with the keys in the bundle.
pub proof fn handshake_is_decided_by_what_the_peer_sends(
    me: Party,
    bundle: Seq<u8>,
    signature: Seq<u8>,
)
    ensures
        ({
            let peer = peer_in(bundle);
            run(me, bundle, signature) == if !primitives::ed25519_is_key(peer.signing_public) {
                Step::Failed(HandshakeError::InvalidSigningKey)
            } else if !is_signed_by(me, peer, signature) {
                Step::Failed(HandshakeError::BadSignature)
            } else if crypto::is_degenerate(peer) {
                Step::Failed(HandshakeError::Session(CryptoError::DegenerateKey))
            } else {
                Step::Done(peer)
            }
        }),
{
}

/// Whether two sides are honest and take the two roles: each has the keys of
/// its own secrets.
pub open spec fn are_honest(initiator: Party, responder: Party) -> bool {
    &&& initiator.is_initiator
    &&& !responder.is_initiator
    &&& initiator.identity.wf()
    &&& initiator.ephemeral.wf()
    &&& responder.identity.wf()
    &&& responder.ephemeral.wf()
}

/// Two honest sides complete the handshake: where each receives what the other
/// sends, each is done, with the other's keys, and both have derived the same
/// pair of session keys.
pub proof fn honest_handshake_succeeds(initiator: Party, responder: Party)
    requires
        are_honest(initiator, responder),
    ensures
        ({
            let i_sees = peer_in(my_bundle(responder));
            let r_sees = peer_in(my_bundle(initiator));
            &&& run(initiator, my_bundle(responder), my_signature(responder, r_sees))
                == Step::Done(i_sees)
            &&& run(responder, my_bundle(initiator), my_signature(initiator, i_sees))
                == Step::Done(r_sees)
            &&& i_sees == (PeerView {
                static_public: responder.identity.public@,
                signing_public: responder.identity.signing.verifying@,
                ephemeral_public: responder.ephemeral.public_bytes(),
            })
            &&& r_sees == (PeerView {
                static_public: initiator.identity.public@,
                signing_public: initiator.identity.signing.verifying@,
                ephemeral_public: initiator.ephemeral.public_bytes(),
            })
            &&& crypto::session_okm(initiator.identity, initiator.ephemeral, i_sees, true)
                == crypto::session_okm(responder.identity, responder.ephemeral, r_sees, false)
        }),
{
    let i_sees = peer_in(my_bundle(responder));
    let r_sees = peer_in(my_bundle(initiator));
    assert(i_sees.ephemeral_public =~= responder.ephemeral.public_bytes());
    assert(i_sees.static_public =~= responder.identity.public@);
    assert(i_sees.signing_public =~= responder.identity.signing.verifying@);
    assert(r_sees.ephemeral_public =~= initiator.ephemeral.public_bytes());
    assert(r_sees.static_public =~= initiator.identity.public@);
    assert(r_sees.signing_public =~= initiator.identity.signing.verifying@);
    assert(transcript_with(initiator, i_sees) == transcript_with(responder, r_sees));
    crypto::both_sides_derive_the_same_keys(
        initiator.identity,
        initiator.ephemeral,
        responder.identity,
        responder.ephemeral,
        i_sees,
        r_sees,
    );
}

/// Over the sessions that a handshake between two honest sides gives them, what
/// either encrypts first the other decrypts to the same bytes, and the two stay
/// in step for what follows.
pub proof fn honest_handshake_carries_messages(
    initiator: Party,
    initiator_sender: SessionSender,
    initiator_receiver: SessionReceiver,
    responder: Party,
    responder_sender: SessionSender,
    responder_receiver: SessionReceiver,
)
    requires
        are_honest(initiator, responder),
        crypto::is_session(
            initiator_sender,
            initiator_receiver,
            initiator.identity,
            initiator.ephemeral,
            peer_in(my_bundle(responder)),
            true,
        ),
        crypto::is_session(
            responder_sender,
            responder_receiver,
            responder.identity,
            responder.ephemeral,
            peer_in(my_bundle(initiator)),
            false,
        ),
    ensures
        carries_messages(initiator_sender, responder_receiver),
        carries_messages(responder_sender, initiator_receiver),
{
    honest_handshake_succeeds(initiator, responder);
    crypto::sessions_are_in_step(
        initiator.identity,
        initiator.ephemeral,
        initiator_sender,
        initiator_receiver,
        responder.identity,
        responder.ephemeral,
        responder_sender,
        responder_receiver,
        peer_in(my_bundle(responder)),
        peer_in(my_bundle(initiator)),
    );
}

/// Whether what a sending half encrypts next is what the receiving half then
/// decrypts, and both are in step again after it.
pub open spec fn carries_messages(sender: SessionSender, receiver: SessionReceiver) -> bool {
    forall|
        sender_after: SessionSender,
        receiver_after: SessionReceiver,
        plaintext: Seq<u8>,
        ciphertext: Seq<u8>,
        received: Result<Seq<u8>, CryptoError>,
    |
        #![trigger crypto::encrypts(sender, sender_after, plaintext, Ok(ciphertext)),
            crypto::decrypts(receiver, receiver_after, ciphertext, received)]
        crypto::encrypts(sender, sender_after, plaintext, Ok(ciphertext)) && crypto::decrypts(
            receiver,
            receiver_after,
            ciphertext,
            received,
        ) ==> received == Ok::<Seq<u8>, CryptoError>(plaintext) && crypto::in_step(
            sender_after,
            receiver_after,
        )
}

} // verus!
