//! What holds of keys, fingerprints and encrypted messages.

use crate::bytes;
use crate::crypto::{
    self, CryptoError, EphemeralSecret, Identity, PeerView, SessionReceiver, SessionSender,
};
use crate::primitives;
use crate::text;
use vstd::prelude::*;
use vstd::utf8::encode_utf8;

verus! {

/// An identity has the keys of its secret: the X25519 public key of the secret,
/// and the Ed25519 keys of the seed that is derived from it.
pub proof fn identity_has_the_keys_of_its_secret(identity: Identity)
    requires
        identity.wf(),
    ensures
        identity.public@ == primitives::x25519_public(identity.secret@),
        identity.signing.seed@ == primitives::hkdf_sha256(
            None,
            identity.secret@,
            encode_utf8("directmessages-ed25519-v1"@),
            32,
        ),
        identity.signing.verifying@ == primitives::ed25519_public(identity.signing.seed@),
        forall|message: Seq<u8>| #[trigger]
            primitives::ed25519_verifies(
                identity.signing.verifying@,
                message,
                primitives::ed25519_signature(identity.signing.seed@, message),
            ),
{
}

/// A fingerprint is the digest of both long-term keys, X25519 first, with two
/// digits for each of its bytes.
pub proof fn fingerprint_is_a_digest_in_hexadecimal(public: Seq<u8>, signing: Seq<u8>)
    ensures
        crypto::fingerprint_of(public, signing) == text::hex(
            primitives::sha256(public + signing),
        ),
{
}

/// Different digests are different fingerprints: no digit of a digest is left
/// out.
pub proof fn fingerprint_tells_digests_apart(
    public1: Seq<u8>,
    signing1: Seq<u8>,
    public2: Seq<u8>,
    signing2: Seq<u8>,
)
    requires
        crypto::fingerprint_of(public1, signing1) == crypto::fingerprint_of(public2, signing2),
    ensures
        primitives::sha256(public1 + signing1) == primitives::sha256(public2 + signing2),
{
    text::hex_reads_back(primitives::sha256(public1 + signing1));
    text::hex_reads_back(primitives::sha256(public2 + signing2));
}

/// What the initiator derives its two keys from: four exchanges, salted with all
/// four public keys. A session is refused exactly where a public key of the peer
/// is all zeros.
pub proof fn initiator_derives_from_four_exchanges(
    identity: Identity,
    ephemeral: EphemeralSecret,
    peer: PeerView,
)
    ensures
        ({
            let okm = primitives::hkdf_sha256(
                Some(
                    identity.public@ + peer.static_public + ephemeral.public_bytes()
                        + peer.ephemeral_public,
                ),
                primitives::x25519_shared(ephemeral.secret_bytes(), peer.ephemeral_public)
                    + primitives::x25519_shared(identity.secret@, peer.static_public) + (
                primitives::x25519_shared(ephemeral.secret_bytes(), peer.static_public)
                    + primitives::x25519_shared(identity.secret@, peer.ephemeral_public)),
                encode_utf8("directmessages-v2"@),
                64,
            );
            let zero = Seq::new(32, |i: int| 0u8);
            peer.static_public.len() == 32 && peer.ephemeral_public.len() == 32
                ==> crypto::directional_keys(identity, ephemeral, peer, true) == (
            if peer.static_public == zero || peer.ephemeral_public == zero {
                Err::<(Seq<u8>, Seq<u8>), CryptoError>(CryptoError::DegenerateKey)
            } else {
                Ok((okm.subrange(0, 32), okm.subrange(32, 64)))
            })
        }),
{
    if peer.static_public.len() == 32 && peer.ephemeral_public.len() == 32 {
        crate::laws::texts::only_zeros_are_all_zero(peer.static_public);
        crate::laws::texts::only_zeros_are_all_zero(peer.ephemeral_public);
    }
}

/// What the responder derives its two keys from: the same four exchanges and the
/// same salt, each in the place that the initiator has it in.
pub proof fn responder_derives_from_four_exchanges(
    identity: Identity,
    ephemeral: EphemeralSecret,
    peer: PeerView,
)
    ensures
        ({
            let okm = primitives::hkdf_sha256(
                Some(
                    peer.static_public + identity.public@ + peer.ephemeral_public
                        + ephemeral.public_bytes(),
                ),
                primitives::x25519_shared(ephemeral.secret_bytes(), peer.ephemeral_public)
                    + primitives::x25519_shared(identity.secret@, peer.static_public) + (
                primitives::x25519_shared(identity.secret@, peer.ephemeral_public)
                    + primitives::x25519_shared(ephemeral.secret_bytes(), peer.static_public)),
                encode_utf8("directmessages-v2"@),
                64,
            );
            let zero = Seq::new(32, |i: int| 0u8);
            peer.static_public.len() == 32 && peer.ephemeral_public.len() == 32
                ==> crypto::directional_keys(identity, ephemeral, peer, false) == (
            if peer.static_public == zero || peer.ephemeral_public == zero {
                Err::<(Seq<u8>, Seq<u8>), CryptoError>(CryptoError::DegenerateKey)
            } else {
                Ok((okm.subrange(0, 32), okm.subrange(32, 64)))
            })
        }),
{
    if peer.static_public.len() == 32 && peer.ephemeral_public.len() == 32 {
        crate::laws::texts::only_zeros_are_all_zero(peer.static_public);
        crate::laws::texts::only_zeros_are_all_zero(peer.ephemeral_public);
    }
}

/// The initiator sends under the first key and receives under the second, the
/// responder the other way round, and both begin to count at zero.
pub proof fn roles_take_opposite_keys(
    sender: SessionSender,
    receiver: SessionReceiver,
    identity: Identity,
    ephemeral: EphemeralSecret,
    peer: PeerView,
    is_initiator: bool,
    first: Seq<u8>,
    second: Seq<u8>,
)
    requires
        crypto::is_session(sender, receiver, identity, ephemeral, peer, is_initiator),
        crypto::directional_keys(identity, ephemeral, peer, is_initiator) == Ok::<
            (Seq<u8>, Seq<u8>),
            CryptoError,
        >((first, second)),
    ensures
        is_initiator ==> sender.key() == first && receiver.key() == second,
        !is_initiator ==> sender.key() == second && receiver.key() == first,
        sender.counter() == 0,
        receiver.counter() == 0,
{
}

/// The nonce of a message is four zeros, then its number in eight bytes.
pub proof fn nonce_has_the_number_at_its_end(counter: u64)
    ensures
        crypto::nonce_of(counter).len() == 12,
        forall|i: int| 0 <= i < 4 ==> #[trigger] crypto::nonce_of(counter)[i] == 0,
        crypto::nonce_of(counter).skip(4) == bytes::u64_be(counter),
{
    assert(crypto::nonce_of(counter).skip(4) =~= bytes::u64_be(counter));
}

/// Encryption succeeds for every message: where the counter is not used up and
/// the ciphertext is no longer than a frame may carry, there is a ciphertext.
pub proof fn every_message_is_encrypted(
    before: SessionSender,
    after: SessionSender,
    plaintext: Seq<u8>,
    res: Result<Vec<u8>, CryptoError>,
)
    requires
        crypto::encrypts(before, after, plaintext, crypto::bytes_in(res)),
        before.counter() < u64::MAX,
        plaintext.len() + 16 <= 65536,
    ensures
        res matches Ok(ciphertext) && ciphertext@.len() == plaintext.len() + 16,
{
}

/// What encrypting gives, and does to the sending half: under its key and the
/// nonce of its counter, which moves on by one. It fails where the counter is
/// used up or the cipher refuses the length, and nowhere else.
pub proof fn encryption_is_decided_by_counter_and_length(
    before: SessionSender,
    after: SessionSender,
    plaintext: Seq<u8>,
    res: Result<Vec<u8>, CryptoError>,
)
    requires
        crypto::encrypts(before, after, plaintext, crypto::bytes_in(res)),
    ensures
        after.key() == before.key(),
        before.counter() == u64::MAX ==> {
            &&& res matches Err(e) && e == CryptoError::CounterOverflow
            &&& after.counter() == u64::MAX
        },
        before.counter() < u64::MAX ==> {
            &&& after.counter() == before.counter() + 1
            &&& plaintext.len() < 274_877_906_880 ==> (res matches Ok(c) && c@
                == primitives::chacha_seal(
                before.key(),
                crypto::nonce_of(before.counter()),
                plaintext,
            ) && primitives::chacha_open(
                before.key(),
                crypto::nonce_of(before.counter()),
                c@,
            ) == Some(plaintext))
            &&& plaintext.len() >= 274_877_906_880 ==> (res matches Err(e) && e
                == CryptoError::EncryptionFailed)
        },
{
}

/// What decrypting gives, and does to the receiving half: what the cipher finds
/// under its key and the nonce of its counter, which moves on by one whether
/// the ciphertext is accepted or not.
pub proof fn decryption_is_decided_by_the_cipher(
    before: SessionReceiver,
    after: SessionReceiver,
    ciphertext: Seq<u8>,
    res: Result<Vec<u8>, CryptoError>,
)
    requires
        crypto::decrypts(before, after, ciphertext, crypto::bytes_in(res)),
    ensures
        after.key() == before.key(),
        before.counter() == u64::MAX ==> {
            &&& res matches Err(e) && e == CryptoError::CounterOverflow
            &&& after.counter() == u64::MAX
        },
        before.counter() < u64::MAX ==> {
            &&& after.counter() == before.counter() + 1
            &&& match primitives::chacha_open(
                before.key(),
                crypto::nonce_of(before.counter()),
                ciphertext,
            ) {
                Some(plaintext) => res matches Ok(p) && p@ == plaintext,
                None => res matches Err(e) && e == CryptoError::DecryptionFailed,
            }
        },
{
}

/// Every message arrives: what the sending end of a direction makes of it, which
/// is never an error below the length of a frame, the receiving end decrypts to
/// the very message, and the two stay in step.
pub proof fn every_message_arrives(
    sender: SessionSender,
    sender_after: SessionSender,
    receiver: SessionReceiver,
    receiver_after: SessionReceiver,
    plaintext: Seq<u8>,
    sent: Result<Vec<u8>, CryptoError>,
    received: Result<Vec<u8>, CryptoError>,
)
    requires
        crypto::in_step(sender, receiver),
        sender.counter() < u64::MAX,
        plaintext.len() + 16 <= 65536,
        crypto::encrypts(sender, sender_after, plaintext, crypto::bytes_in(sent)),
        sent matches Ok(ciphertext) ==> crypto::decrypts(
            receiver,
            receiver_after,
            ciphertext@,
            crypto::bytes_in(received),
        ),
    ensures
        sent is Ok,
        received matches Ok(p) && p@ == plaintext,
        crypto::in_step(sender_after, receiver_after),
        sender_after.counter() == sender.counter() + 1,
{
}

/// The two ends of a direction have the same key and the same count.
pub proof fn ends_in_step_agree(sender: SessionSender, receiver: SessionReceiver)
    ensures
        crypto::in_step(sender, receiver) <==> sender.key() == receiver.key() && sender.counter()
            == receiver.counter(),
{
}

/// The cipher answers for everything that fits a frame, and for every length but
/// those of the last block below its limit.
pub proof fn cipher_answers_for_every_message(len: int)
    ensures
        len + 16 <= 65536 ==> primitives::seal_answers(len),
        primitives::seal_answers(len) <==> !(274_877_906_816 < len < 274_877_906_880),
{
}

} // verus!
