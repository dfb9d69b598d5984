//! The cryptographic functions that other crates supply, on plain bytes.
//!
//! Nothing is proved of the functions that call an outside crate: their
//! contracts say what the rest of the library relies on. Where the result would
//! take pages to state it is given a name, a specification function without a
//! body.

use crate::bytes::all_zero;
use aead::Aead;
use chacha20poly1305::{aead, ChaCha20Poly1305, Key, KeyInit, Nonce};
use ed25519_dalek::{Signature, Signer, SigningKey, Verifier, VerifyingKey};
use hkdf::Hkdf;
use rand::rngs::OsRng;
use sha2::{Digest, Sha256};
use vstd::prelude::*;
use x25519_dalek::{PublicKey, StaticSecret};
use zeroize::Zeroize;

verus! {

/// The X25519 public key of a secret.
pub uninterp spec fn x25519_public(secret: Seq<u8>) -> Seq<u8>;

/// The X25519 shared secret of one side's secret and the other's public key.
pub uninterp spec fn x25519_shared(secret: Seq<u8>, public: Seq<u8>) -> Seq<u8>;

/// The Ed25519 verifying key of a seed.
pub uninterp spec fn ed25519_public(seed: Seq<u8>) -> Seq<u8>;

/// Whether 32 bytes are the encoding of an Ed25519 verifying key.
pub uninterp spec fn ed25519_is_key(bytes: Seq<u8>) -> bool;

/// The Ed25519 signature that a seed makes on a message.
pub uninterp spec fn ed25519_signature(seed: Seq<u8>, message: Seq<u8>) -> Seq<u8>;

/// Whether 32 bytes encode an Ed25519 verifying key that accepts a signature
/// on a message.
pub uninterp spec fn ed25519_verifies(
    public: Seq<u8>,
    message: Seq<u8>,
    signature: Seq<u8>,
) -> bool;

/// The SHA-256 digest of some bytes.
pub uninterp spec fn sha256(data: Seq<u8>) -> Seq<u8>;

/// The first `len` bytes of HKDF-SHA256 output keying material.
pub uninterp spec fn hkdf_sha256(
    salt: Option<Seq<u8>>,
    ikm: Seq<u8>,
    info: Seq<u8>,
    len: nat,
) -> Seq<u8>;

/// What ChaCha20-Poly1305 makes of a plaintext, without associated data.
pub uninterp spec fn chacha_seal(key: Seq<u8>, nonce: Seq<u8>, plaintext: Seq<u8>) -> Seq<u8>;

/// The plaintext that ChaCha20-Poly1305 finds in a ciphertext, if it accepts
/// it.
pub uninterp spec fn chacha_open(
    key: Seq<u8>,
    nonce: Seq<u8>,
    ciphertext: Seq<u8>,
) -> Option<Seq<u8>>;

/// How many bytes ChaCha20-Poly1305 adds to a plaintext.
pub const TAG_LEN: usize = 16;

/// From this many bytes on, ChaCha20-Poly1305 refuses a plaintext: the block
/// counter would overflow.
pub const SEAL_LIMIT: u64 = 274_877_906_880;

/// Whether ChaCha20-Poly1305 answers for a plaintext of this length. In the
/// last block below the limit the keystream runs out and the cipher panics.
pub open spec fn seal_answers(len: int) -> bool {
    len <= SEAL_LIMIT - 64 || len >= SEAL_LIMIT
}

/// Whether ChaCha20-Poly1305 answers for a plaintext of this length.
pub fn can_seal(len: usize) -> (res: bool)
    ensures
        res == seal_answers(len as int),
{
    len as u64 <= SEAL_LIMIT - 64 || len as u64 >= SEAL_LIMIT
}

/// `StaticSecret::random_from_rng` of `x25519_dalek` with the operating
/// system's random number generator: 32 random bytes. Nothing is claimed of
/// them. Where the operating system has no random bytes to give, the generator
/// panics; no argument decides that.
#[verifier::external_body]
pub(crate) fn random_secret() -> (res: [u8; 32]) {
    StaticSecret::random_from_rng(OsRng).to_bytes()
}

/// `PublicKey::from` a `StaticSecret` of `x25519_dalek`. The result is named;
/// the two sides of an exchange reach the same shared secret, whichever other
/// secret takes part; and the key is not all zeros.
///
/// The last follows from what `curve25519_dalek` documents of the calls made.
/// `clamp_integer` makes of the secret a multiple `8 * m` with `m` between 2^251
/// and 2^252 - 1, and `BASEPOINT_ORDER` is a prime above 2^252, so the multiple
/// of the base point is not the identity; nor is it the point of order two, as
/// the order is odd. Those two points alone are what `to_montgomery` sends to
/// zero.
#[verifier::external_body]
pub(crate) fn x25519_public_key(secret: &[u8; 32]) -> (res: [u8; 32])
    ensures
        res@ == x25519_public(secret@),
        forall|other: Seq<u8>|
            other.len() == 32 ==> #[trigger] x25519_shared(other, res@) == x25519_shared(
                secret@,
                x25519_public(other),
            ),
        !all_zero(res@),
{
    PublicKey::from(&StaticSecret::from(*secret)).to_bytes()
}

/// `StaticSecret::diffie_hellman` of `x25519_dalek`. The result is named.
#[verifier::external_body]
pub(crate) fn x25519_agree(secret: &[u8; 32], public: &[u8; 32]) -> (res: [u8; 32])
    ensures
        res@ == x25519_shared(secret@, public@),
{
    StaticSecret::from(*secret).diffie_hellman(&PublicKey::from(*public)).to_bytes()
}

/// `SigningKey::verifying_key` of `ed25519_dalek`. The result is named; it is
/// the encoding of a key, and that key accepts every signature made with the
/// seed.
#[verifier::external_body]
pub(crate) fn ed25519_public_key(seed: &[u8; 32]) -> (res: [u8; 32])
    ensures
        res@ == ed25519_public(seed@),
        ed25519_is_key(res@),
        forall|message: Seq<u8>| #[trigger]
            ed25519_verifies(res@, message, ed25519_signature(seed@, message)),
{
    SigningKey::from_bytes(seed).verifying_key().to_bytes()
}

/// `VerifyingKey::from_bytes` of `ed25519_dalek`: whether it accepts the
/// bytes. The result is named.
#[verifier::external_body]
pub(crate) fn ed25519_key_is_valid(bytes: &[u8; 32]) -> (res: bool)
    ensures
        res == ed25519_is_key(bytes@),
{
    VerifyingKey::from_bytes(bytes).is_ok()
}

/// `SigningKey::sign` of `ed25519_dalek`, which is deterministic. The result
/// is named.
#[verifier::external_body]
pub(crate) fn ed25519_sign(seed: &[u8; 32], message: &[u8]) -> (res: [u8; 64])
    ensures
        res@ == ed25519_signature(seed@, message@),
{
    SigningKey::from_bytes(seed).sign(message).to_bytes()
}

/// `VerifyingKey::verify` of `ed25519_dalek`, on a key given by its bytes:
/// whether the bytes are a key that accepts the signature. The result is
/// named.
#[verifier::external_body]
pub(crate) fn ed25519_verify(public: &[u8; 32], message: &[u8], signature: &[u8; 64]) -> (res: bool)
    ensures
        res == ed25519_verifies(public@, message@, signature@),
{
    match VerifyingKey::from_bytes(public) {
        Ok(key) => key.verify(message, &Signature::from_bytes(signature)).is_ok(),
        Err(_) => false,
    }
}

/// `Sha256::digest` of `sha2`. The digest is named. The bound on the input keeps
/// the hash function's length counter from overflowing.
#[verifier::external_body]
pub(crate) fn sha256_digest(data: &[u8]) -> (res: [u8; 32])
    requires
        data@.len() <= 0xffff,
    ensures
        res@ == sha256(data@),
{
    Sha256::digest(data).into()
}

/// `Hkdf::<Sha256>::new` and `expand` of `hkdf`. The output is named, and has
/// the length that was asked for, which may be no more than 255 blocks of 32
/// bytes. The bounds on the inputs keep the hash function's own length counter
/// from overflowing.
#[verifier::external_body]
pub(crate) fn hkdf_expand(salt: Option<&[u8]>, ikm: &[u8], info: &[u8], len: usize) -> (res: Vec<
    u8,
>)
    requires
        salt matches Some(s) ==> s@.len() <= 0xffff,
        ikm@.len() <= 0xffff,
        info@.len() <= 0xffff,
        len <= 8160,
    ensures
        res@.len() == len,
        res@ == hkdf_sha256(
            match salt {
                Some(s) => Some(s@),
                None => None,
            },
            ikm@,
            info@,
            len as nat,
        ),
{
    let mut okm = vec![0u8; len];
    Hkdf::<Sha256>::new(salt, ikm).expand(info, &mut okm).expect("the length is within the limit");
    okm
}

/// `ChaCha20Poly1305::encrypt` of `chacha20poly1305`, without associated data.
/// It gives a ciphertext for every plaintext below the limit. The ciphertext
/// is named; it is the tag's length longer than the plaintext, and opens to
/// the plaintext under the same key and nonce.
#[verifier::external_body]
pub(crate) fn chacha_encrypt(key: &[u8; 32], nonce: &[u8; 12], plaintext: &[u8]) -> (res: Option<
    Vec<u8>,
>)
    requires
        seal_answers(plaintext@.len() as int),
    ensures
        res is Some <==> plaintext@.len() < SEAL_LIMIT,
        res matches Some(c) ==> {
            &&& c@ == chacha_seal(key@, nonce@, plaintext@)
            &&& c@.len() == plaintext@.len() + TAG_LEN
            &&& chacha_open(key@, nonce@, c@) == Some(plaintext@)
        },
{
    match ChaCha20Poly1305::new(&Key::from(*key)).encrypt(&Nonce::from(*nonce), plaintext) {
        Ok(ciphertext) => Some(ciphertext),
        Err(_) => None,
    }
}

/// `ChaCha20Poly1305::decrypt` of `chacha20poly1305`, without associated data.
/// The result is named. What it accepts is the very ciphertext that
/// encrypting the plaintext gives under the same key and nonce.
#[verifier::external_body]
pub(crate) fn chacha_decrypt(key: &[u8; 32], nonce: &[u8; 12], ciphertext: &[u8]) -> (res: Option<
    Vec<u8>,
>)
    requires
        seal_answers(ciphertext@.len() - TAG_LEN),
    ensures
        res is Some <==> chacha_open(key@, nonce@, ciphertext@) is Some,
        res matches Some(p) ==> {
            &&& chacha_open(key@, nonce@, ciphertext@) == Some(p@)
            &&& ciphertext@ == chacha_seal(key@, nonce@, p@)
            &&& ciphertext@.len() == p@.len() + TAG_LEN
        },
{
    match ChaCha20Poly1305::new(&Key::from(*key)).decrypt(&Nonce::from(*nonce), ciphertext) {
        Ok(plaintext) => Some(plaintext),
        Err(_) => None,
    }
}

/// `Zeroize::zeroize` of `zeroize` on a vector: its bytes are overwritten with
/// zeros, and it is left empty.
#[verifier::external_body]
pub(crate) fn wipe(secret: &mut Vec<u8>)
    ensures
        final(secret)@ == Seq::<u8>::empty(),
{
    secret.zeroize();
}

} // verus!
