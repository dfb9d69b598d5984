//! Identities, fingerprints, session-key derivation and the two halves of an
//! encrypted session.
//!
//! An identity pairs a static X25519 key, for key agreement, with an Ed25519
//! signing key, for authenticating handshakes. Session keys come from four
//! Diffie-Hellman exchanges, ephemeral with ephemeral, static with static, and
//! both cross terms, so that every session gets fresh keys.

use crate::bytes::{all_zero, append, array_32, is_all_zero, u64_be};
use crate::primitives::{
    chacha_decrypt, chacha_encrypt, chacha_open, chacha_seal, ed25519_is_key, ed25519_key_is_valid,
    ed25519_public, ed25519_public_key, ed25519_sign, ed25519_signature, ed25519_verifies, ed25519_verify,
    hkdf_expand, hkdf_sha256, random_secret, seal_answers, sha256, sha256_digest, wipe,
    x25519_agree, x25519_public, x25519_public_key, x25519_shared, SEAL_LIMIT, TAG_LEN,
};
use crate::text::{hex, hex_encode};
use vstd::prelude::*;
use vstd::utf8::{encode_utf8, is_ascii_chars_encode_utf8};

verus! {

/// The maximum length of a single message payload, in bytes.
pub const MAX_MESSAGE_LEN: usize = 64 * 1024;

/// Length in bytes of one X25519 public key.
pub const PUBLIC_KEY_LEN: usize = 32;

/// Length in bytes of one Ed25519 public key.
pub const SIGNING_KEY_LEN: usize = 32;

/// Length in bytes of one Ed25519 signature.
pub const SIGNATURE_LEN: usize = 64;

/// What can go wrong with a session.
#[derive(Clone, Copy, Debug, PartialEq, Eq, Structural)]
pub enum CryptoError {
    /// A public key of the peer is all zeros, which makes the shared secrets
    /// predictable.
    DegenerateKey,
    /// The message counter of this direction is used up.
    CounterOverflow,
    /// The cipher refused the plaintext.
    EncryptionFailed,
    /// The cipher did not accept the ciphertext.
    DecryptionFailed,
}

impl CryptoError {
    /// The error in words.
    pub open spec fn text(self) -> Seq<char> {
        match self {
            CryptoError::DegenerateKey => "peer public key is degenerate (all zeros)"@,
            CryptoError::CounterOverflow => "nonce counter overflow"@,
            CryptoError::EncryptionFailed => "encryption failed: aead::Error"@,
            CryptoError::DecryptionFailed => "decryption failed: aead::Error"@,
        }
    }

    /// The error in words.
    pub fn message(&self) -> (res: String)
        ensures
            res@ == self.text(),
    {
        match self {
            CryptoError::DegenerateKey => "peer public key is degenerate (all zeros)".to_string(),
            CryptoError::CounterOverflow => "nonce counter overflow".to_string(),
            CryptoError::EncryptionFailed => "encryption failed: aead::Error".to_string(),
            CryptoError::DecryptionFailed => "decryption failed: aead::Error".to_string(),
        }
    }
}

/// An X25519 public key.
#[derive(Clone, Copy, Debug, PartialEq, Eq)]
pub struct PublicKey {
    pub bytes: [u8; 32],
}

impl View for PublicKey {
    type V = Seq<u8>;

    open spec fn view(&self) -> Seq<u8> {
        self.bytes@
    }
}

impl PublicKey {
    /// The key with these bytes.
    pub fn from_bytes(bytes: [u8; 32]) -> (res: Self)
        ensures
            res@ == bytes@,
    {
        PublicKey { bytes }
    }

    /// The bytes of the key.
    pub fn as_bytes(&self) -> (res: &[u8; 32])
        ensures
            res@ == self@,
    {
        &self.bytes
    }
}

/// An Ed25519 verifying key.
#[derive(Clone, Copy, Debug, PartialEq, Eq)]
pub struct VerifyingKey {
    pub bytes: [u8; 32],
}

impl View for VerifyingKey {
    type V = Seq<u8>;

    open spec fn view(&self) -> Seq<u8> {
        self.bytes@
    }
}

impl VerifyingKey {
    /// Whether the bytes are the encoding of a key.
    pub open spec fn wf(self) -> bool {
        ed25519_is_key(self@)
    }

    /// The key with these bytes, if they are the encoding of one.
    pub fn from_bytes(bytes: [u8; 32]) -> (res: Option<Self>)
        ensures
            res is Some <==> ed25519_is_key(bytes@),
            res matches Some(key) ==> key.wf() && key@ == bytes@,
    {
        if ed25519_key_is_valid(&bytes) {
            Some(VerifyingKey { bytes })
        } else {
            None
        }
    }

    /// The bytes of the key.
    pub fn as_bytes(&self) -> (res: &[u8; 32])
        ensures
            res@ == self@,
    {
        &self.bytes
    }

    /// Whether the key accepts the signature on the message.
    pub fn verify(&self, message: &[u8], signature: &[u8; 64]) -> (res: bool)
        ensures
            res == ed25519_verifies(self@, message@, signature@),
    {
        ed25519_verify(&self.bytes, message, signature)
    }
}

/// An Ed25519 signing key: its seed, and the verifying key that goes with it.
pub struct SigningKey {
    pub seed: [u8; 32],
    pub verifying: VerifyingKey,
}

impl SigningKey {
    /// The verifying key is that of the seed, and accepts what the seed signs.
    pub open spec fn wf(self) -> bool {
        &&& self.verifying@ == ed25519_public(self.seed@)
        &&& self.verifying.wf()
        &&& forall|message: Seq<u8>| #[trigger]
            ed25519_verifies(self.verifying@, message, ed25519_signature(self.seed@, message))
    }

    /// The signing key with this seed.
    pub fn from_bytes(seed: [u8; 32]) -> (res: Self)
        ensures
            res.wf(),
            res.seed@ == seed@,
    {
        let verifying = VerifyingKey { bytes: ed25519_public_key(&seed) };
        SigningKey { seed, verifying }
    }

    /// The seed.
    pub fn to_bytes(&self) -> (res: [u8; 32])
        ensures
            res@ == self.seed@,
    {
        self.seed
    }

    /// The verifying key.
    pub fn verifying_key(&self) -> (res: VerifyingKey)
        ensures
            res == self.verifying,
    {
        self.verifying
    }

    /// Signs a message.
    pub fn sign(&self, message: &[u8]) -> (res: [u8; 64])
        ensures
            res@ == ed25519_signature(self.seed@, message@),
    {
        ed25519_sign(&self.seed, message)
    }
}

impl Clone for SigningKey {
    fn clone(&self) -> (res: Self)
        ensures
            res == *self,
    {
        SigningKey { seed: self.seed, verifying: self.verifying }
    }
}

/// A public key goes with a secret when every other side reaches with it the
/// shared secret that the secret reaches with that side's public key.
pub open spec fn agrees(secret: Seq<u8>, public: Seq<u8>) -> bool {
    forall|other: Seq<u8>|
        other.len() == 32 ==> #[trigger] x25519_shared(other, public) == x25519_shared(
            secret,
            x25519_public(other),
        )
}

/// The label under which the signing seed is derived.
pub open spec fn signing_label() -> Seq<u8> {
    encode_utf8("directmessages-ed25519-v1"@)
}

/// The label under which session keys are derived.
pub open spec fn session_label() -> Seq<u8> {
    encode_utf8("directmessages-v2"@)
}

/// The seed of the signing key that belongs to an X25519 secret.
pub open spec fn signing_seed(secret: Seq<u8>) -> Seq<u8> {
    hkdf_sha256(None, secret, signing_label(), 32)
}

/// A node's persistent identity: an X25519 keypair for key agreement and an
/// Ed25519 keypair for signing handshakes.
pub struct Identity {
    pub secret: [u8; 32],
    pub public: PublicKey,
    pub signing: SigningKey,
}

impl Identity {
    /// Everything in the identity is derived from the secret.
    pub open spec fn wf(self) -> bool {
        &&& self.public@ == x25519_public(self.secret@)
        &&& agrees(self.secret@, self.public@)
        &&& !all_zero(self.public@)
        &&& self.signing.seed@ == signing_seed(self.secret@)
        &&& self.signing.wf()
    }

    /// Generates a fresh random identity.
    pub fn generate() -> (res: Self)
        ensures
            res.wf(),
    {
        Self::from_secret_bytes(random_secret())
    }

    /// Rebuilds an identity from a raw 32-byte secret key.
    pub fn from_secret_bytes(bytes: [u8; 32]) -> (res: Self)
        ensures
            res.wf(),
            res.secret@ == bytes@,
    {
        let public = PublicKey { bytes: x25519_public_key(&bytes) };
        let signing = signing_key_from_secret(&bytes);
        Identity { secret: bytes, public, signing }
    }
}

impl Clone for Identity {
    fn clone(&self) -> (res: Self)
        ensures
            res == *self,
    {
        Identity { secret: self.secret, public: self.public, signing: self.signing.clone() }
    }
}

/// A stored secret yields the whole identity: two identities with the same
/// secret have the same keys.
pub proof fn identity_is_determined_by_its_secret(first: Identity, second: Identity)
    requires
        first.wf(),
        second.wf(),
        first.secret@ == second.secret@,
    ensures
        first.public@ == second.public@,
        first.signing.seed@ == second.signing.seed@,
        first.signing.verifying@ == second.signing.verifying@,
{
}

/// An ASCII label has one byte for each character.
proof fn label_lengths()
    ensures
        signing_label().len() == 25,
        session_label().len() == 17,
{
    reveal_strlit("directmessages-ed25519-v1");
    reveal_strlit("directmessages-v2");
    is_ascii_chars_encode_utf8("directmessages-ed25519-v1"@);
    is_ascii_chars_encode_utf8("directmessages-v2"@);
}

/// Derives the handshake-signing key from the X25519 secret, so that a single
/// stored secret yields the whole identity.
fn signing_key_from_secret(secret: &[u8; 32]) -> (res: SigningKey)
    ensures
        res.wf(),
        res.seed@ == signing_seed(secret@),
{
    let label: &str = "directmessages-ed25519-v1";
    proof {
        label_lengths();
    }
    let mut seed = hkdf_expand(None, secret.as_slice(), label.as_bytes(), 32);
    assert(seed@.subrange(0, 32) =~= seed@);
    let key = SigningKey::from_bytes(array_32(seed.as_slice(), 0));
    wipe(&mut seed);
    key
}

/// A short-lived X25519 keypair for a single session.
pub struct EphemeralSecret {
    secret: [u8; 32],
    public: PublicKey,
}

impl EphemeralSecret {
    /// The bytes of the secret.
    pub closed spec fn secret_bytes(self) -> Seq<u8> {
        self.secret@
    }

    /// The bytes of the public key.
    pub closed spec fn public_bytes(self) -> Seq<u8> {
        self.public@
    }

    /// The public key is that of the secret.
    pub open spec fn wf(self) -> bool {
        &&& self.secret_bytes().len() == 32
        &&& self.public_bytes().len() == 32
        &&& self.public_bytes() == x25519_public(self.secret_bytes())
        &&& agrees(self.secret_bytes(), self.public_bytes())
        &&& !all_zero(self.public_bytes())
    }

    /// Generates a fresh ephemeral keypair.
    pub fn generate() -> (res: Self)
        ensures
            res.wf(),
    {
        Self::from_secret_bytes(random_secret())
    }

    /// The ephemeral keypair with this secret.
    pub fn from_secret_bytes(bytes: [u8; 32]) -> (res: Self)
        ensures
            res.wf(),
            res.secret_bytes() == bytes@,
    {
        let public = PublicKey { bytes: x25519_public_key(&bytes) };
        EphemeralSecret { secret: bytes, public }
    }

    /// The public key.
    pub fn public(&self) -> (res: &PublicKey)
        ensures
            res@ == self.public_bytes(),
    {
        &self.public
    }
}

/// The peer's long-term and session keys.
#[derive(Clone, Copy, Debug, PartialEq, Eq)]
pub struct PeerKeys {
    /// Static X25519 key, the key-agreement identity.
    pub static_public: PublicKey,
    /// Ed25519 key that signed the handshake.
    pub signing_public: VerifyingKey,
    /// X25519 key of this session.
    pub ephemeral_public: PublicKey,
}

/// The bytes of a peer's keys.
pub struct PeerView {
    pub static_public: Seq<u8>,
    pub signing_public: Seq<u8>,
    pub ephemeral_public: Seq<u8>,
}

impl View for PeerKeys {
    type V = PeerView;

    open spec fn view(&self) -> PeerView {
        PeerView {
            static_public: self.static_public@,
            signing_public: self.signing_public@,
            ephemeral_public: self.ephemeral_public@,
        }
    }
}

/// The fingerprint of a pair of long-term keys: the hexadecimal SHA-256 digest
/// of the X25519 key followed by the Ed25519 key.
pub open spec fn fingerprint_of(public: Seq<u8>, signing_public: Seq<u8>) -> Seq<char> {
    hex(sha256(public + signing_public))
}

/// The SHA-256 fingerprint of a peer's long-term keys, in 64 hexadecimal
/// characters.
pub fn fingerprint(public: &PublicKey, signing_public: &VerifyingKey) -> (res: String)
    ensures
        res@ == fingerprint_of(public@, signing_public@),
        res@.len() == 64,
{
    let mut keys: Vec<u8> = Vec::with_capacity(64);
    append(&mut keys, public.as_bytes().as_slice());
    append(&mut keys, signing_public.as_bytes().as_slice());
    assert(keys@ =~= public@ + signing_public@);
    let digest: [u8; 32] = sha256_digest(keys.as_slice());
    hex_encode(digest.as_slice())
}

/// A fingerprint covers both long-term keys: where what is digested for two
/// fingerprints is the same, so are both keys.
pub proof fn fingerprint_covers_both_keys(
    public1: Seq<u8>,
    signing1: Seq<u8>,
    public2: Seq<u8>,
    signing2: Seq<u8>,
)
    requires
        public1.len() == 32,
        signing1.len() == 32,
        public2.len() == 32,
        signing2.len() == 32,
        public1 + signing1 == public2 + signing2,
    ensures
        public1 == public2,
        signing1 == signing2,
{
    let digested1 = public1 + signing1;
    let digested2 = public2 + signing2;
    assert(public1 =~= digested1.subrange(0, 32));
    assert(public2 =~= digested2.subrange(0, 32));
    assert(signing1 =~= digested1.subrange(32, 64));
    assert(signing2 =~= digested2.subrange(32, 64));
}

/// The input keying material of a session: the four shared secrets, the cross
/// terms ordered by role.
pub open spec fn session_ikm(
    secret: Seq<u8>,
    ephemeral_secret: Seq<u8>,
    peer_public: Seq<u8>,
    peer_ephemeral_public: Seq<u8>,
    is_initiator: bool,
) -> Seq<u8> {
    let mine_ephemeral = x25519_shared(ephemeral_secret, peer_public);
    let mine_static = x25519_shared(secret, peer_ephemeral_public);
    x25519_shared(ephemeral_secret, peer_ephemeral_public) + x25519_shared(secret, peer_public) + (
    if is_initiator {
        mine_ephemeral + mine_static
    } else {
        mine_static + mine_ephemeral
    })
}

/// The salt of a session: both static keys and both ephemeral keys, the
/// initiator's first.
pub open spec fn session_salt(
    identity: Identity,
    my_ephemeral: EphemeralSecret,
    peer: PeerView,
    is_initiator: bool,
) -> Seq<u8> {
    let my_public = identity.public@;
    let my_ephemeral_public = my_ephemeral.public_bytes();
    if is_initiator {
        my_public + peer.static_public + my_ephemeral_public + peer.ephemeral_public
    } else {
        peer.static_public + my_public + peer.ephemeral_public + my_ephemeral_public
    }
}

/// Both keys of a session: the first half of these 64 bytes is the key from
/// the initiator to the responder, the second half the key back.
pub open spec fn session_okm(
    identity: Identity,
    my_ephemeral: EphemeralSecret,
    peer: PeerView,
    is_initiator: bool,
) -> Seq<u8> {
    hkdf_sha256(
        Some(session_salt(identity, my_ephemeral, peer, is_initiator)),
        session_ikm(
            identity.secret@,
            my_ephemeral.secret_bytes(),
            peer.static_public,
            peer.ephemeral_public,
            is_initiator,
        ),
        session_label(),
        64,
    )
}

/// Whether the peer sent a public key that no session may be built on.
pub open spec fn is_degenerate(peer: PeerView) -> bool {
    all_zero(peer.static_public) || all_zero(peer.ephemeral_public)
}

/// The two directional keys of a session, from the initiator to the responder
/// and back, unless the peer sent a key that no session may be built on.
pub open spec fn directional_keys(
    identity: Identity,
    my_ephemeral: EphemeralSecret,
    peer: PeerView,
    is_initiator: bool,
) -> Result<(Seq<u8>, Seq<u8>), CryptoError> {
    if is_degenerate(peer) {
        Err(CryptoError::DegenerateKey)
    } else {
        let okm = session_okm(identity, my_ephemeral, peer, is_initiator);
        Ok((okm.subrange(0, 32), okm.subrange(32, 64)))
    }
}

/// The two halves of a new session for a given role: the initiator sends under
/// the first of the two keys and receives under the second, the responder the
/// other way round.
pub open spec fn is_session(
    sender: SessionSender,
    receiver: SessionReceiver,
    identity: Identity,
    my_ephemeral: EphemeralSecret,
    peer: PeerView,
    is_initiator: bool,
) -> bool {
    let okm = session_okm(identity, my_ephemeral, peer, is_initiator);
    let c2s = okm.subrange(0, 32);
    let s2c = okm.subrange(32, 64);
    &&& okm.len() == 64
    &&& sender.key() == if is_initiator { c2s } else { s2c }
    &&& receiver.key() == if is_initiator { s2c } else { c2s }
    &&& sender.counter() == 0
    &&& receiver.counter() == 0
}

/// The 128 bytes of four keys, one after the other.
fn join_four(a: &[u8; 32], b: &[u8; 32], c: &[u8; 32], d: &[u8; 32]) -> (res: Vec<u8>)
    ensures
        res@ == a@ + b@ + c@ + d@,
        res@.len() == 128,
{
    let mut res: Vec<u8> = Vec::with_capacity(128);
    append(&mut res, a.as_slice());
    append(&mut res, b.as_slice());
    append(&mut res, c.as_slice());
    append(&mut res, d.as_slice());
    assert(res@ =~= a@ + b@ + c@ + d@);
    res
}

/// Rejects all-zero public keys, which make the shared secret predictable.
fn assert_valid_public_key(public: &PublicKey) -> (res: Result<(), CryptoError>)
    ensures
        res == (if all_zero(public@) {
            Err::<(), CryptoError>(CryptoError::DegenerateKey)
        } else {
            Ok::<(), CryptoError>(())
        }),
{
    if is_all_zero(public.as_bytes().as_slice()) {
        Err(CryptoError::DegenerateKey)
    } else {
        Ok(())
    }
}

/// The two directional keys of a session, from the initiator to the responder
/// and back.
pub fn derive_directional_keys(
    identity: &Identity,
    my_ephemeral: &EphemeralSecret,
    peer: &PeerKeys,
    is_initiator: bool,
) -> (res: Result<([u8; 32], [u8; 32]), CryptoError>)
    ensures
        directional_keys(*identity, *my_ephemeral, peer@, is_initiator) == (match res {
            Ok((c2s, s2c)) => Ok((c2s@, s2c@)),
            Err(e) => Err(e),
        }),
        res is Ok ==> session_okm(*identity, *my_ephemeral, peer@, is_initiator).len() == 64,
{
    let peer_public = &peer.static_public;
    let peer_ephemeral_public = &peer.ephemeral_public;
    assert_valid_public_key(peer_public)?;
    assert_valid_public_key(peer_ephemeral_public)?;

    // The fresh randomness that gives each session unique keys.
    let shared_ephemeral = x25519_agree(&my_ephemeral.secret, peer_ephemeral_public.as_bytes());
    // Authenticates the session to both identities.
    let shared_static = x25519_agree(&identity.secret, peer_public.as_bytes());
    // The cross terms go in slots fixed by role, so that both sides assemble
    // the same bytes.
    let mine_ephemeral = x25519_agree(&my_ephemeral.secret, peer_public.as_bytes());
    let mine_static = x25519_agree(&identity.secret, peer_ephemeral_public.as_bytes());

    let my_public = identity.public.as_bytes();
    let my_ephemeral_public = my_ephemeral.public.as_bytes();
    let mut ikm = if is_initiator {
        join_four(&shared_ephemeral, &shared_static, &mine_ephemeral, &mine_static)
    } else {
        join_four(&shared_ephemeral, &shared_static, &mine_static, &mine_ephemeral)
    };
    let salt = if is_initiator {
        join_four(
            my_public,
            peer_public.as_bytes(),
            my_ephemeral_public,
            peer_ephemeral_public.as_bytes(),
        )
    } else {
        join_four(
            peer_public.as_bytes(),
            my_public,
            peer_ephemeral_public.as_bytes(),
            my_ephemeral_public,
        )
    };
    proof {
        label_lengths();
        assert(ikm@ =~= session_ikm(
            identity.secret@,
            my_ephemeral.secret_bytes(),
            peer.static_public@,
            peer.ephemeral_public@,
            is_initiator,
        ));
    }
    let label: &str = "directmessages-v2";
    let mut okm = hkdf_expand(Some(salt.as_slice()), ikm.as_slice(), label.as_bytes(), 64);
    wipe(&mut ikm);
    let c2s = array_32(okm.as_slice(), 0);
    let s2c = array_32(okm.as_slice(), 32);
    wipe(&mut okm);
    Ok((c2s, s2c))
}

/// The nonce of a direction's message with this number: four zero bytes, then
/// the number in eight bytes, most significant first.
pub open spec fn nonce_of(counter: u64) -> Seq<u8> {
    seq![0u8, 0u8, 0u8, 0u8] + u64_be(counter)
}

/// Builds the nonce of a message from its number.
fn nonce_from_counter(counter: u64) -> (res: [u8; 12])
    ensures
        res@ == nonce_of(counter),
{
    let high: [u8; 4] = crate::bytes::encode_u32((counter / 0x1_0000_0000) as u32);
    let low: [u8; 4] = crate::bytes::encode_u32((counter % 0x1_0000_0000) as u32);
    let res: [u8; 12] = [
        0, 0, 0, 0, high[0], high[1], high[2], high[3], low[0], low[1], low[2], low[3],
    ];
    assert(res@ =~= nonce_of(counter));
    res
}

/// Encrypts messages in one direction of a session.
pub struct SessionSender {
    key: [u8; 32],
    counter: u64,
}

/// Decrypts messages from the opposite direction of a session.
pub struct SessionReceiver {
    key: [u8; 32],
    counter: u64,
}

/// A result with its bytes as a sequence.
pub open spec fn bytes_in(res: Result<Vec<u8>, CryptoError>) -> Result<Seq<u8>, CryptoError> {
    match res {
        Ok(bytes) => Ok(bytes@),
        Err(e) => Err(e),
    }
}

/// What a sending half makes of a plaintext: it seals it under its key and the
/// nonce of its counter, unless the counter is used up or the plaintext is too
/// long for the cipher.
pub open spec fn sealed(sender: SessionSender, plaintext: Seq<u8>) -> Result<Seq<u8>, CryptoError> {
    if sender.counter() == u64::MAX {
        Err(CryptoError::CounterOverflow)
    } else if plaintext.len() >= SEAL_LIMIT {
        Err(CryptoError::EncryptionFailed)
    } else {
        Ok(chacha_seal(sender.key(), nonce_of(sender.counter()), plaintext))
    }
}

/// The counter after one more message. A counter that is used up stays.
pub open spec fn next_counter(counter: u64) -> u64 {
    if counter == u64::MAX {
        counter
    } else {
        (counter + 1) as u64
    }
}

/// What encrypting a message does to the sending half, and gives. The counter
/// moves on. What comes out is the tag longer than what went in, and opens to
/// it again under the same key and nonce.
pub open spec fn encrypts(
    before: SessionSender,
    after: SessionSender,
    plaintext: Seq<u8>,
    res: Result<Seq<u8>, CryptoError>,
) -> bool {
    &&& after == before.advanced()
    &&& after.key() == before.key()
    &&& after.counter() == next_counter(before.counter())
    &&& res == sealed(before, plaintext)
    &&& res matches Ok(ciphertext) ==> {
        let nonce = nonce_of(before.counter());
        &&& ciphertext.len() == plaintext.len() + TAG_LEN
        &&& chacha_open(before.key(), nonce, ciphertext) == Some(plaintext)
    }
}

/// What a receiving half finds in a ciphertext: it opens it under its key and
/// the nonce of its counter, unless the counter is used up.
pub open spec fn opened(receiver: SessionReceiver, ciphertext: Seq<u8>) -> Result<
    Seq<u8>,
    CryptoError,
> {
    if receiver.counter() == u64::MAX {
        Err(CryptoError::CounterOverflow)
    } else {
        match chacha_open(receiver.key(), nonce_of(receiver.counter()), ciphertext) {
            Some(plaintext) => Ok(plaintext),
            None => Err(CryptoError::DecryptionFailed),
        }
    }
}

/// What decrypting a message does to the receiving half, and gives. The counter
/// moves on unless it is used up. What is accepted is the very ciphertext that
/// sealing the plaintext gives.
pub open spec fn decrypts(
    before: SessionReceiver,
    after: SessionReceiver,
    ciphertext: Seq<u8>,
    res: Result<Seq<u8>, CryptoError>,
) -> bool {
    &&& after.key() == before.key()
    &&& after.counter() == next_counter(before.counter())
    &&& res == opened(before, ciphertext)
    &&& res matches Ok(plaintext) ==> {
        &&& ciphertext == chacha_seal(before.key(), nonce_of(before.counter()), plaintext)
        &&& ciphertext.len() == plaintext.len() + TAG_LEN
    }
}

/// Whether a sending half and a receiving half are the two ends of a direction,
/// with nothing on the way.
pub open spec fn in_step(sender: SessionSender, receiver: SessionReceiver) -> bool {
    sender.key() == receiver.key() && sender.counter() == receiver.counter()
}

impl SessionSender {
    /// The key of this direction.
    pub closed spec fn key(self) -> Seq<u8> {
        self.key@
    }

    /// How many messages this half has taken.
    pub closed spec fn counter(self) -> u64 {
        self.counter
    }

    /// This half with its counter moved on by one message.
    pub closed spec fn advanced(self) -> Self {
        SessionSender { key: self.key, counter: next_counter(self.counter) }
    }

    /// The sending half of a direction that has carried `counter` messages.
    pub fn at(key: [u8; 32], counter: u64) -> (res: Self)
        ensures
            res.key() == key@,
            res.counter() == counter,
    {
        SessionSender { key, counter }
    }

    /// Whether the counter is used up, so that nothing more can be encrypted.
    pub fn is_used_up(&self) -> (res: bool)
        ensures
            res == (self.counter() == u64::MAX),
    {
        self.counter == u64::MAX
    }

    /// Encrypts a plaintext message for this direction.
    ///
    /// A receiver with the same key and counter finds the plaintext in what
    /// comes back.
    pub fn encrypt(&mut self, plaintext: &[u8]) -> (res: Result<Vec<u8>, CryptoError>)
        requires
            old(self).counter() < u64::MAX ==> seal_answers(plaintext@.len() as int),
        ensures
            encrypts(*old(self), *final(self), plaintext@, bytes_in(res)),
    {
        let nonce = nonce_from_counter(self.counter);
        match self.counter.checked_add(1) {
            Some(next) => self.counter = next,
            None => return Err(CryptoError::CounterOverflow),
        }
        match chacha_encrypt(&self.key, &nonce, plaintext) {
            Some(ciphertext) => Ok(ciphertext),
            None => Err(CryptoError::EncryptionFailed),
        }
    }
}

impl SessionReceiver {
    /// The key of this direction.
    pub closed spec fn key(self) -> Seq<u8> {
        self.key@
    }

    /// How many messages this half has taken.
    pub closed spec fn counter(self) -> u64 {
        self.counter
    }

    /// The receiving half of a direction that has carried `counter` messages.
    pub fn at(key: [u8; 32], counter: u64) -> (res: Self)
        ensures
            res.key() == key@,
            res.counter() == counter,
    {
        SessionReceiver { key, counter }
    }

    /// Decrypts a ciphertext message from this direction.
    ///
    /// What is accepted is the very ciphertext that a sender with the same key
    /// and counter makes of the plaintext.
    pub fn decrypt(&mut self, ciphertext: &[u8]) -> (res: Result<Vec<u8>, CryptoError>)
        requires
            old(self).counter() < u64::MAX ==> seal_answers(ciphertext@.len() - TAG_LEN),
        ensures
            decrypts(*old(self), *final(self), ciphertext@, bytes_in(res)),
    {
        let nonce = nonce_from_counter(self.counter);
        match self.counter.checked_add(1) {
            Some(next) => self.counter = next,
            None => return Err(CryptoError::CounterOverflow),
        }
        match chacha_decrypt(&self.key, &nonce, ciphertext) {
            Some(plaintext) => Ok(plaintext),
            None => Err(CryptoError::DecryptionFailed),
        }
    }
}

/// Builds the send and receive halves of a session for a given role.
pub fn make_session(
    identity: &Identity,
    my_ephemeral: &EphemeralSecret,
    peer: &PeerKeys,
    is_initiator: bool,
) -> (res: Result<(SessionSender, SessionReceiver), CryptoError>)
    ensures
        res is Err <==> is_degenerate(peer@),
        res matches Err(e) ==> e == CryptoError::DegenerateKey,
        res matches Ok((sender, receiver)) ==> is_session(
            sender,
            receiver,
            *identity,
            *my_ephemeral,
            peer@,
            is_initiator,
        ),
{
    let (c2s, s2c) = derive_directional_keys(identity, my_ephemeral, peer, is_initiator)?;
    if is_initiator {
        Ok((SessionSender::at(c2s, 0), SessionReceiver::at(s2c, 0)))
    } else {
        Ok((SessionSender::at(s2c, 0), SessionReceiver::at(c2s, 0)))
    }
}

/// The two sides of a session derive the same pair of keys, in the same order:
/// what one sends under is what the other receives under, in both directions.
pub proof fn both_sides_derive_the_same_keys(
    alice: Identity,
    alice_ephemeral: EphemeralSecret,
    bob: Identity,
    bob_ephemeral: EphemeralSecret,
    seen_by_alice: PeerView,
    seen_by_bob: PeerView,
)
    requires
        alice.wf(),
        alice_ephemeral.wf(),
        bob.wf(),
        bob_ephemeral.wf(),
        seen_by_alice.static_public == bob.public@,
        seen_by_alice.ephemeral_public == bob_ephemeral.public_bytes(),
        seen_by_bob.static_public == alice.public@,
        seen_by_bob.ephemeral_public == alice_ephemeral.public_bytes(),
    ensures
        session_okm(alice, alice_ephemeral, seen_by_alice, true) == session_okm(
            bob,
            bob_ephemeral,
            seen_by_bob,
            false,
        ),
        directional_keys(alice, alice_ephemeral, seen_by_alice, true) is Ok,
        directional_keys(alice, alice_ephemeral, seen_by_alice, true) == directional_keys(
            bob,
            bob_ephemeral,
            seen_by_bob,
            false,
        ),
{
    let a = alice.secret@;
    let b = bob.secret@;
    let ae = alice_ephemeral.secret_bytes();
    let be = bob_ephemeral.secret_bytes();
    assert(x25519_shared(ae, bob_ephemeral.public_bytes()) == x25519_shared(be, x25519_public(ae)));
    assert(x25519_shared(a, bob.public@) == x25519_shared(b, x25519_public(a)));
    assert(x25519_shared(ae, bob.public@) == x25519_shared(b, x25519_public(ae)));
    assert(x25519_shared(a, bob_ephemeral.public_bytes()) == x25519_shared(be, x25519_public(a)));
}

/// The salt of a session binds all four public keys: where two salts are the
/// same, so are the keys in each place.
pub proof fn session_salt_binds_all_keys(
    i1: Seq<u8>,
    r1: Seq<u8>,
    ie1: Seq<u8>,
    re1: Seq<u8>,
    i2: Seq<u8>,
    r2: Seq<u8>,
    ie2: Seq<u8>,
    re2: Seq<u8>,
)
    requires
        i1.len() == 32 && r1.len() == 32 && ie1.len() == 32 && re1.len() == 32,
        i2.len() == 32 && r2.len() == 32 && ie2.len() == 32 && re2.len() == 32,
        i1 + r1 + ie1 + re1 == i2 + r2 + ie2 + re2,
    ensures
        i1 == i2,
        r1 == r2,
        ie1 == ie2,
        re1 == re2,
{
    let salt1 = i1 + r1 + ie1 + re1;
    let salt2 = i2 + r2 + ie2 + re2;
    assert(i1 =~= salt1.subrange(0, 32));
    assert(i2 =~= salt2.subrange(0, 32));
    assert(r1 =~= salt1.subrange(32, 64));
    assert(r2 =~= salt2.subrange(32, 64));
    assert(ie1 =~= salt1.subrange(64, 96));
    assert(ie2 =~= salt2.subrange(64, 96));
    assert(re1 =~= salt1.subrange(96, 128));
    assert(re2 =~= salt2.subrange(96, 128));
}

/// Two sessions of the same role, between the same identities or others, derive
/// their keys from different salts unless every public key in them is the same:
/// a fresh ephemeral key on either side makes the derivation a different one.
pub proof fn fresh_ephemeral_key_makes_another_salt(
    identity1: Identity,
    ephemeral1: EphemeralSecret,
    peer1: PeerView,
    identity2: Identity,
    ephemeral2: EphemeralSecret,
    peer2: PeerView,
    is_initiator: bool,
)
    requires
        ephemeral1.wf(),
        ephemeral2.wf(),
        peer1.static_public.len() == 32 && peer1.ephemeral_public.len() == 32,
        peer2.static_public.len() == 32 && peer2.ephemeral_public.len() == 32,
        ephemeral1.public_bytes() != ephemeral2.public_bytes() || peer1.ephemeral_public
            != peer2.ephemeral_public,
    ensures
        session_salt(identity1, ephemeral1, peer1, is_initiator) != session_salt(
            identity2,
            ephemeral2,
            peer2,
            is_initiator,
        ),
{
    if session_salt(identity1, ephemeral1, peer1, is_initiator) == session_salt(
        identity2,
        ephemeral2,
        peer2,
        is_initiator,
    ) {
        if is_initiator {
            session_salt_binds_all_keys(
                identity1.public@,
                peer1.static_public,
                ephemeral1.public_bytes(),
                peer1.ephemeral_public,
                identity2.public@,
                peer2.static_public,
                ephemeral2.public_bytes(),
                peer2.ephemeral_public,
            );
        } else {
            session_salt_binds_all_keys(
                peer1.static_public,
                identity1.public@,
                peer1.ephemeral_public,
                ephemeral1.public_bytes(),
                peer2.static_public,
                identity2.public@,
                peer2.ephemeral_public,
                ephemeral2.public_bytes(),
            );
        }
    }
}

/// No two messages of a direction are encrypted under the same nonce.
pub proof fn nonces_never_repeat(first: u64, second: u64)
    requires
        first != second,
    ensures
        nonce_of(first) != nonce_of(second),
{
    if nonce_of(first) == nonce_of(second) {
        assert(u64_be(first) =~= nonce_of(first).subrange(4, 12));
        assert(u64_be(second) =~= nonce_of(second).subrange(4, 12));
        crate::bytes::u64_be_is_injective(first, second);
    }
}

/// A message that a sending half encrypts after another one is encrypted under
/// another nonce, however many messages stand between the two.
pub proof fn later_message_has_another_nonce(
    sender: SessionSender,
    sender_after: SessionSender,
    plaintext: Seq<u8>,
    ciphertext: Seq<u8>,
    later: SessionSender,
)
    requires
        encrypts(sender, sender_after, plaintext, Ok(ciphertext)),
        later.counter() >= sender_after.counter(),
    ensures
        nonce_of(later.counter()) != nonce_of(sender.counter()),
        later.advanced().counter() >= later.counter(),
{
    nonces_never_repeat(sender.counter(), later.counter());
}

/// A message that one end encrypts the other end decrypts to what it was, and
/// the two stay in step for the next one.
pub proof fn message_arrives(
    sender: SessionSender,
    sender_after: SessionSender,
    receiver: SessionReceiver,
    receiver_after: SessionReceiver,
    plaintext: Seq<u8>,
    ciphertext: Seq<u8>,
    received: Result<Seq<u8>, CryptoError>,
)
    requires
        in_step(sender, receiver),
        encrypts(sender, sender_after, plaintext, Ok(ciphertext)),
        decrypts(receiver, receiver_after, ciphertext, received),
    ensures
        received == Ok::<Seq<u8>, CryptoError>(plaintext),
        in_step(sender_after, receiver_after),
{
}

/// What a receiver takes for a message is what a sender in step with it makes
/// of that message: other bytes are never taken for it.
pub proof fn altered_message_is_not_taken_for_the_original(
    sender: SessionSender,
    sender_after: SessionSender,
    receiver: SessionReceiver,
    receiver_after: SessionReceiver,
    plaintext: Seq<u8>,
    ciphertext: Seq<u8>,
    altered: Seq<u8>,
    received: Result<Seq<u8>, CryptoError>,
)
    requires
        in_step(sender, receiver),
        encrypts(sender, sender_after, plaintext, Ok(ciphertext)),
        altered != ciphertext,
        decrypts(receiver, receiver_after, altered, received),
    ensures
        received != Ok::<Seq<u8>, CryptoError>(plaintext),
{
}

/// The sessions that the two sides build are the two ends of both directions.
pub proof fn sessions_are_in_step(
    alice: Identity,
    alice_ephemeral: EphemeralSecret,
    alice_sender: SessionSender,
    alice_receiver: SessionReceiver,
    bob: Identity,
    bob_ephemeral: EphemeralSecret,
    bob_sender: SessionSender,
    bob_receiver: SessionReceiver,
    seen_by_alice: PeerView,
    seen_by_bob: PeerView,
)
    requires
        alice.wf(),
        alice_ephemeral.wf(),
        bob.wf(),
        bob_ephemeral.wf(),
        seen_by_alice.static_public == bob.public@,
        seen_by_alice.ephemeral_public == bob_ephemeral.public_bytes(),
        seen_by_bob.static_public == alice.public@,
        seen_by_bob.ephemeral_public == alice_ephemeral.public_bytes(),
        is_session(alice_sender, alice_receiver, alice, alice_ephemeral, seen_by_alice, true),
        is_session(bob_sender, bob_receiver, bob, bob_ephemeral, seen_by_bob, false),
    ensures
        in_step(alice_sender, bob_receiver),
        in_step(bob_sender, alice_receiver),
{
    both_sides_derive_the_same_keys(
        alice,
        alice_ephemeral,
        bob,
        bob_ephemeral,
        seen_by_alice,
        seen_by_bob,
    );
}

} // verus!
