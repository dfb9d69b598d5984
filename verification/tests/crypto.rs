use directmessages::crypto::{
    derive_directional_keys, fingerprint, make_session, CryptoError, EphemeralSecret, Identity, PeerKeys, PublicKey,
    SessionReceiver, SessionSender, SigningKey, VerifyingKey,
};
use rand::rngs::OsRng;
use rand::RngCore;

fn peer_keys(identity: &Identity, ephemeral: &EphemeralSecret) -> PeerKeys {
    PeerKeys {
        static_public: identity.public,
        signing_public: identity.signing.verifying_key(),
        ephemeral_public: *ephemeral.public(),
    }
}

#[test]
fn fingerprint_is_64_hex_chars() {
    let identity = Identity::generate();
    let fp = fingerprint(&identity.public, &identity.signing.verifying_key());
    assert_eq!(fp.len(), 64);
    assert!(fp.chars().all(|c| c.is_ascii_hexdigit()));
}

#[test]
fn session_keys_are_matching_and_roundtrip() {
    let alice = Identity::generate();
    let bob = Identity::generate();
    let alice_e = EphemeralSecret::generate();
    let bob_e = EphemeralSecret::generate();

    let alice_peer_keys = peer_keys(&bob, &bob_e);
    let bob_peer_keys = peer_keys(&alice, &alice_e);

    let (alice_send, alice_recv) = make_session(&alice, &alice_e, &alice_peer_keys, true).unwrap();
    let (bob_send, bob_recv) = make_session(&bob, &bob_e, &bob_peer_keys, false).unwrap();

    // Alice -> Bob
    let mut a_send = alice_send;
    let mut b_recv = bob_recv;
    let ciphertext = a_send.encrypt(b"hello bob").unwrap();
    let plaintext = b_recv.decrypt(&ciphertext).unwrap();
    assert_eq!(plaintext, b"hello bob");

    // Bob -> Alice
    let mut b_send = bob_send;
    let mut a_recv = alice_recv;
    let ciphertext = b_send.encrypt(b"hello alice").unwrap();
    let plaintext = a_recv.decrypt(&ciphertext).unwrap();
    assert_eq!(plaintext, b"hello alice");
}

#[test]
fn tampered_ciphertext_fails_decryption() {
    let alice = Identity::generate();
    let bob = Identity::generate();
    let alice_e = EphemeralSecret::generate();
    let bob_e = EphemeralSecret::generate();
    let alice_peer_keys = peer_keys(&bob, &bob_e);
    let bob_peer_keys = peer_keys(&alice, &alice_e);
    let (mut a_send, _) = make_session(&alice, &alice_e, &alice_peer_keys, true).unwrap();
    let (_, mut b_recv) = make_session(&bob, &bob_e, &bob_peer_keys, false).unwrap();

    let mut ciphertext = a_send.encrypt(b"important").unwrap();
    ciphertext[0] ^= 0xff;
    assert!(b_recv.decrypt(&ciphertext).is_err());
}

#[test]
fn repeated_sessions_derive_different_keys() {
    let alice = Identity::generate();
    let bob = Identity::generate();

    fn session_ciphertext(alice: &Identity, bob: &Identity, message: &[u8]) -> Vec<u8> {
        let alice_e = EphemeralSecret::generate();
        let bob_e = EphemeralSecret::generate();
        let alice_peer_keys = peer_keys(bob, &bob_e);
        let (mut a_send, _b_recv) = make_session(alice, &alice_e, &alice_peer_keys, true).unwrap();
        a_send.encrypt(message).unwrap()
    }

    // Two sessions between the same static identities must not reuse a
    // (key, nonce) pair: identical plaintexts must produce unrelated
    // ciphertexts.
    let session_one = session_ciphertext(&alice, &bob, b"same plaintext");
    let session_two = session_ciphertext(&alice, &bob, b"same plaintext");
    assert_ne!(session_one, session_two);
}

#[test]
fn degenerate_public_key_is_rejected() {
    let alice = Identity::generate();
    let alice_e = EphemeralSecret::generate();
    let bob = Identity::generate();
    let bob_e = EphemeralSecret::generate();
    let zero = PublicKey::from_bytes([0u8; 32]);
    let zero_peer = PeerKeys {
        static_public: zero,
        signing_public: bob.signing.verifying_key(),
        ephemeral_public: *bob_e.public(),
    };
    let degenerate_peer = PeerKeys {
        static_public: bob.public,
        signing_public: bob.signing.verifying_key(),
        ephemeral_public: zero,
    };
    assert!(make_session(&alice, &alice_e, &zero_peer, true).is_err());
    assert!(make_session(&alice, &alice_e, &degenerate_peer, true).is_err());
    assert_eq!(
        make_session(&alice, &alice_e, &zero_peer, true).err(),
        Some(CryptoError::DegenerateKey)
    );
}

#[test]
fn fingerprint_binds_both_longterm_keys() {
    let identity = Identity::generate();
    let fp = fingerprint(&identity.public, &identity.signing.verifying_key());
    assert_eq!(fp.len(), 64);
    assert!(fp.chars().all(|c| c.is_ascii_hexdigit()));

    // A different signing key (e.g. an attacker's) must yield a different
    // fingerprint for the same static key.
    let other = Identity::generate();
    assert_ne!(
        fp,
        fingerprint(&identity.public, &other.signing.verifying_key())
    );
}

#[test]
fn identity_is_deterministic_from_secret_bytes() {
    let seed = {
        let mut s = [0u8; 32];
        OsRng.fill_bytes(&mut s);
        s
    };
    let a = Identity::from_secret_bytes(seed);
    let b = Identity::from_secret_bytes(seed);
    assert_eq!(*a.public.as_bytes(), *b.public.as_bytes());
    assert_eq!(a.signing.to_bytes(), b.signing.to_bytes());
}

#[test]
fn identity_of_a_fixed_secret() {
    let identity = Identity::from_secret_bytes([1u8; 32]);
    assert_eq!(
        hex::encode(identity.public.as_bytes()),
        "a4e09292b651c278b9772c569f5fa9bb13d906b46ab68c9df9dc2b4409f8a209"
    );
    assert_eq!(
        hex::encode(identity.signing.to_bytes()),
        "9ded76b13be76520c5e62bff5c5d573c1227364f25842214cd9ab4659cef1f36"
    );
    assert_eq!(
        hex::encode(identity.signing.verifying_key().as_bytes()),
        "bc9200f2e77d80da74e19bee22dd8d63966a21599dc4b9041b7514f734b105c2"
    );
    assert_eq!(
        fingerprint(&identity.public, &identity.signing.verifying_key()),
        "8c21e58a375dec9eefcb7d37413b49a22e692f17fd8c0bb6253e965ab56c9134"
    );
}

#[test]
fn session_of_fixed_secrets() {
    let alice = Identity::from_secret_bytes([1u8; 32]);
    let bob = Identity::from_secret_bytes([2u8; 32]);
    let alice_e = EphemeralSecret::from_secret_bytes([3u8; 32]);
    let bob_e = EphemeralSecret::from_secret_bytes([4u8; 32]);
    let (mut a_send, _) = make_session(&alice, &alice_e, &peer_keys(&bob, &bob_e), true).unwrap();
    let (mut b_send, _) = make_session(&bob, &bob_e, &peer_keys(&alice, &alice_e), false).unwrap();

    assert_eq!(
        hex::encode(a_send.encrypt(b"hello bob").unwrap()),
        "98cf6968d2179d8695e4e93636370540340509ffd2dc42ff5e"
    );
    // The counter moves on, so the same message looks different.
    assert_eq!(
        hex::encode(a_send.encrypt(b"hello bob").unwrap()),
        "a1fa8664ead70c8e3e7ec5a8f8bf5a90ffee94ceeac9f3dc7d"
    );
    assert_eq!(
        hex::encode(b_send.encrypt(b"hello alice").unwrap()),
        "5774a2cc87e2b5715a69c22d5e26a4e1f8ee8c5e34eccdb3bf9500"
    );
}

#[test]
fn nonce_is_the_counter_in_its_last_eight_bytes() {
    let mut sender = SessionSender::at([7u8; 32], 258);
    assert_eq!(
        hex::encode(sender.encrypt(b"abc").unwrap()),
        "82ac2e75ce7234426620736d4816102967140f"
    );
}

#[test]
fn session_stays_in_step_over_many_messages() {
    let mut sender = SessionSender::at([7u8; 32], 0);
    let mut receiver = SessionReceiver::at([7u8; 32], 0);
    for i in 0..100u8 {
        let message = vec![i; i as usize];
        let ciphertext = sender.encrypt(&message).unwrap();
        assert_eq!(ciphertext.len(), message.len() + 16);
        assert_eq!(receiver.decrypt(&ciphertext).unwrap(), message);
    }
}

#[test]
fn message_out_of_turn_is_refused() {
    let mut sender = SessionSender::at([7u8; 32], 0);
    let mut receiver = SessionReceiver::at([7u8; 32], 0);
    let _ = sender.encrypt(b"first").unwrap();
    let second = sender.encrypt(b"second").unwrap();
    assert_eq!(
        receiver.decrypt(&second),
        Err(CryptoError::DecryptionFailed)
    );
    // The receiver has moved on, and now expects the second message.
    assert_eq!(receiver.decrypt(&second).unwrap(), b"second");
}

#[test]
fn short_ciphertext_is_refused() {
    let mut receiver = SessionReceiver::at([7u8; 32], 0);
    assert_eq!(receiver.decrypt(b""), Err(CryptoError::DecryptionFailed));
    assert_eq!(receiver.decrypt(b"abc"), Err(CryptoError::DecryptionFailed));
}

#[test]
fn used_up_counter_is_an_error() {
    let mut sender = SessionSender::at([7u8; 32], u64::MAX - 1);
    let mut receiver = SessionReceiver::at([7u8; 32], u64::MAX - 1);
    let last = sender.encrypt(b"last").unwrap();
    assert_eq!(receiver.decrypt(&last).unwrap(), b"last");
    assert_eq!(sender.encrypt(b"more"), Err(CryptoError::CounterOverflow));
    assert_eq!(receiver.decrypt(&last), Err(CryptoError::CounterOverflow));
    assert_eq!(sender.encrypt(b"more"), Err(CryptoError::CounterOverflow));
}

#[test]
fn crypto_errors_in_words() {
    assert_eq!(
        CryptoError::DegenerateKey.message(),
        "peer public key is degenerate (all zeros)"
    );
    assert_eq!(
        CryptoError::CounterOverflow.message(),
        "nonce counter overflow"
    );
    assert_eq!(
        CryptoError::EncryptionFailed.message(),
        "encryption failed: aead::Error"
    );
    assert_eq!(
        CryptoError::DecryptionFailed.message(),
        "decryption failed: aead::Error"
    );
}

#[test]
fn signatures_verify_under_their_own_key_only() {
    let key = SigningKey::from_bytes([5u8; 32]);
    let other = SigningKey::from_bytes([6u8; 32]);
    let signature = key.sign(b"message");
    assert!(key.verifying_key().verify(b"message", &signature));
    assert!(!key.verifying_key().verify(b"massage", &signature));
    assert!(!other.verifying_key().verify(b"message", &signature));
}

#[test]
fn not_every_32_bytes_are_a_verifying_key() {
    let key = SigningKey::from_bytes([5u8; 32]).verifying_key();
    assert_eq!(VerifyingKey::from_bytes(*key.as_bytes()), Some(key));
    // No point of the curve has this second coordinate.
    let mut bytes = [0u8; 32];
    bytes[0] = 2;
    assert_eq!(VerifyingKey::from_bytes(bytes), None);
}

#[test]
fn both_roles_derive_the_same_pair_of_keys() {
    let alice = Identity::from_secret_bytes([1u8; 32]);
    let bob = Identity::from_secret_bytes([2u8; 32]);
    let alice_e = EphemeralSecret::from_secret_bytes([3u8; 32]);
    let bob_e = EphemeralSecret::from_secret_bytes([4u8; 32]);
    let one = derive_directional_keys(&alice, &alice_e, &peer_keys(&bob, &bob_e), true).unwrap();
    let two = derive_directional_keys(&bob, &bob_e, &peer_keys(&alice, &alice_e), false).unwrap();
    assert_eq!(one, two);
    assert_eq!(
        hex::encode(one.0),
        "1e060ba7c597ecacac09418224b218e0525e4411f2981b1451080dee99930f3f"
    );
    assert_eq!(
        hex::encode(one.1),
        "59089eef224363579ed479b72702154fe7896dfde171ce282d8c34b832b7efaa"
    );
}

#[test]
fn fresh_ephemeral_key_changes_both_keys() {
    let alice = Identity::from_secret_bytes([1u8; 32]);
    let bob = Identity::from_secret_bytes([2u8; 32]);
    let alice_e = EphemeralSecret::from_secret_bytes([3u8; 32]);
    let one_e = EphemeralSecret::from_secret_bytes([4u8; 32]);
    let two_e = EphemeralSecret::from_secret_bytes([5u8; 32]);
    let one = derive_directional_keys(&alice, &alice_e, &peer_keys(&bob, &one_e), true).unwrap();
    let two = derive_directional_keys(&alice, &alice_e, &peer_keys(&bob, &two_e), true).unwrap();
    assert_ne!(one.0, two.0);
    assert_ne!(one.1, two.1);
}

#[test]
fn public_key_is_never_all_zeros() {
    for byte in [0u8, 1, 127, 128, 255] {
        let identity = Identity::from_secret_bytes([byte; 32]);
        assert_ne!(*identity.public.as_bytes(), [0u8; 32]);
        let ephemeral = EphemeralSecret::from_secret_bytes([byte; 32]);
        assert_eq!(ephemeral.public().as_bytes(), identity.public.as_bytes());
    }
}

#[test]
fn sender_tells_when_it_is_used_up() {
    assert!(!SessionSender::at([7u8; 32], u64::MAX - 1).is_used_up());
    assert!(SessionSender::at([7u8; 32], u64::MAX).is_used_up());
}
