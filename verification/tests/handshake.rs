use directmessages::chat::{receive_frame, ChatEvent};
use directmessages::crypto::{
    EphemeralSecret, Identity, PeerKeys, SessionReceiver, SessionSender,
};
use directmessages::protocol::{
    read_frame, transcript_bytes, transcript_for_signing, verify_signature, write_frame,
    ByteReader, Handshake, HandshakeAction, HandshakeError, Progress, BUNDLE_LEN,
};

type Session = (SessionSender, SessionReceiver, PeerKeys);

/// One side of a connection: the handshake, or what it has come to.
enum Side {
    Going(Handshake),
    Done(Result<Session, HandshakeError>),
}

fn after(progress: Result<Progress, HandshakeError>) -> Side {
    match progress {
        Ok(Progress::Continue(handshake)) => Side::Going(handshake),
        Ok(Progress::Established {
            sender,
            receiver,
            peer,
        }) => Side::Done(Ok((sender, receiver, peer))),
        Err(e) => Side::Done(Err(e)),
    }
}

/// Lets a side do what it can: it sends into one pipe and receives from the
/// other, until it waits for bytes or is done.
fn advance(side: Side, input: &mut Vec<u8>, output: &mut Vec<u8>) -> Side {
    let mut side = side;
    loop {
        let handshake = match side {
            Side::Going(handshake) => handshake,
            done => return done,
        };
        side = match handshake.action() {
            HandshakeAction::Send(data) => {
                output.extend_from_slice(&data);
                after(handshake.sent())
            }
            HandshakeAction::Receive(len) => {
                if input.len() < len {
                    return Side::Going(handshake);
                }
                let data: Vec<u8> = input.drain(..len).collect();
                after(handshake.received(&data))
            }
        };
    }
}

/// Runs a handshake between two sides over a pair of pipes. `tamper` may change
/// what is under way to the initiator.
fn connect(
    initiator: Handshake,
    responder: Handshake,
    tamper: fn(&mut Vec<u8>),
) -> (
    Result<Session, HandshakeError>,
    Result<Session, HandshakeError>,
) {
    let mut to_responder = Vec::new();
    let mut to_initiator = Vec::new();
    let mut left = Side::Going(initiator);
    let mut right = Side::Going(responder);
    for _ in 0..4 {
        left = advance(left, &mut to_initiator, &mut to_responder);
        right = advance(right, &mut to_responder, &mut to_initiator);
        tamper(&mut to_initiator);
    }
    let unfinished = Err(HandshakeError::BadSignature);
    let left = match left {
        Side::Done(res) => res,
        Side::Going(_) => return (unfinished, Err(HandshakeError::BadSignature)),
    };
    let right = match right {
        Side::Done(res) => res,
        Side::Going(_) => Err(HandshakeError::BadSignature),
    };
    (left, right)
}

fn perform_handshake(alice: &Identity, bob: &Identity) -> (Session, Session) {
    let (left, right) = connect(
        Handshake::start(alice, EphemeralSecret::generate(), true),
        Handshake::start(bob, EphemeralSecret::generate(), false),
        |_| {},
    );
    (left.ok().unwrap(), right.ok().unwrap())
}

#[test]
fn handshake_over_tcp_roundtrip() {
    let alice = Identity::generate();
    let bob = Identity::generate();
    let alice_public_bytes = *alice.public.as_bytes();
    let bob_public_bytes = *bob.public.as_bytes();

    let ((a_send, a_recv, a_peer), (b_send, b_recv, b_peer)) = perform_handshake(&alice, &bob);
    assert_eq!(*a_peer.static_public.as_bytes(), bob_public_bytes);

    let mut send = b_send;
    let mut wire = Vec::new();
    let ciphertext = send.encrypt(b"from-server").unwrap();
    write_frame(&mut wire, &ciphertext);

    let frame = read_frame(&mut ByteReader::new(wire)).unwrap();
    let mut recv = a_recv;
    let plaintext = recv.decrypt(&frame).unwrap();
    assert_eq!(plaintext, b"from-server");

    let mut send = a_send;
    let mut wire = Vec::new();
    let ciphertext = send.encrypt(b"from-client").unwrap();
    write_frame(&mut wire, &ciphertext);

    let frame = read_frame(&mut ByteReader::new(wire)).unwrap();
    let mut recv = b_recv;
    let server_plaintext = recv.decrypt(&frame).unwrap();
    assert_eq!(*b_peer.static_public.as_bytes(), alice_public_bytes);
    assert_eq!(server_plaintext, b"from-client");
}

#[test]
fn two_handshakes_derive_independent_sessions() {
    // Same static identities, same plaintext, two separate sessions: fresh
    // ephemeral keys per handshake must yield different ciphertexts.
    let alice = Identity::generate();
    let bob = Identity::generate();
    let message = b"same plaintext";

    fn run_session(alice: &Identity, bob: &Identity, message: &[u8]) -> Vec<u8> {
        let bob = Identity::from_secret_bytes(bob.secret);
        let ((mut a_send, mut a_recv, _), (mut b_send, mut b_recv, _)) =
            perform_handshake(alice, &bob);
        let server_ct = b_send.encrypt(message).unwrap();
        let decrypted = a_recv.decrypt(&server_ct).unwrap();
        assert_eq!(decrypted, message);
        let ciphertext = a_send.encrypt(message).unwrap();
        let server_roundtrip = b_recv.decrypt(&ciphertext).unwrap();
        assert_eq!(server_roundtrip, message);
        server_ct
    }

    let ct_one = run_session(&alice, &bob, message);
    let ct_two = run_session(&alice, &bob, message);

    assert_ne!(ct_one, ct_two);
}

#[test]
fn signature_binds_ephemeral_keys() {
    // The same static keys with different ephemeral keys must produce
    // different signatures: replays from a previous session cannot be used to
    // authenticate a new session's ephemeral key.
    let alice = Identity::generate();
    let bob = Identity::generate();
    let e1 = EphemeralSecret::generate();
    let e2 = EphemeralSecret::generate();

    let t1 = transcript_bytes(&alice.public, &bob.public, e1.public(), e2.public());
    let t2 = transcript_bytes(&alice.public, &bob.public, e2.public(), e1.public());

    let sig1 = alice.signing.sign(&{
        let mut m = t1.clone();
        m.push(b'I');
        m
    });
    let sig1_same = alice.signing.sign(&transcript_for_signing(&t1, true));
    assert_eq!(sig1, sig1_same);

    let mut m2 = t2.clone();
    m2.push(b'I');
    assert!(!alice.signing.verifying_key().verify(&m2, &sig1));
}

#[test]
fn mitm_key_substitution_is_rejected() {
    // Eve answers Alice with her own bundle. Nobody has been pinned yet, so
    // that handshake stands; but Eve's signature over a transcript never
    // verifies under Bob's signing key.
    let alice = Identity::generate();
    let bob = Identity::generate();
    let eve = Identity::generate();

    let eve_copy = Identity::from_secret_bytes(eve.secret);
    let _ = perform_handshake(&alice, &eve_copy);

    let transcript = transcript_bytes(
        &alice.public,
        &bob.public,
        EphemeralSecret::generate().public(),
        EphemeralSecret::generate().public(),
    );
    let eve_sig = eve
        .signing
        .sign(&transcript_for_signing(&transcript, false));
    let mut bob_expected = transcript.clone();
    bob_expected.push(b'R');
    assert!(!bob
        .signing
        .verifying_key()
        .verify(&bob_expected, &eve_sig));
    assert_eq!(
        verify_signature(&bob.signing.verifying_key(), &eve_sig, &transcript, false),
        Err(HandshakeError::BadSignature)
    );
}

#[test]
fn signature_of_fixed_secrets() {
    let alice = Identity::from_secret_bytes([1u8; 32]);
    let bob = Identity::from_secret_bytes([2u8; 32]);
    let alice_e = EphemeralSecret::from_secret_bytes([3u8; 32]);
    let bob_e = EphemeralSecret::from_secret_bytes([4u8; 32]);
    let transcript = transcript_bytes(
        &alice.public,
        &bob.public,
        alice_e.public(),
        bob_e.public(),
    );
    assert_eq!(&transcript[..28], b"directmessages-v3-handshake\x01");
    assert_eq!(transcript.len(), 28 + 4 * 32);
    let signature = alice
        .signing
        .sign(&transcript_for_signing(&transcript, true));
    assert_eq!(
        hex::encode(signature),
        "f4ea6d0136f023a681a830b9406e2d6a1c31cfca3d23334c5005d33401a9444b\
         acec6394e933b4a11e7a073c475988d736947e4dded494ff14aa928bff59840b"
    );
    assert_eq!(
        verify_signature(&alice.signing.verifying_key(), &signature, &transcript, true),
        Ok(())
    );
    // The same signature is none of the other role.
    assert_eq!(
        verify_signature(&alice.signing.verifying_key(), &signature, &transcript, false),
        Err(HandshakeError::BadSignature)
    );
}

#[test]
fn handshake_exchanges_bundles_then_signatures() {
    let alice = Identity::from_secret_bytes([1u8; 32]);
    let start = Handshake::start(&alice, EphemeralSecret::from_secret_bytes([3u8; 32]), true);
    match start.action() {
        HandshakeAction::Send(bundle) => assert_eq!(
            hex::encode(bundle),
            "5dfedd3b6bd47f6fa28ee15d969d5bb0ea53774d488bdaf9df1c6e0124b3ef22\
             a4e09292b651c278b9772c569f5fa9bb13d906b46ab68c9df9dc2b4409f8a209\
             bc9200f2e77d80da74e19bee22dd8d63966a21599dc4b9041b7514f734b105c2"
        ),
        HandshakeAction::Receive(_) => panic!("the initiator sends first"),
    }
    let bob = Identity::generate();
    let start = Handshake::start(&bob, EphemeralSecret::generate(), false);
    match start.action() {
        HandshakeAction::Receive(len) => assert_eq!(len, BUNDLE_LEN),
        HandshakeAction::Send(_) => panic!("the responder receives first"),
    }
    assert_eq!(BUNDLE_LEN, 96);
}

#[test]
fn altered_ephemeral_key_fails_the_handshake() {
    let alice = Identity::generate();
    let bob = Identity::generate();
    let (left, _) = connect(
        Handshake::start(&alice, EphemeralSecret::generate(), true),
        Handshake::start(&bob, EphemeralSecret::generate(), false),
        |wire| {
            if wire.len() >= 96 {
                wire[0] ^= 1;
            }
        },
    );
    assert_eq!(left.err(), Some(HandshakeError::BadSignature));
}

#[test]
fn invalid_signing_key_fails_the_handshake() {
    let alice = Identity::generate();
    let bob = Identity::generate();
    let (left, _) = connect(
        Handshake::start(&alice, EphemeralSecret::generate(), true),
        Handshake::start(&bob, EphemeralSecret::generate(), false),
        |wire| {
            if wire.len() >= 96 {
                wire[64..96].fill(0);
                wire[64] = 2;
            }
        },
    );
    assert_eq!(left.err(), Some(HandshakeError::InvalidSigningKey));
}

#[test]
fn zero_key_fails_the_handshake_though_it_is_signed() {
    // A peer that sends an all-zero ephemeral key and signs for it.
    let alice = Identity::generate();
    let bob = Identity::generate();
    let mut bundle = vec![0u8; 32];
    bundle.extend_from_slice(bob.public.as_bytes());
    bundle.extend_from_slice(bob.signing.verifying_key().as_bytes());

    let alice_e = EphemeralSecret::from_secret_bytes([3u8; 32]);
    let alice_e_public = *alice_e.public();
    let start = Handshake::start(&alice, alice_e, true);
    let next = match start.sent() {
        Ok(Progress::Continue(next)) => next,
        _ => panic!("the bundle comes next"),
    };
    let next = match next.received(&bundle) {
        Ok(Progress::Continue(next)) => next,
        _ => panic!("the signature comes next"),
    };
    let transcript = transcript_bytes(
        &alice.public,
        &bob.public,
        &alice_e_public,
        &directmessages::crypto::PublicKey::from_bytes([0u8; 32]),
    );
    let signature = bob
        .signing
        .sign(&transcript_for_signing(&transcript, false));
    let next = match next.received(&signature) {
        Ok(Progress::Continue(next)) => next,
        _ => panic!("the own signature comes next"),
    };
    let error = next.sent().err().unwrap();
    assert_eq!(
        error.message(),
        "peer public key is degenerate (all zeros)"
    );
}

#[test]
fn handshake_errors_in_words() {
    assert_eq!(
        HandshakeError::InvalidSigningKey.message(),
        "peer signing key is not a valid Ed25519 point"
    );
    assert_eq!(
        HandshakeError::BadSignature.message(),
        "handshake signature verification failed (possible MITM)"
    );
}

#[test]
fn message_arrives_over_a_session() {
    let alice = Identity::generate();
    let bob = Identity::generate();
    let ((mut send, _, _), (_, mut recv, _)) = perform_handshake(&alice, &bob);
    let ciphertext = send.encrypt("grüß dich".as_bytes()).unwrap();
    match receive_frame(&mut recv, &ciphertext) {
        ChatEvent::Message(text) => assert_eq!(text, "grüß dich"),
        _ => panic!("a message was sent"),
    }
}

#[test]
fn signature_that_is_sent_has_its_full_length() {
    let bob = Identity::generate();
    let alice = Identity::from_secret_bytes([1u8; 32]);
    let bundle = match Handshake::start(&alice, EphemeralSecret::generate(), true).action() {
        HandshakeAction::Send(bundle) => bundle,
        HandshakeAction::Receive(_) => panic!("the initiator sends first"),
    };
    let start = Handshake::start(&bob, EphemeralSecret::generate(), false);
    let next = match start.received(&bundle) {
        Ok(Progress::Continue(next)) => next,
        _ => panic!("the own bundle comes next"),
    };
    let next = match next.sent() {
        Ok(Progress::Continue(next)) => next,
        _ => panic!("the own signature comes next"),
    };
    match next.action() {
        HandshakeAction::Send(signature) => assert_eq!(signature.len(), 64),
        HandshakeAction::Receive(_) => panic!("the responder signs first"),
    }
}
