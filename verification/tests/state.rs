use directmessages::state::{
    check_peer, generate_and_save, keypair_text, list_peers, load_known_peers,
    load_or_create_keypair, load_peers, pin_peer, remove_peer, save_known_peers, KnownPeers,
    PeersFile, StateError, TrustDecision,
};

/// The known peers file of a user, and what is done with it.
struct Store {
    file: Option<String>,
}

impl Store {
    fn peers(&self) -> KnownPeers {
        load_known_peers(self.file.as_deref()).ok().unwrap()
    }

    fn save(&mut self, peers: &KnownPeers) {
        self.file = Some(save_known_peers(peers).unwrap());
    }

    fn check_peer(&self, peer_id: &str, fingerprint: &str) -> TrustDecision {
        check_peer(&self.peers(), peer_id, fingerprint)
    }

    fn pin_peer(&mut self, peer_id: &str, fingerprint: &str) {
        let mut peers = self.peers();
        pin_peer(&mut peers, peer_id, fingerprint);
        self.save(&peers);
    }

    fn remove_peer(&mut self, peer_id: &str) {
        let mut peers = self.peers();
        remove_peer(&mut peers, peer_id);
        self.save(&peers);
    }

    fn list_peers(&self) -> Vec<(String, String)> {
        list_peers(&self.peers())
    }
}

#[test]
fn tofu_lifecycle_new_verified_mismatch_remove() {
    let mut store = Store { file: None };

    // First contact: the peer is new.
    assert!(matches!(
        store.check_peer("127.0.0.1", "a".repeat(64).as_str()),
        TrustDecision::New
    ));

    // Pin it, and the same fingerprint verifies.
    store.pin_peer("127.0.0.1", &"a".repeat(64));
    assert!(matches!(
        store.check_peer("127.0.0.1", &"a".repeat(64)),
        TrustDecision::Verified
    ));

    // A changed fingerprint must be flagged as a mismatch.
    assert!(matches!(
        store.check_peer("127.0.0.1", &"b".repeat(64)),
        TrustDecision::Mismatch { .. }
    ));

    // Removing an unknown peer is a harmless no-op; removing the real one
    // makes the peer look new again.
    store.remove_peer("127.0.1.1");
    store.remove_peer("127.0.0.1");
    assert!(matches!(
        store.check_peer("127.0.0.1", "a".repeat(64).as_str()),
        TrustDecision::New
    ));
}

#[test]
fn list_peers_is_sorted_and_reflects_changes() {
    let mut store = Store { file: None };
    assert!(store.list_peers().is_empty());

    store.pin_peer("10.0.0.2", &"b".repeat(64));
    store.pin_peer("10.0.0.1", &"a".repeat(64));
    store.pin_peer("10.0.0.3", &"c".repeat(64));

    let peers = store.list_peers();
    let addrs: Vec<&str> = peers.iter().map(|(a, _)| a.as_str()).collect();
    assert_eq!(addrs, ["10.0.0.1", "10.0.0.2", "10.0.0.3"]);

    store.remove_peer("10.0.0.2");
    assert_eq!(store.list_peers().len(), 2);
}

#[test]
fn keypair_persists_across_reloads() {
    let first = load_or_create_keypair(None).ok().unwrap();
    let stored = first.to_store.unwrap();
    let second = load_or_create_keypair(Some(&stored)).ok().unwrap();
    assert_eq!(
        *first.identity.public.as_bytes(),
        *second.identity.public.as_bytes()
    );
    assert!(second.to_store.is_none());
}

#[test]
fn mismatch_tells_the_stored_fingerprint() {
    let mut peers = KnownPeers::new();
    pin_peer(&mut peers, "host:1", "old");
    match check_peer(&peers, "host:1", "new") {
        TrustDecision::Mismatch { expected } => assert_eq!(expected, "old"),
        _ => panic!("the fingerprint has changed"),
    }
}

#[test]
fn pinning_again_takes_the_place_of_the_old_fingerprint() {
    let mut peers = KnownPeers::new();
    pin_peer(&mut peers, "host:1", "old");
    pin_peer(&mut peers, "host:2", "other");
    pin_peer(&mut peers, "host:1", "new");
    assert!(matches!(
        check_peer(&peers, "host:1", "new"),
        TrustDecision::Verified
    ));
    assert!(matches!(
        check_peer(&peers, "host:2", "other"),
        TrustDecision::Verified
    ));
    assert_eq!(
        list_peers(&peers),
        [
            ("host:1".to_string(), "new".to_string()),
            ("host:2".to_string(), "other".to_string())
        ]
    );
}

#[test]
fn known_peers_file_is_indented_json() {
    let mut peers = KnownPeers::new();
    assert_eq!(save_known_peers(&peers).unwrap(), "{}");
    pin_peer(&mut peers, "b", "2");
    pin_peer(&mut peers, "a\"", "1");
    let text = save_known_peers(&peers).unwrap();
    assert_eq!(text, "{\n  \"a\\\"\": \"1\",\n  \"b\": \"2\"\n}");
    let again = load_known_peers(Some(&text)).ok().unwrap();
    assert_eq!(list_peers(&again), list_peers(&peers));
}

#[test]
fn blank_known_peers_file_holds_no_peers() {
    for text in ["", "  \n", "\u{a0}\t"] {
        let peers = load_known_peers(Some(text)).ok().unwrap();
        assert!(list_peers(&peers).is_empty());
    }
}

#[test]
fn malformed_known_peers_file_is_an_error() {
    for text in ["{", "[]", "{\"a\": 1}", "nonsense"] {
        assert_eq!(
            load_known_peers(Some(text)).err(),
            Some(StateError::MalformedPeers)
        );
    }
}

#[test]
fn peers_are_ordered_by_character() {
    let mut peers = KnownPeers::new();
    for id in ["b", "ab", "a", "B", "\u{e9}", "a:"] {
        pin_peer(&mut peers, id, "x");
    }
    let ids: Vec<String> = list_peers(&peers).into_iter().map(|(a, _)| a).collect();
    assert_eq!(ids, ["B", "a", "a:", "ab", "b", "\u{e9}"]);
}

#[test]
fn unreadable_peers_show_as_none() {
    assert!(load_peers(&PeersFile::Unreadable).is_empty());
    assert!(load_peers(&PeersFile::Missing).is_empty());
    assert!(load_peers(&PeersFile::Found("{".to_string())).is_empty());
    assert_eq!(
        load_peers(&PeersFile::Found("{\"b\":\"2\",\"a\":\"1\"}".to_string())),
        [
            ("a".to_string(), "1".to_string()),
            ("b".to_string(), "2".to_string())
        ]
    );
}

#[test]
fn stored_secret_must_be_64_hexadecimal_digits() {
    assert_eq!(
        load_or_create_keypair(Some("xyz")).err(),
        Some(StateError::SecretEncoding)
    );
    assert_eq!(
        load_or_create_keypair(Some("abc")).err(),
        Some(StateError::SecretEncoding)
    );
    assert_eq!(
        load_or_create_keypair(Some("abcd")).err(),
        Some(StateError::SecretLength)
    );
    let text = "0A".repeat(32);
    let loaded = load_or_create_keypair(Some(&text)).ok().unwrap();
    assert_eq!(loaded.identity.secret, [10u8; 32]);
    assert_eq!(keypair_text(&loaded.identity), "0a".repeat(32));
}

#[test]
fn generated_keypairs_differ() {
    let first = generate_and_save();
    let second = generate_and_save();
    assert_ne!(first.identity.secret, second.identity.secret);
    assert_eq!(
        first.to_store,
        Some(hex::encode(first.identity.secret))
    );
}

#[test]
fn state_errors_in_words() {
    assert_eq!(
        StateError::MalformedPeers.message(),
        "failed to parse known peers file"
    );
    assert_eq!(
        StateError::UnwritablePeers.message(),
        "failed to serialize known peers"
    );
    assert_eq!(
        StateError::SecretEncoding.message(),
        "invalid secret key encoding"
    );
    assert_eq!(
        StateError::SecretLength.message(),
        "secret key must be 32 bytes"
    );
}
