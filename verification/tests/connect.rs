use directmessages::app::peer_address;
use directmessages::connect::{
    accept_failure, accepted_peer_id, resolve_failure, Attempt, Attempts,
};
use directmessages::screens::Polled;

#[test]
fn addresses_are_tried_in_order() {
    let mut attempts = Attempts::new("example.org", 4000, 2);
    assert!(matches!(attempts.next(), Attempt::Try(0)));
    attempts.failed("connection refused".to_string());
    assert!(matches!(attempts.next(), Attempt::Try(1)));
    attempts.failed("timed out".to_string());
    match attempts.next() {
        Attempt::GiveUp(reason) => {
            assert_eq!(reason, "connect to example.org:4000 failed: timed out");
        }
        Attempt::Try(_) => panic!("every address has failed"),
    }
}

#[test]
fn host_without_addresses_fails_at_once() {
    match Attempts::new("h", 1, 0).next() {
        Attempt::GiveUp(reason) => assert_eq!(reason, "connect to h:1 failed: "),
        Attempt::Try(_) => panic!("there is nothing to try"),
    }
}

#[test]
fn unresolved_host_in_words() {
    assert_eq!(
        resolve_failure("nowhere", 65535, "no such host"),
        "failed to resolve nowhere:65535: no such host"
    );
    assert_eq!(peer_address("127.0.0.1", 80), "127.0.0.1:80");
}

#[test]
fn waiting_is_no_failure() {
    assert!(matches!(accept_failure(true, "would block"), Polled::Nothing));
    match accept_failure(false, "too many files") {
        Polled::AcceptFailed(e) => assert_eq!(e, "too many files"),
        _ => panic!("nothing can be accepted"),
    }
}

#[test]
fn accepted_peer_is_known_by_its_ip_alone() {
    assert_eq!(accepted_peer_id("127.0.0.1", 50123), "127.0.0.1");
    assert_eq!(
        accepted_peer_id("127.0.0.1", 1),
        accepted_peer_id("127.0.0.1", 2)
    );
}
