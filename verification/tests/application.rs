use directmessages::app::{normalize_fingerprint, outcome_from_handshake, short_fp, App};
use directmessages::chat::{ChatEvent, ChatLine, ChatSession};
use directmessages::crypto::{
    fingerprint, EphemeralSecret, Identity, PeerKeys, SessionReceiver, SessionSender,
};
use directmessages::screens::{
    AddPeerFocus, ConnectFocus, KeyCode, KeyEvent, Opening, Outcome, Polled, Request, Screen,
};
use directmessages::state::TrustDecision;

const FP_A: &str = "8c21e58a375dec9eefcb7d37413b49a22e692f17fd8c0bb6253e965ab56c9134";
const FP_B: &str = "518ab8646422ac0a3bf7b866c59f342d4101fc8df3d30bfab81061c69fcaef09";

fn new_app() -> App {
    App::new(Identity::from_secret_bytes([1u8; 32]))
}

fn press(app: &mut App, code: KeyCode) -> Request {
    app.on_key(KeyEvent {
        code,
        control: false,
        release: false,
    })
}

fn write(app: &mut App, text: &str) {
    for c in text.chars() {
        assert!(matches!(press(app, KeyCode::Char(c)), Request::Nothing));
    }
}

fn bob() -> Outcome {
    let bob = Identity::from_secret_bytes([2u8; 32]);
    let ephemeral = EphemeralSecret::from_secret_bytes([4u8; 32]);
    let peer = PeerKeys {
        static_public: bob.public,
        signing_public: bob.signing.verifying_key(),
        ephemeral_public: *ephemeral.public(),
    };
    outcome_from_handshake(
        SessionSender::at([9u8; 32], 0),
        SessionReceiver::at([8u8; 32], 0),
        &peer,
        "host:4000".to_string(),
    )
}

fn notice(app: &App) -> &str {
    match &app.screen {
        Screen::Notice { text } => text,
        _ => panic!("a notice is shown"),
    }
}

fn chat(app: &App) -> &ChatSession {
    match &app.screen {
        Screen::Chat(session) => session,
        _ => panic!("a chat is shown"),
    }
}

fn on_menu(app: &App) -> bool {
    matches!(app.screen, Screen::Menu { selected: 0 })
}

/// Opens a connection to Bob.
fn connect(app: &mut App) {
    press(app, KeyCode::Char('1'));
    write(app, "host");
    press(app, KeyCode::Tab);
    write(app, "4000");
    match press(app, KeyCode::Enter) {
        Request::Connect { host, port } => {
            assert_eq!(host, "host");
            assert_eq!(port, 4000);
        }
        _ => panic!("the form is filled in"),
    }
    match app.tick(Polled::Connected(Ok(bob()))) {
        Request::CheckPeer {
            peer_id,
            fingerprint,
        } => {
            assert_eq!(peer_id, "host:4000");
            assert_eq!(fingerprint, FP_B);
        }
        _ => panic!("the peer is looked up"),
    }
}

/// Opens a chat with Bob, who is known.
fn in_chat() -> App {
    let mut app = new_app();
    connect(&mut app);
    assert!(matches!(
        app.on_peer_checked(Ok(TrustDecision::Verified)),
        Request::StartChat
    ));
    assert!(matches!(
        app.on_chat_started(Ok(())),
        Request::Receive { .. }
    ));
    app
}

#[test]
fn application_starts_on_its_menu() {
    let app = new_app();
    assert!(on_menu(&app));
    assert!(!app.should_quit);
    assert_eq!(app.my_fingerprint, FP_A);
    assert!(matches!(app.opening, Opening::Idle));
}

#[test]
fn menu_selection_stays_in_range() {
    let mut app = new_app();
    press(&mut app, KeyCode::Up);
    assert!(matches!(app.screen, Screen::Menu { selected: 0 }));
    for expected in [1, 2, 3, 4, 4] {
        press(&mut app, KeyCode::Down);
        match app.screen {
            Screen::Menu { selected } => assert_eq!(selected, expected),
            _ => panic!("the menu stays"),
        }
    }
    press(&mut app, KeyCode::Up);
    assert!(matches!(app.screen, Screen::Menu { selected: 3 }));
}

#[test]
fn menu_items_do_what_they_say() {
    let mut app = new_app();
    press(&mut app, KeyCode::Enter);
    assert!(matches!(app.screen, Screen::Connect { .. }));

    let mut app = new_app();
    press(&mut app, KeyCode::Char('2'));
    assert!(matches!(
        app.screen,
        Screen::Listen {
            listening: false,
            ..
        }
    ));

    let mut app = new_app();
    assert!(matches!(
        press(&mut app, KeyCode::Char('3')),
        Request::LoadPeers
    ));

    let mut app = new_app();
    assert!(matches!(
        press(&mut app, KeyCode::Char('4')),
        Request::GenerateKeypair
    ));

    for quit in ['5', 'q'] {
        let mut app = new_app();
        press(&mut app, KeyCode::Char(quit));
        assert!(app.should_quit);
    }
    let mut app = new_app();
    press(&mut app, KeyCode::Esc);
    assert!(app.should_quit);

    for other in ['0', '6', '9', 'x'] {
        let mut app = new_app();
        assert!(matches!(
            press(&mut app, KeyCode::Char(other)),
            Request::Nothing
        ));
        assert!(on_menu(&app) && !app.should_quit);
    }
}

#[test]
fn control_c_quits_everywhere() {
    let mut app = in_chat();
    let key = KeyEvent {
        code: KeyCode::Char('c'),
        control: true,
        release: false,
    };
    assert!(matches!(app.on_key(key), Request::Nothing));
    assert!(app.should_quit);
    assert_eq!(chat(&app).input, "");
}

#[test]
fn released_key_is_ignored() {
    let mut app = new_app();
    let key = KeyEvent {
        code: KeyCode::Esc,
        control: false,
        release: true,
    };
    app.on_key(key);
    assert!(!app.should_quit);
}

#[test]
fn connect_form_takes_digits_for_the_port() {
    let mut app = new_app();
    press(&mut app, KeyCode::Char('1'));
    write(&mut app, "ab");
    press(&mut app, KeyCode::Backspace);
    press(&mut app, KeyCode::Enter);
    write(&mut app, "8x0");
    match &app.screen {
        Screen::Connect {
            host,
            port,
            focus,
            error,
        } => {
            assert_eq!(host, "a");
            assert_eq!(port, "80");
            assert!(matches!(focus, ConnectFocus::Port));
            assert!(error.is_none());
        }
        _ => panic!("the form stays"),
    }
    press(&mut app, KeyCode::Enter);
    match &app.screen {
        Screen::Connecting { status } => assert_eq!(status, "connecting to a:80..."),
        _ => panic!("the form is filled in"),
    }
    press(&mut app, KeyCode::Enter);
    assert!(matches!(app.screen, Screen::Connecting { .. }));
    press(&mut app, KeyCode::Esc);
    assert!(on_menu(&app));
}

#[test]
fn connect_form_asks_for_host_and_port() {
    for (host, port) in [("", "80"), ("a", ""), ("a", "65536")] {
        let mut app = new_app();
        press(&mut app, KeyCode::Char('1'));
        write(&mut app, host);
        press(&mut app, KeyCode::Down);
        write(&mut app, port);
        assert!(matches!(press(&mut app, KeyCode::Enter), Request::Nothing));
        match &app.screen {
            Screen::Connect { error: Some(e), .. } => {
                assert_eq!(e, "enter a valid host and port (1-65535)");
            }
            _ => panic!("the form is not filled in"),
        }
        press(&mut app, KeyCode::Backspace);
        assert!(matches!(app.screen, Screen::Connect { error: None, .. }));
    }
}

#[test]
fn failed_connection_is_noticed() {
    let mut app = new_app();
    press(&mut app, KeyCode::Char('1'));
    write(&mut app, "h");
    press(&mut app, KeyCode::Tab);
    write(&mut app, "1");
    press(&mut app, KeyCode::Enter);
    app.tick(Polled::Connected(Err("no route".to_string())));
    assert_eq!(notice(&app), "connection failed: no route");
    press(&mut app, KeyCode::Other);
    assert!(on_menu(&app));
}

#[test]
fn late_connection_is_ignored() {
    let mut app = new_app();
    assert!(matches!(
        app.tick(Polled::Connected(Ok(bob()))),
        Request::Nothing
    ));
    assert!(on_menu(&app));
}

#[test]
fn listening_shows_its_status() {
    let mut app = new_app();
    press(&mut app, KeyCode::Char('2'));
    assert!(matches!(press(&mut app, KeyCode::Enter), Request::Nothing));
    match &app.screen {
        Screen::Listen { error: Some(e), .. } => assert_eq!(e, "enter a valid port (1-65535)"),
        _ => panic!("no port was given"),
    }
    write(&mut app, "4000");
    assert!(matches!(
        press(&mut app, KeyCode::Enter),
        Request::Bind { port: 4000 }
    ));
    app.on_bound(4000, Err("in use".to_string()));
    match &app.screen {
        Screen::Listen {
            listening: false,
            error: Some(e),
            ..
        } => assert_eq!(e, "bind failed: in use"),
        _ => panic!("the port is in use"),
    }
    app.on_bound(4000, Ok(()));
    match &app.screen {
        Screen::Listen {
            listening: true,
            status: Some(s),
            error: None,
            port,
        } => {
            assert_eq!(s, "listening on 0.0.0.0:4000 — waiting for a connection...");
            assert_eq!(port, "4000");
        }
        _ => panic!("the port is bound"),
    }
    // No more typing now.
    write(&mut app, "1");
    assert!(matches!(&app.screen, Screen::Listen { port, .. } if port == "4000"));
    app.tick(Polled::Nothing);
    assert!(matches!(
        app.tick(Polled::Accepted(Ok(bob()))),
        Request::CheckPeer { .. }
    ));
}

#[test]
fn failures_while_listening_are_noticed() {
    let mut app = new_app();
    press(&mut app, KeyCode::Char('2'));
    app.on_bound(1, Ok(()));
    app.tick(Polled::Accepted(Err("bad".to_string())));
    assert_eq!(notice(&app), "handshake failed: bad");

    let mut app = new_app();
    press(&mut app, KeyCode::Char('2'));
    app.on_bound(1, Ok(()));
    app.tick(Polled::AcceptFailed("gone".to_string()));
    assert_eq!(notice(&app), "listen failed: gone");
}

fn peers() -> Vec<(String, String)> {
    vec![
        ("a:1".to_string(), FP_A.to_string()),
        ("b:2".to_string(), FP_B.to_string()),
    ]
}

#[test]
fn peers_are_listed_and_removed() {
    let mut app = new_app();
    app.on_peers_loaded(peers());
    press(&mut app, KeyCode::Down);
    press(&mut app, KeyCode::Down);
    assert!(matches!(app.screen, Screen::Peers { selected: 1, .. }));
    match press(&mut app, KeyCode::Char('r')) {
        Request::RemovePeer { address } => assert_eq!(address, "b:2"),
        _ => panic!("a peer is selected"),
    }
    app.on_peer_removed(Ok(()));
    match &app.screen {
        Screen::Peers { peers, selected } => {
            assert_eq!(peers.len(), 1);
            assert_eq!(peers[0].0, "a:1");
            assert_eq!(*selected, 0);
        }
        _ => panic!("the list stays"),
    }
    press(&mut app, KeyCode::Char('d'));
    app.on_peer_removed(Ok(()));
    assert!(matches!(&app.screen, Screen::Peers { peers, selected: 0 } if peers.is_empty()));
    assert!(matches!(
        press(&mut app, KeyCode::Char('r')),
        Request::Nothing
    ));
    press(&mut app, KeyCode::Down);
    press(&mut app, KeyCode::Esc);
    assert!(on_menu(&app));
}

#[test]
fn first_of_two_peers_is_removed() {
    let mut app = new_app();
    app.on_peers_loaded(peers());
    press(&mut app, KeyCode::Char('r'));
    app.on_peer_removed(Ok(()));
    assert!(
        matches!(&app.screen, Screen::Peers { peers, selected: 0 } if peers[0].0 == "b:2")
    );
    press(&mut app, KeyCode::Char('r'));
    app.on_peer_removed(Err("read-only".to_string()));
    assert_eq!(notice(&app), "failed to remove peer: read-only");
}

#[test]
fn peer_is_added_with_a_full_fingerprint() {
    let mut app = new_app();
    app.on_peers_loaded(Vec::new());
    press(&mut app, KeyCode::Char('a'));
    press(&mut app, KeyCode::Tab);
    write(&mut app, "ABz");
    press(&mut app, KeyCode::Enter);
    match &app.screen {
        Screen::AddPeer {
            fingerprint,
            error: Some(e),
            ..
        } => {
            assert_eq!(fingerprint, "ab");
            assert_eq!(e, "enter the peer's address (host:port)");
        }
        _ => panic!("no address was given"),
    }
    press(&mut app, KeyCode::Up);
    write(&mut app, "h:1");
    press(&mut app, KeyCode::Enter);
    press(&mut app, KeyCode::Enter);
    match &app.screen {
        Screen::AddPeer {
            focus,
            error: Some(e),
            ..
        } => {
            assert!(matches!(focus, AddPeerFocus::Fingerprint));
            assert_eq!(e, "fingerprint must be 64 hex characters");
        }
        _ => panic!("the fingerprint is too short"),
    }
    // Typing leaves the error, deleting clears it.
    write(&mut app, &FP_B[..1]);
    assert!(matches!(app.screen, Screen::AddPeer { error: Some(_), .. }));
    for _ in 0..3 {
        press(&mut app, KeyCode::Backspace);
    }
    assert!(matches!(app.screen, Screen::AddPeer { error: None, .. }));
    write(&mut app, &FP_B.to_uppercase());
    match press(&mut app, KeyCode::Enter) {
        Request::AddPeer {
            address,
            fingerprint,
        } => {
            assert_eq!(address, "h:1");
            assert_eq!(fingerprint, FP_B);
        }
        _ => panic!("the form is filled in"),
    }
    app.on_peer_added(Err("read-only".to_string()));
    match &app.screen {
        Screen::AddPeer { error: Some(e), .. } => {
            assert_eq!(e, "failed to pin peer: read-only");
        }
        _ => panic!("the form stays"),
    }
    assert!(matches!(app.on_peer_added(Ok(())), Request::LoadPeers));
    assert!(matches!(press(&mut app, KeyCode::Esc), Request::LoadPeers));
}

#[test]
fn fingerprints_are_normalized() {
    let upper = format!("  {}\n", FP_A.to_uppercase());
    assert_eq!(normalize_fingerprint(&upper), Some(FP_A.to_string()));
    assert_eq!(normalize_fingerprint(&FP_A[1..]), None);
    assert_eq!(normalize_fingerprint(&FP_A.replace('8', "x")), None);
}

#[test]
fn new_keypair_takes_the_place_of_the_old() {
    let mut app = new_app();
    app.on_keypair(Ok(Identity::from_secret_bytes([2u8; 32])));
    assert_eq!(app.my_fingerprint, FP_B);
    assert_eq!(app.identity.secret, [2u8; 32]);
    assert_eq!(
        notice(&app),
        format!("new keypair generated\nfingerprint: {FP_B}")
    );
    app.on_keypair(Err("disk full".to_string()));
    assert_eq!(notice(&app), "keygen failed: disk full");
    assert_eq!(app.my_fingerprint, FP_B);
}

#[test]
fn known_peer_is_let_in() {
    let app = in_chat();
    assert_eq!(chat(&app).peer_short_fp, "fp:518ab8646422ac0a");
    assert!(chat(&app).history.is_empty());
    assert!(matches!(app.opening, Opening::Idle));
}

#[test]
fn new_peer_is_pinned_and_let_in() {
    let mut app = new_app();
    connect(&mut app);
    match app.on_peer_checked(Ok(TrustDecision::New)) {
        Request::PinPeer {
            peer_id,
            fingerprint,
        } => {
            assert_eq!(peer_id, "host:4000");
            assert_eq!(fingerprint, FP_B);
        }
        _ => panic!("a new peer is pinned"),
    }
    assert!(matches!(app.on_peer_pinned(Ok(())), Request::StartChat));
    app.on_chat_started(Ok(()));
    match &chat(&app).history[..] {
        [ChatLine::System(text)] => assert_eq!(
            text,
            "new peer — verify this fingerprint out-of-band: fp:518ab8646422ac0a"
        ),
        _ => panic!("the user is told to verify"),
    }
}

#[test]
fn changed_fingerprint_is_confirmed_or_refused() {
    for trusts in ['u', 'U'] {
        let mut app = new_app();
        connect(&mut app);
        let expected = FP_A.to_string();
        assert!(matches!(
            app.on_peer_checked(Ok(TrustDecision::Mismatch { expected })),
            Request::Nothing
        ));
        match &app.screen {
            Screen::Mismatch {
                peer_id,
                expected_short,
                got_short,
                ..
            } => {
                assert_eq!(peer_id, "host:4000");
                assert_eq!(expected_short, "fp:8c21e58a375dec9e");
                assert_eq!(got_short, "fp:518ab8646422ac0a");
            }
            _ => panic!("the fingerprint has changed"),
        }
        match press(&mut app, KeyCode::Char(trusts)) {
            Request::PinPeer {
                peer_id,
                fingerprint,
            } => {
                assert_eq!(peer_id, "host:4000");
                assert_eq!(fingerprint, FP_B);
            }
            _ => panic!("the new key is trusted"),
        }
        assert!(matches!(
            app.on_peer_pinned(Ok(())),
            Request::CheckPeer { .. }
        ));
        app.on_peer_checked(Ok(TrustDecision::Verified));
        app.on_chat_started(Ok(()));
        assert!(chat(&app).history.is_empty());
    }
    for refuses in [KeyCode::Enter, KeyCode::Esc, KeyCode::Char('y')] {
        let mut app = new_app();
        connect(&mut app);
        let expected = "é".to_string();
        app.on_peer_checked(Ok(TrustDecision::Mismatch { expected }));
        assert!(matches!(press(&mut app, refuses), Request::Nothing));
        assert!(on_menu(&app));
    }
}

#[test]
fn failures_while_opening_a_chat_are_noticed() {
    let mut app = new_app();
    connect(&mut app);
    app.on_peer_checked(Err("unreadable".to_string()));
    assert_eq!(notice(&app), "failed to start chat: unreadable");

    let mut app = new_app();
    connect(&mut app);
    app.on_peer_checked(Ok(TrustDecision::New));
    app.on_peer_pinned(Err("read-only".to_string()));
    assert_eq!(notice(&app), "failed to start chat: read-only");

    let mut app = new_app();
    connect(&mut app);
    app.on_peer_checked(Ok(TrustDecision::Verified));
    app.on_chat_started(Err("failed to clone stream".to_string()));
    assert_eq!(notice(&app), "failed to start chat: failed to clone stream");

    let mut app = new_app();
    connect(&mut app);
    let expected = FP_A.to_string();
    app.on_peer_checked(Ok(TrustDecision::Mismatch { expected }));
    press(&mut app, KeyCode::Char('u'));
    app.on_peer_pinned(Err("read-only".to_string()));
    assert_eq!(notice(&app), "failed to update peer: read-only");
}

#[test]
fn chat_sends_what_was_typed() {
    let mut app = in_chat();
    write(&mut app, "hix ");
    press(&mut app, KeyCode::Backspace);
    press(&mut app, KeyCode::Backspace);
    match press(&mut app, KeyCode::Enter) {
        Request::Send { out } => {
            assert_eq!(out.text, "hi");
            assert_eq!(
                hex::encode(&out.frame),
                "00000012f66d27e5bce5cec932ad0df2deb2f2a966ff"
            );
        }
        _ => panic!("something was typed"),
    }
    app.on_sent("hi".to_string(), Err("broken pipe".to_string()));
    assert_eq!(chat(&app).input, "hi");
    assert!(
        matches!(&chat(&app).history[..], [ChatLine::System(t)] if t == "send failed: broken pipe")
    );
    app.on_sent("hi".to_string(), Ok(()));
    assert_eq!(chat(&app).input, "");
    assert!(matches!(&chat(&app).history[1], ChatLine::Me(t) if t == "hi"));
    assert!(matches!(press(&mut app, KeyCode::Enter), Request::Nothing));
}

#[test]
fn chat_tells_when_its_counter_is_used_up() {
    let mut app = new_app();
    let session = ChatSession::new(SessionSender::at([9u8; 32], u64::MAX), String::new());
    app.screen = Screen::Chat(session);
    write(&mut app, "hi");
    assert!(matches!(press(&mut app, KeyCode::Enter), Request::Nothing));
    assert!(matches!(
        &chat(&app).history[..],
        [ChatLine::System(t)] if t == "send failed: nonce counter overflow"
    ));
}

#[test]
fn chat_scrolls_and_is_left() {
    let mut app = in_chat();
    for (code, expected) in [
        (KeyCode::Down, 0),
        (KeyCode::Up, 1),
        (KeyCode::PageUp, 11),
        (KeyCode::Down, 10),
        (KeyCode::PageDown, 0),
        (KeyCode::Tab, 0),
    ] {
        press(&mut app, code);
        assert_eq!(chat(&app).scroll, expected);
    }
    for command in ["/quit", " /exit "] {
        let mut app = in_chat();
        write(&mut app, command);
        assert!(matches!(
            press(&mut app, KeyCode::Enter),
            Request::CloseChat
        ));
        assert!(on_menu(&app));
    }
    assert!(matches!(press(&mut app, KeyCode::Esc), Request::CloseChat));
    assert!(on_menu(&app));
}

#[test]
fn ended_chat_takes_no_input() {
    let mut app = in_chat();
    app.tick(Polled::ChatEvents(vec![
        ChatEvent::Message("bye".to_string()),
        ChatEvent::Disconnected,
    ]));
    assert!(chat(&app).ended);
    write(&mut app, "hi");
    assert_eq!(chat(&app).input, "");
    assert_eq!(chat(&app).history.len(), 2);
    assert!(matches!(
        press(&mut app, KeyCode::Enter),
        Request::CloseChat
    ));
    assert!(on_menu(&app));
}

#[test]
fn fingerprints_are_shortened() {
    assert_eq!(short_fp(FP_A), "fp:8c21e58a375dec9e");
    assert_eq!(short_fp("abc"), "fp:abc");
    assert_eq!(short_fp(""), "fp:");
    assert_eq!(short_fp("0123456789abcdé"), "fp:0123456789abcdé");
}

#[test]
fn outcome_has_the_fingerprint_of_both_long_term_keys() {
    let bob_identity = Identity::from_secret_bytes([2u8; 32]);
    let outcome = bob();
    assert_eq!(
        outcome.peer_fingerprint,
        fingerprint(
            &bob_identity.public,
            &bob_identity.signing.verifying_key()
        )
    );
    assert_eq!(outcome.peer_id, "host:4000");
}

#[test]
fn shortcut_quits_whatever_fingerprint_is_shown() {
    let mut app = App {
        identity: Identity::from_secret_bytes([7u8; 32]),
        my_fingerprint: String::new(),
        screen: Screen::Menu { selected: 0 },
        should_quit: false,
        opening: Opening::Idle,
    };
    press(&mut app, KeyCode::Char('5'));
    assert!(app.should_quit);
    assert!(on_menu(&app));
    assert_eq!(app.my_fingerprint, "");
}

#[test]
fn ordinary_keys_can_be_taken() {
    let mut app = in_chat();
    write(&mut app, "hi");
    for code in [KeyCode::Enter, KeyCode::Down, KeyCode::Char('x')] {
        assert!(app.can_take(KeyEvent {
            code,
            control: false,
            release: false,
        }));
    }
    app.screen = Screen::Menu {
        selected: usize::MAX,
    };
    assert!(!app.can_take(KeyEvent {
        code: KeyCode::Down,
        control: false,
        release: false,
    }));
}
