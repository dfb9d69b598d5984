use directmessages::app::App;
use directmessages::chat::{ChatLine, ChatSession};
use directmessages::crypto::{Identity, SessionSender};
use directmessages::screens::{AddPeerFocus, ConnectFocus, Screen};
use directmessages::ui::{centered, chat_lines, draw, pad, Body, Page, Panel, Span, Tone, Wrapping};

const FP_A: &str = "8c21e58a375dec9eefcb7d37413b49a22e692f17fd8c0bb6253e965ab56c9134";

fn page(screen: Screen) -> Page {
    let mut app = App::new(Identity::from_secret_bytes([1u8; 32]));
    app.screen = screen;
    draw(&app, 10)
}

fn panel(screen: Screen) -> Panel {
    match page(screen) {
        Page::Popup(panel) => panel,
        _ => panic!("this screen is a panel"),
    }
}

fn show(row: &[Span]) -> String {
    row.iter().map(|span| span.text.as_str()).collect()
}

fn rows(panel: &Panel) -> Vec<String> {
    match &panel.body {
        Body::Rows(rows) => rows.iter().map(|row| show(row)).collect(),
        Body::Text(_) => panic!("this panel has rows"),
    }
}

#[test]
fn menu_is_shown_with_its_selection() {
    match page(Screen::Menu { selected: 2 }) {
        Page::Menu {
            title,
            header,
            list,
            footer,
        } => {
            assert_eq!(title, " DirectMessages ");
            assert_eq!(show(&header[0]), "DirectMessages");
            assert_eq!(header[0][0].tone, Tone::Title);
            assert_eq!(show(&header[1]), format!("my fingerprint: {FP_A}"));
            assert_eq!(header[1][1].tone, Tone::Caution);
            assert_eq!(list.title, " Menu ");
            let items: Vec<&str> = list.items.iter().map(|i| i.text.as_str()).collect();
            assert_eq!(
                items,
                [
                    "  1. Connect to peer",
                    "  2. Listen for connection",
                    "  3. Manage peers",
                    "  4. Regenerate keypair",
                    "  5. Quit"
                ]
            );
            assert_eq!(list.items[1].tone, Tone::Plain);
            assert_eq!(list.items[2].tone, Tone::Selected);
            assert_eq!(footer, "↑/↓ select · Enter choose · 1-5 shortcut · q/Esc quit");
        }
        _ => panic!("the menu is shown"),
    }
}

#[test]
fn connect_form_is_shown() {
    let panel = panel(Screen::Connect {
        host: "h".to_string(),
        port: "80".to_string(),
        focus: ConnectFocus::Port,
        error: Some("oops".to_string()),
    });
    assert_eq!(panel.title, " Connect ");
    assert_eq!((panel.percent_x, panel.percent_y), (60, 60));
    assert_eq!(
        rows(&panel),
        [
            "Connect to a peer",
            "",
            "  host h",
            "  port 80|",
            "",
            "Tab/↑/↓ switch field · Enter connect · Esc back",
            "error: oops"
        ]
    );
}

#[test]
fn status_is_shown() {
    let panel = panel(Screen::Connecting {
        status: "connecting to h:80...".to_string(),
    });
    assert_eq!(panel.title, " Connecting ");
    assert!(panel.centred);
    assert_eq!(rows(&panel), ["connecting to h:80...", "", "Esc cancel"]);
}

#[test]
fn listen_form_is_shown() {
    let form = panel(Screen::Listen {
        port: "4".to_string(),
        listening: false,
        status: None,
        error: Some("oops".to_string()),
    });
    assert_eq!(
        rows(&form),
        [
            "Listen for a connection",
            "",
            "  port 4|",
            "",
            "Enter start · Esc back",
            "error: oops"
        ]
    );
    let bound = panel(Screen::Listen {
        port: "4".to_string(),
        listening: true,
        status: Some("listening".to_string()),
        error: None,
    });
    assert_eq!(
        rows(&bound),
        [
            "Listen for a connection",
            "",
            "listening",
            "",
            "Esc cancel"
        ]
    );
}

#[test]
fn peers_are_shown_in_columns() {
    let peers = vec![
        ("a:1".to_string(), FP_A.to_string()),
        ("b:2".to_string(), "short".to_string()),
    ];
    match page(Screen::Peers { peers, selected: 1 }) {
        Page::Peers { list, footer } => {
            assert_eq!(list.title, " Trusted peers ");
            assert_eq!(
                list.items[0].text,
                format!("  {:32}  fp:8c21e58a375dec9e", "a:1")
            );
            assert_eq!(list.items[0].tone, Tone::Plain);
            assert_eq!(list.items[1].text, format!("  {:32}  fp:short", "b:2"));
            assert_eq!(list.items[1].tone, Tone::Selected);
            assert_eq!(footer, "↑/↓ select · a add · r remove · Esc back");
        }
        _ => panic!("the peers are shown"),
    }
    let peers = Vec::new();
    match page(Screen::Peers { peers, selected: 0 }) {
        Page::Peers { list, .. } => {
            assert_eq!(list.items.len(), 1);
            assert_eq!(
                list.items[0].text,
                "  (no trusted peers yet — press 'a' to add)"
            );
        }
        _ => panic!("the peers are shown"),
    }
}

#[test]
fn add_peer_form_is_shown() {
    let panel = panel(Screen::AddPeer {
        address: "h:1".to_string(),
        fingerprint: "ab".to_string(),
        focus: AddPeerFocus::Address,
        error: None,
    });
    assert_eq!((panel.percent_x, panel.percent_y), (70, 70));
    assert_eq!(
        rows(&panel),
        [
            "Add a trusted peer",
            "",
            "  address:    h:1|",
            "  fingerprint:ab",
            "",
            "Tab/↑/↓ switch field · Enter save · Esc back"
        ]
    );
}

#[test]
fn notice_is_shown() {
    let panel = panel(Screen::Notice {
        text: "done".to_string(),
    });
    assert!(panel.alarm);
    assert_eq!(panel.wrapping, Wrapping::Trimmed);
    match panel.body {
        Body::Text(text) => assert_eq!(text, "done\n\n(press any key to continue)"),
        Body::Rows(_) => panic!("a notice is a text"),
    }
}

#[test]
fn warning_is_shown() {
    let panel = panel(Screen::Mismatch {
        peer_id: "h:1".to_string(),
        expected_short: "fp:old".to_string(),
        got_short: "fp:new".to_string(),
        outcome: None,
    });
    let shown = rows(&panel);
    assert_eq!(shown.len(), 14);
    assert_eq!(shown[0], "SECURITY WARNING");
    assert_eq!(shown[2], "The fingerprint of peer h:1 changed since the");
    assert_eq!(shown[7], "  expected: fp:old");
    assert_eq!(shown[8], "  got:      fp:new");
    assert_eq!(
        shown[13],
        "U trust the new key and continue · any other key abort"
    );
    match &panel.body {
        Body::Rows(rows) => {
            assert_eq!(rows[0][0].tone, Tone::Warning);
            assert_eq!(rows[7][1].tone, Tone::Alarm);
            assert_eq!(rows[8][1].tone, Tone::Caution);
        }
        Body::Text(_) => panic!("the warning has rows"),
    }
}

fn session(lines: usize) -> ChatSession {
    let mut session = ChatSession::new(SessionSender::at([9u8; 32], 0), "fp:x".to_string());
    for i in 0..lines {
        session.history.push(ChatLine::Me(i.to_string()));
    }
    session
}

#[test]
fn chat_is_shown() {
    let mut session = session(0);
    session.history.push(ChatLine::Me("a".to_string()));
    session.history.push(ChatLine::Peer("b".to_string()));
    session.history.push(ChatLine::System("c".to_string()));
    session.input = "hi".to_string();
    match page(Screen::Chat(session)) {
        Page::Chat { list, title, input } => {
            assert_eq!(list.title, " Chat with fp:x ");
            assert_eq!(title, " Message ");
            assert_eq!(input, "> hi|");
            assert_eq!(list.items[0].text, "  [me]   a");
            assert_eq!(list.items[0].tone, Tone::Good);
            assert_eq!(list.items[1].text, "  [peer] b");
            assert_eq!(list.items[1].tone, Tone::Accent);
            assert_eq!(list.items[2].text, "  · c");
            assert_eq!(list.items[2].tone, Tone::Dim);
        }
        _ => panic!("the chat is shown"),
    }
}

#[test]
fn ended_chat_is_shown() {
    let mut session = session(20);
    session.ended = true;
    match page(Screen::Chat(session)) {
        Page::Chat { list, input, .. } => {
            assert_eq!(list.title, " Chat with fp:x — disconnected (Esc to leave) ");
            assert_eq!(input, "> ");
            // Of the ten rows of the pane two are its border.
            assert_eq!(list.items.len(), 8);
            assert_eq!(list.items[7].text, "  [me]   19");
        }
        _ => panic!("the chat is shown"),
    }
}

#[test]
fn history_is_scrolled() {
    let mut session = session(10);
    let first = |session: &ChatSession, visible: usize| -> Option<String> {
        chat_lines(session, visible).first().map(|s| s.text.clone())
    };
    assert_eq!(first(&session, 3), Some("  [me]   7".to_string()));
    session.scroll = 2;
    assert_eq!(first(&session, 3), Some("  [me]   5".to_string()));
    assert_eq!(chat_lines(&session, 3).len(), 3);
    session.scroll = 8;
    assert_eq!(chat_lines(&session, 3).len(), 2);
    session.scroll = usize::MAX;
    assert!(chat_lines(&session, 3).is_empty());
    session.scroll = 0;
    assert_eq!(chat_lines(&session, 100).len(), 10);
    assert!(chat_lines(&session, 0).is_empty());
}

#[test]
fn texts_are_padded_by_characters() {
    assert_eq!(pad("ab", 4), "ab  ");
    assert_eq!(pad("héé", 4), "héé ");
    assert_eq!(pad("abcde", 4), "abcde");
    assert_eq!(pad("", 0), "");
}

#[test]
fn panels_stand_in_the_middle() {
    assert_eq!(centered(60), (20, 60, 20));
    assert_eq!(centered(70), (15, 70, 15));
    assert_eq!(centered(40), (30, 40, 30));
    assert_eq!(centered(33), (33, 33, 33));
    assert_eq!(centered(100), (0, 100, 0));
}
