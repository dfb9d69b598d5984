//! What every event makes of the application: its next state, and what it asks
//! for.

use crate::chat::{self, Chat, Line};
use crate::crypto::{self, Identity};
use crate::primitives;
use crate::protocol;
use crate::screens::{
    AddPeerFocus, AppView, ConnectFocus, Event, KeyCode, KeyEvent, OpeningView, OutcomeView,
    RequestView, ScreenView, MENU_LEN,
};
use crate::state::Trust;
use crate::text;
use vstd::prelude::*;
use vstd::utf8::{decode_utf8, encode_utf8};

verus! {

/// The screen that is shown first, and that most keys lead back to.
pub open spec fn menu() -> ScreenView {
    ScreenView::Menu { selected: 0 }
}

/// The application on another screen.
pub open spec fn on(app: AppView, screen: ScreenView) -> AppView {
    AppView { screen, ..app }
}

/// Goes to a screen and asks for nothing.
pub open spec fn go(app: AppView, screen: ScreenView) -> (AppView, RequestView) {
    (on(app, screen), RequestView::Nothing)
}

/// Shows a notice.
pub open spec fn notify(app: AppView, text: Seq<char>) -> (AppView, RequestView) {
    go(app, ScreenView::Notice { text })
}

/// Quits, on the given screen.
pub open spec fn quit(app: AppView, screen: ScreenView) -> (AppView, RequestView) {
    (AppView { should_quit: true, screen, ..app }, RequestView::Nothing)
}

/// A number lower by some amount, but not below zero.
pub open spec fn lower(n: usize, by: int) -> usize {
    if n < by {
        0
    } else {
        (n - by) as usize
    }
}

/// A number higher by some amount, but not above the largest.
pub open spec fn higher(n: usize, by: int) -> usize {
    if n + by > usize::MAX {
        usize::MAX
    } else {
        (n + by) as usize
    }
}

/// The next place in a list, but not past its end.
pub open spec fn next_in(selected: usize, len: nat) -> usize {
    if selected + 1 < len {
        (selected + 1) as usize
    } else {
        (len - 1) as usize
    }
}

/// What choosing a menu item does.
pub open spec fn menu_choice(app: AppView, selected: usize, item: int) -> (AppView, RequestView) {
    let stay = ScreenView::Menu { selected };
    if item == 0 {
        go(
            app,
            ScreenView::Connect {
                host: Seq::empty(),
                port: Seq::empty(),
                focus: ConnectFocus::Host,
                error: None,
            },
        )
    } else if item == 1 {
        go(
            app,
            ScreenView::Listen {
                port: Seq::empty(),
                listening: false,
                status: None,
                error: None,
            },
        )
    } else if item == 2 {
        (on(app, stay), RequestView::LoadPeers)
    } else if item == 3 {
        (on(app, stay), RequestView::GenerateKeypair)
    } else if item == 4 {
        quit(app, stay)
    } else {
        go(app, stay)
    }
}

/// What a key does on the menu.
pub open spec fn menu_key(app: AppView, selected: usize, code: KeyCode) -> (AppView, RequestView) {
    match code {
        KeyCode::Esc => quit(app, ScreenView::Menu { selected }),
        KeyCode::Up => go(app, ScreenView::Menu { selected: lower(selected, 1) }),
        KeyCode::Down => go(
            app,
            ScreenView::Menu { selected: next_in(selected, MENU_LEN as nat) },
        ),
        KeyCode::Enter => menu_choice(app, selected, selected as int),
        KeyCode::Char(c) => if c == 'q' {
            quit(app, ScreenView::Menu { selected })
        } else if '1' <= c <= '5' {
            menu_choice(app, selected, c as int - '1' as int)
        } else {
            go(app, ScreenView::Menu { selected })
        },
        _ => go(app, ScreenView::Menu { selected }),
    }
}

/// A text without its last character.
pub open spec fn popped(text: Seq<char>) -> Seq<char> {
    if text.len() == 0 {
        text
    } else {
        text.drop_last()
    }
}

/// A text with a character at its end, if that is a digit.
pub open spec fn with_digit(text: Seq<char>, c: char) -> Seq<char> {
    if text::is_digit(c) {
        text.push(c)
    } else {
        text
    }
}

/// What is shown of an address: host and port with a colon between them.
pub open spec fn address_of(host: Seq<char>, port: u16) -> Seq<char> {
    host + ":"@ + text::decimal(port as nat)
}

/// What a key does on the connect form.
pub open spec fn connect_key(
    app: AppView,
    host: Seq<char>,
    port: Seq<char>,
    focus: ConnectFocus,
    error: Option<Seq<char>>,
    code: KeyCode,
) -> (AppView, RequestView) {
    let other = match focus {
        ConnectFocus::Host => ConnectFocus::Port,
        ConnectFocus::Port => ConnectFocus::Host,
    };
    match code {
        KeyCode::Esc => go(app, menu()),
        KeyCode::Tab | KeyCode::Down | KeyCode::Up => go(
            app,
            ScreenView::Connect { host, port, focus: other, error },
        ),
        KeyCode::Enter => if focus == ConnectFocus::Host {
            go(app, ScreenView::Connect { host, port, focus: ConnectFocus::Port, error })
        } else {
            match text::port_of(port) {
                Some(p) if host.len() > 0 => (
                    on(
                        app,
                        ScreenView::Connecting {
                            status: "connecting to "@ + address_of(host, p) + "..."@,
                        },
                    ),
                    RequestView::Connect { host, port: p },
                ),
                _ => go(
                    app,
                    ScreenView::Connect {
                        host,
                        port,
                        focus,
                        error: Some("enter a valid host and port (1-65535)"@),
                    },
                ),
            }
        },
        KeyCode::Backspace => go(
            app,
            match focus {
                ConnectFocus::Host => ScreenView::Connect {
                    host: popped(host),
                    port,
                    focus,
                    error: None,
                },
                ConnectFocus::Port => ScreenView::Connect {
                    host,
                    port: popped(port),
                    focus,
                    error: None,
                },
            },
        ),
        KeyCode::Char(c) => go(
            app,
            match focus {
                ConnectFocus::Host => ScreenView::Connect {
                    host: host.push(c),
                    port,
                    focus,
                    error: None,
                },
                ConnectFocus::Port => ScreenView::Connect {
                    host,
                    port: with_digit(port, c),
                    focus,
                    error: None,
                },
            },
        ),
        _ => go(app, ScreenView::Connect { host, port, focus, error }),
    }
}

/// What a key does on the listen form.
pub open spec fn listen_key(
    app: AppView,
    port: Seq<char>,
    listening: bool,
    status: Option<Seq<char>>,
    error: Option<Seq<char>>,
    code: KeyCode,
) -> (AppView, RequestView) {
    let stay = ScreenView::Listen { port, listening, status, error };
    match code {
        KeyCode::Esc => go(app, menu()),
        KeyCode::Enter if !listening => match text::port_of(port) {
            Some(p) => (on(app, stay), RequestView::Bind { port: p }),
            None => go(
                app,
                ScreenView::Listen {
                    port,
                    listening,
                    status,
                    error: Some("enter a valid port (1-65535)"@),
                },
            ),
        },
        KeyCode::Backspace if !listening => go(
            app,
            ScreenView::Listen { port: popped(port), listening, status, error: None },
        ),
        KeyCode::Char(c) if !listening => go(
            app,
            ScreenView::Listen { port: with_digit(port, c), listening, status, error: None },
        ),
        _ => go(app, stay),
    }
}

/// What a key does on the list of peers.
pub open spec fn peers_key(
    app: AppView,
    peers: Seq<(Seq<char>, Seq<char>)>,
    selected: usize,
    code: KeyCode,
) -> (AppView, RequestView) {
    let stay = ScreenView::Peers { peers, selected };
    match code {
        KeyCode::Esc => go(app, menu()),
        KeyCode::Up => go(app, ScreenView::Peers { peers, selected: lower(selected, 1) }),
        KeyCode::Down => if peers.len() > 0 {
            go(app, ScreenView::Peers { peers, selected: next_in(selected, peers.len()) })
        } else {
            go(app, stay)
        },
        KeyCode::Char('r') | KeyCode::Char('d') => if selected < peers.len() {
            (on(app, stay), RequestView::RemovePeer { address: peers[selected as int].0 })
        } else {
            go(app, stay)
        },
        KeyCode::Char('a') => go(
            app,
            ScreenView::AddPeer {
                address: Seq::empty(),
                fingerprint: Seq::empty(),
                focus: AddPeerFocus::Address,
                error: None,
            },
        ),
        _ => go(app, stay),
    }
}

/// The fingerprint that a text is meant to be: 64 hexadecimal digits, white
/// space around them and the case of letters aside.
pub open spec fn meant_fingerprint(text: Seq<char>) -> Option<Seq<char>> {
    let digits = text::trimmed(text);
    if digits.len() == 64 && (forall|i: int|
        0 <= i < digits.len() ==> text::is_hex_digit(digits[i])) {
        Some(Seq::new(64, |i: int| text::lowered(digits[i])))
    } else {
        None
    }
}

/// What a key does on the add-peer form.
pub open spec fn add_peer_key(
    app: AppView,
    address: Seq<char>,
    fingerprint: Seq<char>,
    focus: AddPeerFocus,
    error: Option<Seq<char>>,
    code: KeyCode,
) -> (AppView, RequestView) {
    let stay = ScreenView::AddPeer { address, fingerprint, focus, error };
    let other = match focus {
        AddPeerFocus::Address => AddPeerFocus::Fingerprint,
        AddPeerFocus::Fingerprint => AddPeerFocus::Address,
    };
    match code {
        KeyCode::Esc => (on(app, stay), RequestView::LoadPeers),
        KeyCode::Tab | KeyCode::Down | KeyCode::Up => go(
            app,
            ScreenView::AddPeer { address, fingerprint, focus: other, error },
        ),
        KeyCode::Enter => if focus == AddPeerFocus::Address {
            go(
                app,
                ScreenView::AddPeer {
                    address,
                    fingerprint,
                    focus: AddPeerFocus::Fingerprint,
                    error,
                },
            )
        } else if address.len() == 0 {
            go(
                app,
                ScreenView::AddPeer {
                    address,
                    fingerprint,
                    focus,
                    error: Some("enter the peer's address (host:port)"@),
                },
            )
        } else {
            match meant_fingerprint(fingerprint) {
                Some(fp) => (on(app, stay), RequestView::AddPeer { address, fingerprint: fp }),
                None => go(
                    app,
                    ScreenView::AddPeer {
                        address,
                        fingerprint,
                        focus,
                        error: Some("fingerprint must be 64 hex characters"@),
                    },
                ),
            }
        },
        KeyCode::Backspace => go(
            app,
            match focus {
                AddPeerFocus::Address => ScreenView::AddPeer {
                    address: popped(address),
                    fingerprint,
                    focus,
                    error: None,
                },
                AddPeerFocus::Fingerprint => ScreenView::AddPeer {
                    address,
                    fingerprint: popped(fingerprint),
                    focus,
                    error: None,
                },
            },
        ),
        KeyCode::Char(c) => go(
            app,
            match focus {
                AddPeerFocus::Address => ScreenView::AddPeer {
                    address: address.push(c),
                    fingerprint,
                    focus,
                    error,
                },
                AddPeerFocus::Fingerprint => ScreenView::AddPeer {
                    address,
                    fingerprint: if text::is_hex_digit(c) {
                        fingerprint.push(text::lowered(c))
                    } else {
                        fingerprint
                    },
                    focus,
                    error,
                },
            },
        ),
        _ => go(app, stay),
    }
}

/// What a key does on the fingerprint warning. `u` trusts the peer's new key;
/// anything else aborts.
pub open spec fn mismatch_key(
    app: AppView,
    peer_id: Seq<char>,
    expected_short: Seq<char>,
    got_short: Seq<char>,
    outcome: Option<OutcomeView>,
    code: KeyCode,
) -> (AppView, RequestView) {
    match outcome {
        Some(o) if code == KeyCode::Char('u') || code == KeyCode::Char('U') => (
            AppView {
                screen: ScreenView::Mismatch { peer_id, expected_short, got_short, outcome: None },
                opening: OpeningView::Repinning(o),
                ..app
            },
            RequestView::PinPeer { peer_id: o.peer_id, fingerprint: o.peer_fingerprint },
        ),
        _ => go(app, menu()),
    }
}

/// Leaves the chat.
pub open spec fn leave_chat(app: AppView) -> (AppView, RequestView) {
    (on(app, menu()), RequestView::CloseChat)
}

/// Whether what was typed is a command to leave the chat.
pub open spec fn is_leave_command(input: Seq<char>) -> bool {
    text::trimmed(input) == "/quit"@ || text::trimmed(input) == "/exit"@
}

/// Whether what the enter key would encrypt, if anything, is not of a length on
/// which the cipher panics.
pub open spec fn can_enter(chat: Chat) -> bool {
    is_leave_command(chat.input) || chat.sender.counter() == u64::MAX || primitives::seal_answers(
        encode_utf8(text::trimmed_end(chat.input)).len() as int,
    )
}

/// Whether a key can be taken: the enter key in a chat only where the cipher
/// answers for what was typed, and the down key in a list only where the place
/// of the next item is a number at all.
pub open spec fn can_take(app: AppView, key: KeyEvent) -> bool {
    match app.screen {
        ScreenView::Menu { selected } => key.release || key.code != KeyCode::Down || selected
            < usize::MAX,
        ScreenView::Peers { peers, selected } => key.release || key.code != KeyCode::Down
            || peers.len() == 0 || selected < usize::MAX,
        ScreenView::Chat(chat) => key.release || chat.ended || key.code != KeyCode::Enter
            || can_enter(chat),
        _ => true,
    }
}

/// What the enter key does in a chat: it leaves on `/quit` or `/exit`, and else
/// sends what was typed.
pub open spec fn chat_enter(app: AppView, chat: Chat) -> (AppView, RequestView) {
    if is_leave_command(chat.input) {
        leave_chat(app)
    } else {
        match chat::to_send(chat) {
            None => go(app, ScreenView::Chat(chat)),
            Some(text) => match crypto::sealed(chat.sender, encode_utf8(text)) {
                Ok(ciphertext) => (
                    on(app, ScreenView::Chat(chat::after_send(chat))),
                    RequestView::Send { frame: protocol::frame(ciphertext), text },
                ),
                Err(e) => go(
                    app,
                    ScreenView::Chat(
                        chat::with_line(
                            chat::after_send(chat),
                            Line::System("send failed: "@ + e.text()),
                        ),
                    ),
                ),
            },
        }
    }
}

/// What a key does in a chat.
pub open spec fn chat_key(app: AppView, chat: Chat, code: KeyCode) -> (AppView, RequestView) {
    if chat.ended {
        if code == KeyCode::Esc || code == KeyCode::Enter {
            leave_chat(app)
        } else {
            go(app, ScreenView::Chat(chat))
        }
    } else {
        match code {
            KeyCode::Esc => leave_chat(app),
            KeyCode::Enter => chat_enter(app, chat),
            KeyCode::Backspace => go(
                app,
                ScreenView::Chat(Chat { input: popped(chat.input), ..chat }),
            ),
            KeyCode::Char(c) => go(
                app,
                ScreenView::Chat(Chat { input: chat.input.push(c), ..chat }),
            ),
            KeyCode::Up => go(
                app,
                ScreenView::Chat(Chat { scroll: higher(chat.scroll, 1), ..chat }),
            ),
            KeyCode::Down => go(
                app,
                ScreenView::Chat(Chat { scroll: lower(chat.scroll, 1), ..chat }),
            ),
            KeyCode::PageUp => go(
                app,
                ScreenView::Chat(Chat { scroll: higher(chat.scroll, 10), ..chat }),
            ),
            KeyCode::PageDown => go(
                app,
                ScreenView::Chat(Chat { scroll: lower(chat.scroll, 10), ..chat }),
            ),
            _ => go(app, ScreenView::Chat(chat)),
        }
    }
}

/// What a key does.
pub open spec fn after_key(app: AppView, key: KeyEvent) -> (AppView, RequestView) {
    if key.release {
        (app, RequestView::Nothing)
    } else if key.code == KeyCode::Char('c') && key.control {
        quit(app, app.screen)
    } else {
        match app.screen {
            ScreenView::Menu { selected } => menu_key(app, selected, key.code),
            ScreenView::Connect { host, port, focus, error } => connect_key(
                app,
                host,
                port,
                focus,
                error,
                key.code,
            ),
            ScreenView::Connecting { status } => if key.code == KeyCode::Esc {
                go(app, menu())
            } else {
                (app, RequestView::Nothing)
            },
            ScreenView::Listen { port, listening, status, error } => listen_key(
                app,
                port,
                listening,
                status,
                error,
                key.code,
            ),
            ScreenView::Peers { peers, selected } => peers_key(app, peers, selected, key.code),
            ScreenView::AddPeer { address, fingerprint, focus, error } => add_peer_key(
                app,
                address,
                fingerprint,
                focus,
                error,
                key.code,
            ),
            ScreenView::Notice { text } => go(app, menu()),
            ScreenView::Mismatch { peer_id, expected_short, got_short, outcome } => mismatch_key(
                app,
                peer_id,
                expected_short,
                got_short,
                outcome,
                key.code,
            ),
            ScreenView::Chat(chat) => chat_key(app, chat, key.code),
        }
    }
}

/// What is shown of a fingerprint: its first sixteen bytes.
pub open spec fn short(fingerprint: Seq<char>) -> Seq<char> {
    let bytes = encode_utf8(fingerprint);
    let shown = if bytes.len() < 16 {
        bytes
    } else {
        bytes.take(16)
    };
    "fp:"@ + decode_utf8(shown)
}

/// What comes of binding a port for listening.
pub open spec fn after_bound(app: AppView, p: u16, answer: Result<(), Seq<char>>) -> (
    AppView,
    RequestView,
) {
    match app.screen {
        ScreenView::Listen { port, listening: false, status, error } => match answer {
            Ok(()) => go(
                app,
                ScreenView::Listen {
                    port,
                    listening: true,
                    status: Some(
                        "listening on 0.0.0.0:"@ + text::decimal(p as nat)
                            + " \u{2014} waiting for a connection..."@,
                    ),
                    error: None,
                },
            ),
            Err(e) => go(
                app,
                ScreenView::Listen {
                    port,
                    listening: false,
                    status,
                    error: Some("bind failed: "@ + e),
                },
            ),
        },
        _ => (app, RequestView::Nothing),
    }
}

/// What comes of storing a peer that the user added.
pub open spec fn after_added(app: AppView, answer: Result<(), Seq<char>>) -> (
    AppView,
    RequestView,
) {
    match app.screen {
        ScreenView::AddPeer { address, fingerprint, focus, error } => match answer {
            Ok(()) => (app, RequestView::LoadPeers),
            Err(e) => go(
                app,
                ScreenView::AddPeer {
                    address,
                    fingerprint,
                    focus,
                    error: Some("failed to pin peer: "@ + e),
                },
            ),
        },
        _ => (app, RequestView::Nothing),
    }
}

/// What comes of removing the selected peer: it leaves the list, and the
/// selection stays in range.
pub open spec fn after_removed(app: AppView, answer: Result<(), Seq<char>>) -> (
    AppView,
    RequestView,
) {
    match app.screen {
        ScreenView::Peers { peers, selected } if selected < peers.len() => match answer {
            Ok(()) => go(
                app,
                ScreenView::Peers {
                    peers: peers.remove(selected as int),
                    selected: if selected + 1 < peers.len() {
                        selected
                    } else {
                        lower(selected, 1)
                    },
                },
            ),
            Err(e) => notify(app, "failed to remove peer: "@ + e),
        },
        _ => (app, RequestView::Nothing),
    }
}

/// What comes of generating a keypair: it takes the place of the old one.
pub open spec fn after_keypair(app: AppView, res: Result<Identity, Seq<char>>) -> (
    AppView,
    RequestView,
) {
    match res {
        Ok(identity) => {
            let fp = crypto::fingerprint_of(identity.public@, identity.signing.verifying@);
            notify(
                AppView { identity, my_fingerprint: fp, ..app },
                "new keypair generated\nfingerprint: "@ + fp,
            )
        },
        Err(e) => notify(app, "keygen failed: "@ + e),
    }
}

/// Starts opening a chat: the peer's fingerprint is looked up.
pub open spec fn open(app: AppView, outcome: OutcomeView) -> (AppView, RequestView) {
    (
        AppView { opening: OpeningView::Checking(outcome), ..app },
        RequestView::CheckPeer {
            peer_id: outcome.peer_id,
            fingerprint: outcome.peer_fingerprint,
        },
    )
}

/// What comes of looking at the connections.
pub open spec fn after_poll(app: AppView, event: Event) -> (AppView, RequestView) {
    match (app.screen, event) {
        (ScreenView::Connecting { .. }, Event::Connected(Ok(outcome))) => open(app, outcome),
        (ScreenView::Connecting { .. }, Event::Connected(Err(e))) => notify(
            app,
            "connection failed: "@ + e,
        ),
        (ScreenView::Listen { listening: true, .. }, Event::Accepted(Ok(outcome))) => open(
            app,
            outcome,
        ),
        (ScreenView::Listen { listening: true, .. }, Event::Accepted(Err(e))) => notify(
            app,
            "handshake failed: "@ + e,
        ),
        (ScreenView::Listen { listening: true, .. }, Event::AcceptFailed(e)) => notify(
            app,
            "listen failed: "@ + e,
        ),
        (ScreenView::Chat(chat), Event::ChatEvents(events)) => go(
            app,
            ScreenView::Chat(chat::with_events(chat, events)),
        ),
        _ => (app, RequestView::Nothing),
    }
}

/// Gives up opening a chat.
pub open spec fn give_up(app: AppView, text: Seq<char>) -> (AppView, RequestView) {
    notify(AppView { opening: OpeningView::Idle, ..app }, text)
}

/// What comes of looking up the fingerprint of the peer that waits. A new peer
/// is pinned first; a known one is let in; where the fingerprint has changed
/// the user is asked.
pub open spec fn after_checked(app: AppView, res: Result<Trust, Seq<char>>) -> (
    AppView,
    RequestView,
) {
    match app.opening {
        OpeningView::Checking(o) => match res {
            Err(e) => give_up(app, "failed to start chat: "@ + e),
            Ok(Trust::New) => (
                AppView { opening: OpeningView::PinningNew(o), ..app },
                RequestView::PinPeer { peer_id: o.peer_id, fingerprint: o.peer_fingerprint },
            ),
            Ok(Trust::Verified) => (
                AppView {
                    opening: OpeningView::Starting { outcome: o, first_contact: false },
                    ..app
                },
                RequestView::StartChat,
            ),
            Ok(Trust::Mismatch { expected }) => go(
                AppView { opening: OpeningView::Idle, ..app },
                ScreenView::Mismatch {
                    peer_id: o.peer_id,
                    expected_short: short(expected),
                    got_short: short(o.peer_fingerprint),
                    outcome: Some(o),
                },
            ),
        },
        _ => (app, RequestView::Nothing),
    }
}

/// What comes of storing the fingerprint of the peer that waits. A new peer is
/// let in; one whose new key the user trusts is checked again.
pub open spec fn after_pinned(app: AppView, answer: Result<(), Seq<char>>) -> (
    AppView,
    RequestView,
) {
    match (app.opening, answer) {
        (OpeningView::PinningNew(o), Ok(())) => (
            AppView {
                opening: OpeningView::Starting { outcome: o, first_contact: true },
                ..app
            },
            RequestView::StartChat,
        ),
        (OpeningView::PinningNew(o), Err(e)) => give_up(app, "failed to start chat: "@ + e),
        (OpeningView::Repinning(o), Ok(())) => open(app, o),
        (OpeningView::Repinning(o), Err(e)) => give_up(app, "failed to update peer: "@ + e),
        _ => (app, RequestView::Nothing),
    }
}

/// The chat with a peer that was let in. On first contact the user is told to
/// verify the fingerprint.
pub open spec fn first_chat(outcome: OutcomeView, first_contact: bool) -> Chat {
    let shown = short(outcome.peer_fingerprint);
    let chat = chat::new_chat(outcome.sender, shown);
    if first_contact {
        chat::with_line(
            chat,
            Line::System(
                "new peer \u{2014} verify this fingerprint out-of-band: "@ + shown,
            ),
        )
    } else {
        chat
    }
}

/// What comes of making the connection ready for a chat.
pub open spec fn after_started(app: AppView, answer: Result<(), Seq<char>>) -> (
    AppView,
    RequestView,
) {
    match (app.opening, answer) {
        (OpeningView::Starting { outcome, first_contact }, Ok(())) => (
            AppView {
                opening: OpeningView::Idle,
                screen: ScreenView::Chat(first_chat(outcome, first_contact)),
                ..app
            },
            RequestView::Receive { receiver: outcome.receiver },
        ),
        (OpeningView::Starting { .. }, Err(e)) => give_up(app, "failed to start chat: "@ + e),
        _ => (app, RequestView::Nothing),
    }
}

/// What comes of sending a message. One that was not sent stays in the input.
pub open spec fn after_sent(app: AppView, text: Seq<char>, answer: Result<(), Seq<char>>) -> (
    AppView,
    RequestView,
) {
    match app.screen {
        ScreenView::Chat(chat) => go(
            app,
            ScreenView::Chat(
                match answer {
                    Ok(()) => chat::after_sent(chat, text),
                    Err(e) => chat::with_line(chat, Line::System("send failed: "@ + e)),
                },
            ),
        ),
        _ => (app, RequestView::Nothing),
    }
}

/// What an event makes of the application, and what it then asks for.
pub open spec fn step(app: AppView, event: Event) -> (AppView, RequestView) {
    match event {
        Event::Key(key) => after_key(app, key),
        Event::Bound { port, answer } => after_bound(app, port, answer),
        Event::PeersLoaded(peers) => go(app, ScreenView::Peers { peers, selected: 0 }),
        Event::PeerAdded(answer) => after_added(app, answer),
        Event::PeerRemoved(answer) => after_removed(app, answer),
        Event::KeypairGenerated(res) => after_keypair(app, res),
        Event::PeerChecked(res) => after_checked(app, res),
        Event::PeerPinned(answer) => after_pinned(app, answer),
        Event::ChatStarted(answer) => after_started(app, answer),
        Event::Sent { text, answer } => after_sent(app, text, answer),
        _ => after_poll(app, event),
    }
}

/// Whatever happens, the selected item of a list stays one of its items: going
/// up at the first or down at the last changes nothing, and where the last one
/// is removed the one before it is selected.
pub proof fn selection_stays_in_range(app: AppView, event: Event)
    requires
        app.screen.selection_in_range(),
    ensures
        step(app, event).0.screen.selection_in_range(),
{
}

/// Keeps a port field free of anything but digits.
proof fn port_fields_stay_clean(app: AppView, key: KeyEvent)
    requires
        app.screen.fields_are_clean(),
        app.screen is Connect || app.screen is Listen,
    ensures
        after_key(app, key).0.screen.fields_are_clean(),
{
    match app.screen {
        ScreenView::Connect { host, port, focus, error } => {
            assert(connect_key(app, host, port, focus, error, key.code).0.screen.fields_are_clean());
        },
        ScreenView::Listen { port, listening, status, error } => {
            assert(listen_key(
                app,
                port,
                listening,
                status,
                error,
                key.code,
            ).0.screen.fields_are_clean());
        },
        _ => {},
    }
}

/// Keeps a fingerprint field free of anything but hexadecimal digits.
proof fn fingerprint_field_stays_clean(app: AppView, key: KeyEvent)
    requires
        app.screen.fields_are_clean(),
        app.screen is AddPeer,
    ensures
        after_key(app, key).0.screen.fields_are_clean(),
{
    match app.screen {
        ScreenView::AddPeer { address, fingerprint, focus, error } => {
            assert(add_peer_key(
                app,
                address,
                fingerprint,
                focus,
                error,
                key.code,
            ).0.screen.fields_are_clean());
        },
        _ => {},
    }
}

/// Whatever happens, a port field holds nothing but digits, and a fingerprint
/// field nothing but hexadecimal digits in lowercase: what else is typed is
/// dropped, and capitals are lowered.
pub proof fn fields_stay_clean(app: AppView, event: Event)
    requires
        app.screen.fields_are_clean(),
    ensures
        step(app, event).0.screen.fields_are_clean(),
{
    match event {
        Event::Key(key) => {
            if app.screen is Connect || app.screen is Listen {
                port_fields_stay_clean(app, key);
            } else if app.screen is AddPeer {
                fingerprint_field_stays_clean(app, key);
            }
        },
        _ => {},
    }
}

/// No key breaks what holds of every screen.
pub proof fn key_keeps_screen_wf(app: AppView, key: KeyEvent)
    requires
        app.screen.wf(),
    ensures
        step(app, Event::Key(key)).0.screen.wf(),
{
    selection_stays_in_range(app, Event::Key(key));
    fields_stay_clean(app, Event::Key(key));
}

/// The application is as it should be after every event, if it was before.
pub proof fn step_keeps_wf(app: AppView, event: Event)
    requires
        app.wf(),
        event.wf(),
    ensures
        step(app, event).0.wf(),
{
    selection_stays_in_range(app, event);
    fields_stay_clean(app, event);
}

} // verus!
