//! The application: what each key and each answer from outside does.
//!
//! What needs the network, the disk or the terminal is asked for in a
//! [`Request`]; the caller carries it out and hands the answer back.

use crate::chat::ChatSession;
use crate::crypto::{self, Identity, PeerKeys, SessionReceiver, SessionSender};
use crate::primitives;
use crate::screens::{
    self, AddPeerFocus, Answer, AppView, ConnectFocus, Event, KeyCode, KeyEvent, Opening,
    OpeningView, Outcome, OutcomeView, Polled, Request, Screen, ScreenView, MENU_LEN,
};
use crate::state::TrustDecision;
use crate::text;
use crate::transitions;
use vstd::prelude::*;
use vstd::utf8::{encode_utf8, is_char_boundary};

verus! {

/// The application.
pub struct App {
    pub identity: Identity,
    pub my_fingerprint: String,
    pub screen: Screen,
    pub should_quit: bool,
    pub opening: Opening,
}

impl View for App {
    type V = AppView;

    open spec fn view(&self) -> AppView {
        AppView {
            identity: self.identity,
            my_fingerprint: self.my_fingerprint@,
            screen: self.screen@,
            should_quit: self.should_quit,
            opening: self.opening@,
        }
    }
}

/// Whether what is shown of a fingerprint ends between two characters.
pub open spec fn can_shorten(fingerprint: Seq<char>) -> bool {
    let bytes = encode_utf8(fingerprint);
    bytes.len() < 16 || is_char_boundary(bytes, 16)
}

/// Shows the start of a fingerprint.
pub fn short_fp(fp: &str) -> (res: String)
    requires
        can_shorten(fp@),
    ensures
        res@ == transitions::short(fp@),
{
    if fp.as_bytes().len() < 16 {
        proof {
            vstd::utf8::encode_utf8_decode_utf8(fp@);
        }
        text::join("fp:", fp)
    } else {
        let (shown, rest) = fp.split_at(16);
        proof {
            vstd::utf8::encode_utf8_decode_utf8(shown@);
            assert(encode_utf8(shown@) =~= encode_utf8(fp@).take(16));
        }
        text::join("fp:", shown)
    }
}

/// A fingerprint is shown by its first sixteen digits.
pub proof fn short_fingerprint(fingerprint: Seq<char>)
    requires
        screens::is_fingerprint(fingerprint),
    ensures
        can_shorten(fingerprint),
        transitions::short(fingerprint) == "fp:"@ + fingerprint.take(16),
{
    let shown = fingerprint.take(16);
    assert(vstd::utf8::is_ascii_chars(fingerprint));
    vstd::utf8::is_ascii_chars_encode_utf8(fingerprint);
    vstd::utf8::is_ascii_chars_encode_utf8(shown);
    vstd::utf8::encode_utf8_decode_utf8(shown);
    assert(encode_utf8(fingerprint).take(16) =~= encode_utf8(shown));
    vstd::utf8::encode_utf8_valid_utf8(fingerprint);
    vstd::utf8::is_char_boundary_iff_not_is_continuation_byte(encode_utf8(fingerprint), 16);
}

/// The notice with this text.
fn notice(text: String) -> (res: Screen)
    ensures
        res@ == (ScreenView::Notice { text: text@ }),
{
    Screen::Notice { text }
}

/// The fingerprint that a text is meant to be, if it is one.
pub fn normalize_fingerprint(text: &str) -> (res: Option<String>)
    ensures
        match res {
            Some(fp) => transitions::meant_fingerprint(text@) == Some(fp@),
            None => transitions::meant_fingerprint(text@) is None,
        },
{
    let digits = text::trim(text);
    let chars = text::chars_of(digits.as_str());
    if chars.len() != 64 {
        return None;
    }
    let mut res: String = String::new();
    let mut i: usize = 0;
    while i < 64
        invariant
            i <= 64,
            chars@.len() == 64,
            chars@ == text::trimmed(text@),
            forall|j: int| 0 <= j < i ==> text::is_hex_digit(chars@[j]),
            res@ == Seq::new(i as nat, |j: int| text::lowered(chars@[j])),
        decreases 64 - i,
    {
        if !text::hexadecimal(chars[i]) {
            return None;
        }
        res.push(text::lower(chars[i]));
        assert(res@ =~= Seq::new((i + 1) as nat, |j: int| text::lowered(chars@[j])));
        i = i + 1;
    }
    Some(res)
}

/// What is shown of an address, and what a peer that one connects to is known
/// by.
pub fn peer_address(host: &str, port: u16) -> (res: String)
    ensures
        res@ == transitions::address_of(host@, port),
{
    let digits = text::decimal_text(port as u64);
    let start = text::join(host, ":");
    text::join(start.as_str(), digits.as_str())
}

/// Puts together what a completed handshake gives.
pub fn outcome_from_handshake(
    sender: SessionSender,
    receiver: SessionReceiver,
    peer: &PeerKeys,
    peer_id: String,
) -> (res: Outcome)
    ensures
        res@ == (OutcomeView {
            sender,
            receiver,
            peer_fingerprint: crypto::fingerprint_of(
                peer.static_public@,
                peer.signing_public@,
            ),
            peer_id: peer_id@,
        }),
        res@.wf(),
{
    let peer_fingerprint = crypto::fingerprint(&peer.static_public, &peer.signing_public);
    Outcome { sender, receiver, peer_fingerprint, peer_id }
}

impl App {
    /// The application with an identity, on its menu.
    pub fn new(identity: Identity) -> (res: Self)
        ensures
            res@ == (AppView {
                identity,
                my_fingerprint: crypto::fingerprint_of(
                    identity.public@,
                    identity.signing.verifying@,
                ),
                screen: transitions::menu(),
                should_quit: false,
                opening: OpeningView::Idle,
            }),
            identity.wf() ==> res@.wf(),
    {
        let my_fingerprint = crypto::fingerprint(
            &identity.public,
            &identity.signing.verifying_key(),
        );
        App {
            identity,
            my_fingerprint,
            screen: Screen::Menu { selected: 0 },
            should_quit: false,
            opening: Opening::Idle,
        }
    }

    /// Chooses a menu item.
    fn menu_action(&mut self, selected: usize, item: usize) -> (res: Request)
        ensures
            (final(self)@, res@) == transitions::menu_choice(old(self)@, selected, item as int),
    {
        self.screen = Screen::Menu { selected };
        match item {
            0 => {
                self.screen = Screen::Connect {
                    host: String::new(),
                    port: String::new(),
                    focus: ConnectFocus::Host,
                    error: None,
                };
                Request::Nothing
            },
            1 => {
                self.screen = Screen::Listen {
                    port: String::new(),
                    listening: false,
                    status: None,
                    error: None,
                };
                Request::Nothing
            },
            2 => Request::LoadPeers,
            3 => Request::GenerateKeypair,
            4 => {
                self.should_quit = true;
                Request::Nothing
            },
            _ => Request::Nothing,
        }
    }

    /// Takes a key on the menu.
    fn menu_key(&mut self, selected: usize, code: KeyCode) -> (res: Request)
        requires
            code == KeyCode::Down ==> selected < usize::MAX,
        ensures
            (final(self)@, res@) == transitions::menu_key(old(self)@, selected, code),
    {
        self.screen = Screen::Menu { selected };
        match code {
            KeyCode::Esc => {
                self.should_quit = true;
                Request::Nothing
            },
            KeyCode::Up => {
                self.screen = Screen::Menu { selected: selected.saturating_sub(1) };
                Request::Nothing
            },
            KeyCode::Down => {
                let next: usize = if selected + 1 < MENU_LEN {
                    selected + 1
                } else {
                    MENU_LEN - 1
                };
                self.screen = Screen::Menu { selected: next };
                Request::Nothing
            },
            KeyCode::Enter => self.menu_action(selected, selected),
            KeyCode::Char(c) => if c == 'q' {
                self.should_quit = true;
                Request::Nothing
            } else if '1' <= c && c <= '5' {
                self.menu_action(selected, (c as u32 - 49) as usize)
            } else {
                Request::Nothing
            },
            _ => Request::Nothing,
        }
    }

    /// Takes a key on the connect form.
    fn connect_key(
        &mut self,
        host: String,
        port: String,
        focus: ConnectFocus,
        error: Option<String>,
        code: KeyCode,
    ) -> (res: Request)
        ensures
            (final(self)@, res@) == transitions::connect_key(
                old(self)@,
                host@,
                port@,
                focus,
                screens::opt(error),
                code,
            ),
    {
        let mut host = host;
        let mut port = port;
        match code {
            KeyCode::Esc => {
                self.screen = Screen::Menu { selected: 0 };
                Request::Nothing
            },
            KeyCode::Tab | KeyCode::Down | KeyCode::Up => {
                let focus = match focus {
                    ConnectFocus::Host => ConnectFocus::Port,
                    ConnectFocus::Port => ConnectFocus::Host,
                };
                self.screen = Screen::Connect { host, port, focus, error };
                Request::Nothing
            },
            KeyCode::Enter => {
                if focus == ConnectFocus::Host {
                    self.screen = Screen::Connect { host, port, focus: ConnectFocus::Port, error };
                    return Request::Nothing;
                }
                match text::parse_port(port.as_str()) {
                    Some(p) if !host.as_str().is_empty() => {
                        let address = peer_address(host.as_str(), p);
                        let start = text::join("connecting to ", address.as_str());
                        let status = text::join(start.as_str(), "...");
                        self.screen = Screen::Connecting { status };
                        Request::Connect { host, port: p }
                    },
                    _ => {
                        let error = Some("enter a valid host and port (1-65535)".to_string());
                        self.screen = Screen::Connect { host, port, focus, error };
                        Request::Nothing
                    },
                }
            },
            KeyCode::Backspace => {
                match focus {
                    ConnectFocus::Host => {
                        let _ = host.pop();
                    },
                    ConnectFocus::Port => {
                        let _ = port.pop();
                    },
                }
                self.screen = Screen::Connect { host, port, focus, error: None };
                Request::Nothing
            },
            KeyCode::Char(c) => {
                match focus {
                    ConnectFocus::Host => host.push(c),
                    ConnectFocus::Port => if text::digit(c) {
                        port.push(c);
                    },
                }
                self.screen = Screen::Connect { host, port, focus, error: None };
                Request::Nothing
            },
            _ => {
                self.screen = Screen::Connect { host, port, focus, error };
                Request::Nothing
            },
        }
    }

    /// Takes a key on the listen form.
    fn listen_key(
        &mut self,
        port: String,
        listening: bool,
        status: Option<String>,
        error: Option<String>,
        code: KeyCode,
    ) -> (res: Request)
        ensures
            (final(self)@, res@) == transitions::listen_key(
                old(self)@,
                port@,
                listening,
                screens::opt(status),
                screens::opt(error),
                code,
            ),
    {
        let mut port = port;
        match code {
            KeyCode::Esc => {
                self.screen = Screen::Menu { selected: 0 };
                Request::Nothing
            },
            KeyCode::Enter if !listening => match text::parse_port(port.as_str()) {
                Some(p) => {
                    self.screen = Screen::Listen { port, listening, status, error };
                    Request::Bind { port: p }
                },
                None => {
                    let error = Some("enter a valid port (1-65535)".to_string());
                    self.screen = Screen::Listen { port, listening, status, error };
                    Request::Nothing
                },
            },
            KeyCode::Backspace if !listening => {
                let _ = port.pop();
                self.screen = Screen::Listen { port, listening, status, error: None };
                Request::Nothing
            },
            KeyCode::Char(c) if !listening => {
                if text::digit(c) {
                    port.push(c);
                }
                self.screen = Screen::Listen { port, listening, status, error: None };
                Request::Nothing
            },
            _ => {
                self.screen = Screen::Listen { port, listening, status, error };
                Request::Nothing
            },
        }
    }

    /// Takes a key on the list of peers.
    fn peers_key(&mut self, peers: Vec<(String, String)>, selected: usize, code: KeyCode) -> (res:
        Request)
        ensures
            (final(self)@, res@) == transitions::peers_key(
                old(self)@,
                screens::pairs_of(peers@),
                selected,
                code,
            ),
    {
        match code {
            KeyCode::Esc => {
                self.screen = Screen::Menu { selected: 0 };
                Request::Nothing
            },
            KeyCode::Up => {
                self.screen = Screen::Peers { peers, selected: selected.saturating_sub(1) };
                Request::Nothing
            },
            KeyCode::Down => {
                let len: usize = peers.len();
                let selected: usize = if len == 0 {
                    selected
                } else if selected < len - 1 {
                    selected + 1
                } else {
                    len - 1
                };
                self.screen = Screen::Peers { peers, selected };
                Request::Nothing
            },
            KeyCode::Char('r') | KeyCode::Char('d') => {
                let request = if selected < peers.len() {
                    Request::RemovePeer { address: peers[selected].0.clone() }
                } else {
                    Request::Nothing
                };
                self.screen = Screen::Peers { peers, selected };
                request
            },
            KeyCode::Char('a') => {
                self.screen = Screen::AddPeer {
                    address: String::new(),
                    fingerprint: String::new(),
                    focus: AddPeerFocus::Address,
                    error: None,
                };
                Request::Nothing
            },
            _ => {
                self.screen = Screen::Peers { peers, selected };
                Request::Nothing
            },
        }
    }

    /// Takes a key on the add-peer form.
    fn add_peer_key(
        &mut self,
        address: String,
        fingerprint: String,
        focus: AddPeerFocus,
        error: Option<String>,
        code: KeyCode,
    ) -> (res: Request)
        ensures
            (final(self)@, res@) == transitions::add_peer_key(
                old(self)@,
                address@,
                fingerprint@,
                focus,
                screens::opt(error),
                code,
            ),
    {
        let mut address = address;
        let mut fingerprint = fingerprint;
        match code {
            KeyCode::Esc => {
                self.screen = Screen::AddPeer { address, fingerprint, focus, error };
                Request::LoadPeers
            },
            KeyCode::Tab | KeyCode::Down | KeyCode::Up => {
                let focus = match focus {
                    AddPeerFocus::Address => AddPeerFocus::Fingerprint,
                    AddPeerFocus::Fingerprint => AddPeerFocus::Address,
                };
                self.screen = Screen::AddPeer { address, fingerprint, focus, error };
                Request::Nothing
            },
            KeyCode::Enter => {
                if focus == AddPeerFocus::Address {
                    let focus = AddPeerFocus::Fingerprint;
                    self.screen = Screen::AddPeer { address, fingerprint, focus, error };
                    return Request::Nothing;
                }
                if address.as_str().is_empty() {
                    let error = Some("enter the peer's address (host:port)".to_string());
                    self.screen = Screen::AddPeer { address, fingerprint, focus, error };
                    return Request::Nothing;
                }
                match normalize_fingerprint(fingerprint.as_str()) {
                    Some(fp) => {
                        let request = Request::AddPeer { address: address.clone(), fingerprint: fp };
                        self.screen = Screen::AddPeer { address, fingerprint, focus, error };
                        request
                    },
                    None => {
                        let error = Some("fingerprint must be 64 hex characters".to_string());
                        self.screen = Screen::AddPeer { address, fingerprint, focus, error };
                        Request::Nothing
                    },
                }
            },
            KeyCode::Backspace => {
                match focus {
                    AddPeerFocus::Address => {
                        let _ = address.pop();
                    },
                    AddPeerFocus::Fingerprint => {
                        let _ = fingerprint.pop();
                    },
                }
                self.screen = Screen::AddPeer { address, fingerprint, focus, error: None };
                Request::Nothing
            },
            KeyCode::Char(c) => {
                match focus {
                    AddPeerFocus::Address => address.push(c),
                    AddPeerFocus::Fingerprint => if text::hexadecimal(c) {
                        fingerprint.push(text::lower(c));
                    },
                }
                self.screen = Screen::AddPeer { address, fingerprint, focus, error };
                Request::Nothing
            },
            _ => {
                self.screen = Screen::AddPeer { address, fingerprint, focus, error };
                Request::Nothing
            },
        }
    }

    /// Takes a key on the fingerprint warning.
    fn mismatch_key(
        &mut self,
        peer_id: String,
        expected_short: String,
        got_short: String,
        outcome: Option<Outcome>,
        code: KeyCode,
    ) -> (res: Request)
        ensures
            (final(self)@, res@) == transitions::mismatch_key(
                old(self)@,
                peer_id@,
                expected_short@,
                got_short@,
                match outcome {
                    Some(o) => Some(o@),
                    None => None,
                },
                code,
            ),
    {
        let trusts: bool = match code {
            KeyCode::Char(c) => c == 'u' || c == 'U',
            _ => false,
        };
        match outcome {
            Some(outcome) if trusts => {
                let request = Request::PinPeer {
                    peer_id: outcome.peer_id.clone(),
                    fingerprint: outcome.peer_fingerprint.clone(),
                };
                self.screen = Screen::Mismatch { peer_id, expected_short, got_short, outcome: None };
                self.opening = Opening::Repinning(outcome);
                request
            },
            _ => {
                self.screen = Screen::Menu { selected: 0 };
                Request::Nothing
            },
        }
    }

    /// Takes the enter key in a chat.
    fn chat_enter(&mut self, session: ChatSession) -> (res: Request)
        requires
            transitions::can_enter(session@),
        ensures
            (final(self)@, res@) == transitions::chat_enter(old(self)@, session@),
    {
        let mut session = session;
        let command = text::trim(session.input.as_str());
        if text::same(command.as_str(), "/quit") || text::same(command.as_str(), "/exit") {
            self.screen = Screen::Menu { selected: 0 };
            return Request::CloseChat;
        }
        match session.send() {
            Ok(None) => {
                self.screen = Screen::Chat(session);
                Request::Nothing
            },
            Ok(Some(out)) => {
                self.screen = Screen::Chat(session);
                Request::Send { out }
            },
            Err(e) => {
                let message = e.message();
                session.push_system(text::join("send failed: ", message.as_str()));
                self.screen = Screen::Chat(session);
                Request::Nothing
            },
        }
    }

    /// Takes a key in a chat.
    fn chat_key(&mut self, session: ChatSession, code: KeyCode) -> (res: Request)
        requires
            session.ended || code != KeyCode::Enter || transitions::can_enter(session@),
        ensures
            (final(self)@, res@) == transitions::chat_key(old(self)@, session@, code),
    {
        let mut session = session;
        if session.ended {
            return match code {
                KeyCode::Esc | KeyCode::Enter => {
                    self.screen = Screen::Menu { selected: 0 };
                    Request::CloseChat
                },
                _ => {
                    self.screen = Screen::Chat(session);
                    Request::Nothing
                },
            };
        }
        match code {
            KeyCode::Esc => {
                self.screen = Screen::Menu { selected: 0 };
                return Request::CloseChat;
            },
            KeyCode::Enter => return self.chat_enter(session),
            KeyCode::Backspace => {
                let _ = session.input.pop();
            },
            KeyCode::Char(c) => session.input.push(c),
            KeyCode::Up => session.scroll = session.scroll.saturating_add(1),
            KeyCode::Down => session.scroll = session.scroll.saturating_sub(1),
            KeyCode::PageUp => session.scroll = session.scroll.saturating_add(10),
            KeyCode::PageDown => session.scroll = session.scroll.saturating_sub(10),
            _ => {},
        }
        self.screen = Screen::Chat(session);
        Request::Nothing
    }

    /// Whether a key can be taken.
    pub fn can_take(&self, key: KeyEvent) -> (res: bool)
        ensures
            res == transitions::can_take(self@, key),
    {
        if key.release {
            return true;
        }
        match &self.screen {
            Screen::Menu { selected } => key.code != KeyCode::Down || *selected < usize::MAX,
            Screen::Peers { peers, selected } => key.code != KeyCode::Down || peers.len() == 0
                || *selected < usize::MAX,
            Screen::Chat(session) => {
                if session.ended || key.code != KeyCode::Enter {
                    return true;
                }
                let command = text::trim(session.input.as_str());
                let typed = text::trim_end(session.input.as_str());
                text::same(command.as_str(), "/quit") || text::same(command.as_str(), "/exit")
                    || session.sender.is_used_up() || primitives::can_seal(
                    typed.as_str().as_bytes().len(),
                )
            },
            _ => true,
        }
    }

    /// Takes a key.
    pub fn on_key(&mut self, key: KeyEvent) -> (res: Request)
        requires
            transitions::can_take(old(self)@, key),
        ensures
            (final(self)@, res@) == transitions::step(old(self)@, Event::Key(key)),
            old(self)@.screen.wf() ==> final(self)@.screen.wf(),
            old(self)@.wf() ==> final(self)@.wf(),
    {
        proof {
            if self@.screen.wf() {
                transitions::key_keeps_screen_wf(self@, key);
            }
            if self@.wf() {
                transitions::step_keeps_wf(self@, Event::Key(key));
            }
        }
        if key.release {
            return Request::Nothing;
        }
        if key.code == KeyCode::Char('c') && key.control {
            self.should_quit = true;
            return Request::Nothing;
        }
        let mut screen = Screen::Menu { selected: 0 };
        core::mem::swap(&mut screen, &mut self.screen);
        let code = key.code;
        match screen {
            Screen::Menu { selected } => self.menu_key(selected, code),
            Screen::Connect { host, port, focus, error } => self.connect_key(
                host,
                port,
                focus,
                error,
                code,
            ),
            Screen::Connecting { status } => {
                if code != KeyCode::Esc {
                    self.screen = Screen::Connecting { status };
                }
                Request::Nothing
            },
            Screen::Listen { port, listening, status, error } => self.listen_key(
                port,
                listening,
                status,
                error,
                code,
            ),
            Screen::Peers { peers, selected } => self.peers_key(peers, selected, code),
            Screen::AddPeer { address, fingerprint, focus, error } => self.add_peer_key(
                address,
                fingerprint,
                focus,
                error,
                code,
            ),
            Screen::Notice { text } => Request::Nothing,
            Screen::Mismatch { peer_id, expected_short, got_short, outcome } => self.mismatch_key(
                peer_id,
                expected_short,
                got_short,
                outcome,
                code,
            ),
            Screen::Chat(session) => self.chat_key(session, code),
        }
    }

    /// Takes note that a port was bound for listening, or not.
    pub fn on_bound(&mut self, port: u16, answer: Answer) -> (res: Request)
        ensures
            (final(self)@, res@) == transitions::step(
                old(self)@,
                Event::Bound { port, answer: screens::answer_of(answer) },
            ),
            old(self)@.wf() ==> final(self)@.wf(),
    {
        let mut screen = Screen::Menu { selected: 0 };
        core::mem::swap(&mut screen, &mut self.screen);
        self.screen = match screen {
            Screen::Listen { port: typed, listening: false, status, error } => match answer {
                Ok(()) => {
                    let digits = text::decimal_text(port as u64);
                    let start = text::join("listening on 0.0.0.0:", digits.as_str());
                    let status = text::join(
                        start.as_str(),
                        " \u{2014} waiting for a connection...",
                    );
                    Screen::Listen {
                        port: typed,
                        listening: true,
                        status: Some(status),
                        error: None,
                    }
                },
                Err(e) => Screen::Listen {
                    port: typed,
                    listening: false,
                    status,
                    error: Some(text::join("bind failed: ", e.as_str())),
                },
            },
            other => other,
        };
        Request::Nothing
    }

    /// Shows the trusted peers that were read.
    pub fn on_peers_loaded(&mut self, peers: Vec<(String, String)>) -> (res: Request)
        ensures
            (final(self)@, res@) == transitions::step(
                old(self)@,
                Event::PeersLoaded(screens::pairs_of(peers@)),
            ),
            old(self)@.wf() ==> final(self)@.wf(),
    {
        self.screen = Screen::Peers { peers, selected: 0 };
        Request::Nothing
    }

    /// Takes note that a peer that the user added was stored, or not.
    pub fn on_peer_added(&mut self, answer: Answer) -> (res: Request)
        ensures
            (final(self)@, res@) == transitions::step(
                old(self)@,
                Event::PeerAdded(screens::answer_of(answer)),
            ),
            old(self)@.wf() ==> final(self)@.wf(),
    {
        let mut screen = Screen::Menu { selected: 0 };
        core::mem::swap(&mut screen, &mut self.screen);
        match screen {
            Screen::AddPeer { address, fingerprint, focus, error } => match answer {
                Ok(()) => {
                    self.screen = Screen::AddPeer { address, fingerprint, focus, error };
                    Request::LoadPeers
                },
                Err(e) => {
                    let error = Some(text::join("failed to pin peer: ", e.as_str()));
                    self.screen = Screen::AddPeer { address, fingerprint, focus, error };
                    Request::Nothing
                },
            },
            other => {
                self.screen = other;
                Request::Nothing
            },
        }
    }

    /// Takes note that the selected peer was removed, or not.
    pub fn on_peer_removed(&mut self, answer: Answer) -> (res: Request)
        ensures
            (final(self)@, res@) == transitions::step(
                old(self)@,
                Event::PeerRemoved(screens::answer_of(answer)),
            ),
            old(self)@.wf() ==> final(self)@.wf(),
    {
        let mut screen = Screen::Menu { selected: 0 };
        core::mem::swap(&mut screen, &mut self.screen);
        match screen {
            Screen::Peers { peers, selected } => {
                if selected >= peers.len() {
                    self.screen = Screen::Peers { peers, selected };
                    return Request::Nothing;
                }
                match answer {
                    Ok(()) => {
                        let mut peers = peers;
                        let ghost before = peers@;
                        let _ = peers.remove(selected);
                        assert(screens::pairs_of(peers@) =~= screens::pairs_of(before).remove(
                            selected as int,
                        ));
                        let selected: usize = if selected < peers.len() {
                            selected
                        } else {
                            selected.saturating_sub(1)
                        };
                        self.screen = Screen::Peers { peers, selected };
                    },
                    Err(e) => {
                        self.screen = notice(text::join("failed to remove peer: ", e.as_str()));
                    },
                }
            },
            other => {
                self.screen = other;
            },
        }
        Request::Nothing
    }

    /// Takes the keypair that was generated in place of the old one.
    pub fn on_keypair(&mut self, generated: Result<Identity, String>) -> (res: Request)
        ensures
            (final(self)@, res@) == transitions::step(
                old(self)@,
                Event::KeypairGenerated(
                    match generated {
                        Ok(identity) => Ok(identity),
                        Err(e) => Err(e@),
                    },
                ),
            ),
            old(self)@.wf() && (generated matches Ok(identity) ==> identity.wf())
                ==> final(self)@.wf(),
    {
        match generated {
            Ok(identity) => {
                let fp = crypto::fingerprint(&identity.public, &identity.signing.verifying_key());
                self.screen = notice(
                    text::join("new keypair generated\nfingerprint: ", fp.as_str()),
                );
                self.my_fingerprint = fp;
                self.identity = identity;
            },
            Err(e) => {
                self.screen = notice(text::join("keygen failed: ", e.as_str()));
            },
        }
        Request::Nothing
    }

    /// Starts opening a chat.
    fn open(&mut self, outcome: Outcome) -> (res: Request)
        ensures
            (final(self)@, res@) == transitions::open(old(self)@, outcome@),
    {
        let request = Request::CheckPeer {
            peer_id: outcome.peer_id.clone(),
            fingerprint: outcome.peer_fingerprint.clone(),
        };
        self.opening = Opening::Checking(outcome);
        request
    }

    /// Takes in what was found when the connections were looked at.
    pub fn tick(&mut self, polled: Polled) -> (res: Request)
        ensures
            (final(self)@, res@) == transitions::step(old(self)@, polled@),
            old(self)@.wf() && polled@.wf() ==> final(self)@.wf(),
    {
        let mut screen = Screen::Menu { selected: 0 };
        core::mem::swap(&mut screen, &mut self.screen);
        match (screen, polled) {
            (Screen::Connecting { status }, Polled::Connected(res)) => match res {
                Ok(outcome) => {
                    self.screen = Screen::Connecting { status };
                    self.open(outcome)
                },
                Err(e) => {
                    self.screen = notice(text::join("connection failed: ", e.as_str()));
                    Request::Nothing
                },
            },
            (Screen::Listen { port, listening: true, status, error }, Polled::Accepted(res)) => {
                match res {
                    Ok(outcome) => {
                        self.screen = Screen::Listen { port, listening: true, status, error };
                        self.open(outcome)
                    },
                    Err(e) => {
                        self.screen = notice(text::join("handshake failed: ", e.as_str()));
                        Request::Nothing
                    },
                }
            },
            (Screen::Listen { listening: true, .. }, Polled::AcceptFailed(e)) => {
                self.screen = notice(text::join("listen failed: ", e.as_str()));
                Request::Nothing
            },
            (Screen::Chat(session), Polled::ChatEvents(events)) => {
                let mut session = session;
                session.drain_events(events);
                self.screen = Screen::Chat(session);
                Request::Nothing
            },
            (other, _) => {
                self.screen = other;
                Request::Nothing
            },
        }
    }

    /// Takes note of what is known of the peer that waits for a chat.
    pub fn on_peer_checked(&mut self, checked: Result<TrustDecision, String>) -> (res: Request)
        requires
            old(self)@.opening.wf(),
            checked matches Ok(TrustDecision::Mismatch { expected }) ==> can_shorten(expected@),
        ensures
            (final(self)@, res@) == transitions::step(
                old(self)@,
                Event::PeerChecked(screens::trust_of(checked)),
            ),
            old(self)@.wf() ==> final(self)@.wf(),
    {
        let mut opening = Opening::Idle;
        core::mem::swap(&mut opening, &mut self.opening);
        match opening {
            Opening::Checking(outcome) => match checked {
                Err(e) => {
                    self.screen = notice(text::join("failed to start chat: ", e.as_str()));
                    Request::Nothing
                },
                Ok(TrustDecision::New) => {
                    let request = Request::PinPeer {
                        peer_id: outcome.peer_id.clone(),
                        fingerprint: outcome.peer_fingerprint.clone(),
                    };
                    self.opening = Opening::PinningNew(outcome);
                    request
                },
                Ok(TrustDecision::Verified) => {
                    self.opening = Opening::Starting { outcome, first_contact: false };
                    Request::StartChat
                },
                Ok(TrustDecision::Mismatch { expected }) => {
                    proof {
                        short_fingerprint(outcome.peer_fingerprint@);
                    }
                    let expected_short = short_fp(expected.as_str());
                    let got_short = short_fp(outcome.peer_fingerprint.as_str());
                    self.screen = Screen::Mismatch {
                        peer_id: outcome.peer_id.clone(),
                        expected_short,
                        got_short,
                        outcome: Some(outcome),
                    };
                    Request::Nothing
                },
            },
            other => {
                self.opening = other;
                Request::Nothing
            },
        }
    }

    /// Takes note that the fingerprint of the peer that waits for a chat was
    /// stored, or not.
    pub fn on_peer_pinned(&mut self, answer: Answer) -> (res: Request)
        ensures
            (final(self)@, res@) == transitions::step(
                old(self)@,
                Event::PeerPinned(screens::answer_of(answer)),
            ),
            old(self)@.wf() ==> final(self)@.wf(),
    {
        let mut opening = Opening::Idle;
        core::mem::swap(&mut opening, &mut self.opening);
        match (opening, answer) {
            (Opening::PinningNew(outcome), Ok(())) => {
                self.opening = Opening::Starting { outcome, first_contact: true };
                Request::StartChat
            },
            (Opening::PinningNew(_), Err(e)) => {
                self.screen = notice(text::join("failed to start chat: ", e.as_str()));
                Request::Nothing
            },
            (Opening::Repinning(outcome), Ok(())) => self.open(outcome),
            (Opening::Repinning(_), Err(e)) => {
                self.screen = notice(text::join("failed to update peer: ", e.as_str()));
                Request::Nothing
            },
            (other, _) => {
                self.opening = other;
                Request::Nothing
            },
        }
    }

    /// Begins the chat with the peer that waits, once the connection is ready.
    pub fn on_chat_started(&mut self, answer: Answer) -> (res: Request)
        requires
            old(self)@.opening.wf(),
        ensures
            (final(self)@, res@) == transitions::step(
                old(self)@,
                Event::ChatStarted(screens::answer_of(answer)),
            ),
            old(self)@.wf() ==> final(self)@.wf(),
    {
        let mut opening = Opening::Idle;
        core::mem::swap(&mut opening, &mut self.opening);
        match (opening, answer) {
            (Opening::Starting { outcome, first_contact }, Ok(())) => {
                proof {
                    short_fingerprint(outcome.peer_fingerprint@);
                }
                let shown = short_fp(outcome.peer_fingerprint.as_str());
                let mut session = ChatSession::new(outcome.sender, shown.clone());
                if first_contact {
                    session.push_system(
                        text::join(
                            "new peer \u{2014} verify this fingerprint out-of-band: ",
                            shown.as_str(),
                        ),
                    );
                }
                self.screen = Screen::Chat(session);
                Request::Receive { receiver: outcome.receiver }
            },
            (Opening::Starting { .. }, Err(e)) => {
                self.screen = notice(text::join("failed to start chat: ", e.as_str()));
                Request::Nothing
            },
            (other, _) => {
                self.opening = other;
                Request::Nothing
            },
        }
    }

    /// Takes note that a message was sent, or not.
    pub fn on_sent(&mut self, text: String, answer: Answer) -> (res: Request)
        ensures
            (final(self)@, res@) == transitions::step(
                old(self)@,
                Event::Sent { text: text@, answer: screens::answer_of(answer) },
            ),
            old(self)@.wf() ==> final(self)@.wf(),
    {
        let mut screen = Screen::Menu { selected: 0 };
        core::mem::swap(&mut screen, &mut self.screen);
        match screen {
            Screen::Chat(session) => {
                let mut session = session;
                match answer {
                    Ok(()) => session.sent(text),
                    Err(e) => session.push_system(text::join("send failed: ", e.as_str())),
                }
                self.screen = Screen::Chat(session);
            },
            other => {
                self.screen = other;
            },
        }
        Request::Nothing
    }
}

} // verus!
