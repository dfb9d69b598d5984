//! The screens of the application, the keys that are pressed on them, and what
//! they ask for.

use crate::chat::{Chat, ChatEvent, ChatSession, Outgoing};
use crate::crypto::{self, Identity, SessionReceiver, SessionSender};
use crate::state::{Trust, TrustDecision};
use crate::text;
use vstd::prelude::*;

verus! {

/// How many items the menu has.
pub const MENU_LEN: usize = 5;

/// A key of the keyboard.
#[derive(Clone, Copy, Debug, PartialEq, Eq, Structural)]
pub enum KeyCode {
    Esc,
    Enter,
    Tab,
    Backspace,
    Up,
    Down,
    PageUp,
    PageDown,
    Char(char),
    Other,
}

/// A key that was pressed or released.
#[derive(Clone, Copy, Debug, PartialEq, Eq, Structural)]
pub struct KeyEvent {
    pub code: KeyCode,
    /// Whether the control key was held.
    pub control: bool,
    /// Whether the key was let go.
    pub release: bool,
}

/// The field of the connect form that is being edited.
#[derive(Clone, Copy, Debug, PartialEq, Eq, Structural)]
pub enum ConnectFocus {
    Host,
    Port,
}

/// The field of the add-peer form that is being edited.
#[derive(Clone, Copy, Debug, PartialEq, Eq, Structural)]
pub enum AddPeerFocus {
    Address,
    Fingerprint,
}

/// The result of establishing a connection and completing the handshake.
pub struct Outcome {
    pub sender: SessionSender,
    pub receiver: SessionReceiver,
    pub peer_fingerprint: String,
    pub peer_id: String,
}

/// A handshake's result, as a value.
pub struct OutcomeView {
    pub sender: SessionSender,
    pub receiver: SessionReceiver,
    pub peer_fingerprint: Seq<char>,
    pub peer_id: Seq<char>,
}

impl View for Outcome {
    type V = OutcomeView;

    open spec fn view(&self) -> OutcomeView {
        OutcomeView {
            sender: self.sender,
            receiver: self.receiver,
            peer_fingerprint: self.peer_fingerprint@,
            peer_id: self.peer_id@,
        }
    }
}

impl OutcomeView {
    /// The fingerprint is 64 hexadecimal digits.
    pub open spec fn wf(self) -> bool {
        is_fingerprint(self.peer_fingerprint)
    }
}

/// The current screen.
#[allow(inconsistent_fields)]
pub enum Screen {
    Menu { selected: usize },
    Connect { host: String, port: String, focus: ConnectFocus, error: Option<String> },
    Connecting { status: String },
    Listen { port: String, listening: bool, status: Option<String>, error: Option<String> },
    Peers { peers: Vec<(String, String)>, selected: usize },
    AddPeer {
        address: String,
        fingerprint: String,
        focus: AddPeerFocus,
        error: Option<String>,
    },
    Notice { text: String },
    /// A stored fingerprint no longer matches the peer's live key. The user
    /// must either confirm the new key or abort.
    Mismatch {
        peer_id: String,
        expected_short: String,
        got_short: String,
        /// The handshake's result, kept so that the chat can begin.
        outcome: Option<Outcome>,
    },
    Chat(ChatSession),
}

/// A screen, as a value.
#[allow(inconsistent_fields)]
pub enum ScreenView {
    Menu { selected: usize },
    Connect { host: Seq<char>, port: Seq<char>, focus: ConnectFocus, error: Option<Seq<char>> },
    Connecting { status: Seq<char> },
    Listen {
        port: Seq<char>,
        listening: bool,
        status: Option<Seq<char>>,
        error: Option<Seq<char>>,
    },
    Peers { peers: Seq<(Seq<char>, Seq<char>)>, selected: usize },
    AddPeer {
        address: Seq<char>,
        fingerprint: Seq<char>,
        focus: AddPeerFocus,
        error: Option<Seq<char>>,
    },
    Notice { text: Seq<char> },
    Mismatch {
        peer_id: Seq<char>,
        expected_short: Seq<char>,
        got_short: Seq<char>,
        outcome: Option<OutcomeView>,
    },
    Chat(Chat),
}

/// An optional text, as a value.
pub open spec fn opt(text: Option<String>) -> Option<Seq<char>> {
    match text {
        Some(t) => Some(t@),
        None => None,
    }
}

/// Pairs of texts, as a value.
pub open spec fn pairs_of(pairs: Seq<(String, String)>) -> Seq<(Seq<char>, Seq<char>)> {
    Seq::new(pairs.len(), |i: int| (pairs[i].0@, pairs[i].1@))
}

impl View for Screen {
    type V = ScreenView;

    open spec fn view(&self) -> ScreenView {
        match self {
            Screen::Menu { selected } => ScreenView::Menu { selected: *selected },
            Screen::Connect { host, port, focus, error } => ScreenView::Connect {
                host: host@,
                port: port@,
                focus: *focus,
                error: opt(*error),
            },
            Screen::Connecting { status } => ScreenView::Connecting { status: status@ },
            Screen::Listen { port, listening, status, error } => ScreenView::Listen {
                port: port@,
                listening: *listening,
                status: opt(*status),
                error: opt(*error),
            },
            Screen::Peers { peers, selected } => ScreenView::Peers {
                peers: pairs_of(peers@),
                selected: *selected,
            },
            Screen::AddPeer { address, fingerprint, focus, error } => ScreenView::AddPeer {
                address: address@,
                fingerprint: fingerprint@,
                focus: *focus,
                error: opt(*error),
            },
            Screen::Notice { text } => ScreenView::Notice { text: text@ },
            Screen::Mismatch { peer_id, expected_short, got_short, outcome } => {
                ScreenView::Mismatch {
                    peer_id: peer_id@,
                    expected_short: expected_short@,
                    got_short: got_short@,
                    outcome: match outcome {
                        Some(o) => Some(o@),
                        None => None,
                    },
                }
            },
            Screen::Chat(session) => ScreenView::Chat(session@),
        }
    }
}

/// How far the opening of a chat with a connected peer has come.
pub enum Opening {
    /// No peer is waiting.
    Idle,
    /// The peer's fingerprint is being looked up.
    Checking(Outcome),
    /// The peer is new, and its fingerprint is being stored.
    PinningNew(Outcome),
    /// The user trusts the peer's new key, and it is being stored.
    Repinning(Outcome),
    /// The peer is trusted, and the chat is about to begin.
    Starting { outcome: Outcome, first_contact: bool },
}

/// How far the opening of a chat has come, as a value.
pub enum OpeningView {
    Idle,
    Checking(OutcomeView),
    PinningNew(OutcomeView),
    Repinning(OutcomeView),
    Starting { outcome: OutcomeView, first_contact: bool },
}

impl View for Opening {
    type V = OpeningView;

    open spec fn view(&self) -> OpeningView {
        match self {
            Opening::Idle => OpeningView::Idle,
            Opening::Checking(o) => OpeningView::Checking(o@),
            Opening::PinningNew(o) => OpeningView::PinningNew(o@),
            Opening::Repinning(o) => OpeningView::Repinning(o@),
            Opening::Starting { outcome, first_contact } => OpeningView::Starting {
                outcome: outcome@,
                first_contact: *first_contact,
            },
        }
    }
}

/// What the application asks its caller to do.
pub enum Request {
    /// Nothing.
    Nothing,
    /// Connect to this host and port, and perform the handshake.
    Connect { host: String, port: u16 },
    /// Listen on this port.
    Bind { port: u16 },
    /// Read the list of trusted peers.
    LoadPeers,
    /// Store a peer that the user added.
    AddPeer { address: String, fingerprint: String },
    /// Remove a trusted peer.
    RemovePeer { address: String },
    /// Generate a keypair and store it.
    GenerateKeypair,
    /// Look up a connected peer's fingerprint.
    CheckPeer { peer_id: String, fingerprint: String },
    /// Store a connected peer's fingerprint.
    PinPeer { peer_id: String, fingerprint: String },
    /// Make the connection ready for a chat.
    StartChat,
    /// Receive messages from now on.
    Receive { receiver: SessionReceiver },
    /// Send this message.
    Send { out: Outgoing },
    /// Shut the connection down.
    CloseChat,
}

/// What the application asks for, as a value.
pub enum RequestView {
    Nothing,
    Connect { host: Seq<char>, port: u16 },
    Bind { port: u16 },
    LoadPeers,
    AddPeer { address: Seq<char>, fingerprint: Seq<char> },
    RemovePeer { address: Seq<char> },
    GenerateKeypair,
    CheckPeer { peer_id: Seq<char>, fingerprint: Seq<char> },
    PinPeer { peer_id: Seq<char>, fingerprint: Seq<char> },
    StartChat,
    Receive { receiver: SessionReceiver },
    Send { frame: Seq<u8>, text: Seq<char> },
    CloseChat,
}

impl View for Request {
    type V = RequestView;

    open spec fn view(&self) -> RequestView {
        match self {
            Request::Nothing => RequestView::Nothing,
            Request::Connect { host, port } => RequestView::Connect { host: host@, port: *port },
            Request::Bind { port } => RequestView::Bind { port: *port },
            Request::LoadPeers => RequestView::LoadPeers,
            Request::AddPeer { address, fingerprint } => RequestView::AddPeer {
                address: address@,
                fingerprint: fingerprint@,
            },
            Request::RemovePeer { address } => RequestView::RemovePeer { address: address@ },
            Request::GenerateKeypair => RequestView::GenerateKeypair,
            Request::CheckPeer { peer_id, fingerprint } => RequestView::CheckPeer {
                peer_id: peer_id@,
                fingerprint: fingerprint@,
            },
            Request::PinPeer { peer_id, fingerprint } => RequestView::PinPeer {
                peer_id: peer_id@,
                fingerprint: fingerprint@,
            },
            Request::StartChat => RequestView::StartChat,
            Request::Receive { receiver } => RequestView::Receive { receiver: *receiver },
            Request::Send { out } => RequestView::Send { frame: out.frame@, text: out.text@ },
            Request::CloseChat => RequestView::CloseChat,
        }
    }
}

/// The application, as a value.
pub struct AppView {
    pub identity: Identity,
    pub my_fingerprint: Seq<char>,
    pub screen: ScreenView,
    pub should_quit: bool,
    pub opening: OpeningView,
}

/// Whether a text is a fingerprint: 64 hexadecimal digits, no capitals.
pub open spec fn is_fingerprint(text: Seq<char>) -> bool {
    text.len() == 64 && is_lower_hex(text)
}

/// Whether a text has nothing but hexadecimal digits in it, no capitals.
pub open spec fn is_lower_hex(text: Seq<char>) -> bool {
    forall|i: int| 0 <= i < text.len() ==> text::is_lower_hex_digit(text[i])
}

/// Whether a text has nothing but decimal digits in it.
pub open spec fn is_digits(text: Seq<char>) -> bool {
    forall|i: int| 0 <= i < text.len() ==> text::is_digit(text[i])
}

impl ScreenView {
    /// The selected item of a list is one of its items, or the first where there
    /// is none.
    pub open spec fn selection_in_range(self) -> bool {
        match self {
            ScreenView::Menu { selected } => selected < MENU_LEN,
            ScreenView::Peers { peers, selected } => selected == 0 || selected < peers.len(),
            _ => true,
        }
    }

    /// A port field has nothing but digits in it, and a fingerprint field
    /// nothing but hexadecimal digits, no capitals.
    pub open spec fn fields_are_clean(self) -> bool {
        match self {
            ScreenView::Connect { port, .. } => is_digits(port),
            ScreenView::Listen { port, .. } => is_digits(port),
            ScreenView::AddPeer { fingerprint, .. } => is_lower_hex(fingerprint),
            _ => true,
        }
    }

    /// What holds of every screen: a selection is in range, fields hold what
    /// they are for, and the peer that a warning is about has a fingerprint.
    pub open spec fn wf(self) -> bool {
        &&& self.selection_in_range()
        &&& self.fields_are_clean()
        &&& match self {
            ScreenView::Mismatch { outcome: Some(o), .. } => o.wf(),
            _ => true,
        }
    }
}

impl OpeningView {
    /// The peer that waits has a fingerprint.
    pub open spec fn wf(self) -> bool {
        match self {
            OpeningView::Idle => true,
            OpeningView::Checking(o) => o.wf(),
            OpeningView::PinningNew(o) => o.wf(),
            OpeningView::Repinning(o) => o.wf(),
            OpeningView::Starting { outcome, .. } => outcome.wf(),
        }
    }
}

impl AppView {
    /// What holds of the application at all times: its fingerprint is that of
    /// its identity, and its screen is as it should be.
    pub open spec fn wf(self) -> bool {
        &&& self.identity.wf()
        &&& self.my_fingerprint == crypto::fingerprint_of(
            self.identity.public@,
            self.identity.signing.verifying@,
        )
        &&& self.screen.wf()
        &&& self.opening.wf()
    }
}

/// A failure in words, or nothing.
pub type Answer = Result<(), String>;

/// An answer, as a value.
pub open spec fn answer_of(answer: Answer) -> Result<(), Seq<char>> {
    match answer {
        Ok(()) => Ok(()),
        Err(e) => Err(e@),
    }
}

/// What is found when the connections are looked at.
pub enum Polled {
    /// Nothing has happened.
    Nothing,
    /// The connection that was being made stands, or failed.
    Connected(Result<Outcome, String>),
    /// A peer has connected, and the handshake succeeded or failed.
    Accepted(Result<Outcome, String>),
    /// No peer can connect any more.
    AcceptFailed(String),
    /// This has come in from the peer of the chat.
    ChatEvents(Vec<ChatEvent>),
}

/// Everything that can happen to the application.
pub enum Event {
    /// Nothing.
    Nothing,
    /// A key was pressed or released.
    Key(KeyEvent),
    /// A port was bound for listening, or not.
    Bound { port: u16, answer: Result<(), Seq<char>> },
    /// The list of trusted peers was read.
    PeersLoaded(Seq<(Seq<char>, Seq<char>)>),
    /// A peer that the user added was stored, or not.
    PeerAdded(Result<(), Seq<char>>),
    /// A peer was removed, or not.
    PeerRemoved(Result<(), Seq<char>>),
    /// A keypair was generated and stored, or not.
    KeypairGenerated(Result<Identity, Seq<char>>),
    /// The connection that was being made stands, or failed.
    Connected(Result<OutcomeView, Seq<char>>),
    /// A peer has connected, and the handshake succeeded or failed.
    Accepted(Result<OutcomeView, Seq<char>>),
    /// No peer can connect any more.
    AcceptFailed(Seq<char>),
    /// This has come in from the peer of the chat.
    ChatEvents(Seq<ChatEvent>),
    /// A connected peer's fingerprint was looked up, or not.
    PeerChecked(Result<Trust, Seq<char>>),
    /// A connected peer's fingerprint was stored, or not.
    PeerPinned(Result<(), Seq<char>>),
    /// The connection is ready for a chat, or not.
    ChatStarted(Result<(), Seq<char>>),
    /// A message was sent, or not.
    Sent { text: Seq<char>, answer: Result<(), Seq<char>> },
}

/// A handshake's result or failure, as a value.
pub open spec fn outcome_of(res: Result<Outcome, String>) -> Result<OutcomeView, Seq<char>> {
    match res {
        Ok(outcome) => Ok(outcome@),
        Err(e) => Err(e@),
    }
}

impl View for Polled {
    type V = Event;

    open spec fn view(&self) -> Event {
        match self {
            Polled::Nothing => Event::Nothing,
            Polled::Connected(res) => Event::Connected(outcome_of(*res)),
            Polled::Accepted(res) => Event::Accepted(outcome_of(*res)),
            Polled::AcceptFailed(e) => Event::AcceptFailed(e@),
            Polled::ChatEvents(events) => Event::ChatEvents(events@),
        }
    }
}

impl Event {
    /// What holds of every event: an identity is derived from its secret, and a
    /// peer that has connected has a fingerprint.
    pub open spec fn wf(self) -> bool {
        match self {
            Event::KeypairGenerated(Ok(identity)) => identity.wf(),
            Event::Connected(Ok(outcome)) => outcome.wf(),
            Event::Accepted(Ok(outcome)) => outcome.wf(),
            _ => true,
        }
    }
}

/// The trust in a peer or a failure to find it, as a value.
pub open spec fn trust_of(res: Result<TrustDecision, String>) -> Result<Trust, Seq<char>> {
    match res {
        Ok(decision) => Ok(decision@),
        Err(e) => Err(e@),
    }
}

} // verus!
