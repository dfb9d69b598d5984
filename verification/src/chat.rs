//! A chat with a connected peer: its history, the line being typed, and what is
//! sent and received.

use crate::crypto::{self, CryptoError, SessionReceiver, SessionSender};
use crate::primitives;
use crate::protocol;
use crate::text;
use vstd::prelude::*;
use vstd::utf8::{decode_utf8, encode_utf8, encode_utf8_decode_utf8, encode_utf8_valid_utf8, valid_utf8};

verus! {

/// What comes in from the peer.
pub enum ChatEvent {
    Message(String),
    Disconnected,
    Error(String),
}

/// A line in the chat history.
pub enum ChatLine {
    Me(String),
    Peer(String),
    System(String),
}

/// A chat event, as a value.
pub enum Incoming {
    Message(Seq<char>),
    Disconnected,
    Error(Seq<char>),
}

/// A line in the chat history, as a value.
pub enum Line {
    Me(Seq<char>),
    Peer(Seq<char>),
    System(Seq<char>),
}

impl View for ChatEvent {
    type V = Incoming;

    open spec fn view(&self) -> Incoming {
        match self {
            ChatEvent::Message(text) => Incoming::Message(text@),
            ChatEvent::Disconnected => Incoming::Disconnected,
            ChatEvent::Error(text) => Incoming::Error(text@),
        }
    }
}

impl View for ChatLine {
    type V = Line;

    open spec fn view(&self) -> Line {
        match self {
            ChatLine::Me(text) => Line::Me(text@),
            ChatLine::Peer(text) => Line::Peer(text@),
            ChatLine::System(text) => Line::System(text@),
        }
    }
}

/// The characters that `String::from_utf8_lossy` makes of some bytes.
pub uninterp spec fn utf8_lossy(bytes: Seq<u8>) -> Seq<char>;

/// The text that bytes are read as: what they are the UTF-8 encoding of, or
/// else a replacement for it.
pub open spec fn text_in(bytes: Seq<u8>) -> Seq<char> {
    if valid_utf8(bytes) {
        decode_utf8(bytes)
    } else {
        utf8_lossy(bytes)
    }
}

/// `String::from_utf8_lossy`. The result is named; UTF-8 is decoded.
#[verifier::external_body]
fn from_utf8_lossy(bytes: &[u8]) -> (res: String)
    ensures
        res@ == utf8_lossy(bytes@),
        valid_utf8(bytes@) ==> res@ == decode_utf8(bytes@),
{
    String::from_utf8_lossy(bytes).into_owned()
}

impl ChatEvent {
    /// Whether nothing more comes in after this event.
    pub open spec fn is_final(self) -> bool {
        !(self is Message)
    }

    /// Whether nothing more comes in after this event.
    pub fn ends_session(&self) -> (res: bool)
        ensures
            res == self.is_final(),
    {
        match self {
            ChatEvent::Message(_) => false,
            _ => true,
        }
    }
}

/// What comes of decrypting a frame: the text that the bytes spell, or an error
/// that ends the chat.
pub open spec fn event_of(decrypted: Result<Seq<u8>, CryptoError>) -> Incoming {
    match decrypted {
        Ok(plaintext) => Incoming::Message(text_in(plaintext)),
        Err(e) => Incoming::Error("decrypt failed: "@ + e.text()),
    }
}

/// Decrypts a frame that came in.
pub fn receive_frame(receiver: &mut SessionReceiver, frame: &[u8]) -> (res: ChatEvent)
    requires
        old(receiver).counter() < u64::MAX ==> primitives::seal_answers(
            frame@.len() - primitives::TAG_LEN,
        ),
    ensures
        crypto::decrypts(*old(receiver), *final(receiver), frame@, crypto::opened(
            *old(receiver),
            frame@,
        )),
        res@ == event_of(crypto::opened(*old(receiver), frame@)),
{
    match receiver.decrypt(frame) {
        Ok(plain) => ChatEvent::Message(from_utf8_lossy(plain.as_slice())),
        Err(e) => {
            let message = e.message();
            ChatEvent::Error(text::join("decrypt failed: ", message.as_str()))
        },
    }
}

/// How reading from the peer failed.
#[derive(Clone, Copy, Debug, PartialEq, Eq, Structural)]
pub enum ReadFailure {
    /// The peer's bytes ended.
    UnexpectedEof,
    /// The peer reset the connection.
    ConnectionReset,
    /// Anything else.
    Other,
}

/// What comes of a failure to read a frame: the peer has gone, or an error.
pub fn read_failure(kind: ReadFailure, message: &str) -> (res: ChatEvent)
    ensures
        res@ == (match kind {
            ReadFailure::Other => Incoming::Error("connection error: "@ + message@),
            _ => Incoming::Disconnected,
        }),
{
    match kind {
        ReadFailure::UnexpectedEof => ChatEvent::Disconnected,
        ReadFailure::ConnectionReset => ChatEvent::Disconnected,
        ReadFailure::Other => ChatEvent::Error(text::join("connection error: ", message)),
    }
}

/// A message on its way out: the frame to send, and the text that it carries.
pub struct Outgoing {
    pub frame: Vec<u8>,
    pub text: String,
}

/// An active chat with a connected peer.
pub struct ChatSession {
    pub sender: SessionSender,
    pub history: Vec<ChatLine>,
    pub input: String,
    /// Lines scrolled up from the bottom; zero is pinned to the latest message.
    pub scroll: usize,
    pub peer_short_fp: String,
    pub ended: bool,
}

/// A chat, as a value.
pub struct Chat {
    pub sender: SessionSender,
    pub history: Seq<Line>,
    pub input: Seq<char>,
    pub scroll: usize,
    pub peer_short_fp: Seq<char>,
    pub ended: bool,
}

/// A history, as a value.
pub open spec fn lines_of(history: Seq<ChatLine>) -> Seq<Line> {
    Seq::new(history.len(), |i: int| history[i]@)
}

impl View for ChatSession {
    type V = Chat;

    open spec fn view(&self) -> Chat {
        Chat {
            sender: self.sender,
            history: lines_of(self.history@),
            input: self.input@,
            scroll: self.scroll,
            peer_short_fp: self.peer_short_fp@,
            ended: self.ended,
        }
    }
}

/// A chat that has just begun.
pub open spec fn new_chat(sender: SessionSender, peer_short_fp: Seq<char>) -> Chat {
    Chat {
        sender,
        history: Seq::empty(),
        input: Seq::empty(),
        scroll: 0,
        peer_short_fp,
        ended: false,
    }
}

/// A chat with one more line in its history.
pub open spec fn with_line(chat: Chat, line: Line) -> Chat {
    Chat { history: chat.history.push(line), ..chat }
}

/// What an event makes of a chat: a line in the history, and the end of the
/// chat unless it is a message.
pub open spec fn with_event(chat: Chat, event: Incoming) -> Chat {
    match event {
        Incoming::Message(text) => with_line(chat, Line::Peer(text)),
        Incoming::Disconnected => Chat {
            ended: true,
            ..with_line(chat, Line::System("[peer disconnected]"@))
        },
        Incoming::Error(e) => Chat {
            ended: true,
            ..with_line(chat, Line::System("error: "@ + e))
        },
    }
}

/// What events, one after the other, make of a chat.
pub open spec fn with_events(chat: Chat, events: Seq<ChatEvent>) -> Chat
    decreases events.len(),
{
    if events.len() == 0 {
        chat
    } else {
        with_event(with_events(chat, events.drop_last()), events.last()@)
    }
}

/// The text that is to be sent: the input without the white space at its end,
/// if anything is left of it.
pub open spec fn to_send(chat: Chat) -> Option<Seq<char>> {
    let text = text::trimmed_end(chat.input);
    if text.len() == 0 {
        None
    } else {
        Some(text)
    }
}

/// A chat after its input was encrypted: only the sending half has moved on,
/// and only if there was something to send.
pub open spec fn after_send(chat: Chat) -> Chat {
    match to_send(chat) {
        None => chat,
        Some(_) => Chat { sender: chat.sender.advanced(), ..chat },
    }
}

/// A chat after a message was sent: the message stands in the history and the
/// input is cleared.
pub open spec fn after_sent(chat: Chat, text: Seq<char>) -> Chat {
    Chat { input: Seq::empty(), ..with_line(chat, Line::Me(text)) }
}

impl ChatSession {
    /// Begins a chat.
    pub fn new(sender: SessionSender, peer_short_fp: String) -> (res: Self)
        ensures
            res@ == new_chat(sender, peer_short_fp@),
    {
        let res = ChatSession {
            sender,
            history: Vec::new(),
            input: String::new(),
            scroll: 0,
            peer_short_fp,
            ended: false,
        };
        assert(res@.history =~= Seq::<Line>::empty());
        res
    }

    /// Adds a line to the history.
    fn push_line(&mut self, line: ChatLine)
        ensures
            final(self)@ == with_line(old(self)@, line@),
    {
        self.history.push(line);
        assert(self@.history =~= old(self)@.history.push(line@));
    }

    /// Adds a system line to the history.
    pub fn push_system(&mut self, text: String)
        ensures
            final(self)@ == with_line(old(self)@, Line::System(text@)),
    {
        self.push_line(ChatLine::System(text));
    }

    /// Encrypts the current input, to be sent. White space at its end is
    /// dropped, and where nothing is left there is nothing to send. The input
    /// stays until the frame is sent.
    pub fn send(&mut self) -> (res: Result<Option<Outgoing>, CryptoError>)
        requires
            old(self).sender.counter() < u64::MAX ==> primitives::seal_answers(
                encode_utf8(text::trimmed_end(old(self).input@)).len() as int,
            ),
        ensures
            final(self)@ == after_send(old(self)@),
            match to_send(old(self)@) {
                None => res == Ok::<Option<Outgoing>, CryptoError>(None),
                Some(text) => {
                    let encrypted = crypto::sealed(old(self).sender, encode_utf8(text));
                    &&& crypto::encrypts(
                        old(self).sender,
                        final(self).sender,
                        encode_utf8(text),
                        encrypted,
                    )
                    &&& match res {
                        Ok(Some(out)) => out.text@ == text && (encrypted matches Ok(ciphertext)
                            && out.frame@ == protocol::frame(ciphertext)),
                        Ok(None) => false,
                        Err(e) => encrypted == Err::<Seq<u8>, CryptoError>(e),
                    }
                },
            },
    {
        let text = text::trim_end(self.input.as_str());
        if text.as_str().is_empty() {
            return Ok(None);
        }
        let ciphertext = match self.sender.encrypt(text.as_str().as_bytes()) {
            Ok(ciphertext) => ciphertext,
            Err(e) => return Err(e),
        };
        let mut frame: Vec<u8> = Vec::new();
        protocol::write_frame(&mut frame, ciphertext.as_slice());
        assert(frame@ =~= protocol::frame(ciphertext@));
        Ok(Some(Outgoing { frame, text }))
    }

    /// Takes note that a message has been sent: it goes in the history, and the
    /// input is cleared.
    pub fn sent(&mut self, text: String)
        ensures
            final(self)@ == after_sent(old(self)@, text@),
    {
        self.push_line(ChatLine::Me(text));
        self.input = String::new();
    }

    /// Takes in what has come from the peer.
    pub fn drain_events(&mut self, events: Vec<ChatEvent>)
        ensures
            final(self)@ == with_events(old(self)@, events@),
    {
        let ghost before = self@;
        let mut i: usize = 0;
        while i < events.len()
            invariant
                i <= events@.len(),
                self@ == with_events(before, events@.take(i as int)),
            decreases events@.len() - i,
        {
            assert(events@.take(i + 1).drop_last() =~= events@.take(i as int));
            match &events[i] {
                ChatEvent::Message(text) => self.push_line(ChatLine::Peer(text.clone())),
                ChatEvent::Disconnected => {
                    self.push_line(ChatLine::System("[peer disconnected]".to_string()));
                    self.ended = true;
                },
                ChatEvent::Error(e) => {
                    self.push_line(ChatLine::System(text::join("error: ", e.as_str())));
                    self.ended = true;
                },
            }
            i = i + 1;
        }
        assert(events@.take(events@.len() as int) =~= events@);
    }
}

/// The history only grows, at its end: events never change a line that stands.
pub proof fn history_only_grows(chat: Chat, events: Seq<ChatEvent>)
    ensures
        with_events(chat, events).history.len() == chat.history.len() + events.len(),
        with_events(chat, events).history.take(chat.history.len() as int) == chat.history,
        chat.ended ==> with_events(chat, events).ended,
    decreases events.len(),
{
    if events.len() > 0 {
        history_only_grows(chat, events.drop_last());
        let before = with_events(chat, events.drop_last()).history;
        let after = with_events(chat, events).history;
        let n = chat.history.len() as int;
        assert(after.take(n) =~= before.take(n));
    } else {
        assert(chat.history.take(chat.history.len() as int) =~= chat.history);
    }
}

/// A text that one side sends, short enough for a frame, is the text that the
/// other side reads: its frame is read back whole, and what it carries decrypts
/// to the same text.
pub proof fn text_arrives(
    sender: SessionSender,
    sender_after: SessionSender,
    receiver: SessionReceiver,
    receiver_after: SessionReceiver,
    text: Seq<char>,
    ciphertext: Seq<u8>,
    rest: Seq<u8>,
)
    requires
        crypto::in_step(sender, receiver),
        crypto::encrypts(sender, sender_after, encode_utf8(text), Ok(ciphertext)),
        crypto::decrypts(receiver, receiver_after, ciphertext, crypto::opened(receiver, ciphertext)),
        encode_utf8(text).len() + primitives::TAG_LEN <= crypto::MAX_MESSAGE_LEN,
    ensures
        protocol::parse_frame(protocol::frame(ciphertext) + rest) == (
            Ok::<Seq<u8>, protocol::FrameError>(ciphertext),
            rest,
        ),
        event_of(crypto::opened(receiver, ciphertext)) == Incoming::Message(text),
        crypto::in_step(sender_after, receiver_after),
{
    protocol::frame_reads_back(ciphertext, rest);
    encode_utf8_valid_utf8(text);
    encode_utf8_decode_utf8(text);
}

} // verus!
