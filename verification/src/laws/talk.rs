//! What holds of a chat: what comes in is shown as it came, and what is sent is
//! what was typed.

use crate::chat::{self, Chat, ChatEvent, ChatLine, ChatSession, Incoming, Line};
use crate::crypto::{self, CryptoError, SessionReceiver, SessionSender};
use crate::protocol::{self, FrameError};
use crate::text;
use vstd::prelude::*;
use vstd::utf8::{
    decode_utf8, encode_utf8, encode_utf8_decode_utf8, encode_utf8_valid_utf8, valid_utf8,
};

verus! {

/// Whether a line of the history is the one that an event makes: the whole text
/// of a message, said by the peer, or a remark on the end of the session.
pub open spec fn is_line_of(line: Line, event: ChatEvent) -> bool {
    match event {
        ChatEvent::Message(text) => line == Line::Peer(text@),
        ChatEvent::Disconnected => line == Line::System("[peer disconnected]"@),
        ChatEvent::Error(e) => line == Line::System("error: "@ + e@),
    }
}

/// What comes in stands in the history as it was received: each event makes one
/// line, in the order of the events, a message with its whole text. The lines
/// that stood there stay. Nothing but the history changes, and that the session
/// has ended, which any event but a message brings about.
pub proof fn events_stand_in_the_history_as_received(chat: Chat, events: Seq<ChatEvent>)
    ensures
        ({
            let after = chat::with_events(chat, events);
            let n = chat.history.len();
            &&& after.history.len() == n + events.len()
            &&& forall|i: int| 0 <= i < n ==> #[trigger] after.history[i] == chat.history[i]
            &&& forall|i: int|
                0 <= i < events.len() ==> is_line_of(after.history[n + i], #[trigger] events[i])
            &&& after.ended <==> chat.ended || exists|i: int|
                0 <= i < events.len() && !(#[trigger] events[i] is Message)
            &&& after.sender == chat.sender
            &&& after.input == chat.input
            &&& after.scroll == chat.scroll
            &&& after.peer_short_fp == chat.peer_short_fp
        }),
    decreases events.len(),
{
    if events.len() > 0 {
        let earlier = events.drop_last();
        let last = events.last();
        events_stand_in_the_history_as_received(chat, earlier);
        let before = chat::with_events(chat, earlier);
        let after = chat::with_events(chat, events);
        let n = chat.history.len();
        let m = events.len() - 1;
        assert(events[m] == last);
        assert forall|i: int| 0 <= i < events.len() implies is_line_of(
            after.history[n + i],
            #[trigger] events[i],
        ) by {
            if i < m {
                assert(events[i] == earlier[i]);
                assert(after.history[n + i] == before.history[n + i]);
            }
        }
        if after.ended && !chat.ended {
            if !(last is Message) {
                assert(!(events[m] is Message));
            } else {
                let i = choose|i: int| 0 <= i < earlier.len() && !(#[trigger] earlier[i] is Message);
                assert(events[i] == earlier[i]);
            }
        }
        if exists|i: int| 0 <= i < events.len() && !(#[trigger] events[i] is Message) {
            let i = choose|i: int| 0 <= i < events.len() && !(#[trigger] events[i] is Message);
            if i < m {
                assert(earlier[i] == events[i]);
            }
        }
    }
}

/// Events that come in two parts are shown as if they had come at once.
pub proof fn events_can_come_in_parts(chat: Chat, first: Seq<ChatEvent>, second: Seq<ChatEvent>)
    ensures
        chat::with_events(chat::with_events(chat, first), second) == chat::with_events(
            chat,
            first + second,
        ),
    decreases second.len(),
{
    if second.len() == 0 {
        assert(first + second =~= first);
    } else {
        events_can_come_in_parts(chat, first, second.drop_last());
        assert((first + second).drop_last() =~= first + second.drop_last());
        assert((first + second).last() == second.last());
    }
}

/// The history of a session, line by line, is what its lines say.
pub proof fn history_is_its_lines(session: ChatSession, i: int)
    requires
        0 <= i < session.history@.len(),
    ensures
        session@.history.len() == session.history@.len(),
        match session.history@[i] {
            ChatLine::Me(t) => session@.history[i] == Line::Me(t@),
            ChatLine::Peer(t) => session@.history[i] == Line::Peer(t@),
            ChatLine::System(t) => session@.history[i] == Line::System(t@),
        },
        session@.input == session.input@,
        session@.scroll == session.scroll,
        session@.ended == session.ended,
        session@.peer_short_fp == session.peer_short_fp@,
        session@.sender == session.sender,
{
}

/// A chat begins with nothing in it.
pub proof fn chat_begins_empty(sender: SessionSender, fp: Seq<char>)
    ensures
        ({
            let c = chat::new_chat(sender, fp);
            &&& c.history.len() == 0
            &&& c.input.len() == 0
            &&& c.scroll == 0
            &&& !c.ended
            &&& c.sender == sender
            &&& c.peer_short_fp == fp
        }),
{
}

/// What a decrypted frame is shown as: its text, and where the bytes are no text
/// what stands for it; and what a frame that cannot be decrypted is.
pub proof fn frame_is_shown_as_its_text(plaintext: Seq<u8>, e: CryptoError, event: ChatEvent)
    ensures
        event@ == chat::event_of(Ok(plaintext)) ==> (event matches ChatEvent::Message(t) && t@
            == if valid_utf8(plaintext) {
            decode_utf8(plaintext)
        } else {
            chat::utf8_lossy(plaintext)
        }),
        event@ == chat::event_of(Err(e)) ==> (event matches ChatEvent::Error(t) && t@
            == "decrypt failed: "@ + e.text()),
        event.is_final() <==> !(event is Message),
{
}

/// A text is shown to the peer: what one side encrypts of it, framed, is read
/// back whole, decrypts, and stands at the end of the other side's history with
/// every character.
pub proof fn sent_text_is_shown_to_the_peer(
    sender: SessionSender,
    sender_after: SessionSender,
    receiver: SessionReceiver,
    receiver_after: SessionReceiver,
    t: Seq<char>,
    sent: Result<Vec<u8>, CryptoError>,
    received: ChatEvent,
    theirs: Chat,
    rest: Seq<u8>,
)
    requires
        crypto::in_step(sender, receiver),
        sender.counter() < u64::MAX,
        encode_utf8(t).len() + 16 <= 65536,
        crypto::encrypts(sender, sender_after, encode_utf8(t), crypto::bytes_in(sent)),
        sent matches Ok(ciphertext) ==> {
            &&& crypto::decrypts(
                receiver,
                receiver_after,
                ciphertext@,
                crypto::opened(receiver, ciphertext@),
            )
            &&& received@ == chat::event_of(crypto::opened(receiver, ciphertext@))
        },
    ensures
        sent matches Ok(ciphertext) && protocol::parse_frame(
            protocol::frame(ciphertext@) + rest,
        ) == (Ok::<Seq<u8>, FrameError>(ciphertext@), rest),
        chat::with_events(theirs, seq![received]).history == theirs.history.push(Line::Peer(t)),
        crypto::in_step(sender_after, receiver_after),
{
    protocol::frame_reads_back(sent->Ok_0@, rest);
    encode_utf8_valid_utf8(t);
    encode_utf8_decode_utf8(t);
    let events = seq![received];
    events_stand_in_the_history_as_received(theirs, events);
    let after = chat::with_events(theirs, events);
    assert(events[0] == received);
    assert(is_line_of(after.history[theirs.history.len() as int + 0], events[0]));
    assert(after.history =~= theirs.history.push(Line::Peer(t)));
}

/// What is to be sent of a typed text is the text without the white space at its
/// end, and nothing is where it is blank.
pub proof fn typed_text_is_sent_whole(chat: Chat, t: Seq<char>, white: Seq<char>)
    requires
        chat.input == t + white,
        t.len() > 0 ==> !text::is_white(t.last()),
        forall|i: int| 0 <= i < white.len() ==> text::is_white(#[trigger] white[i]),
    ensures
        chat::to_send(chat) == (if t.len() == 0 {
            None
        } else {
            Some(t)
        }),
{
    cutting_stops_at_the_text(t, white);
}

/// Cutting white space off stops at the text before it.
pub proof fn cutting_stops_at_the_text(t: Seq<char>, white: Seq<char>)
    requires
        t.len() > 0 ==> !text::is_white(t.last()),
        forall|i: int| 0 <= i < white.len() ==> text::is_white(#[trigger] white[i]),
    ensures
        text::trimmed_end(t + white) == t,
    decreases white.len(),
{
    let all = t + white;
    if white.len() == 0 {
        assert(all =~= t);
    } else {
        assert(all.last() == white[white.len() - 1]);
        assert(all.drop_last() =~= t + white.drop_last());
        cutting_stops_at_the_text(t, white.drop_last());
    }
}

/// Encrypting what was typed changes nothing of a chat that is seen, and sending
/// it moves it from the input to the end of the history.
pub proof fn sending_moves_the_text_to_the_history(chat: Chat, t: Seq<char>)
    ensures
        ({
            let c = chat::after_send(chat);
            &&& c.history == chat.history
            &&& c.input == chat.input
            &&& c.scroll == chat.scroll
            &&& c.ended == chat.ended
            &&& c.peer_short_fp == chat.peer_short_fp
            &&& c.sender == if chat::to_send(chat) is Some {
                chat.sender.advanced()
            } else {
                chat.sender
            }
        }),
        ({
            let c = chat::after_sent(chat, t);
            &&& c.history == chat.history.push(Line::Me(t))
            &&& c.input.len() == 0
            &&& c.scroll == chat.scroll
            &&& c.ended == chat.ended
            &&& c.peer_short_fp == chat.peer_short_fp
            &&& c.sender == chat.sender
        }),
        ({
            let c = chat::with_line(chat, Line::System(t));
            &&& c.history == chat.history.push(Line::System(t))
            &&& c.input == chat.input
            &&& c.scroll == chat.scroll
            &&& c.ended == chat.ended
            &&& c.peer_short_fp == chat.peer_short_fp
            &&& c.sender == chat.sender
        }),
{
}

/// An event is what it says.
pub proof fn event_is_what_it_says(event: ChatEvent)
    ensures
        match event {
            ChatEvent::Message(t) => event@ == Incoming::Message(t@),
            ChatEvent::Disconnected => event@ == Incoming::Disconnected,
            ChatEvent::Error(t) => event@ == Incoming::Error(t@),
        },
{
}

} // verus!
