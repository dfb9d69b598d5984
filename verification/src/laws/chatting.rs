//! What each key does in a chat, and what comes of typing and sending a text.

use crate::chat::{self, Chat, ChatEvent, Line};
use crate::crypto;
use crate::laws::keys::{at, shows, typed};
use crate::laws::{keys, pressed, run, talk};
use crate::primitives;
use crate::protocol;
use crate::screens::{AppView, Event, KeyCode, RequestView, ScreenView};
use crate::text;
use crate::transitions::step;
use vstd::prelude::*;
use vstd::utf8::encode_utf8;

verus! {

/// What typing and deleting do in a chat that has not ended: the very character
/// is appended, or the last one taken off, and nothing else changes.
pub proof fn typing_in_a_chat(app: AppView, chat: Chat, c: char)
    requires
        !chat.ended,
    ensures
        ({
            let with = |input: Seq<char>| ScreenView::Chat(Chat { input, ..chat });
            &&& step(at(app, ScreenView::Chat(chat)), pressed(KeyCode::Char(c))) == shows(
                app,
                with(chat.input.push(c)),
            )
            &&& step(at(app, with(chat.input.push(c))), pressed(KeyCode::Backspace)) == shows(
                app,
                ScreenView::Chat(chat),
            )
            &&& step(at(app, with(Seq::empty())), pressed(KeyCode::Backspace)) == shows(
                app,
                with(Seq::empty()),
            )
        }),
{
    assert(chat.input.push(c).drop_last() =~= chat.input);
}

/// What the other keys do in a chat that has not ended: the arrows scroll by one
/// line, the page keys by ten, within what a number can hold; escape leaves and
/// closes the connection; and the rest does nothing.
pub proof fn moving_in_a_chat(app: AppView, chat: Chat)
    requires
        !chat.ended,
    ensures
        ({
            let here = at(app, ScreenView::Chat(chat));
            let scrolled = |scroll: usize| shows(app, ScreenView::Chat(Chat { scroll, ..chat }));
            let max = usize::MAX as int;
            &&& step(here, pressed(KeyCode::Up)) == scrolled(
                if chat.scroll < max { (chat.scroll + 1) as usize } else { chat.scroll },
            )
            &&& step(here, pressed(KeyCode::Down)) == scrolled(
                if chat.scroll > 0 { (chat.scroll - 1) as usize } else { 0 },
            )
            &&& step(here, pressed(KeyCode::PageUp)) == scrolled(
                if chat.scroll <= max - 10 { (chat.scroll + 10) as usize } else { usize::MAX },
            )
            &&& step(here, pressed(KeyCode::PageDown)) == scrolled(
                if chat.scroll >= 10 { (chat.scroll - 10) as usize } else { 0 },
            )
            &&& step(here, pressed(KeyCode::Esc)) == (
                at(app, ScreenView::Menu { selected: 0 }),
                RequestView::CloseChat,
            )
            &&& step(here, pressed(KeyCode::Tab)) == (here, RequestView::Nothing)
            &&& step(here, pressed(KeyCode::Other)) == (here, RequestView::Nothing)
        }),
{
}

/// In a chat that has ended only escape and enter do anything: they leave it and
/// close the connection.
pub proof fn keys_in_an_ended_chat(app: AppView, chat: Chat, code: KeyCode)
    requires
        chat.ended,
    ensures
        step(at(app, ScreenView::Chat(chat)), pressed(code)) == if code == KeyCode::Esc || code
            == KeyCode::Enter {
            (at(app, ScreenView::Menu { selected: 0 }), RequestView::CloseChat)
        } else {
            shows(app, ScreenView::Chat(chat))
        },
{
}

/// What enter does in a chat that has not ended. A command leaves; a blank input
/// does nothing; and else the input, without the white space at its end, is
/// encrypted under the next nonce and framed, or the user is told why not.
pub proof fn enter_in_a_chat(app: AppView, chat: Chat)
    requires
        !chat.ended,
    ensures
        ({
            let here = at(app, ScreenView::Chat(chat));
            let res = step(here, pressed(KeyCode::Enter));
            let command = text::trimmed(chat.input);
            let t = text::trimmed_end(chat.input);
            let sender = chat.sender.advanced();
            let fails = |why: Seq<char>|
                shows(
                    app,
                    ScreenView::Chat(
                        Chat {
                            sender,
                            history: chat.history.push(Line::System("send failed: "@ + why)),
                            ..chat
                        },
                    ),
                );
            if command == "/quit"@ || command == "/exit"@ {
                res == (at(app, ScreenView::Menu { selected: 0 }), RequestView::CloseChat)
            } else if t.len() == 0 {
                res == (here, RequestView::Nothing)
            } else if chat.sender.counter() == u64::MAX {
                res == fails("nonce counter overflow"@)
            } else if encode_utf8(t).len() >= 274_877_906_880 {
                res == fails("encryption failed: aead::Error"@)
            } else {
                res == (
                    at(app, ScreenView::Chat(Chat { sender, ..chat })),
                    RequestView::Send {
                        frame: protocol::frame(
                            primitives::chacha_seal(
                                chat.sender.key(),
                                crypto::nonce_of(chat.sender.counter()),
                                encode_utf8(t),
                            ),
                        ),
                        text: t,
                    },
                )
            }
        }),
{
}

/// Typing a text in a chat puts it in the input whole.
pub proof fn typed_text_is_in_the_input(app: AppView, chat: Chat, t: Seq<char>)
    requires
        !chat.ended,
    ensures
        run(at(app, ScreenView::Chat(chat)), typed(t)) == at(
            app,
            ScreenView::Chat(Chat { input: chat.input + t, ..chat }),
        ),
    decreases t.len(),
{
    if t.len() == 0 {
        assert(chat.input + t =~= chat.input);
    } else {
        let shorter = t.drop_last();
        keys::keys_of_a_longer_text(t, t.last());
        typed_text_is_in_the_input(app, chat, shorter);
        typing_in_a_chat(app, Chat { input: chat.input + shorter, ..chat }, t.last());
        assert((chat.input + shorter).push(t.last()) =~= chat.input + t);
    }
}

/// Typing a text from an empty input and pressing enter sends that very text,
/// without the white space at its end; and once it is sent it stands in the
/// history as said by the user, with the input empty again.
pub proof fn typed_text_is_sent(app: AppView, chat: Chat, t: Seq<char>, white: Seq<char>)
    requires
        !chat.ended,
        chat.input.len() == 0,
        chat.sender.counter() < u64::MAX,
        t.len() > 0,
        !text::is_white(t.last()),
        forall|i: int| 0 <= i < white.len() ==> text::is_white(#[trigger] white[i]),
        text::trimmed(t) != "/quit"@,
        text::trimmed(t) != "/exit"@,
        encode_utf8(t).len() + 16 <= 65536,
    ensures
        ({
            let entered = step(
                run(at(app, ScreenView::Chat(chat)), typed(t + white)),
                pressed(KeyCode::Enter),
            );
            &&& entered.1 matches RequestView::Send { frame, text } && text == t && frame
                == protocol::frame(
                primitives::chacha_seal(
                    chat.sender.key(),
                    crypto::nonce_of(chat.sender.counter()),
                    encode_utf8(t),
                ),
            )
            &&& step(entered.0, Event::Sent { text: t, answer: Ok(()) }).0.screen
                matches ScreenView::Chat(after) && after.history == chat.history.push(Line::Me(t))
                && after.input.len() == 0
        }),
{
    let all = t + white;
    typed_text_is_in_the_input(app, chat, all);
    assert(chat.input + all =~= all);
    talk::cutting_stops_at_the_text(t, white);
    talk::cutting_stops_at_the_text(t, Seq::empty());
    assert(t + Seq::<char>::empty() =~= t);
    assert(text::trimmed(all) == text::trimmed(t));
    enter_in_a_chat(app, Chat { input: all, ..chat });
}

/// What comes of sending: the text moves to the history, or the user is told and
/// the input stays.
pub proof fn answer_to_sending(app: AppView, chat: Chat, t: Seq<char>, e: Seq<char>)
    ensures
        ({
            let here = at(app, ScreenView::Chat(chat));
            &&& step(here, Event::Sent { text: t, answer: Ok(()) }) == shows(
                app,
                ScreenView::Chat(
                    Chat { input: Seq::empty(), history: chat.history.push(Line::Me(t)), ..chat },
                ),
            )
            &&& step(here, Event::Sent { text: t, answer: Err(e) }) == shows(
                app,
                ScreenView::Chat(
                    Chat {
                        history: chat.history.push(Line::System("send failed: "@ + e)),
                        ..chat
                    },
                ),
            )
        }),
{
}

/// What has come in is shown in the chat: each message whole, in its order, at
/// the end of the history.
pub proof fn incoming_messages_are_shown(app: AppView, chat: Chat, events: Seq<ChatEvent>)
    ensures
        step(at(app, ScreenView::Chat(chat)), Event::ChatEvents(events)).1 == RequestView::Nothing,
        step(at(app, ScreenView::Chat(chat)), Event::ChatEvents(events)).0 matches after && after
            == at(app, after.screen) && (after.screen matches ScreenView::Chat(now) && {
            &&& now.history.len() == chat.history.len() + events.len()
            &&& now.history.take(chat.history.len() as int) == chat.history
            &&& forall|i: int|
                0 <= i < events.len() ==> talk::is_line_of(
                    now.history[chat.history.len() + i],
                    #[trigger] events[i],
                )
            &&& now.input == chat.input
            &&& now.scroll == chat.scroll
        }),
{
    talk::events_stand_in_the_history_as_received(chat, events);
    let now = chat::with_events(chat, events);
    assert(now.history.take(chat.history.len() as int) =~= chat.history);
}

} // verus!
