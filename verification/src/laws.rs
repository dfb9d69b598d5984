//! What holds of the application as a whole, whatever happens to it.

pub mod calls;
pub mod changes;
pub mod chatting;
pub mod keys;
pub mod opening;
pub mod secrets;
pub mod shown;
pub mod stored;
pub mod talk;
pub mod texts;
pub mod wire;

use crate::chat;
use crate::crypto;
use crate::protocol;
use crate::screens::{
    AppView, Event, KeyCode, KeyEvent, OpeningView, OutcomeView, RequestView, ScreenView,
};
use crate::state::{self, Trust};
use crate::text;
use crate::transitions::{self, step};
use vstd::prelude::*;
use vstd::utf8::encode_utf8;

verus! {

/// A key that is pressed.
pub open spec fn pressed(code: KeyCode) -> Event {
    Event::Key(KeyEvent { code, control: false, release: false })
}

/// What a row of events makes of the application.
pub open spec fn run(app: AppView, events: Seq<Event>) -> AppView
    decreases events.len(),
{
    if events.len() == 0 {
        app
    } else {
        step(run(app, events.drop_last()), events.last()).0
    }
}

/// Whatever happens, the application stays as it should be: selections stay in
/// range, number fields hold digits only, and the fingerprint shown is that of
/// the identity in use.
pub proof fn application_stays_well_formed(app: AppView, events: Seq<Event>)
    requires
        app.wf(),
        forall|i: int| 0 <= i < events.len() ==> (#[trigger] events[i]).wf(),
    ensures
        run(app, events).wf(),
    decreases events.len(),
{
    if events.len() > 0 {
        let before = events.drop_last();
        assert forall|i: int| 0 <= i < before.len() implies (#[trigger] before[i]).wf() by {
            assert(before[i] == events[i]);
        }
        application_stays_well_formed(app, before);
        transitions::step_keeps_wf(run(app, before), events.last());
    }
}

/// Once the application is to quit, nothing changes that.
pub proof fn quitting_is_final(app: AppView, event: Event)
    requires
        app.should_quit,
    ensures
        step(app, event).0.should_quit,
{
}

/// Control and C quit on every screen, and do nothing else.
pub proof fn control_c_quits(app: AppView)
    ensures
        step(
            app,
            Event::Key(KeyEvent { code: KeyCode::Char('c'), control: true, release: false }),
        ) == (AppView { should_quit: true, ..app }, RequestView::Nothing),
{
}

/// A key that is let go does nothing.
pub proof fn released_keys_do_nothing(app: AppView, code: KeyCode, control: bool)
    ensures
        step(app, Event::Key(KeyEvent { code, control, release: true })) == (
            app,
            RequestView::Nothing,
        ),
{
}

/// Any key leaves a notice, for the menu.
pub proof fn any_key_leaves_a_notice(app: AppView, code: KeyCode)
    requires
        app.screen is Notice,
    ensures
        step(app, pressed(code)) == (
            AppView { screen: transitions::menu(), ..app },
            RequestView::Nothing,
        ),
{
}

/// No key but control and C quits on a screen other than the menu.
pub proof fn only_the_menu_quits(app: AppView, code: KeyCode)
    requires
        !(app.screen is Menu),
    ensures
        step(app, pressed(code)).0.should_quit == app.should_quit,
{
}

/// Only a generated keypair changes the identity; nothing else does.
pub proof fn only_a_new_keypair_changes_the_identity(app: AppView, event: Event)
    ensures
        match event {
            Event::KeypairGenerated(Ok(identity)) => step(app, event).0.identity == identity,
            _ => step(app, event).0.identity == app.identity,
        },
{
}

/// A chat begins only with a peer that was let in, and only once its
/// connection is ready.
pub proof fn chat_begins_only_with_a_peer_that_was_let_in(app: AppView, event: Event)
    requires
        !(app.screen is Chat),
        step(app, event).0.screen is Chat,
    ensures
        event matches Event::ChatStarted(Ok(_)),
        app.opening is Starting,
{
}

/// A peer is let in only where its fingerprint is the stored one, or where it
/// is new and its fingerprint has just been stored.
pub proof fn peer_is_let_in_only_when_trusted(app: AppView, event: Event)
    requires
        !(app.opening is Starting),
        step(app, event).0.opening is Starting,
    ensures
        match step(app, event).0.opening {
            OpeningView::Starting { outcome, first_contact } => if first_contact {
                (event matches Event::PeerPinned(Ok(_))) && app.opening
                    == OpeningView::PinningNew(outcome)
            } else {
                event == Event::PeerChecked(Ok(Trust::Verified)) && app.opening
                    == OpeningView::Checking(outcome)
            },
            _ => false,
        },
{
}

/// The fingerprint of a connected peer is stored only where the peer is new,
/// or where the user trusts its new key. What is stored is the fingerprint of
/// the key that the peer has proved to hold.
pub proof fn fingerprint_is_stored_only_when_new_or_trusted(app: AppView, event: Event)
    requires
        step(app, event).1 is PinPeer,
    ensures
        match app.screen {
            ScreenView::Mismatch { outcome: Some(o), .. } if event is Key => {
                &&& event matches Event::Key(key) && (key.code == KeyCode::Char('u') || key.code
                    == KeyCode::Char('U'))
                &&& step(app, event).1 == (RequestView::PinPeer {
                    peer_id: o.peer_id,
                    fingerprint: o.peer_fingerprint,
                })
            },
            _ => {
                &&& event == Event::PeerChecked(Ok(Trust::New))
                &&& app.opening matches OpeningView::Checking(o) && step(app, event).1 == (
                RequestView::PinPeer { peer_id: o.peer_id, fingerprint: o.peer_fingerprint })
            },
        },
{
}

/// A key other than U on the warning aborts: the peer is forgotten, and
/// nothing is stored.
pub proof fn warning_needs_confirmation(app: AppView, code: KeyCode)
    requires
        app.screen is Mismatch,
        code != KeyCode::Char('u'),
        code != KeyCode::Char('U'),
    ensures
        step(app, pressed(code)) == (
            AppView { screen: transitions::menu(), ..app },
            RequestView::Nothing,
        ),
{
}

/// What the application is, and asks for last, once a peer has connected and
/// the caller has looked up its fingerprint among the known peers, stored it
/// where that was asked for, and made the connection ready.
pub open spec fn let_in(
    app: AppView,
    outcome: OutcomeView,
    peers: Map<Seq<char>, Seq<char>>,
) -> (AppView, RequestView) {
    let trust = state::trust(peers, outcome.peer_id, outcome.peer_fingerprint);
    let checked = step(transitions::open(app, outcome).0, Event::PeerChecked(Ok(trust)));
    match checked.1 {
        RequestView::PinPeer { .. } => step(
            step(checked.0, Event::PeerPinned(Ok(()))).0,
            Event::ChatStarted(Ok(())),
        ),
        RequestView::StartChat => step(checked.0, Event::ChatStarted(Ok(()))),
        _ => checked,
    }
}

/// What the application is once it is in a chat with a peer.
pub open spec fn in_chat(app: AppView, outcome: OutcomeView, first_contact: bool) -> (
    AppView,
    RequestView,
) {
    (
        AppView {
            screen: ScreenView::Chat(transitions::first_chat(outcome, first_contact)),
            opening: OpeningView::Idle,
            ..app
        },
        RequestView::Receive { receiver: outcome.receiver },
    )
}

/// A peer that connects, or is connected to, has its fingerprint looked up
/// first.
pub proof fn connected_peer_is_looked_up(app: AppView, outcome: OutcomeView)
    ensures
        app.screen is Connecting ==> step(app, Event::Connected(Ok(outcome))) == transitions::open(
            app,
            outcome,
        ),
        app.screen matches ScreenView::Listen { listening: true, .. } ==> step(
            app,
            Event::Accepted(Ok(outcome)),
        ) == transitions::open(app, outcome),
        transitions::open(app, outcome).1 == (RequestView::CheckPeer {
            peer_id: outcome.peer_id,
            fingerprint: outcome.peer_fingerprint,
        }),
{
}

/// A peer whose fingerprint is the stored one is let in without a word.
pub proof fn known_peer_is_let_in(
    app: AppView,
    outcome: OutcomeView,
    peers: Map<Seq<char>, Seq<char>>,
)
    requires
        state::trust(peers, outcome.peer_id, outcome.peer_fingerprint) == Trust::Verified,
    ensures
        let_in(app, outcome, peers) == in_chat(app, outcome, false),
{
}

/// A peer that is met for the first time has its fingerprint stored, is let
/// in, and the user is told to verify the fingerprint. From then on the peer
/// is known.
pub proof fn new_peer_is_pinned_and_let_in(
    app: AppView,
    outcome: OutcomeView,
    peers: Map<Seq<char>, Seq<char>>,
)
    requires
        state::trust(peers, outcome.peer_id, outcome.peer_fingerprint) == Trust::New,
    ensures
        let_in(app, outcome, peers) == in_chat(app, outcome, true),
        step(transitions::open(app, outcome).0, Event::PeerChecked(Ok(Trust::New))).1 == (
        RequestView::PinPeer {
            peer_id: outcome.peer_id,
            fingerprint: outcome.peer_fingerprint,
        }),
        let_in(
            app,
            outcome,
            peers.insert(outcome.peer_id, outcome.peer_fingerprint),
        ) == in_chat(app, outcome, false),
{
    state::pinned_fingerprint_is_checked(
        peers,
        outcome.peer_id,
        outcome.peer_fingerprint,
        outcome.peer_fingerprint,
    );
}

/// A peer whose fingerprint has changed is not let in: the user is warned, and
/// nothing is asked for until the user answers.
pub proof fn changed_fingerprint_is_not_let_in(
    app: AppView,
    outcome: OutcomeView,
    peers: Map<Seq<char>, Seq<char>>,
)
    requires
        peers.contains_key(outcome.peer_id),
        peers[outcome.peer_id] != outcome.peer_fingerprint,
    ensures
        let_in(app, outcome, peers) == (
            AppView {
                screen: ScreenView::Mismatch {
                    peer_id: outcome.peer_id,
                    expected_short: transitions::short(peers[outcome.peer_id]),
                    got_short: transitions::short(outcome.peer_fingerprint),
                    outcome: Some(outcome),
                },
                opening: OpeningView::Idle,
                ..app
            },
            RequestView::Nothing,
        ),
{
}

/// Where the user trusts the new key of a peer, its new fingerprint is stored,
/// and the peer is then let in as a known one.
pub proof fn trusted_new_key_is_let_in(
    app: AppView,
    outcome: OutcomeView,
    peers: Map<Seq<char>, Seq<char>>,
    code: KeyCode,
)
    requires
        app.screen matches ScreenView::Mismatch { outcome: Some(o), .. } && o == outcome,
        code == KeyCode::Char('u') || code == KeyCode::Char('U'),
    ensures
        ({
            let trusted = step(app, pressed(code));
            let pinned = step(trusted.0, Event::PeerPinned(Ok(())));
            &&& trusted.1 == (RequestView::PinPeer {
                peer_id: outcome.peer_id,
                fingerprint: outcome.peer_fingerprint,
            })
            &&& pinned == transitions::open(trusted.0, outcome)
            &&& let_in(
                trusted.0,
                outcome,
                peers.insert(outcome.peer_id, outcome.peer_fingerprint),
            ) == in_chat(trusted.0, outcome, false)
        }),
{
    state::pinned_fingerprint_is_checked(
        peers,
        outcome.peer_id,
        outcome.peer_fingerprint,
        outcome.peer_fingerprint,
    );
}

/// A chat that has ended sends nothing more, and only escape and enter leave
/// it.
pub proof fn ended_chat_sends_nothing(app: AppView, code: KeyCode)
    requires
        app.screen matches ScreenView::Chat(chat) && chat.ended,
    ensures
        !(step(app, pressed(code)).1 is Send),
        step(app, pressed(code)).0.screen == if code == KeyCode::Esc || code == KeyCode::Enter {
            transitions::menu()
        } else {
            app.screen
        },
{
}

/// Leaving a chat closes its connection, and nothing but leaving does.
pub proof fn leaving_a_chat_closes_it(app: AppView, code: KeyCode)
    requires
        app.screen is Chat,
    ensures
        step(app, pressed(code)).1 is CloseChat <==> step(app, pressed(code)).0.screen
            == transitions::menu(),
{
}

/// What was typed stays in the input when it could not be sent, and is in the
/// history, and no longer in the input, when it was.
pub proof fn typed_text_is_sent_or_stays(
    app: AppView,
    chat: chat::Chat,
    answer: Result<(), Seq<char>>,
)
    requires
        app.screen == ScreenView::Chat(chat),
        step(app, pressed(KeyCode::Enter)).1 is Send,
    ensures
        match (step(app, pressed(KeyCode::Enter)).1, answer) {
            (RequestView::Send { frame, text }, Ok(())) => step(
                step(app, pressed(KeyCode::Enter)).0,
                Event::Sent { text, answer },
            ).0.screen matches ScreenView::Chat(after) && after.input == Seq::<char>::empty()
                && after.history == chat.history.push(chat::Line::Me(text)) && text
                == text::trimmed_end(chat.input),
            (RequestView::Send { frame, text }, Err(e)) => step(
                step(app, pressed(KeyCode::Enter)).0,
                Event::Sent { text, answer },
            ).0.screen matches ScreenView::Chat(after) && after.input == chat.input
                && after.history == chat.history.push(
                chat::Line::System("send failed: "@ + e),
            ),
            _ => false,
        },
{
}

/// What enter sends in a chat is the typed text, without the white space at
/// its end, encrypted for the peer and framed.
pub proof fn enter_sends_the_typed_text(app: AppView, chat: chat::Chat)
    requires
        app.screen == ScreenView::Chat(chat),
        step(app, pressed(KeyCode::Enter)).1 is Send,
    ensures
        step(app, pressed(KeyCode::Enter)).1 matches RequestView::Send { frame, text } && text
            == text::trimmed_end(chat.input) && (crypto::sealed(chat.sender, encode_utf8(text))
            matches Ok(ciphertext) && frame == protocol::frame(ciphertext)),
{
}

} // verus!
