//! What comes of every answer from outside: connections, look-ups, stored
//! fingerprints and keypairs, and how they lead to a chat.

use crate::chat::{Chat, Line};
use crate::crypto::{self, Identity};
use crate::laws::keys::{at, shows};
use crate::screens::{
    AppView, Event, OpeningView, OutcomeView, Request, RequestView, Screen, ScreenView,
};
use crate::state::Trust;
use crate::text;
use crate::transitions::{self, step};
use vstd::prelude::*;
use vstd::utf8::{encode_utf8, encode_utf8_decode_utf8};

verus! {

/// The application with a peer at some point of being let in.
pub open spec fn with_opening(app: AppView, opening: OpeningView) -> AppView {
    AppView { opening, ..app }
}

/// Asks to look up the peer that has connected.
pub open spec fn looks_up(app: AppView, o: OutcomeView) -> (AppView, RequestView) {
    (
        AppView { opening: OpeningView::Checking(o), ..app },
        RequestView::CheckPeer { peer_id: o.peer_id, fingerprint: o.peer_fingerprint },
    )
}

/// Shows a notice, and nothing else changes.
pub open spec fn tells(app: AppView, t: Seq<char>) -> (AppView, RequestView) {
    shows(app, ScreenView::Notice { text: t })
}

/// What comes of a connection that was being made: the peer is looked up, or the
/// user is told why there is none.
pub proof fn connection_was_made(app: AppView, o: OutcomeView, e: Seq<char>)
    ensures
        app.screen is Connecting ==> {
            &&& step(app, Event::Connected(Ok(o))) == looks_up(app, o)
            &&& step(app, Event::Connected(Err(e))) == tells(app, "connection failed: "@ + e)
        },
        !(app.screen is Connecting) ==> {
            &&& step(app, Event::Connected(Ok(o))) == (app, RequestView::Nothing)
            &&& step(app, Event::Connected(Err(e))) == (app, RequestView::Nothing)
        },
{
}

/// What comes of a peer that connects while a port is listened on; it has no
/// effect otherwise.
pub proof fn peer_has_connected(app: AppView, o: OutcomeView, e: Seq<char>)
    ensures
        (app.screen matches ScreenView::Listen { listening: true, .. }) ==> {
            &&& step(app, Event::Accepted(Ok(o))) == looks_up(app, o)
            &&& step(app, Event::Accepted(Err(e))) == tells(app, "handshake failed: "@ + e)
            &&& step(app, Event::AcceptFailed(e)) == tells(app, "listen failed: "@ + e)
        },
        !(app.screen matches ScreenView::Listen { listening: true, .. }) ==> {
            &&& step(app, Event::Accepted(Ok(o))) == (app, RequestView::Nothing)
            &&& step(app, Event::Accepted(Err(e))) == (app, RequestView::Nothing)
            &&& step(app, Event::AcceptFailed(e)) == (app, RequestView::Nothing)
        },
        step(app, Event::Nothing) == (app, RequestView::Nothing),
{
}

/// What comes of looking up the peer that waits: a new one has its fingerprint
/// stored first, a known one is let in, and for one whose fingerprint has
/// changed the user is warned, with the stored fingerprint and the live one.
pub proof fn peer_was_looked_up(app: AppView, o: OutcomeView, expected: Seq<char>, e: Seq<char>)
    ensures
        ({
            let waiting = with_opening(app, OpeningView::Checking(o));
            &&& step(waiting, Event::PeerChecked(Ok(Trust::New))) == (
                with_opening(app, OpeningView::PinningNew(o)),
                RequestView::PinPeer { peer_id: o.peer_id, fingerprint: o.peer_fingerprint },
            )
            &&& step(waiting, Event::PeerChecked(Ok(Trust::Verified))) == (
                with_opening(
                    app,
                    OpeningView::Starting { outcome: o, first_contact: false },
                ),
                RequestView::StartChat,
            )
            &&& step(waiting, Event::PeerChecked(Ok(Trust::Mismatch { expected }))) == shows(
                with_opening(app, OpeningView::Idle),
                ScreenView::Mismatch {
                    peer_id: o.peer_id,
                    expected_short: transitions::short(expected),
                    got_short: transitions::short(o.peer_fingerprint),
                    outcome: Some(o),
                },
            )
            &&& step(waiting, Event::PeerChecked(Err(e))) == tells(
                with_opening(app, OpeningView::Idle),
                "failed to start chat: "@ + e,
            )
        }),
{
}

/// What comes of storing the fingerprint of the peer that waits: a new one is
/// let in, and one whose new key the user trusts is looked up again.
pub proof fn fingerprint_was_stored(app: AppView, o: OutcomeView, e: Seq<char>)
    ensures
        step(
            with_opening(app, OpeningView::PinningNew(o)),
            Event::PeerPinned(Ok(())),
        ) == (
            with_opening(app, OpeningView::Starting { outcome: o, first_contact: true }),
            RequestView::StartChat,
        ),
        step(with_opening(app, OpeningView::PinningNew(o)), Event::PeerPinned(Err(e))) == tells(
            with_opening(app, OpeningView::Idle),
            "failed to start chat: "@ + e,
        ),
        step(with_opening(app, OpeningView::Repinning(o)), Event::PeerPinned(Ok(())))
            == looks_up(app, o),
        step(with_opening(app, OpeningView::Repinning(o)), Event::PeerPinned(Err(e))) == tells(
            with_opening(app, OpeningView::Idle),
            "failed to update peer: "@ + e,
        ),
{
}

/// What comes of making the connection ready: the chat begins with the peer's
/// short fingerprint and its sending half, and on first contact with the advice
/// to verify the fingerprint; messages are received with its receiving half.
pub proof fn chat_has_begun(app: AppView, o: OutcomeView, e: Seq<char>)
    ensures
        ({
            let shown = transitions::short(o.peer_fingerprint);
            let begins = |history: Seq<Line>|
                (
                    AppView {
                        opening: OpeningView::Idle,
                        screen: ScreenView::Chat(
                            Chat {
                                sender: o.sender,
                                history,
                                input: Seq::empty(),
                                scroll: 0,
                                peer_short_fp: shown,
                                ended: false,
                            },
                        ),
                        ..app
                    },
                    RequestView::Receive { receiver: o.receiver },
                );
            let known = with_opening(
                app,
                OpeningView::Starting { outcome: o, first_contact: false },
            );
            let new = with_opening(
                app,
                OpeningView::Starting { outcome: o, first_contact: true },
            );
            &&& step(known, Event::ChatStarted(Ok(()))) == begins(Seq::empty())
            &&& step(new, Event::ChatStarted(Ok(()))) == begins(
                Seq::empty().push(
                    Line::System("new peer \u{2014} verify this fingerprint out-of-band: "@ + shown),
                ),
            )
            &&& step(known, Event::ChatStarted(Err(e))) == tells(
                with_opening(app, OpeningView::Idle),
                "failed to start chat: "@ + e,
            )
            &&& step(new, Event::ChatStarted(Err(e))) == tells(
                with_opening(app, OpeningView::Idle),
                "failed to start chat: "@ + e,
            )
        }),
{
}

/// An answer that nothing waits for changes nothing.
pub proof fn unasked_answers_change_nothing(
    app: AppView,
    trust: Result<Trust, Seq<char>>,
    answer: Result<(), Seq<char>>,
    port: u16,
    t: Seq<char>,
)
    ensures
        !(app.opening is Checking) ==> step(app, Event::PeerChecked(trust)) == (
            app,
            RequestView::Nothing,
        ),
        !(app.opening is PinningNew || app.opening is Repinning) ==> step(
            app,
            Event::PeerPinned(answer),
        ) == (app, RequestView::Nothing),
        !(app.opening is Starting) ==> step(app, Event::ChatStarted(answer)) == (
            app,
            RequestView::Nothing,
        ),
        !(app.screen is Chat) ==> step(app, Event::Sent { text: t, answer }) == (
            app,
            RequestView::Nothing,
        ),
        !(app.screen is AddPeer) ==> step(app, Event::PeerAdded(answer)) == (
            app,
            RequestView::Nothing,
        ),
        !(app.screen is Peers) ==> step(app, Event::PeerRemoved(answer)) == (
            app,
            RequestView::Nothing,
        ),
        !(app.screen matches ScreenView::Listen { listening: false, .. }) ==> step(
            app,
            Event::Bound { port, answer },
        ) == (app, RequestView::Nothing),
{
}

/// What comes of binding a port: the status names the port, or the form stays
/// and complains.
pub proof fn port_was_bound(
    app: AppView,
    typed: Seq<char>,
    status: Option<Seq<char>>,
    error: Option<Seq<char>>,
    port: u16,
    e: Seq<char>,
)
    ensures
        ({
            let here = at(
                app,
                ScreenView::Listen { port: typed, listening: false, status, error },
            );
            &&& step(here, Event::Bound { port, answer: Ok(()) }) == shows(
                app,
                ScreenView::Listen {
                    port: typed,
                    listening: true,
                    status: Some(
                        "listening on 0.0.0.0:"@ + text::decimal(port as nat)
                            + " \u{2014} waiting for a connection..."@,
                    ),
                    error: None,
                },
            )
            &&& step(here, Event::Bound { port, answer: Err(e) }) == shows(
                app,
                ScreenView::Listen {
                    port: typed,
                    listening: false,
                    status,
                    error: Some("bind failed: "@ + e),
                },
            )
        }),
{
}

/// A generated keypair takes the place of the old one, and its fingerprint is
/// shown; where none was generated nothing is replaced.
pub proof fn keypair_was_generated(app: AppView, identity: Identity, e: Seq<char>)
    ensures
        ({
            let fp = crypto::fingerprint_of(identity.public@, identity.signing.verifying@);
            &&& step(app, Event::KeypairGenerated(Ok(identity))) == (
                AppView {
                    identity,
                    my_fingerprint: fp,
                    screen: ScreenView::Notice {
                        text: "new keypair generated\nfingerprint: "@ + fp,
                    },
                    ..app
                },
                RequestView::Nothing,
            )
            &&& step(app, Event::KeypairGenerated(Err(e))) == tells(app, "keygen failed: "@ + e)
        }),
{
}

/// The encoding of two texts joined is their encodings joined.
proof fn encoding_of_joined_texts(first: Seq<char>, second: Seq<char>)
    ensures
        encode_utf8(first + second) == encode_utf8(first) + encode_utf8(second),
    decreases first.len(),
{
    if first.len() == 0 {
        assert(first + second =~= second);
        assert(encode_utf8(first) + encode_utf8(second) =~= encode_utf8(second));
    } else {
        let all = first + second;
        encoding_of_joined_texts(first.drop_first(), second);
        assert(all.drop_first() =~= first.drop_first() + second);
        assert(all[0] == first[0]);
        assert(encode_utf8(all) =~= encode_utf8(first) + encode_utf8(second));
    }
}

/// What is shown of a fingerprint is its first sixteen bytes, or all of it where
/// it is shorter.
pub proof fn short_fingerprint_is_its_start(start: Seq<char>, rest: Seq<char>)
    requires
        encode_utf8(start).len() == 16 || (encode_utf8(start).len() < 16 && rest.len() == 0),
    ensures
        transitions::short(start + rest) == "fp:"@ + start,
{
    let all = encode_utf8(start + rest);
    encoding_of_joined_texts(start, rest);
    encode_utf8_decode_utf8(start);
    if encode_utf8(start).len() == 16 {
        assert(all.take(16) =~= encode_utf8(start));
    } else {
        assert(start + rest =~= start);
    }
}

/// What the caller is asked for is what the application asks for.
pub proof fn request_is_what_was_asked(request: Request)
    ensures
        match request {
            Request::Nothing => request@ == RequestView::Nothing,
            Request::Connect { host, port } => request@ == (RequestView::Connect {
                host: host@,
                port,
            }),
            Request::Bind { port } => request@ == (RequestView::Bind { port }),
            Request::LoadPeers => request@ == RequestView::LoadPeers,
            Request::AddPeer { address, fingerprint } => request@ == (RequestView::AddPeer {
                address: address@,
                fingerprint: fingerprint@,
            }),
            Request::RemovePeer { address } => request@ == (RequestView::RemovePeer {
                address: address@,
            }),
            Request::GenerateKeypair => request@ == RequestView::GenerateKeypair,
            Request::CheckPeer { peer_id, fingerprint } => request@ == (RequestView::CheckPeer {
                peer_id: peer_id@,
                fingerprint: fingerprint@,
            }),
            Request::PinPeer { peer_id, fingerprint } => request@ == (RequestView::PinPeer {
                peer_id: peer_id@,
                fingerprint: fingerprint@,
            }),
            Request::StartChat => request@ == RequestView::StartChat,
            Request::Receive { receiver } => request@ == (RequestView::Receive { receiver }),
            Request::Send { out } => request@ == (RequestView::Send {
                frame: out.frame@,
                text: out.text@,
            }),
            Request::CloseChat => request@ == RequestView::CloseChat,
        },
{
}

/// What is on a screen is what the contracts say of it: every text whole.
pub proof fn screen_is_what_it_shows(screen: Screen)
    ensures
        match screen {
            Screen::Menu { selected } => screen@ == (ScreenView::Menu { selected }),
            Screen::Connect { host, port, focus, error } => screen@
                matches ScreenView::Connect { host: h, port: p, focus: f, error: e } && h == host@
                && p == port@ && f == focus && (e is Some <==> error is Some) && (error
                matches Some(x) ==> e == Some(x@)),
            Screen::Connecting { status } => screen@ == (ScreenView::Connecting {
                status: status@,
            }),
            Screen::Listen { port, listening, status, error } => screen@
                matches ScreenView::Listen { port: p, listening: l, status: s, error: e } && p
                == port@ && l == listening && (s is Some <==> status is Some) && (status
                matches Some(x) ==> s == Some(x@)) && (e is Some <==> error is Some) && (error
                matches Some(x) ==> e == Some(x@)),
            Screen::Peers { peers, selected } => screen@
                matches ScreenView::Peers { peers: ps, selected: s } && s == selected && ps.len()
                == peers@.len() && (forall|i: int|
                0 <= i < ps.len() ==> (#[trigger] ps[i]).0 == peers@[i].0@ && ps[i].1
                    == peers@[i].1@),
            Screen::AddPeer { address, fingerprint, focus, error } => screen@
                matches ScreenView::AddPeer { address: a, fingerprint: p, focus: f, error: e } && a
                == address@ && p == fingerprint@ && f == focus && (e is Some <==> error is Some)
                && (error matches Some(x) ==> e == Some(x@)),
            Screen::Notice { text } => screen@ == (ScreenView::Notice { text: text@ }),
            Screen::Mismatch { peer_id, expected_short, got_short, outcome } => screen@
                matches ScreenView::Mismatch {
                peer_id: id,
                expected_short: x,
                got_short: g,
                outcome: o,
            } && id == peer_id@ && x == expected_short@ && g == got_short@ && (o is Some
                <==> outcome is Some) && (outcome matches Some(was) ==> o == Some(was@)),
            Screen::Chat(session) => screen@ == ScreenView::Chat(session@),
        },
{
}

} // verus!
