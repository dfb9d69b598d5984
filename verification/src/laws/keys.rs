//! What each key does on the menu, on the forms and on the list of peers, and
//! what comes of typing whole texts.

use crate::laws::{pressed, run, texts};
use crate::screens::{
    self, AddPeerFocus, AppView, ConnectFocus, Event, KeyCode, KeyEvent, OpeningView, OutcomeView,
    RequestView, ScreenView,
};
use crate::text;
use crate::transitions::{self, step};
use vstd::prelude::*;
use vstd::utf8::encode_utf8;

verus! {

/// The keys of a text, pressed one after the other.
pub open spec fn typed(t: Seq<char>) -> Seq<Event>
    decreases t.len(),
{
    if t.len() == 0 {
        Seq::empty()
    } else {
        typed(t.drop_last()).push(pressed(KeyCode::Char(t.last())))
    }
}

/// The application on a screen, all else as it is.
pub open spec fn at(app: AppView, screen: ScreenView) -> AppView {
    AppView { screen, ..app }
}

/// Shows a screen and asks for nothing.
pub open spec fn shows(app: AppView, screen: ScreenView) -> (AppView, RequestView) {
    (AppView { screen, ..app }, RequestView::Nothing)
}

/// The connect form.
pub open spec fn connect_form(
    app: AppView,
    host: Seq<char>,
    port: Seq<char>,
    focus: ConnectFocus,
    error: Option<Seq<char>>,
) -> AppView {
    at(app, ScreenView::Connect { host, port, focus, error })
}

/// The listen form.
pub open spec fn listen_form(app: AppView, port: Seq<char>, error: Option<Seq<char>>) -> AppView {
    at(app, ScreenView::Listen { port, listening: false, status: None, error })
}

/// The add-peer form.
pub open spec fn add_peer_form(
    app: AppView,
    address: Seq<char>,
    fingerprint: Seq<char>,
    focus: AddPeerFocus,
    error: Option<Seq<char>>,
) -> AppView {
    at(app, ScreenView::AddPeer { address, fingerprint, focus, error })
}

/// Running events, then more, is running them all.
pub proof fn events_run_in_parts(app: AppView, first: Seq<Event>, second: Seq<Event>)
    ensures
        run(app, first + second) == run(run(app, first), second),
    decreases second.len(),
{
    if second.len() == 0 {
        assert(first + second =~= first);
    } else {
        events_run_in_parts(app, first, second.drop_last());
        assert((first + second).drop_last() =~= first + second.drop_last());
        assert((first + second).last() == second.last());
    }
}

/// Running one event is a step.
pub proof fn one_event_is_a_step(app: AppView, event: Event)
    ensures
        run(app, seq![event]) == step(app, event).0,
{
    assert(seq![event].drop_last() =~= Seq::<Event>::empty());
    assert(seq![event].last() == event);
    assert(run(app, Seq::<Event>::empty()) == app);
}

/// An event at the end of a row is its last, and the row before it is left.
proof fn last_event(events: Seq<Event>, event: Event)
    ensures
        events.push(event).drop_last() == events,
        events.push(event).last() == event,
        events.push(event).len() == events.len() + 1,
{
    assert(events.push(event).drop_last() =~= events);
}

/// The keys of a text are those of all but its last character, then that of the
/// last.
pub proof fn keys_of_a_longer_text(t: Seq<char>, c: char)
    requires
        t.len() > 0,
        t.last() == c,
    ensures
        typed(t).drop_last() == typed(t.drop_last()),
        typed(t).last() == pressed(KeyCode::Char(c)),
        typed(t).len() > 0,
{
    last_event(typed(t.drop_last()), pressed(KeyCode::Char(c)));
}

/// Holding control changes nothing, but for the key that quits.
pub proof fn control_changes_nothing_else(app: AppView, code: KeyCode)
    requires
        code != KeyCode::Char('c'),
    ensures
        step(app, Event::Key(KeyEvent { code, control: true, release: false })) == step(
            app,
            pressed(code),
        ),
{
}

/// What the keys do on the menu. Up and down select the item before and after,
/// within the five; enter chooses the selected item, and a digit the item with
/// that number; Q and escape quit; every other key does nothing.
pub proof fn keys_on_the_menu(app: AppView, selected: usize, c: char)
    requires
        selected < 5,
    ensures
        ({
            let here = at(app, ScreenView::Menu { selected });
            let quits = (AppView { should_quit: true, ..here }, RequestView::Nothing);
            &&& step(here, pressed(KeyCode::Up)) == shows(
                app,
                ScreenView::Menu {
                    selected: if selected == 0 { 0 } else { (selected - 1) as usize },
                },
            )
            &&& step(here, pressed(KeyCode::Down)) == shows(
                app,
                ScreenView::Menu {
                    selected: if selected == 4 { 4 } else { (selected + 1) as usize },
                },
            )
            &&& step(here, pressed(KeyCode::Esc)) == quits
            &&& step(here, pressed(KeyCode::Char('q'))) == quits
            &&& step(here, pressed(KeyCode::Char('1'))) == (
                connect_form(app, Seq::empty(), Seq::empty(), ConnectFocus::Host, None),
                RequestView::Nothing,
            )
            &&& step(here, pressed(KeyCode::Char('2'))) == (
                listen_form(app, Seq::empty(), None),
                RequestView::Nothing,
            )
            &&& step(here, pressed(KeyCode::Char('3'))) == (here, RequestView::LoadPeers)
            &&& step(here, pressed(KeyCode::Char('4'))) == (here, RequestView::GenerateKeypair)
            &&& step(here, pressed(KeyCode::Char('5'))) == quits
            &&& c != 'q' && !('1' <= c <= '5') ==> step(here, pressed(KeyCode::Char(c))) == (
                here,
                RequestView::Nothing,
            )
            &&& step(here, pressed(KeyCode::Enter)) == step(
                here,
                pressed(KeyCode::Char((49 + selected) as char)),
            )
            &&& forall|code: KeyCode|
                code == KeyCode::Tab || code == KeyCode::Backspace || code == KeyCode::PageUp
                    || code == KeyCode::PageDown || code == KeyCode::Other ==> #[trigger] step(
                    here,
                    pressed(code),
                ) == (here, RequestView::Nothing)
        }),
{
}

/// What typing and deleting do on the connect form. The host takes every
/// character as it is, the port every digit and nothing else; deleting takes the
/// last one off; the other field stays; and an error is cleared.
pub proof fn typing_on_the_connect_form(
    app: AppView,
    host: Seq<char>,
    port: Seq<char>,
    error: Option<Seq<char>>,
    c: char,
)
    ensures
        ({
            let on_host = connect_form(app, host, port, ConnectFocus::Host, error);
            let on_port = connect_form(app, host, port, ConnectFocus::Port, error);
            &&& step(on_host, pressed(KeyCode::Char(c))) == (
                connect_form(app, host.push(c), port, ConnectFocus::Host, None),
                RequestView::Nothing,
            )
            &&& step(on_port, pressed(KeyCode::Char(c))) == (
                connect_form(
                    app,
                    host,
                    if '0' <= c <= '9' { port.push(c) } else { port },
                    ConnectFocus::Port,
                    None,
                ),
                RequestView::Nothing,
            )
            &&& step(
                connect_form(app, host.push(c), port, ConnectFocus::Host, error),
                pressed(KeyCode::Backspace),
            ) == (
                connect_form(app, host, port, ConnectFocus::Host, None),
                RequestView::Nothing,
            )
            &&& step(
                connect_form(app, host, port.push(c), ConnectFocus::Port, error),
                pressed(KeyCode::Backspace),
            ) == (
                connect_form(app, host, port, ConnectFocus::Port, None),
                RequestView::Nothing,
            )
            &&& step(
                connect_form(app, Seq::empty(), port, ConnectFocus::Host, error),
                pressed(KeyCode::Backspace),
            ) == (
                connect_form(app, Seq::empty(), port, ConnectFocus::Host, None),
                RequestView::Nothing,
            )
            &&& step(
                connect_form(app, host, Seq::empty(), ConnectFocus::Port, error),
                pressed(KeyCode::Backspace),
            ) == (
                connect_form(app, host, Seq::empty(), ConnectFocus::Port, None),
                RequestView::Nothing,
            )
        }),
{
    assert(host.push(c).drop_last() =~= host);
    assert(port.push(c).drop_last() =~= port);
}

/// What the other keys do on the connect form: tab and the arrows change the
/// field, escape leads back, and enter goes from the host to the port, and from
/// there connects where there is a host and a port, and else complains.
pub proof fn moving_on_the_connect_form(
    app: AppView,
    host: Seq<char>,
    port: Seq<char>,
    error: Option<Seq<char>>,
)
    ensures
        ({
            let on_host = connect_form(app, host, port, ConnectFocus::Host, error);
            let on_port = connect_form(app, host, port, ConnectFocus::Port, error);
            &&& forall|code: KeyCode|
                code == KeyCode::Tab || code == KeyCode::Up || code == KeyCode::Down ==> {
                    &&& #[trigger] step(on_host, pressed(code)) == (on_port, RequestView::Nothing)
                    &&& step(on_port, pressed(code)) == (on_host, RequestView::Nothing)
                }
            &&& forall|code: KeyCode|
                code == KeyCode::PageUp || code == KeyCode::PageDown || code == KeyCode::Other ==> {
                    &&& #[trigger] step(on_host, pressed(code)) == (on_host, RequestView::Nothing)
                    &&& step(on_port, pressed(code)) == (on_port, RequestView::Nothing)
                }
            &&& step(on_host, pressed(KeyCode::Esc)) == shows(
                app,
                ScreenView::Menu { selected: 0 },
            )
            &&& step(on_port, pressed(KeyCode::Esc)) == shows(
                app,
                ScreenView::Menu { selected: 0 },
            )
            &&& step(on_host, pressed(KeyCode::Enter)) == (on_port, RequestView::Nothing)
            &&& match text::port_of(port) {
                Some(p) if host.len() > 0 => step(on_port, pressed(KeyCode::Enter)) == (
                    at(
                        app,
                        ScreenView::Connecting {
                            status: "connecting to "@ + (host + ":"@ + text::decimal(p as nat))
                                + "..."@,
                        },
                    ),
                    RequestView::Connect { host, port: p },
                ),
                _ => step(on_port, pressed(KeyCode::Enter)) == (
                    connect_form(
                        app,
                        host,
                        port,
                        ConnectFocus::Port,
                        Some("enter a valid host and port (1-65535)"@),
                    ),
                    RequestView::Nothing,
                ),
            }
        }),
{
}

/// Typing a text in the host field puts it there whole.
pub proof fn typed_host_is_taken(
    app: AppView,
    host: Seq<char>,
    port: Seq<char>,
    error: Option<Seq<char>>,
    t: Seq<char>,
)
    requires
        t.len() > 0,
    ensures
        run(connect_form(app, host, port, ConnectFocus::Host, error), typed(t)) == connect_form(
            app,
            host + t,
            port,
            ConnectFocus::Host,
            None,
        ),
    decreases t.len(),
{
    let form = connect_form(app, host, port, ConnectFocus::Host, error);
    let shorter = t.drop_last();
    keys_of_a_longer_text(t, t.last());
    assert((host + shorter).push(t.last()) =~= host + t);
    if shorter.len() == 0 {
        assert(run(form, typed(shorter)) == form);
        assert(host + shorter =~= host);
        typing_on_the_connect_form(app, host, port, error, t.last());
    } else {
        typed_host_is_taken(app, host, port, error, shorter);
        typing_on_the_connect_form(app, host + shorter, port, None, t.last());
    }
}

/// Typing digits in the port field puts them there.
pub proof fn typed_port_is_taken(
    app: AppView,
    host: Seq<char>,
    port: Seq<char>,
    error: Option<Seq<char>>,
    t: Seq<char>,
)
    requires
        t.len() > 0,
        forall|i: int| 0 <= i < t.len() ==> '0' <= #[trigger] t[i] <= '9',
    ensures
        run(connect_form(app, host, port, ConnectFocus::Port, error), typed(t)) == connect_form(
            app,
            host,
            port + t,
            ConnectFocus::Port,
            None,
        ),
    decreases t.len(),
{
    let form = connect_form(app, host, port, ConnectFocus::Port, error);
    let shorter = t.drop_last();
    keys_of_a_longer_text(t, t.last());
    assert('0' <= t[t.len() - 1] <= '9');
    assert((port + shorter).push(t.last()) =~= port + t);
    if shorter.len() == 0 {
        assert(run(form, typed(shorter)) == form);
        assert(port + shorter =~= port);
        typing_on_the_connect_form(app, host, port, error, t.last());
    } else {
        assert forall|i: int| 0 <= i < shorter.len() implies '0' <= #[trigger] shorter[i] <= '9' by {
            assert(shorter[i] == t[i]);
        }
        typed_port_is_taken(app, host, port, error, shorter);
        typing_on_the_connect_form(app, host, port + shorter, None, t.last());
    }
}

/// Typing a host, tab, the digits of a port and enter asks for a connection to
/// that very host and port.
pub proof fn typed_address_is_connected_to(app: AppView, host: Seq<char>, port: u16)
    requires
        host.len() > 0,
    ensures
        ({
            let form = connect_form(app, Seq::empty(), Seq::empty(), ConnectFocus::Host, None);
            let events = typed(host) + seq![pressed(KeyCode::Tab)] + typed(
                text::decimal(port as nat),
            );
            let (after, request) = step(run(form, events), pressed(KeyCode::Enter));
            &&& request == (RequestView::Connect { host, port })
            &&& after.screen == (ScreenView::Connecting {
                status: "connecting to "@ + (host + ":"@ + text::decimal(port as nat)) + "..."@,
            })
        }),
{
    let empty = Seq::<char>::empty();
    let digits = text::decimal(port as nat);
    let form = connect_form(app, empty, empty, ConnectFocus::Host, None);
    let tab = seq![pressed(KeyCode::Tab)];
    texts::decimal_reads_back(port as nat);
    texts::port_reads_back(port);
    typed_host_is_taken(app, empty, empty, None, host);
    assert(empty + host =~= host);
    let filled = connect_form(app, host, empty, ConnectFocus::Host, None);
    one_event_is_a_step(filled, pressed(KeyCode::Tab));
    moving_on_the_connect_form(app, host, empty, None);
    let on_port = connect_form(app, host, empty, ConnectFocus::Port, None);
    assert(step(filled, pressed(KeyCode::Tab)) == (on_port, RequestView::Nothing));
    assert forall|i: int| 0 <= i < digits.len() implies '0' <= #[trigger] digits[i] <= '9' by {
        assert(text::is_digit(digits[i]));
    }
    typed_port_is_taken(app, host, empty, None, digits);
    assert(empty + digits =~= digits);
    events_run_in_parts(form, typed(host), tab);
    events_run_in_parts(form, typed(host) + tab, typed(digits));
    moving_on_the_connect_form(app, host, digits, None);
}

/// While a connection is being made, only escape does anything.
pub proof fn keys_while_connecting(app: AppView, status: Seq<char>, code: KeyCode)
    ensures
        step(at(app, ScreenView::Connecting { status }), pressed(code)) == if code == KeyCode::Esc {
            shows(app, ScreenView::Menu { selected: 0 })
        } else {
            shows(app, ScreenView::Connecting { status })
        },
{
}

/// What the keys do on the listen form before a port is bound. The port takes
/// every digit and nothing else; enter asks for the port, or complains where
/// there is none; escape leads back.
pub proof fn keys_on_the_listen_form(
    app: AppView,
    port: Seq<char>,
    status: Option<Seq<char>>,
    error: Option<Seq<char>>,
    c: char,
)
    ensures
        ({
            let with = |port: Seq<char>, error: Option<Seq<char>>|
                at(app, ScreenView::Listen { port, listening: false, status, error });
            let here = with(port, error);
            &&& step(here, pressed(KeyCode::Char(c))) == (
                with(if '0' <= c <= '9' { port.push(c) } else { port }, None),
                RequestView::Nothing,
            )
            &&& step(with(port.push(c), error), pressed(KeyCode::Backspace)) == (
                with(port, None),
                RequestView::Nothing,
            )
            &&& step(with(Seq::empty(), error), pressed(KeyCode::Backspace)) == (
                with(Seq::empty(), None),
                RequestView::Nothing,
            )
            &&& step(here, pressed(KeyCode::Esc)) == shows(app, ScreenView::Menu { selected: 0 })
            &&& match text::port_of(port) {
                Some(p) => step(here, pressed(KeyCode::Enter)) == (
                    here,
                    RequestView::Bind { port: p },
                ),
                None => step(here, pressed(KeyCode::Enter)) == (
                    with(port, Some("enter a valid port (1-65535)"@)),
                    RequestView::Nothing,
                ),
            }
            &&& forall|code: KeyCode|
                code == KeyCode::Tab || code == KeyCode::Up || code == KeyCode::Down || code
                    == KeyCode::PageUp || code == KeyCode::PageDown || code == KeyCode::Other
                    ==> #[trigger] step(here, pressed(code)) == (here, RequestView::Nothing)
        }),
{
    assert(port.push(c).drop_last() =~= port);
}

/// Once a port is bound, only escape does anything.
pub proof fn keys_while_listening(
    app: AppView,
    port: Seq<char>,
    status: Option<Seq<char>>,
    error: Option<Seq<char>>,
    code: KeyCode,
)
    ensures
        ({
            let screen = ScreenView::Listen { port, listening: true, status, error };
            step(at(app, screen), pressed(code)) == if code == KeyCode::Esc {
                shows(app, ScreenView::Menu { selected: 0 })
            } else {
                shows(app, screen)
            }
        }),
{
}

/// Typing digits on the listen form puts them there.
proof fn typed_digits_are_taken(
    app: AppView,
    port: Seq<char>,
    error: Option<Seq<char>>,
    t: Seq<char>,
)
    requires
        t.len() > 0,
        forall|i: int| 0 <= i < t.len() ==> '0' <= #[trigger] t[i] <= '9',
    ensures
        run(listen_form(app, port, error), typed(t)) == listen_form(app, port + t, None),
    decreases t.len(),
{
    let shorter = t.drop_last();
    keys_of_a_longer_text(t, t.last());
    assert('0' <= t[t.len() - 1] <= '9');
    assert((port + shorter).push(t.last()) =~= port + t);
    if shorter.len() == 0 {
        assert(run(listen_form(app, port, error), typed(shorter)) == listen_form(app, port, error));
        assert(port + shorter =~= port);
        keys_on_the_listen_form(app, port, None, error, t.last());
    } else {
        assert forall|i: int| 0 <= i < shorter.len() implies '0' <= #[trigger] shorter[i] <= '9' by {
            assert(shorter[i] == t[i]);
        }
        typed_digits_are_taken(app, port, error, shorter);
        keys_on_the_listen_form(app, port + shorter, None, None, t.last());
    }
}

/// Typing the digits of a port and enter asks for that very port to be bound;
/// and once it is, the status names it.
pub proof fn typed_port_is_listened_on(app: AppView, port: u16)
    ensures
        ({
            let digits = text::decimal(port as nat);
            let filled = run(listen_form(app, Seq::empty(), None), typed(digits));
            let asked = step(filled, pressed(KeyCode::Enter));
            &&& asked == (listen_form(app, digits, None), RequestView::Bind { port })
            &&& step(asked.0, Event::Bound { port, answer: Ok(()) }) == shows(
                app,
                ScreenView::Listen {
                    port: digits,
                    listening: true,
                    status: Some(
                        "listening on 0.0.0.0:"@ + digits
                            + " \u{2014} waiting for a connection..."@,
                    ),
                    error: None,
                },
            )
        }),
{
    let empty = Seq::<char>::empty();
    let digits = text::decimal(port as nat);
    texts::decimal_reads_back(port as nat);
    texts::port_reads_back(port);
    assert forall|i: int| 0 <= i < digits.len() implies '0' <= #[trigger] digits[i] <= '9' by {
        assert(text::is_digit(digits[i]));
    }
    typed_digits_are_taken(app, empty, None, digits);
    assert(empty + digits =~= digits);
    keys_on_the_listen_form(app, digits, None, None, '0');
}

/// What the keys do on the list of peers. Up and down select the peer before and
/// after, within the list; R and D ask for the removal of the selected peer; A
/// leads to the empty add-peer form; escape leads back; every other key does
/// nothing.
pub proof fn keys_on_the_list_of_peers(
    app: AppView,
    peers: Seq<(Seq<char>, Seq<char>)>,
    selected: usize,
    c: char,
)
    requires
        selected == 0 || selected < peers.len(),
    ensures
        ({
            let here = at(app, ScreenView::Peers { peers, selected });
            &&& step(here, pressed(KeyCode::Up)) == shows(
                app,
                ScreenView::Peers {
                    peers,
                    selected: if selected == 0 { 0 } else { (selected - 1) as usize },
                },
            )
            &&& step(here, pressed(KeyCode::Down)) == shows(
                app,
                ScreenView::Peers {
                    peers,
                    selected: if selected + 1 < peers.len() {
                        (selected + 1) as usize
                    } else {
                        selected
                    },
                },
            )
            &&& forall|remove: char|
                remove == 'r' || remove == 'd' ==> #[trigger] step(
                    here,
                    pressed(KeyCode::Char(remove)),
                ) == if peers.len() > 0 {
                    (here, RequestView::RemovePeer { address: peers[selected as int].0 })
                } else {
                    (here, RequestView::Nothing)
                }
            &&& step(here, pressed(KeyCode::Char('a'))) == (
                add_peer_form(app, Seq::empty(), Seq::empty(), AddPeerFocus::Address, None),
                RequestView::Nothing,
            )
            &&& step(here, pressed(KeyCode::Esc)) == shows(app, ScreenView::Menu { selected: 0 })
            &&& c != 'r' && c != 'd' && c != 'a' ==> step(here, pressed(KeyCode::Char(c))) == (
                here,
                RequestView::Nothing,
            )
            &&& forall|code: KeyCode|
                code == KeyCode::Tab || code == KeyCode::Enter || code == KeyCode::Backspace || code
                    == KeyCode::PageUp || code == KeyCode::PageDown || code == KeyCode::Other
                    ==> #[trigger] step(here, pressed(code)) == (here, RequestView::Nothing)
        }),
{
}

/// The peer whose removal is asked for is the selected one, and that is the one
/// that then leaves the list: the others stay, in their order, and the selection
/// stays on the same place, or on the last where that was removed.
pub proof fn selected_peer_is_removed(
    app: AppView,
    peers: Seq<(Seq<char>, Seq<char>)>,
    selected: usize,
    remove: char,
)
    requires
        selected < peers.len(),
        remove == 'r' || remove == 'd',
    ensures
        ({
            let here = at(app, ScreenView::Peers { peers, selected });
            let asked = step(here, pressed(KeyCode::Char(remove)));
            let done = step(asked.0, Event::PeerRemoved(Ok(())));
            &&& asked.1 == (RequestView::RemovePeer { address: peers[selected as int].0 })
            &&& done.1 == RequestView::Nothing
            &&& done.0 == at(app, done.0.screen)
            &&& done.0.screen matches ScreenView::Peers { peers: left, selected: now } && {
                &&& left.len() == peers.len() - 1
                &&& forall|i: int| 0 <= i < selected ==> #[trigger] left[i] == peers[i]
                &&& forall|i: int| selected <= i < left.len() ==> #[trigger] left[i] == peers[i + 1]
                &&& now == if selected < left.len() {
                    selected as int
                } else if selected > 0 {
                    selected - 1
                } else {
                    0
                }
            }
        }),
{
}

/// In a list without two entries for one address, the address that was asked to
/// be removed is the one address that is gone.
pub proof fn removed_address_alone_is_gone(
    app: AppView,
    peers: Seq<(Seq<char>, Seq<char>)>,
    selected: usize,
    kept: int,
)
    requires
        selected < peers.len(),
        forall|i: int, j: int|
            0 <= i < j < peers.len() ==> #[trigger] peers[i].0 != #[trigger] peers[j].0,
        0 <= kept < peers.len(),
    ensures
        ({
            let here = at(app, ScreenView::Peers { peers, selected });
            let asked = step(here, pressed(KeyCode::Char('r')));
            let done = step(asked.0, Event::PeerRemoved(Ok(())));
            asked.1 matches RequestView::RemovePeer { address } && done.0.screen
                matches ScreenView::Peers { peers: left, .. } && {
                &&& forall|i: int| 0 <= i < left.len() ==> #[trigger] left[i].0 != address
                &&& peers[kept].0 != address ==> left.contains(peers[kept])
            }
        }),
{
    selected_peer_is_removed(app, peers, selected, 'r');
    let left = peers.remove(selected as int);
    assert forall|i: int| 0 <= i < left.len() implies #[trigger] left[i].0
        != peers[selected as int].0 by {
        if i < selected {
            assert(left[i] == peers[i]);
        } else {
            assert(left[i] == peers[i + 1]);
        }
    }
    if kept < selected {
        assert(left[kept] == peers[kept]);
    } else if kept > selected {
        assert(left[kept - 1] == peers[kept]);
    }
}

/// A peer that could not be removed stays, and the user is told.
pub proof fn failed_removal_is_told(
    app: AppView,
    peers: Seq<(Seq<char>, Seq<char>)>,
    selected: usize,
    e: Seq<char>,
)
    requires
        selected < peers.len(),
    ensures
        step(at(app, ScreenView::Peers { peers, selected }), Event::PeerRemoved(Err(e))) == shows(
            app,
            ScreenView::Notice { text: "failed to remove peer: "@ + e },
        ),
{
}

/// What typing and deleting do on the add-peer form. The address takes every
/// character as it is; the fingerprint takes hexadecimal digits, capitals made
/// small, and nothing else; typing leaves an error, deleting clears it.
pub proof fn typing_on_the_add_peer_form(
    app: AppView,
    address: Seq<char>,
    fingerprint: Seq<char>,
    error: Option<Seq<char>>,
    c: char,
)
    ensures
        ({
            let on_address = add_peer_form(
                app,
                address,
                fingerprint,
                AddPeerFocus::Address,
                error,
            );
            let on_fp = add_peer_form(app, address, fingerprint, AddPeerFocus::Fingerprint, error);
            &&& step(on_address, pressed(KeyCode::Char(c))) == (
                add_peer_form(app, address.push(c), fingerprint, AddPeerFocus::Address, error),
                RequestView::Nothing,
            )
            &&& step(on_fp, pressed(KeyCode::Char(c))) == (
                add_peer_form(
                    app,
                    address,
                    if '0' <= c <= '9' || 'a' <= c <= 'f' {
                        fingerprint.push(c)
                    } else if 'A' <= c <= 'F' {
                        fingerprint.push((c as int + 32) as char)
                    } else {
                        fingerprint
                    },
                    AddPeerFocus::Fingerprint,
                    error,
                ),
                RequestView::Nothing,
            )
            &&& step(
                add_peer_form(app, address.push(c), fingerprint, AddPeerFocus::Address, error),
                pressed(KeyCode::Backspace),
            ) == (
                add_peer_form(app, address, fingerprint, AddPeerFocus::Address, None),
                RequestView::Nothing,
            )
            &&& step(
                add_peer_form(app, address, fingerprint.push(c), AddPeerFocus::Fingerprint, error),
                pressed(KeyCode::Backspace),
            ) == (
                add_peer_form(app, address, fingerprint, AddPeerFocus::Fingerprint, None),
                RequestView::Nothing,
            )
            &&& step(
                add_peer_form(app, Seq::empty(), fingerprint, AddPeerFocus::Address, error),
                pressed(KeyCode::Backspace),
            ) == (
                add_peer_form(app, Seq::empty(), fingerprint, AddPeerFocus::Address, None),
                RequestView::Nothing,
            )
            &&& step(
                add_peer_form(app, address, Seq::empty(), AddPeerFocus::Fingerprint, error),
                pressed(KeyCode::Backspace),
            ) == (
                add_peer_form(app, address, Seq::empty(), AddPeerFocus::Fingerprint, None),
                RequestView::Nothing,
            )
        }),
{
    assert(address.push(c).drop_last() =~= address);
    assert(fingerprint.push(c).drop_last() =~= fingerprint);
}

/// What the other keys do on the add-peer form: tab and the arrows change the
/// field, escape leads back to the list, and enter goes from the address to the
/// fingerprint, and from there asks for the peer to be stored, or complains.
pub proof fn moving_on_the_add_peer_form(
    app: AppView,
    address: Seq<char>,
    fingerprint: Seq<char>,
    error: Option<Seq<char>>,
)
    ensures
        ({
            let on_address = add_peer_form(
                app,
                address,
                fingerprint,
                AddPeerFocus::Address,
                error,
            );
            let on_fp = add_peer_form(app, address, fingerprint, AddPeerFocus::Fingerprint, error);
            let complains = |e: Seq<char>|
                (
                    add_peer_form(app, address, fingerprint, AddPeerFocus::Fingerprint, Some(e)),
                    RequestView::Nothing,
                );
            &&& forall|code: KeyCode|
                code == KeyCode::Tab || code == KeyCode::Up || code == KeyCode::Down ==> {
                    &&& #[trigger] step(on_address, pressed(code)) == (on_fp, RequestView::Nothing)
                    &&& step(on_fp, pressed(code)) == (on_address, RequestView::Nothing)
                }
            &&& forall|code: KeyCode|
                code == KeyCode::PageUp || code == KeyCode::PageDown || code == KeyCode::Other ==> {
                    &&& #[trigger] step(on_address, pressed(code)) == (
                        on_address,
                        RequestView::Nothing,
                    )
                    &&& step(on_fp, pressed(code)) == (on_fp, RequestView::Nothing)
                }
            &&& step(on_address, pressed(KeyCode::Esc)) == (on_address, RequestView::LoadPeers)
            &&& step(on_fp, pressed(KeyCode::Esc)) == (on_fp, RequestView::LoadPeers)
            &&& step(on_address, pressed(KeyCode::Enter)) == (on_fp, RequestView::Nothing)
            &&& address.len() == 0 ==> step(on_fp, pressed(KeyCode::Enter)) == complains(
                "enter the peer's address (host:port)"@,
            )
            &&& address.len() > 0 && fingerprint.len() == 64 && screens::is_lower_hex(fingerprint)
                ==> step(on_fp, pressed(KeyCode::Enter)) == (
                on_fp,
                RequestView::AddPeer { address, fingerprint },
            )
            &&& address.len() > 0 && fingerprint.len() != 64 && screens::is_lower_hex(fingerprint)
                ==> step(on_fp, pressed(KeyCode::Enter)) == complains(
                "fingerprint must be 64 hex characters"@,
            )
        }),
{
    if screens::is_lower_hex(fingerprint) {
        digits_are_not_trimmed(fingerprint);
        if fingerprint.len() == 64 {
            meant_digits(fingerprint);
            assert(Seq::new(64, |i: int| text::lowered(fingerprint[i])) =~= fingerprint);
        }
    }
}

/// Hexadecimal digits have no white space at either end.
proof fn digits_are_not_trimmed(t: Seq<char>)
    requires
        forall|i: int| 0 <= i < t.len() ==> text::is_hex_digit(#[trigger] t[i]),
    ensures
        text::trimmed(t) == t,
{
    if t.len() > 0 {
        assert(text::is_hex_digit(t[0]));
        assert(text::is_hex_digit(t[t.len() - 1]));
    }
}

/// A text of 64 hexadecimal digits is meant to be the fingerprint with those
/// digits, capitals made small.
pub proof fn meant_digits(t: Seq<char>)
    requires
        t.len() == 64,
        forall|i: int| 0 <= i < 64 ==> text::is_hex_digit(#[trigger] t[i]),
    ensures
        transitions::meant_fingerprint(t) matches Some(fp) && fp.len() == 64 && (forall|i: int|
            0 <= i < 64 ==> #[trigger] fp[i] as int == if 65 <= t[i] as int <= 70 {
                t[i] as int + 32
            } else {
                t[i] as int
            }),
{
    digits_are_not_trimmed(t);
}

/// White space around a text has no part in the fingerprint that it is meant to
/// be.
pub proof fn white_space_is_not_meant(t: Seq<char>)
    ensures
        transitions::meant_fingerprint(t) == transitions::meant_fingerprint(text::trimmed(t)),
{
    let left = text::trimmed(t);
    let parts = texts::both_ends_are_trimmed(t);
    assert(text::trimmed(left) == left);
}

/// A text of another length, or with anything else in it, is no fingerprint.
pub proof fn other_text_is_no_fingerprint(t: Seq<char>)
    requires
        text::trimmed(t).len() != 64 || exists|i: int|
            0 <= i < text::trimmed(t).len() && !text::is_hex_digit(#[trigger] text::trimmed(t)[i]),
    ensures
        transitions::meant_fingerprint(t) is None,
{
}

/// Typing a text in the address field puts it there whole.
proof fn typed_peer_address_is_taken(
    app: AppView,
    address: Seq<char>,
    fingerprint: Seq<char>,
    error: Option<Seq<char>>,
    t: Seq<char>,
)
    ensures
        run(
            add_peer_form(app, address, fingerprint, AddPeerFocus::Address, error),
            typed(t),
        ) == add_peer_form(app, address + t, fingerprint, AddPeerFocus::Address, error),
    decreases t.len(),
{
    if t.len() == 0 {
        assert(address + t =~= address);
    } else {
        let shorter = t.drop_last();
        keys_of_a_longer_text(t, t.last());
        typed_peer_address_is_taken(app, address, fingerprint, error, shorter);
        typing_on_the_add_peer_form(app, address + shorter, fingerprint, error, t.last());
        assert((address + shorter).push(t.last()) =~= address + t);
    }
}

/// Typing hexadecimal digits in the fingerprint field puts them there, capitals
/// made small.
proof fn typed_fingerprint_is_taken(
    app: AppView,
    address: Seq<char>,
    fingerprint: Seq<char>,
    error: Option<Seq<char>>,
    t: Seq<char>,
)
    requires
        forall|i: int| 0 <= i < t.len() ==> text::is_hex_digit(#[trigger] t[i]),
    ensures
        run(
            add_peer_form(app, address, fingerprint, AddPeerFocus::Fingerprint, error),
            typed(t),
        ) == add_peer_form(
            app,
            address,
            fingerprint + t.map_values(|c: char| text::lowered(c)),
            AddPeerFocus::Fingerprint,
            error,
        ),
    decreases t.len(),
{
    let small = |c: char| text::lowered(c);
    if t.len() == 0 {
        assert(fingerprint + t.map_values(small) =~= fingerprint);
    } else {
        let shorter = t.drop_last();
        let c = t.last();
        keys_of_a_longer_text(t, t.last());
        assert(text::is_hex_digit(t[t.len() - 1]));
        assert forall|i: int| 0 <= i < shorter.len() implies text::is_hex_digit(
            #[trigger] shorter[i],
        ) by {
            assert(shorter[i] == t[i]);
        }
        typed_fingerprint_is_taken(app, address, fingerprint, error, shorter);
        let before = fingerprint + shorter.map_values(small);
        typing_on_the_add_peer_form(app, address, before, error, c);
        assert(before.push(text::lowered(c)) =~= fingerprint + t.map_values(small));
    }
}

/// Typing an address, tab, the 64 digits of a fingerprint in either case, and
/// enter asks for that very peer to be stored, the digits in lowercase.
pub proof fn typed_peer_is_added(app: AppView, address: Seq<char>, fingerprint: Seq<char>)
    requires
        address.len() > 0,
        fingerprint.len() == 64,
        forall|i: int| 0 <= i < 64 ==> text::is_hex_digit(#[trigger] fingerprint[i]),
    ensures
        ({
            let form = add_peer_form(app, Seq::empty(), Seq::empty(), AddPeerFocus::Address, None);
            let events = typed(address) + seq![pressed(KeyCode::Tab)] + typed(fingerprint);
            step(run(form, events), pressed(KeyCode::Enter)).1 == (RequestView::AddPeer {
                address,
                fingerprint: fingerprint.map_values(|c: char| text::lowered(c)),
            })
        }),
{
    let empty = Seq::<char>::empty();
    let small = fingerprint.map_values(|c: char| text::lowered(c));
    let form = add_peer_form(app, empty, empty, AddPeerFocus::Address, None);
    let tab = seq![pressed(KeyCode::Tab)];
    typed_peer_address_is_taken(app, empty, empty, None, address);
    assert(empty + address =~= address);
    let filled = add_peer_form(app, address, empty, AddPeerFocus::Address, None);
    let on_fp = add_peer_form(app, address, empty, AddPeerFocus::Fingerprint, None);
    one_event_is_a_step(filled, pressed(KeyCode::Tab));
    moving_on_the_add_peer_form(app, address, empty, None);
    assert(step(filled, pressed(KeyCode::Tab)) == (on_fp, RequestView::Nothing));
    typed_fingerprint_is_taken(app, address, empty, None, fingerprint);
    assert(empty + small =~= small);
    events_run_in_parts(form, typed(address), tab);
    events_run_in_parts(form, typed(address) + tab, typed(fingerprint));
    assert forall|i: int| 0 <= i < small.len() implies text::is_lower_hex_digit(
        #[trigger] small[i],
    ) by {
        assert(text::is_hex_digit(fingerprint[i]));
    }
    moving_on_the_add_peer_form(app, address, small, None);
}

/// What comes of storing a peer that was added: the list is read again, or the
/// form stays and complains.
pub proof fn added_peer_leads_to_the_list(
    app: AppView,
    address: Seq<char>,
    fingerprint: Seq<char>,
    focus: AddPeerFocus,
    error: Option<Seq<char>>,
    e: Seq<char>,
)
    ensures
        ({
            let here = add_peer_form(app, address, fingerprint, focus, error);
            &&& step(here, Event::PeerAdded(Ok(()))) == (here, RequestView::LoadPeers)
            &&& step(here, Event::PeerAdded(Err(e))) == (
                add_peer_form(
                    app,
                    address,
                    fingerprint,
                    focus,
                    Some("failed to pin peer: "@ + e),
                ),
                RequestView::Nothing,
            )
        }),
{
}

/// The list of peers that was read is shown as it is, from its start.
pub proof fn peers_are_shown_as_read(app: AppView, peers: Seq<(Seq<char>, Seq<char>)>)
    ensures
        step(app, Event::PeersLoaded(peers)) == shows(
            app,
            ScreenView::Peers { peers, selected: 0 },
        ),
{
}

/// What the keys do on the warning: U trusts the live key, whose fingerprint is
/// then to be stored under the peer's identifier, and any other key aborts.
pub proof fn keys_on_the_warning(
    app: AppView,
    peer_id: Seq<char>,
    expected_short: Seq<char>,
    got_short: Seq<char>,
    outcome: OutcomeView,
    code: KeyCode,
)
    ensures
        ({
            let warning = |outcome: Option<OutcomeView>|
                ScreenView::Mismatch { peer_id, expected_short, got_short, outcome };
            &&& step(at(app, warning(Some(outcome))), pressed(code)) == if code == KeyCode::Char(
                'u',
            ) || code == KeyCode::Char('U') {
                (
                    AppView {
                        screen: warning(None),
                        opening: OpeningView::Repinning(outcome),
                        ..app
                    },
                    RequestView::PinPeer {
                        peer_id: outcome.peer_id,
                        fingerprint: outcome.peer_fingerprint,
                    },
                )
            } else {
                shows(app, ScreenView::Menu { selected: 0 })
            }
            &&& step(at(app, warning(None)), pressed(code)) == shows(
                app,
                ScreenView::Menu { selected: 0 },
            )
        }),
{
}

/// Every key can be taken on every screen that is as it should be, but for enter
/// in a chat on a text that no frame could carry.
pub proof fn every_key_can_be_taken(app: AppView, key: KeyEvent)
    requires
        app.screen.wf(),
        app.screen matches ScreenView::Peers { peers, .. } ==> peers.len() <= usize::MAX,
        app.screen matches ScreenView::Chat(chat) ==> encode_utf8(
            text::trimmed_end(chat.input),
        ).len() + 16 <= 65536,
    ensures
        transitions::can_take(app, key),
{
}

/// What is shown of an address is the host, a colon and the port in decimal.
pub proof fn address_is_host_and_port(host: Seq<char>, port: u16)
    ensures
        transitions::address_of(host, port) == host + ":"@ + text::decimal(port as nat),
{
}

} // verus!
