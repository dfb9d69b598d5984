//! What holds of what is shown: every text whole, in its place, and nothing that
//! depends on anything else.

use crate::chat::{Chat, Line};
use crate::screens::{AddPeerFocus, AppView, ConnectFocus, ScreenView};
use crate::text;
use crate::transitions;
use crate::ui::{self, BodyView, PageView, PanelView, Span, SpanView, Tone, Wrapping};
use vstd::prelude::*;

verus! {

/// A padded text is the text, then spaces, and as wide as asked for or as the
/// text.
pub proof fn padding_is_spaces_at_the_end(t: Seq<char>, width: int)
    ensures
        ui::padded(t, width).len() == if t.len() < width {
            width
        } else {
            t.len() as int
        },
        ui::padded(t, width).take(t.len() as int) == t,
        forall|i: int|
            t.len() <= i < ui::padded(t, width).len() ==> #[trigger] ui::padded(t, width)[i] == ' ',
{
    assert(ui::padded(t, width).take(t.len() as int) =~= t);
}

/// A field shows all that was typed in it, and a cursor behind it if it is the
/// one being edited.
pub proof fn field_shows_what_was_typed(value: Seq<char>)
    ensures
        ui::field_text(value, false) == value,
        ui::field_text(value, true) == value + "|"@,
{
}

/// The rows of a panel.
pub open spec fn rows_in(page: PageView) -> Seq<Seq<SpanView>> {
    match page {
        PageView::Popup(PanelView { body: BodyView::Rows(rows), .. }) => rows,
        _ => Seq::empty(),
    }
}

/// A panel without its rows.
pub open spec fn frame_of(page: PageView) -> PageView {
    match page {
        PageView::Popup(panel) => PageView::Popup(
            PanelView { body: BodyView::Rows(Seq::empty()), ..panel },
        ),
        other => other,
    }
}

/// The error below a form, whole.
pub open spec fn ends_in_error(
    rows: Seq<Seq<SpanView>>,
    count: int,
    error: Option<Seq<char>>,
) -> bool {
    match error {
        Some(e) => rows.len() == count + 1 && rows[count] == seq![
            SpanView { text: "error: "@ + e, tone: Tone::Alarm },
        ],
        None => rows.len() == count,
    }
}

/// The connect form shows the host and the port as typed, the cursor in the one
/// being edited, and the error below.
pub proof fn connect_form_shows_its_fields(
    focus: ConnectFocus,
    host: Seq<char>,
    port: Seq<char>,
    error: Option<Seq<char>>,
)
    ensures
        ({
            let rows = rows_in(ui::connect_page(focus, host, port, error));
            &&& rows[2].len() == 2
            &&& rows[2][1].text == if focus == ConnectFocus::Host { host + "|"@ } else { host }
            &&& rows[3].len() == 2
            &&& rows[3][1].text == if focus == ConnectFocus::Port { port + "|"@ } else { port }
            &&& rows[2][0].text == "  "@ + ui::padded("host"@, 4) + " "@
            &&& rows[3][0].text == "  "@ + ui::padded("port"@, 4) + " "@
            &&& rows[2][0].tone == Tone::Accent && rows[2][1].tone == Tone::Plain
            &&& rows[3][0].tone == Tone::Accent && rows[3][1].tone == Tone::Plain
            &&& rows[0] == seq![SpanView { text: "Connect to a peer"@, tone: Tone::Bold }]
            &&& rows[1].len() == 0 && rows[4].len() == 0
            &&& rows[5] == seq![
                SpanView {
                    text:
                        "Tab/\u{2191}/\u{2193} switch field \u{b7} Enter connect \u{b7} Esc back"@,
                    tone: Tone::Dim,
                },
            ]
            &&& ends_in_error(rows, 6, error)
        }),
{
}

/// The add-peer form shows the address and the fingerprint as typed, the cursor
/// in the one being edited, and the error below.
pub proof fn add_peer_form_shows_its_fields(
    focus: AddPeerFocus,
    address: Seq<char>,
    fingerprint: Seq<char>,
    error: Option<Seq<char>>,
)
    ensures
        ({
            let rows = rows_in(ui::add_peer_page(focus, address, fingerprint, error));
            &&& rows[2].len() == 2
            &&& rows[2][0] == (SpanView { text: "  address:    "@, tone: Tone::Accent })
            &&& rows[2][1].text == if focus == AddPeerFocus::Address {
                address + "|"@
            } else {
                address
            }
            &&& rows[3].len() == 2
            &&& rows[3][0] == (SpanView { text: "  fingerprint:"@, tone: Tone::Accent })
            &&& rows[3][1].text == if focus == AddPeerFocus::Fingerprint {
                fingerprint + "|"@
            } else {
                fingerprint
            }
            &&& rows[2][1].tone == Tone::Plain && rows[3][1].tone == Tone::Plain
            &&& rows[0] == seq![SpanView { text: "Add a trusted peer"@, tone: Tone::Bold }]
            &&& rows[1].len() == 0 && rows[4].len() == 0
            &&& rows[5] == seq![
                SpanView {
                    text: "Tab/\u{2191}/\u{2193} switch field \u{b7} Enter save \u{b7} Esc back"@,
                    tone: Tone::Dim,
                },
            ]
            &&& ends_in_error(rows, 6, error)
        }),
{
}

/// The listen form shows the port as typed and the error below, and once the
/// port is bound the status instead.
pub proof fn listen_form_shows_its_field(
    port: Seq<char>,
    status: Option<Seq<char>>,
    error: Option<Seq<char>>,
)
    ensures
        ({
            let rows = rows_in(ui::listen_page(port, false, status, error));
            &&& rows[0] == seq![SpanView { text: "Listen for a connection"@, tone: Tone::Bold }]
            &&& rows[1].len() == 0 && rows[3].len() == 0
            &&& rows[2].len() == 2
            &&& rows[2][0] == (SpanView {
                text: "  "@ + ui::padded("port"@, 4) + " "@,
                tone: Tone::Accent,
            })
            &&& rows[2][1] == (SpanView { text: port + "|"@, tone: Tone::Plain })
            &&& rows[4] == seq![
                SpanView { text: "Enter start \u{b7} Esc back"@, tone: Tone::Dim },
            ]
            &&& ends_in_error(rows, 5, error)
        }),
        ({
            let rows = rows_in(ui::listen_page(port, true, status, error));
            let n = if status is Some { 3int } else { 2int };
            &&& rows[0] == seq![SpanView { text: "Listen for a connection"@, tone: Tone::Bold }]
            &&& rows[1].len() == 0
            &&& status matches Some(s) ==> rows[2] == seq![SpanView { text: s, tone: Tone::Good }]
            &&& rows.len() == n + 2
            &&& rows[n].len() == 0
            &&& rows[n + 1] == seq![SpanView { text: "Esc cancel"@, tone: Tone::Dim }]
        }),
{
    let rows = rows_in(ui::listen_page(port, false, status, error));
    assert(rows[2] =~= ui::field_row("port"@, port, true));
}

/// The frames of the panels: their titles, their sizes and how they treat what
/// is too wide, whatever is in them.
pub proof fn frames_of_the_panels(
    t: Seq<char>,
    u: Seq<char>,
    v: Seq<char>,
    some: Option<Seq<char>>,
    error: Option<Seq<char>>,
    listening: bool,
    connect: ConnectFocus,
    add: AddPeerFocus,
)
    ensures
        ({
            let panel = |title: Seq<char>, alarm: bool, x: u16, y: u16, centred: bool, w: Wrapping|
                PageView::Popup(
                    PanelView {
                        title,
                        alarm,
                        percent_x: x,
                        percent_y: y,
                        centred,
                        wrapping: w,
                        body: BodyView::Rows(Seq::empty()),
                    },
                );
            let cut = Wrapping::Cut;
            &&& frame_of(ui::connect_page(connect, t, u, error)) == panel(
                " Connect "@,
                false,
                60,
                60,
                false,
                cut,
            )
            &&& frame_of(ui::listen_page(t, listening, some, error)) == panel(
                " Listen "@,
                false,
                60,
                60,
                false,
                cut,
            )
            &&& frame_of(ui::add_peer_page(add, t, u, error)) == panel(
                " Add peer "@,
                false,
                70,
                70,
                false,
                cut,
            )
            &&& frame_of(ui::status_page(t, u)) == panel(" "@ + t + " "@, false, 60, 40, true, cut)
            &&& frame_of(ui::notice_page(t)) == panel(
                " Notice "@,
                true,
                70,
                50,
                false,
                Wrapping::Trimmed,
            )
            &&& frame_of(ui::mismatch_page(t, u, v)) == panel(
                " Fingerprint mismatch "@,
                true,
                70,
                70,
                false,
                Wrapping::Kept,
            )
        }),
{
}

/// While something is waited for, its status is shown whole; and a notice is
/// shown whole, with the advice to press a key.
pub proof fn status_and_notice_are_shown_whole(title: Seq<char>, t: Seq<char>)
    ensures
        rows_in(ui::status_page(title, t)).len() == 3,
        rows_in(ui::status_page(title, t))[0] == seq![SpanView { text: t, tone: Tone::Plain }],
        rows_in(ui::status_page(title, t))[1].len() == 0,
        rows_in(ui::status_page(title, t))[2] == seq![
            SpanView { text: "Esc cancel"@, tone: Tone::Dim },
        ],
        ui::notice_page(t) matches PageView::Popup(panel) && panel.body == BodyView::Text(
            t + "\n\n(press any key to continue)"@,
        ),
{
}

/// The warning names the peer, the stored fingerprint as expected and the live
/// one as what was got; the rest of it is the same for every peer.
pub proof fn warning_names_both_fingerprints(
    id: Seq<char>,
    expected: Seq<char>,
    got: Seq<char>,
    id2: Seq<char>,
    expected2: Seq<char>,
    got2: Seq<char>,
    i: int,
)
    ensures
        ({
            let rows = rows_in(ui::mismatch_page(id, expected, got));
            let others = rows_in(ui::mismatch_page(id2, expected2, got2));
            &&& rows.len() == 14
            &&& rows[2] == seq![
                SpanView {
                    text: "The fingerprint of peer "@ + id + " changed since the"@,
                    tone: Tone::Plain,
                },
            ]
            &&& rows[7] == seq![
                SpanView { text: "  expected: "@, tone: Tone::Dim },
                SpanView { text: expected, tone: Tone::Alarm },
            ]
            &&& rows[8] == seq![
                SpanView { text: "  got:      "@, tone: Tone::Dim },
                SpanView { text: got, tone: Tone::Caution },
            ]
            &&& 0 <= i < 14 && i != 2 && i != 7 && i != 8 ==> rows[i] == others[i]
        }),
{
}

/// The menu shows the whole fingerprint and the five items by number, the
/// selected one marked; the rest of it is always the same.
pub proof fn menu_shows_its_items(fp: Seq<char>, selected: usize, i: int)
    requires
        0 <= i < 5,
    ensures
        ui::menu_page(fp, selected) matches PageView::Menu { title, header, list, footer } && {
            &&& title == " DirectMessages "@
            &&& header.len() == 2
            &&& header[0] == seq![SpanView { text: "DirectMessages"@, tone: Tone::Title }]
            &&& header[1] == seq![
                SpanView { text: "my fingerprint: "@, tone: Tone::Dim },
                SpanView { text: fp, tone: Tone::Caution },
            ]
            &&& list.title == " Menu "@
            &&& list.items.len() == 5
            &&& list.items[i].text == "  "@ + text::decimal((i + 1) as nat) + ". "@ + (if i == 0 {
                "Connect to peer"@
            } else if i == 1 {
                "Listen for connection"@
            } else if i == 2 {
                "Manage peers"@
            } else if i == 3 {
                "Regenerate keypair"@
            } else {
                "Quit"@
            })
            &&& list.items[i].tone == if i == selected { Tone::Selected } else { Tone::Plain }
            &&& footer
                == "\u{2191}/\u{2193} select \u{b7} Enter choose \u{b7} 1-5 shortcut \u{b7} q/Esc quit"@
        },
{
}

/// The list of peers shows every peer, in its order, with its whole address and
/// the start of its fingerprint, the selected one marked.
pub proof fn every_peer_is_shown(peers: Seq<(Seq<char>, Seq<char>)>, selected: usize)
    ensures
        ui::peers_page(peers, selected) matches PageView::Peers { list, footer } && {
            &&& list.title == " Trusted peers "@
            &&& footer
                == "\u{2191}/\u{2193} select \u{b7} a add \u{b7} r remove \u{b7} Esc back"@
            &&& peers.len() == 0 ==> list.items == seq![
                SpanView {
                    text: "  (no trusted peers yet \u{2014} press 'a' to add)"@,
                    tone: Tone::Plain,
                },
            ]
            &&& peers.len() > 0 ==> list.items.len() == peers.len() && forall|i: int|
                0 <= i < peers.len() ==> {
                    &&& (#[trigger] list.items[i]).text == "  "@ + ui::padded(peers[i].0, 32)
                        + "  "@ + transitions::short(peers[i].1)
                    &&& list.items[i].tone == if i == selected {
                        Tone::Selected
                    } else {
                        Tone::Plain
                    }
                }
        },
{
}

/// Where the lines that are shown begin and end.
pub proof fn shown_lines_end_where_scrolled_to(total: int, scroll: int, visible: int)
    requires
        0 <= total,
        0 <= scroll,
        0 <= visible,
    ensures
        ui::window(total, scroll, visible).1 == if scroll <= total {
            total - scroll
        } else {
            0
        },
        ui::window(total, scroll, visible).0 == if ui::window(total, scroll, visible).1 >= visible {
            ui::window(total, scroll, visible).1 - visible
        } else {
            0
        },
{
}

/// A chat shows its lines whole and in order, marked by who said them, as many
/// as fit, the last of them as far from the end as was scrolled.
pub proof fn chat_shows_its_lines_whole(history: Seq<Line>, scroll: int, visible: int, i: int)
    requires
        0 <= scroll,
        0 <= visible,
        0 <= i < ui::chat_rows(history, scroll, visible).len(),
    ensures
        ({
            let end = if scroll <= history.len() { history.len() - scroll } else { 0 };
            let start = if end >= visible { end - visible } else { 0 };
            let row = ui::chat_rows(history, scroll, visible)[i];
            &&& ui::chat_rows(history, scroll, visible).len() == end - start
            &&& match history[start + i] {
                Line::Me(t) => row == (SpanView { text: "  [me]   "@ + t, tone: Tone::Good }),
                Line::Peer(t) => row == (SpanView { text: "  [peer] "@ + t, tone: Tone::Accent }),
                Line::System(t) => row == (SpanView { text: "  \u{b7} "@ + t, tone: Tone::Dim }),
            }
        }),
{
}

/// Where there is a line to show and room for it, it is shown.
pub proof fn lines_are_shown_where_there_is_room(history: Seq<Line>, scroll: int, visible: int)
    requires
        0 <= scroll < history.len(),
        0 < visible,
    ensures
        ui::chat_rows(history, scroll, visible).len() > 0,
        ui::chat_rows(history, scroll, visible).len() <= visible,
        scroll + visible <= history.len() ==> ui::chat_rows(history, scroll, visible).len()
            == visible,
{
}

/// A chat's page: the peer in its title, and whether it has gone; the lines that
/// fit between the borders; and what was typed, whole.
pub proof fn chat_page_shows_what_was_typed(chat: Chat, height: u16)
    ensures
        ui::chat_page(chat, height) matches PageView::Chat { list, title, input } && {
            &&& list.title == " Chat with "@ + chat.peer_short_fp + (if chat.ended {
                " \u{2014} disconnected (Esc to leave) "@
            } else {
                " "@
            })
            &&& list.items == ui::chat_rows(
                chat.history,
                chat.scroll as int,
                if height >= 2 { height - 2 } else { 0 },
            )
            &&& title == " Message "@
            &&& input == "> "@ + (if chat.ended { chat.input } else { chat.input + "|"@ })
        },
{
}

/// Each screen has its page.
pub proof fn screens_have_their_pages(app: AppView, height: u16)
    ensures
        match app.screen {
            ScreenView::Menu { selected } => ui::page_of(app, height) == ui::menu_page(
                app.my_fingerprint,
                selected,
            ),
            ScreenView::Connect { host, port, focus, error } => ui::page_of(app, height)
                == ui::connect_page(focus, host, port, error),
            ScreenView::Connecting { status } => ui::page_of(app, height) == ui::status_page(
                "Connecting"@,
                status,
            ),
            ScreenView::Listen { port, listening, status, error } => ui::page_of(app, height)
                == ui::listen_page(port, listening, status, error),
            ScreenView::Peers { peers, selected } => ui::page_of(app, height) == ui::peers_page(
                peers,
                selected,
            ),
            ScreenView::AddPeer { address, fingerprint, focus, error } => ui::page_of(app, height)
                == ui::add_peer_page(focus, address, fingerprint, error),
            ScreenView::Notice { text } => ui::page_of(app, height) == ui::notice_page(text),
            ScreenView::Mismatch { peer_id, expected_short, got_short, .. } => ui::page_of(
                app,
                height,
            ) == ui::mismatch_page(peer_id, expected_short, got_short),
            ScreenView::Chat(chat) => ui::page_of(app, height) == ui::chat_page(chat, height),
        },
{
}

/// What is drawn is what the contracts say of it: every row, and every text in
/// it.
pub proof fn rows_are_what_they_show(rows: Seq<Vec<Span>>, i: int, j: int)
    requires
        0 <= i < rows.len(),
        0 <= j < rows[i]@.len(),
    ensures
        ui::rows_of(rows).len() == rows.len(),
        ui::rows_of(rows)[i].len() == rows[i]@.len(),
        ui::rows_of(rows)[i][j].text == rows[i]@[j].text@,
        ui::rows_of(rows)[i][j].tone == rows[i]@[j].tone,
        ui::row_of(rows[i]@)[j].text == rows[i]@[j].text@,
        ui::row_of(rows[i]@).len() == rows[i]@.len(),
{
}

} // verus!
