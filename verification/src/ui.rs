//! What each screen shows: its texts, how they are laid out and in which tone.
//! Putting them on a terminal is the caller's.

use crate::app::{self, App};
use crate::chat::{Chat, ChatLine, ChatSession, Line};
use crate::screens::{
    self, AddPeerFocus, AppView, ConnectFocus, Screen, ScreenView, MENU_LEN,
};
use crate::text;
use crate::transitions;
use vstd::prelude::*;

verus! {

/// The tone of a text.
#[derive(Clone, Copy, Debug, PartialEq, Eq, Structural)]
pub enum Tone {
    Plain,
    Bold,
    /// A hint.
    Dim,
    /// A label, or what a peer says.
    Accent,
    /// The name of the application, or what can be done about a warning.
    Title,
    /// A success, or what the user says.
    Good,
    /// A fingerprint.
    Caution,
    /// An error.
    Alarm,
    /// A warning.
    Warning,
    /// The selected item of a list.
    Selected,
}

/// A text in one tone.
pub struct Span {
    pub text: String,
    pub tone: Tone,
}

/// A text in one tone, as a value.
pub struct SpanView {
    pub text: Seq<char>,
    pub tone: Tone,
}

impl View for Span {
    type V = SpanView;

    open spec fn view(&self) -> SpanView {
        SpanView { text: self.text@, tone: self.tone }
    }
}

/// A row of texts, as a value.
pub open spec fn row_of(row: Seq<Span>) -> Seq<SpanView> {
    Seq::new(row.len(), |i: int| row[i]@)
}

/// Rows of texts, as a value.
pub open spec fn rows_of(rows: Seq<Vec<Span>>) -> Seq<Seq<SpanView>> {
    Seq::new(rows.len(), |i: int| row_of(rows[i]@))
}

/// A row with one text.
pub open spec fn one(text: Seq<char>, tone: Tone) -> Seq<SpanView> {
    seq![SpanView { text, tone }]
}

/// A row with a label and a text.
pub open spec fn two(
    label: Seq<char>,
    label_tone: Tone,
    text: Seq<char>,
    tone: Tone,
) -> Seq<SpanView> {
    seq![SpanView { text: label, tone: label_tone }, SpanView { text, tone }]
}

/// A blank row.
pub open spec fn blank() -> Seq<SpanView> {
    Seq::empty()
}

/// Makes a text in one tone.
fn span(text: &str, tone: Tone) -> (res: Span)
    ensures
        res@ == (SpanView { text: text@, tone }),
{
    Span { text: text.to_string(), tone }
}

/// Adds a blank row.
fn add_blank(rows: &mut Vec<Vec<Span>>)
    ensures
        rows_of(final(rows)@) == rows_of(old(rows)@).push(blank()),
{
    rows.push(Vec::new());
    assert(row_of(rows@.last()@) =~= blank());
    assert(rows_of(rows@) =~= rows_of(old(rows)@).push(blank()));
}

/// Adds a row with one text.
fn add_one(rows: &mut Vec<Vec<Span>>, text: &str, tone: Tone)
    ensures
        rows_of(final(rows)@) == rows_of(old(rows)@).push(one(text@, tone)),
{
    let mut row: Vec<Span> = Vec::new();
    row.push(span(text, tone));
    assert(row_of(row@) =~= one(text@, tone));
    rows.push(row);
    assert(rows_of(rows@) =~= rows_of(old(rows)@).push(one(text@, tone)));
}

/// Adds a row with a label and a text.
fn add_two(rows: &mut Vec<Vec<Span>>, label: &str, label_tone: Tone, text: &str, tone: Tone)
    ensures
        rows_of(final(rows)@) == rows_of(old(rows)@).push(two(label@, label_tone, text@, tone)),
{
    let mut row: Vec<Span> = Vec::new();
    row.push(span(label, label_tone));
    row.push(span(text, tone));
    assert(row_of(row@) =~= two(label@, label_tone, text@, tone));
    rows.push(row);
    assert(rows_of(rows@) =~= rows_of(old(rows)@).push(two(label@, label_tone, text@, tone)));
}

/// Begins rows.
fn no_rows() -> (res: Vec<Vec<Span>>)
    ensures
        rows_of(res@) == Seq::<Seq<SpanView>>::empty(),
{
    let res: Vec<Vec<Span>> = Vec::new();
    assert(rows_of(res@) =~= Seq::<Seq<SpanView>>::empty());
    res
}

/// A text with spaces at its end, up to a width.
pub open spec fn padded(text: Seq<char>, width: int) -> Seq<char> {
    if text.len() < width {
        text + Seq::new((width - text.len()) as nat, |i: int| ' ')
    } else {
        text
    }
}

/// Pads a text with spaces, up to a width.
pub fn pad(text: &str, width: usize) -> (res: String)
    ensures
        res@ == padded(text@, width as int),
{
    let mut res = text.to_string();
    let mut len: usize = text::chars_of(text).len();
    let ghost n = len;
    assert(res@ =~= text@ + Seq::new(0, |i: int| ' '));
    while len < width
        invariant
            n == text@.len(),
            n <= len,
            n < width ==> len <= width,
            n >= width ==> len == n,
            res@ == text@ + Seq::new((len - n) as nat, |i: int| ' '),
        decreases width - len,
    {
        res.push(' ');
        len = len + 1;
        assert(res@ =~= text@ + Seq::new((len - n) as nat, |i: int| ' '));
    }
    assert(res@ =~= padded(text@, width as int));
    res
}

/// What is shown of a field: what was typed in it, and a cursor if it is the
/// one that is being edited.
pub open spec fn field_text(value: Seq<char>, focused: bool) -> Seq<char> {
    if focused {
        value + "|"@
    } else {
        value
    }
}

/// Shows a field.
pub fn field_display(value: &str, focused: bool) -> (res: String)
    ensures
        res@ == field_text(value@, focused),
{
    if focused {
        text::join(value, "|")
    } else {
        value.to_string()
    }
}

/// The row of a field.
pub open spec fn field_row(label: Seq<char>, value: Seq<char>, focused: bool) -> Seq<SpanView> {
    two(
        "  "@ + padded(label, 4) + " "@,
        Tone::Accent,
        field_text(value, focused),
        Tone::Plain,
    )
}

/// Adds the row of a field.
fn field_line(rows: &mut Vec<Vec<Span>>, label: &str, value: &str, focused: bool)
    ensures
        rows_of(final(rows)@) == rows_of(old(rows)@).push(field_row(label@, value@, focused)),
{
    let label = pad(label, 4);
    let start = text::join("  ", label.as_str());
    let start = text::join(start.as_str(), " ");
    let shown = field_display(value, focused);
    add_two(rows, start.as_str(), Tone::Accent, shown.as_str(), Tone::Plain);
}

/// Rows with an error below them, if there is one.
pub open spec fn with_error(rows: Seq<Seq<SpanView>>, error: Option<Seq<char>>) -> Seq<
    Seq<SpanView>,
> {
    match error {
        Some(e) => rows.push(one("error: "@ + e, Tone::Alarm)),
        None => rows,
    }
}

/// Adds an error, if there is one.
fn add_error(rows: &mut Vec<Vec<Span>>, error: &Option<String>)
    ensures
        rows_of(final(rows)@) == with_error(rows_of(old(rows)@), screens::opt(*error)),
{
    match error {
        Some(e) => {
            let shown = text::join("error: ", e.as_str());
            add_one(rows, shown.as_str(), Tone::Alarm);
        },
        None => {},
    }
}

/// How a text that is too wide is shown.
#[derive(Clone, Copy, Debug, PartialEq, Eq, Structural)]
pub enum Wrapping {
    /// It is cut off.
    Cut,
    /// It goes on in the next row, without the white space there.
    Trimmed,
    /// It goes on in the next row.
    Kept,
}

/// What is in a panel.
pub enum Body {
    Text(String),
    Rows(Vec<Vec<Span>>),
}

/// What is in a panel, as a value.
pub enum BodyView {
    Text(Seq<char>),
    Rows(Seq<Seq<SpanView>>),
}

/// A panel in the middle of the terminal.
pub struct Panel {
    pub title: String,
    /// Whether its border warns.
    pub alarm: bool,
    /// How much of the terminal's width it takes, in percent.
    pub percent_x: u16,
    /// How much of the terminal's height it takes, in percent.
    pub percent_y: u16,
    /// Whether its rows are centred.
    pub centred: bool,
    pub wrapping: Wrapping,
    pub body: Body,
}

/// A panel, as a value.
pub struct PanelView {
    pub title: Seq<char>,
    pub alarm: bool,
    pub percent_x: u16,
    pub percent_y: u16,
    pub centred: bool,
    pub wrapping: Wrapping,
    pub body: BodyView,
}

impl View for Panel {
    type V = PanelView;

    open spec fn view(&self) -> PanelView {
        PanelView {
            title: self.title@,
            alarm: self.alarm,
            percent_x: self.percent_x,
            percent_y: self.percent_y,
            centred: self.centred,
            wrapping: self.wrapping,
            body: match self.body {
                Body::Text(text) => BodyView::Text(text@),
                Body::Rows(rows) => BodyView::Rows(rows_of(rows@)),
            },
        }
    }
}

/// A list with a title.
pub struct Listing {
    pub title: String,
    pub items: Vec<Span>,
}

/// A list with a title, as a value.
pub struct ListingView {
    pub title: Seq<char>,
    pub items: Seq<SpanView>,
}

impl View for Listing {
    type V = ListingView;

    open spec fn view(&self) -> ListingView {
        ListingView { title: self.title@, items: row_of(self.items@) }
    }
}

/// What the terminal shows.
#[allow(inconsistent_fields)]
pub enum Page {
    Menu { title: String, header: Vec<Vec<Span>>, list: Listing, footer: String },
    Popup(Panel),
    Peers { list: Listing, footer: String },
    Chat { list: Listing, title: String, input: String },
}

/// What the terminal shows, as a value.
#[allow(inconsistent_fields)]
pub enum PageView {
    Menu {
        title: Seq<char>,
        header: Seq<Seq<SpanView>>,
        list: ListingView,
        footer: Seq<char>,
    },
    Popup(PanelView),
    Peers { list: ListingView, footer: Seq<char> },
    Chat { list: ListingView, title: Seq<char>, input: Seq<char> },
}

impl View for Page {
    type V = PageView;

    open spec fn view(&self) -> PageView {
        match self {
            Page::Menu { title, header, list, footer } => PageView::Menu {
                title: title@,
                header: rows_of(header@),
                list: list@,
                footer: footer@,
            },
            Page::Popup(panel) => PageView::Popup(panel@),
            Page::Peers { list, footer } => PageView::Peers { list: list@, footer: footer@ },
            Page::Chat { list, title, input } => PageView::Chat {
                list: list@,
                title: title@,
                input: input@,
            },
        }
    }
}

/// The name of a menu item.
pub open spec fn menu_label(item: int) -> Seq<char> {
    if item == 0 {
        "Connect to peer"@
    } else if item == 1 {
        "Listen for connection"@
    } else if item == 2 {
        "Manage peers"@
    } else if item == 3 {
        "Regenerate keypair"@
    } else {
        "Quit"@
    }
}

/// The name of a menu item.
pub fn menu_item(item: usize) -> (res: String)
    requires
        item < MENU_LEN,
    ensures
        res@ == menu_label(item as int),
{
    let label: &str = match item {
        0 => "Connect to peer",
        1 => "Listen for connection",
        2 => "Manage peers",
        3 => "Regenerate keypair",
        _ => "Quit",
    };
    label.to_string()
}

/// The tone of an item of a list.
pub open spec fn item_tone(item: int, selected: usize) -> Tone {
    if item == selected {
        Tone::Selected
    } else {
        Tone::Plain
    }
}

/// What is shown of a menu item: its number, counted from one, and its name.
pub open spec fn menu_row(item: int, selected: usize) -> SpanView {
    SpanView {
        text: "  "@ + text::decimal((item + 1) as nat) + ". "@ + menu_label(item),
        tone: item_tone(item, selected),
    }
}

/// The rows above the menu.
pub open spec fn menu_header(my_fingerprint: Seq<char>) -> Seq<Seq<SpanView>> {
    seq![
        one("DirectMessages"@, Tone::Title),
        two("my fingerprint: "@, Tone::Dim, my_fingerprint, Tone::Caution),
    ]
}

/// The menu.
pub open spec fn menu_page(my_fingerprint: Seq<char>, selected: usize) -> PageView {
    PageView::Menu {
        title: " DirectMessages "@,
        header: menu_header(my_fingerprint),
        list: ListingView {
            title: " Menu "@,
            items: Seq::new(MENU_LEN as nat, |i: int| menu_row(i, selected)),
        },
        footer:
            "\u{2191}/\u{2193} select \u{b7} Enter choose \u{b7} 1-5 shortcut \u{b7} q/Esc quit"@,
    }
}

/// Shows the menu.
fn draw_menu(my_fingerprint: &str, selected: usize) -> (res: Page)
    ensures
        res@ == menu_page(my_fingerprint@, selected),
{
    let mut header = no_rows();
    add_one(&mut header, "DirectMessages", Tone::Title);
    add_two(&mut header, "my fingerprint: ", Tone::Dim, my_fingerprint, Tone::Caution);
    assert(rows_of(header@) =~= menu_header(my_fingerprint@));
    let mut items: Vec<Span> = Vec::new();
    let mut i: usize = 0;
    while i < MENU_LEN
        invariant
            i <= MENU_LEN,
            row_of(items@) == Seq::new(i as nat, |j: int| menu_row(j, selected)),
        decreases MENU_LEN - i,
    {
        let number = text::decimal_text(i as u64 + 1);
        let label = menu_item(i);
        let start = text::join("  ", number.as_str());
        let start = text::join(start.as_str(), ". ");
        let tone = if i == selected {
            Tone::Selected
        } else {
            Tone::Plain
        };
        let ghost before = items@;
        items.push(Span { text: text::join(start.as_str(), label.as_str()), tone });
        assert(row_of(items@) =~= row_of(before).push(menu_row(i as int, selected)));
        assert(row_of(items@) =~= Seq::new((i + 1) as nat, |j: int| menu_row(j, selected)));
        i = i + 1;
    }
    let footer =
        "\u{2191}/\u{2193} select \u{b7} Enter choose \u{b7} 1-5 shortcut \u{b7} q/Esc quit";
    Page::Menu {
        title: " DirectMessages ".to_string(),
        header,
        list: Listing { title: " Menu ".to_string(), items },
        footer: footer.to_string(),
    }
}

/// The rows of the connect form.
pub open spec fn connect_rows(focus: ConnectFocus, host: Seq<char>, port: Seq<char>) -> Seq<
    Seq<SpanView>,
> {
    seq![
        one("Connect to a peer"@, Tone::Bold),
        blank(),
        field_row("host"@, host, focus == ConnectFocus::Host),
        field_row("port"@, port, focus == ConnectFocus::Port),
        blank(),
        one(
            "Tab/\u{2191}/\u{2193} switch field \u{b7} Enter connect \u{b7} Esc back"@,
            Tone::Dim,
        ),
    ]
}

/// The connect form.
pub open spec fn connect_page(
    focus: ConnectFocus,
    host: Seq<char>,
    port: Seq<char>,
    error: Option<Seq<char>>,
) -> PageView {
    PageView::Popup(
        PanelView {
            title: " Connect "@,
            alarm: false,
            percent_x: 60,
            percent_y: 60,
            centred: false,
            wrapping: Wrapping::Cut,
            body: BodyView::Rows(with_error(connect_rows(focus, host, port), error)),
        },
    )
}

/// Shows the connect form.
fn draw_connect(focus: ConnectFocus, host: &str, port: &str, error: &Option<String>) -> (res: Page)
    ensures
        res@ == connect_page(focus, host@, port@, screens::opt(*error)),
{
    let mut rows = no_rows();
    add_one(&mut rows, "Connect to a peer", Tone::Bold);
    add_blank(&mut rows);
    field_line(&mut rows, "host", host, focus == ConnectFocus::Host);
    field_line(&mut rows, "port", port, focus == ConnectFocus::Port);
    add_blank(&mut rows);
    add_one(
        &mut rows,
        "Tab/\u{2191}/\u{2193} switch field \u{b7} Enter connect \u{b7} Esc back",
        Tone::Dim,
    );
    assert(rows_of(rows@) =~= connect_rows(focus, host@, port@));
    add_error(&mut rows, error);
    Page::Popup(
        Panel {
            title: " Connect ".to_string(),
            alarm: false,
            percent_x: 60,
            percent_y: 60,
            centred: false,
            wrapping: Wrapping::Cut,
            body: Body::Rows(rows),
        },
    )
}

/// What is being waited for, and the way out.
pub open spec fn status_rows(status: Seq<char>) -> Seq<Seq<SpanView>> {
    seq![one(status, Tone::Plain), blank(), one("Esc cancel"@, Tone::Dim)]
}

/// What is shown while something is being waited for.
pub open spec fn status_page(title: Seq<char>, status: Seq<char>) -> PageView {
    PageView::Popup(
        PanelView {
            title: " "@ + title + " "@,
            alarm: false,
            percent_x: 60,
            percent_y: 40,
            centred: true,
            wrapping: Wrapping::Cut,
            body: BodyView::Rows(status_rows(status)),
        },
    )
}

/// Shows what is being waited for.
fn draw_status(title: &str, status: &str) -> (res: Page)
    ensures
        res@ == status_page(title@, status@),
{
    let mut rows = no_rows();
    add_one(&mut rows, status, Tone::Plain);
    add_blank(&mut rows);
    add_one(&mut rows, "Esc cancel", Tone::Dim);
    assert(rows_of(rows@) =~= status_rows(status@));
    let start = text::join(" ", title);
    Page::Popup(
        Panel {
            title: text::join(start.as_str(), " "),
            alarm: false,
            percent_x: 60,
            percent_y: 40,
            centred: true,
            wrapping: Wrapping::Cut,
            body: Body::Rows(rows),
        },
    )
}

/// The rows of the listen form: the status once a port is bound, and before
/// that the field for the port.
pub open spec fn listen_rows(
    port: Seq<char>,
    listening: bool,
    status: Option<Seq<char>>,
    error: Option<Seq<char>>,
) -> Seq<Seq<SpanView>> {
    let start = seq![one("Listen for a connection"@, Tone::Bold), blank()];
    if listening {
        let told = match status {
            Some(s) => start.push(one(s, Tone::Good)),
            None => start,
        };
        told.push(blank()).push(one("Esc cancel"@, Tone::Dim))
    } else {
        with_error(
            start.push(field_row("port"@, port, true)).push(blank()).push(
                one("Enter start \u{b7} Esc back"@, Tone::Dim),
            ),
            error,
        )
    }
}

/// The listen form.
pub open spec fn listen_page(
    port: Seq<char>,
    listening: bool,
    status: Option<Seq<char>>,
    error: Option<Seq<char>>,
) -> PageView {
    PageView::Popup(
        PanelView {
            title: " Listen "@,
            alarm: false,
            percent_x: 60,
            percent_y: 60,
            centred: false,
            wrapping: Wrapping::Cut,
            body: BodyView::Rows(listen_rows(port, listening, status, error)),
        },
    )
}

/// Shows the listen form.
fn draw_listen(
    port: &str,
    listening: bool,
    status: &Option<String>,
    error: &Option<String>,
) -> (res: Page)
    ensures
        res@ == listen_page(port@, listening, screens::opt(*status), screens::opt(*error)),
{
    let mut rows = no_rows();
    add_one(&mut rows, "Listen for a connection", Tone::Bold);
    add_blank(&mut rows);
    assert(rows_of(rows@) =~= seq![one("Listen for a connection"@, Tone::Bold), blank()]);
    if listening {
        match status {
            Some(s) => add_one(&mut rows, s.as_str(), Tone::Good),
            None => {},
        }
        add_blank(&mut rows);
        add_one(&mut rows, "Esc cancel", Tone::Dim);
    } else {
        field_line(&mut rows, "port", port, true);
        add_blank(&mut rows);
        add_one(&mut rows, "Enter start \u{b7} Esc back", Tone::Dim);
        add_error(&mut rows, error);
    }
    Page::Popup(
        Panel {
            title: " Listen ".to_string(),
            alarm: false,
            percent_x: 60,
            percent_y: 60,
            centred: false,
            wrapping: Wrapping::Cut,
            body: Body::Rows(rows),
        },
    )
}

/// What is shown of a trusted peer: its address and the start of its
/// fingerprint.
pub open spec fn peer_row(peer: (Seq<char>, Seq<char>), item: int, selected: usize) -> SpanView {
    SpanView {
        text: "  "@ + padded(peer.0, 32) + "  "@ + transitions::short(peer.1),
        tone: item_tone(item, selected),
    }
}

/// The items of the list of peers.
pub open spec fn peer_rows(peers: Seq<(Seq<char>, Seq<char>)>, selected: usize) -> Seq<SpanView> {
    if peers.len() == 0 {
        one("  (no trusted peers yet \u{2014} press 'a' to add)"@, Tone::Plain)
    } else {
        Seq::new(peers.len(), |i: int| peer_row(peers[i], i, selected))
    }
}

/// The list of peers.
pub open spec fn peers_page(peers: Seq<(Seq<char>, Seq<char>)>, selected: usize) -> PageView {
    PageView::Peers {
        list: ListingView { title: " Trusted peers "@, items: peer_rows(peers, selected) },
        footer: "\u{2191}/\u{2193} select \u{b7} a add \u{b7} r remove \u{b7} Esc back"@,
    }
}

/// Shows the list of peers.
fn draw_peers(peers: &Vec<(String, String)>, selected: usize) -> (res: Page)
    requires
        forall|i: int| 0 <= i < peers@.len() ==> app::can_shorten((#[trigger] peers@[i]).1@),
    ensures
        res@ == peers_page(screens::pairs_of(peers@), selected),
{
    let ghost pairs = screens::pairs_of(peers@);
    let mut items: Vec<Span> = Vec::new();
    if peers.len() == 0 {
        items.push(span("  (no trusted peers yet \u{2014} press 'a' to add)", Tone::Plain));
        assert(row_of(items@) =~= peer_rows(pairs, selected));
    } else {
        let mut i: usize = 0;
        while i < peers.len()
            invariant
                i <= peers@.len(),
                pairs == screens::pairs_of(peers@),
                forall|j: int|
                    0 <= j < peers@.len() ==> app::can_shorten((#[trigger] peers@[j]).1@),
                row_of(items@) == Seq::new(i as nat, |j: int| peer_row(pairs[j], j, selected)),
            decreases peers@.len() - i,
        {
            let address = pad(peers[i].0.as_str(), 32);
            let shown = app::short_fp(peers[i].1.as_str());
            let start = text::join("  ", address.as_str());
            let start = text::join(start.as_str(), "  ");
            let tone = if i == selected {
                Tone::Selected
            } else {
                Tone::Plain
            };
            let ghost before = items@;
            items.push(Span { text: text::join(start.as_str(), shown.as_str()), tone });
            assert(row_of(items@) =~= row_of(before).push(
                peer_row(pairs[i as int], i as int, selected),
            ));
            assert(row_of(items@) =~= Seq::new(
                (i + 1) as nat,
                |j: int| peer_row(pairs[j], j, selected),
            ));
            i = i + 1;
        }
        assert(row_of(items@) =~= peer_rows(pairs, selected));
    }
    let footer = "\u{2191}/\u{2193} select \u{b7} a add \u{b7} r remove \u{b7} Esc back";
    Page::Peers {
        list: Listing { title: " Trusted peers ".to_string(), items },
        footer: footer.to_string(),
    }
}

/// The rows of the add-peer form.
pub open spec fn add_peer_rows(
    focus: AddPeerFocus,
    address: Seq<char>,
    fingerprint: Seq<char>,
) -> Seq<Seq<SpanView>> {
    seq![
        one("Add a trusted peer"@, Tone::Bold),
        blank(),
        two(
            "  address:    "@,
            Tone::Accent,
            field_text(address, focus == AddPeerFocus::Address),
            Tone::Plain,
        ),
        two(
            "  fingerprint:"@,
            Tone::Accent,
            field_text(fingerprint, focus == AddPeerFocus::Fingerprint),
            Tone::Plain,
        ),
        blank(),
        one(
            "Tab/\u{2191}/\u{2193} switch field \u{b7} Enter save \u{b7} Esc back"@,
            Tone::Dim,
        ),
    ]
}

/// The add-peer form.
pub open spec fn add_peer_page(
    focus: AddPeerFocus,
    address: Seq<char>,
    fingerprint: Seq<char>,
    error: Option<Seq<char>>,
) -> PageView {
    PageView::Popup(
        PanelView {
            title: " Add peer "@,
            alarm: false,
            percent_x: 70,
            percent_y: 70,
            centred: false,
            wrapping: Wrapping::Cut,
            body: BodyView::Rows(with_error(add_peer_rows(focus, address, fingerprint), error)),
        },
    )
}

/// Shows the add-peer form.
fn draw_add_peer(
    focus: AddPeerFocus,
    address: &str,
    fingerprint: &str,
    error: &Option<String>,
) -> (res: Page)
    ensures
        res@ == add_peer_page(focus, address@, fingerprint@, screens::opt(*error)),
{
    let shown_address = field_display(address, focus == AddPeerFocus::Address);
    let shown_fingerprint = field_display(fingerprint, focus == AddPeerFocus::Fingerprint);
    let mut rows = no_rows();
    add_one(&mut rows, "Add a trusted peer", Tone::Bold);
    add_blank(&mut rows);
    add_two(&mut rows, "  address:    ", Tone::Accent, shown_address.as_str(), Tone::Plain);
    add_two(
        &mut rows,
        "  fingerprint:",
        Tone::Accent,
        shown_fingerprint.as_str(),
        Tone::Plain,
    );
    add_blank(&mut rows);
    add_one(
        &mut rows,
        "Tab/\u{2191}/\u{2193} switch field \u{b7} Enter save \u{b7} Esc back",
        Tone::Dim,
    );
    assert(rows_of(rows@) =~= add_peer_rows(focus, address@, fingerprint@));
    add_error(&mut rows, error);
    Page::Popup(
        Panel {
            title: " Add peer ".to_string(),
            alarm: false,
            percent_x: 70,
            percent_y: 70,
            centred: false,
            wrapping: Wrapping::Cut,
            body: Body::Rows(rows),
        },
    )
}

/// A notice.
pub open spec fn notice_page(text: Seq<char>) -> PageView {
    PageView::Popup(
        PanelView {
            title: " Notice "@,
            alarm: true,
            percent_x: 70,
            percent_y: 50,
            centred: false,
            wrapping: Wrapping::Trimmed,
            body: BodyView::Text(text + "\n\n(press any key to continue)"@),
        },
    )
}

/// Shows a notice.
fn draw_notice(text: &str) -> (res: Page)
    ensures
        res@ == notice_page(text@),
{
    Page::Popup(
        Panel {
            title: " Notice ".to_string(),
            alarm: true,
            percent_x: 70,
            percent_y: 50,
            centred: false,
            wrapping: Wrapping::Trimmed,
            body: Body::Text(text::join(text, "\n\n(press any key to continue)")),
        },
    )
}

/// The rows of the warning that a fingerprint has changed.
pub open spec fn mismatch_rows(
    peer_id: Seq<char>,
    expected_short: Seq<char>,
    got_short: Seq<char>,
) -> Seq<Seq<SpanView>> {
    seq![
        one("SECURITY WARNING"@, Tone::Warning),
        blank(),
        one(
            "The fingerprint of peer "@ + peer_id + " changed since the"@,
            Tone::Plain,
        ),
        one("last connection. Either the peer regenerated its"@, Tone::Plain),
        one("keypair, or someone is intercepting the connection"@, Tone::Plain),
        one("(man-in-the-middle)."@, Tone::Plain),
        blank(),
        two("  expected: "@, Tone::Dim, expected_short, Tone::Alarm),
        two("  got:      "@, Tone::Dim, got_short, Tone::Caution),
        blank(),
        one("Verify the new fingerprint with the peer over a"@, Tone::Plain),
        one("different channel (in person, by phone, ...)."@, Tone::Plain),
        blank(),
        one(
            "U trust the new key and continue \u{b7} any other key abort"@,
            Tone::Title,
        ),
    ]
}

/// The warning that a fingerprint has changed.
pub open spec fn mismatch_page(
    peer_id: Seq<char>,
    expected_short: Seq<char>,
    got_short: Seq<char>,
) -> PageView {
    PageView::Popup(
        PanelView {
            title: " Fingerprint mismatch "@,
            alarm: true,
            percent_x: 70,
            percent_y: 70,
            centred: false,
            wrapping: Wrapping::Kept,
            body: BodyView::Rows(mismatch_rows(peer_id, expected_short, got_short)),
        },
    )
}

/// Shows the warning that a fingerprint has changed.
fn draw_mismatch(peer_id: &str, expected_short: &str, got_short: &str) -> (res: Page)
    ensures
        res@ == mismatch_page(peer_id@, expected_short@, got_short@),
{
    let start = text::join("The fingerprint of peer ", peer_id);
    let changed = text::join(start.as_str(), " changed since the");
    let mut rows = no_rows();
    add_one(&mut rows, "SECURITY WARNING", Tone::Warning);
    add_blank(&mut rows);
    add_one(&mut rows, changed.as_str(), Tone::Plain);
    add_one(&mut rows, "last connection. Either the peer regenerated its", Tone::Plain);
    add_one(&mut rows, "keypair, or someone is intercepting the connection", Tone::Plain);
    add_one(&mut rows, "(man-in-the-middle).", Tone::Plain);
    add_blank(&mut rows);
    add_two(&mut rows, "  expected: ", Tone::Dim, expected_short, Tone::Alarm);
    add_two(&mut rows, "  got:      ", Tone::Dim, got_short, Tone::Caution);
    add_blank(&mut rows);
    add_one(&mut rows, "Verify the new fingerprint with the peer over a", Tone::Plain);
    add_one(&mut rows, "different channel (in person, by phone, ...).", Tone::Plain);
    add_blank(&mut rows);
    add_one(
        &mut rows,
        "U trust the new key and continue \u{b7} any other key abort",
        Tone::Title,
    );
    assert(rows_of(rows@) =~= mismatch_rows(peer_id@, expected_short@, got_short@));
    Page::Popup(
        Panel {
            title: " Fingerprint mismatch ".to_string(),
            alarm: true,
            percent_x: 70,
            percent_y: 70,
            centred: false,
            wrapping: Wrapping::Kept,
            body: Body::Rows(rows),
        },
    )
}

/// Where the lines of a history that are shown begin and end: as many as fit,
/// and the last of them as far from the end as was scrolled.
pub open spec fn window(total: int, scroll: int, visible: int) -> (int, int) {
    let end = if scroll < total {
        total - scroll
    } else {
        0
    };
    let start = if visible < end {
        end - visible
    } else {
        0
    };
    (start, end)
}

/// What is shown of a line of the history.
pub open spec fn chat_row(line: Line) -> SpanView {
    match line {
        Line::Me(t) => SpanView { text: "  [me]   "@ + t, tone: Tone::Good },
        Line::Peer(t) => SpanView { text: "  [peer] "@ + t, tone: Tone::Accent },
        Line::System(t) => SpanView { text: "  \u{b7} "@ + t, tone: Tone::Dim },
    }
}

/// What is shown of a history.
pub open spec fn chat_rows(history: Seq<Line>, scroll: int, visible: int) -> Seq<SpanView> {
    let (start, end) = window(history.len() as int, scroll, visible);
    Seq::new((end - start) as nat, |i: int| chat_row(history[start + i]))
}

/// Shows a line of the history.
fn chat_line(line: &ChatLine) -> (res: Span)
    ensures
        res@ == chat_row(line@),
{
    match line {
        ChatLine::Me(t) => Span { text: text::join("  [me]   ", t.as_str()), tone: Tone::Good },
        ChatLine::Peer(t) => Span { text: text::join("  [peer] ", t.as_str()), tone: Tone::Accent },
        ChatLine::System(t) => Span { text: text::join("  \u{b7} ", t.as_str()), tone: Tone::Dim },
    }
}

/// Shows as many lines of a chat's history as fit.
pub fn chat_lines(session: &ChatSession, visible: usize) -> (res: Vec<Span>)
    ensures
        row_of(res@) == chat_rows(session@.history, session.scroll as int, visible as int),
{
    let total: usize = session.history.len();
    let scroll: usize = if session.scroll < total {
        session.scroll
    } else {
        total
    };
    let end: usize = total - scroll;
    let start: usize = end.saturating_sub(visible);
    let mut res: Vec<Span> = Vec::new();
    let mut i: usize = start;
    while i < end
        invariant
            start <= i <= end,
            end <= session.history@.len(),
            row_of(res@) == Seq::new(
                (i - start) as nat,
                |j: int| chat_row(session@.history[start + j]),
            ),
        decreases end - i,
    {
        let ghost before = res@;
        res.push(chat_line(&session.history[i]));
        assert(row_of(res@) =~= row_of(before).push(chat_row(session@.history[i as int])));
        assert(row_of(res@) =~= Seq::new(
            (i + 1 - start) as nat,
            |j: int| chat_row(session@.history[start + j]),
        ));
        i = i + 1;
    }
    assert(row_of(res@) =~= chat_rows(session@.history, session.scroll as int, visible as int));
    res
}

/// A chat, in a pane of the given height, border included.
pub open spec fn chat_page(chat: Chat, height: u16) -> PageView {
    let visible = if height < 2 {
        0
    } else {
        height - 2
    };
    PageView::Chat {
        list: ListingView {
            title: " Chat with "@ + chat.peer_short_fp + if chat.ended {
                " \u{2014} disconnected (Esc to leave) "@
            } else {
                " "@
            },
            items: chat_rows(chat.history, chat.scroll as int, visible),
        },
        title: " Message "@,
        input: "> "@ + field_text(chat.input, !chat.ended),
    }
}

/// Shows a chat.
fn draw_chat(session: &ChatSession, height: u16) -> (res: Page)
    ensures
        res@ == chat_page(session@, height),
{
    let visible: usize = height.saturating_sub(2) as usize;
    let items = chat_lines(session, visible);
    let start = text::join(" Chat with ", session.peer_short_fp.as_str());
    let rest: &str = if session.ended {
        " \u{2014} disconnected (Esc to leave) "
    } else {
        " "
    };
    let shown = field_display(session.input.as_str(), !session.ended);
    Page::Chat {
        list: Listing { title: text::join(start.as_str(), rest), items },
        title: " Message ".to_string(),
        input: text::join("> ", shown.as_str()),
    }
}

/// What is shown of the application, where the upper pane of a chat has the
/// given height.
pub open spec fn page_of(app: AppView, height: u16) -> PageView {
    match app.screen {
        ScreenView::Menu { selected } => menu_page(app.my_fingerprint, selected),
        ScreenView::Connect { host, port, focus, error } => connect_page(focus, host, port, error),
        ScreenView::Connecting { status } => status_page("Connecting"@, status),
        ScreenView::Listen { port, listening, status, error } => listen_page(
            port,
            listening,
            status,
            error,
        ),
        ScreenView::Peers { peers, selected } => peers_page(peers, selected),
        ScreenView::AddPeer { address, fingerprint, focus, error } => add_peer_page(
            focus,
            address,
            fingerprint,
            error,
        ),
        ScreenView::Notice { text } => notice_page(text),
        ScreenView::Mismatch { peer_id, expected_short, got_short, .. } => mismatch_page(
            peer_id,
            expected_short,
            got_short,
        ),
        ScreenView::Chat(chat) => chat_page(chat, height),
    }
}

/// Shows the application.
pub fn draw(app: &App, height: u16) -> (res: Page)
    requires
        app@.screen matches ScreenView::Peers { peers, .. } ==> forall|i: int|
            0 <= i < peers.len() ==> app::can_shorten((#[trigger] peers[i]).1),
    ensures
        res@ == page_of(app@, height),
{
    match &app.screen {
        Screen::Menu { selected } => draw_menu(app.my_fingerprint.as_str(), *selected),
        Screen::Connect { host, port, focus, error } => draw_connect(
            *focus,
            host.as_str(),
            port.as_str(),
            error,
        ),
        Screen::Connecting { status } => draw_status("Connecting", status.as_str()),
        Screen::Listen { port, listening, status, error } => draw_listen(
            port.as_str(),
            *listening,
            status,
            error,
        ),
        Screen::Peers { peers, selected } => {
            assert forall|i: int| 0 <= i < peers@.len() implies app::can_shorten(
                (#[trigger] peers@[i]).1@,
            ) by {
                assert(screens::pairs_of(peers@)[i].1 == peers@[i].1@);
            }
            draw_peers(peers, *selected)
        },
        Screen::AddPeer { address, fingerprint, focus, error } => draw_add_peer(
            *focus,
            address.as_str(),
            fingerprint.as_str(),
            error,
        ),
        Screen::Notice { text } => draw_notice(text.as_str()),
        Screen::Mismatch { peer_id, expected_short, got_short, .. } => draw_mismatch(
            peer_id.as_str(),
            expected_short.as_str(),
            got_short.as_str(),
        ),
        Screen::Chat(session) => draw_chat(session, height),
    }
}

/// How a width or a height is split to put a panel in its middle, in percent:
/// the margin before it, the panel, and the margin after it.
pub fn centered(percent: u16) -> (res: (u16, u16, u16))
    requires
        percent <= 100,
    ensures
        res.0 == (100 - percent) / 2,
        res.1 == percent,
        res.2 == res.0,
{
    let margin: u16 = (100 - percent) / 2;
    (margin, percent, margin)
}

/// What is shown of a history is a part of it, no longer than what fits, and
/// as long as that where enough lines stand above the place scrolled to.
pub proof fn window_is_in_range(total: int, scroll: int, visible: int)
    requires
        0 <= total,
        0 <= scroll,
        0 <= visible,
    ensures
        ({
            let (start, end) = window(total, scroll, visible);
            &&& 0 <= start <= end <= total
            &&& end - start <= visible
            &&& scroll + visible <= total ==> end - start == visible
        }),
{
}

/// Where nothing was scrolled, the latest lines are shown.
pub proof fn latest_lines_are_shown(history: Seq<Line>, visible: int)
    requires
        0 <= visible,
    ensures
        ({
            let n = if visible < history.len() {
                visible
            } else {
                history.len() as int
            };
            chat_rows(history, 0, visible) == Seq::new(
                n as nat,
                |i: int| chat_row(history[history.len() - n + i]),
            )
        }),
{
    let n = if visible < history.len() {
        visible
    } else {
        history.len() as int
    };
    assert(chat_rows(history, 0, visible) =~= Seq::new(
        n as nat,
        |i: int| chat_row(history[history.len() - n + i]),
    ));
}

/// A panel and its margins never take more than the whole.
pub proof fn centered_panel_fits(percent: u16)
    requires
        percent <= 100,
    ensures
        2 * ((100 - percent) / 2) + percent <= 100,
{
}

} // verus!
