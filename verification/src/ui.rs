//! What each screen shows: the texts, which rows of a list are visible,
//! which row is highlighted, and where the dialog sits. The terminal side
//! only draws what these functions describe.
use vstd::prelude::*;
use crate::app::{Screen, ScreenModel};
use crate::db::{Work, WorkModel, works_view, circles_view};
use crate::text::{decimal, owned, push_decimal, push_str};
use vstd::string::StringSliceAdditionalSpecFns;
use ratatui::layout::{Constraint, Direction, Layout};

verus! {

/// A rectangle of terminal cells.
#[derive(Clone, Copy, Debug, PartialEq, Eq)]
pub struct Rect {
    pub x: u16,
    pub y: u16,
    pub width: u16,
    pub height: u16,
}

/// The lowest row an area reaches, as `ratatui` counts it: its bottom edge,
/// held at the largest cell coordinate.
pub open spec fn area_bottom(area: Rect) -> int {
    if area.y + area.height <= u16::MAX {
        area.y + area.height
    } else {
        u16::MAX as int
    }
}

/// Three bands of an area, top to bottom: each as wide as the area, none
/// above its top or below its bottom, and none overlapping the next.
pub open spec fn bands_in_order(area: Rect, r: (Rect, Rect, Rect)) -> bool {
    &&& r.0.x == area.x && r.0.width == area.width
    &&& r.1.x == area.x && r.1.width == area.width
    &&& r.2.x == area.x && r.2.width == area.width
    &&& area.y <= r.0.y
    &&& r.0.y + r.0.height <= r.1.y
    &&& r.1.y + r.1.height <= r.2.y
    &&& r.2.y + r.2.height <= area_bottom(area)
}

/// A band `top` rows high at the top of the area, one `bottom` rows high at
/// its bottom, and the rows between them.
pub open spec fn exact_bands(area: Rect, top: u16, bottom: u16) -> (Rect, Rect, Rect) {
    (
        Rect { x: area.x, y: area.y, width: area.width, height: top },
        Rect {
            x: area.x,
            y: (area.y + top) as u16,
            width: area.width,
            height: (area.height - top - bottom) as u16,
        },
        Rect {
            x: area.x,
            y: (area.y + area.height - bottom) as u16,
            width: area.width,
            height: bottom,
        },
    )
}

/// `ratatui::layout::Layout::split` with a vertical direction and the
/// constraints `Length(top)`, `Min(0)`, `Length(bottom)`; the three areas
/// are taken as plain rectangles. Every variable of the solver is held
/// (required) inside the area and in order, and each band takes the area's
/// column and width, so the bands lie in the area top to bottom. Where the
/// area has room for both fixed bands, the layout that meets every
/// constraint is the one optimum, and it is returned. Where it has not,
/// which of the equally good layouts the solver settles on is not stated.
#[verifier::external_body]
fn split_bands(area: Rect, top: u16, bottom: u16) -> (r: (Rect, Rect, Rect))
    ensures
        bands_in_order(area, r),
        area.height >= top + bottom && area.y + area.height <= u16::MAX ==> r == exact_bands(
            area,
            top,
            bottom,
        ),
{
    let chunks = Layout::default().direction(Direction::Vertical).constraints(
        [Constraint::Length(top), Constraint::Min(0), Constraint::Length(bottom)],
    ).split(ratatui::layout::Rect { x: area.x, y: area.y, width: area.width, height: area.height });
    let conv = |c: ratatui::layout::Rect| Rect { x: c.x, y: c.y, width: c.width, height: c.height };
    (conv(chunks[0]), conv(chunks[1]), conv(chunks[2]))
}

/// The header, body and footer of the screen: a band of three rows at the
/// top, one of three rows at the bottom, and the body between them.
pub fn screen_areas(area: Rect) -> (r: (Rect, Rect, Rect))
    ensures
        bands_in_order(area, r),
        area.height >= 6 && area.y + area.height <= u16::MAX ==> r == exact_bands(area, 3, 3),
{
    split_bands(area, 3, 3)
}

/// The text of the header: the program name and the status line.
pub fn header_title(status: &str) -> (r: String)
    ensures
        r@ == " DLsite TUI  |  "@ + status@ + " "@,
{
    let mut r = owned(" DLsite TUI  |  ");
    push_str(&mut r, status);
    push_str(&mut r, " ");
    r
}

/// The key hints of a screen.
pub open spec fn footer_hint_spec(s: ScreenModel) -> Seq<char> {
    match s {
        ScreenModel::Login { .. } => " Tab: next field | Enter: login | Ctrl+C: quit "@,
        ScreenModel::MainMenu { .. } =>
            " ↑↓: navigate | Enter: select | f: fetch library | q: quit "@,
        ScreenModel::WorkList { .. } => " ↑↓/PgUp/PgDn: scroll | Enter: download | Esc: back "@,
        ScreenModel::CircleList { .. } => " ↑↓: scroll | Enter: select | Esc: back "@,
        ScreenModel::WorksInCircle { .. } => " ↑↓: scroll | Enter: download | Esc: back "@,
        ScreenModel::Confirm { .. } => " y/Enter: confirm | n/Esc: cancel "@,
        ScreenModel::Messages { .. } => " ↑↓: scroll | Esc/q: back "@,
    }
}

/// The key hints shown in the footer of a screen.
pub fn footer_hint(screen: &Screen) -> (r: String)
    ensures
        r@ == footer_hint_spec(screen@),
{
    match screen {
        Screen::Login { .. } => owned(" Tab: next field | Enter: login | Ctrl+C: quit "),
        Screen::MainMenu { .. } => owned(
            " ↑↓: navigate | Enter: select | f: fetch library | q: quit ",
        ),
        Screen::WorkList { .. } => owned(" ↑↓/PgUp/PgDn: scroll | Enter: download | Esc: back "),
        Screen::CircleList { .. } => owned(" ↑↓: scroll | Enter: select | Esc: back "),
        Screen::WorksInCircle { .. } => owned(" ↑↓: scroll | Enter: download | Esc: back "),
        Screen::Confirm { .. } => owned(" y/Enter: confirm | n/Esc: cancel "),
        Screen::Messages { .. } => owned(" ↑↓: scroll | Esc/q: back "),
    }
}

/// `n` stars.
pub open spec fn stars(n: nat) -> Seq<char> {
    Seq::new(n, |i: int| '*')
}

/// The password as shown: one star per byte of its UTF-8 form.
pub fn mask_password(password: &str) -> (r: String)
    ensures
        r@ == stars(password.spec_bytes().len()),
{
    let n = password.as_bytes().len();
    let mut r = String::new();
    let mut i: usize = 0;
    while i < n
        invariant
            i <= n,
            r@ == stars(i as nat),
        decreases n - i,
    {
        r.push('*');
        assert(r@ =~= stars((i + 1) as nat));
        i = i + 1;
    }
    assert(r@ =~= stars(n as nat));
    r
}

/// The area inside the login box, two cells in from the sides and one from
/// the top and bottom.
pub fn login_inner(area: Rect) -> (r: Rect)
    requires
        area.x + 2 <= u16::MAX,
        area.y + 1 <= u16::MAX,
    ensures
        r.x == area.x + 2,
        r.y == area.y + 1,
        r.width == if area.width >= 4 { area.width - 4 } else { 0 },
        r.height == if area.height >= 2 { area.height - 2 } else { 0 },
{
    Rect {
        x: area.x + 2,
        y: area.y + 1,
        width: area.width.saturating_sub(4),
        height: area.height.saturating_sub(2),
    }
}

/// How the text of a line of the login box is drawn.
#[derive(Clone, Copy, Debug, PartialEq, Eq, Structural)]
pub enum LineStyle {
    Plain,
    Focused,
    Error,
}

/// The style of a field's text: focused when the cursor is in it.
pub open spec fn field_style(focused: bool) -> LineStyle {
    if focused {
        LineStyle::Focused
    } else {
        LineStyle::Plain
    }
}

/// The lines of the login box, each a label, a text and the text's style:
/// the user name, a blank line, the masked password and, when the last
/// attempt failed, a blank line and its error.
pub open spec fn login_lines(
    username: Seq<char>,
    masked: Seq<char>,
    focused_field: usize,
    error: Option<Seq<char>>,
) -> Seq<(Seq<char>, Seq<char>, LineStyle)> {
    let fields = seq![
        ("Username: "@, username, field_style(focused_field == 0)),
        (Seq::<char>::empty(), Seq::<char>::empty(), LineStyle::Plain),
        ("Password: "@, masked, field_style(focused_field == 1)),
    ];
    match error {
        Some(e) => fields + seq![
            (Seq::<char>::empty(), Seq::<char>::empty(), LineStyle::Plain),
            (Seq::<char>::empty(), e, LineStyle::Error),
        ],
        None => fields,
    }
}

/// The lines taken as plain values.
pub open spec fn lines_view(r: Seq<(String, String, LineStyle)>) -> Seq<
    (Seq<char>, Seq<char>, LineStyle),
> {
    r.map_values(|l: (String, String, LineStyle)| (l.0@, l.1@, l.2))
}

/// The lines of the login box for the fields typed so far.
pub fn login_rows(username: &str, password: &str, focused_field: usize, error: Option<&str>) -> (r:
    Vec<(String, String, LineStyle)>)
    ensures
        lines_view(r@) == login_lines(
            username@,
            stars(password.spec_bytes().len()),
            focused_field,
            match error {
                Some(e) => Some(e@),
                None => None,
            },
        ),
{
    let user_style = if focused_field == 0 { LineStyle::Focused } else { LineStyle::Plain };
    let pass_style = if focused_field == 1 { LineStyle::Focused } else { LineStyle::Plain };
    let mut r: Vec<(String, String, LineStyle)> = Vec::new();
    r.push((owned("Username: "), owned(username), user_style));
    r.push((String::new(), String::new(), LineStyle::Plain));
    r.push((owned("Password: "), mask_password(password), pass_style));
    match error {
        Some(e) => {
            r.push((String::new(), String::new(), LineStyle::Plain));
            r.push((String::new(), owned(e), LineStyle::Error));
        },
        None => {},
    }
    assert(lines_view(r@) =~= login_lines(
        username@,
        stars(password.spec_bytes().len()),
        focused_field,
        match error {
            Some(e) => Some(e@),
            None => None,
        },
    ));
    r
}

/// The entries of the main menu.
pub open spec fn menu_items() -> Seq<Seq<char>> {
    seq![
        "1. Browse by ID"@,
        "2. Browse by Circle"@,
        "3. Browse by Recent Purchase"@,
        "4. Download All"@,
    ]
}

/// The entries of the main menu, each with whether it is highlighted.
pub fn menu_rows(selected: usize) -> (r: Vec<(String, bool)>)
    ensures
        r@.len() == 4,
        forall|i: int| 0 <= i < 4 ==> r@[i].0@ == menu_items()[i] && r@[i].1 == (i == selected),
{
    let mut r: Vec<(String, bool)> = Vec::new();
    r.push((owned("1. Browse by ID"), selected == 0));
    r.push((owned("2. Browse by Circle"), selected == 1));
    r.push((owned("3. Browse by Recent Purchase"), selected == 2));
    r.push((owned("4. Download All"), selected == 3));
    r
}

/// The number of list rows that fit in an area: its height less the border.
pub fn list_height(area: Rect) -> (h: usize)
    ensures
        h == if area.height >= 2 { area.height - 2 } else { 0 },
{
    area.height.saturating_sub(2) as usize
}

/// What a list shows: its title, its visible rows, and the index among them
/// of the highlighted row, if the selection is not above the view.
pub struct ListView {
    pub title: String,
    pub rows: Vec<String>,
    pub highlighted: Option<usize>,
}

/// The rows `scroll_offset .. min(scroll_offset + height, len)` of a list.
pub open spec fn visible_end(len: nat, scroll_offset: usize, height: usize) -> int {
    if scroll_offset + height <= len {
        scroll_offset + height
    } else {
        len as int
    }
}

/// The highlighted row among the visible ones.
pub open spec fn highlight(selected: usize, scroll_offset: usize) -> Option<usize> {
    if selected >= scroll_offset {
        Some((selected - scroll_offset) as usize)
    } else {
        None
    }
}

/// `[id] name (circle)`
pub open spec fn work_row(w: WorkModel) -> Seq<char> {
    "["@ + w.id + "] "@ + w.name + " ("@ + w.circle + ")"@
}

/// `[id] name`
pub open spec fn circle_work_row(w: WorkModel) -> Seq<char> {
    "["@ + w.id + "] "@ + w.name
}

/// `name (count works)`
pub open spec fn circle_row(c: (Seq<char>, usize)) -> Seq<char> {
    c.0 + " ("@ + decimal(c.1 as nat) + " works)"@
}

/// The visible rows, formatted by `row`.
pub open spec fn rows_of<T>(items: Seq<T>, scroll_offset: usize, height: usize, row: spec_fn(T) -> Seq<char>) -> Seq<Seq<char>> {
    items.subrange(scroll_offset as int, visible_end(items.len(), scroll_offset, height)).map_values(row)
}

/// The values of a list of strings.
pub open spec fn view_rows(rows: Seq<String>) -> Seq<Seq<char>> {
    rows.map_values(|r: String| r@)
}

/// The end of the visible part of a list.
fn visible_end_exec(len: usize, scroll_offset: usize, height: usize) -> (e: usize)
    requires
        scroll_offset <= len,
    ensures
        e == visible_end(len as nat, scroll_offset, height),
{
    if height <= len - scroll_offset {
        scroll_offset + height
    } else {
        len
    }
}

fn highlight_exec(selected: usize, scroll_offset: usize) -> (r: Option<usize>)
    ensures
        r == highlight(selected, scroll_offset),
{
    if selected >= scroll_offset {
        Some(selected - scroll_offset)
    } else {
        None
    }
}

/// `a + b + c + d + e` for the row texts.
fn join5(a: &str, b: &str, c: &str, d: &str, e: &str) -> (r: String)
    ensures
        r@ == a@ + b@ + c@ + d@ + e@,
{
    let mut r = owned(a);
    push_str(&mut r, b);
    push_str(&mut r, c);
    push_str(&mut r, d);
    push_str(&mut r, e);
    r
}

/// What the list of works shows.
pub fn work_list_view(
    works: &Vec<Work>,
    selected: usize,
    scroll_offset: usize,
    height: usize,
    title: &str,
) -> (v: ListView)
    requires
        scroll_offset <= works.len(),
    ensures
        v.title@ == " "@ + title@ + " ("@ + decimal(works.len() as nat) + " works) "@,
        view_rows(v.rows@) == rows_of(works_view(works@), scroll_offset, height, |w: WorkModel| work_row(w)),
        v.highlighted == highlight(selected, scroll_offset),
{
    let end = visible_end_exec(works.len(), scroll_offset, height);
    let mut rows: Vec<String> = Vec::new();
    let mut i = scroll_offset;
    while i < end
        invariant
            scroll_offset <= i <= end <= works.len(),
            view_rows(rows@) == works_view(works@).subrange(scroll_offset as int, i as int).map_values(
                |w: WorkModel| work_row(w),
            ),
        decreases end - i,
    {
        let w = &works[i];
        let mut r = join5("[", w.id.as_str(), "] ", w.name.as_str(), " (");
        push_str(&mut r, w.circle.as_str());
        push_str(&mut r, ")");
        let ghost before = rows@;
        rows.push(r);
        assert(view_rows(rows@) =~= view_rows(before).push(r@));
        assert(works_view(works@).subrange(scroll_offset as int, i + 1).map_values(
            |w: WorkModel| work_row(w),
        ) =~= works_view(works@).subrange(scroll_offset as int, i as int).map_values(
            |w: WorkModel| work_row(w),
        ).push(work_row(works_view(works@)[i as int])));
        i = i + 1;
    }
    let mut t = owned(" ");
    push_str(&mut t, title);
    push_str(&mut t, " (");
    push_decimal(&mut t, works.len() as u64);
    push_str(&mut t, " works) ");
    ListView { title: t, rows, highlighted: highlight_exec(selected, scroll_offset) }
}

/// What the list of works of one circle shows.
pub fn circle_works_view(
    circle: &str,
    works: &Vec<Work>,
    selected: usize,
    scroll_offset: usize,
    height: usize,
) -> (v: ListView)
    requires
        scroll_offset <= works.len(),
    ensures
        v.title@ == " "@ + circle@ + " - "@ + decimal(works.len() as nat) + " works "@,
        view_rows(v.rows@) == rows_of(works_view(works@), scroll_offset, height, |w: WorkModel| circle_work_row(w)),
        v.highlighted == highlight(selected, scroll_offset),
{
    let end = visible_end_exec(works.len(), scroll_offset, height);
    let mut rows: Vec<String> = Vec::new();
    let mut i = scroll_offset;
    while i < end
        invariant
            scroll_offset <= i <= end <= works.len(),
            view_rows(rows@) == works_view(works@).subrange(scroll_offset as int, i as int).map_values(
                |w: WorkModel| circle_work_row(w),
            ),
        decreases end - i,
    {
        let w = &works[i];
        let mut r = owned("[");
        push_str(&mut r, w.id.as_str());
        push_str(&mut r, "] ");
        push_str(&mut r, w.name.as_str());
        let ghost before = rows@;
        rows.push(r);
        assert(view_rows(rows@) =~= view_rows(before).push(r@));
        assert(works_view(works@).subrange(scroll_offset as int, i + 1).map_values(
            |w: WorkModel| circle_work_row(w),
        ) =~= works_view(works@).subrange(scroll_offset as int, i as int).map_values(
            |w: WorkModel| circle_work_row(w),
        ).push(circle_work_row(works_view(works@)[i as int])));
        i = i + 1;
    }
    let mut t = owned(" ");
    push_str(&mut t, circle);
    push_str(&mut t, " - ");
    push_decimal(&mut t, works.len() as u64);
    push_str(&mut t, " works ");
    ListView { title: t, rows, highlighted: highlight_exec(selected, scroll_offset) }
}

/// What the list of circles shows.
pub fn circle_list_view(
    circles: &Vec<(String, usize)>,
    selected: usize,
    scroll_offset: usize,
    height: usize,
) -> (v: ListView)
    requires
        scroll_offset <= circles.len(),
    ensures
        v.title@ == " Circles ("@ + decimal(circles.len() as nat) + " total) "@,
        view_rows(v.rows@) == rows_of(circles_view(circles@), scroll_offset, height, |c: (Seq<char>, usize)| circle_row(c)),
        v.highlighted == highlight(selected, scroll_offset),
{
    let end = visible_end_exec(circles.len(), scroll_offset, height);
    let mut rows: Vec<String> = Vec::new();
    let mut i = scroll_offset;
    while i < end
        invariant
            scroll_offset <= i <= end <= circles.len(),
            view_rows(rows@) == circles_view(circles@).subrange(scroll_offset as int, i as int).map_values(
                |c: (Seq<char>, usize)| circle_row(c),
            ),
        decreases end - i,
    {
        let c = &circles[i];
        let mut r = owned(c.0.as_str());
        push_str(&mut r, " (");
        push_decimal(&mut r, c.1 as u64);
        push_str(&mut r, " works)");
        let ghost before = rows@;
        rows.push(r);
        assert(view_rows(rows@) =~= view_rows(before).push(r@));
        assert(circles_view(circles@).subrange(scroll_offset as int, i + 1).map_values(
            |c: (Seq<char>, usize)| circle_row(c),
        ) =~= circles_view(circles@).subrange(scroll_offset as int, i as int).map_values(
            |c: (Seq<char>, usize)| circle_row(c),
        ).push(circle_row(circles_view(circles@)[i as int])));
        i = i + 1;
    }
    let mut t = owned(" Circles (");
    push_decimal(&mut t, circles.len() as u64);
    push_str(&mut t, " total) ");
    ListView { title: t, rows, highlighted: highlight_exec(selected, scroll_offset) }
}

/// The width of the dialog box in an area `width` cells wide: at most 60,
/// and 4 narrower than the area.
pub open spec fn popup_width(width: u16) -> int {
    if width >= 64 {
        60
    } else if width >= 4 {
        width - 4
    } else {
        0
    }
}

/// The dialog box: `popup_width` wide, 7 high, centred in the area. The
/// corner is the area's corner moved by half of what is left over, which
/// must fit in a cell coordinate.
pub fn confirm_popup(area: Rect) -> (r: Rect)
    requires
        area.x + (area.width - popup_width(area.width)) / 2 <= u16::MAX,
        area.y + (if area.height >= 7 { area.height - 7 } else { 0 }) / 2 <= u16::MAX,
    ensures
        r.width == popup_width(area.width),
        r.height == 7,
        r.x == area.x + (area.width - r.width) / 2,
        r.y == area.y + (if area.height >= 7 { area.height - 7 } else { 0 }) / 2,
{
    let inner = area.width.saturating_sub(4);
    let width: u16 = if inner < 60 { inner } else { 60 };
    let height: u16 = 7;
    let x = area.x + (area.width - width) / 2;
    let y = area.y + (area.height.saturating_sub(height)) / 2;
    Rect { x, y, width, height }
}

/// The text of the dialog: the question and the two answers.
pub fn confirm_text(message: &str) -> (r: String)
    ensures
        r@ == message@ + "\n\n[y] Yes   [n] No"@,
{
    let mut r = owned(message);
    push_str(&mut r, "\n\n[y] Yes   [n] No");
    r
}

/// The message lines shown: `height` lines from `scroll_offset` on.
pub fn visible_lines(lines: &Vec<String>, scroll_offset: usize, height: usize) -> (r: Vec<String>)
    ensures
        view_rows(r@) == if scroll_offset <= lines.len() {
            view_rows(lines@).subrange(
                scroll_offset as int,
                visible_end(lines.len() as nat, scroll_offset, height),
            )
        } else {
            Seq::empty()
        },
{
    let mut r: Vec<String> = Vec::new();
    if scroll_offset > lines.len() {
        assert(view_rows(r@) =~= Seq::empty());
        return r;
    }
    let end = visible_end_exec(lines.len(), scroll_offset, height);
    let mut i = scroll_offset;
    while i < end
        invariant
            scroll_offset <= i <= end <= lines.len(),
            view_rows(r@) == view_rows(lines@).subrange(scroll_offset as int, i as int),
        decreases end - i,
    {
        let l = lines[i].clone();
        let ghost before = r@;
        r.push(l);
        assert(view_rows(r@) =~= view_rows(before).push(l@));
        assert(view_rows(lines@).subrange(scroll_offset as int, i + 1) =~= view_rows(lines@).subrange(
            scroll_offset as int,
            i as int,
        ).push(l@));
        i = i + 1;
    }
    r
}

} // verus!
