//! Main menu: the items, their accelerator keys, labels and descriptions,
//! and the highlighted item.
use vstd::prelude::*;

use crate::pith::state::AppState;
use crate::screen::view::{
    bolded, colored, foreground, key_bar_style, key_name_style, pad_right, padded, panel,
    panels_view, plain, push_char, push_panel, split_vertical, text_line, title_style,
    is_vertical_split, fills_exactly, stacked, paragraph_lines, lengths_total, min_count,
    part_top, Area, Color, Extent, Line, LineView, Panel, PanelView, Span,
    TextStyle,
};
use crate::screen::Screen;

verus! {

/// Items of the main menu, in the order they are shown.
#[derive(Debug, Clone, Copy, PartialEq, Eq, Structural)]
pub enum MainMenuItem {
    Help,
    Compose,
    MessageIndex,
    FolderList,
    AddressBook,
    Setup,
    Quit,
}

/// Number of items of the main menu.
pub const MENU_LEN: usize = 7;

/// The items of the main menu, in the order they are shown.
pub open spec fn menu_items() -> Seq<MainMenuItem> {
    seq![
        MainMenuItem::Help,
        MainMenuItem::Compose,
        MainMenuItem::MessageIndex,
        MainMenuItem::FolderList,
        MainMenuItem::AddressBook,
        MainMenuItem::Setup,
        MainMenuItem::Quit,
    ]
}

/// Accelerator key of each item.
pub open spec fn item_key(item: MainMenuItem) -> char {
    match item {
        MainMenuItem::Help => '?',
        MainMenuItem::Compose => 'C',
        MainMenuItem::MessageIndex => 'I',
        MainMenuItem::FolderList => 'L',
        MainMenuItem::AddressBook => 'A',
        MainMenuItem::Setup => 'S',
        MainMenuItem::Quit => 'Q',
    }
}

/// Label of each item.
pub open spec fn item_label(item: MainMenuItem) -> Seq<char> {
    match item {
        MainMenuItem::Help => "HELP"@,
        MainMenuItem::Compose => "COMPOSE MESSAGE"@,
        MainMenuItem::MessageIndex => "MESSAGE INDEX"@,
        MainMenuItem::FolderList => "FOLDER LIST"@,
        MainMenuItem::AddressBook => "ADDRESS BOOK"@,
        MainMenuItem::Setup => "SETUP"@,
        MainMenuItem::Quit => "QUIT"@,
    }
}

/// Description of each item.
pub open spec fn item_description(item: MainMenuItem) -> Seq<char> {
    match item {
        MainMenuItem::Help => "Get help using Alpine"@,
        MainMenuItem::Compose => "Compose and send a message"@,
        MainMenuItem::MessageIndex => "View messages in current folder"@,
        MainMenuItem::FolderList => "Select a folder to view"@,
        MainMenuItem::AddressBook => "Update address book"@,
        MainMenuItem::Setup => "Configure Alpine Options"@,
        MainMenuItem::Quit => "Leave the Alpine program"@,
    }
}

/// Screen each item leads to.
pub open spec fn item_target(item: MainMenuItem) -> Screen {
    match item {
        MainMenuItem::Help => Screen::Help,
        MainMenuItem::Compose => Screen::Compose,
        MainMenuItem::MessageIndex => Screen::MessageIndex,
        MainMenuItem::FolderList => Screen::FolderList,
        MainMenuItem::AddressBook => Screen::AddressBook,
        MainMenuItem::Setup => Screen::Setup,
        MainMenuItem::Quit => Screen::Quit,
    }
}

impl MainMenuItem {
    /// All items, in the order they are shown.
    pub fn all() -> (items: Vec<MainMenuItem>)
        ensures
            items@ == menu_items(),
    {
        vec![
            MainMenuItem::Help,
            MainMenuItem::Compose,
            MainMenuItem::MessageIndex,
            MainMenuItem::FolderList,
            MainMenuItem::AddressBook,
            MainMenuItem::Setup,
            MainMenuItem::Quit,
        ]
    }

    /// The item at position `i` of the menu.
    pub fn at(i: usize) -> (item: MainMenuItem)
        requires
            i < MENU_LEN,
        ensures
            item == menu_items()[i as int],
    {
        match i {
            0 => MainMenuItem::Help,
            1 => MainMenuItem::Compose,
            2 => MainMenuItem::MessageIndex,
            3 => MainMenuItem::FolderList,
            4 => MainMenuItem::AddressBook,
            5 => MainMenuItem::Setup,
            _ => MainMenuItem::Quit,
        }
    }

    /// The accelerator key of the item.
    pub fn key(&self) -> (c: char)
        ensures
            c == item_key(*self),
    {
        match self {
            MainMenuItem::Help => '?',
            MainMenuItem::Compose => 'C',
            MainMenuItem::MessageIndex => 'I',
            MainMenuItem::FolderList => 'L',
            MainMenuItem::AddressBook => 'A',
            MainMenuItem::Setup => 'S',
            MainMenuItem::Quit => 'Q',
        }
    }

    /// The label of the item.
    pub fn label(&self) -> (s: &'static str)
        ensures
            s@ == item_label(*self),
    {
        match self {
            MainMenuItem::Help => "HELP",
            MainMenuItem::Compose => "COMPOSE MESSAGE",
            MainMenuItem::MessageIndex => "MESSAGE INDEX",
            MainMenuItem::FolderList => "FOLDER LIST",
            MainMenuItem::AddressBook => "ADDRESS BOOK",
            MainMenuItem::Setup => "SETUP",
            MainMenuItem::Quit => "QUIT",
        }
    }

    /// The description of the item.
    pub fn description(&self) -> (s: &'static str)
        ensures
            s@ == item_description(*self),
    {
        match self {
            MainMenuItem::Help => "Get help using Alpine",
            MainMenuItem::Compose => "Compose and send a message",
            MainMenuItem::MessageIndex => "View messages in current folder",
            MainMenuItem::FolderList => "Select a folder to view",
            MainMenuItem::AddressBook => "Update address book",
            MainMenuItem::Setup => "Configure Alpine Options",
            MainMenuItem::Quit => "Leave the Alpine program",
        }
    }

    /// The screen the item leads to; every item leads to one.
    pub fn target_screen(&self) -> (s: Option<Screen>)
        ensures
            s == Some(item_target(*self)),
    {
        match self {
            MainMenuItem::Help => Some(Screen::Help),
            MainMenuItem::Compose => Some(Screen::Compose),
            MainMenuItem::MessageIndex => Some(Screen::MessageIndex),
            MainMenuItem::FolderList => Some(Screen::FolderList),
            MainMenuItem::AddressBook => Some(Screen::AddressBook),
            MainMenuItem::Setup => Some(Screen::Setup),
            MainMenuItem::Quit => Some(Screen::Quit),
        }
    }
}

/// Index of the highlighted menu item.
pub struct MainMenuState {
    pub selected: usize,
}

/// Position of MESSAGE INDEX, highlighted when the menu opens.
pub open spec fn initial_selection() -> usize {
    2
}

/// The highlight after moving up: one item up, staying on the first.
pub open spec fn selection_up(selected: usize) -> usize {
    if selected > 0 { (selected - 1) as usize } else { selected }
}

/// The highlight after moving down: one item down, staying on the last.
pub open spec fn selection_down(selected: usize) -> usize {
    if selected < MENU_LEN - 1 { (selected + 1) as usize } else { selected }
}

impl Default for MainMenuState {
    /// MESSAGE INDEX is highlighted.
    fn default() -> (m: MainMenuState)
        ensures
            m.selected == initial_selection(),
            menu_items()[m.selected as int] == MainMenuItem::MessageIndex,
    {
        MainMenuState { selected: 2 }
    }
}

impl MainMenuState {
    /// Moves the highlight one item up, staying on the first item.
    pub fn up(&mut self)
        ensures
            final(self).selected == selection_up(old(self).selected),
    {
        if self.selected > 0 {
            self.selected -= 1;
        }
    }

    /// Moves the highlight one item down, staying on the last item.
    pub fn down(&mut self)
        ensures
            final(self).selected == selection_down(old(self).selected),
    {
        if self.selected < MENU_LEN - 1 {
            self.selected += 1;
        }
    }

    /// The highlighted item.
    pub fn selected_item(&self) -> (item: MainMenuItem)
        requires
            self.selected < MENU_LEN,
        ensures
            item == menu_items()[self.selected as int],
    {
        MainMenuItem::at(self.selected)
    }
}

/// Moving up or down keeps the highlight on an item of the menu.
pub proof fn lemma_selection_stays_in_menu(selected: usize)
    requires
        selected < MENU_LEN,
    ensures
        selection_up(selected) < MENU_LEN,
        selection_down(selected) < MENU_LEN,
{
}

/// Moving down and then up comes back to the same item, unless the
/// highlight was on the last item; moving up and then down comes back
/// unless it was on the first.
pub proof fn lemma_up_down_inverse(selected: usize)
    requires
        selected < MENU_LEN,
    ensures
        selected < MENU_LEN - 1 ==> selection_up(selection_down(selected)) == selected,
        selected > 0 ==> selection_down(selection_up(selected)) == selected,
{
}

/// Every item has its own accelerator key, and leads to its own screen.
pub proof fn lemma_keys_and_targets_distinct(i: int, j: int)
    requires
        0 <= i < MENU_LEN,
        0 <= j < MENU_LEN,
        i != j,
    ensures
        item_key(menu_items()[i]) != item_key(menu_items()[j]),
        item_target(menu_items()[i]) != item_target(menu_items()[j]),
{
}

/// Rows of the menu block: the items and a blank line above and below.
pub open spec fn menu_block_height() -> u16 {
    (MENU_LEN + 2) as u16
}

/// Widest the menu block gets.
pub open spec fn menu_block_width() -> u16 {
    64
}

/// Rows left above the menu block so that it stands in the middle of
/// `body`.
pub open spec fn menu_top_pad(body: Area) -> u16 {
    if body.height >= menu_block_height() {
        ((body.height - menu_block_height()) / 2) as u16
    } else {
        0
    }
}

/// Parts of the main menu's body, top to bottom: the space above the
/// menu, the menu block, the rest.
pub open spec fn menu_body_extents(body: Area) -> Seq<Extent> {
    seq![Extent::Length(menu_top_pad(body)), Extent::Length(menu_block_height()), Extent::Min(0)]
}

/// Width of the menu block in a row `width` columns wide: at most 64.
pub open spec fn block_width(width: u16) -> u16 {
    if width < menu_block_width() { width } else { menu_block_width() }
}

/// Column where the menu block starts in `row`, so that it is centered.
pub open spec fn block_x(row: Area) -> int {
    row.x + (row.width - block_width(row.width)) / 2
}

/// Whether the centered block's first column fits in a terminal column
/// number.
pub open spec fn centering_fits(row: Area) -> bool {
    block_x(row) <= u16::MAX
}

/// The menu block centered across `row`: at most 64 columns wide.
pub open spec fn centered_block(row: Area) -> Area {
    Area { x: block_x(row) as u16, y: row.y, width: block_width(row.width), height: row.height }
}

/// Style of the highlighted item's line: bold black on white.
pub open spec fn highlight_style() -> TextStyle {
    bolded(colored(Color::Black, Color::White))
}

/// The line of an item in the menu: a marker, the key, the label padded
/// to 20 columns, and the description.
pub open spec fn menu_line(item: MainMenuItem, highlighted: bool) -> LineView {
    let style = if highlighted { highlight_style() } else { foreground(Color::White) };
    let key_style = if highlighted { style } else { bolded(foreground(Color::Yellow)) };
    seq![
        (if highlighted { "  > "@ } else { "    "@ }, style),
        (seq![item_key(item)] + "     "@, key_style),
        (padded(item_label(item), 20), style),
        ("- "@ + item_description(item), style),
    ]
}

/// The lines of the menu block with item `selected` highlighted (none
/// where `selected` is past the last item).
pub open spec fn menu_lines(selected: usize) -> Seq<LineView> {
    seq![text_line(""@)] + Seq::new(MENU_LEN as nat, |i: int| menu_line(menu_items()[i], i == selected))
        + seq![text_line(""@)]
}

/// Style of the block behind the menu: a black background.
pub open spec fn menu_backdrop() -> TextStyle {
    TextStyle { bg: Some(Color::Black), ..plain() }
}

/// The menu block drawn in the row `menu_row` of the body.
pub open spec fn menu_block(selected: usize, menu_row: Area) -> PanelView {
    PanelView {
        area: centered_block(menu_row),
        lines: menu_lines(selected),
        style: plain(),
        backdrop: Some(menu_backdrop()),
    }
}

/// Parts of the main menu screen, top to bottom: title bar, a blank row,
/// body, status line, key menu.
pub open spec fn main_menu_extents() -> Seq<Extent> {
    seq![Extent::Length(1), Extent::Length(1), Extent::Min(0), Extent::Length(1), Extent::Length(1)]
}

/// The text of the status line: the latest status message, or nothing.
pub open spec fn status_text(msgs: Seq<String>) -> Seq<char> {
    if msgs.len() == 0 {
        Seq::empty()
    } else {
        msgs.last()@
    }
}

/// The key menu of the main menu.
pub open spec fn main_menu_keys() -> LineView {
    seq![
        (" ? "@, key_name_style()),
        ("Help "@, plain()),
        ("O "@, key_name_style()),
        ("OTHER CMDS "@, plain()),
        ("Q "@, key_name_style()),
        ("Quit "@, plain()),
        ("C "@, key_name_style()),
        ("Compose "@, plain()),
        ("L "@, key_name_style()),
        ("ListFldrs "@, plain()),
        ("I "@, key_name_style()),
        ("Index"@, plain()),
    ]
}

/// What the main menu draws in the parts `chunks` of its area, the menu
/// standing in the row `menu_row` of the body: the title with the
/// version, the menu block, the latest status message, and the key menu.
pub open spec fn main_menu_panels(
    version: Seq<char>,
    msgs: Seq<String>,
    selected: usize,
    chunks: Seq<Area>,
    menu_row: Area,
) -> Seq<PanelView> {
    seq![
        panel(
            chunks[0],
            paragraph_lines(" ALPENROSE "@ + version + " MAIN MENU  Folder: INBOX  0 Messages"@),
            title_style(),
        ),
        menu_block(selected, menu_row),
        panel(chunks[3], paragraph_lines(status_text(msgs)), colored(Color::White, Color::Black)),
        panel(chunks[4], seq![main_menu_keys()], key_bar_style()),
    ]
}

/// The line of `item` in the menu.
fn menu_item_line(item: MainMenuItem, highlighted: bool) -> (l: Line)
    ensures
        l@ == menu_line(item, highlighted),
{
    let style = if highlighted {
        TextStyle::colored(Color::Black, Color::White).bold()
    } else {
        TextStyle::foreground(Color::White)
    };
    let key_style = if highlighted { style } else { TextStyle::foreground(Color::Yellow).bold() };
    let marker = if highlighted { "  > " } else { "    " };
    let mut key_text = String::new();
    push_char(&mut key_text, item.key());
    key_text.append("     ");
    let mut desc = String::from_str("- ");
    desc.append(item.description());
    let mut l = Line::empty();
    l.push(Span::new(marker, style));
    l.push(Span::owned(key_text, key_style));
    l.push(Span::owned(pad_right(item.label(), 20), style));
    l.push(Span::owned(desc, style));
    assert(l@ =~= menu_line(item, highlighted));
    l
}

/// The menu block, with item `selected` highlighted, centered in the row
/// `menu_row`.
pub fn menu_block_in(selected: usize, menu_row: Area) -> (p: Panel)
    requires
        centering_fits(menu_row),
    ensures
        p@ == menu_block(selected, menu_row),
{
    let width = if menu_row.width < 64 { menu_row.width } else { 64 };
    let pad = (menu_row.width - width) / 2;
    let area = Area { x: menu_row.x + pad, y: menu_row.y, width, height: menu_row.height };
    let mut p = Panel::new(area, TextStyle::plain());
    p.backdrop = Some(TextStyle { bg: Some(Color::Black), ..TextStyle::plain() });
    p.push(Line::text(""));
    let mut i: usize = 0;
    while i < MENU_LEN
        invariant
            i <= MENU_LEN,
            p@ == (PanelView {
                lines: seq![text_line(""@)] + Seq::new(i as nat, |k: int| menu_line(menu_items()[k], k == selected)),
                ..menu_block(selected, menu_row)
            }),
        decreases MENU_LEN - i,
    {
        let line = menu_item_line(MainMenuItem::at(i), i == selected);
        p.push(line);
        assert(p@.lines =~= seq![text_line(""@)] + Seq::new((i + 1) as nat, |k: int| menu_line(menu_items()[k], k == selected)));
        i = i + 1;
    }
    p.push(Line::text(""));
    assert(p@.lines =~= menu_lines(selected));
    p
}

/// Whether `p` is the menu block drawn in `body` for one of the splits of
/// the body that the layout may give.
pub open spec fn menu_block_drawn(selected: usize, body: Area, p: PanelView) -> bool {
    exists|parts: Seq<Area>|
        #[trigger] is_vertical_split(body, menu_body_extents(body), parts) && p == menu_block(selected, parts[1])
}

/// Where the layout of the body has one answer, and what it is: the menu
/// row stands in the middle of a body of at least its height.
pub proof fn lemma_menu_body_layout(body: Area)
    requires
        body.height >= menu_block_height(),
        body.y + body.height <= u16::MAX,
    ensures
        fills_exactly(body, menu_body_extents(body)),
        stacked(body, menu_body_extents(body))[1].y == body.y + (body.height - menu_block_height()) / 2,
        stacked(body, menu_body_extents(body))[1].height == menu_block_height(),
{
    let e = menu_body_extents(body);
    reveal_with_fuel(lengths_total, 4);
    reveal_with_fuel(min_count, 4);
    reveal_with_fuel(part_top, 3);
    assert(e.drop_last() =~= seq![Extent::Length(menu_top_pad(body)), Extent::Length(menu_block_height())]);
    assert(e.drop_last().drop_last() =~= seq![Extent::Length(menu_top_pad(body))]);
    assert(e.drop_last().drop_last().drop_last() =~= Seq::<Extent>::empty());
    assert(lengths_total(e) == menu_top_pad(body) + menu_block_height());
    assert(min_count(e) == 1);
}

/// The menu block for the body area `body`: the body is split top to
/// bottom so that the block stands in its middle, and the block is
/// centered across the body's columns; where the body has at least the
/// block's rows, the block is centered across them too.
pub fn menu_block_for_body(selected: usize, body: Area) -> (p: Panel)
    requires
        centering_fits(body),
    ensures
        menu_block_drawn(selected, body, p@),
        p@.area.x == block_x(body),
        p@.area.width == block_width(body.width),
        body.height >= menu_block_height() && body.y + body.height <= u16::MAX ==> {
            &&& p@.area.y == body.y + (body.height - menu_block_height()) / 2
            &&& p@.area.height == menu_block_height()
        },
{
    let height: u16 = 9;
    let pad = body.height.saturating_sub(height) / 2;
    let extents = vec![Extent::Length(pad), Extent::Length(height), Extent::Min(0)];
    assert(extents@ =~= menu_body_extents(body));
    let parts = split_vertical(body, &extents);
    assert(parts@[1].x == body.x && parts@[1].width == body.width);
    let p = menu_block_in(selected, parts[1]);
    assert(is_vertical_split(body, menu_body_extents(body), parts@));
    proof {
        if body.height >= 9 && body.y + body.height <= u16::MAX {
            lemma_menu_body_layout(body);
        }
    }
    p
}

/// The key menu of the main menu.
fn main_menu_keymenu() -> (l: Line)
    ensures
        l@ == main_menu_keys(),
{
    let key = TextStyle::foreground(Color::White).bold();
    let mut keys = Line::empty();
    keys.push(Span::new(" ? ", key));
    keys.push(Span::new("Help ", TextStyle::plain()));
    keys.push(Span::new("O ", key));
    keys.push(Span::new("OTHER CMDS ", TextStyle::plain()));
    keys.push(Span::new("Q ", key));
    keys.push(Span::new("Quit ", TextStyle::plain()));
    keys.push(Span::new("C ", key));
    keys.push(Span::new("Compose ", TextStyle::plain()));
    keys.push(Span::new("L ", key));
    keys.push(Span::new("ListFldrs ", TextStyle::plain()));
    keys.push(Span::new("I ", key));
    keys.push(Span::new("Index", TextStyle::plain()));
    assert(keys@ =~= main_menu_keys());
    keys
}

/// What the main menu draws, given the parts of its area.
pub fn main_menu_screen_in(version: &str, msgs: &Vec<String>, selected: usize, chunks: &Vec<Area>) -> (panels: Vec<Panel>)
    requires
        chunks@.len() == main_menu_extents().len(),
        centering_fits(chunks@[2]),
    ensures
        main_menu_drawn_in(version@, msgs@, selected, chunks@, panels_view(panels@)),
        panels_view(panels@).len() == 4,
        panels_view(panels@)[0].area == chunks@[0],
        panels_view(panels@)[2].area == chunks@[3],
        panels_view(panels@)[3].area == chunks@[4],
        panels_view(panels@)[1].area.x == block_x(chunks@[2]),
        panels_view(panels@)[1].area.width == block_width(chunks@[2].width),
        chunks@[2].height >= menu_block_height() && chunks@[2].y + chunks@[2].height <= u16::MAX ==> {
            &&& panels_view(panels@)[1].area.y == chunks@[2].y + (chunks@[2].height - menu_block_height()) / 2
            &&& panels_view(panels@)[1].area.height == menu_block_height()
        },
{
    let mut title = String::from_str(" ALPENROSE ");
    title.append(version);
    title.append(" MAIN MENU  Folder: INBOX  0 Messages");
    let status = if msgs.len() > 0 {
        msgs[msgs.len() - 1].clone()
    } else {
        String::new()
    };
    let block = menu_block_for_body(selected, chunks[2]);
    let ghost body_parts = choose|parts: Seq<Area>|
        #[trigger] is_vertical_split(chunks@[2], menu_body_extents(chunks@[2]), parts) && block@ == menu_block(selected, parts[1]);
    let mut panels: Vec<Panel> = Vec::new();
    push_panel(&mut panels, Panel::text(chunks[0], title.as_str(), TextStyle::colored(Color::Black, Color::White).bold()));
    push_panel(&mut panels, block);
    push_panel(&mut panels, Panel::text(chunks[3], status.as_str(), TextStyle::colored(Color::White, Color::Black)));
    push_panel(&mut panels, Panel::single(chunks[4], main_menu_keymenu(), TextStyle::colored(Color::DarkGray, Color::Black)));
    assert(panels_view(panels@) =~= main_menu_panels(version@, msgs@, selected, chunks@, body_parts[1]));
    assert(is_vertical_split(chunks@[2], menu_body_extents(chunks@[2]), body_parts));
    panels
}

/// Whether `pv` is what the main menu draws in the parts `chunks` of its
/// area, for one of the splits of the body that the layout may give.
pub open spec fn main_menu_drawn_in(version: Seq<char>, msgs: Seq<String>, selected: usize, chunks: Seq<Area>, pv: Seq<PanelView>) -> bool {
    exists|body_parts: Seq<Area>|
        #[trigger] is_vertical_split(chunks[2], menu_body_extents(chunks[2]), body_parts)
            && pv == main_menu_panels(version, msgs, selected, chunks, body_parts[1])
}

/// Whether `pv` is what the main menu draws in `area`, for one of the
/// splits of the area that the layout may give.
pub open spec fn main_menu_drawn(version: Seq<char>, msgs: Seq<String>, selected: usize, area: Area, pv: Seq<PanelView>) -> bool {
    exists|chunks: Seq<Area>|
        #[trigger] is_vertical_split(area, main_menu_extents(), chunks) && main_menu_drawn_in(version, msgs, selected, chunks, pv)
}

/// Where the layout of the main menu has one answer, and what it is: the
/// title bar on the first row, a blank row, the body, then the status
/// line and the key menu on the last two rows.
pub proof fn lemma_main_menu_layout(area: Area)
    requires
        area.height >= 4,
        area.y + area.height <= u16::MAX,
    ensures
        fills_exactly(area, main_menu_extents()),
        stacked(area, main_menu_extents())[0] == (Area { height: 1, ..area }),
        stacked(area, main_menu_extents())[2] == (Area { y: (area.y + 2) as u16, height: (area.height - 4) as u16, ..area }),
        stacked(area, main_menu_extents())[3] == (Area { y: (area.y + area.height - 2) as u16, height: 1, ..area }),
        stacked(area, main_menu_extents())[4] == (Area { y: (area.y + area.height - 1) as u16, height: 1, ..area }),
{
    let e = main_menu_extents();
    reveal_with_fuel(lengths_total, 6);
    reveal_with_fuel(min_count, 6);
    reveal_with_fuel(part_top, 5);
    assert(e.drop_last() =~= seq![Extent::Length(1), Extent::Length(1), Extent::Min(0), Extent::Length(1)]);
    assert(e.drop_last().drop_last() =~= seq![Extent::Length(1), Extent::Length(1), Extent::Min(0)]);
    assert(e.drop_last().drop_last().drop_last() =~= seq![Extent::Length(1), Extent::Length(1)]);
    assert(e.drop_last().drop_last().drop_last().drop_last() =~= seq![Extent::Length(1)]);
    assert(e.drop_last().drop_last().drop_last().drop_last().drop_last() =~= Seq::<Extent>::empty());
    assert(lengths_total(e) == 4);
    assert(min_count(e) == 1);
}

/// What the main menu draws in `area`, for the state's version and status
/// messages and the menu's highlight: the area is split top to bottom
/// into a title bar, a blank row, the body with the menu block, a status
/// line and a key menu; the menu block is centered across the area's
/// columns. In an area of four rows or more the title bar is its first
/// row and the status line and key menu its last two; with nine more
/// rows for the body, the menu block stands in the middle of the body.
pub fn main_menu_screen(state: &AppState, menu: &MainMenuState, area: Area) -> (panels: Vec<Panel>)
    requires
        centering_fits(area),
    ensures
        main_menu_drawn(state.version@, state.status_messages@, menu.selected, area, panels_view(panels@)),
        panels_view(panels@)[1].area.x == block_x(area),
        panels_view(panels@)[1].area.width == block_width(area.width),
        area.height >= 4 && area.y + area.height <= u16::MAX ==> {
            &&& panels_view(panels@)[0].area == (Area { height: 1, ..area })
            &&& panels_view(panels@)[2].area == (Area { y: (area.y + area.height - 2) as u16, height: 1, ..area })
            &&& panels_view(panels@)[3].area == (Area { y: (area.y + area.height - 1) as u16, height: 1, ..area })
        },
        area.height >= 4 + menu_block_height() && area.y + area.height <= u16::MAX ==> {
            &&& panels_view(panels@)[1].area.y == area.y + 2 + (area.height - 4 - menu_block_height()) / 2
            &&& panels_view(panels@)[1].area.height == menu_block_height()
        },
{
    let extents = vec![Extent::Length(1), Extent::Length(1), Extent::Min(0), Extent::Length(1), Extent::Length(1)];
    assert(extents@ =~= main_menu_extents());
    let chunks = split_vertical(area, &extents);
    assert(chunks@[2].x == area.x && chunks@[2].width == area.width);
    proof {
        if area.height >= 4 && area.y + area.height <= u16::MAX {
            lemma_main_menu_layout(area);
        }
    }
    let panels = main_menu_screen_in(state.version, &state.status_messages, menu.selected, &chunks);
    assert(is_vertical_split(area, main_menu_extents(), chunks@));
    panels
}

/// Line `i + 1` of the menu block shows the item at position `i` of the
/// menu, the one that the highlight at `i` picks: its accelerator key,
/// its label padded to 20 columns and its description, in that order.
pub proof fn lemma_menu_lines_show_items(selected: usize, i: int)
    requires
        0 <= i < MENU_LEN,
    ensures
        menu_lines(selected).len() == MENU_LEN + 2,
        menu_lines(selected)[i + 1].len() == 4,
        menu_lines(selected)[i + 1][1].0 == seq![item_key(menu_items()[i])] + "     "@,
        menu_lines(selected)[i + 1][2].0 == padded(item_label(menu_items()[i]), 20),
        menu_lines(selected)[i + 1][3].0 == "- "@ + item_description(menu_items()[i]),
{
    assert(menu_lines(selected)[i + 1] == menu_line(menu_items()[i], i == selected));
}

/// Exactly one line of the menu block is marked: the highlighted item's.
pub proof fn lemma_only_highlighted_item_marked(selected: usize, i: int)
    requires
        0 <= i < MENU_LEN,
    ensures
        (menu_lines(selected)[i + 1][0].0 == "  > "@) <==> (i == selected),
{
    reveal_strlit("  > ");
    reveal_strlit("    ");
    assert(menu_lines(selected)[i + 1] == menu_line(menu_items()[i], i == selected));
    if i != selected {
        assert("    "@[2] != "  > "@[2]);
    }
}

/// The status line of the main menu shows the message queued last.
pub proof fn lemma_status_line_shows_latest(msgs: Seq<String>, msg: String)
    ensures
        status_text(msgs.push(msg)) == msg@,
{
}

} // verus!
