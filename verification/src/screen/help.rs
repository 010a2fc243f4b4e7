//! Help screen: a general overview of the commands.
use vstd::prelude::*;

use crate::screen::main_menu::{item_key, menu_items, MainMenuItem, MENU_LEN};
use crate::screen::view::{
    bolded, foreground, key_bar_style, key_name_style, panel, panels_view, plain, push_panel,
    split_vertical, styled_line, text_line, title_style, is_vertical_split, fills_exactly, stacked,
    paragraph_lines, lengths_total, min_count, part_top, Area, Color, Extent,
    Line, LineView, Panel, PanelView, Span, TextStyle,
};

verus! {

/// Parts of the help screen, top to bottom: title bar, help text, key
/// menu.
pub open spec fn help_extents() -> Seq<Extent> {
    seq![Extent::Length(1), Extent::Min(0), Extent::Length(1)]
}

/// Bold text.
pub open spec fn heading_style() -> TextStyle {
    bolded(plain())
}

/// Bold, underlined text.
pub open spec fn section_style() -> TextStyle {
    TextStyle { underlined: true, ..bolded(plain()) }
}

/// The help text.
pub open spec fn help_lines() -> Seq<LineView> {
    seq![
        text_line(""@),
        styled_line("  Alpenrose \u{2014} A Rust port of the Alpine email client"@, heading_style()),
        text_line(""@),
        text_line("  Alpenrose is a modern reimplementation of the Alpine email client"@),
        text_line("  in Rust, preserving Alpine's intuitive keyboard-driven interface."@),
        text_line(""@),
        styled_line("  Main Menu Commands:"@, section_style()),
        text_line(""@),
        text_line("    ?         This help screen"@),
        text_line("    C         Compose a new message"@),
        text_line("    I         Go to Message Index for current folder"@),
        text_line("    L         List folders for selection"@),
        text_line("    A         Open the Address Book"@),
        text_line("    S         Setup / configuration"@),
        text_line("    Q         Quit Alpenrose"@),
        text_line(""@),
        styled_line("  Navigation:"@, section_style()),
        text_line(""@),
        text_line("    Up/Down   Move between menu items"@),
        text_line("    Enter     Select highlighted item"@),
        text_line("    <         Go back to previous screen"@),
        text_line("    M         Return to Main Menu from any screen"@),
        text_line(""@),
        text_line("  Press 'E' or '<' to exit help."@),
    ]
}

/// The key menu of the help screen.
pub open spec fn help_keys() -> LineView {
    seq![
        (" E "@, key_name_style()),
        ("Exit Help "@, plain()),
        ("< "@, key_name_style()),
        ("Back "@, plain()),
    ]
}

/// What the help screen draws in the parts `chunks` of its area: the
/// title with the version, the help text in white, and the key menu.
pub open spec fn help_panels(version: Seq<char>, chunks: Seq<Area>) -> Seq<PanelView> {
    seq![
        panel(chunks[0], paragraph_lines(" ALPENROSE "@ + version + " HELP"@), title_style()),
        panel(chunks[1], help_lines(), foreground(Color::White)),
        panel(chunks[2], seq![help_keys()], key_bar_style()),
    ]
}

/// The help text as a panel in `area`.
fn help_body(area: Area) -> (p: Panel)
    ensures
        p@ == panel(area, help_lines(), foreground(Color::White)),
{
    let heading = TextStyle::plain().bold();
    let section = TextStyle { underlined: true, ..TextStyle::plain().bold() };
    let mut p = Panel::new(area, TextStyle::foreground(Color::White));
    p.push(Line::text(""));
    p.push(Line::styled("  Alpenrose \u{2014} A Rust port of the Alpine email client", heading));
    p.push(Line::text(""));
    p.push(Line::text("  Alpenrose is a modern reimplementation of the Alpine email client"));
    p.push(Line::text("  in Rust, preserving Alpine's intuitive keyboard-driven interface."));
    p.push(Line::text(""));
    p.push(Line::styled("  Main Menu Commands:", section));
    p.push(Line::text(""));
    p.push(Line::text("    ?         This help screen"));
    p.push(Line::text("    C         Compose a new message"));
    p.push(Line::text("    I         Go to Message Index for current folder"));
    p.push(Line::text("    L         List folders for selection"));
    p.push(Line::text("    A         Open the Address Book"));
    p.push(Line::text("    S         Setup / configuration"));
    p.push(Line::text("    Q         Quit Alpenrose"));
    p.push(Line::text(""));
    p.push(Line::styled("  Navigation:", section));
    p.push(Line::text(""));
    p.push(Line::text("    Up/Down   Move between menu items"));
    p.push(Line::text("    Enter     Select highlighted item"));
    p.push(Line::text("    <         Go back to previous screen"));
    p.push(Line::text("    M         Return to Main Menu from any screen"));
    p.push(Line::text(""));
    p.push(Line::text("  Press 'E' or '<' to exit help."));
    assert(p@.lines =~= help_lines());
    p
}

/// What the help screen draws, given the parts of its area.
pub fn help_screen_in(version: &str, chunks: &Vec<Area>) -> (panels: Vec<Panel>)
    requires
        chunks@.len() == help_extents().len(),
    ensures
        panels_view(panels@) == help_panels(version@, chunks@),
{
    let mut title = String::from_str(" ALPENROSE ");
    title.append(version);
    title.append(" HELP");
    let mut keys = Line::empty();
    keys.push(Span::new(" E ", TextStyle::foreground(Color::White).bold()));
    keys.push(Span::new("Exit Help ", TextStyle::plain()));
    keys.push(Span::new("< ", TextStyle::foreground(Color::White).bold()));
    keys.push(Span::new("Back ", TextStyle::plain()));
    assert(keys@ =~= help_keys());
    let mut panels: Vec<Panel> = Vec::new();
    push_panel(&mut panels, Panel::text(chunks[0], title.as_str(), TextStyle::colored(Color::Black, Color::White).bold()));
    push_panel(&mut panels, help_body(chunks[1]));
    push_panel(&mut panels, Panel::single(chunks[2], keys, TextStyle::colored(Color::DarkGray, Color::Black)));
    assert(panels_view(panels@) =~= help_panels(version@, chunks@));
    panels
}

/// Whether `pv` is what the help screen draws in `area` for one of the
/// splits of the area that the layout may give.
pub open spec fn help_drawn(version: Seq<char>, area: Area, pv: Seq<PanelView>) -> bool {
    exists|parts: Seq<Area>| #[trigger] is_vertical_split(area, help_extents(), parts) && pv == help_panels(version, parts)
}

/// Where an area of at least two rows puts a title bar on its first row,
/// a key bar on its last, and a body between them.
pub open spec fn bars_and_body(area: Area, pv: Seq<PanelView>, title: int, body: int, keys: int) -> bool {
    &&& pv[title].area == Area { height: 1, ..area }
    &&& pv[body].area == Area { y: (area.y + 1) as u16, height: (area.height - 2) as u16, ..area }
    &&& pv[keys].area == Area { y: (area.y + area.height - 1) as u16, height: 1, ..area }
}

/// Where the layout of a screen with a title bar, a body and a key bar
/// has one answer, and what it is.
pub proof fn lemma_bars_layout(area: Area)
    requires
        area.height >= 2,
        area.y + area.height <= u16::MAX,
    ensures
        fills_exactly(area, help_extents()),
        stacked(area, help_extents())[0] == (Area { height: 1, ..area }),
        stacked(area, help_extents())[1] == (Area { y: (area.y + 1) as u16, height: (area.height - 2) as u16, ..area }),
        stacked(area, help_extents())[2] == (Area { y: (area.y + area.height - 1) as u16, height: 1, ..area }),
{
    let e = help_extents();
    reveal_with_fuel(lengths_total, 4);
    reveal_with_fuel(min_count, 4);
    reveal_with_fuel(part_top, 3);
    assert(e.drop_last() =~= seq![Extent::Length(1), Extent::Min(0)]);
    assert(e.drop_last().drop_last() =~= seq![Extent::Length(1)]);
    assert(e.drop_last().drop_last().drop_last() =~= Seq::<Extent>::empty());
    assert(lengths_total(e) == 2);
    assert(min_count(e) == 1);
}

/// What the help screen draws in `area`: the area is split top to bottom
/// into a title bar, the text and a key menu; in an area of two rows or
/// more, the title bar is its first row and the key menu its last.
pub fn help_screen(version: &str, area: Area) -> (panels: Vec<Panel>)
    ensures
        help_drawn(version@, area, panels_view(panels@)),
        area.height >= 2 && area.y + area.height <= u16::MAX ==> bars_and_body(area, panels_view(panels@), 0, 1, 2),
{
    let extents = vec![Extent::Length(1), Extent::Min(0), Extent::Length(1)];
    assert(extents@ =~= help_extents());
    let chunks = split_vertical(area, &extents);
    let panels = help_screen_in(version, &chunks);
    assert(is_vertical_split(area, help_extents(), chunks@));
    proof {
        if area.height >= 2 && area.y + area.height <= u16::MAX {
            lemma_bars_layout(area);
        }
    }
    panels
}

/// What the help says of each item of the main menu.
pub open spec fn help_command_text(item: MainMenuItem) -> Seq<char> {
    match item {
        MainMenuItem::Help => "This help screen"@,
        MainMenuItem::Compose => "Compose a new message"@,
        MainMenuItem::MessageIndex => "Go to Message Index for current folder"@,
        MainMenuItem::FolderList => "List folders for selection"@,
        MainMenuItem::AddressBook => "Open the Address Book"@,
        MainMenuItem::Setup => "Setup / configuration"@,
        MainMenuItem::Quit => "Quit Alpenrose"@,
    }
}

/// The help lists the main menu's commands in menu order, each under the
/// accelerator key that the menu gives its item.
pub proof fn lemma_help_lists_accelerators(i: int)
    requires
        0 <= i < MENU_LEN,
    ensures
        help_lines()[8 + i] == text_line(
            "    "@ + seq![item_key(menu_items()[i])] + "         "@ + help_command_text(menu_items()[i]),
        ),
{
    reveal_strlit("    ");
    reveal_strlit("         ");
    reveal_strlit("This help screen");
    reveal_strlit("Compose a new message");
    reveal_strlit("Go to Message Index for current folder");
    reveal_strlit("List folders for selection");
    reveal_strlit("Open the Address Book");
    reveal_strlit("Setup / configuration");
    reveal_strlit("Quit Alpenrose");
    reveal_strlit("    ?         This help screen");
    reveal_strlit("    C         Compose a new message");
    reveal_strlit("    I         Go to Message Index for current folder");
    reveal_strlit("    L         List folders for selection");
    reveal_strlit("    A         Open the Address Book");
    reveal_strlit("    S         Setup / configuration");
    reveal_strlit("    Q         Quit Alpenrose");
    let item = menu_items()[i];
    let expected = "    "@ + seq![item_key(item)] + "         "@ + help_command_text(item);
    if i == 0 {
        assert(expected =~= "    ?         This help screen"@);
    } else if i == 1 {
        assert(expected =~= "    C         Compose a new message"@);
    } else if i == 2 {
        assert(expected =~= "    I         Go to Message Index for current folder"@);
    } else if i == 3 {
        assert(expected =~= "    L         List folders for selection"@);
    } else if i == 4 {
        assert(expected =~= "    A         Open the Address Book"@);
    } else if i == 5 {
        assert(expected =~= "    S         Setup / configuration"@);
    } else {
        assert(expected =~= "    Q         Quit Alpenrose"@);
    }
}

} // verus!
