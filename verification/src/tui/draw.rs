//! What the current screen draws: the screens that exist, and a
//! placeholder for those that do not yet.
use vstd::prelude::*;

use crate::pith::state::AppState;
use crate::screen::help::{help_drawn, help_extents, help_panels, help_screen, lemma_bars_layout};
use crate::screen::main_menu::{
    centering_fits, main_menu_drawn, main_menu_drawn_in, main_menu_extents, main_menu_panels,
    main_menu_screen, menu_body_extents, MainMenuState,
};
use crate::screen::message_index::{
    message_index_drawn, message_index_extents, message_index_panels, message_index_screen,
    message_index_title_rest,
};
use crate::screen::view::{
    ascii_uppercase, foreground, key_bar_style, panel, panels_view, push_panel, split_vertical,
    text_line, title_style, upper_ascii, upper_char, is_vertical_split, paragraph_lines, single_line,
    lemma_single_line_paragraph, Area, Color, Extent, Line, LineView,
    Panel, PanelView, TextStyle,
};
use crate::screen::{screen_name, Screen};

verus! {

/// Parts of a placeholder screen, top to bottom: title bar, text, key
/// menu.
pub open spec fn placeholder_extents() -> Seq<Extent> {
    seq![Extent::Length(1), Extent::Min(0), Extent::Length(1)]
}

/// The text of a placeholder for `screen`.
pub open spec fn placeholder_lines(screen: Screen) -> Seq<LineView> {
    seq![
        text_line(""@),
        text_line("   ["@ + screen_name(screen) + " screen - not yet implemented]"@),
        text_line(""@),
        text_line("   Press '<' or 'M' to return to the main menu."@),
    ]
}

/// What the placeholder for `screen` draws in the parts `chunks` of its
/// area: a title with the version and the screen's name in capitals, a
/// note in white, and a key menu.
pub open spec fn placeholder_panels(version: Seq<char>, screen: Screen, chunks: Seq<Area>) -> Seq<PanelView> {
    seq![
        panel(
            chunks[0],
            paragraph_lines(" ALPENROSE "@ + version + " "@ + upper_ascii(screen_name(screen))),
            title_style(),
        ),
        panel(chunks[1], placeholder_lines(screen), foreground(Color::White)),
        panel(chunks[2], seq![text_line(" < Back  M Main Menu  ? Help  Q Quit"@)], key_bar_style()),
    ]
}

/// What the placeholder for `screen` draws, given the parts of its area.
pub fn placeholder_screen_in(version: &str, screen: Screen, chunks: &Vec<Area>) -> (panels: Vec<Panel>)
    requires
        chunks@.len() == placeholder_extents().len(),
    ensures
        panels_view(panels@) == placeholder_panels(version@, screen, chunks@),
{
    let name = screen.name();
    let mut title = String::from_str(" ALPENROSE ");
    title.append(version);
    title.append(" ");
    let upper = ascii_uppercase(name);
    title.append(upper.as_str());
    let mut note = String::from_str("   [");
    note.append(name);
    note.append(" screen - not yet implemented]");
    let mut body = Panel::new(chunks[1], TextStyle::foreground(Color::White));
    body.push(Line::text(""));
    body.push(Line::owned(note));
    body.push(Line::text(""));
    body.push(Line::text("   Press '<' or 'M' to return to the main menu."));
    assert(body@.lines =~= placeholder_lines(screen));
    let mut panels: Vec<Panel> = Vec::new();
    push_panel(&mut panels, Panel::text(chunks[0], title.as_str(), TextStyle::colored(Color::Black, Color::White).bold()));
    push_panel(&mut panels, body);
    push_panel(
        &mut panels,
        Panel::single(chunks[2], Line::text(" < Back  M Main Menu  ? Help  Q Quit"), TextStyle::colored(Color::DarkGray, Color::Black)),
    );
    assert(panels_view(panels@) =~= placeholder_panels(version@, screen, chunks@));
    panels
}

/// Whether `pv` is what the placeholder for `screen` draws in `area`, for
/// one of the splits of the area that the layout may give.
pub open spec fn placeholder_drawn(version: Seq<char>, screen: Screen, area: Area, pv: Seq<PanelView>) -> bool {
    exists|parts: Seq<Area>|
        #[trigger] is_vertical_split(area, placeholder_extents(), parts) && pv == placeholder_panels(version, screen, parts)
}

/// What the placeholder for `screen` draws in `area`; in an area of two
/// rows or more the title bar is its first row and the key menu its last.
pub fn placeholder_screen(version: &str, screen: Screen, area: Area) -> (panels: Vec<Panel>)
    ensures
        placeholder_drawn(version@, screen, area, panels_view(panels@)),
        area.height >= 2 && area.y + area.height <= u16::MAX ==> {
            &&& panels_view(panels@)[0].area == (Area { height: 1, ..area })
            &&& panels_view(panels@)[1].area == (Area { y: (area.y + 1) as u16, height: (area.height - 2) as u16, ..area })
            &&& panels_view(panels@)[2].area == (Area { y: (area.y + area.height - 1) as u16, height: 1, ..area })
        },
{
    let extents = vec![Extent::Length(1), Extent::Min(0), Extent::Length(1)];
    assert(extents@ =~= placeholder_extents());
    let chunks = split_vertical(area, &extents);
    let panels = placeholder_screen_in(version, screen, &chunks);
    assert(is_vertical_split(area, placeholder_extents(), chunks@));
    proof {
        if area.height >= 2 && area.y + area.height <= u16::MAX {
            assert(placeholder_extents() =~= help_extents());
            lemma_bars_layout(area);
        }
    }
    panels
}

/// Whether `pv` is what the current screen draws in `area`: the main
/// menu, the message index, help, or a placeholder for the other screens.
pub open spec fn screen_drawn(s: AppState, selected: usize, area: Area, pv: Seq<PanelView>) -> bool {
    match s.current_screen {
        Screen::Main => main_menu_drawn(s.version@, s.status_messages@, selected, area, pv),
        Screen::MessageIndex => message_index_drawn(s.version@, area, pv),
        Screen::Help => help_drawn(s.version@, area, pv),
        _ => placeholder_drawn(s.version@, s.current_screen, area, pv),
    }
}

/// What the current screen draws in `area`.
pub fn draw_screen(state: &AppState, menu: &MainMenuState, area: Area) -> (panels: Vec<Panel>)
    requires
        state.current_screen == Screen::Main ==> centering_fits(area),
    ensures
        screen_drawn(*state, menu.selected, area, panels_view(panels@)),
{
    match state.current_screen {
        Screen::Main => main_menu_screen(state, menu, area),
        Screen::MessageIndex => message_index_screen(state.version, area),
        Screen::Help => help_screen(state.version, area),
        _ => placeholder_screen(state.version, state.current_screen, area),
    }
}

/// The title text `" ALPENROSE " + version + rest` is one line and
/// starts with the version, where neither holds a line break.
proof fn lemma_title_line(version: Seq<char>, rest: Seq<char>)
    requires
        single_line(version),
        single_line(rest),
    ensures
        paragraph_lines(" ALPENROSE "@ + version + rest) == seq![text_line(" ALPENROSE "@ + version + rest)],
        (" ALPENROSE "@ + version + rest).len() >= 11 + version.len(),
        (" ALPENROSE "@ + version + rest).subrange(0, 11 + version.len() as int) == " ALPENROSE "@ + version,
{
    reveal_strlit(" ALPENROSE ");
    let t = " ALPENROSE "@ + version + rest;
    assert forall|k: int| 0 <= k < t.len() implies t[k] != '\n' by {
        if k >= 11 + version.len() {
            assert(t[k] == rest[k - 11 - version.len()]);
        } else if k >= 11 {
            assert(t[k] == version[k - 11]);
        }
    }
    lemma_single_line_paragraph(t);
    assert(t.subrange(0, 11 + version.len() as int) =~= " ALPENROSE "@ + version);
}

/// The upper-case form of a screen's name holds no line break.
proof fn lemma_screen_title_single_line(screen: Screen)
    ensures
        single_line(" "@ + upper_ascii(screen_name(screen))),
{
    reveal_strlit(" ");
    reveal_strlit("Main");
    reveal_strlit("MessageIndex");
    reveal_strlit("Help");
    reveal_strlit("Compose");
    reveal_strlit("FolderList");
    reveal_strlit("AddressBook");
    reveal_strlit("Setup");
    reveal_strlit("Quit");
    let n = screen_name(screen);
    let t = " "@ + upper_ascii(n);
    assert forall|k: int| 0 <= k < t.len() implies t[k] != '\n' by {
        if k >= 1 {
            assert(t[k] == upper_char(n[k - 1]));
        }
    }
}

/// Every screen's title bar is a single line in the title style that
/// starts with ` ALPENROSE ` and the version, where the version holds no
/// line break.
pub proof fn lemma_title_shows_version(s: AppState, selected: usize, area: Area, pv: Seq<PanelView>)
    requires
        screen_drawn(s, selected, area, pv),
        single_line(s.version@),
    ensures
        pv[0].style == title_style(),
        pv[0].lines.len() == 1,
        pv[0].lines[0].len() == 1,
        pv[0].lines[0][0].0.len() >= 11 + s.version@.len(),
        pv[0].lines[0][0].0.subrange(0, 11 + s.version@.len() as int) == " ALPENROSE "@ + s.version@,
{
    let v = s.version@;
    match s.current_screen {
        Screen::Main => {
            let chunks = choose|chunks: Seq<Area>|
                #[trigger] is_vertical_split(area, main_menu_extents(), chunks)
                    && main_menu_drawn_in(v, s.status_messages@, selected, chunks, pv);
            let _body_parts = choose|body_parts: Seq<Area>|
                #[trigger] is_vertical_split(chunks[2], menu_body_extents(chunks[2]), body_parts)
                    && pv == main_menu_panels(v, s.status_messages@, selected, chunks, body_parts[1]);
            let rest = " MAIN MENU  Folder: INBOX  0 Messages"@;
            reveal_strlit(" MAIN MENU  Folder: INBOX  0 Messages");
            lemma_title_line(v, rest);
        },
        Screen::MessageIndex => {
            let parts = choose|parts: Seq<Area>|
                #[trigger] is_vertical_split(area, message_index_extents(), parts) && pv == message_index_panels(v, parts);
            reveal_strlit(" MESSAGE INDEX  Strstr Folder: INBOX  Strstr Strstr  No Messages");
            lemma_title_line(v, message_index_title_rest());
        },
        Screen::Help => {
            let parts = choose|parts: Seq<Area>|
                #[trigger] is_vertical_split(area, help_extents(), parts) && pv == help_panels(v, parts);
            reveal_strlit(" HELP");
            lemma_title_line(v, " HELP"@);
        },
        _ => {
            let parts = choose|parts: Seq<Area>|
                #[trigger] is_vertical_split(area, placeholder_extents(), parts)
                    && pv == placeholder_panels(v, s.current_screen, parts);
            lemma_screen_title_single_line(s.current_screen);
            lemma_title_line(v, " "@ + upper_ascii(screen_name(s.current_screen)));
            assert(" ALPENROSE "@ + v + " "@ + upper_ascii(screen_name(s.current_screen))
                =~= " ALPENROSE "@ + v + (" "@ + upper_ascii(screen_name(s.current_screen))));
        },
    }
}

} // verus!
