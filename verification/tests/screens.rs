use alpenrose::config::Config;
use alpenrose::pith::state::AppState;
use alpenrose::screen::help::help_screen;
use alpenrose::screen::main_menu::{main_menu_screen, menu_block_for_body, menu_block_in, MainMenuItem, MainMenuState};
use alpenrose::screen::message_index::message_index_screen;
use alpenrose::screen::view::{ascii_uppercase, pad_right, Area, Color, Panel, TextStyle};
use alpenrose::screen::Screen;
use alpenrose::tui::draw::{draw_screen, placeholder_screen};

fn area(x: u16, y: u16, width: u16, height: u16) -> Area {
    Area { x, y, width, height }
}

fn line_text(p: &Panel, i: usize) -> String {
    p.lines[i].spans.iter().map(|s| s.text.as_str()).collect()
}

#[test]
fn padding_and_upper_case() {
    assert_eq!(pad_right("HELP", 20), format!("HELP{}", " ".repeat(16)));
    assert_eq!(pad_right("ABCDEFGHIJKLMNOPQRSTUVWXYZ", 20), "ABCDEFGHIJKLMNOPQRSTUVWXYZ");
    assert_eq!(ascii_uppercase("FolderList"), "FOLDERLIST");
    assert_eq!(ascii_uppercase("a1-z"), "A1-Z");
}

#[test]
fn help_screen_layout_and_text() {
    let panels = help_screen("9.9", area(0, 0, 80, 24));
    assert_eq!(panels.len(), 3);
    assert_eq!(panels[0].area, area(0, 0, 80, 1));
    assert_eq!(line_text(&panels[0], 0), " ALPENROSE 9.9 HELP");
    assert_eq!(panels[0].style, TextStyle { fg: Some(Color::Black), bg: Some(Color::White), bold: true, underlined: false });
    assert_eq!(panels[1].area, area(0, 1, 80, 22));
    assert_eq!(panels[1].lines.len(), 24);
    assert_eq!(line_text(&panels[1], 23), "  Press 'E' or '<' to exit help.");
    assert!(panels[1].lines[6].spans[0].style.underlined);
    assert_eq!(panels[2].area, area(0, 23, 80, 1));
    assert_eq!(line_text(&panels[2], 0), " E Exit Help < Back ");
}

#[test]
fn message_index_screen_layout() {
    let panels = message_index_screen("1.0", area(0, 0, 100, 30));
    assert_eq!(panels.len(), 3);
    assert_eq!(panels[1].area, area(0, 1, 100, 27));
    assert_eq!(panels[2].area, area(0, 29, 100, 1));
    assert_eq!(line_text(&panels[2], 0), " ? Help M Main Menu < FldrList V ViewMsg");
    assert!(line_text(&panels[0], 0).starts_with(" ALPENROSE 1.0 MESSAGE INDEX"));
}

#[test]
fn menu_block_centered_and_highlighted() {
    let p = menu_block_in(2, area(0, 7, 80, 9));
    assert_eq!(p.area, area(8, 7, 64, 9));
    assert_eq!(p.lines.len(), 9);
    assert_eq!(line_text(&p, 3), format!("  > I     MESSAGE INDEX{}- View messages in current folder", " ".repeat(7)));
    assert_eq!(line_text(&p, 1), format!("    ?     HELP{}- Get help using Alpine", " ".repeat(16)));
    assert_eq!(p.lines[3].spans[1].style, p.lines[3].spans[0].style);
    assert_eq!(p.lines[1].spans[1].style.fg, Some(Color::Yellow));
    assert_eq!(p.backdrop.map(|b| b.bg), Some(Some(Color::Black)));
    let narrow = menu_block_in(9, area(3, 0, 40, 9));
    assert_eq!(narrow.area, area(3, 0, 40, 9));
    assert!((1..8).all(|i| line_text(&narrow, i).starts_with("    ")));
}

#[test]
fn main_menu_screen_layout_and_status() {
    let mut state = AppState::with_terminal_size(Config::default(), None);
    let menu = MainMenuState::default();
    let panels = main_menu_screen(&state, &menu, area(0, 0, 80, 24));
    assert_eq!(panels.len(), 4);
    assert!(line_text(&panels[0], 0).starts_with(" ALPENROSE 0.1.0 MAIN MENU"));
    assert_eq!(panels[1].area, area(8, 7, 64, 9));
    assert_eq!(panels[2].area, area(0, 22, 80, 1));
    assert_eq!(line_text(&panels[2], 0), "");
    state.status_message("one".to_string());
    state.status_message("two".to_string());
    let panels = main_menu_screen(&state, &menu, area(0, 0, 80, 24));
    assert_eq!(line_text(&panels[2], 0), "two");
}

#[test]
fn placeholder_and_screen_choice() {
    let panels = placeholder_screen("2.0", Screen::FolderList, area(0, 0, 60, 10));
    assert_eq!(line_text(&panels[0], 0), " ALPENROSE 2.0 FOLDERLIST");
    assert_eq!(line_text(&panels[1], 1), "   [FolderList screen - not yet implemented]");
    assert_eq!(panels[2].area, area(0, 9, 60, 1));
    let mut state = AppState::with_terminal_size(Config::default(), None);
    let menu = MainMenuState::default();
    state.goto_screen(Screen::AddressBook);
    let drawn = draw_screen(&state, &menu, area(0, 0, 80, 24));
    assert_eq!(line_text(&drawn[0], 0), " ALPENROSE 0.1.0 ADDRESSBOOK");
    state.goto_screen(Screen::Help);
    let drawn = draw_screen(&state, &menu, area(0, 0, 80, 24));
    assert_eq!(line_text(&drawn[0], 0), " ALPENROSE 0.1.0 HELP");
}

#[test]
fn help_lists_menu_accelerators_in_order() {
    let panels = help_screen("1", area(0, 0, 80, 30));
    for (i, item) in MainMenuItem::all().iter().enumerate() {
        let line = line_text(&panels[1], 8 + i);
        assert_eq!(line.chars().nth(4), Some(item.key()));
        assert!(line.starts_with("    "));
    }
    assert_eq!(line_text(&panels[1], 1), "  Alpenrose \u{2014} A Rust port of the Alpine email client");
}

#[test]
fn menu_block_centered_in_body() {
    let p = menu_block_for_body(0, area(5, 2, 100, 20));
    assert_eq!(p.area.x, 5 + 18);
    assert_eq!(p.area.width, 64);
    assert_eq!(p.area.y, 2 + 5);
    assert_eq!(p.area.height, 9);
    let q = menu_block_for_body(0, area(0, 0, 30, 5));
    assert_eq!(q.area.x, 0);
    assert_eq!(q.area.width, 30);
}

#[test]
fn message_index_text() {
    let panels = message_index_screen("1.0", area(0, 0, 100, 30));
    assert_eq!(line_text(&panels[1], 3), "   This screen corresponds to Alpine's mail_index_screen() function.");
}

fn texts(p: &Panel) -> Vec<String> {
    (0..p.lines.len()).map(|i| line_text(p, i)).collect()
}

#[test]
fn paragraph_text_is_cut_at_line_breaks() {
    let plain = TextStyle::plain();
    let p = Panel::text(area(0, 0, 10, 3), "a\nb\r\nc", plain);
    assert_eq!(texts(&p), vec!["a", "b", "c"]);
    assert_eq!(texts(&Panel::text(area(0, 0, 10, 3), "x\n", plain)), vec!["x"]);
    assert_eq!(texts(&Panel::text(area(0, 0, 10, 3), "", plain)), vec![""]);
    assert_eq!(texts(&Panel::text(area(0, 0, 10, 3), "\n\n", plain)), vec!["", ""]);
    assert_eq!(texts(&Panel::text(area(0, 0, 10, 3), "a\r\rb\r", plain)), vec!["a\r\rb\r"]);
    assert_eq!(texts(&Panel::text(area(0, 0, 10, 3), "a\r\r\n", plain)), vec!["a\r"]);
    for t in ["a\nb\r\nc", "x\n", "\n\n", "a\r\rb\r", "a\r\r\n", "one line"] {
        let expected: Vec<String> = t.lines().map(|l| l.to_string()).collect();
        assert_eq!(texts(&Panel::text(area(0, 0, 1, 1), t, plain)), expected);
    }
}

#[test]
fn status_message_with_line_break_takes_two_lines() {
    let mut state = AppState::with_terminal_size(Config::default(), None);
    state.status_message("first\nsecond".to_string());
    let panels = main_menu_screen(&state, &MainMenuState::default(), area(0, 0, 80, 24));
    assert_eq!(texts(&panels[2]), vec!["first", "second"]);
    assert_eq!(panels[3].area, area(0, 23, 80, 1));
    assert_eq!(panels[0].area, area(0, 0, 80, 1));
}

#[test]
fn short_areas_keep_columns() {
    for h in 0..4 {
        let panels = help_screen("1", area(3, 0, 50, h));
        assert_eq!(panels.len(), 3);
        assert!(panels.iter().all(|p| p.area.x == 3 && p.area.width == 50));
        let panels = main_menu_screen(
            &AppState::with_terminal_size(Config::default(), None),
            &MainMenuState::default(),
            area(3, 0, 50, h),
        );
        assert_eq!(panels.len(), 4);
        assert_eq!(panels[1].area.x, 3);
        assert_eq!(panels[1].area.width, 50);
    }
}
