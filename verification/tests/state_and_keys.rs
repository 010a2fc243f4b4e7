use alpenrose::config::Config;
use alpenrose::pith::state::{AppState, RepaintFlags, VERSION};
use alpenrose::screen::main_menu::{MainMenuItem, MainMenuState, MENU_LEN};
use alpenrose::screen::Screen;
use alpenrose::tui::{
    dispatch_key, handle_help_input, handle_main_menu_input, handle_message_index_input,
    handle_placeholder_input, Flow, Key, KeyInput,
};

fn fresh() -> (AppState, MainMenuState) {
    (AppState::with_terminal_size(Config::default(), Some((80, 24))), MainMenuState::default())
}

fn press(c: char) -> KeyInput {
    KeyInput { code: Key::Char(c), pressed: true, ctrl: false }
}

fn key(code: Key) -> KeyInput {
    KeyInput { code, pressed: true, ctrl: false }
}

#[test]
fn repaint_flags_all_and_clear() {
    let mut r = RepaintFlags::default();
    assert!(!r.header && !r.footer && !r.body && !r.screen);
    r.all();
    assert!(r.header && r.footer && r.body && r.screen);
    r.clear();
    assert!(!r.header && !r.footer && !r.body && !r.screen);
}

#[test]
fn new_state_with_known_size() {
    let s = AppState::with_terminal_size(Config::default(), Some((100, 40)));
    assert_eq!(s.current_screen, Screen::Main);
    assert_eq!(s.prev_screen, Screen::Main);
    assert_eq!(s.term.cols, 100);
    assert_eq!(s.term.rows, 40);
    assert!(s.repaint.header && s.repaint.footer && s.repaint.body && s.repaint.screen);
    assert_eq!(s.version, VERSION);
    assert!(!s.quit);
    assert!(s.status_messages.is_empty());
}

#[test]
fn new_state_falls_back_to_80_by_24() {
    let s = AppState::with_terminal_size(Config::default(), None);
    assert_eq!(s.term.cols, 80);
    assert_eq!(s.term.rows, 24);
}

#[test]
fn new_state_from_terminal_starts_on_main_menu() {
    let s = AppState::new(Config::default());
    assert_eq!(s.current_screen, Screen::Main);
    assert!(!s.quit);
    assert_eq!(s.config.inbox.port, 993);
}

#[test]
fn goto_screen_remembers_previous() {
    let (mut s, _) = fresh();
    s.repaint.clear();
    s.goto_screen(Screen::Compose);
    assert_eq!(s.current_screen, Screen::Compose);
    assert_eq!(s.prev_screen, Screen::Main);
    assert!(s.repaint.header && s.repaint.footer && s.repaint.body && s.repaint.screen);
    s.goto_screen(Screen::Help);
    assert_eq!(s.prev_screen, Screen::Compose);
}

#[test]
fn status_messages_come_out_in_order() {
    let (mut s, _) = fresh();
    s.status_message("first".to_string());
    s.status_message("second".to_string());
    let msgs = s.drain_status();
    assert_eq!(msgs, vec!["first".to_string(), "second".to_string()]);
    assert!(s.status_messages.is_empty());
    assert!(s.drain_status().is_empty());
}

#[test]
fn menu_items_in_order() {
    let all = MainMenuItem::all();
    assert_eq!(all.len(), MENU_LEN);
    let keys: String = all.iter().map(|i| i.key()).collect();
    assert_eq!(keys, "?CILASQ");
    assert_eq!(all[2], MainMenuItem::MessageIndex);
    for (i, item) in all.iter().enumerate() {
        assert_eq!(MainMenuItem::at(i), *item);
    }
}

#[test]
fn menu_item_texts() {
    assert_eq!(MainMenuItem::Help.label(), "HELP");
    assert_eq!(MainMenuItem::Compose.label(), "COMPOSE MESSAGE");
    assert_eq!(MainMenuItem::AddressBook.label(), "ADDRESS BOOK");
    assert_eq!(MainMenuItem::Setup.description(), "Configure Alpine Options");
    assert_eq!(MainMenuItem::Quit.description(), "Leave the Alpine program");
    assert_eq!(MainMenuItem::FolderList.target_screen(), Some(Screen::FolderList));
    assert_eq!(MainMenuItem::Quit.target_screen(), Some(Screen::Quit));
}

#[test]
fn menu_highlight_moves_and_stops_at_ends() {
    let mut m = MainMenuState::default();
    assert_eq!(m.selected, 2);
    assert_eq!(m.selected_item(), MainMenuItem::MessageIndex);
    m.up();
    m.up();
    m.up();
    assert_eq!(m.selected, 0);
    for _ in 0..10 {
        m.down();
    }
    assert_eq!(m.selected, 6);
    assert_eq!(m.selected_item(), MainMenuItem::Quit);
    m.up();
    assert_eq!(m.selected_item(), MainMenuItem::Setup);
}

#[test]
fn main_menu_accelerators() {
    let cases = [
        ('?', Screen::Help),
        ('c', Screen::Compose),
        ('C', Screen::Compose),
        ('i', Screen::MessageIndex),
        ('I', Screen::MessageIndex),
        ('l', Screen::FolderList),
        ('A', Screen::AddressBook),
        ('s', Screen::Setup),
    ];
    for (c, target) in cases {
        let (mut s, mut m) = fresh();
        handle_main_menu_input(&mut s, &mut m, Key::Char(c));
        assert_eq!(s.current_screen, target);
        assert_eq!(s.prev_screen, Screen::Main);
        assert!(!s.quit);
    }
    let (mut s, mut m) = fresh();
    handle_main_menu_input(&mut s, &mut m, Key::Char('q'));
    assert!(s.quit);
    assert_eq!(s.current_screen, Screen::Main);
}

#[test]
fn main_menu_arrows_and_enter() {
    let (mut s, mut m) = fresh();
    handle_main_menu_input(&mut s, &mut m, Key::Down);
    handle_main_menu_input(&mut s, &mut m, Key::Char('n'));
    assert_eq!(m.selected, 4);
    handle_main_menu_input(&mut s, &mut m, Key::Char('P'));
    assert_eq!(m.selected, 3);
    assert_eq!(s.current_screen, Screen::Main);
    handle_main_menu_input(&mut s, &mut m, Key::Enter);
    assert_eq!(s.current_screen, Screen::FolderList);
    let (mut s, mut m) = fresh();
    m.selected = 6;
    handle_main_menu_input(&mut s, &mut m, Key::Enter);
    assert!(s.quit);
    assert_eq!(s.current_screen, Screen::Main);
}

#[test]
fn main_menu_ignores_other_keys() {
    let (mut s, mut m) = fresh();
    handle_main_menu_input(&mut s, &mut m, Key::Char('x'));
    handle_main_menu_input(&mut s, &mut m, Key::Esc);
    handle_main_menu_input(&mut s, &mut m, Key::Other);
    assert_eq!(s.current_screen, Screen::Main);
    assert_eq!(m.selected, 2);
    assert!(!s.quit);
}

#[test]
fn message_index_keys() {
    let (mut s, _) = fresh();
    s.goto_screen(Screen::MessageIndex);
    handle_message_index_input(&mut s, Key::Char('<'));
    assert_eq!(s.current_screen, Screen::Main);
    s.goto_screen(Screen::MessageIndex);
    handle_message_index_input(&mut s, Key::Char('?'));
    assert_eq!(s.current_screen, Screen::Help);
    s.goto_screen(Screen::MessageIndex);
    handle_message_index_input(&mut s, Key::Esc);
    assert_eq!(s.current_screen, Screen::MessageIndex);
    handle_message_index_input(&mut s, Key::Char('Q'));
    assert!(s.quit);
}

#[test]
fn help_goes_back_to_previous_screen() {
    let (mut s, _) = fresh();
    s.goto_screen(Screen::Setup);
    s.goto_screen(Screen::Help);
    handle_help_input(&mut s, Key::Char('e'));
    assert_eq!(s.current_screen, Screen::Setup);
    s.goto_screen(Screen::Help);
    handle_help_input(&mut s, Key::Esc);
    assert_eq!(s.current_screen, Screen::Setup);
    s.goto_screen(Screen::Help);
    handle_help_input(&mut s, Key::Char('M'));
    assert_eq!(s.current_screen, Screen::Main);
    assert_eq!(s.prev_screen, Screen::Help);
    s.goto_screen(Screen::Help);
    handle_help_input(&mut s, Key::Char('m'));
    assert_eq!(s.current_screen, Screen::Main);
    s.goto_screen(Screen::Help);
    handle_help_input(&mut s, Key::Char('x'));
    assert_eq!(s.current_screen, Screen::Help);
    handle_help_input(&mut s, Key::Char('q'));
    assert!(s.quit);
}

#[test]
fn placeholder_keys() {
    let (mut s, _) = fresh();
    s.goto_screen(Screen::AddressBook);
    handle_placeholder_input(&mut s, Key::Esc);
    assert_eq!(s.current_screen, Screen::Main);
    s.goto_screen(Screen::Compose);
    handle_placeholder_input(&mut s, Key::Char('m'));
    assert_eq!(s.current_screen, Screen::Main);
    s.goto_screen(Screen::Compose);
    handle_placeholder_input(&mut s, Key::Char('?'));
    assert_eq!(s.current_screen, Screen::Help);
    assert_eq!(s.prev_screen, Screen::Compose);
}

#[test]
fn dispatch_ignores_releases() {
    let (mut s, mut m) = fresh();
    let k = KeyInput { code: Key::Char('q'), pressed: false, ctrl: false };
    assert_eq!(dispatch_key(&mut s, &mut m, k), Flow::Continue);
    assert!(!s.quit);
}

#[test]
fn dispatch_control_c_exits_everywhere() {
    for screen in [Screen::Main, Screen::Help, Screen::MessageIndex, Screen::Compose] {
        let (mut s, mut m) = fresh();
        s.goto_screen(screen);
        let k = KeyInput { code: Key::Char('c'), pressed: true, ctrl: true };
        assert_eq!(dispatch_key(&mut s, &mut m, k), Flow::Exit);
        assert_eq!(s.current_screen, screen);
    }
    // Control with another key is handled as the key itself.
    let (mut s, mut m) = fresh();
    let k = KeyInput { code: Key::Char('C'), pressed: true, ctrl: true };
    assert_eq!(dispatch_key(&mut s, &mut m, k), Flow::Continue);
    assert_eq!(s.current_screen, Screen::Compose);
}

#[test]
fn dispatch_help_round_trip() {
    let (mut s, mut m) = fresh();
    assert_eq!(dispatch_key(&mut s, &mut m, press('i')), Flow::Continue);
    assert_eq!(dispatch_key(&mut s, &mut m, press('?')), Flow::Continue);
    assert_eq!(s.current_screen, Screen::Help);
    assert_eq!(dispatch_key(&mut s, &mut m, press('E')), Flow::Continue);
    assert_eq!(s.current_screen, Screen::MessageIndex);
    assert_eq!(dispatch_key(&mut s, &mut m, press('M')), Flow::Continue);
    assert_eq!(s.current_screen, Screen::Main);
}

#[test]
fn dispatch_enter_and_quit() {
    let (mut s, mut m) = fresh();
    assert_eq!(dispatch_key(&mut s, &mut m, key(Key::Up)), Flow::Continue);
    assert_eq!(dispatch_key(&mut s, &mut m, key(Key::Enter)), Flow::Continue);
    assert_eq!(s.current_screen, Screen::Compose);
    let (mut s, mut m) = fresh();
    for _ in 0..4 {
        dispatch_key(&mut s, &mut m, key(Key::Down));
    }
    assert_eq!(dispatch_key(&mut s, &mut m, key(Key::Enter)), Flow::Exit);
    assert!(s.quit);
    let (mut s, mut m) = fresh();
    assert_eq!(dispatch_key(&mut s, &mut m, press('Q')), Flow::Exit);
}

#[test]
fn dispatch_quit_screen_exits_on_any_key() {
    let (mut s, mut m) = fresh();
    s.goto_screen(Screen::Quit);
    assert_eq!(dispatch_key(&mut s, &mut m, press('x')), Flow::Exit);
    assert_eq!(s.current_screen, Screen::Quit);
}

#[test]
fn dispatch_keeps_messages_and_highlight_in_range() {
    let (mut s, mut m) = fresh();
    s.status_message("Welcome to Alpenrose. Press ? for help.".to_string());
    for c in ['n', 'n', 'n', 'n', 'n', 'n', 'p', 'x', '?', 'e', 'I', '<'] {
        dispatch_key(&mut s, &mut m, press(c));
        assert!(m.selected < MENU_LEN);
    }
    assert_eq!(s.status_messages.len(), 1);
    assert_eq!(m.selected, 5);
}

#[test]
fn session_start_queues_welcome() {
    let (mut s, _) = fresh();
    s.status_message("earlier".to_string());
    s.start_session();
    assert_eq!(
        s.status_messages,
        vec!["earlier".to_string(), "Welcome to Alpenrose. Press ? for help.".to_string()]
    );
    assert_eq!(s.current_screen, Screen::Main);
}

#[test]
fn frame_drawn_records_size_and_clears_repaint() {
    let (mut s, _) = fresh();
    s.frame_drawn(50, 132);
    assert_eq!(s.term.rows, 50);
    assert_eq!(s.term.cols, 132);
    assert!(!s.repaint.header && !s.repaint.footer && !s.repaint.body && !s.repaint.screen);
    assert_eq!(s.current_screen, Screen::Main);
}

#[test]
fn m_returns_to_main_from_help() {
    let (mut s, mut m) = fresh();
    dispatch_key(&mut s, &mut m, press('a'));
    dispatch_key(&mut s, &mut m, press('?'));
    assert_eq!(s.current_screen, Screen::Help);
    assert_eq!(dispatch_key(&mut s, &mut m, press('M')), Flow::Continue);
    assert_eq!(s.current_screen, Screen::Main);
}
