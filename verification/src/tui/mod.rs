//! The decisions of the main loop: what a key press does on each screen,
//! and whether the loop goes on. The loop itself, which draws the screen
//! and reads keys from the terminal, runs around these functions.
pub mod draw;

use vstd::prelude::*;

use crate::pith::state::{after_goto, after_quit, AppState};
use crate::screen::main_menu::{
    item_key, item_target, lemma_menu_lines_show_items, menu_lines, menu_items, selection_down, selection_up, MainMenuState, MENU_LEN,
};
use crate::screen::Screen;

verus! {

/// A key as the screens see it.
#[derive(Debug, Clone, Copy, PartialEq, Eq, Structural)]
pub enum Key {
    Up,
    Down,
    Enter,
    Esc,
    Char(char),
    /// Any other key; no screen acts on it.
    Other,
}

/// A keyboard event: the key, whether it was a press (and not a release
/// or a repeat), and whether Control was held.
#[derive(Debug, Clone, Copy, PartialEq, Eq, Structural)]
pub struct KeyInput {
    pub code: Key,
    pub pressed: bool,
    pub ctrl: bool,
}

/// Whether the main loop goes on after an event.
#[derive(Debug, Clone, Copy, PartialEq, Eq, Structural)]
pub enum Flow {
    Continue,
    Exit,
}

/// What a key does on the main menu, to the state and to the highlight.
pub open spec fn main_menu_step(s: AppState, selected: usize, key: Key) -> (AppState, usize) {
    match key {
        Key::Up | Key::Char('p') | Key::Char('P') => (s, selection_up(selected)),
        Key::Down | Key::Char('n') | Key::Char('N') => (s, selection_down(selected)),
        Key::Enter => {
            let target = item_target(menu_items()[selected as int]);
            if target == Screen::Quit {
                (after_quit(s), selected)
            } else {
                (after_goto(s, target), selected)
            }
        },
        Key::Char('?') => (after_goto(s, Screen::Help), selected),
        Key::Char('c') | Key::Char('C') => (after_goto(s, Screen::Compose), selected),
        Key::Char('i') | Key::Char('I') => (after_goto(s, Screen::MessageIndex), selected),
        Key::Char('l') | Key::Char('L') => (after_goto(s, Screen::FolderList), selected),
        Key::Char('a') | Key::Char('A') => (after_goto(s, Screen::AddressBook), selected),
        Key::Char('s') | Key::Char('S') => (after_goto(s, Screen::Setup), selected),
        Key::Char('q') | Key::Char('Q') => (after_quit(s), selected),
        _ => (s, selected),
    }
}

/// What a key does on the message index.
pub open spec fn message_index_step(s: AppState, key: Key) -> AppState {
    match key {
        Key::Char('<') | Key::Char('m') | Key::Char('M') => after_goto(s, Screen::Main),
        Key::Char('?') => after_goto(s, Screen::Help),
        Key::Char('q') | Key::Char('Q') => after_quit(s),
        _ => s,
    }
}

/// What a key does on the help screen: back to the previous screen, to
/// the main menu (M, which the help text promises on every screen), or
/// quit.
pub open spec fn help_step(s: AppState, key: Key) -> AppState {
    match key {
        Key::Char('e') | Key::Char('E') | Key::Char('<') | Key::Esc => after_goto(s, s.prev_screen),
        Key::Char('m') | Key::Char('M') => after_goto(s, Screen::Main),
        Key::Char('q') | Key::Char('Q') => after_quit(s),
        _ => s,
    }
}

/// What a key does on a screen that is not implemented yet.
pub open spec fn placeholder_step(s: AppState, key: Key) -> AppState {
    match key {
        Key::Char('<') | Key::Char('m') | Key::Char('M') | Key::Esc => after_goto(s, Screen::Main),
        Key::Char('?') => after_goto(s, Screen::Help),
        Key::Char('q') | Key::Char('Q') => after_quit(s),
        _ => s,
    }
}

/// Whether the event is Control-C, which always ends the loop.
pub open spec fn is_interrupt(key: KeyInput) -> bool {
    key.ctrl && key.code == Key::Char('c')
}

/// Whether the event picks the highlighted item of the main menu.
pub open spec fn picks_highlighted(s: AppState, key: KeyInput) -> bool {
    &&& key.pressed
    &&& !is_interrupt(key)
    &&& s.current_screen == Screen::Main
    &&& key.code == Key::Enter
}

/// The state, the highlight and the loop's course after one event.
pub open spec fn dispatch(s: AppState, selected: usize, key: KeyInput) -> (AppState, usize, Flow) {
    if !key.pressed {
        (s, selected, Flow::Continue)
    } else if is_interrupt(key) {
        (s, selected, Flow::Exit)
    } else {
        let (s2, sel2) = match s.current_screen {
            Screen::Main => main_menu_step(s, selected, key.code),
            Screen::MessageIndex => (message_index_step(s, key.code), selected),
            Screen::Help => (help_step(s, key.code), selected),
            Screen::Quit => (s, selected),
            _ => (placeholder_step(s, key.code), selected),
        };
        if s.current_screen == Screen::Quit || s2.quit {
            (s2, sel2, Flow::Exit)
        } else {
            (s2, sel2, Flow::Continue)
        }
    }
}

/// Acts on a key on the main menu: arrows (and p, n) move the highlight,
/// Enter picks the highlighted item, and each item's letter picks it.
pub fn handle_main_menu_input(state: &mut AppState, menu: &mut MainMenuState, key: Key)
    requires
        key == Key::Enter ==> old(menu).selected < MENU_LEN,
    ensures
        (*final(state), final(menu).selected) == main_menu_step(*old(state), old(menu).selected, key),
{
    match key {
        Key::Up | Key::Char('p') | Key::Char('P') => menu.up(),
        Key::Down | Key::Char('n') | Key::Char('N') => menu.down(),
        Key::Enter => {
            let item = menu.selected_item();
            if let Some(screen) = item.target_screen() {
                if screen == Screen::Quit {
                    state.quit = true;
                } else {
                    state.goto_screen(screen);
                }
            }
        },
        Key::Char('?') => state.goto_screen(Screen::Help),
        Key::Char('c') | Key::Char('C') => state.goto_screen(Screen::Compose),
        Key::Char('i') | Key::Char('I') => state.goto_screen(Screen::MessageIndex),
        Key::Char('l') | Key::Char('L') => state.goto_screen(Screen::FolderList),
        Key::Char('a') | Key::Char('A') => state.goto_screen(Screen::AddressBook),
        Key::Char('s') | Key::Char('S') => state.goto_screen(Screen::Setup),
        Key::Char('q') | Key::Char('Q') => state.quit = true,
        _ => {},
    }
}

/// Acts on a key on the message index: back to the main menu, help, quit.
pub fn handle_message_index_input(state: &mut AppState, key: Key)
    ensures
        *final(state) == message_index_step(*old(state), key),
{
    match key {
        Key::Char('<') | Key::Char('m') | Key::Char('M') => state.goto_screen(Screen::Main),
        Key::Char('?') => state.goto_screen(Screen::Help),
        Key::Char('q') | Key::Char('Q') => state.quit = true,
        _ => {},
    }
}

/// Acts on a key on the help screen: back to the previous screen, to the
/// main menu, or quit.
pub fn handle_help_input(state: &mut AppState, key: Key)
    ensures
        *final(state) == help_step(*old(state), key),
{
    match key {
        Key::Char('e') | Key::Char('E') | Key::Char('<') | Key::Esc => {
            let back = state.prev_screen;
            state.goto_screen(back);
        },
        Key::Char('m') | Key::Char('M') => state.goto_screen(Screen::Main),
        Key::Char('q') | Key::Char('Q') => state.quit = true,
        _ => {},
    }
}

/// Acts on a key on a screen that is not implemented yet: back to the
/// main menu, help, quit.
pub fn handle_placeholder_input(state: &mut AppState, key: Key)
    ensures
        *final(state) == placeholder_step(*old(state), key),
{
    match key {
        Key::Char('<') | Key::Char('m') | Key::Char('M') | Key::Esc => state.goto_screen(Screen::Main),
        Key::Char('?') => state.goto_screen(Screen::Help),
        Key::Char('q') | Key::Char('Q') => state.quit = true,
        _ => {},
    }
}

/// Handles one keyboard event of the main loop: releases and repeats are
/// ignored, Control-C ends the loop, the Quit screen ends it on any key,
/// and otherwise the current screen acts on the key; the loop ends once
/// the user asked to quit.
pub fn dispatch_key(state: &mut AppState, menu: &mut MainMenuState, key: KeyInput) -> (flow: Flow)
    requires
        picks_highlighted(*old(state), key) ==> old(menu).selected < MENU_LEN,
    ensures
        (*final(state), final(menu).selected, flow) == dispatch(*old(state), old(menu).selected, key),
{
    if !key.pressed {
        return Flow::Continue;
    }
    if key.ctrl && key.code == Key::Char('c') {
        return Flow::Exit;
    }
    match state.current_screen {
        Screen::Main => handle_main_menu_input(state, menu, key.code),
        Screen::MessageIndex => handle_message_index_input(state, key.code),
        Screen::Help => handle_help_input(state, key.code),
        Screen::Quit => {
            return Flow::Exit;
        },
        _ => handle_placeholder_input(state, key.code),
    }
    if state.quit {
        Flow::Exit
    } else {
        Flow::Continue
    }
}

/// A plain press of a character key.
pub open spec fn press(c: char) -> KeyInput {
    KeyInput { code: Key::Char(c), pressed: true, ctrl: false }
}

/// Releases and repeats change nothing and the loop goes on.
pub proof fn lemma_only_presses_act(s: AppState, selected: usize, key: KeyInput)
    requires
        !key.pressed,
    ensures
        dispatch(s, selected, key) == (s, selected, Flow::Continue),
{
}

/// Control-C ends the loop on every screen and changes nothing.
pub proof fn lemma_interrupt_always_exits(s: AppState, selected: usize)
    ensures
        dispatch(s, selected, KeyInput { code: Key::Char('c'), pressed: true, ctrl: true })
            == (s, selected, Flow::Exit),
{
}

/// Q (either case) ends the loop on every screen.
pub proof fn lemma_q_quits_everywhere(s: AppState, selected: usize)
    ensures
        dispatch(s, selected, press('q')).2 == Flow::Exit,
        dispatch(s, selected, press('Q')).2 == Flow::Exit,
{
}

/// Whether the key leaves the help screen for the screen it was opened
/// from: E (either case), `<` or Esc.
pub open spec fn is_help_exit(k: Key) -> bool {
    k == Key::Char('E') || k == Key::Char('e') || k == Key::Char('<') || k == Key::Esc
}

/// Help, then E, e, `<` or Esc, comes back to the screen help was opened
/// from, with the menu highlight unchanged, on every screen that offers
/// help.
pub proof fn lemma_help_returns_to_previous_screen(s: AppState, selected: usize, back: Key)
    requires
        s.current_screen != Screen::Help,
        s.current_screen != Screen::Quit,
        !s.quit,
        is_help_exit(back),
    ensures
        ({
            let (s1, sel1, f1) = dispatch(s, selected, press('?'));
            let (s2, sel2, f2) = dispatch(s1, sel1, KeyInput { code: back, pressed: true, ctrl: false });
            &&& f1 == Flow::Continue
            &&& s1.current_screen == Screen::Help
            &&& f2 == Flow::Continue
            &&& s2.current_screen == s.current_screen
            &&& sel2 == selected
        }),
{
}

/// On the main menu, Enter does exactly what the highlighted item's
/// accelerator key does.
pub proof fn lemma_enter_acts_as_accelerator(s: AppState, selected: usize)
    requires
        s.current_screen == Screen::Main,
        selected < MENU_LEN,
    ensures
        dispatch(s, selected, KeyInput { code: Key::Enter, pressed: true, ctrl: false })
            == dispatch(s, selected, press(item_key(menu_items()[selected as int]))),
{
}

/// M, in either case, returns to the main menu from every screen; the
/// Quit screen ends the loop on any key instead.
pub proof fn lemma_m_returns_to_main(s: AppState, selected: usize)
    requires
        s.current_screen != Screen::Quit,
        !s.quit,
    ensures
        dispatch(s, selected, press('M')).0.current_screen == Screen::Main,
        dispatch(s, selected, press('M')).2 == Flow::Continue,
        dispatch(s, selected, press('m')).0.current_screen == Screen::Main,
        dispatch(s, selected, press('m')).2 == Flow::Continue,
{
}

/// On the message index and on the screens not implemented yet, `<` goes
/// back to the main menu, remembering the screen it was pressed on; on
/// those not implemented yet Esc does the same.
pub proof fn lemma_back_to_main(s: AppState, selected: usize)
    requires
        s.current_screen != Screen::Main,
        s.current_screen != Screen::Help,
        s.current_screen != Screen::Quit,
        !s.quit,
    ensures
        dispatch(s, selected, press('<')).0 == after_goto(s, Screen::Main),
        dispatch(s, selected, press('<')).2 == Flow::Continue,
        s.current_screen != Screen::MessageIndex ==> dispatch(
            s,
            selected,
            KeyInput { code: Key::Esc, pressed: true, ctrl: false },
        ).0 == after_goto(s, Screen::Main),
{
}

/// The character in lower case where it is an ASCII capital letter.
pub open spec fn lower_char(c: char) -> char {
    if 'A' <= c && c <= 'Z' {
        ((c as int) + 32) as char
    } else {
        c
    }
}

/// On the main menu each item's accelerator, in either case, opens the
/// screen the item leads to, remembering the main menu, or for QUIT ends
/// the loop; the highlight stays where it was.
pub proof fn lemma_accelerators_open_their_screens(s: AppState, selected: usize, i: int)
    requires
        s.current_screen == Screen::Main,
        !s.quit,
        0 <= i < MENU_LEN,
    ensures
        ({
            let item = menu_items()[i];
            let target = item_target(item);
            forall|c: char|
                c == item_key(item) || c == lower_char(item_key(item)) ==> {
                    let (s2, sel2, flow) = #[trigger] dispatch(s, selected, press(c));
                    &&& sel2 == selected
                    &&& target == Screen::Quit ==> s2 == after_quit(s) && flow == Flow::Exit
                    &&& target != Screen::Quit ==> s2 == after_goto(s, target) && flow == Flow::Continue
                }
        }),
{
    let item = menu_items()[i];
    assert(lower_char('C') == 'c');
    assert(lower_char('I') == 'i');
    assert(lower_char('L') == 'l');
    assert(lower_char('A') == 'a');
    assert(lower_char('S') == 's');
    assert(lower_char('Q') == 'q');
    assert(lower_char('?') == '?');
}

/// Keys keep the highlight on an item of the menu, and never touch the
/// configuration, the terminal size or the queued status messages.
pub proof fn lemma_dispatch_invariants(s: AppState, selected: usize, key: KeyInput)
    requires
        selected < MENU_LEN,
    ensures
        dispatch(s, selected, key).1 < MENU_LEN,
        dispatch(s, selected, key).0.config == s.config,
        dispatch(s, selected, key).0.term == s.term,
        dispatch(s, selected, key).0.status_messages == s.status_messages,
        dispatch(s, selected, key).0.version == s.version,
{
}

/// On the main menu, the key shown on the marked line of the menu does
/// what Enter does: the highlighted line and Enter name the same item.
pub proof fn lemma_marked_line_key_acts_as_enter(s: AppState, selected: usize)
    requires
        s.current_screen == Screen::Main,
        selected < MENU_LEN,
    ensures
        menu_lines(selected)[selected + 1][1].0.len() > 0,
        dispatch(s, selected, press(menu_lines(selected)[selected + 1][1].0[0]))
            == dispatch(s, selected, KeyInput { code: Key::Enter, pressed: true, ctrl: false }),
{
    lemma_menu_lines_show_items(selected, selected as int);
    let key_text = menu_lines(selected)[selected + 1][1].0;
    assert(key_text[0] == item_key(menu_items()[selected as int]));
    lemma_enter_acts_as_accelerator(s, selected);
}

/// A plain press of a key.
pub open spec fn press_key(k: Key) -> KeyInput {
    KeyInput { code: k, pressed: true, ctrl: false }
}

/// On the main menu, Up (and p, P) moves the highlight one item up and
/// Down (and n, N) one item down, staying on the first and last item;
/// nothing else changes and the loop goes on.
pub proof fn lemma_arrows_move_highlight(s: AppState, selected: usize, k: Key)
    requires
        s.current_screen == Screen::Main,
        !s.quit,
        selected < MENU_LEN,
    ensures
        k == Key::Up || k == Key::Char('p') || k == Key::Char('P') ==> dispatch(s, selected, press_key(k))
            == (s, if selected > 0 { (selected - 1) as usize } else { selected }, Flow::Continue),
        k == Key::Down || k == Key::Char('n') || k == Key::Char('N') ==> dispatch(s, selected, press_key(k))
            == (s, if selected + 1 < MENU_LEN { (selected + 1) as usize } else { selected }, Flow::Continue),
{
}

/// The keys the main menu acts on.
pub open spec fn main_menu_acts_on(k: Key) -> bool {
    match k {
        Key::Up | Key::Down | Key::Enter => true,
        Key::Char(c) => c == 'p' || c == 'P' || c == 'n' || c == 'N' || c == '?' || c == 'c' || c == 'C'
            || c == 'i' || c == 'I' || c == 'l' || c == 'L' || c == 'a' || c == 'A' || c == 's' || c == 'S'
            || c == 'q' || c == 'Q',
        _ => false,
    }
}

/// The keys the message index acts on.
pub open spec fn message_index_acts_on(k: Key) -> bool {
    k == Key::Char('<') || k == Key::Char('m') || k == Key::Char('M') || k == Key::Char('?')
        || k == Key::Char('q') || k == Key::Char('Q')
}

/// The keys the help screen acts on.
pub open spec fn help_acts_on(k: Key) -> bool {
    is_help_exit(k) || k == Key::Char('m') || k == Key::Char('M') || k == Key::Char('q') || k == Key::Char('Q')
}

/// The keys the screens not implemented yet act on.
pub open spec fn placeholder_acts_on(k: Key) -> bool {
    k == Key::Char('<') || k == Key::Char('m') || k == Key::Char('M') || k == Key::Esc || k == Key::Char('?')
        || k == Key::Char('q') || k == Key::Char('Q')
}

/// Every other key changes nothing on each screen, and the loop goes on.
pub proof fn lemma_other_keys_do_nothing(s: AppState, selected: usize, k: Key)
    requires
        !s.quit,
        s.current_screen != Screen::Quit,
        s.current_screen == Screen::Main ==> !main_menu_acts_on(k),
        s.current_screen == Screen::MessageIndex ==> !message_index_acts_on(k),
        s.current_screen == Screen::Help ==> !help_acts_on(k),
        s.current_screen != Screen::Main && s.current_screen != Screen::MessageIndex
            && s.current_screen != Screen::Help ==> !placeholder_acts_on(k),
    ensures
        dispatch(s, selected, press_key(k)) == (s, selected, Flow::Continue),
{
}

} // verus!
