//! Application state: the current screen, the terminal geometry, the repaint
//! flags and the queue of status messages.
use vstd::prelude::*;

use crate::config::Config;
use crate::screen::Screen;

verus! {

/// Version of the client, shown in title bars.
pub const VERSION: &'static str = "0.1.0";

/// The central application state, threaded through the main loop.
pub struct AppState {
    /// Screen on display.
    pub current_screen: Screen,
    /// Screen shown before the current one.
    pub prev_screen: Screen,
    /// Runtime configuration.
    pub config: Config,
    /// Terminal dimensions.
    pub term: TermInfo,
    /// Which parts of the screen must be drawn again.
    pub repaint: RepaintFlags,
    /// Version shown in title bars.
    pub version: &'static str,
    /// Whether the client should quit.
    pub quit: bool,
    /// Status messages for the footer, oldest first.
    pub status_messages: Vec<String>,
}

/// Terminal geometry.
#[derive(Debug, Clone)]
pub struct TermInfo {
    pub rows: u16,
    pub cols: u16,
}

/// Repaint flags: which of header, footer, body and whole screen are
/// stale.
#[derive(Debug)]
pub struct RepaintFlags {
    pub header: bool,
    pub footer: bool,
    pub body: bool,
    pub screen: bool,
}

/// Every part must be drawn again.
pub open spec fn repaint_everything() -> RepaintFlags {
    RepaintFlags { header: true, footer: true, body: true, screen: true }
}

/// Nothing needs to be drawn again.
pub open spec fn repaint_nothing() -> RepaintFlags {
    RepaintFlags { header: false, footer: false, body: false, screen: false }
}

/// The state after moving to `screen`: the current screen becomes the
/// previous one and everything is to be drawn again.
pub open spec fn after_goto(s: AppState, screen: Screen) -> AppState {
    AppState { prev_screen: s.current_screen, current_screen: screen, repaint: repaint_everything(), ..s }
}

/// The state after the user asked to quit.
pub open spec fn after_quit(s: AppState) -> AppState {
    AppState { quit: true, ..s }
}

/// Terminal size assumed where the terminal cannot be asked: 80 columns
/// and 24 rows.
pub open spec fn fallback_size() -> (u16, u16) {
    (80, 24)
}

/// The state a session starts in, given the terminal size as
/// `(columns, rows)` if it is known.
pub open spec fn initial_state(s: AppState, config: Config, size: Option<(u16, u16)>) -> bool {
    let (cols, rows) = match size {
        Some(sz) => sz,
        None => fallback_size(),
    };
    &&& s.current_screen == Screen::Main
    &&& s.prev_screen == Screen::Main
    &&& s.config == config
    &&& s.term.rows == rows
    &&& s.term.cols == cols
    &&& s.repaint == repaint_everything()
    &&& s.version@ == VERSION@
    &&& !s.quit
    &&& s.status_messages@.len() == 0
}

impl Default for RepaintFlags {
    /// Nothing to draw again.
    fn default() -> (r: RepaintFlags)
        ensures
            r == repaint_nothing(),
    {
        RepaintFlags { header: false, footer: false, body: false, screen: false }
    }
}

impl RepaintFlags {
    /// Marks every part to be drawn again.
    pub fn all(&mut self)
        ensures
            *final(self) == repaint_everything(),
    {
        self.header = true;
        self.footer = true;
        self.body = true;
        self.screen = true;
    }

    /// Marks every part as drawn.
    pub fn clear(&mut self)
        ensures
            *final(self) == repaint_nothing(),
    {
        self.header = false;
        self.footer = false;
        self.body = false;
        self.screen = false;
    }
}

/// Asks the terminal for its size with `crossterm::terminal::size`, which
/// gives `(columns, rows)`, and gives `None` where the terminal cannot be
/// asked. The answer depends on the terminal the process runs in, so
/// nothing is stated of it.
#[verifier::external_body]
fn terminal_size() -> (size: Option<(u16, u16)>) {
    crossterm::terminal::size().ok()
}

/// The status message that greets the user when the main loop starts.
pub open spec fn welcome_message() -> Seq<char> {
    "Welcome to Alpenrose. Press ? for help."@
}

impl AppState {
    /// A new session on the main menu with the given configuration, sized
    /// to the terminal (80 by 24 where the terminal cannot be asked), with
    /// everything to be drawn.
    pub fn new(config: Config) -> (s: AppState)
        ensures
            exists|size: Option<(u16, u16)>| initial_state(s, config, size),
    {
        let size = terminal_size();
        Self::with_terminal_size(config, size)
    }

    /// A new session on the main menu with the given configuration and
    /// terminal size `(columns, rows)`, or 80 by 24 where it is `None`.
    pub fn with_terminal_size(config: Config, size: Option<(u16, u16)>) -> (s: AppState)
        ensures
            initial_state(s, config, size),
    {
        let (cols, rows) = match size {
            Some(sz) => sz,
            None => (80, 24),
        };
        let mut state = AppState {
            current_screen: Screen::Main,
            prev_screen: Screen::Main,
            config,
            term: TermInfo { rows, cols },
            repaint: RepaintFlags::default(),
            version: VERSION,
            quit: false,
            status_messages: Vec::new(),
        };
        state.repaint.all();
        state
    }

    /// Queues a status message for the footer.
    pub fn status_message(&mut self, msg: String)
        ensures
            final(self).status_messages@ == old(self).status_messages@.push(msg),
            *final(self) == (AppState { status_messages: final(self).status_messages, ..*old(self) }),
    {
        self.status_messages.push(msg);
    }

    /// Takes every queued status message, oldest first, and leaves the
    /// queue empty.
    pub fn drain_status(&mut self) -> (msgs: Vec<String>)
        ensures
            msgs@ == old(self).status_messages@,
            final(self).status_messages@.len() == 0,
            *final(self) == (AppState { status_messages: final(self).status_messages, ..*old(self) }),
    {
        let mut msgs: Vec<String> = Vec::new();
        std::mem::swap(&mut msgs, &mut self.status_messages);
        msgs
    }

    /// Starts the main loop's session: queues the welcome message.
    pub fn start_session(&mut self)
        ensures
            final(self).status_messages@.len() == old(self).status_messages@.len() + 1,
            final(self).status_messages@.drop_last() == old(self).status_messages@,
            final(self).status_messages@.last()@ == welcome_message(),
            *final(self) == (AppState { status_messages: final(self).status_messages, ..*old(self) }),
    {
        self.status_message(String::from_str("Welcome to Alpenrose. Press ? for help."));
        assert(self.status_messages@.drop_last() =~= old(self).status_messages@);
    }

    /// Records that a frame `rows` by `cols` has been drawn: the terminal
    /// size is the frame's and nothing is left to draw again.
    pub fn frame_drawn(&mut self, rows: u16, cols: u16)
        ensures
            *final(self) == (AppState { term: TermInfo { rows, cols }, repaint: repaint_nothing(), ..*old(self) }),
    {
        self.term.rows = rows;
        self.term.cols = cols;
        self.repaint.clear();
    }

    /// Moves to `screen`, remembering the current one as the previous
    /// screen, and marks everything to be drawn again.
    pub fn goto_screen(&mut self, screen: Screen)
        ensures
            *final(self) == after_goto(*old(self), screen),
    {
        self.prev_screen = self.current_screen;
        self.current_screen = screen;
        self.repaint.all();
    }
}

} // verus!
