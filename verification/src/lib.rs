//! Alpenrose: the logic of a keyboard-driven mail client shell in the
//! style of Alpine, verified with Verus.
//!
//! The library holds the screen state machine, the main menu, the key
//! dispatch of every screen, what each screen draws (as plain text and
//! styles placed in areas), the command-line arguments and the
//! configuration defaults. Drawing on a terminal and reading keys,
//! files and the environment are left to the program around it.
pub mod cli;
pub mod config;
pub mod mail;
pub mod pith;
pub mod screen;
pub mod tui;
