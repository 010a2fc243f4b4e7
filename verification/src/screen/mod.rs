//! Screens of the client and what each of them draws.
pub mod help;
pub mod main_menu;
pub mod message_index;
pub mod view;

use vstd::prelude::*;

verus! {

/// All screens of the client.
#[derive(Debug, Clone, Copy, PartialEq, Eq, Structural)]
pub enum Screen {
    /// Main menu: the first thing one sees.
    Main,
    /// Message index of a folder.
    MessageIndex,
    /// Help screen.
    Help,
    /// Compose a new message.
    Compose,
    /// Folder list and selection.
    FolderList,
    /// Address book.
    AddressBook,
    /// Setup and configuration.
    Setup,
    /// Quit confirmation.
    Quit,
}

/// The name of each screen, as its variant is written.
pub open spec fn screen_name(s: Screen) -> Seq<char> {
    match s {
        Screen::Main => "Main"@,
        Screen::MessageIndex => "MessageIndex"@,
        Screen::Help => "Help"@,
        Screen::Compose => "Compose"@,
        Screen::FolderList => "FolderList"@,
        Screen::AddressBook => "AddressBook"@,
        Screen::Setup => "Setup"@,
        Screen::Quit => "Quit"@,
    }
}

impl Screen {
    /// The name of the screen, as its variant is written.
    pub fn name(&self) -> (n: &'static str)
        ensures
            n@ == screen_name(*self),
    {
        match self {
            Screen::Main => "Main",
            Screen::MessageIndex => "MessageIndex",
            Screen::Help => "Help",
            Screen::Compose => "Compose",
            Screen::FolderList => "FolderList",
            Screen::AddressBook => "AddressBook",
            Screen::Setup => "Setup",
            Screen::Quit => "Quit",
        }
    }
}

} // verus!
