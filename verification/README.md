# Alpenrose

A keyboard-driven terminal mail client shell, in the style of Alpine. The
library under `src/` is verified with Verus; the program under `app/`
draws on the terminal, reads keys, files and the environment, and hands
plain values to the library.

Layout of `src/`:

- `pith/state.rs`: the application state (current and previous screen,
  terminal size, repaint flags, status messages) and its operations.
- `screen/`: the screens. `main_menu.rs` holds the menu items and the
  highlight; `view.rs` the plain-data description of what is drawn
  (areas, styled lines, panels) and the vertical layout, which is
  ratatui's; `help.rs`, `message_index.rs` and `main_menu.rs` compute the
  panels of each screen.
- `tui/`: what a key does on each screen and whether the main loop goes
  on (`mod.rs`), and which screen is drawn (`draw.rs`).
- `cli.rs`: the command-line arguments and the texts printed for them.
- `config/`: the configuration, its defaults and the configuration file's
  default path.
- `mail/`: envelopes, addresses, flags and message summaries.

The laws of the library (for instance that help, then E, returns to the
screen help was opened from, or that Enter on the main menu does what the
highlighted item's key does) are proof functions beside the code they
speak of.
