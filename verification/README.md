# animus-tui

Terminal control plane for the Animus daemon, as a verified library plus a
thin terminal application.

- `src/` (verified with Verus): the keymap (`keybinds`), the UI state
  machine and the folding of daemon answers into it (`app`), the content of
  every view and of the sticky header (`views`, `widgets`), the scope naming
  and socket precedence rules (`control_client`), and the text helpers they
  share (`text`).
- `app/`: the binary. It owns the daemon connection, the log stream, the
  clock, the file system and the terminal; it converts protocol and
  crossterm values into the library's types and draws the library's content
  with ratatui. The cost view stays here because it works on `f64` amounts.
- `tests/`: scenario tests of the library.
