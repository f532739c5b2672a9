# menuforge

A selection menu for terminals: a list of entries shown in a scrolling window
of a fixed number of lines, a cursor moved with the keyboard, and a prompt that
ends with the chosen entry or with none.

- `src/` is the verified library: the window layout (`Select::line_layout`,
  `Select::frame`), the placement of the menu on the terminal
  (`RawSelect::place`), key events and their bindings (`Keys`), and the
  prompt's reaction to each key (`RawSelect::raw_prompt`, `Select::step`).
  The laws of the layout, the bindings and the placement are proof functions
  beside the code they speak of.
- `app/` is the terminal side, built on crossterm: it reads the cursor
  position, the terminal size and key events, runs the prompt loop, and draws
  the layouts that the library computes.
- `tests/` runs the library on concrete menus.
