# iota_wallet_tui

The verified core of a terminal wallet for the IOTA network, written in
Verus.

- `src/` is the library. It holds the application state (`state`), the
  display types (`types`, `lookup`), amount formatting and parsing
  (`formatting`, `text`), the list, filter and portfolio computations
  (`listing`, `portfolio`, `nav`), the reactions to the wallet backend's
  events (`events`), and the keyboard handling of every layer: popups
  (`popup_keys`, `command_form`, `autocomplete`), the context menu
  (`context_keys`), the list screens and the transaction builder
  (`screen_keys`), the explorer (`explorer`, `explorer_keys`), the box grid
  (`grid_keys`), hint clicks (`hints`), the dispatcher (`dispatch`), mouse
  clicks hit-tested against the last frame (`mouse`), the popup boxes
  (`geometry`), calendar dates (`calendar`), and the one-line rendering of
  JSON values (`json`).
  Every function carries a contract that Verus proves.
- `app/` is the terminal program around it: terminal set-up, the event loop
  (keys, mouse clicks with double-click timing, and the mouse wheel), drawing,
  the clipboard and the files (address book, network, theme, error log, CSV
  exports). It is incomplete: there is no wallet backend yet (the commands
  the library queues are sent into a channel that nothing reads, so no
  network event ever reaches the library), stored keys are not loaded, and
  popups are drawn as plain boxes listing their name, input line or menu.
  It does not build here, since the IOTA SDK it names is not available.
- `tests/` runs the library on concrete inputs.
