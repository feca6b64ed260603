# scufris

The decisions of the Scufris assistant's desktop companion, its background
service and its terminal client, written in Verus and proved against their
contracts.

- `src/` is the library. `state.rs` is the companion's state machine,
  `daemon.rs` the service's, `voice.rs` the speaker's; `service.rs`,
  `command.rs` and `control.rs` are the message rules of the two sockets;
  `config.rs` and `daemon_config.rs` resolve configuration; `form.rs`,
  `pill.rs`, `hud.rs`, `display.rs` and `keys.rs` hold window geometry and
  display answers; `tray.rs` draws the tray icon; `stt.rs` and `pending.rs`
  build and read what goes to the transcription endpoint and to disk;
  `laws.rs` states and proves what holds across calls.
- `app/` is the runtime around it: sockets, processes, files, the X display,
  the environment and the JSON encodings. It decides nothing. The windows
  themselves (pill, HUD, form box, tray menu and global hotkeys) and the loop
  that feeds the companion its events need the Tauri toolkit and its
  global-shortcut plugin, which this build does not depend on, so they are
  not here; nor are readers and writers for the surface, agent and control
  sockets, whose rules the library holds.
- `tests/` runs the library on concrete values.
