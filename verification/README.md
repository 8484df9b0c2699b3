# local_voice

The verified core of a small offline voice scratchpad for the desktop: a
global shortcut starts a microphone capture, a local speech worker turns it
into text, and the text can be edited, copied or pasted into the focused
application.

`src/` is the library, written in Verus and proved against its contracts:

- `text`: Unicode white-space trimming, substring search, decimal notation
  and the lowercase mapping.
- `settings`: preferences, their defaults, language normalisation and the
  sanitising pass (valid results, idempotence).
- `tray`: the tray status, its labels and tooltip, and the menu actions.
- `session`: the single active recording, job identifiers, the capture
  command and the checks made when a capture ends.
- `transcribe`: the worker's command line and the reading of its answer.
- `paste`, `window`: the paste chord for the focused window, and the parsing
  of the X11 property tool's output.
- `runtime`, `diagnostics`: interpreter lookup, temporary-root rules and the
  start-up health report.

`app/` is the Tauri shell around it: commands, processes, files, clipboard,
key automation and the tray icon drawing.
