# openclaw_runtime

The decision logic of the MLX Pilot daemon's OpenClaw bridge and of its
desktop shell, written in Verus and verified.

- `src/text.rs`: trimming (Unicode white space), ASCII case folding, decimal
  numerals and joining, with their specifications and laws.
- `src/json.rs`: JSON documents parsed by `serde_json`; each lookup is a
  trusted call whose result is named by an uninterpreted spec function.
- `src/openclaw.rs`: log reads (plan, file look-up, window, chunk), the status
  check, chat requests, the outcome of a CLI call, the normalized chat
  response, and the laws over them.
- `src/desktop.rs`: whether to start the embedded daemon, which address to
  bind, which URL to give the web view, and the script that hands it over.
- `app/`: the processes, files, clock, environment, sockets and the Tauri
  window, driving the library.
- `tests/`: runtime tests of the library.
