# scarab_client

The logic of the Scarab terminal client as a library verified with Verus:
navigation state per pane, focusable detection, plugin hosting and its rate
limiter, the plugin marketplace, session recording and replay, the entity
and image inspectors, accessibility exports and commands, daemon event
conversion, copy-mode highlighting and the benchmark arithmetic.

- `src/` — the verified library. Calls into outside crates (regex, base64,
  chrono, serde_json, std's clock) go through small trusted wrappers whose
  contracts are stated next to them.
- `tests/` — tests of the library.
- `app/` — the program around it: the Bevy window and systems, the daemon
  socket, files, floating-point formatting, and the benchmark runner.
