# netrunner

Internet speed-test and network-diagnostics engine whose decisions are
verified with Verus.

- `src/` — the verified library (`netrunner_core`): configuration and
  settings edits, the quality colour palette, the server catalogue,
  geolocation fail-over and field validation, selection of the samples that
  make up the sustained throughput, the desktop dashboard's event rules and
  chart buffers, and the simulated diagnostics route. `text` holds the
  string helpers these are built on.
- `app/` — the engine around it: HTTP geolocation and server discovery,
  throughput and latency measurement on Tokio, the diagnostics runner, the
  JSON settings file and the terminal renderer. Floating-point measurement
  lives here.
- `tests/` — tests of the library.
