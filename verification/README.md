# chukka-obs

Bridge between a water polo match in the chukka cloud and OBS browser
sources: it follows the match over a WebSocket and serves overlays on
`localhost`.

- `src/` — the verified library (Verus): the display engine that decides
  what every overlay shows and when transient overlays expire
  (`display`), the dock summary (`state`), settings and the match URL
  (`config`), message handling and reconnection backoff (`cloud`), the
  connect-request rules and embedded-file responses (`server`), and number
  formatting (`text`).
- `app/` — the program around it: settings file and environment, the cloud
  WebSocket client, timers, the axum server, JSON forms of the types.
- `tests/` — tests of the library.
