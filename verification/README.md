# anime_manga

A terminal browser for anime streams and manga chapters, and the small
local HTTP service that looks up anime streams for it. The logic is a
library verified with Verus; the program around it is ordinary Rust.

- `src/text.rs` — character-level string work (split, lines, replace,
  trimming, decimal rendering and parsing) with specifications matching std.
- `src/allanime.rs` — the service's stream lookup: undoing JSON escapes,
  choosing a source, decoding obfuscated source URLs, reading HLS master
  playlists into quality variants and ordering them best first (stably).
- `src/anime_api.rs`, `src/api.rs` — the records the browser receives from
  the service and from MangaDex, their labels, request URLs and page URLs.
- `src/app.rs` — the browser state and its key handling as a state machine
  that returns the next action (search, fetch, download, play).
- `src/ui.rs` — the theme: palette, animation frames, row texts and the
  category grid geometry.
- `src/server.rs` — the service's query parameters.
- `app/` — `main`, terminal drawing with ratatui, HTTP with reqwest, the
  axum server (`anime_manga server`) and the JSON shapes with serde.
