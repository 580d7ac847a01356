# qlog

The verified core of QLog, a logging application for amateur radio
operators. `src/` is the library, proved with Verus; `app/` is the desktop
application around it (egui windows, SurrealDB, HTTP requests); `tests/`
runs the library on concrete values. `Cargo.toml` lists the crates that
the library and its tests use; building `app/` also needs `eframe`,
`reqwest` and `surrealdb`.

Library modules:

- `maidenhead` — Maidenhead grid squares to positions and back, in exact
  integer units (1/48 degree when decoding, milliarcseconds when encoding).
- `map`, `tile_cache` — map tiles: neighbours, the tiles that cover the
  visible map, tile URLs, and the cache of loaded and failed tiles.
- `pskreporter` — PSKReporter query parameters, the JSONP answer, and the
  map markers made from reception reports.
- `tabs::callsign_lookup`, `callsign_lookup`, `callsign_text` — HamDB and
  HamQTH answers turned into callsign information, lookup order, and the
  cached HamQTH session.
- `database`, `tabs::contacts` — contact queries, the metadata cache, and
  the contact table's sorting, row mapping, editing and fetching.
- `tabs::contact_logger`, `dates` — typed dates and times, and the check
  that a contact ends after it starts.
- `frame`, `gui`, `settings`, `types`, `tabs::band_allocations` — event
  delivery, notifications, the frame counter, typed power and frequency
  values, settings limits and shared types.
