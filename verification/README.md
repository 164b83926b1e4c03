# vindicate_api

VINdicate looks a vehicle identification number (VIN) up in national and
universal vehicle data sources and answers with one report: decode, registrations,
inspections (newest first), recalls, encumbrances, and an entry per source.

- `src/` — the library, verified with Verus: VIN validation (`vin`), cache keys
  and lifetimes (`cache`, `lookup`), settings (`config`), errors and their texts
  (`error`), the JSON model the sources' answers are read through (`json`), what
  each source makes of an answer (`sources`), and report assembly with a stable
  newest-first sort of inspections (`report`).
- `app/` — the HTTP server around it (axum, reqwest, Redis): requests, the cache
  connection, JSON (de)serialisation and the concurrent fan-out to the sources.
- `tests/` — tests of the library on concrete values.
