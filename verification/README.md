# orbidata

Normalized TLE and CDM orbital data, as a Verus-verified library with a thin
HTTP service around it.

- `src/` — the verified library:
  - `models/` — orbital element sets and their normalization from CelesTrak
    GP records, conjunction records, the sample CDMs and the normalization of Space-Track CDMs, pagination;
  - `ingest/` — CelesTrak request URLs and record normalization, the
    conjunction source (Space-Track when credentials are set, the samples
    otherwise), and the Space-Track session: rate-limit window, 429 backoff,
    login validity and the decisions of a CDM fetch;
  - `api/` — the answers of the TLE and conjunction endpoints;
  - `clock.rs` — UTC instants and the read of the system clock;
  - `text.rs` — decimal numerals, written and read.
- `app/` — the service: command line, HTTP client and server, cache, JSON.
- `tests/` — tests of the library.
