# subgrid

The logic of the SUBGRID systems dashboard, verified with Verus.

- `src/` — the verified library:
  - `workbench` — the dashboard's state machine: the state, the interface
    events, what each event changes and which work (search, compile, download)
    it asks for, plus the derived displays (vault listing, editor style,
    navigation classes, endpoint docs) and the laws they obey.
  - `explorer` — the codebase asset explorer's state machine.
  - `fetch` — the decisions of the dashboard's HTTP exchanges (GitHub
    repositories, AUR packages and search, remote compile) as state machines
    the runtime drives.
  - `language`, `snippet` — the playground's languages and snippet vaults.
  - `news`, `models` — feed items, repository labels, AUR vote counts.
  - `protocol`, `scheduler`, `logger` — the engine's messages, their
    reports, and the log line format.
  - `server` — the backend's compile reply and AUR proxy decisions.
  - `text`, `uri` — decimal rendering, `str::parse`-compatible integer
    parsing, UTF-8 byte prefixes, and `encodeURIComponent`.
- `app/` — the runtime: the axum server, the Leptos components that render the
  library's state and feed it events, the HTTP calls, file logging.
- `tests/` — tests of the library on concrete values.
