# productized_shell

The verified core of a desktop shell that turns an approved supervisor
proposal into an attempt-scoped execution grant, dispatches it, admits the
runtime step only on an exact stored chain, and lets a secretary consult a
global supervisor for read-only cross-project advice.

## Layout

- `src/` — the library, verified with Verus.
  - `identity`, `records`, `orchestration`: identifiers and stored records.
  - `attempt`, `grant`, `gateway`, `side_effect`, `receipt`, `admission`:
    the prepared-attempt state machine, grants and their hash, the grant
    gateways, runtime admission and receipt verification.
  - `dispatch`, `supervisor`, `ports`: the authorized dispatch chain over
    store ports, and the project supervisor. Each store port is reached
    through a journal (`Journaled`, `CoreReads`, `SummaryQueries`,
    `AdvisoryJournal`, `SupervisorWrites`) that records, as ghost state,
    every call handed to the store and the store's answer, so that the
    contracts can say what was written, read and committed.
  - `summary`, `control`, `registry`, `dto`, `m3_identity`: project
    summaries, the ordinary control profile and exact-chain loader, the
    runner entry registry.
  - `advisory`, `consult`: cross-project advisory and the consult handoff.
  - `calendar`, `order`, `text`: calendar arithmetic and UTC timestamps,
    stable sorting, text utilities.
  - `outside`: the trusted calls into `uuid`, `sha2` and `serde_json`.
- `tests/` — tests of the library on concrete values.
- `app/` — the host side: clock, SQLite store behind the library's ports,
  profile file loading, and serializable wire forms.
