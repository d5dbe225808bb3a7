# omi_store

The storage layer of the desktop backend: the SQLite schema and its
migrations, the statements of every repository (memories, conversations,
messages, action items, focus sessions, goals, settings, folders, chat
sessions, personas, advice, the knowledge graph, people, usage and activity
records) and of the local database, each built by a function whose contract
states the exact SQL text and the exact parameters it binds.

## Layout

- `src/` — the verified library.
  - `sql.rs`: statements, their views, and the `UPDATE` builder; the law
    that rendered updates number their placeholders `?1..?n` in the order of
    their parameters.
  - `text.rs`: decimal rendering and the placeholder scanner used by the
    laws on statement text.
  - `migrations.rs`: the schema migrations and the plan of pending ones.
  - `repo/`: the repository statements, one file per repository.
  - `local/`: the local database: schema, conversations, tasks, goals, chat,
    scores and screen activity (with the byte encoding of embeddings).
  - `clock.rs`, `json.rs`: the calls into `ulid`, `chrono` and `serde_json`,
    each behind a small trusted wrapper whose contract is documented.
- `tests/` — tests on concrete values.
- `app/` — the asynchronous repository traits, the SQLite connection that
  runs the statements and maps rows, and the floating-point score
  percentages.
