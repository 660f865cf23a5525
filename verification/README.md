# gantry_backend

The backend of the Gantry board: tasks and projects, agent sessions and their
output, comments and project messages, memberships and invitations, GitHub
links, Docker previews, backups and the real-time event streams.

- `src/` is the verified core, checked by Verus. Each module holds the rules
  of one area as functions on plain values, with contracts over spec
  functions, and the laws that tie those functions together (the `lemma_*`
  proof functions). Identifiers are `u128`, instants are milliseconds since
  the epoch. Calls into `uuid`, `sha2`, `rand`, `git2` and `chrono`, and into
  std's file-system queries, `Path::parent` and the system clock, stand behind
  small trusted wrappers whose contracts say what those calls guarantee.
- `app/` is the service layer around it: SQLite storage with `sqlx`, the SSE
  and WebSocket endpoints with `axum`, Docker previews with `bollard`,
  background tasks with `tokio`, and the serializable copies of the core's
  records. It performs I/O and hands plain values to the core, which decides.
- `tests/` exercises the core on concrete values.
