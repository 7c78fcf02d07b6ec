# task_manager

The decision logic of a small task-manager web service (registration, login,
a token guard, and per-user task lists with search, status filter and
pagination), verified with Verus.

- `src/` is the verified library: input rules, password checks through
  `bcrypt`, the listing queries and their pages, task creation and update,
  the token guard's decision, and the start-up settings.
- `app/` is the HTTP server around it (axum, sqlx/SQLite, JWT tokens): it
  reads requests, runs the queries and hands the results to the library.
- `tests/` exercises the library on concrete values.
