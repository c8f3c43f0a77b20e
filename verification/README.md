# todo_api

A todo-list web service with user accounts and JWT authentication, written as a
verified library (`src/`, checked by Verus) and a thin server around it (`app/`).

- `src/todo/`: the listing query (paging, search, completion filter, sort), the SQL
  statements of the `todos` table, and what each todo use case answers.
- `src/auth/`: the statements of the `users` and `refresh_tokens` tables, the sign-up,
  sign-in, token refresh (with rotation) and sign-out flows as a state machine that asks
  for one database operation at a time, and the reading of the `Authorization` header.
- `src/jwt.rs`, `src/password.rs`, `src/time.rs`: token claims and signing
  (jsonwebtoken), password hashing (bcrypt) and the clock (chrono).
- `src/config.rs`: the settings read from the environment.
- `app/`: axum routes and handlers, the sqlx pool that runs the statements, token
  decoding, and the process entry point.

Passwords and refresh tokens are stored as bcrypt hashes (the `bcrypt` crate, default cost
12). The hashing module's interface is `hash_password(&str) -> Result<String, _>` and
`verify_password(&str, &str) -> Result<bool, _>`: bcrypt's `hash` and `verify` have exactly
that shape, with the salt and cost kept inside the stored hash, so no separate salt column
is needed, and `verify` reports a malformed stored hash as an error rather than a mismatch.
