# pagetally_server (verified core)

`src/` is a Verus library holding the logic of the pagetally analytics server,
each function with a contract that Verus proves:

- `types` — the tracker's beacon payload, its per-field caps and the dropping
  of non-finite web-vitals; the `top` report's dimensions.
- `ingest` — the decision behind `POST /collect` and the row a beacon becomes.
- `auth` — bearer-token checks for the admin routes.
- `config` — the configuration built from environment variables.
- `stats` — site allowlist, time windows, parameter checks and clamps of the
  `/stats/*` endpoints.
- `policy` — fixed HTTP limits and the CORS policy of `/stats/*`.
- `text` — byte, char and list helpers over vstd's string model.

`app/` is the server binary around it: axum routing and middleware, Postgres
queries through sqlx, the environment and the clock's consumers, and the serde
shapes of the API.
