# controller

The management plane of the WireSentinel controller: users and roles,
enrollment tokens, devices, policies and their bundles, the audit trail,
metrics, federation with cloud controllers, and the telemetry records of the
kernel guardian, the mixnet, the anonymity layer, ZTNA, SSE, XDR, CNAPP and AI
security.

- `src/` is the library, written in Verus: every record builder, rule,
  summary and parser has a contract over spec functions and views, and the
  properties that relate several operations stand as proof functions
  (`lemma_*`). Calls into bcrypt, sha2, jsonwebtoken, chrono, uuid, serde_json and sqlx go
  through small trusted wrappers whose doc comments say what they claim.
- `tests/` exercises the library on concrete values.
- `app/` is the HTTP server: axum routes, SQLite storage through sqlx, JSON
  through serde, and the calls to cloud
  controllers through reqwest. It hands the library plain values and stores
  or sends what the library returns.
