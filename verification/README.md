# notifico

The verified core of Notifico, a self-hosted notification server, written in
Verus.

- `src/` is the library. Every function in it is verified against its
  contract: API-key scopes and bearer headers, the sliding-window rate limiter,
  signed open/click tracking tokens, AES-GCM credential sealing, the migration
  plan and the table definitions it creates, what the event endpoints refuse
  and in which order, reading database rows, the delivery queue's retry policy, the worker's
  decisions, and the ingest and broadcast fan-outs as state machines whose
  actions (database calls, template rendering) the application performs.
  Calls into outside crates (uuid, base64, hmac, sha2, aes-gcm, hex, http,
  serde_json) sit behind small trusted wrappers whose contracts are stated in
  their doc comments.
- `tests/` runs the library on concrete values.
- `app/` is the server around it: configuration loading, the database, the
  HTTP API, the worker loop and the AMQP link of the ingest gateway.
