# beacon-skill

Client for the Beacon Atlas relay: agent registration, heartbeats (plain and
SEO), discovery, SEO stats and agent profiles.

- `src/` is the verified library: base-URL normalisation (`text`, `client`),
  endpoint addresses (`client`), the agent key derived from the name
  (`pubkey`), registration and heartbeat bodies (`payload`), the relay's
  accept/reject rule (`reply`) and the response records (`types`).
- `app/` sends the requests with `reqwest`, turns bodies and replies into
  JSON with `serde_json`, and holds the serde/thiserror copies of the
  library's records.
- `tests/` runs the library on concrete values.
