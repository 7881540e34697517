# ssb_patchql

A GraphQL view over a Secure Scuttlebutt offset log, backed by SQLite. The
library in `src/` holds the logic, verified with Verus; `app/` is the server
around it (environment, database, log, HTTP).

## Layout

- `src/cursor.rs` — pagination cursors: a sequence number as eight
  little-endian bytes in base64, with the round trip proved.
- `src/json.rs` — the JSON values message contents are read as, and the
  depth-first search for the values under a key.
- `src/ssb_message.rs` — a message: key, author, sequence, content.
- `src/text.rs` — suffix trimming and small string helpers.
- `src/db/` — the SQLite URI, secret-key decoding and the choice of the
  keypair, and in `models/` what storing one log entry writes
  (`plan_append`): votes, mentions, blob links, posts, branches, abouts,
  texts; `models/decryption.rs` opens private messages with `private-box`,
  the first keypair that opens one winning.
- `src/graphql/` — query arguments, pagination (`page_request`, page
  information, connections), contact states, likes, and where the next
  `process` call reads the log.
- `app/` — the server: `main.rs`, the diesel schema and queries, the log
  reader, the JSON parse of an opened message, and the juniper schema.
- `tests/` — tests of the library on concrete values.
