# tinylord

A tiny schemaless realtime document datastore over SQLite, with its rules proved in
Verus.

- `src/` is the verified library: filters and queries, documents and batches of writes,
  change streams, channels and presence, tokens, sessions and grants, keys and rekeying,
  configuration, and the description of the HTTP interface. Work on a database is a
  *run*: `statement()` says what the engine is asked next, `accept()` takes its reply,
  and the last step says what a client is answered and what subscribers are sent.
  Functions named `law_...` state what holds of the library as a whole.
- `app/` is the program around it: the command line, the HTTP server, threads, files,
  and connections.
- `tests/` runs the library, against a real engine where statements are involved.

What the proofs rest on besides Verus is small: the items marked
`#[verifier::external_body]` call into another crate or hold a value of one, and say
above their contract what is claimed of it.
