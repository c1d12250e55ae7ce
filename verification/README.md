# tauri-plugin-cblite

A Tauri plugin for Couchbase Lite, with its decisions verified by Verus.

- `src/` is the verified library. It reads collection paths, plans the
  opening of a database and the configuration of a replicator (direction,
  authentication, field-encryption key), keeps the session state that decides
  which commands may run, merges saved documents, picks the fields to encrypt,
  decodes and encodes blob payloads, keeps the registry of predictive models
  and the peer listener, and builds event payloads. Base64 and PBKDF2 are
  called through trusted wrappers in `src/codec.rs`.
- `app/` is the plugin itself: the Tauri commands, which lock the plugin state,
  call the library and perform the Couchbase Lite, ONNX and mobile calls.
- `tests/` exercises the library on concrete values.
