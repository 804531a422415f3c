# matrix_sdk_crypto

The account of a device in an end-to-end encrypted conversation, verified with
Verus.

- `src/` is the library. Every item in it is verified, but for the trusted
  functions named below.
  - `account`: the account, its key counts, and its pickled form.
  - `signing`: what the account signs, and the keys that it uploads.
  - `session_creation`, `group_session`: the sessions that it creates.
  - `decryption`: how a message that comes in is decrypted, step by step.
  - `decrypted_event`: how the decrypted text is read and checked.
  - `decryption_laws`: what comes of a decryption as a whole.
  - `keys`, `session`, `identifiers`, `error`: the data that these work on.
  - `string_map`, `json`, `utilities`: an ordered map, JSON, Base64 and SHA-256.
- `app/` joins the library to libolm and to a store. An account of the library
  is a plain value with one owner. The handles that share one account, so that
  what is marked through one is seen through all, are made here.
- `tests/` runs the library.

Calls into `serde_json`, `ruma` and `sha2` stand in `json`, `identifiers` and
`utilities`. Each is a small function whose contract is trusted and whose doc
comment says what it claims.
