# clip-vault

The core of an encrypted clipboard manager, written in Verus.

- `src/entry.rs` — clipboard entries and their ids (UUID v7, ordered by
  their bytes).
- `src/crypto.rs` — the key hierarchy: a KEK derived from the password
  with Argon2id wraps a random DEK; entries are sealed under the DEK with
  AES-256-GCM.
- `src/primitives.rs` — the calls into `argon2`, `aes-gcm`, `rand_core`,
  `secrecy` and `zeroize`, with the contracts the proofs rely on.
- `src/sqlite.rs` — the SQL statements the store runs through `rusqlite`,
  with what each does to the tables.
- `src/storage.rs` — the entry store: paging newest first behind a
  cursor, deleting, pinning, counting pastes, purging expired entries.
- `src/vault.rs` — the vault: creating and unlocking it, sealing and
  opening entries.
- `src/proto.rs` — the IPC types, previews, protocol version check and
  line framing.
- `app/` — what runs around the library: opening the database file and
  the CBOR and JSON encodings (serde).

