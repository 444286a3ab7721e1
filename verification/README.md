# pqvault

A terminal password manager. Each user has a post-quantum key bundle
(ML-KEM-768 and ML-DSA-65 keys) encrypted under a passphrase with Argon2 and
XChaCha20-Poly1305. The vault is encrypted under a random data key, the data
key is wrapped with a key derived from an ML-KEM shared secret, and the
envelope is signed with ML-DSA.

Layout:

- `src/` is the library, verified with Verus: the records, the key and vault
  cryptography (with the calls into the RustCrypto crates behind trusted
  wrappers in `primitives.rs`), paths and the user index, the screens' state
  machines and texts, and the application flow as a step function.
- `app/` is the terminal program: it runs the flow, draws the screens with
  ratatui, reads keys with crossterm, and reads and writes the JSON files.
- `tests/` runs the library on concrete values.

This is a prototype; do not keep valuable passwords in it.
