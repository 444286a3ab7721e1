//! pqvault: a terminal password manager whose vault is encrypted with
//! XChaCha20-Poly1305 under a random data key, the data key wrapped with an
//! ML-KEM-768 shared secret and the whole signed with ML-DSA-65; the user's
//! keys are kept in a bundle encrypted under an Argon2-derived passphrase key.
//!
//! Modules: `models` (the records), `crypto` (keys, key bundle and vault
//! encryption), `storage` (paths, user index, stored key bundle), `util`
//! (password generation), `tui` (the screens' decisions), `flow` (the
//! application's steps), `text` and `bytes` (helpers) and `primitives` (the
//! calls into outside crates).
use vstd::prelude::*;

pub mod bytes;
pub mod crypto;
pub mod flow;
pub mod models;
pub mod primitives;
pub mod storage;
pub mod text;
pub mod tui;
pub mod util;

verus! {
} // verus!
