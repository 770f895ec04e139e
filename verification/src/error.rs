use rusqlite::Error as SqliteError;
use vstd::prelude::*;

verus! {

/// Error types used in the Clip-Vault
#[derive(Debug)]
pub enum Error {
    /// Vault is locked.
    VaultLocked,
    /// Operation cancelled by user.
    OperationCancelled,
    /// Password is not correct.
    WrongPassword,
    /// Entry could not be found in the database.
    EntryNotFound(String),
    /// Cryptographic operation failed; the text says what failed.
    Crypto(String),
    /// `SQLite` or other storage backend failure.
    Storage(SqliteError),
    /// System keyring (libsecret / kwallet) failure; the text says what failed.
    Keyring(String),
    /// Configuration file contains error.
    Config(String),
    /// Filesystem or other I/O failure; the text says what failed.
    Io(String),
}

} // verus!
