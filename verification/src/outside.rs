use aes_gcm::aead::Error as AeadError;
use argon2::Error as Argon2Error;
use rusqlite::Connection;
use rusqlite::Error as SqliteError;
use rusqlite_migration::Error as MigrationError;
use serde_json::Error as JsonError;
use vstd::prelude::*;

verus! {

/// An SQLite error, as `rusqlite` reports it.
#[verifier::external_type_specification]
#[verifier::external_body]
pub struct ExRusqliteError(SqliteError);

/// An AEAD failure, as the `aead` crate reports it (it carries no detail).
#[verifier::external_type_specification]
#[verifier::external_body]
pub struct ExAeadError(AeadError);

/// An Argon2 failure, as the `argon2` crate reports it.
#[verifier::external_type_specification]
#[verifier::external_body]
pub struct ExArgon2Error(Argon2Error);

/// An open SQLite database connection.
#[verifier::external_type_specification]
#[verifier::external_body]
pub struct ExConnection(Connection);

/// A schema migration failure, as `rusqlite_migration` reports it.
#[verifier::external_type_specification]
#[verifier::external_body]
pub struct ExMigrationError(MigrationError);

/// A JSON (de)serialisation failure, as `serde_json` reports it.
#[verifier::external_type_specification]
#[verifier::external_body]
pub struct ExJsonError(JsonError);

} // verus!
