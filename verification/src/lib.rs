//! Core of an encrypted clipboard manager: clipboard entry types, the
//! key hierarchy (a password-derived KEK wraps a random DEK; entries are
//! sealed with AES-256-GCM under the DEK), an SQLite-backed entry store,
//! the vault that ties them together, and the IPC wire types.

pub mod crypto;
pub mod entry;
pub mod error;
pub mod outside;
pub mod primitives;
pub mod proto;
pub mod sqlite;
pub mod storage;
pub mod vault;

pub use crypto::{
    decrypt_entry, derive_kek, encrypt_entry, generate_dek, unwrap_dek, wrap_dek, EncryptedEntry,
    KdfParams, WrappedDek,
};
pub use primitives::SecretKey;
pub use entry::{
    BinaryPayload, ClipEntry, EntryContent, EntryId, MimeType, PasteCount, SensitiveReason,
    Sensitivity, Timestamp,
};
pub use error::Error;
pub use proto::{EntryPreview, PreviewKind, ProtoError, Request, RequestBody, Response};
pub use storage::{ContentKind, EntryMeta, Storage, StoredEntry};
pub use vault::{Vault, VaultMeta};
