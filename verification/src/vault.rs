use crate::crypto::{
    decrypt_entry, derive_kek, encrypt_entry, fresh_nonce, generate_dek, to_array, unwrap_dek,
    wrap_dek_with_nonce, EncryptedEntry, KdfParams, WrappedDek, DEFAULT_M_COST, DEFAULT_P_COST,
    DEFAULT_T_COST,
};
use crate::primitives::{
    aes256gcm_open, aes256gcm_seal, argon2_accepts, argon2id_v13, os_random_bytes,
    secret_key_bytes, SecretKey, AES_GCM_P_MAX,
};
use crate::entry::{millis_of, ClipEntry, EntryContent, EntryId};
use crate::error::Error;
use crate::sqlite::{from_database, pasted_once_more, rows_with_id, update_row, with_pin, EntryRow};
use crate::storage::{
    entry_row_readable, id_set, is_page, meta_row, on_page, purge_set, ContentKind, EntryMeta, Storage,
    StoredEntry,
};
use vstd::prelude::*;

verus! {

/// Vault metadata: what unlocking needs besides the password — the salt
/// and KDF parameters that derive the KEK, and the DEK wrapped under it.
#[derive(Debug, Clone, Copy, PartialEq, Eq)]
pub struct VaultMeta {
    salt: [u8; 16],
    wrapped_dek: WrappedDek,
    kdf: KdfParams,
}

/// The fields of a [`VaultMeta`], as a specification sees them.
pub struct VaultMetaView {
    pub salt: Seq<u8>,
    pub wrapped_dek: WrappedDek,
    pub kdf: KdfParams,
}

impl View for VaultMeta {
    type V = VaultMetaView;

    closed spec fn view(&self) -> VaultMetaView {
        VaultMetaView { salt: self.salt@, wrapped_dek: self.wrapped_dek, kdf: self.kdf }
    }
}

/// The key encryption key a password derives under vault metadata.
pub open spec fn kek_of(password: Seq<u8>, meta: VaultMetaView) -> Seq<u8> {
    argon2id_v13(password, meta.salt, meta.kdf@.0, meta.kdf@.1, meta.kdf@.2)
}

/// Whether Argon2id accepts a password under vault metadata.
pub open spec fn kdf_accepts(password: Seq<u8>, meta: VaultMetaView) -> bool {
    argon2_accepts(password, meta.salt, meta.kdf@.0, meta.kdf@.1, meta.kdf@.2)
}

impl VaultMeta {
    /// Vault metadata made of its fields.
    pub fn from_parts(salt: [u8; 16], wrapped_dek: WrappedDek, kdf: KdfParams) -> (m: Self)
        ensures
            m@ == (VaultMetaView { salt: salt@, wrapped_dek, kdf }),
    {
        VaultMeta { salt, wrapped_dek, kdf }
    }

    /// The salt the KEK is derived with.
    pub fn salt(&self) -> (s: [u8; 16])
        ensures
            s@ == self@.salt,
    {
        self.salt
    }

    /// The DEK, wrapped under the KEK.
    pub fn wrapped_dek(&self) -> (w: WrappedDek)
        ensures
            w == self@.wrapped_dek,
    {
        self.wrapped_dek
    }

    /// The KDF parameters the KEK is derived with.
    pub fn kdf(&self) -> (k: KdfParams)
        ensures
            k == self@.kdf,
    {
        self.kdf
    }

    /// Metadata that locks `dek` under `password`: the KEK derived with
    /// `salt` and `kdf` wraps the DEK under `nonce`. Fails with
    /// [`Error::Crypto`] exactly where Argon2id refuses the inputs.
    pub fn lock_with(password: &[u8], salt: [u8; 16], kdf: KdfParams, dek: &SecretKey, nonce: [u8; 12]) -> (r: Result<Self, Error>)
        ensures
            r is Ok <==> argon2_accepts(password@, salt@, kdf@.0, kdf@.1, kdf@.2),
            r matches Ok(m) ==> {
                &&& m@.salt == salt@
                &&& m@.kdf == kdf
                &&& m@.wrapped_dek@.nonce == nonce@
                &&& m@.wrapped_dek@.ciphertext == aes256gcm_seal(
                    kek_of(password@, m@),
                    nonce@,
                    secret_key_bytes(*dek),
                )
            },
            r matches Err(e) ==> e is Crypto,
    {
        let kek = match derive_kek(password, salt.as_slice(), &kdf) {
            Ok(k) => k,
            Err(e) => return Err(e),
        };
        let wrapped_dek = wrap_dek_with_nonce(&kek, dek, nonce);
        Ok(VaultMeta { salt, wrapped_dek, kdf })
    }
}

/// The content kind the store files an entry's content under.
pub open spec fn content_kind_of(content: EntryContent) -> ContentKind {
    match content {
        EntryContent::Text(_) => ContentKind::Text,
        EntryContent::Image(_) => ContentKind::Image,
        EntryContent::Binary(_) => ContentKind::Binary,
    }
}

/// The plaintext attributes the store keeps of an entry.
pub open spec fn meta_of(entry: ClipEntry) -> EntryMeta {
    EntryMeta {
        created_at: millis_of(entry@.created_at@) as i64,
        expires_at: match entry@.expires_at {
            Some(t) => Some(millis_of(t@) as i64),
            None => None,
        },
        pinned: entry@.pinned,
        times_pasted: entry@.times_pasted.value(),
        content_kind: content_kind_of(entry@.content),
    }
}

/// The attributes kept for an entry are the entry's own: its pin state,
/// paste count and times (in whole milliseconds), and the kind of its
/// content, each variant to its own kind.
pub proof fn lemma_meta_of_entry(entry: ClipEntry, blob: Seq<u8>)
    ensures
        meta_of(entry).pinned == entry@.pinned,
        meta_of(entry).times_pasted == entry@.times_pasted.value(),
        meta_of(entry).created_at == millis_of(entry@.created_at@) as i64,
        entry@.expires_at is None <==> meta_of(entry).expires_at is None,
        entry@.content is Text ==> meta_of(entry).content_kind == ContentKind::Text,
        entry@.content is Image ==> meta_of(entry).content_kind == ContentKind::Image,
        entry@.content is Binary ==> meta_of(entry).content_kind == ContentKind::Binary,
        meta_row(blob, meta_of(entry)).0 == blob,
        meta_row(blob, meta_of(entry)).3 == entry@.pinned,
        meta_row(blob, meta_of(entry)).4 == entry@.times_pasted.value(),
{
}

impl EntryMeta {
    /// The plaintext attributes the store keeps of an entry: its times (in
    /// whole milliseconds since the Unix epoch),
    /// pin state, paste count and content kind.
    pub fn of_entry(entry: &ClipEntry) -> (m: EntryMeta)
        ensures
            m == meta_of(*entry),
            m.pinned == entry@.pinned,
            m.times_pasted == entry@.times_pasted.value(),
            m.created_at == millis_of(entry@.created_at@),
            entry@.expires_at is None ==> m.expires_at is None,
            entry@.expires_at matches Some(t) ==> m.expires_at == Some(millis_of(t@) as i64),
            entry@.content is Text ==> m.content_kind == ContentKind::Text,
            entry@.content is Image ==> m.content_kind == ContentKind::Image,
            entry@.content is Binary ==> m.content_kind == ContentKind::Binary,
    {
        let content_kind = match entry.get_entry_content() {
            EntryContent::Text(_) => ContentKind::Text,
            EntryContent::Image(_) => ContentKind::Image,
            EntryContent::Binary(_) => ContentKind::Binary,
        };
        let expires_at = match entry.get_entry_expires_at() {
            Some(t) => Some(t.timestamp_millis()),
            None => None,
        };
        EntryMeta {
            created_at: entry.get_entry_created_at().timestamp_millis(),
            expires_at,
            pinned: entry.get_entry_pinned(),
            times_pasted: entry.get_entry_times_pasted().get(),
            content_kind,
        }
    }
}

/// Vault keeps the dek key in plaintext and DB connection.
pub struct Vault {
    store: Storage,
    dek: SecretKey,
}

impl Vault {
    /// The entries the vault's store holds.
    pub closed spec fn entries(&self) -> Map<Seq<u8>, EntryRow> {
        self.store@
    }

    /// The vault metadata blob the vault's store holds.
    pub closed spec fn meta_blob(&self) -> Option<Seq<u8>> {
        self.store.vault_blob()
    }

    /// The vault metadata row the vault's store holds: blob and save time.
    pub closed spec fn meta_record(&self) -> Option<(Seq<u8>, i64)> {
        self.store.vault_record()
    }

    /// The DEK the vault encrypts entries with.
    pub closed spec fn dek_bytes(&self) -> Seq<u8> {
        secret_key_bytes(self.dek)
    }

    /// Key material for a new vault: a fresh DEK and the metadata that
    /// locks it under `password` (default KDF costs, fresh 16-byte salt and
    /// nonce). Fails with [`Error::Crypto`] only on a password longer than
    /// Argon2 takes.
    pub fn new_key_material(password: &[u8]) -> (r: Result<(VaultMeta, SecretKey), Error>)
        ensures
            r is Ok <==> password@.len() <= 0xFFFF_FFFF,
            r matches Ok((m, dek)) ==> {
                &&& m@.kdf@ == (DEFAULT_M_COST, DEFAULT_T_COST, DEFAULT_P_COST)
                &&& secret_key_bytes(dek).len() == 32
                &&& m@.wrapped_dek@.ciphertext == aes256gcm_seal(
                    kek_of(password@, m@),
                    m@.wrapped_dek@.nonce,
                    secret_key_bytes(dek),
                )
            },
            r matches Err(e) ==> e is Crypto,
    {
        let kdf = KdfParams::default();
        let salt_bytes = os_random_bytes(16);
        let salt: [u8; 16] = to_array(salt_bytes.as_slice());
        let dek = generate_dek();
        match VaultMeta::lock_with(password, salt, kdf, &dek, fresh_nonce()) {
            Ok(meta) => Ok((meta, dek)),
            Err(e) => Err(e),
        }
    }

    /// Creates the vault over a store: saves the encoded metadata and keeps
    /// the DEK.
    ///
    /// Returns [`Error::Storage`] if saving fails.
    pub fn install(store: Storage, dek: SecretKey, meta_blob: &[u8]) -> (r: Result<Self, Error>)
        ensures
            r matches Ok(v) ==> {
                &&& v.entries() == store@
                &&& v.meta_blob() == Some(meta_blob@)
                &&& v.dek_bytes() == secret_key_bytes(dek)
            },
            r matches Err(e) ==> e is Storage,
            r matches Err(Error::Storage(e)) ==> from_database(e),
    {
        let mut store = store;
        match store.save_vault(meta_blob) {
            Ok(()) => Ok(Vault { store, dek }),
            Err(e) => Err(e),
        }
    }

    /// The encoded vault metadata a store holds.
    ///
    /// Returns [`Error::VaultLocked`] where the store holds none, and
    /// [`Error::Storage`] if any rusqlite operation fails.
    pub fn stored_meta(store: &Storage) -> (r: Result<Vec<u8>, Error>)
        ensures
            r matches Ok(b) ==> store.vault_blob() == Some(b@),
            r matches Err(Error::VaultLocked) ==> store.vault_blob() is None,
            r matches Err(e) ==> e is VaultLocked || e is Storage,
            r matches Err(Error::Storage(e)) ==> from_database(e),
    {
        match store.load_vault() {
            Ok(stored) => Vault::meta_or_locked(stored),
            Err(e) => Err(e),
        }
    }

    /// The encoded vault metadata a read of the store found: none found
    /// means the vault is locked ([`Error::VaultLocked`]).
    pub fn meta_or_locked(stored: Option<Vec<u8>>) -> (r: Result<Vec<u8>, Error>)
        ensures
            match stored {
                Some(b) => r matches Ok(c) && c@ == b@,
                None => r matches Err(Error::VaultLocked),
            },
    {
        match stored {
            Some(b) => Ok(b),
            None => Err(Error::VaultLocked),
        }
    }

    /// Unlocks the vault over a store with its metadata: derives the KEK
    /// from `password` and unwraps the DEK.
    ///
    /// Returns [`Error::Crypto`] where Argon2id refuses the inputs or the
    /// unwrapped key is not 32 bytes, and [`Error::WrongPassword`] where the
    /// wrapped DEK does not authenticate under the KEK. A DEK locked under
    /// this password comes back unchanged.
    pub fn unlock_with_meta(store: Storage, meta: &VaultMeta, password: &[u8]) -> (r: Result<Self, Error>)
        ensures
            !kdf_accepts(password@, meta@) ==> r matches Err(Error::Crypto(_)),
            kdf_accepts(password@, meta@) ==> match aes256gcm_open(
                kek_of(password@, meta@),
                meta@.wrapped_dek@.nonce,
                meta@.wrapped_dek@.ciphertext,
            ) {
                None => r matches Err(Error::WrongPassword),
                Some(p) => if p.len() == 32 {
                    r matches Ok(v) && v.dek_bytes() == p
                } else {
                    r matches Err(Error::Crypto(_))
                },
            },
            forall|dek: Seq<u8>|
                kdf_accepts(password@, meta@) && dek.len() == 32 && meta@.wrapped_dek@.ciphertext
                    == #[trigger] aes256gcm_seal(kek_of(password@, meta@), meta@.wrapped_dek@.nonce, dek)
                    ==> (r matches Ok(v) && v.dek_bytes() == dek),
            kdf_accepts(password@, meta@) && r is Err ==> r matches Err(Error::WrongPassword),
            r matches Ok(v) ==> v.entries() == store@ && v.meta_record() == store.vault_record(),
    {
        let kek = match derive_kek(password, meta.salt.as_slice(), &meta.kdf) {
            Ok(k) => k,
            Err(e) => return Err(e),
        };
        match unwrap_dek(&kek, &meta.wrapped_dek) {
            Ok(dek) => Ok(Vault { store, dek }),
            Err(e) => Err(e),
        }
    }

    /// Encrypts an encoded entry with the vault's DEK.
    ///
    /// Returns [`Error::Crypto`] only on encodings longer than AES-GCM takes.
    pub fn seal_entry(&self, encoded_entry: &[u8]) -> (r: Result<EncryptedEntry, Error>)
        ensures
            r is Ok <==> encoded_entry@.len() <= AES_GCM_P_MAX,
            r matches Ok(e) ==> e@.ciphertext == aes256gcm_seal(self.dek_bytes(), e@.nonce, encoded_entry@),
            r matches Err(e) ==> e is Crypto,
    {
        encrypt_entry(&self.dek, encoded_entry)
    }

    /// Stores an entry: its encrypted encoding `sealed_blob` under its id,
    /// with its plaintext attributes. An id already stored is refused.
    ///
    /// Returns [`Error::Storage`] if any rusqlite operation fails; then
    /// nothing changes.
    pub fn store_sealed(&mut self, entry: &ClipEntry, sealed_blob: &[u8]) -> (r: Result<(), Error>)
        ensures
            old(self).entries().contains_key(entry@.id@) ==> r is Err,
            r is Ok ==> final(self).entries() == old(self).entries().insert(
                entry@.id@,
                meta_row(sealed_blob@, meta_of(*entry)),
            ),
            r is Ok ==> final(self).entries().contains_key(entry@.id@) && final(self).entries()[entry@.id@].0
                == sealed_blob@ && final(self).entries()[entry@.id@].3 == entry@.pinned
                && final(self).entries()[entry@.id@].4 == entry@.times_pasted.value(),
            r is Err ==> final(self).entries() == old(self).entries(),
            final(self).meta_record() == old(self).meta_record(),
            final(self).dek_bytes() == old(self).dek_bytes(),
            r matches Err(e) ==> e is Storage,
            r matches Err(Error::Storage(e)) ==> from_database(e),
    {
        let meta = EntryMeta::of_entry(entry);
        self.store.add(*entry.get_entry_id(), sealed_blob, &meta)
    }

    /// Fetches a page of stored (still encrypted) entries, as
    /// [`Storage::list`] does.
    pub fn list_sealed(&self, after: Option<EntryId>, limit: i64) -> (r: Result<Vec<StoredEntry>, Error>)
        ensures
            r matches Ok(page) ==> is_page(self.entries(), after, limit, page@),
            r matches Err(e) ==> e is Storage,
            r matches Err(Error::Storage(e)) ==> from_database(e) || exists|k: Seq<u8>|
                on_page(self.entries(), after, limit, k) && !entry_row_readable(#[trigger] self.entries()[k]),
    {
        let r = self.store.list(after, limit);
        let ghost outcome = r;
        proof {
            if outcome matches Err(Error::Storage(e)) && !from_database(e) {
                let k = choose|k: Seq<u8>|
                    on_page(self.store@, after, limit, k) && !entry_row_readable(#[trigger] self.store@[k]);
                assert(self.entries()[k] == self.store@[k]);
            }
        }
        r
    }

    /// Decrypts an entry back to its encoding with the vault's DEK.
    ///
    /// Returns [`Error::Crypto`] where it does not authenticate; what the
    /// vault sealed comes back unchanged.
    pub fn open_entry(&self, encrypted: &EncryptedEntry) -> (r: Result<Vec<u8>, Error>)
        ensures
            match aes256gcm_open(self.dek_bytes(), encrypted@.nonce, encrypted@.ciphertext) {
                None => r matches Err(Error::Crypto(_)),
                Some(p) => r matches Ok(q) && q@ == p,
            },
            forall|p: Seq<u8>|
                p.len() <= AES_GCM_P_MAX && encrypted@.ciphertext == #[trigger] aes256gcm_seal(
                    self.dek_bytes(),
                    encrypted@.nonce,
                    p,
                ) ==> (r matches Ok(q) && q@ == p),
    {
        decrypt_entry(&self.dek, encrypted)
    }

    /// Deletes the entries from database, as [`Storage::delete`] does.
    pub fn delete(&mut self, ids: &[EntryId]) -> (r: Result<usize, Error>)
        ensures
            ids@.len() == 0 ==> r == Ok::<usize, Error>(0usize) && final(self).entries() == old(self).entries(),
            r matches Ok(n) ==> n == old(self).entries().dom().intersect(id_set(ids@)).len(),
            r is Ok ==> final(self).entries() == old(self).entries().remove_keys(id_set(ids@)),
            r is Err ==> final(self).entries() == old(self).entries(),
            final(self).meta_record() == old(self).meta_record(),
            final(self).dek_bytes() == old(self).dek_bytes(),
            r matches Err(e) ==> e is Storage,
            r matches Err(Error::Storage(e)) ==> from_database(e),
    {
        self.store.delete(ids)
    }

    /// Deletes the expired, unpinned entries, as [`Storage::purge_expired`] does.
    pub fn purge_expired(&mut self, now: i64) -> (r: Result<usize, Error>)
        ensures
            r matches Ok(n) ==> n == purge_set(old(self).entries(), now).len(),
            r is Ok ==> final(self).entries() == old(self).entries().remove_keys(
                purge_set(old(self).entries(), now),
            ),
            r is Err ==> final(self).entries() == old(self).entries(),
            final(self).meta_record() == old(self).meta_record(),
            final(self).dek_bytes() == old(self).dek_bytes(),
            r matches Err(e) ==> e is Storage,
            r matches Err(Error::Storage(e)) ==> from_database(e),
    {
        self.store.purge_expired(now)
    }

    /// Pins or unpins the given entry, as [`Storage::set_pin`] does.
    pub fn set_pin(&mut self, id: &EntryId, pinned: bool) -> (r: Result<usize, Error>)
        ensures
            r matches Ok(n) ==> n == rows_with_id(old(self).entries(), id@),
            r is Ok ==> final(self).entries() == update_row(
                old(self).entries(),
                id@,
                |row: EntryRow| with_pin(row, pinned),
            ),
            r is Err ==> final(self).entries() == old(self).entries(),
            final(self).meta_record() == old(self).meta_record(),
            final(self).dek_bytes() == old(self).dek_bytes(),
            r matches Err(e) ==> e is Storage,
            r matches Err(Error::Storage(e)) ==> from_database(e),
            old(self).entries().contains_key(id@) && r is Ok ==> r == Ok::<usize, Error>(1usize) && final(self).entries()[id@].3 == pinned,
    {
        self.store.set_pin(id, pinned)
    }

    /// Counts one more paste of the given entry, as [`Storage::mark_pasted`] does.
    pub fn mark_pasted(&mut self, id: &EntryId) -> (r: Result<usize, Error>)
        ensures
            r matches Ok(n) ==> n == rows_with_id(old(self).entries(), id@),
            r is Ok ==> final(self).entries() == update_row(
                old(self).entries(),
                id@,
                |row: EntryRow| pasted_once_more(row),
            ),
            r is Err ==> final(self).entries() == old(self).entries(),
            final(self).meta_record() == old(self).meta_record(),
            final(self).dek_bytes() == old(self).dek_bytes(),
            r matches Err(e) ==> e is Storage,
            r matches Err(Error::Storage(e)) ==> from_database(e),
            old(self).entries().contains_key(id@) && r is Ok ==> r == Ok::<usize, Error>(1usize) && final(self).entries()[id@].4 == old(self).entries()[id@].4 + 1,
    {
        self.store.mark_pasted(id)
    }

    /// Drops the vault (wiping the DEK) but keeps the store, so that
    /// another `Vault` can be opened over the same data.
    pub fn into_store(self) -> (s: Storage)
        ensures
            s@ == self.entries(),
            s.vault_record() == self.meta_record(),
    {
        self.store
    }
}

} // verus!
