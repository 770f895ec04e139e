use clip_vault::crypto::{EncryptedEntry, KdfParams, WrappedDek};
use clip_vault::entry::PasteCount;
use clip_vault::storage::{ContentKind, Storage};
use clip_vault::vault::{Vault, VaultMeta};
use clip_vault::{ClipEntry, EntryContent, EntryId, EntryMeta, Error, MimeType, Sensitivity, Timestamp};

type EntryTuple = (Vec<u8>, String, Vec<String>, u32, bool, (i64, u32), Option<(i64, u32)>);

fn cbor<T: serde::Serialize>(value: &T) -> Vec<u8> {
    let mut buf = Vec::new();
    ciborium::into_writer(value, &mut buf).unwrap();
    buf
}

fn encode_entry(entry: &ClipEntry) -> Vec<u8> {
    let text = match entry.get_entry_content() {
        EntryContent::Text(text) => text.clone(),
        _ => unreachable!(),
    };
    let mimes = entry
        .get_entry_mime_types()
        .iter()
        .map(|m| m.as_str().to_string())
        .collect();
    let tuple: EntryTuple = (
        entry.get_entry_id().as_bytes().to_vec(),
        text,
        mimes,
        entry.get_entry_times_pasted().get(),
        entry.get_entry_pinned(),
        parts(entry.get_entry_created_at()),
        entry.get_entry_expires_at().map(parts),
    );
    cbor(&tuple)
}

fn decode_entry(bytes: &[u8]) -> ClipEntry {
    let (id, text, mimes, times, pinned, created, expires): EntryTuple =
        ciborium::from_reader(bytes).unwrap();
    ClipEntry::from_parts(
        EntryId::from_bytes(id.try_into().unwrap()),
        EntryContent::Text(text),
        Sensitivity::Normal,
        mimes.into_iter().map(MimeType::from).collect(),
        PasteCount::new(times),
        pinned,
        Timestamp::from_parts(created.0, created.1).unwrap(),
        expires.map(|(s, n)| Timestamp::from_parts(s, n).unwrap()),
    )
}

fn parts(t: Timestamp) -> (i64, u32) {
    (t.secs(), t.subsec_nanos())
}

fn encode_meta(meta: &VaultMeta) -> Vec<u8> {
    let w = meta.wrapped_dek();
    let k = meta.kdf();
    cbor(&(
        meta.salt().to_vec(),
        w.nonce().to_vec(),
        w.ciphertext().to_vec(),
        k.memory_cost(),
        k.time_cost(),
        k.parallel_cost(),
    ))
}

fn decode_meta(bytes: &[u8]) -> VaultMeta {
    let (salt, nonce, ct, m, t, p): (Vec<u8>, Vec<u8>, Vec<u8>, u32, u32, u32) =
        ciborium::from_reader(bytes).unwrap();
    VaultMeta::from_parts(
        salt.try_into().unwrap(),
        WrappedDek::from_parts(nonce.try_into().unwrap(), ct.try_into().unwrap()),
        KdfParams::new(m, t, p).unwrap(),
    )
}

fn create_with(store: Storage, password: &[u8]) -> Result<Vault, Error> {
    let (meta, dek) = Vault::new_key_material(password)?;
    Vault::install(store, dek, &encode_meta(&meta))
}

fn unlock_with(store: Storage, password: &[u8]) -> Result<Vault, Error> {
    let blob = Vault::stored_meta(&store)?;
    Vault::unlock_with_meta(store, &decode_meta(&blob), password)
}

fn add(vault: &mut Vault, entry: &ClipEntry) -> Result<(), Error> {
    let sealed = vault.seal_entry(&encode_entry(entry))?;
    let blob = cbor(&(sealed.nonce().to_vec(), sealed.ciphertext().to_vec()));
    vault.store_sealed(entry, &blob)
}

fn list(vault: &Vault, after: Option<EntryId>, limit: i64) -> Result<Vec<ClipEntry>, Error> {
    let mut out = Vec::new();
    for stored in vault.list_sealed(after, limit)? {
        let (nonce, ct): (Vec<u8>, Vec<u8>) = ciborium::from_reader(stored.blob.as_slice()).unwrap();
        let sealed = EncryptedEntry::from_parts(nonce.try_into().unwrap(), ct);
        out.push(decode_entry(&vault.open_entry(&sealed)?));
    }
    Ok(out)
}

fn test_entry() -> ClipEntry {
    ClipEntry::new(
        EntryContent::Text("hello world".to_string()),
        Sensitivity::Normal,
        vec!["text/plain".into()],
    )
}

#[test]
fn add_then_list_round_trips() {
    let mut vault = create_with(Storage::in_memory().unwrap(), b"password").unwrap();
    let entry = test_entry();

    add(&mut vault, &entry).unwrap();
    let entries = list(&vault, None, 10).unwrap();

    assert_eq!(entries.len(), 1);
    assert_eq!(entries[0], entry);
}

#[test]
fn unlock_fresh_store_errors() {
    let result = unlock_with(Storage::in_memory().unwrap(), b"password");

    assert!(matches!(result, Err(Error::VaultLocked)));
}

#[test]
fn unlock_wrong_password_rejected() {
    let vault = create_with(Storage::in_memory().unwrap(), b"correct").unwrap();

    let store = vault.into_store();
    let result = unlock_with(store, b"wrong");

    assert!(matches!(result, Err(Error::WrongPassword)));
}

#[test]
fn reopened_vault_decrypts_old_entries() {
    let mut vault = create_with(Storage::in_memory().unwrap(), b"password").unwrap();
    let entry = test_entry();
    add(&mut vault, &entry).unwrap();

    // "restart": first vault drops (DEK zeroized), same store reopened fresh.
    let store = vault.into_store();
    let vault = unlock_with(store, b"password").unwrap();

    let entries = list(&vault, None, 10).unwrap();
    assert_eq!(entries.len(), 1);
    assert_eq!(entries[0], entry);
}

#[test]
fn stored_attributes_follow_the_entry() {
    let mut vault = create_with(Storage::in_memory().unwrap(), b"pw").unwrap();
    let entry = ClipEntry::from_parts(
        EntryId::new(),
        EntryContent::Text("t".into()),
        Sensitivity::Normal,
        vec![],
        PasteCount::new(3),
        true,
        Timestamp::from_parts(0, 77_900_000).unwrap(),
        Some(Timestamp::from_parts(0, 88_000_001).unwrap()),
    );
    add(&mut vault, &entry).unwrap();
    let stored = vault.list_sealed(None, 1).unwrap();
    assert_eq!(
        stored[0].meta,
        EntryMeta {
            created_at: 77,
            expires_at: Some(88),
            pinned: true,
            times_pasted: 3,
            content_kind: ContentKind::Text,
        }
    );
    assert_eq!(EntryMeta::of_entry(&entry), stored[0].meta);
    assert!(add(&mut vault, &entry).is_err());
    assert_eq!(vault.set_pin(entry.get_entry_id(), false).unwrap(), 1);
    assert_eq!(vault.mark_pasted(entry.get_entry_id()).unwrap(), 1);
    assert_eq!(vault.purge_expired(100).unwrap(), 1);
    assert_eq!(vault.delete(&[*entry.get_entry_id()]).unwrap(), 0);
}

#[test]
fn new_key_material_uses_default_costs() {
    let (meta, dek) = Vault::new_key_material(b"pw").unwrap();
    assert_eq!(meta.kdf(), KdfParams::default());
    let kek = clip_vault::derive_kek(b"pw", &meta.salt(), &meta.kdf()).unwrap();
    let back = clip_vault::unwrap_dek(&kek, &meta.wrapped_dek()).unwrap();
    assert_eq!(back.expose_secret(), dek.expose_secret());
}

#[test]
fn unlock_refuses_costs_argon2_refuses() {
    let (meta, _dek) = Vault::new_key_material(b"pw").unwrap();
    let thin = VaultMeta::from_parts(
        meta.salt(),
        meta.wrapped_dek(),
        KdfParams::new(8, 1, 2).unwrap(),
    );
    let result = Vault::unlock_with_meta(Storage::in_memory().unwrap(), &thin, b"pw");
    assert!(matches!(result, Err(Error::Crypto(_))));
}

#[test]
fn lock_with_then_unlock_gives_the_dek_back() {
    let dek = clip_vault::generate_dek();
    let meta = VaultMeta::lock_with(
        b"pw",
        [4; 16],
        KdfParams::new(8, 1, 1).unwrap(),
        &dek,
        [5; 12],
    )
    .unwrap();
    assert_eq!(meta.salt(), [4; 16]);
    assert_eq!(meta.wrapped_dek().nonce(), [5; 12]);
    let vault = Vault::unlock_with_meta(Storage::in_memory().unwrap(), &meta, b"pw").unwrap();
    let sealed = vault.seal_entry(b"abc").unwrap();
    let opened = clip_vault::decrypt_entry(&dek, &sealed).unwrap();
    assert_eq!(opened, b"abc");
    assert!(matches!(
        Vault::unlock_with_meta(Storage::in_memory().unwrap(), &meta, b"other"),
        Err(Error::WrongPassword)
    ));
}

#[test]
fn nothing_stored_means_locked() {
    assert!(matches!(Vault::meta_or_locked(None), Err(Error::VaultLocked)));
    assert_eq!(Vault::meta_or_locked(Some(vec![1, 2])).unwrap(), vec![1, 2]);
}

#[test]
fn unlock_with_stored_costs_out_of_range_fails_in_the_kdf() {
    let (meta, _dek) = Vault::new_key_material(b"pw").unwrap();
    let bad = VaultMeta::from_parts(meta.salt(), meta.wrapped_dek(), KdfParams::from_costs(0, 0, 0));
    let result = Vault::unlock_with_meta(Storage::in_memory().unwrap(), &bad, b"pw");
    assert!(matches!(result, Err(Error::Crypto(_))));
}
