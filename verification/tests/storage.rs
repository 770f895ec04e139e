use clip_vault::storage::{page_of, purge_targets, ContentKind, EntryMeta, Storage};
use clip_vault::EntryId;
use rusqlite::{Connection, OpenFlags};

fn create_tables() -> Connection {
    Connection::open_in_memory().unwrap()
}

fn meta(expires_at: Option<i64>, pinned: bool) -> EntryMeta {
    EntryMeta {
        created_at: (1),
        expires_at,
        pinned,
        times_pasted: (1),
        content_kind: (ContentKind::Text),
    }
}

#[test]
fn check_table_exist() {
    let flags = OpenFlags::SQLITE_OPEN_READ_WRITE
        | OpenFlags::SQLITE_OPEN_CREATE
        | OpenFlags::SQLITE_OPEN_URI;
    let uri = "file:check_table_exist?mode=memory&cache=shared";
    let first = Connection::open_with_flags(uri, flags).unwrap();
    let _storage = Storage::new(first).unwrap();
    let conn = Connection::open_with_flags(uri, flags).unwrap();

    let exist: bool = conn
        .query_row(
            "SELECT EXISTS(
            SELECT 1 FROM sqlite_master WHERE type = 'table' AND name = ?1)",
            ["entries"],
            |row| row.get(0),
        )
        .unwrap();

    assert!(exist);

    let exist: bool = conn
        .query_row(
            "SELECT EXISTS(
            SELECT 1 FROM sqlite_master WHERE type = 'table' AND name = ?1)",
            ["vault"],
            |row| row.get(0),
        )
        .unwrap();

    assert!(exist);
}

#[test]
fn check_save_vault() {
    let conn = create_tables();
    let mut storage = Storage::new(conn).unwrap();

    let blob_test_data: [u8; 10] = [5; 10];
    storage.save_vault(&blob_test_data).unwrap();

    let blob_readback = storage.load_vault().unwrap().unwrap();

    assert_eq!(blob_test_data, blob_readback.as_slice());
}

#[test]
fn save_vault_replaces_earlier_blob() {
    let mut storage = Storage::in_memory().unwrap();
    storage.save_vault(&[1, 2, 3]).unwrap();
    storage.save_vault(&[4]).unwrap();
    assert_eq!(storage.load_vault().unwrap(), Some(vec![4]));
}

#[test]
fn load_vault_none_when_empty() {
    let conn = create_tables();
    let storage = Storage::new(conn).unwrap();

    assert_eq!(storage.load_vault().unwrap(), None);
}

#[test]
fn list_orders_newest_first() {
    let conn = create_tables();
    let mut storage = Storage::new(conn).unwrap();

    let entry_id: EntryId = EntryId::new();
    let metadata: EntryMeta = meta(Some(2), false);
    let blob_test_data: [u8; 10] = [5; 10];

    storage.add(entry_id, &blob_test_data, &metadata).unwrap();

    let entry_id2: EntryId = EntryId::new();
    storage.add(entry_id2, &blob_test_data, &metadata).unwrap();

    let entries = storage.list(None, 1).unwrap();

    assert_eq!(entry_id2, entries[0].id);
}

#[test]
fn list_respects_limit() {
    let conn = create_tables();
    let mut storage = Storage::new(conn).unwrap();

    let metadata: EntryMeta = meta(Some(2), false);
    let blob_test_data: [u8; 10] = [5; 10];

    storage.add(EntryId::new(), &blob_test_data, &metadata).unwrap();
    storage.add(EntryId::new(), &blob_test_data, &metadata).unwrap();
    storage.add(EntryId::new(), &blob_test_data, &metadata).unwrap();

    let entries = storage.list(None, 2).unwrap();
    assert_eq!(entries.len(), 2);
}

#[test]
fn list_cursor_returns_older_only() {
    let conn = create_tables();
    let mut storage = Storage::new(conn).unwrap();

    let entry_id: EntryId = EntryId::new();
    let metadata: EntryMeta = meta(Some(2), false);
    let blob_test_data: [u8; 10] = [5; 10];

    storage.add(entry_id, &blob_test_data, &metadata).unwrap();

    let entry_id2: EntryId = EntryId::new();
    storage.add(entry_id2, &blob_test_data, &metadata).unwrap();

    let entry_id3: EntryId = EntryId::new();
    storage.add(entry_id3, &blob_test_data, &metadata).unwrap();

    let entries = storage.list(Some(entry_id2), 1).unwrap();

    assert_eq!(entry_id, entries[0].id);
}

#[test]
fn list_orders_by_id_bytes_and_negative_limit_is_unbounded() {
    let mut storage = Storage::in_memory().unwrap();
    let metadata = meta(None, false);
    let mut ids = Vec::new();
    for first in [3u8, 200, 0, 77, 128] {
        let mut bytes = [9u8; 16];
        bytes[0] = first;
        let id = EntryId::from_bytes(bytes);
        storage.add(id, &[first], &metadata).unwrap();
        ids.push(id);
    }
    let all = storage.list(None, -1).unwrap();
    let firsts: Vec<u8> = all.iter().map(|e| e.id.as_bytes()[0]).collect();
    assert_eq!(firsts, vec![200, 128, 77, 3, 0]);
    assert!(all.iter().all(|e| e.blob == vec![e.id.as_bytes()[0]]));

    let page = storage.list(Some(ids[3]), 10).unwrap();
    let firsts: Vec<u8> = page.iter().map(|e| e.id.as_bytes()[0]).collect();
    assert_eq!(firsts, vec![3, 0]);

    assert!(storage.list(None, 0).unwrap().is_empty());
}

#[test]
fn add_refuses_a_stored_id() {
    let mut storage = Storage::in_memory().unwrap();
    let id = EntryId::new();
    storage.add(id, &[1], &meta(None, false)).unwrap();
    let again = storage.add(id, &[2], &meta(None, true));
    assert!(matches!(again, Err(clip_vault::Error::Storage(_))));
    let rows = storage.list(None, -1).unwrap();
    assert_eq!(rows.len(), 1);
    assert_eq!(rows[0].blob, vec![1]);
}

#[test]
fn delete_multiple_ids() {
    let conn = create_tables();
    let mut storage = Storage::new(conn).unwrap();

    let entry_id: EntryId = EntryId::new();
    let metadata: EntryMeta = meta(Some(2), false);
    let blob_test_data: [u8; 10] = [5; 10];

    storage.add(entry_id, &blob_test_data, &metadata).unwrap();

    let entry_id2: EntryId = EntryId::new();
    storage.add(entry_id2, &blob_test_data, &metadata).unwrap();

    let entry_id3: EntryId = EntryId::new();
    storage.add(entry_id3, &blob_test_data, &metadata).unwrap();

    let rows_affected = storage.delete(&[entry_id, entry_id2, entry_id3]).unwrap();

    assert_eq!(rows_affected, [entry_id, entry_id2, entry_id3].len());
}

#[test]
fn delete_counts_each_stored_id_once() {
    let mut storage = Storage::in_memory().unwrap();
    let kept = EntryId::new();
    let gone = EntryId::new();
    let never = EntryId::new();
    storage.add(kept, &[1], &meta(None, false)).unwrap();
    storage.add(gone, &[2], &meta(None, false)).unwrap();
    assert_eq!(storage.delete(&[gone, never, gone]).unwrap(), 1);
    let rows = storage.list(None, -1).unwrap();
    assert_eq!(rows.len(), 1);
    assert_eq!(rows[0].id, kept);
}

#[test]
fn delete_empty_is_noop() {
    let conn = create_tables();
    let mut storage = Storage::new(conn).unwrap();

    let rows_affected = storage.delete(&[]).unwrap();
    assert_eq!(rows_affected, 0);
}

#[test]
fn purge_keeps_unexpired() {
    let conn = create_tables();
    let mut storage = Storage::new(conn).unwrap();

    let entry_id: EntryId = EntryId::new();
    let metadata: EntryMeta = meta(Some(200), false);
    let blob_test_data: [u8; 10] = [5; 10];

    storage.add(entry_id, &blob_test_data, &metadata).unwrap();

    let rows_affected = storage.purge_expired(5).unwrap();
    assert_eq!(rows_affected, 0);
}

#[test]
fn check_save_entry() {
    let conn = create_tables();
    let mut storage = Storage::new(conn).unwrap();

    let entry_id: EntryId = EntryId::new();
    let metadata: EntryMeta = meta(Some(2), false);
    let blob_test_data: [u8; 10] = [5; 10];

    storage.add(entry_id, &blob_test_data, &metadata).unwrap();

    let stored_entry = storage.list(None, 1).unwrap();
    assert_eq!(stored_entry.len(), 1);

    assert_eq!(entry_id, stored_entry[0].id);
    assert_eq!(metadata, stored_entry[0].meta);
    assert_eq!(blob_test_data, stored_entry[0].blob.as_slice());

    storage.set_pin(&entry_id, true).unwrap();
    let stored_entry = storage.list(None, 1).unwrap();
    assert_eq!(stored_entry.len(), 1);
    assert!(stored_entry[0].meta.pinned);

    storage.mark_pasted(&entry_id).unwrap();
    let stored_entry = storage.list(None, 1).unwrap();
    assert_eq!(stored_entry.len(), 1);
    assert_eq!(stored_entry[0].meta.times_pasted, 2);
}

#[test]
fn pin_and_paste_count_only_existing_entries() {
    let mut storage = Storage::in_memory().unwrap();
    let id = EntryId::new();
    assert_eq!(storage.set_pin(&id, true).unwrap(), 0);
    assert_eq!(storage.mark_pasted(&id).unwrap(), 0);
    storage.add(id, &[], &meta(None, false)).unwrap();
    assert_eq!(storage.set_pin(&id, true).unwrap(), 1);
    assert_eq!(storage.set_pin(&id, false).unwrap(), 1);
    assert_eq!(storage.mark_pasted(&id).unwrap(), 1);
    let row = &storage.list(None, 1).unwrap()[0];
    assert!(!row.meta.pinned);
    assert_eq!(row.meta.times_pasted, 2);
}

#[test]
fn check_purge_entry() {
    let conn = create_tables();
    let mut storage = Storage::new(conn).unwrap();

    let entry_id: EntryId = EntryId::new();
    let metadata: EntryMeta = meta(Some(2), false);
    let blob_test_data: [u8; 10] = [5; 10];

    storage.add(entry_id, &blob_test_data, &metadata).unwrap();

    let number_of_row_affected = storage.purge_expired(3).unwrap();
    assert!(number_of_row_affected > 0);
}

#[test]
fn check_purge_doesnot_delete_pinned_entry() {
    let conn = create_tables();
    let mut storage = Storage::new(conn).unwrap();

    let entry_id: EntryId = EntryId::new();
    let metadata: EntryMeta = meta(Some(2), true);
    let blob_test_data: [u8; 10] = [5; 10];

    storage.add(entry_id, &blob_test_data, &metadata).unwrap();

    let number_of_row_affected = storage.purge_expired(3).unwrap();
    assert_eq!(number_of_row_affected, 0);
}

#[test]
fn purge_edges() {
    let mut storage = Storage::in_memory().unwrap();
    let at_now = EntryId::new();
    let never = EntryId::new();
    let old = EntryId::new();
    let old_pinned = EntryId::new();
    storage.add(at_now, &[], &meta(Some(10), false)).unwrap();
    storage.add(never, &[], &meta(None, false)).unwrap();
    storage.add(old, &[], &meta(Some(9), false)).unwrap();
    storage.add(old_pinned, &[], &meta(Some(1), true)).unwrap();
    assert_eq!(storage.purge_expired(10).unwrap(), 2);
    let left: Vec<EntryId> = storage.list(None, -1).unwrap().iter().map(|e| e.id).collect();
    assert_eq!(left, vec![old_pinned, never]);
    let later = EntryId::new();
    storage.add(later, &[], &meta(Some(11), false)).unwrap();
    assert_eq!(storage.purge_expired(10).unwrap(), 0);
    assert_eq!(storage.purge_expired(11).unwrap(), 1);
}

#[test]
fn content_kind_sql_text_round_trips() {
    for kind in [ContentKind::Text, ContentKind::Image, ContentKind::Binary] {
        assert_eq!(ContentKind::from_sql_text(kind.as_sql_text()), Some(kind));
    }
    assert_eq!(ContentKind::Image.as_sql_text(), "image");
    assert_eq!(ContentKind::from_sql_text("video"), None);
}

#[test]
fn list_refuses_a_row_naming_no_kind() {
    let flags = OpenFlags::SQLITE_OPEN_READ_WRITE
        | OpenFlags::SQLITE_OPEN_CREATE
        | OpenFlags::SQLITE_OPEN_URI;
    let uri = "file:list_refuses_a_row_naming_no_kind?mode=memory&cache=shared";
    let first = Connection::open_with_flags(uri, flags).unwrap();
    let storage = Storage::new(first).unwrap();
    let raw = Connection::open_with_flags(uri, flags).unwrap();
    raw.execute(
        "INSERT INTO entries (id, blob, created_at, expires_at, pinned, times_pasted, content_kind)
            VALUES (?1, x'00', 0, NULL, 0, 0, 'video')",
        [[1u8; 16]],
    )
    .unwrap();
    assert!(matches!(
        storage.list(None, 10),
        Err(clip_vault::Error::Storage(rusqlite::Error::InvalidColumnType(6, _, _)))
    ));
    assert_eq!(storage.list(None, 0).unwrap().len(), 0);
}

#[test]
fn purge_twice_removes_nothing_more() {
    let mut storage = Storage::in_memory().unwrap();
    storage.add(EntryId::new(), &[], &meta(Some(1), false)).unwrap();
    storage.add(EntryId::new(), &[], &meta(Some(2), false)).unwrap();
    assert_eq!(storage.purge_expired(5).unwrap(), 2);
    assert_eq!(storage.purge_expired(5).unwrap(), 0);
}

#[test]
fn pinned_entry_survives_purge() {
    let mut storage = Storage::in_memory().unwrap();
    let id = EntryId::new();
    storage.add(id, &[], &meta(Some(1), false)).unwrap();
    storage.set_pin(&id, true).unwrap();
    assert_eq!(storage.purge_expired(i64::MAX).unwrap(), 0);
    assert_eq!(storage.list(None, -1).unwrap()[0].id, id);
}

#[test]
fn delete_twice_deletes_nothing_more() {
    let mut storage = Storage::in_memory().unwrap();
    let a = EntryId::new();
    let b = EntryId::new();
    storage.add(a, &[], &meta(None, false)).unwrap();
    storage.add(b, &[], &meta(None, false)).unwrap();
    assert_eq!(storage.delete(&[a, b]).unwrap(), 2);
    assert_eq!(storage.delete(&[a, b]).unwrap(), 0);
}

fn raw(first: u8, kind: &str, expires_at: Option<i64>, pinned: bool) -> clip_vault::sqlite::RawEntry {
    let mut id = [0u8; 16];
    id[0] = first;
    (id, vec![first], 5, expires_at, pinned, 3, kind.to_string())
}

#[test]
fn page_of_selects_newest_below_cursor() {
    let rows = vec![
        raw(4, "text", None, false),
        raw(9, "image", None, false),
        raw(1, "binary", None, false),
        raw(7, "text", None, true),
    ];
    let page = page_of(&rows, None, 2).unwrap();
    let firsts: Vec<u8> = page.iter().map(|e| e.id.as_bytes()[0]).collect();
    assert_eq!(firsts, vec![9, 7]);
    assert_eq!(page[0].meta.content_kind, ContentKind::Image);
    assert!(page[1].meta.pinned);
    assert_eq!(page[1].meta.times_pasted, 3);
    let mut cursor = [0u8; 16];
    cursor[0] = 7;
    let page = page_of(&rows, Some(EntryId::from_bytes(cursor)), -1).unwrap();
    let firsts: Vec<u8> = page.iter().map(|e| e.id.as_bytes()[0]).collect();
    assert_eq!(firsts, vec![4, 1]);
}

#[test]
fn page_of_refuses_only_a_bad_kind_on_the_page() {
    let rows = vec![raw(9, "text", None, false), raw(1, "video", None, false)];
    assert_eq!(page_of(&rows, None, 1).unwrap().len(), 1);
    assert!(matches!(
        page_of(&rows, None, 2),
        Err(clip_vault::Error::Storage(_))
    ));
}

#[test]
fn page_of_refuses_only_an_oversized_count_on_the_page() {
    let mut big = raw(1, "text", None, false);
    big.5 = 5_000_000_000;
    let rows = vec![raw(9, "text", None, false), big];
    assert_eq!(page_of(&rows, None, 1).unwrap().len(), 1);
    assert!(matches!(
        page_of(&rows, None, 2),
        Err(clip_vault::Error::Storage(_))
    ));
    let mut edge = raw(1, "text", None, false);
    edge.5 = u32::MAX as i64;
    let page = page_of(&vec![edge], None, -1).unwrap();
    assert_eq!(page[0].meta.times_pasted, u32::MAX);
}

fn due_row(first: u8, expires_at: Option<i64>, pinned: bool) -> clip_vault::sqlite::ExpiryRow {
    let mut id = vec![0u8; 16];
    id[0] = first;
    (id, expires_at, pinned)
}

#[test]
fn purge_targets_pick_expired_unpinned_rows() {
    let rows = vec![
        due_row(1, Some(10), false),
        due_row(2, Some(11), false),
        due_row(3, Some(3), true),
        due_row(4, None, false),
        due_row(5, Some(-4), false),
    ];
    let targets: Vec<u8> = purge_targets(&rows, 10).iter().map(|row| row.0[0]).collect();
    assert_eq!(targets, vec![1, 5]);
}

#[test]
fn save_vault_at_then_load() {
    let mut storage = Storage::in_memory().unwrap();
    storage.save_vault_at(&[7, 8], 1234).unwrap();
    assert_eq!(storage.load_vault().unwrap(), Some(vec![7, 8]));
}

#[test]
fn purge_removes_more_entries_than_one_statement_has_parameters() {
    let mut storage = Storage::in_memory().unwrap();
    for _ in 0..33_000 {
        storage.add(EntryId::new(), &[], &meta(Some(5), false)).unwrap();
    }
    storage.add(EntryId::new(), &[], &meta(Some(5), true)).unwrap();
    assert_eq!(storage.purge_expired(5).unwrap(), 33_000);
    assert_eq!(storage.list(None, -1).unwrap().len(), 1);
    assert_eq!(storage.purge_expired(5).unwrap(), 0);
}

#[test]
fn an_oversized_paste_count_off_the_page_is_not_read() {
    let flags = OpenFlags::SQLITE_OPEN_READ_WRITE
        | OpenFlags::SQLITE_OPEN_CREATE
        | OpenFlags::SQLITE_OPEN_URI;
    let uri = "file:oversized_paste_count?mode=memory&cache=shared";
    let first = Connection::open_with_flags(uri, flags).unwrap();
    let mut storage = Storage::new(first).unwrap();
    let newest = EntryId::new();
    let oldest = [0u8; 16];
    let other = Connection::open_with_flags(uri, flags).unwrap();
    other
        .execute(
            "INSERT INTO entries (id, blob, created_at, expires_at, pinned, times_pasted, content_kind)
                VALUES (?1, x'00', 1, 5, 0, 5000000000, 'text')",
            [&oldest[..]],
        )
        .unwrap();
    storage.add(newest, &[], &meta(None, false)).unwrap();
    let page = storage.list(None, 1).unwrap();
    assert_eq!(page.len(), 1);
    assert_eq!(page[0].id, newest);
    assert!(matches!(storage.list(None, -1), Err(clip_vault::Error::Storage(_))));
    assert_eq!(storage.purge_expired(5).unwrap(), 1);
    assert_eq!(storage.list(None, -1).unwrap().len(), 1);
}

#[test]
fn new_store_records_the_latest_schema_version() {
    let flags = OpenFlags::SQLITE_OPEN_READ_WRITE
        | OpenFlags::SQLITE_OPEN_CREATE
        | OpenFlags::SQLITE_OPEN_URI;
    let uri = "file:latest_schema_version?mode=memory&cache=shared";
    let first = Connection::open_with_flags(uri, flags).unwrap();
    let _storage = Storage::new(first).unwrap();
    let other = Connection::open_with_flags(uri, flags).unwrap();
    let version: i64 = other.query_row("PRAGMA user_version", [], |row| row.get(0)).unwrap();
    assert_eq!(version, 3);
    let again = Storage::new(other);
    assert!(again.is_ok());
}
