use clip_vault::{
    BinaryPayload, ClipEntry, EntryContent, EntryId, MimeType, PasteCount, SensitiveReason,
    Sensitivity, Timestamp,
};
use std::time::{Duration, Instant};

#[test]
fn entry_id_is_time_sortable() {
    let first = EntryId::new();
    let start = Instant::now();
    while start.elapsed() < Duration::from_millis(2) {}
    let second = EntryId::new();

    assert!(
        first.as_bytes() < second.as_bytes(),
        "expected first ({first:?}) to sort before second ({second:?})"
    );
    assert!(first.sort_key() < second.sort_key());
}

#[test]
fn entry_id_is_uuid_v7() {
    let id = EntryId::new();
    let uuid = uuid::Uuid::from_bytes(id.as_bytes());
    assert_eq!(uuid.get_version_num(), 7);
    assert_eq!(uuid.get_variant(), uuid::Variant::RFC4122);
}

#[test]
fn entry_id_bytes_round_trip() {
    let bytes: [u8; 16] = core::array::from_fn(|i| i as u8 * 17);
    let id = EntryId::from_bytes(bytes);
    assert_eq!(id.as_bytes(), bytes);
    assert_eq!(id.sort_key(), u128::from_be_bytes(bytes));
}

#[test]
fn sort_key_orders_like_the_bytes() {
    let mut a = [0u8; 16];
    let mut b = [0u8; 16];
    a[3] = 1;
    b[3] = 1;
    b[15] = 1;
    assert!(EntryId::from_bytes(a).sort_key() < EntryId::from_bytes(b).sort_key());
    let mut c = [255u8; 16];
    c[0] = 0;
    let mut d = [0u8; 16];
    d[0] = 1;
    assert!(EntryId::from_bytes(c).sort_key() < EntryId::from_bytes(d).sort_key());
    assert_eq!(EntryId::from_bytes([255u8; 16]).sort_key(), u128::MAX);
}

#[test]
fn clip_entry_new_defaults() {
    let before = chrono::Utc::now().timestamp_millis();
    let entry = ClipEntry::new(
        EntryContent::Text("hello world".into()),
        Sensitivity::Sensitive(SensitiveReason::UserForced),
        vec!["text/plain".into()],
    );
    let after = chrono::Utc::now().timestamp_millis();
    assert_eq!(
        entry.get_entry_content(),
        &EntryContent::Text("hello world".into())
    );
    assert_eq!(
        entry.get_entry_sensitivity(),
        &Sensitivity::Sensitive(SensitiveReason::UserForced)
    );
    assert_eq!(entry.get_entry_mime_types(), &[MimeType::from("text/plain")]);
    assert_eq!(u32::from(*entry.get_entry_times_pasted()), 0);
    assert!(!entry.get_entry_pinned());
    assert_eq!(entry.get_entry_expires_at(), None);
    let created = entry.get_entry_created_at().timestamp_millis();
    assert!(before <= created && created <= after);
    assert_eq!(entry.get_entry_id().as_bytes()[6] >> 4, 7);
    assert_eq!(entry.get_entry_id().as_bytes()[8] >> 6, 2);
    let other = ClipEntry::new(EntryContent::Text("x".into()), Sensitivity::Normal, vec![]);
    assert_ne!(entry.get_entry_id(), other.get_entry_id());
}

#[test]
fn clip_entry_from_parts_keeps_fields() {
    let id = EntryId::from_bytes([1; 16]);
    let payload = BinaryPayload::new(vec![1, 2, 3], MimeType::new("image/png".to_string()));
    let entry = ClipEntry::from_parts(
        id,
        EntryContent::Image(payload.clone()),
        Sensitivity::Normal,
        vec![MimeType::from("image/png".to_string())],
        PasteCount::new(5),
        true,
        Timestamp::from_parts(42, 123_456_789).unwrap(),
        Some(Timestamp::from_parts(99, 0).unwrap()),
    );
    assert_eq!(*entry.get_entry_id(), id);
    assert_eq!(entry.get_entry_content(), &EntryContent::Image(payload.clone()));
    assert_eq!(payload.data(), &[1, 2, 3]);
    assert_eq!(payload.mime().as_str(), "image/png");
    assert_eq!(entry.get_entry_times_pasted().get(), 5);
    assert!(entry.get_entry_pinned());
    assert_eq!(entry.get_entry_created_at().secs(), 42);
    assert_eq!(entry.get_entry_created_at().subsec_nanos(), 123_456_789);
    assert_eq!(entry.get_entry_expires_at(), Timestamp::from_parts(99, 0));
}

#[test]
fn timestamp_millis_counts_whole_milliseconds() {
    let t = Timestamp::from_parts(1_700_000_000, 987_654_321).unwrap();
    assert_eq!(t.timestamp_millis(), 1_700_000_000_987);
    let before_epoch = Timestamp::from_parts(-2, 500_000_000).unwrap();
    assert_eq!(before_epoch.timestamp_millis(), -1_500);
    let leap = Timestamp::from_parts(59, 1_500_000_000).unwrap();
    assert_eq!(leap.timestamp_millis(), 60_500);
    let t2 = chrono::DateTime::from_timestamp(1_700_000_000, 987_654_321).unwrap();
    assert_eq!(t.timestamp_millis(), t2.timestamp_millis());
}

#[test]
fn timestamp_range_is_checked() {
    assert!(Timestamp::from_parts(0, 2_000_000_000).is_none());
    assert!(Timestamp::from_parts(9_223_372_036_854_773, 1_999_999_999).is_some());
    assert!(Timestamp::from_parts(9_223_372_036_854_774, 0).is_none());
    assert!(Timestamp::from_parts(-9_223_372_036_854_775, 0).is_some());
    assert!(Timestamp::from_parts(-9_223_372_036_854_776, 0).is_none());
    let top = Timestamp::from_parts(9_223_372_036_854_773, 1_999_999_999).unwrap();
    assert_eq!(top.timestamp_millis(), 9_223_372_036_854_774_999);
    let bottom = Timestamp::from_parts(-9_223_372_036_854_775, 0).unwrap();
    assert_eq!(bottom.timestamp_millis(), -9_223_372_036_854_775_000);
}
