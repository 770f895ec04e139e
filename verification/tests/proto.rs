use clip_vault::entry::PasteCount;
use clip_vault::proto::{
    check_protocol_version, frame_line, truncate, PROTOCOL_VERSION, SNIPPET_CHARS,
};
use clip_vault::{
    BinaryPayload, ClipEntry, EntryContent, EntryId, EntryPreview, MimeType, PreviewKind,
    ProtoError, Request, RequestBody, Sensitivity, Timestamp,
};

#[test]
fn decode_rejects_unknown_version() {
    let mut request = Request::new(RequestBody::List {
        after: None,
        limit: 1,
    });
    request.protocol_version = 99;
    let line = frame_line(format!(
        "{{\"protocol_version\":{},\"body\":{{\"type\":\"List\",\"after\":null,\"limit\":1}}}}",
        request.protocol_version
    ));
    assert!(line.ends_with('\n'), "frame must be newline-terminated");

    let header: serde_json::Value = serde_json::from_str(&line).unwrap();
    let found = header["protocol_version"].as_u64().unwrap() as u8;
    let err = check_protocol_version(found).unwrap_err();
    assert!(matches!(
        err,
        ProtoError::UnsupportedVersion {
            expected: PROTOCOL_VERSION,
            found: 99
        }
    ));
}

#[test]
fn current_version_is_accepted() {
    assert!(check_protocol_version(PROTOCOL_VERSION).is_ok());
    assert!(check_protocol_version(0).is_err());
    let request = Request::new(RequestBody::MarkPasted {
        id: EntryId::from_bytes([2; 16]),
    });
    assert_eq!(request.protocol_version, 1);
}

#[test]
fn preview_truncates_long_text_and_drops_binary() {
    let long = "x".repeat(200);
    let entry = ClipEntry::new(
        EntryContent::Text(long),
        Sensitivity::Normal,
        vec!["text/plain".into()],
    );
    let preview = EntryPreview::from_entry(&entry);
    assert_eq!(preview.kind, PreviewKind::Text);
    assert_eq!(preview.snippet.chars().count(), SNIPPET_CHARS);

    let binary = ClipEntry::from_parts(
        EntryId::from_bytes([3; 16]),
        EntryContent::Binary(BinaryPayload::new(vec![0; 10], MimeType::from("application/x"))),
        Sensitivity::Normal,
        vec![],
        PasteCount::new(4),
        true,
        Timestamp::from_parts(1, 234_999_999).unwrap(),
        None,
    );
    let preview = EntryPreview::from_entry(&binary);
    assert_eq!(preview.kind, PreviewKind::Binary);
    assert_eq!(preview.snippet, "");
    assert_eq!(preview.id, EntryId::from_bytes([3; 16]));
    assert!(preview.pinned);
    assert_eq!(preview.times_pasted, 4);
    assert_eq!(preview.created_at, 1234);
}

#[test]
fn truncate_respects_char_boundaries() {
    assert_eq!(truncate("héllo wörld", 4), "héll");
    assert_eq!(truncate("ab", 5), "ab");
    assert_eq!(truncate("", 3), "");
    assert_eq!(truncate("abc", 0), "");
    assert_eq!(truncate("✓✓✓", 2), "✓✓");
}

#[test]
fn frame_line_appends_one_newline() {
    assert_eq!(frame_line("{}".to_string()), "{}\n");
    assert_eq!(frame_line(String::new()), "\n");
}
