//! Document storage, versioning, and position conversion.
use lspf::documents::{
    Document, DocumentMutationError, Documents, Position, PositionEncoding, PositionEncodingKind,
    Range, TextDocumentContentChangeEvent, TextDocumentItem,
};
use lspf::error::LspError;
use lspf::resource_policy::ResourcePolicy;

fn text_item(uri: &str, text: &str) -> TextDocumentItem {
    TextDocumentItem {
        uri: uri.to_string(),
        language_id: "plaintext".to_string(),
        version: 1,
        text: text.to_string(),
    }
}

/// A store holding exactly one open document.
fn opened<'a>(uri: &'a str, text: &str) -> (Documents, &'a str) {
    let mut docs = Documents::new();
    docs.open(text_item(uri, text)).expect("the default policy accepts the test document");
    (docs, uri)
}

/// One content change, as `didChange` delivers it.
fn change(range: Option<Range>, text: &str) -> TextDocumentContentChangeEvent {
    match range {
        Some(range) => TextDocumentContentChangeEvent::Partial { range, text: text.to_string() },
        None => TextDocumentContentChangeEvent::WholeDocument { text: text.to_string() },
    }
}

fn range(start: u32, end: u32) -> Range {
    Range { start: at(0, start), end: at(0, end) }
}

fn at(line: u32, character: u32) -> Position {
    Position { line, character }
}

#[test]
fn open_document_can_be_read_back() {
    let (docs, u) = opened("file:///tmp/test.txt", "hello world");

    let doc = docs.get(u).expect("document should exist");
    assert_eq!(doc.uri(), u);
    assert_eq!(doc.language_id(), "plaintext");
    assert_eq!(doc.version(), Some(1));
    assert_eq!(doc.text(), "hello world");
}

#[test]
fn close_removes_document() {
    let (mut docs, u) = opened("file:///close.txt", "x");
    assert!(docs.get(u).is_some());

    docs.close(u);
    assert!(docs.get(u).is_none());
}

#[test]
fn equivalent_uri_spellings_resolve_to_one_document() {
    let mut docs = Documents::new();
    let original = "file:///C%3A/Users/Me/a.rs";
    docs.open(text_item(original, "fn main() {}"))
        .expect("the default policy accepts the test document");

    for spelling in [
        "file:///c:/Users/Me/a.rs",
        "file:///C:/Users/Me/a.rs",
        "file:///c%3A/Users/Me/a.rs",
        "file:///c%3a/Users/Me/a.rs",
        "FILE:///C:/Users/Me/a.rs",
    ] {
        let doc = docs
            .get(spelling)
            .unwrap_or_else(|| panic!("{spelling} resolves to the opened document"));
        assert_eq!(doc.uri(), original, "the public value keeps the URI the client opened with");
    }
}

#[test]
fn path_case_still_distinguishes_documents() {
    let mut docs = Documents::new();
    docs.open(text_item("file:///home/Foo.rs", "a"))
        .expect("the default policy accepts the test document");
    assert!(docs.get("file:///home/foo.rs").is_none(), "ordinary path case is not normalized");
}

#[test]
fn change_and_close_resolve_through_the_same_normalized_key() {
    let mut docs = Documents::new();
    docs.open(text_item("file:///C%3A/w/a.rs", "hello"))
        .expect("the default policy accepts the test document");

    docs.apply_changes("file:///c:/w/a.rs", 2, vec![change(None, "goodbye")])
        .expect("the change names the same document by another spelling");
    assert_eq!(docs.get("FILE:///C:/w/a.rs").unwrap().text(), "goodbye");

    assert!(
        docs.close("file:///c%3A/w/a.rs").is_some(),
        "the close names the same document by another spelling"
    );
    assert!(docs.get("file:///c:/w/a.rs").is_none());
}

#[test]
fn separate_document_stores_keep_same_uri_overlays_isolated() {
    let mut first = Documents::new();
    let mut second = Documents::new();
    let u = "file:///shared.txt";
    first
        .open(text_item(u, "first editor"))
        .expect("the default policy accepts the first test document");
    second
        .open(text_item(u, "second editor"))
        .expect("the default policy accepts the second test document");

    first
        .apply_changes(u, 2, vec![change(None, "first editor changed")])
        .expect("the first editor changes its own overlay");
    second.close(u);

    let remaining = first.get(u).expect("closing the second overlay is isolated");
    assert_eq!(remaining.text(), "first editor changed");
    assert_eq!(remaining.version(), Some(2));
    assert!(second.get(u).is_none());
}

#[test]
fn position_encoding_defaults_to_utf16() {
    assert_eq!(Documents::new().position_encoding(), PositionEncoding::Utf16);
    assert_eq!(PositionEncoding::default(), PositionEncoding::Utf16);
}

#[test]
fn utf16_position_to_offset_counts_code_units() {
    // "héllo" -> h(1) é(1 utf16) l(1) l(1) o(1) = 5 UTF-16 code units on line 0.
    let (docs, u) = opened("file:///unicode.txt", "héllo\nworld");

    // 'é' starts at UTF-16 character 1 (after 'h').
    assert_eq!(docs.position_to_offset(u, at(0, 1)), Some(1));
    // The second line starts at byte offset 7 ("héllo" = 6 bytes + '\n' = 1).
    assert_eq!(docs.position_to_offset(u, at(1, 0)), Some(7));
}

#[test]
fn utf16_offset_to_position_round_trips() {
    let (docs, u) = opened("file:///unicode.txt", "héllo\nworld");

    assert_eq!(docs.offset_to_position(u, 1), Some(at(0, 1)));
    assert_eq!(docs.offset_to_position(u, 7), Some(at(1, 0)));
}

#[test]
fn utf8_position_is_byte_offset() {
    let (mut docs, u) = opened("file:///unicode.txt", "héllo\nworld");
    docs.set_position_encoding(PositionEncoding::Utf8);

    // 'é' starts at byte 1, so 'l' starts at byte 3.
    assert_eq!(docs.position_to_offset(u, at(0, 3)), Some(3));
    assert_eq!(docs.offset_to_position(u, 3), Some(at(0, 3)));
}

#[test]
fn utf8_position_rejects_mid_codepoint_and_past_eol() {
    let (mut docs, u) = opened("file:///unicode.txt", "héllo\nworld");
    docs.set_position_encoding(PositionEncoding::Utf8);

    assert_eq!(
        docs.position_to_offset(u, at(0, 2)),
        None,
        "byte 2 falls inside the two-byte 'é', so it is not a boundary"
    );
    assert_eq!(
        docs.position_to_offset(u, at(0, 7)),
        None,
        "\"héllo\" is 6 bytes, so character 7 points past the line's content"
    );
}

#[test]
fn emoji_counts_two_utf16_code_units() {
    // "a👋b" -> a(1) 👋(2 utf16) b(1) = 4 UTF-16 code units.
    let (docs, u) = opened("file:///emoji.txt", "a👋b");

    assert_eq!(
        docs.position_to_offset(u, at(0, 3)),
        Some(5),
        "character 3 is past the emoji, at the byte after its four bytes"
    );
    assert_eq!(docs.position_to_offset(u, at(0, 1)), Some(1));
}

#[test]
fn invalid_utf16_edit_positions_are_rejected_without_changing_the_document() {
    // UTF-16 position 2 bisects the emoji's surrogate pair.
    let (mut docs, u) = opened("file:///invalid-utf16.txt", "a👋b");
    let invalid_ranges = [
        Range { start: at(0, 2), end: at(0, 2) },
        Range { start: at(0, 5), end: at(0, 5) },
        Range { start: at(1, 0), end: at(1, 0) },
    ];

    for invalid_range in invalid_ranges {
        assert!(
            docs.apply_changes(u, 2, vec![change(Some(invalid_range), "x")]).is_err(),
            "an invalid UTF-16 endpoint must reject the whole change"
        );
        let doc = docs.get(u).expect("the rejected edit keeps the document");
        assert_eq!(doc.text(), "a👋b");
        assert_eq!(doc.version(), Some(1));
    }

    assert_eq!(
        docs.position_to_offset(u, at(0, 3)),
        Some(5),
        "a later valid lookup still works"
    );
}

#[test]
fn utf8_and_utf16_positions_round_trip_complex_unicode_across_lines() {
    // Covers a mixed-width sample: composed and decomposed text,
    // BMP characters, a surrogate pair, and a line boundary.
    let text = "äa\u{0308}錯誤😋\näa\u{0308}錯誤😋";
    let (mut docs, u) = opened("file:///position-round-trip.txt", text);

    for encoding in [PositionEncoding::Utf8, PositionEncoding::Utf16] {
        docs.set_position_encoding(encoding);
        let mut line_start: usize = 0;

        for (line_index, line) in text.split('\n').enumerate() {
            let mut character: u32 = 0;
            for (byte_in_line, ch) in line.char_indices() {
                let position = at(line_index as u32, character);
                let offset = line_start + byte_in_line;
                assert_eq!(docs.position_to_offset(u, position), Some(offset));
                assert_eq!(docs.offset_to_position(u, offset), Some(position));
                character += match encoding {
                    PositionEncoding::Utf8 => ch.len_utf8() as u32,
                    PositionEncoding::Utf16 => ch.len_utf16() as u32,
                };
            }

            let line_end = at(line_index as u32, character);
            assert_eq!(docs.position_to_offset(u, line_end), Some(line_start + line.len()));
            assert_eq!(docs.offset_to_position(u, line_start + line.len()), Some(line_end));
            line_start += line.len() + 1;
        }
    }
}

#[test]
fn positions_use_line_content_before_crlf_and_lf_endings() {
    let (mut docs, u) = opened("file:///line-endings.txt", "x\r\ny\n");

    for encoding in [PositionEncoding::Utf8, PositionEncoding::Utf16] {
        docs.set_position_encoding(encoding);
        assert_eq!(docs.position_to_offset(u, at(0, 1)), Some(1));
        assert_eq!(docs.offset_to_position(u, 1), Some(at(0, 1)));
        assert_eq!(docs.position_to_offset(u, at(1, 0)), Some(3));
        assert_eq!(docs.offset_to_position(u, 3), Some(at(1, 0)));
        assert_eq!(docs.position_to_offset(u, at(1, 1)), Some(4));
        assert_eq!(docs.position_to_offset(u, at(2, 0)), Some(5));
    }
}

#[test]
fn a_change_advances_the_version_and_replaces_the_range() {
    let (mut docs, u) = opened("file:///change.txt", "hello world");

    docs.apply_changes(u, 2, vec![change(Some(range(6, 11)), "lspf")])
        .expect("the change applies cleanly");

    let doc = docs.get(u).unwrap();
    assert_eq!(doc.text(), "hello lspf");
    assert_eq!(doc.version(), Some(2));
}

#[test]
fn successful_changes_record_no_op_and_non_monotonic_versions() {
    // The client owns the version value, even when text is unchanged or it
    // decreases.
    let mut docs = Documents::new();
    let u = "file:///versions.txt";
    docs.open(TextDocumentItem {
        uri: u.to_string(),
        language_id: "plaintext".to_string(),
        version: 25,
        text: "contents".to_string(),
    })
    .expect("the default policy accepts the test document");

    docs.apply_changes(u, 27, vec![change(None, "contents")])
        .expect("a no-op replacement still records its version");
    let no_op = docs.get(u).unwrap();
    assert_eq!(no_op.text(), "contents");
    assert_eq!(no_op.version(), Some(27));

    docs.apply_changes(u, 7, vec![change(None, "new contents")])
        .expect("the store accepts the client's non-monotonic version");
    let regressed = docs.get(u).unwrap();
    assert_eq!(regressed.text(), "new contents");
    assert_eq!(regressed.version(), Some(7));
}

#[test]
fn a_change_batch_reinterprets_later_ranges_after_unicode_multiline_edits() {
    // The second range is expressed against the text produced by the first.
    let (mut docs, u) = opened("file:///sequential-edits.txt", "a\nb");
    let changes = vec![
        change(Some(Range { start: at(0, 1), end: at(1, 0) }), "\nțc"),
        change(Some(Range { start: at(0, 1), end: at(1, 1) }), "d"),
    ];

    docs.apply_changes(u, 2, changes)
        .expect("each range is interpreted against the preceding edit");

    let doc = docs.get(u).unwrap();
    assert_eq!(doc.text(), "adcb");
    assert_eq!(doc.version(), Some(2));
}

#[test]
fn an_incremental_change_can_insert_into_an_empty_document() {
    let (mut docs, u) = opened("file:///empty.txt", "");

    docs.apply_changes(u, 2, vec![change(Some(range(0, 0)), "f")])
        .expect("the insertion applies at the empty document's only position");

    let doc = docs.get(u).unwrap();
    assert_eq!(doc.text(), "f");
    assert_eq!(doc.version(), Some(2));
}

#[test]
fn an_incremental_change_can_insert_after_a_trailing_newline() {
    let (mut docs, u) = opened("file:///eof.txt", "first\nsecond\n");
    let eof = Range { start: at(2, 0), end: at(2, 0) };

    docs.apply_changes(u, 2, vec![change(Some(eof), "third")])
        .expect("the trailing newline exposes an empty final line");

    let doc = docs.get(u).unwrap();
    assert_eq!(doc.text(), "first\nsecond\nthird");
    assert_eq!(doc.version(), Some(2));
}

#[test]
fn an_omitted_range_replaces_the_whole_document() {
    let (mut docs, u) = opened("file:///change.txt", "hello");

    docs.apply_changes(u, 2, vec![change(None, "goodbye")]).expect("the change applies cleanly");

    let doc = docs.get(u).unwrap();
    assert_eq!(doc.text(), "goodbye");
    assert_eq!(doc.version(), Some(2));
}

#[test]
fn a_reversed_range_is_rejected_without_poisoning_the_store() {
    let (mut docs, u) = opened("file:///reversed.txt", "hello world");

    assert!(
        docs.apply_changes(u, 2, vec![change(Some(range(11, 6)), "x")]).is_err(),
        "a reversed range is an invalid request"
    );

    let doc = docs.get(u).expect("the store is still readable");
    assert_eq!(doc.text(), "hello world");
    assert_eq!(doc.version(), Some(1), "a rejected change advances nothing");
}

#[test]
fn a_change_to_an_unopened_document_is_rejected() {
    let mut docs = Documents::new();
    assert!(
        docs.apply_changes("file:///never-opened.txt", 2, vec![change(None, "x")]).is_err(),
        "a change names a document the store must already hold"
    );
}

#[test]
fn negotiation_defaults_to_utf16_when_the_client_offers_nothing() {
    let mut docs = Documents::new();
    assert_eq!(docs.negotiate_position_encoding(&None), PositionEncodingKind::UTF16);
    assert_eq!(docs.position_encoding(), PositionEncoding::Utf16);
}

#[test]
fn negotiation_picks_utf8_when_the_client_offers_it() {
    let mut docs = Documents::new();
    assert_eq!(
        docs.negotiate_position_encoding(&Some(vec![PositionEncodingKind::UTF8])),
        PositionEncodingKind::UTF8
    );
    assert_eq!(docs.position_encoding(), PositionEncoding::Utf8);
}

#[test]
fn negotiation_falls_back_to_utf16_for_utf16_only_and_unsupported_offers() {
    for offered in [PositionEncodingKind::UTF16, PositionEncodingKind::UTF32] {
        let mut docs = Documents::new();
        assert_eq!(
            docs.negotiate_position_encoding(&Some(vec![offered])),
            PositionEncodingKind::UTF16,
            "the offer leaves the LSP-mandatory default"
        );
        assert_eq!(docs.position_encoding(), PositionEncoding::Utf16);
    }
}

#[test]
fn negotiation_prefers_utf8_over_utf16_when_both_are_offered() {
    let mut docs = Documents::new();
    // Offered UTF-16 first: the library's own preference order decides, not the
    // client's ordering.
    assert_eq!(
        docs.negotiate_position_encoding(&Some(vec![
            PositionEncodingKind::UTF16,
            PositionEncodingKind::UTF8,
        ])),
        PositionEncodingKind::UTF8
    );
    assert_eq!(docs.position_encoding(), PositionEncoding::Utf8);
}

fn message(error: DocumentMutationError) -> (&'static str, String) {
    match error {
        DocumentMutationError::Capacity(error) => ("capacity", error.message()),
        DocumentMutationError::Protocol(error) => ("protocol", error.message()),
    }
}

fn store(max_documents: usize, max_document_bytes: usize) -> Documents {
    Documents::with_resource_policy(ResourcePolicy {
        max_documents,
        max_document_bytes,
        ..ResourcePolicy::default()
    })
}

#[test]
fn one_document_too_many_is_refused_until_another_closes() {
    let mut docs = store(1, 100);
    docs.open(text_item("file:///a", "a")).unwrap();
    let refused = docs.open(text_item("file:///b", "b")).unwrap_err();
    assert_eq!(
        message(refused),
        ("capacity", LspError::invalid_request("document count capacity exhausted").message())
    );
    docs.open(text_item("file:///a", "again")).expect("a document replaces itself");
    docs.close("file:///a");
    docs.open(text_item("file:///b", "b")).expect("the slot is free again");
    assert!(docs.get("file:///a").is_none());
}

#[test]
fn texts_share_one_byte_budget() {
    let mut docs = store(10, 5);
    docs.open(text_item("file:///a", "abc")).unwrap();
    let refused = docs.open(text_item("file:///b", "def")).unwrap_err();
    assert_eq!(
        message(refused),
        ("capacity", LspError::invalid_request("document text capacity exhausted").message())
    );
    docs.open(text_item("file:///b", "de")).expect("exactly the budget fits");
    let grown = docs.apply_changes("file:///b", 2, vec![change(None, "def")]).unwrap_err();
    assert_eq!(message(grown).0, "capacity");
    assert_eq!(docs.get("file:///b").unwrap().text(), "de");
    assert_eq!(docs.get("file:///b").unwrap().version(), Some(1));
    docs.apply_changes("file:///a", 2, vec![change(None, "a")]).unwrap();
    docs.apply_changes("file:///b", 2, vec![change(None, "defg")]).expect("the freed bytes fit");
}

#[test]
fn a_change_batch_is_applied_wholly_or_not_at_all() {
    let (mut docs, u) = opened("file:///batch.txt", "hello");
    let refused = docs
        .apply_changes(u, 2, vec![change(None, "changed"), change(Some(range(9, 9)), "x")])
        .unwrap_err();
    assert_eq!(message(refused).0, "protocol");
    let doc = docs.get(u).unwrap();
    assert_eq!(doc.text(), "hello");
    assert_eq!(doc.version(), Some(1));
}

#[test]
fn a_reader_sees_what_the_store_holds() {
    let (mut docs, u) = opened("file:///read.txt", "héllo");
    docs.set_position_encoding(PositionEncoding::Utf8);
    let reader = docs.reader();
    assert_eq!(reader.get(u).unwrap().text(), "héllo");
    assert_eq!(reader.position_encoding(), PositionEncoding::Utf8);
    assert_eq!(reader.position_to_offset(u, at(0, 6)), Some(6));
    assert_eq!(reader.offset_to_position(u, 6), Some(at(0, 6)));
    assert!(reader.get("file:///other.txt").is_none());
    assert_eq!(reader.position_to_offset("file:///other.txt", at(0, 0)), None);
}

#[test]
fn clearing_the_store_closes_every_document() {
    let mut docs = store(2, 4);
    docs.open(text_item("file:///a", "aa")).unwrap();
    docs.open(text_item("file:///b", "bb")).unwrap();
    docs.clear();
    assert!(docs.get("file:///a").is_none());
    assert!(docs.get("file:///b").is_none());
    docs.open(text_item("file:///c", "cccc")).expect("the budgets are free again");
}

#[test]
fn a_provider_snapshot_has_no_version() {
    let doc = Document::provider_snapshot("file:///p.rs".to_string(), "añb".to_string());
    assert_eq!(doc.uri(), "file:///p.rs");
    assert_eq!(doc.version(), None);
    assert_eq!(doc.text(), "añb");
    assert_eq!(doc.len_bytes(), 4);
    assert_eq!(doc.position_to_offset(PositionEncoding::Utf16, at(0, 2)), Some(3));
    assert_eq!(doc.offset_to_position(PositionEncoding::Utf8, 3), Some(at(0, 3)));
    assert_eq!(doc.offset_to_position(PositionEncoding::Utf8, 5), None);
}

#[test]
fn a_new_store_has_the_default_budgets() {
    let mut docs = Documents::new();
    for i in 0..4096 {
        docs.open(text_item(&format!("file:///{i}"), "")).unwrap();
    }
    assert!(docs.open(text_item("file:///more", "")).is_err());
}

#[test]
fn positions_up_to_the_break_round_trip() {
    let (mut docs, u) = opened("file:///breaks.txt", "ab\r\nc\nd");
    for encoding in [PositionEncoding::Utf8, PositionEncoding::Utf16] {
        docs.set_position_encoding(encoding);
        for position in [at(0, 0), at(0, 2), at(1, 0), at(1, 1), at(2, 0), at(2, 1)] {
            let offset = docs.position_to_offset(u, position).unwrap();
            assert_eq!(docs.offset_to_position(u, offset), Some(position));
        }
    }
}
