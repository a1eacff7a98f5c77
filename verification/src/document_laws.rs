//! What positions, changes and the document store mean, in terms of the texts
//! themselves.
use vstd::prelude::*;
use vstd::utf8::encode_utf8;

use crate::documents::{
    changed_by_all, changed_text, content_len, lemma_position_is_unique, offset_of_position,
    position_at, position_of_offset, ContentChangeView, DocumentMutationErrorView, ItemView,
    Position, PositionEncoding, Range, StoreView,
};
use crate::error::LspErrorView;
use crate::resource_policy::ResourcePolicy;
use crate::rope::{
    breaks_before, byte_in_char, lemma_byte_in_one_char, lemma_char_of_first_byte, lemma_line_start,
    lemma_lines_in_order, line_count, line_of, line_start, starts_line,
};
use crate::units::{
    byte_count, lemma_byte_count_is_encoding_length, lemma_units_grow, lemma_units_identify_prefix,
    lemma_units_of_equal_prefixes, lemma_units_of_join, lemma_units_of_stretch, units,
};
use crate::uri_key::key_of;

verus! {

/// The bytes a text takes on the wire.
pub open spec fn size(text: Seq<char>) -> nat {
    encode_utf8(text).len()
}

/// Whether a text of so many bytes may be kept: it is within the limit, and a
/// machine can count beyond it.
pub open spec fn within(bytes: int, limit: usize) -> bool {
    bytes <= limit && bytes < usize::MAX
}

/// The characters of a text that take two UTF-16 units.
pub open spec fn beyond_the_basic_plane(text: Seq<char>) -> Seq<char> {
    text.filter(|c: char| c as u32 > 0xFFFF)
}

/// UTF-8 columns count the bytes of the characters before them, UTF-16 columns
/// one unit for each, and one more for each beyond the basic plane.
pub proof fn law_columns_count_code_units(chars: Seq<char>, n: int)
    requires
        0 <= n <= chars.len(),
    ensures
        units(PositionEncoding::Utf8, chars, n) == size(chars.take(n)),
        units(PositionEncoding::Utf16, chars, n) == n + beyond_the_basic_plane(chars.take(n)).len(),
        byte_count(chars) == size(chars),
    decreases n,
{
    lemma_byte_count_is_encoding_length(chars);
    lemma_byte_count_is_encoding_length(chars.take(n));
    lemma_units_of_equal_prefixes(PositionEncoding::Utf8, chars, chars.take(n), n);
    let high = |c: char| c as u32 > 0xFFFF;
    if n > 0 {
        law_columns_count_code_units(chars, n - 1);
        let last = chars[n - 1];
        assert(chars.take(n) =~= chars.take(n - 1) + seq![last]);
        Seq::filter_distributes_over_add(chars.take(n - 1), seq![last], high);
        reveal_with_fuel(Seq::filter, 2);
        assert(seq![last].drop_last() =~= Seq::<char>::empty());
        assert(beyond_the_basic_plane(chars.take(n)) == chars.take(n - 1).filter(high)
            + seq![last].filter(high));
    } else {
        assert(chars.take(0) =~= Seq::<char>::empty());
        reveal_with_fuel(Seq::filter, 1);
    }
}

/// A position that stands before a character has the bytes before that character
/// for an offset, and one that stands before none has no offset.
pub proof fn law_offset_counts_the_bytes_before(
    encoding: PositionEncoding,
    text: Seq<char>,
    position: Position,
)
    ensures
        forall|k: int| #[trigger]
            position_at(encoding, text, position, k) ==> 0 <= k <= text.len()
                && offset_of_position(encoding, text, position) == Some(size(text.take(k)) as int),
        (forall|k: int| !#[trigger] position_at(encoding, text, position, k))
            ==> offset_of_position(encoding, text, position) is None,
{
    assert forall|k: int| #[trigger] position_at(encoding, text, position, k) implies 0 <= k
        <= text.len() && offset_of_position(encoding, text, position) == Some(
        size(text.take(k)) as int,
    ) by {
        lemma_position_is_unique(encoding, text, position, k);
        law_columns_count_code_units(text, k);
    }
}

/// The sizes of the parts of a text sum up.
proof fn lemma_sizes_sum_up(text: Seq<char>, a: int, b: int, insert: Seq<char>)
    requires
        0 <= a <= b <= text.len(),
    ensures
        byte_count(text.take(a) + insert + text.skip(b)) == size(text) - size(text.subrange(a, b))
            + size(insert),
        size(text.take(a) + insert + text.skip(b)) == size(text) - size(text.subrange(a, b))
            + size(insert),
{
    let utf8 = PositionEncoding::Utf8;
    let (head, cut, tail) = (text.take(a), text.subrange(a, b), text.skip(b));
    lemma_byte_count_is_encoding_length(text);
    lemma_byte_count_is_encoding_length(cut);
    lemma_byte_count_is_encoding_length(insert);
    lemma_byte_count_is_encoding_length(head + insert + tail);
    lemma_units_of_join(utf8, head, cut);
    lemma_units_of_join(utf8, head + cut, tail);
    lemma_units_of_join(utf8, head, insert);
    lemma_units_of_join(utf8, head + insert, tail);
    assert(head + cut + tail =~= text);
}

/// A change of a range puts its text in place of the characters between the two
/// positions, whatever that text is: what stands before the range and behind it
/// stays, and the size changes by what is put in less what is taken out. It is
/// refused, for the range or for the size, exactly if the range is backwards or
/// the text that is put in, or the text that results, does not fit.
pub proof fn law_a_partial_change_replaces_its_range(
    encoding: PositionEncoding,
    text: Seq<char>,
    range: Range,
    insert: Seq<char>,
    max_bytes: usize,
    a: int,
    b: int,
)
    requires
        position_at(encoding, text, range.start, a),
        position_at(encoding, text, range.end, b),
    ensures
        ({
            let change = ContentChangeView::Partial { range, text: insert };
            let result = changed_text(encoding, text, change, max_bytes);
            let replaced = text.take(a) + insert + text.skip(b);
            &&& 0 <= a <= text.len() && 0 <= b <= text.len()
            &&& a <= b ==> size(replaced) == size(text) - size(text.subrange(a, b)) + size(insert)
            &&& a <= b && within(size(insert) as int, max_bytes) && within(
                size(text) - size(text.subrange(a, b)) + size(insert),
                max_bytes,
            ) ==> result == Ok::<Seq<char>, DocumentMutationErrorView>(replaced)
            &&& !within(size(insert) as int, max_bytes) || (a <= b && !within(
                size(replaced) as int,
                max_bytes,
            )) ==> result == Err::<Seq<char>, DocumentMutationErrorView>(
                DocumentMutationErrorView::Capacity(
                    LspErrorView::InvalidRequest("document text capacity exhausted"@),
                ),
            )
            &&& b < a && within(size(insert) as int, max_bytes) ==> result == Err::<
                Seq<char>,
                DocumentMutationErrorView,
            >(
                DocumentMutationErrorView::Protocol(
                    LspErrorView::InvalidRequest("range end precedes range start"@),
                ),
            )
        }),
{
    lemma_position_is_unique(encoding, text, range.start, a);
    lemma_position_is_unique(encoding, text, range.end, b);
    lemma_char_of_first_byte(text, a);
    lemma_char_of_first_byte(text, b);
    lemma_units_identify_prefix(PositionEncoding::Utf8, text, a, b);
    lemma_byte_count_is_encoding_length(insert);
    if a <= b {
        lemma_sizes_sum_up(text, a, b, insert);
    }
}

/// A change of a range that starts or ends nowhere in the text is refused.
pub proof fn law_a_partial_change_needs_its_positions(
    encoding: PositionEncoding,
    text: Seq<char>,
    range: Range,
    insert: Seq<char>,
    max_bytes: usize,
)
    requires
        within(size(insert) as int, max_bytes),
    ensures
        ({
            let change = ContentChangeView::Partial { range, text: insert };
            let result = changed_text(encoding, text, change, max_bytes);
            let starts = exists|k: int| position_at(encoding, text, range.start, k);
            let ends = exists|k: int| position_at(encoding, text, range.end, k);
            &&& !starts ==> result == Err::<Seq<char>, DocumentMutationErrorView>(
                DocumentMutationErrorView::Protocol(
                    LspErrorView::InvalidRequest("invalid start position"@),
                ),
            )
            &&& starts && !ends ==> result == Err::<Seq<char>, DocumentMutationErrorView>(
                DocumentMutationErrorView::Protocol(
                    LspErrorView::InvalidRequest("invalid end position"@),
                ),
            )
        }),
{
    lemma_byte_count_is_encoding_length(insert);
}

/// A change of the whole document leaves its own text and nothing of the one
/// before, if it fits.
pub proof fn law_a_whole_change_replaces_the_text(
    encoding: PositionEncoding,
    text: Seq<char>,
    new_text: Seq<char>,
    max_bytes: usize,
)
    ensures
        changed_text(
            encoding,
            text,
            ContentChangeView::WholeDocument { text: new_text },
            max_bytes,
        ) == if within(size(new_text) as int, max_bytes) {
            Ok::<Seq<char>, DocumentMutationErrorView>(new_text)
        } else {
            Err(
                DocumentMutationErrorView::Capacity(
                    LspErrorView::InvalidRequest("document text capacity exhausted"@),
                ),
            )
        },
{
    lemma_byte_count_is_encoding_length(new_text);
}

/// An empty batch leaves the text, one change does what it does alone, and a
/// batch fails as its first failing change does.
pub proof fn law_a_batch_applies_its_changes_in_order(
    encoding: PositionEncoding,
    text: Seq<char>,
    changes: Seq<ContentChangeView>,
    change: ContentChangeView,
    max_bytes: usize,
)
    ensures
        changed_by_all(encoding, text, Seq::empty(), max_bytes) == Ok::<
            Seq<char>,
            DocumentMutationErrorView,
        >(text),
        changed_by_all(encoding, text, seq![change], max_bytes) == changed_text(
            encoding,
            text,
            change,
            max_bytes,
        ),
        changed_by_all(encoding, text, seq![change] + changes, max_bytes) == match changed_text(
            encoding,
            text,
            change,
            max_bytes,
        ) {
            Ok(first) => changed_by_all(encoding, first, changes, max_bytes),
            Err(error) => Err(error),
        },
    decreases changes.len(),
{
    assert(seq![change].drop_last() =~= Seq::<ContentChangeView>::empty());
    assert(changed_by_all(encoding, text, Seq::empty(), max_bytes) == Ok::<
        Seq<char>,
        DocumentMutationErrorView,
    >(text));
    assert(seq![change].last() == change);
    if changes.len() == 0 {
        assert(seq![change] + changes =~= seq![change]);
    } else {
        let shorter = changes.drop_last();
        law_a_batch_applies_its_changes_in_order(encoding, text, shorter, change, max_bytes);
        assert((seq![change] + changes).drop_last() =~= seq![change] + shorter);
        assert((seq![change] + changes).last() == changes.last());
    }
}

/// Opening a document keeps what the editor sent under the key of its URI and
/// leaves every other document; it is refused, and changes nothing, exactly if
/// there is no room for one document more or for its text.
pub proof fn law_opening_keeps_the_document(store: StoreView, item: ItemView, key: Seq<u8>)
    requires
        store.docs.dom().contains(key_of(item.uri)) ==> size(store.docs[key_of(item.uri)].text)
            <= store.bytes,
    ensures
        ({
            let mine = key_of(item.uri);
            let after = store.opened(item);
            let known = store.docs.dom().contains(mine);
            let freed = if known {
                size(store.docs[mine].text) as int
            } else {
                0
            };
            let has_room = known || store.docs.dom().len() < store.max_documents;
            let fits = within(store.bytes - freed + size(item.text), store.max_document_bytes);
            &&& has_room && fits ==> {
                &&& store.open_refusal(item) is None
                &&& after.docs.dom().contains(mine)
                &&& after.docs[mine].uri == item.uri
                &&& after.docs[mine].language_id == item.language_id
                &&& after.docs[mine].version == Some(item.version)
                &&& after.docs[mine].text == item.text
                &&& after.bytes == store.bytes - freed + size(item.text)
                &&& key != mine ==> after.docs.dom().contains(key) == store.docs.dom().contains(key)
                &&& key != mine ==> after.docs[key] == store.docs[key]
            }
            &&& !has_room ==> store.open_refusal(item) == Some(
                DocumentMutationErrorView::Capacity(
                    LspErrorView::InvalidRequest("document count capacity exhausted"@),
                ),
            )
            &&& has_room && !fits ==> store.open_refusal(item) == Some(
                DocumentMutationErrorView::Capacity(
                    LspErrorView::InvalidRequest("document text capacity exhausted"@),
                ),
            )
            &&& !has_room || !fits ==> after == store
            &&& after.encoding == store.encoding
            &&& after.max_documents == store.max_documents
            &&& after.max_document_bytes == store.max_document_bytes
        }),
{
    lemma_byte_count_is_encoding_length(item.text);
    if store.docs.dom().contains(key_of(item.uri)) {
        lemma_byte_count_is_encoding_length(store.docs[key_of(item.uri)].text);
    }
}

/// A batch of changes gives the document under the key of its URI the new text
/// and version, and leaves its other fields, every other document and the store's
/// settings; a refused one changes nothing. The limit is what the other documents
/// leave of the budget.
pub proof fn law_changing_keeps_the_rest(
    store: StoreView,
    uri: Seq<char>,
    version: i32,
    changes: Seq<ContentChangeView>,
    key: Seq<u8>,
)
    requires
        store.docs.dom().contains(key_of(uri)) ==> size(store.docs[key_of(uri)].text)
            <= store.bytes,
        store.bytes <= store.max_document_bytes,
    ensures
        ({
            let mine = key_of(uri);
            let after = store.changed(uri, version, changes);
            let result = store.change_result(uri, changes);
            let known = store.docs.dom().contains(mine);
            let before = store.docs[mine];
            &&& !known ==> result == Err::<Seq<char>, DocumentMutationErrorView>(
                DocumentMutationErrorView::Protocol(
                    LspErrorView::InvalidRequest("document not found"@),
                ),
            )
            &&& known ==> result == changed_by_all(
                store.encoding,
                before.text,
                changes,
                (store.max_document_bytes - (store.bytes - size(before.text))) as usize,
            )
            &&& result is Err ==> after == store
            &&& result matches Ok(text) ==> {
                &&& after.docs.dom().contains(mine)
                &&& after.docs[mine].text == text
                &&& after.docs[mine].version == Some(version)
                &&& after.docs[mine].uri == before.uri
                &&& after.docs[mine].language_id == before.language_id
                &&& after.bytes == store.bytes - size(before.text) + size(text)
                &&& key != mine ==> after.docs.dom().contains(key) == store.docs.dom().contains(key)
                &&& key != mine ==> after.docs[key] == store.docs[key]
            }
            &&& after.encoding == store.encoding
            &&& after.max_documents == store.max_documents
            &&& after.max_document_bytes == store.max_document_bytes
        }),
{
    if store.docs.dom().contains(key_of(uri)) {
        lemma_byte_count_is_encoding_length(store.docs[key_of(uri)].text);
    }
    if let Ok(text) = store.change_result(uri, changes) {
        lemma_byte_count_is_encoding_length(text);
    }
}

/// Closing a document forgets it, frees its bytes and leaves every other; closing
/// one that is not open changes nothing.
pub proof fn law_closing_forgets_the_document(store: StoreView, uri: Seq<char>, key: Seq<u8>)
    requires
        store.docs.dom().contains(key_of(uri)) ==> size(store.docs[key_of(uri)].text)
            <= store.bytes,
    ensures
        ({
            let mine = key_of(uri);
            let after = store.closed(uri);
            &&& !after.docs.dom().contains(mine)
            &&& key != mine ==> after.docs.dom().contains(key) == store.docs.dom().contains(key)
            &&& key != mine && store.docs.dom().contains(key) ==> after.docs[key]
                == store.docs[key]
            &&& store.docs.dom().contains(mine) ==> after.bytes == store.bytes - size(
                store.docs[mine].text,
            )
            &&& !store.docs.dom().contains(mine) ==> after =~= store
            &&& after.encoding == store.encoding
            &&& after.max_documents == store.max_documents
            &&& after.max_document_bytes == store.max_document_bytes
        }),
{
    if store.docs.dom().contains(key_of(uri)) {
        lemma_byte_count_is_encoding_length(store.docs[key_of(uri)].text);
    } else {
        assert(store.docs.remove(key_of(uri)) =~= store.docs);
    }
}

/// A new store holds nothing, counts columns in UTF-16 and has the limits of its
/// policy.
pub proof fn law_a_new_store_is_empty(policy: ResourcePolicy, key: Seq<u8>)
    ensures
        !StoreView::empty(policy).docs.dom().contains(key),
        StoreView::empty(policy).bytes == 0,
        StoreView::empty(policy).encoding == PositionEncoding::Utf16,
        StoreView::empty(policy).max_documents == policy.max_documents,
        StoreView::empty(policy).max_document_bytes == policy.max_document_bytes,
{
}

/// Whether a line ends before character `k`: behind a line feed, a vertical tab, a
/// form feed, a next-line, a line or a paragraph separator, and behind a carriage
/// return that no line feed follows.
pub open spec fn a_line_ends_before(text: Seq<char>, k: int) -> bool {
    &&& 0 < k <= text.len()
    &&& {
        let last = text[k - 1];
        ||| last == '\u{a}' || last == '\u{b}' || last == '\u{c}' || last == '\u{85}' || last
            == '\u{2028}' || last == '\u{2029}'
        ||| last == '\u{d}' && !(k < text.len() && text[k] == '\u{a}')
    }
}

/// Where a line ends: where the next one starts, or where the text ends.
pub open spec fn line_end(text: Seq<char>, line: int) -> int {
    if line + 1 < line_count(text) {
        line_start(text, line + 1)
    } else {
        text.len() as int
    }
}

/// The first line starts with the text, each next one at the first place behind
/// where a line ends, and the last one is that behind which none ends.
pub proof fn law_lines_start_where_lines_end(text: Seq<char>, line: int)
    requires
        0 <= line < line_count(text),
    ensures
        line_start(text, 0) == 0,
        0 <= line_start(text, line) <= line_end(text, line) <= text.len(),
        line_of(text, line) == text.subrange(line_start(text, line), line_end(text, line)),
        line + 1 < line_count(text) ==> line_start(text, line) < line_start(text, line + 1)
            && a_line_ends_before(text, line_start(text, line + 1)),
        forall|k: int|
            line_start(text, line) < k < line_end(text, line) ==> !#[trigger] a_line_ends_before(
                text,
                k,
            ),
        line + 1 == line_count(text) && line_start(text, line) < text.len()
            ==> !a_line_ends_before(text, text.len() as int),
{
    lemma_line_start(text, 0);
    lemma_lines_in_order(text, line);
    lemma_line_start(text, line);
    lemma_line_start(text, line + 1);
    let from = line_start(text, line);
    let to = line_start(text, line + 1);
    assert forall|k: int| #[trigger] a_line_ends_before(text, k) == starts_line(text, k) by {}
    if line_start(text, 0) > 0 {
        assert(breaks_before(text, 0) < 0);
    }
    assert forall|k: int| from < k < line_end(text, line) implies !#[trigger] a_line_ends_before(
        text,
        k,
    ) by {
        assert(breaks_before(text, k) < line + 1);
        crate::rope::lemma_breaks_grow(text, from, k - 1);
        assert(starts_line(text, k) ==> breaks_before(text, k) == breaks_before(text, k - 1) + 1);
    }
    if line + 1 < line_count(text) {
        assert(breaks_before(text, to - 1) < line + 1);
        assert(starts_line(text, to));
    } else if from < text.len() {
        crate::rope::lemma_breaks_grow(text, from, text.len() - 1);
    }
}

/// The columns of a stretch of text: its bytes, or its UTF-16 units.
pub open spec fn columns(encoding: PositionEncoding, stretch: Seq<char>) -> nat {
    match encoding {
        PositionEncoding::Utf8 => size(stretch),
        PositionEncoding::Utf16 => stretch.len() + beyond_the_basic_plane(stretch).len(),
    }
}

/// Whether a character other than a carriage return and a line feed stands at or
/// behind a place.
pub open spec fn content_stands_at(text: Seq<char>, from: int, to: int) -> bool {
    exists|j: int| from <= j < to && #[trigger] text[j] != '\u{d}' && text[j] != '\u{a}'
}

proof fn lemma_content_ends(line: Seq<char>, n: int, column: int)
    requires
        0 <= column <= n <= line.len(),
    ensures
        0 <= content_len(line, n) <= n,
        column <= content_len(line, n) <==> column == 0 || content_stands_at(line, column - 1, n),
    decreases n,
{
    if n > 0 && (line[n - 1] == '\u{d}' || line[n - 1] == '\u{a}') {
        if column <= n - 1 {
            lemma_content_ends(line, n - 1, column);
            if column > 0 && content_stands_at(line, column - 1, n) {
                let j = choose|j: int|
                    column - 1 <= j < n && #[trigger] line[j] != '\u{d}' && line[j] != '\u{a}';
                assert(column - 1 <= j < n - 1);
                assert(content_stands_at(line, column - 1, n - 1));
            }
        } else {
            lemma_content_ends(line, n - 1, n - 1);
        }
    } else if n > 0 {
        assert(line[n - 1] != '\u{d}' && line[n - 1] != '\u{a}');
        if column > 0 {
            assert(content_stands_at(line, column - 1, n));
        }
    }
}

/// A position stands before a character exactly if that character is on its line,
/// or ends it, and its column counts what the line holds before the character. A
/// UTF-8 position does not stand within the carriage returns and line feeds that
/// end its line.
pub proof fn law_a_position_counts_columns_on_its_line(
    encoding: PositionEncoding,
    text: Seq<char>,
    position: Position,
    k: int,
)
    ensures
        position_at(encoding, text, position, k) <==> {
            let line = position.line as int;
            let start = line_start(text, line);
            &&& line < line_count(text)
            &&& start <= k <= line_end(text, line)
            &&& position.character == columns(encoding, text.subrange(start, k))
            &&& encoding == PositionEncoding::Utf8 ==> k == start || content_stands_at(
                text,
                k - 1,
                line_end(text, line),
            )
        },
{
    let line = position.line as int;
    if line < line_count(text) {
        law_lines_start_where_lines_end(text, line);
        let chars = line_of(text, line);
        let start = line_start(text, line);
        let end = line_end(text, line);
        if start <= k <= end {
            law_columns_count_code_units(chars, k - start);
            assert(chars.take(k - start) =~= text.subrange(start, k));
            lemma_content_ends(chars, chars.len() as int, k - start);
            if content_stands_at(chars, k - start - 1, chars.len() as int) {
                let j = choose|j: int|
                    k - start - 1 <= j < chars.len() && #[trigger] chars[j] != '\u{d}' && chars[j]
                        != '\u{a}';
                if k > start {
                    assert(text[start + j] == chars[j]);
                    assert(content_stands_at(text, k - 1, end));
                }
            }
            if k > start && content_stands_at(text, k - 1, end) {
                let j = choose|j: int|
                    k - 1 <= j < end && #[trigger] text[j] != '\u{d}' && text[j] != '\u{a}';
                assert(chars[j - start] == text[j]);
                assert(content_stands_at(chars, k - start - 1, chars.len() as int));
            }
        } else {
            lemma_content_ends(chars, chars.len() as int, 0);
        }
    }
}

/// The position of the offset before a character is that character's line and the
/// columns before it on that line.
pub proof fn law_the_position_of_an_offset_counts_columns(
    encoding: PositionEncoding,
    text: Seq<char>,
    line: int,
    k: int,
)
    requires
        0 <= line < line_count(text),
        line_start(text, line) <= k <= line_end(text, line),
        k < line_end(text, line) || line + 1 == line_count(text),
        line <= u32::MAX,
        columns(encoding, text.subrange(line_start(text, line), k)) <= u32::MAX,
    ensures
        position_of_offset(encoding, text, size(text.take(k)) as int).line == line,
        position_of_offset(encoding, text, size(text.take(k)) as int).character == columns(
            encoding,
            text.subrange(line_start(text, line), k),
        ),
{
    law_lines_start_where_lines_end(text, line);
    lemma_lines_in_order(text, line);
    let start = line_start(text, line);
    let chars = line_of(text, line);
    law_columns_count_code_units(text, k);
    law_columns_count_code_units(text, start);
    lemma_char_of_first_byte(text, k);
    crate::rope::lemma_char_in_line(text, line, k);
    law_columns_count_code_units(chars, k - start);
    assert(chars.take(k - start) =~= text.subrange(start, k));
    lemma_units_of_stretch(
        PositionEncoding::Utf8,
        text,
        start,
        line_end(text, line),
        k - start,
    );
}

/// An offset inside a character has that character's line; its column is the
/// bytes since the line's start in UTF-8, and the end of the line in UTF-16.
pub proof fn law_an_offset_inside_a_character(
    encoding: PositionEncoding,
    text: Seq<char>,
    line: int,
    k: int,
    offset: int,
)
    requires
        0 <= line < line_count(text),
        line_start(text, line) <= k < line_end(text, line),
        size(text.take(k)) < offset < size(text.take(k + 1)),
        line <= u32::MAX,
        size(line_of(text, line)) <= u32::MAX,
    ensures
        ({
            let position = position_of_offset(encoding, text, offset);
            &&& position.line == line
            &&& position.character == match encoding {
                PositionEncoding::Utf8 => offset - size(text.take(line_start(text, line))),
                PositionEncoding::Utf16 => columns(encoding, line_of(text, line)) as int,
            }
        }),
{
    law_lines_start_where_lines_end(text, line);
    lemma_lines_in_order(text, line);
    let start = line_start(text, line);
    let end = line_end(text, line);
    let chars = line_of(text, line);
    law_columns_count_code_units(text, k);
    law_columns_count_code_units(text, k + 1);
    law_columns_count_code_units(text, start);
    law_columns_count_code_units(chars, chars.len() as int);
    assert(chars.take(chars.len() as int) =~= chars);
    lemma_units_grow(PositionEncoding::Utf8, text, k + 1, text.len() as int);
    lemma_units_grow(PositionEncoding::Utf8, text, k + 1, end);
    lemma_units_grow(PositionEncoding::Utf8, text, start, k);
    assert(byte_in_char(text, offset, k));
    lemma_byte_in_one_char(text, offset);
    crate::rope::lemma_char_in_line(text, line, k);
    lemma_units_of_stretch(PositionEncoding::Utf8, text, start, end, end - start);
    lemma_utf16_is_shorter(chars, chars.len() as int);
}

proof fn lemma_utf16_is_shorter(chars: Seq<char>, n: int)
    ensures
        units(PositionEncoding::Utf16, chars, n) <= units(PositionEncoding::Utf8, chars, n),
    decreases n,
{
    if n > 0 {
        lemma_utf16_is_shorter(chars, n - 1);
    }
}

} // verus!
