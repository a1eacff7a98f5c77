//! The documents a connection tracks.
use vstd::prelude::*;

use ropey::Rope;

use crate::error::{LspError, LspErrorView};
use crate::options::PositionEncodingKindView;
use crate::resource_policy::ResourcePolicy;
use crate::rope::{
    breaks_before, char_of_byte, lemma_byte_in_one_char, lemma_char_in_line,
    lemma_char_of_first_byte, lemma_line_of_char, lemma_line_start, lemma_lines_in_order,
    byte_in_char, is_line_break, line_count, line_of, line_start, rope_byte_to_char,
    rope_byte_to_line, starts_line,
    rope_chars, rope_clone, rope_from_str, rope_insert, rope_len_bytes, rope_len_lines, rope_line,
    rope_line_to_byte, rope_remove, rope_to_string,
};
use crate::text::{byte_len, chars_of, same_bytes};
use crate::units::{
    byte_count, char_width, lemma_byte_count_is_encoding_length, lemma_units_grow,
    lemma_units_identify_prefix, lemma_units_of_equal_prefixes, lemma_units_of_join,
    lemma_units_of_stretch, units,
};
use crate::uri_key::{key_of, uri_key};

verus! {

pub const DOCUMENT_COUNT_CAPACITY_EXHAUSTED: &'static str = "document count capacity exhausted";

pub const DOCUMENT_TEXT_CAPACITY_EXHAUSTED: &'static str = "document text capacity exhausted";

/// Why a document was not changed.
#[derive(Debug)]
pub enum DocumentMutationError {
    /// The change does not fit the resource budget.
    Capacity(LspError),
    /// The change breaks the protocol.
    Protocol(LspError),
}

/// What a [`DocumentMutationError`] says.
pub enum DocumentMutationErrorView {
    Capacity(LspErrorView),
    Protocol(LspErrorView),
}

impl View for DocumentMutationError {
    type V = DocumentMutationErrorView;

    open spec fn view(&self) -> DocumentMutationErrorView {
        match *self {
            DocumentMutationError::Capacity(e) => DocumentMutationErrorView::Capacity(e@),
            DocumentMutationError::Protocol(e) => DocumentMutationErrorView::Protocol(e@),
        }
    }
}

/// The refusal of a text that does not fit.
pub open spec fn text_capacity_error() -> DocumentMutationErrorView {
    DocumentMutationErrorView::Capacity(
        LspErrorView::InvalidRequest(DOCUMENT_TEXT_CAPACITY_EXHAUSTED@),
    )
}

/// The refusal of one document more than there is room for.
pub open spec fn count_capacity_error() -> DocumentMutationErrorView {
    DocumentMutationErrorView::Capacity(
        LspErrorView::InvalidRequest(DOCUMENT_COUNT_CAPACITY_EXHAUSTED@),
    )
}

/// The refusal of a change that breaks the protocol.
pub open spec fn protocol_error(message: Seq<char>) -> DocumentMutationErrorView {
    DocumentMutationErrorView::Protocol(LspErrorView::InvalidRequest(message))
}

fn document_text_capacity_exhausted() -> (error: DocumentMutationError)
    ensures
        error@ == text_capacity_error(),
{
    DocumentMutationError::Capacity(LspError::invalid_request(DOCUMENT_TEXT_CAPACITY_EXHAUSTED))
}

fn protocol_failure(message: &str) -> (error: DocumentMutationError)
    ensures
        error@ == protocol_error(message@),
{
    DocumentMutationError::Protocol(LspError::invalid_request(message))
}

/// Negotiated meaning of `Position.character`.
///
/// The protocol defaults to UTF-16; UTF-8 is preferred when the client offers
/// it. The store's current value governs every conversion between positions
/// and offsets.
#[derive(Debug, Clone, Copy, PartialEq, Eq, Structural)]
pub enum PositionEncoding {
    /// `Position.character` is a UTF-8 byte offset within the line.
    Utf8,
    /// `Position.character` is a UTF-16 code-unit offset within the line.
    Utf16,
}

impl Default for PositionEncoding {
    fn default() -> (encoding: Self)
        ensures
            encoding == PositionEncoding::Utf16,
    {
        PositionEncoding::Utf16
    }
}

/// A place in a document: a zero-based line and a column within it.
#[derive(Debug, Clone, Copy, PartialEq, Eq, Structural)]
pub struct Position {
    /// The zero-based line.
    pub line: u32,
    /// The column, in the units of the negotiated encoding.
    pub character: u32,
}

/// A stretch of a document, from `start` up to `end`.
#[derive(Debug, Clone, Copy, PartialEq, Eq, Structural)]
pub struct Range {
    /// Where the stretch starts.
    pub start: Position,
    /// Where the stretch ends.
    pub end: Position,
}

/// One content change, as `textDocument/didChange` delivers it.
#[derive(Debug)]
pub enum TextDocumentContentChangeEvent {
    /// The text of a range is replaced.
    Partial {
        /// The range that is replaced.
        range: Range,
        /// What stands there afterwards.
        text: String,
    },
    /// The whole text is replaced.
    WholeDocument {
        /// The new text.
        text: String,
    },
}

/// What a [`TextDocumentContentChangeEvent`] changes.
pub enum ContentChangeView {
    Partial { range: Range, text: Seq<char> },
    WholeDocument { text: Seq<char> },
}

impl View for TextDocumentContentChangeEvent {
    type V = ContentChangeView;

    open spec fn view(&self) -> ContentChangeView {
        match *self {
            TextDocumentContentChangeEvent::Partial { range, text } => ContentChangeView::Partial {
                range,
                text: text@,
            },
            TextDocumentContentChangeEvent::WholeDocument { text } =>
                ContentChangeView::WholeDocument { text: text@ },
        }
    }
}

/// A document as `textDocument/didOpen` delivers it.
#[derive(Debug)]
pub struct TextDocumentItem {
    /// The document's URI.
    pub uri: String,
    /// The document's language identifier.
    pub language_id: String,
    /// The version the editor gave the document.
    pub version: i32,
    /// The document's text.
    pub text: String,
}

/// What a [`TextDocumentItem`] says.
pub struct ItemView {
    pub uri: Seq<char>,
    pub language_id: Seq<char>,
    pub version: i32,
    pub text: Seq<char>,
}

impl View for TextDocumentItem {
    type V = ItemView;

    open spec fn view(&self) -> ItemView {
        ItemView {
            uri: self.uri@,
            language_id: self.language_id@,
            version: self.version,
            text: self.text@,
        }
    }
}

/// The number of leading characters of a line, of the first `n`, that stand
/// before its trailing carriage returns and line feeds.
pub open spec fn content_len(line: Seq<char>, n: int) -> int
    decreases n,
{
    if n > 0 && (line[n - 1] == '\u{d}' || line[n - 1] == '\u{a}') {
        content_len(line, n - 1)
    } else {
        n
    }
}

/// The last column of a line, counted in characters: a UTF-8 column stays
/// within the content before the line ending.
pub open spec fn column_limit(encoding: PositionEncoding, line: Seq<char>) -> int {
    match encoding {
        PositionEncoding::Utf8 => content_len(line, line.len() as int),
        PositionEncoding::Utf16 => line.len() as int,
    }
}

/// Whether a position stands before character `k` of a text.
pub open spec fn position_at(
    encoding: PositionEncoding,
    text: Seq<char>,
    position: Position,
    k: int,
) -> bool {
    let line = line_of(text, position.line as int);
    let column = k - line_start(text, position.line as int);
    &&& position.line < line_count(text)
    &&& 0 <= column <= column_limit(encoding, line)
    &&& units(encoding, line, column) == position.character
}

/// The byte offset of a position: that of the character it stands before.
pub open spec fn offset_of_position(
    encoding: PositionEncoding,
    text: Seq<char>,
    position: Position,
) -> Option<int> {
    if exists|k: int| position_at(encoding, text, position, k) {
        Some(
            units(
                PositionEncoding::Utf8,
                text,
                choose|k: int| position_at(encoding, text, position, k),
            ) as int,
        )
    } else {
        None
    }
}

/// The position of a byte offset up to the end of the text.
///
/// In UTF-16 an offset inside a character gets the column of the line's end.
pub open spec fn position_of_offset(
    encoding: PositionEncoding,
    text: Seq<char>,
    offset: int,
) -> Position {
    let k = char_of_byte(text, offset);
    let line = breaks_before(text, k) as int;
    let start = line_start(text, line);
    let character = match encoding {
        PositionEncoding::Utf8 => offset - units(PositionEncoding::Utf8, text, start),
        PositionEncoding::Utf16 => if offset == units(PositionEncoding::Utf8, text, k) {
            units(encoding, line_of(text, line), k - start) as int
        } else {
            units(encoding, line_of(text, line), line_of(text, line).len() as int) as int
        },
    };
    Position { line: line as u32, character: character as u32 }
}

/// Whether a text of so many bytes can be kept under a limit. No text takes all
/// the bytes a machine can count.
pub open spec fn fits(bytes: nat, max_bytes: usize) -> bool {
    bytes <= max_bytes && bytes < usize::MAX
}

/// The text after a change, or why there is none.
pub open spec fn changed_text(
    encoding: PositionEncoding,
    text: Seq<char>,
    change: ContentChangeView,
    max_bytes: usize,
) -> Result<Seq<char>, DocumentMutationErrorView> {
    match change {
        ContentChangeView::WholeDocument { text: new_text } => if fits(
            byte_count(new_text),
            max_bytes,
        ) {
            Ok(new_text)
        } else {
            Err(text_capacity_error())
        },
        ContentChangeView::Partial { range, text: insert } => {
            let start = offset_of_position(encoding, text, range.start);
            let end = offset_of_position(encoding, text, range.end);
            if !fits(byte_count(insert), max_bytes) {
                Err(text_capacity_error())
            } else if start is None {
                Err(protocol_error("invalid start position"@))
            } else if end is None {
                Err(protocol_error("invalid end position"@))
            } else if start->0 > end->0 {
                Err(protocol_error("range end precedes range start"@))
            } else {
                let new_text = text.take(char_of_byte(text, start->0)) + insert + text.skip(
                    char_of_byte(text, end->0),
                );
                if fits(byte_count(new_text), max_bytes) {
                    Ok(new_text)
                } else {
                    Err(text_capacity_error())
                }
            }
        },
    }
}

/// The text after a batch of changes, each against what the one before left.
pub open spec fn changed_by_all(
    encoding: PositionEncoding,
    text: Seq<char>,
    changes: Seq<ContentChangeView>,
    max_bytes: usize,
) -> Result<Seq<char>, DocumentMutationErrorView>
    decreases changes.len(),
{
    if changes.len() == 0 {
        Ok(text)
    } else {
        match changed_by_all(encoding, text, changes.drop_last(), max_bytes) {
            Ok(before) => changed_text(encoding, before, changes.last(), max_bytes),
            Err(error) => Err(error),
        }
    }
}

/// A position stands before one character at most.
pub proof fn lemma_position_is_unique(
    encoding: PositionEncoding,
    text: Seq<char>,
    position: Position,
    k: int,
)
    requires
        position_at(encoding, text, position, k),
    ensures
        0 <= k <= text.len(),
        offset_of_position(encoding, text, position) == Some(
            units(PositionEncoding::Utf8, text, k) as int,
        ),
{
    let line = position.line as int;
    lemma_lines_in_order(text, line);
    lemma_line_start(text, line);
    lemma_content_len(line_of(text, line), line_of(text, line).len() as int);
    let j = choose|j: int| position_at(encoding, text, position, j);
    lemma_units_identify_prefix(
        encoding,
        line_of(text, line),
        k - line_start(text, line),
        j - line_start(text, line),
    );
}

proof fn lemma_content_len(line: Seq<char>, n: int)
    requires
        0 <= n,
    ensures
        0 <= content_len(line, n) <= n,
    decreases n,
{
    if n > 0 {
        lemma_content_len(line, n - 1);
    }
}

/// The number of characters before the trailing line ending.
fn content_chars(line: &Vec<char>) -> (n: usize)
    ensures
        n == content_len(line@, line@.len() as int),
        n <= line@.len(),
{
    let mut n: usize = line.len();
    while n > 0 && (line[n - 1] == '\u{d}' || line[n - 1] == '\u{a}')
        invariant
            n <= line@.len(),
            content_len(line@, line@.len() as int) == content_len(line@, n as int),
        decreases n,
    {
        n = n - 1;
    }
    n
}

/// A single tracked text document.
///
/// Its text stands in a rope, which never shows in the public interface. The
/// document is immutable from user code; mutations flow through the document
/// store that the connection's protocol engine owns.
pub struct Document {
    uri: String,
    language_id: String,
    version: Option<i32>,
    text: Rope,
}

/// What a [`Document`] holds.
#[verifier::ext_equal]
pub struct DocumentView {
    pub uri: Seq<char>,
    pub language_id: Seq<char>,
    pub version: Option<i32>,
    pub text: Seq<char>,
}

impl View for Document {
    type V = DocumentView;

    closed spec fn view(&self) -> DocumentView {
        DocumentView {
            uri: self.uri@,
            language_id: self.language_id@,
            version: self.version,
            text: rope_chars(self.text),
        }
    }
}

impl Clone for Document {
    fn clone(&self) -> (copy: Self)
        ensures
            copy@ == self@,
    {
        proof {
            use_type_invariant(self);
        }
        Document {
            uri: self.uri.clone(),
            language_id: self.language_id.clone(),
            version: self.version,
            text: rope_clone(&self.text),
        }
    }
}

impl Document {
    #[verifier::type_invariant]
    closed spec fn type_inv(self) -> bool {
        byte_count(rope_chars(self.text)) < usize::MAX
    }

    /// The document URI supplied by the client or file provider.
    pub fn uri(&self) -> (uri: &str)
        ensures
            uri@ == self@.uri,
    {
        self.uri.as_str()
    }

    /// The client-supplied language identifier, or an empty string for a
    /// provider-loaded snapshot.
    pub fn language_id(&self) -> (language_id: &str)
        ensures
            language_id@ == self@.language_id,
    {
        self.language_id.as_str()
    }

    /// The editor-managed version, or `None` for a snapshot loaded through a
    /// file provider.
    pub fn version(&self) -> (version: Option<i32>)
        ensures
            version == self@.version,
    {
        self.version
    }

    /// A document that a file provider loaded: it has no version and no
    /// language.
    pub fn provider_snapshot(uri: String, text: String) -> (document: Self)
        requires
            byte_count(text@) < usize::MAX,
        ensures
            document@ == (DocumentView {
                uri: uri@,
                language_id: Seq::empty(),
                version: None,
                text: text@,
            }),
    {
        Document {
            uri,
            language_id: String::new(),
            version: None,
            text: rope_from_str(text.as_str()),
        }
    }

    /// Full document text as a `String`.
    pub fn text(&self) -> (text: String)
        ensures
            text@ == self@.text,
    {
        rope_to_string(&self.text)
    }

    /// The length of the text in UTF-8.
    pub fn len_bytes(&self) -> (n: usize)
        ensures
            n == byte_count(self@.text),
            n < usize::MAX,
    {
        proof {
            use_type_invariant(self);
        }
        rope_len_bytes(&self.text)
    }

    /// Convert a `Position` to a byte offset into the text, using the supplied
    /// encoding. Returns `None` if the position is out of range.
    pub fn position_to_offset(&self, encoding: PositionEncoding, position: Position) -> (offset:
        Option<usize>)
        ensures
            match offset {
                Some(at) => offset_of_position(encoding, self@.text, position) == Some(at as int),
                None => offset_of_position(encoding, self@.text, position) is None,
            },
    {
        proof {
            use_type_invariant(self);
        }
        let ghost text = rope_chars(self.text);
        let line_idx = position.line as usize;
        if line_idx >= rope_len_lines(&self.text) {
            return None;
        }
        let line_start_byte = rope_line_to_byte(&self.text, line_idx);
        let line_text = chars_of(rope_line(&self.text, line_idx).as_str());
        let limit: usize = match encoding {
            PositionEncoding::Utf8 => content_chars(&line_text),
            PositionEncoding::Utf16 => line_text.len(),
        };
        let ghost start = line_start(text, line_idx as int);
        let ghost line = line_of(text, line_idx as int);
        proof {
            lemma_lines_in_order(text, line_idx as int);
            lemma_line_start(text, line_idx as int);
        }
        let mut column: usize = 0;
        let mut counted: usize = 0;
        let mut bytes: usize = 0;
        while column < limit && counted < position.character as usize
            invariant
                byte_count(text) < usize::MAX,
                0 <= start,
                start + line.len() <= text.len(),
                line == text.subrange(start, start + line.len()),
                line_text@ == line,
                column <= limit <= line.len(),
                counted == units(encoding, line, column as int),
                bytes == units(PositionEncoding::Utf8, line, column as int),
                forall|j: int| 0 <= j < column ==> units(encoding, line, j) < position.character,
            decreases limit - column,
        {
            proof {
                lemma_units_of_stretch(
                    PositionEncoding::Utf8,
                    text,
                    start,
                    start + line.len(),
                    column + 1,
                );
                lemma_units_grow(
                    PositionEncoding::Utf8,
                    text,
                    start + column + 1,
                    text.len() as int,
                );
                lemma_units_are_at_most_bytes(encoding, line, column + 1);
            }
            let ch = line_text[column];
            counted = counted + char_width(encoding, ch);
            bytes = bytes + char_width(PositionEncoding::Utf8, ch);
            column = column + 1;
        }
        proof {
            lemma_units_of_stretch(
                PositionEncoding::Utf8,
                text,
                start,
                start + line.len(),
                column as int,
            );
            lemma_units_grow(PositionEncoding::Utf8, text, start + column, text.len() as int);
        }
        if counted == position.character as usize {
            proof {
                assert(position_at(encoding, text, position, start + column));
                lemma_position_is_unique(encoding, text, position, start + column);
            }
            Some(line_start_byte + bytes)
        } else {
            proof {
                assert forall|k: int| !position_at(encoding, text, position, k) by {
                    if position_at(encoding, text, position, k) {
                        lemma_units_identify_prefix(encoding, line, k - start, column as int);
                    }
                }
            }
            None
        }
    }

    /// Convert a byte offset into a `Position`, using the supplied encoding.
    /// Returns `None` if the offset is out of range.
    pub fn offset_to_position(&self, encoding: PositionEncoding, offset: usize) -> (position:
        Option<Position>)
        ensures
            position == if offset > byte_count(self@.text) {
                None::<Position>
            } else {
                Some(position_of_offset(encoding, self@.text, offset as int))
            },
    {
        proof {
            use_type_invariant(self);
        }
        let ghost text = rope_chars(self.text);
        if offset > rope_len_bytes(&self.text) {
            return None;
        }
        let line_idx = rope_byte_to_line(&self.text, offset);
        let ghost k = char_of_byte(text, offset as int);
        proof {
            lemma_byte_in_one_char(text, offset as int);
            lemma_line_of_char(text, k);
            lemma_lines_in_order(text, line_idx as int);
            lemma_line_start(text, line_idx as int);
        }
        let line_start_byte = rope_line_to_byte(&self.text, line_idx);
        let ghost start = line_start(text, line_idx as int);
        let ghost line = line_of(text, line_idx as int);
        proof {
            lemma_units_grow(PositionEncoding::Utf8, text, start, k);
        }
        let line_offset: usize = offset - line_start_byte;
        match encoding {
            PositionEncoding::Utf8 => Some(
                Position { line: line_idx as u32, character: line_offset as u32 },
            ),
            PositionEncoding::Utf16 => {
                let line_text = chars_of(rope_line(&self.text, line_idx).as_str());
                let mut column: usize = 0;
                let mut counted: usize = 0;
                let mut bytes: usize = 0;
                while column < line_text.len() && bytes != line_offset
                    invariant
                        byte_count(text) < usize::MAX,
                        0 <= start <= k <= start + line.len() <= text.len(),
                        line == text.subrange(start, start + line.len()),
                        line_text@ == line,
                        column <= line.len(),
                        line_offset == offset - units(PositionEncoding::Utf8, text, start),
                        byte_in_char(text, offset as int, k),
                        counted == units(PositionEncoding::Utf16, line, column as int),
                        bytes == units(PositionEncoding::Utf8, line, column as int),
                        forall|j: int|
                            0 <= j < column ==> units(PositionEncoding::Utf8, line, j)
                                != line_offset,
                    decreases line.len() - column,
                {
                    proof {
                        lemma_units_of_stretch(
                            PositionEncoding::Utf8,
                            text,
                            start,
                            start + line.len(),
                            column + 1,
                        );
                        lemma_units_grow(
                            PositionEncoding::Utf8,
                            text,
                            start + column + 1,
                            text.len() as int,
                        );
                        lemma_units_are_at_most_bytes(
                            PositionEncoding::Utf16,
                            line,
                            column + 1,
                        );
                    }
                    let ch = line_text[column];
                    counted = counted + char_width(PositionEncoding::Utf16, ch);
                    bytes = bytes + char_width(PositionEncoding::Utf8, ch);
                    column = column + 1;
                }
                proof {
                    lemma_units_of_stretch(
                        PositionEncoding::Utf8,
                        text,
                        start,
                        start + line.len(),
                        column as int,
                    );
                    lemma_units_of_stretch(
                        PositionEncoding::Utf8,
                        text,
                        start,
                        start + line.len(),
                        k - start,
                    );
                    if bytes == line_offset {
                        lemma_char_of_first_byte(text, start + column);
                    } else if offset == units(PositionEncoding::Utf8, text, k) {
                        assert(k - start >= column);
                    }
                }
                Some(Position { line: line_idx as u32, character: counted as u32 })
            },
        }
    }

    /// Apply one content change to this document's text, interpreting a
    /// partial change's `range` under `encoding`. A whole-document change
    /// replaces the complete text.
    ///
    /// Leaves the text untouched when the change is rejected, so a caller
    /// applying a batch can abandon a working copy without having corrupted
    /// anything.
    pub fn apply_change(
        &mut self,
        encoding: PositionEncoding,
        change: TextDocumentContentChangeEvent,
        max_bytes: usize,
    ) -> (result: Result<(), DocumentMutationError>)
        ensures
            match (result, changed_text(encoding, old(self)@.text, change@, max_bytes)) {
                (Ok(_), Ok(text)) => final(self)@ == (DocumentView { text, ..old(self)@ }),
                (Err(error), Err(expected)) => error@ == expected && final(self)@ == old(self)@,
                _ => false,
            },
    {
        proof {
            use_type_invariant(&*self);
        }
        let ghost text = rope_chars(self.text);
        let (range, insert) = match change {
            TextDocumentContentChangeEvent::WholeDocument { text } => {
                proof {
                    lemma_byte_count_is_encoding_length(text@);
                }
                let bytes = byte_len(text.as_str());
                if bytes > max_bytes || bytes == usize::MAX {
                    return Err(document_text_capacity_exhausted());
                }
                self.text = rope_from_str(text.as_str());
                return Ok(());
            },
            TextDocumentContentChangeEvent::Partial { range, text } => (range, text),
        };
        proof {
            lemma_byte_count_is_encoding_length(insert@);
        }
        let inserted_bytes = byte_len(insert.as_str());
        if inserted_bytes > max_bytes || inserted_bytes == usize::MAX {
            return Err(document_text_capacity_exhausted());
        }
        let start_offset = match self.position_to_offset(encoding, range.start) {
            Some(offset) => offset,
            None => return Err(protocol_failure("invalid start position")),
        };
        let end_offset = match self.position_to_offset(encoding, range.end) {
            Some(offset) => offset,
            None => return Err(protocol_failure("invalid end position")),
        };
        if start_offset > end_offset {
            return Err(protocol_failure("range end precedes range start"));
        }
        let ghost a = choose|k: int| position_at(encoding, text, range.start, k);
        let ghost b = choose|k: int| position_at(encoding, text, range.end, k);
        proof {
            lemma_position_is_unique(encoding, text, range.start, a);
            lemma_position_is_unique(encoding, text, range.end, b);
            lemma_char_of_first_byte(text, a);
            lemma_char_of_first_byte(text, b);
            lemma_units_identify_prefix(PositionEncoding::Utf8, text, b, a);
            lemma_replaced_byte_count(text, a, b, insert@);
        }
        let retained_bytes: usize = self.len_bytes() - (end_offset - start_offset);
        match retained_bytes.checked_add(inserted_bytes) {
            None => return Err(document_text_capacity_exhausted()),
            Some(bytes) => {
                if bytes > max_bytes || bytes == usize::MAX {
                    return Err(document_text_capacity_exhausted());
                }
            },
        }
        let start_char = rope_byte_to_char(&self.text, start_offset);
        let end_char = rope_byte_to_char(&self.text, end_offset);
        let mut edited = rope_clone(&self.text);
        rope_remove(&mut edited, start_char, end_char);
        proof {
            let left = text.take(a) + text.skip(b);
            assert(left =~= text.take(a) + Seq::<char>::empty() + text.skip(b));
            lemma_replaced_byte_count(text, a, b, Seq::empty());
            assert(left.take(a) =~= text.take(a));
            assert(left.skip(a) =~= text.skip(b));
        }
        rope_insert(&mut edited, start_char, insert.as_str());
        self.text = edited;
        Ok(())
    }
}

/// No encoding takes more units than UTF-8 takes bytes.
proof fn lemma_units_are_at_most_bytes(encoding: PositionEncoding, chars: Seq<char>, n: int)
    ensures
        units(encoding, chars, n) <= units(PositionEncoding::Utf8, chars, n),
    decreases n,
{
    if n > 0 {
        lemma_units_are_at_most_bytes(encoding, chars, n - 1);
    }
}

/// Replacing a stretch takes away its bytes and adds those of what replaces it.
proof fn lemma_replaced_byte_count(text: Seq<char>, a: int, b: int, insert: Seq<char>)
    requires
        0 <= a <= b <= text.len(),
    ensures
        byte_count(text.take(a) + insert + text.skip(b)) == byte_count(text) - (units(
            PositionEncoding::Utf8,
            text,
            b,
        ) - units(PositionEncoding::Utf8, text, a)) + byte_count(insert),
{
    let head = text.take(a);
    let tail = text.skip(b);
    lemma_units_of_join(PositionEncoding::Utf8, head, insert);
    lemma_units_of_join(PositionEncoding::Utf8, head + insert, tail);
    lemma_units_of_equal_prefixes(PositionEncoding::Utf8, head, text, a);
    lemma_units_of_stretch(
        PositionEncoding::Utf8,
        text,
        b,
        text.len() as int,
        text.len() - b,
    );
    assert(text.subrange(b, text.len() as int) =~= tail);
}

/// A position encoding by its wire name.
#[derive(Debug, PartialEq, Eq)]
pub enum PositionEncodingKind {
    /// Character offsets count UTF-8 code units.
    UTF8,
    /// Character offsets count UTF-16 code units, the protocol's default.
    UTF16,
    /// Character offsets count UTF-32 code units.
    UTF32,
    /// Another name.
    Custom(String),
}

/// An open document under its key.
struct Entry {
    key: Vec<u8>,
    document: Document,
}

/// Every tracked [`Document`], owned by the connection's protocol engine.
///
/// Mutations happen only through the engine's built-in document
/// synchronization (`open`, `apply_changes`, `close`), and handlers read
/// through the [`DocumentsView`]. Identity is the normalized URI, so equivalent
/// spellings of one URI address one document; each [`Document`] still carries
/// the URI the client opened it with.
pub struct Documents {
    entries: Vec<Entry>,
    encoding: PositionEncoding,
    max_documents: usize,
    max_document_bytes: usize,
    document_bytes: usize,
}

/// The keys of a sequence of entries.
spec fn keys_of(entries: Seq<Entry>) -> Seq<Seq<u8>> {
    Seq::new(entries.len(), |i: int| entries[i].key@)
}

/// The bytes that the texts of a sequence of entries take.
spec fn bytes_of(entries: Seq<Entry>) -> nat
    decreases entries.len(),
{
    if entries.len() == 0 {
        0
    } else {
        bytes_of(entries.drop_last()) + byte_count(entries.last().document@.text)
    }
}

/// The documents of a sequence of entries, by key.
spec fn docs_of(entries: Seq<Entry>) -> Map<Seq<u8>, DocumentView> {
    Map::new(
        |key: Seq<u8>| keys_of(entries).contains(key),
        |key: Seq<u8>| entries[keys_of(entries).index_of(key)].document@,
    )
}

/// No two entries have the same key.
spec fn distinct_keys(entries: Seq<Entry>) -> bool {
    forall|i: int, j: int|
        0 <= i < j < entries.len() ==> #[trigger] entries[i].key@ != #[trigger] entries[j].key@
}

proof fn lemma_doc_of_entry(entries: Seq<Entry>, i: int)
    requires
        distinct_keys(entries),
        0 <= i < entries.len(),
    ensures
        docs_of(entries).dom().contains(entries[i].key@),
        docs_of(entries)[entries[i].key@] == entries[i].document@,
{
    let keys = keys_of(entries);
    assert(keys[i] == entries[i].key@);
    assert(keys.contains(entries[i].key@));
    let j = keys.index_of(entries[i].key@);
    assert(keys[j] == entries[i].key@);
    assert(entries[j].key@ == entries[i].key@);
}

proof fn lemma_no_doc(entries: Seq<Entry>, key: Seq<u8>)
    requires
        forall|i: int| 0 <= i < entries.len() ==> #[trigger] entries[i].key@ != key,
    ensures
        !docs_of(entries).dom().contains(key),
{
    let keys = keys_of(entries);
    if keys.contains(key) {
        let i = choose|i: int| 0 <= i < keys.len() && keys[i] == key;
        assert(entries[i].key@ == key);
    }
}

proof fn lemma_docs_after_push(entries: Seq<Entry>, entry: Entry)
    requires
        distinct_keys(entries),
        forall|i: int| 0 <= i < entries.len() ==> #[trigger] entries[i].key@ != entry.key@,
    ensures
        distinct_keys(entries.push(entry)),
        docs_of(entries.push(entry)) == docs_of(entries).insert(entry.key@, entry.document@),
        bytes_of(entries.push(entry)) == bytes_of(entries) + byte_count(entry.document@.text),
{
    let after = entries.push(entry);
    assert(after.drop_last() =~= entries);
    lemma_doc_of_entry(after, entries.len() as int);
    assert forall|key: Seq<u8>|
        docs_of(after).dom().contains(key) == docs_of(entries).insert(
            entry.key@,
            entry.document@,
        ).dom().contains(key) by {
        lemma_same_key_same_place(entries, after, key);
    }
    assert forall|key: Seq<u8>| #[trigger]
        docs_of(after).dom().contains(key) implies docs_of(after)[key] == docs_of(
        entries,
    ).insert(entry.key@, entry.document@)[key] by {
        lemma_same_key_same_place(entries, after, key);
    }
    assert(docs_of(after) =~= docs_of(entries).insert(entry.key@, entry.document@));
}

/// A key of a longer sequence of entries is one of the shorter or a new one.
proof fn lemma_same_key_same_place(entries: Seq<Entry>, after: Seq<Entry>, key: Seq<u8>)
    requires
        distinct_keys(entries),
        distinct_keys(after),
        after.len() == entries.len() + 1,
        after.drop_last() == entries,
    ensures
        docs_of(after).dom().contains(key) == (docs_of(entries).dom().contains(key) || key
            == after.last().key@),
        docs_of(entries).dom().contains(key) ==> docs_of(after)[key] == docs_of(entries)[key],
{
    if keys_of(entries).contains(key) {
        let i = keys_of(entries).index_of(key);
        assert(keys_of(entries)[i] == key);
        assert(after[i] == entries[i]);
        lemma_doc_of_entry(after, i);
        lemma_doc_of_entry(entries, i);
    }
    if keys_of(after).contains(key) {
        let i = keys_of(after).index_of(key);
        assert(keys_of(after)[i] == key);
        lemma_doc_of_entry(after, i);
        if i < entries.len() {
            assert(entries[i] == after[i]);
            lemma_doc_of_entry(entries, i);
        }
    }
    if key == after.last().key@ {
        lemma_doc_of_entry(after, entries.len() as int);
    }
}

proof fn lemma_docs_after_set(entries: Seq<Entry>, i: int, entry: Entry)
    requires
        distinct_keys(entries),
        0 <= i < entries.len(),
        entries[i].key@ == entry.key@,
    ensures
        distinct_keys(entries.update(i, entry)),
        docs_of(entries.update(i, entry)) == docs_of(entries).insert(entry.key@, entry.document@),
        bytes_of(entries.update(i, entry)) == bytes_of(entries) - byte_count(
            entries[i].document@.text,
        ) + byte_count(entry.document@.text),
{
    let after = entries.update(i, entry);
    assert(keys_of(after) =~= keys_of(entries));
    lemma_doc_of_entry(after, i);
    lemma_doc_of_entry(entries, i);
    assert forall|key: Seq<u8>| #[trigger]
        docs_of(after).dom().contains(key) implies docs_of(after)[key] == docs_of(
        entries,
    ).insert(entry.key@, entry.document@)[key] by {
        let j = keys_of(entries).index_of(key);
        assert(keys_of(entries)[j] == key);
        lemma_doc_of_entry(after, j);
        lemma_doc_of_entry(entries, j);
    }
    assert(docs_of(after) =~= docs_of(entries).insert(entry.key@, entry.document@));
    lemma_bytes_after_set(entries, i, entry);
}

proof fn lemma_bytes_after_set(entries: Seq<Entry>, i: int, entry: Entry)
    requires
        0 <= i < entries.len(),
    ensures
        bytes_of(entries.update(i, entry)) == bytes_of(entries) - byte_count(
            entries[i].document@.text,
        ) + byte_count(entry.document@.text),
        byte_count(entries[i].document@.text) <= bytes_of(entries),
    decreases entries.len(),
{
    let after = entries.update(i, entry);
    if i < entries.len() - 1 {
        assert(after.drop_last() =~= entries.drop_last().update(i, entry));
        lemma_bytes_after_set(entries.drop_last(), i, entry);
    } else {
        assert(after.drop_last() =~= entries.drop_last());
    }
}

proof fn lemma_docs_after_remove(entries: Seq<Entry>, i: int)
    requires
        distinct_keys(entries),
        0 <= i < entries.len(),
    ensures
        distinct_keys(entries.remove(i)),
        docs_of(entries.remove(i)) == docs_of(entries).remove(entries[i].key@),
        bytes_of(entries.remove(i)) == bytes_of(entries) - byte_count(entries[i].document@.text),
{
    let after = entries.remove(i);
    assert forall|a: int, b: int| 0 <= a < b < after.len() implies #[trigger] after[a].key@
        != #[trigger] after[b].key@ by {
        let a0 = if a < i { a } else { a + 1 };
        let b0 = if b < i { b } else { b + 1 };
        assert(after[a] == entries[a0] && after[b] == entries[b0]);
    }
    lemma_doc_of_entry(entries, i);
    let expected = docs_of(entries).remove(entries[i].key@);
    assert forall|key: Seq<u8>| #[trigger] docs_of(after).dom().contains(key) implies expected.dom(
    ).contains(key) && docs_of(after)[key] == expected[key] by {
        let j = keys_of(after).index_of(key);
        assert(keys_of(after)[j] == key);
        let j0 = if j < i { j } else { j + 1 };
        assert(after[j] == entries[j0]);
        lemma_doc_of_entry(after, j);
        lemma_doc_of_entry(entries, j0);
    }
    assert forall|key: Seq<u8>| #[trigger] expected.dom().contains(key) implies docs_of(
        after,
    ).dom().contains(key) by {
        let j = keys_of(entries).index_of(key);
        assert(keys_of(entries)[j] == key);
        let j1 = if j < i { j } else { j - 1 };
        assert(after[j1] == entries[j]);
        lemma_doc_of_entry(after, j1);
    }
    assert(docs_of(after) =~= expected);
    lemma_bytes_after_remove(entries, i);
}

proof fn lemma_bytes_after_remove(entries: Seq<Entry>, i: int)
    requires
        0 <= i < entries.len(),
    ensures
        bytes_of(entries.remove(i)) == bytes_of(entries) - byte_count(entries[i].document@.text),
    decreases entries.len(),
{
    let after = entries.remove(i);
    if i < entries.len() - 1 {
        assert(after.drop_last() =~= entries.drop_last().remove(i));
        lemma_bytes_after_remove(entries.drop_last(), i);
    } else {
        assert(after =~= entries.drop_last());
    }
}

/// What opening a document does, or why it is refused.
pub open spec fn open_refusal(
    docs: Map<Seq<u8>, DocumentView>,
    bytes: nat,
    max_documents: usize,
    max_document_bytes: usize,
    key: Seq<u8>,
    text: Seq<char>,
) -> Option<DocumentMutationErrorView> {
    let replaced = if docs.dom().contains(key) {
        byte_count(docs[key].text)
    } else {
        0
    };
    if !docs.dom().contains(key) && docs.dom().len() >= max_documents {
        Some(count_capacity_error())
    } else if !fits((bytes - replaced + byte_count(text)) as nat, max_document_bytes) {
        Some(text_capacity_error())
    } else {
        None
    }
}

/// What a store of documents holds.
#[verifier::ext_equal]
pub struct StoreView {
    /// The open documents by the key of their URI.
    pub docs: Map<Seq<u8>, DocumentView>,
    /// The bytes that the texts of all open documents take.
    pub bytes: nat,
    /// The encoding of every position.
    pub encoding: PositionEncoding,
    /// How many documents may be open.
    pub max_documents: usize,
    /// How many bytes the texts of all open documents may take.
    pub max_document_bytes: usize,
}

impl StoreView {
    /// An empty store with the budgets of a policy.
    pub open spec fn empty(policy: ResourcePolicy) -> StoreView {
        StoreView {
            docs: Map::empty(),
            bytes: 0,
            encoding: PositionEncoding::Utf16,
            max_documents: policy.max_documents,
            max_document_bytes: policy.max_document_bytes,
        }
    }

    /// The bytes of the text under a key.
    pub open spec fn bytes_under(self, key: Seq<u8>) -> nat {
        if self.docs.dom().contains(key) {
            byte_count(self.docs[key].text)
        } else {
            0
        }
    }

    /// Why a document cannot be opened.
    pub open spec fn open_refusal(self, item: ItemView) -> Option<DocumentMutationErrorView> {
        open_refusal(
            self.docs,
            self.bytes,
            self.max_documents,
            self.max_document_bytes,
            key_of(item.uri),
            item.text,
        )
    }

    /// The store after a document is opened, or refused.
    pub open spec fn opened(self, item: ItemView) -> StoreView {
        if self.open_refusal(item) is Some {
            self
        } else {
            StoreView {
                docs: self.docs.insert(
                    key_of(item.uri),
                    DocumentView {
                        uri: item.uri,
                        language_id: item.language_id,
                        version: Some(item.version),
                        text: item.text,
                    },
                ),
                bytes: (self.bytes + byte_count(item.text) - self.bytes_under(
                    key_of(item.uri),
                )) as nat,
                ..self
            }
        }
    }

    /// The text a batch of changes gives a document, or why not.
    pub open spec fn change_result(
        self,
        uri: Seq<char>,
        changes: Seq<ContentChangeView>,
    ) -> Result<Seq<char>, DocumentMutationErrorView> {
        change_result(
            self.docs,
            self.bytes,
            self.max_document_bytes,
            self.encoding,
            key_of(uri),
            changes,
        )
    }

    /// The store after a batch of changes is applied, or refused.
    pub open spec fn changed(
        self,
        uri: Seq<char>,
        version: i32,
        changes: Seq<ContentChangeView>,
    ) -> StoreView {
        match self.change_result(uri, changes) {
            Err(_) => self,
            Ok(text) => StoreView {
                docs: self.docs.insert(
                    key_of(uri),
                    DocumentView { text, version: Some(version), ..self.docs[key_of(uri)] },
                ),
                bytes: (self.bytes - self.bytes_under(key_of(uri)) + byte_count(text)) as nat,
                ..self
            },
        }
    }

    /// The store after a document is closed.
    pub open spec fn closed(self, uri: Seq<char>) -> StoreView {
        StoreView {
            docs: self.docs.remove(key_of(uri)),
            bytes: (self.bytes - self.bytes_under(key_of(uri))) as nat,
            ..self
        }
    }
}

impl View for Documents {
    type V = StoreView;

    open spec fn view(&self) -> StoreView {
        StoreView {
            docs: self.docs(),
            bytes: self.bytes(),
            encoding: self.encoding(),
            max_documents: self.max_documents(),
            max_document_bytes: self.max_document_bytes(),
        }
    }
}

impl Documents {
    /// Every key names one document, the documents stay within the budgets, and
    /// their bytes are accounted for.
    pub closed spec fn wf(&self) -> bool {
        &&& distinct_keys(self.entries@)
        &&& self.entries@.len() <= self.max_documents
        &&& self.document_bytes == bytes_of(self.entries@)
        &&& self.document_bytes <= self.max_document_bytes
        &&& forall|i: int|
            0 <= i < self.entries@.len() ==> #[trigger] self.entries@[i].key@ == key_of(
                self.entries@[i].document@.uri,
            )
    }

    /// The open documents by the key of their URI.
    pub closed spec fn docs(&self) -> Map<Seq<u8>, DocumentView> {
        docs_of(self.entries@)
    }

    /// The bytes that the texts of all open documents take.
    pub closed spec fn bytes(&self) -> nat {
        self.document_bytes as nat
    }

    /// The encoding of every position.
    pub closed spec fn encoding(&self) -> PositionEncoding {
        self.encoding
    }

    /// How many documents may be open.
    pub closed spec fn max_documents(&self) -> usize {
        self.max_documents
    }

    /// How many bytes the texts of all open documents may take.
    pub closed spec fn max_document_bytes(&self) -> usize {
        self.max_document_bytes
    }

    /// The open documents are as many as there is room for at most, their bytes
    /// stay within the budget, and each stands under the key of its own URI.
    pub proof fn law_documents_stay_within_the_budgets(&self)
        requires
            self.wf(),
        ensures
            self.docs().dom().finite(),
            self.docs().dom().len() <= self.max_documents(),
            self.bytes() <= self.max_document_bytes(),
            forall|key: Seq<u8>| #[trigger]
                self.docs().dom().contains(key) ==> key_of(self.docs()[key].uri) == key
                    && byte_count(self.docs()[key].text) <= self.bytes(),
    {
        let keys = keys_of(self.entries@);
        assert(keys.no_duplicates()) by {
            assert forall|i: int, j: int|
                0 <= i < keys.len() && 0 <= j < keys.len() && i != j implies keys[i] != keys[j] by {
                assert(self.entries@[i].key@ == keys[i]);
                assert(self.entries@[j].key@ == keys[j]);
            }
        }
        keys.unique_seq_to_set();
        assert(self.docs().dom() =~= keys.to_set());
        assert forall|key: Seq<u8>| #[trigger] self.docs().dom().contains(key) implies key_of(
            self.docs()[key].uri,
        ) == key && byte_count(self.docs()[key].text) <= self.bytes() by {
            let i = keys.index_of(key);
            assert(keys[i] == key);
            assert(self.entries@[i].key@ == key);
            lemma_doc_of_entry(self.entries@, i);
            lemma_bytes_after_set(self.entries@, i, self.entries@[i]);
        }
    }

    /// An empty store with the default budgets.
    pub fn new() -> (documents: Self)
        ensures
            documents.wf(),
            documents@ == StoreView::empty(ResourcePolicy::standard()),
            documents.docs() == Map::<Seq<u8>, DocumentView>::empty(),
            documents.bytes() == 0,
            documents.encoding() == PositionEncoding::Utf16,
            documents.max_documents() == 4096,
            documents.max_document_bytes() == 0x1000_0000,
    {
        Documents::with_resource_policy(ResourcePolicy::default())
    }

    /// An empty store with the budgets of a policy.
    pub fn with_resource_policy(policy: ResourcePolicy) -> (documents: Self)
        ensures
            documents.wf(),
            documents@ == StoreView::empty(policy),
            documents.docs() == Map::<Seq<u8>, DocumentView>::empty(),
            documents.bytes() == 0,
            documents.encoding() == PositionEncoding::Utf16,
            documents.max_documents() == policy.max_documents,
            documents.max_document_bytes() == policy.max_document_bytes,
    {
        let documents = Documents {
            entries: Vec::new(),
            encoding: PositionEncoding::default(),
            max_documents: policy.max_documents,
            max_document_bytes: policy.max_document_bytes,
            document_bytes: 0,
        };
        assert(documents.docs() =~= Map::<Seq<u8>, DocumentView>::empty());
        documents
    }

    /// The place of the document under a key.
    fn find(&self, key: &Vec<u8>) -> (place: Option<usize>)
        ensures
            match place {
                Some(i) => i < self.entries@.len() && self.entries@[i as int].key@ == key@,
                None => forall|i: int|
                    0 <= i < self.entries@.len() ==> #[trigger] self.entries@[i].key@ != key@,
            },
    {
        let mut i: usize = 0;
        while i < self.entries.len()
            invariant
                i <= self.entries@.len(),
                forall|j: int| 0 <= j < i ==> #[trigger] self.entries@[j].key@ != key@,
            decreases self.entries@.len() - i,
        {
            if same_bytes(&self.entries[i].key, key) {
                return Some(i);
            }
            i = i + 1;
        }
        None
    }

    /// Open or replace a document in the store.
    pub fn open(&mut self, item: TextDocumentItem) -> (result: Result<(), DocumentMutationError>)
        requires
            old(self).wf(),
        ensures
            final(self).wf(),
            final(self)@ == old(self)@.opened(item@),
            final(self).encoding() == old(self).encoding(),
            final(self).max_documents() == old(self).max_documents(),
            final(self).max_document_bytes() == old(self).max_document_bytes(),
            match (
                result,
                open_refusal(
                    old(self).docs(),
                    old(self).bytes(),
                    old(self).max_documents(),
                    old(self).max_document_bytes(),
                    key_of(item.uri@),
                    item.text@,
                ),
            ) {
                (Err(error), Some(expected)) => {
                    &&& error@ == expected
                    &&& final(self).docs() == old(self).docs()
                    &&& final(self).bytes() == old(self).bytes()
                },
                (Ok(_), None) => {
                    &&& final(self).docs() == old(self).docs().insert(
                        key_of(item.uri@),
                        DocumentView {
                            uri: item.uri@,
                            language_id: item.language_id@,
                            version: Some(item.version),
                            text: item.text@,
                        },
                    )
                    &&& final(self).bytes() == old(self).bytes() + byte_count(item.text@)
                        - if old(self).docs().dom().contains(key_of(item.uri@)) {
                        byte_count(old(self).docs()[key_of(item.uri@)].text)
                    } else {
                        0
                    }
                },
                _ => false,
            },
    {
        proof {
            old(self).lemma_count();
            lemma_byte_count_is_encoding_length(item.text@);
        }
        let key = uri_key(item.uri.as_str());
        let place = self.find(&key);
        let replaced_bytes: usize = match place {
            Some(i) => {
                proof {
                    lemma_doc_of_entry(self.entries@, i as int);
                    lemma_bytes_after_set(self.entries@, i as int, self.entries@[i as int]);
                }
                self.entries[i].document.len_bytes()
            },
            None => {
                proof {
                    lemma_no_doc(self.entries@, key@);
                }
                if self.entries.len() >= self.max_documents {
                    return Err(
                        DocumentMutationError::Capacity(
                            LspError::invalid_request(DOCUMENT_COUNT_CAPACITY_EXHAUSTED),
                        ),
                    );
                }
                0
            },
        };
        let retained_bytes: usize = self.document_bytes - replaced_bytes;
        let text_bytes = byte_len(item.text.as_str());
        let document_bytes = match retained_bytes.checked_add(text_bytes) {
            None => return Err(document_text_capacity_exhausted()),
            Some(bytes) => bytes,
        };
        if document_bytes > self.max_document_bytes || document_bytes == usize::MAX {
            return Err(document_text_capacity_exhausted());
        }
        let document = Document {
            uri: item.uri,
            language_id: item.language_id,
            version: Some(item.version),
            text: rope_from_str(item.text.as_str()),
        };
        let entry = Entry { key, document };
        match place {
            Some(i) => {
                proof {
                    lemma_docs_after_set(self.entries@, i as int, entry);
                }
                self.entries.set(i, entry);
            },
            None => {
                proof {
                    lemma_docs_after_push(self.entries@, entry);
                }
                self.entries.push(entry);
            },
        }
        self.document_bytes = document_bytes;
        Ok(())
    }

    /// The open documents are counted by the number of entries.
    proof fn lemma_count(&self)
        requires
            self.wf(),
        ensures
            self.docs().dom().len() == self.entries@.len(),
    {
        let keys = keys_of(self.entries@);
        assert(keys.no_duplicates()) by {
            assert forall|i: int, j: int|
                0 <= i < keys.len() && 0 <= j < keys.len() && i != j implies keys[i] != keys[j] by {
                assert(self.entries@[i].key@ == keys[i]);
                assert(self.entries@[j].key@ == keys[j]);
            }
        }
        keys.unique_seq_to_set();
        assert(self.docs().dom() =~= keys.to_set());
    }

    /// Read a snapshot of a document by URI.
    pub fn get(&self, uri: &str) -> (document: Option<Document>)
        requires
            self.wf(),
        ensures
            match document {
                Some(d) => self.docs().dom().contains(key_of(uri@)) && d@ == self.docs()[key_of(
                    uri@,
                )],
                None => !self.docs().dom().contains(key_of(uri@)),
            },
    {
        let key = uri_key(uri);
        match self.find(&key) {
            Some(i) => {
                proof {
                    lemma_doc_of_entry(self.entries@, i as int);
                }
                Some(self.entries[i].document.clone())
            },
            None => {
                proof {
                    lemma_no_doc(self.entries@, key@);
                }
                None
            },
        }
    }

    /// Remove a document from the store. Returns the removed document, if any.
    pub fn close(&mut self, uri: &str) -> (removed: Option<Document>)
        requires
            old(self).wf(),
        ensures
            final(self).wf(),
            final(self)@ == old(self)@.closed(uri@),
            final(self).encoding() == old(self).encoding(),
            final(self).max_documents() == old(self).max_documents(),
            final(self).max_document_bytes() == old(self).max_document_bytes(),
            match removed {
                Some(d) => {
                    &&& old(self).docs().dom().contains(key_of(uri@))
                    &&& d@ == old(self).docs()[key_of(uri@)]
                    &&& final(self).docs() == old(self).docs().remove(key_of(uri@))
                    &&& final(self).bytes() == old(self).bytes() - byte_count(d@.text)
                },
                None => {
                    &&& !old(self).docs().dom().contains(key_of(uri@))
                    &&& final(self).docs() == old(self).docs()
                    &&& final(self).bytes() == old(self).bytes()
                },
            },
    {
        let key = uri_key(uri);
        match self.find(&key) {
            Some(i) => {
                proof {
                    lemma_doc_of_entry(self.entries@, i as int);
                    lemma_docs_after_remove(self.entries@, i as int);
                    lemma_bytes_after_set(self.entries@, i as int, self.entries@[i as int]);
                }
                let entry = self.entries.remove(i);
                self.document_bytes = self.document_bytes - entry.document.len_bytes();
                assert forall|j: int| 0 <= j < self.entries@.len() implies #[trigger]
                self.entries@[j].key@ == key_of(self.entries@[j].document@.uri) by {
                    let j0 = if j < i { j } else { j + 1 };
                    assert(self.entries@[j] == old(self).entries@[j0]);
                }
                Some(entry.document)
            },
            None => {
                proof {
                    lemma_no_doc(self.entries@, key@);
                }
                None
            },
        }
    }

    /// Release every document and its byte accounting.
    pub fn clear(&mut self)
        ensures
            final(self).wf(),
            final(self)@ == (StoreView { docs: Map::empty(), bytes: 0, ..old(self)@ }),
            final(self).docs() == Map::<Seq<u8>, DocumentView>::empty(),
            final(self).bytes() == 0,
            final(self).encoding() == old(self).encoding(),
            final(self).max_documents() == old(self).max_documents(),
            final(self).max_document_bytes() == old(self).max_document_bytes(),
    {
        self.entries = Vec::new();
        self.document_bytes = 0;
        assert(self.docs() =~= Map::<Seq<u8>, DocumentView>::empty());
    }

    /// Apply one `didChange` notification's content changes in order, advancing
    /// the document to `version`.
    ///
    /// The batch is all-or-nothing: the changes compose against a working copy,
    /// and the document — text and version alike — is replaced only once every
    /// change has applied. A rejected change therefore leaves the document
    /// exactly as the last accepted notification left it, never at a
    /// half-applied revision no reader asked for.
    pub fn apply_changes(
        &mut self,
        uri: &str,
        version: i32,
        changes: Vec<TextDocumentContentChangeEvent>,
    ) -> (result: Result<(), DocumentMutationError>)
        requires
            old(self).wf(),
        ensures
            final(self).wf(),
            final(self)@ == old(self)@.changed(
                uri@,
                version,
                changes@.map_values(|c: TextDocumentContentChangeEvent| c@),
            ),
            final(self).encoding() == old(self).encoding(),
            final(self).max_documents() == old(self).max_documents(),
            final(self).max_document_bytes() == old(self).max_document_bytes(),
            match (
                result,
                change_result(
                    old(self).docs(),
                    old(self).bytes(),
                    old(self).max_document_bytes(),
                    old(self).encoding(),
                    key_of(uri@),
                    changes@.map_values(|c: TextDocumentContentChangeEvent| c@),
                ),
            ) {
                (Ok(_), Ok(text)) => {
                    &&& final(self).docs() == old(self).docs().insert(
                        key_of(uri@),
                        DocumentView {
                            text,
                            version: Some(version),
                            ..old(self).docs()[key_of(uri@)]
                        },
                    )
                    &&& final(self).bytes() == old(self).bytes() - byte_count(
                        old(self).docs()[key_of(uri@)].text,
                    ) + byte_count(text)
                },
                (Err(error), Err(expected)) => {
                    &&& error@ == expected
                    &&& final(self).docs() == old(self).docs()
                    &&& final(self).bytes() == old(self).bytes()
                },
                _ => false,
            },
    {
        let encoding = self.encoding;
        let key = uri_key(uri);
        let place = match self.find(&key) {
            Some(i) => i,
            None => {
                proof {
                    lemma_no_doc(self.entries@, key@);
                }
                return Err(protocol_failure("document not found"));
            },
        };
        proof {
            lemma_doc_of_entry(self.entries@, place as int);
            lemma_bytes_after_set(self.entries@, place as int, self.entries@[place as int]);
        }
        let retained_bytes: usize = self.document_bytes - self.entries[place].document.len_bytes();
        let available_document_bytes: usize = self.max_document_bytes - retained_bytes;

        let mut updated = self.entries[place].document.clone();
        let ghost text = updated@.text;
        let ghost opened = updated@;
        let ghost all = changes@.map_values(|c: TextDocumentContentChangeEvent| c@);
        let ghost given = changes@;
        assert(all.take(0) =~= Seq::<ContentChangeView>::empty());
        for change in it: changes
            invariant
                it.seq() == given,
                all == given.map_values(|c: TextDocumentContentChangeEvent| c@),
                changed_by_all(encoding, text, all.take(it.index()), available_document_bytes)
                    == Ok::<Seq<char>, DocumentMutationErrorView>(updated@.text),
                updated@ == (DocumentView { text: updated@.text, ..opened }),
                *self == *old(self),
                old(self).wf(),
                old(self).docs().dom().contains(key_of(uri@)),
                change_result(
                    old(self).docs(),
                    old(self).bytes(),
                    old(self).max_document_bytes(),
                    old(self).encoding(),
                    key_of(uri@),
                    all,
                ) == changed_by_all(encoding, text, all, available_document_bytes),
        {
            let ghost done = it.index() as int;
            proof {
                assert(all.take(done + 1).drop_last() =~= all.take(done));
                assert(change@ == all[done]);
            }
            match updated.apply_change(encoding, change, available_document_bytes) {
                Ok(()) => {},
                Err(error) => {
                    proof {
                        lemma_first_failure_stays(
                            encoding,
                            text,
                            all,
                            available_document_bytes,
                            done + 1,
                        );
                    }
                    return Err(error);
                },
            }
        }
        proof {
            assert(all.take(all.len() as int) =~= all);
            lemma_changed_text_fits(encoding, text, all, available_document_bytes);
        }
        updated.version = Some(version);
        let entry = Entry { key, document: updated };
        self.document_bytes = retained_bytes + entry.document.len_bytes();
        proof {
            lemma_docs_after_set(self.entries@, place as int, entry);
        }
        self.entries.set(place, entry);
        Ok(())
    }

    /// Convert a position using the store's current encoding.
    pub fn position_to_offset(&self, uri: &str, position: Position) -> (offset: Option<usize>)
        requires
            self.wf(),
        ensures
            match offset {
                Some(at) => self.docs().dom().contains(key_of(uri@)) && offset_of_position(
                    self.encoding(),
                    self.docs()[key_of(uri@)].text,
                    position,
                ) == Some(at as int),
                None => self.docs().dom().contains(key_of(uri@)) ==> offset_of_position(
                    self.encoding(),
                    self.docs()[key_of(uri@)].text,
                    position,
                ) is None,
            },
    {
        match self.get(uri) {
            Some(document) => document.position_to_offset(self.encoding, position),
            None => None,
        }
    }

    /// Convert an offset using the store's current encoding.
    pub fn offset_to_position(&self, uri: &str, offset: usize) -> (position: Option<Position>)
        requires
            self.wf(),
        ensures
            position == if self.docs().dom().contains(key_of(uri@)) && offset <= byte_count(
                self.docs()[key_of(uri@)].text,
            ) {
                Some(
                    position_of_offset(
                        self.encoding(),
                        self.docs()[key_of(uri@)].text,
                        offset as int,
                    ),
                )
            } else {
                None
            },
    {
        match self.get(uri) {
            Some(document) => document.offset_to_position(self.encoding, offset),
            None => None,
        }
    }

    /// Current position encoding for every document in the store.
    pub fn position_encoding(&self) -> (encoding: PositionEncoding)
        ensures
            encoding == self.encoding(),
    {
        self.encoding
    }

    /// Set the position encoding. The initialize transaction writes it once,
    /// through [`negotiate_position_encoding`](Self::negotiate_position_encoding);
    /// everything else reads it.
    pub fn set_position_encoding(&mut self, encoding: PositionEncoding)
        ensures
            final(self).wf() == old(self).wf(),
            final(self).encoding() == encoding,
            final(self).docs() == old(self).docs(),
            final(self).bytes() == old(self).bytes(),
            final(self).max_documents() == old(self).max_documents(),
            final(self).max_document_bytes() == old(self).max_document_bytes(),
    {
        self.encoding = encoding;
    }

    /// A read-only view of these documents, for handing to user code.
    pub fn reader(&self) -> (reader: DocumentsView<'_>)
        ensures
            reader.documents() == *self,
    {
        DocumentsView { documents: self }
    }

    /// Negotiate the position encoding from the encodings the client offers,
    /// store it, and return the kind to advertise.
    ///
    /// The client's offer is intersected with the preference order UTF-8, then
    /// UTF-16. A client that offers nothing, nothing supported, or omits the
    /// field defaults to UTF-16.
    #[verifier::spinoff_prover]
    pub fn negotiate_position_encoding(
        &mut self,
        offered: &Option<Vec<PositionEncodingKind>>,
    ) -> (chosen: PositionEncodingKind)
        ensures
            final(self).wf() == old(self).wf(),
            final(self)@ == (StoreView {
                encoding: negotiated(offered.deep_view()),
                ..old(self)@
            }),
            chosen == kind_of(negotiated(offered.deep_view())),
    {
        let utf8 = match offered {
            Some(kinds) => offers_utf8(kinds),
            None => false,
        };
        proof {
            if let Some(kinds) = offered {
                let names = kinds.deep_view();
                assert(offered.deep_view() == Some(names));
                if utf8 {
                    let j = choose|j: int|
                        0 <= j < names.len() && #[trigger] names[j]
                            == PositionEncodingKindView::UTF8;
                    assert(offered.deep_view()->0[j] == PositionEncodingKindView::UTF8);
                }
            }
        }
        let encoding = if utf8 {
            PositionEncoding::Utf8
        } else {
            PositionEncoding::Utf16
        };
        self.encoding = encoding;
        assert(self.entries@ == old(self).entries@);
        assert(self.docs() == old(self).docs());
        assert(self.bytes() == old(self).bytes());
        assert(encoding == negotiated(offered.deep_view()));
        match encoding {
            PositionEncoding::Utf8 => PositionEncodingKind::UTF8,
            PositionEncoding::Utf16 => PositionEncodingKind::UTF16,
        }
    }
}

/// Whether UTF-8 is among the encodings a client offers.
fn offers_utf8(kinds: &Vec<PositionEncodingKind>) -> (utf8: bool)
    ensures
        utf8 == exists|j: int|
            0 <= j < kinds.deep_view().len() && #[trigger] kinds.deep_view()[j]
                == PositionEncodingKindView::UTF8,
{
    let ghost names = kinds.deep_view();
    let mut i: usize = 0;
    while i < kinds.len()
        invariant
            i <= kinds@.len(),
            names == kinds.deep_view(),
            names.len() == kinds@.len(),
            forall|j: int| 0 <= j < i ==> #[trigger] names[j] != PositionEncodingKindView::UTF8,
        decreases kinds@.len() - i,
    {
        assert(names[i as int] == kinds@[i as int].deep_view());
        if let PositionEncodingKind::UTF8 = &kinds[i] {
            return true;
        }
        i = i + 1;
    }
    false
}

/// The encoding for what a client offers: UTF-8 where it is among it, else
/// UTF-16.
pub open spec fn negotiated(offered: Option<Seq<PositionEncodingKindView>>) -> PositionEncoding {
    if offered is Some && (exists|i: int|
        0 <= i < offered->0.len() && #[trigger] offered->0[i] == PositionEncodingKindView::UTF8) {
        PositionEncoding::Utf8
    } else {
        PositionEncoding::Utf16
    }
}

/// The wire name of an encoding.
pub open spec fn kind_of(encoding: PositionEncoding) -> PositionEncodingKind {
    match encoding {
        PositionEncoding::Utf8 => PositionEncodingKind::UTF8,
        PositionEncoding::Utf16 => PositionEncodingKind::UTF16,
    }
}

/// The text a batch of changes gives the document under a key, or why not.
pub open spec fn change_result(
    docs: Map<Seq<u8>, DocumentView>,
    bytes: nat,
    max_document_bytes: usize,
    encoding: PositionEncoding,
    key: Seq<u8>,
    changes: Seq<ContentChangeView>,
) -> Result<Seq<char>, DocumentMutationErrorView> {
    if !docs.dom().contains(key) {
        Err(protocol_error("document not found"@))
    } else {
        changed_by_all(
            encoding,
            docs[key].text,
            changes,
            (max_document_bytes - (bytes - byte_count(docs[key].text))) as usize,
        )
    }
}

/// Once a change is refused, the batch is.
proof fn lemma_first_failure_stays(
    encoding: PositionEncoding,
    text: Seq<char>,
    changes: Seq<ContentChangeView>,
    max_bytes: usize,
    n: int,
)
    requires
        0 <= n <= changes.len(),
        changed_by_all(encoding, text, changes.take(n), max_bytes) is Err,
    ensures
        changed_by_all(encoding, text, changes, max_bytes) == changed_by_all(
            encoding,
            text,
            changes.take(n),
            max_bytes,
        ),
    decreases changes.len() - n,
{
    if n == changes.len() {
        assert(changes.take(n) =~= changes);
    } else {
        assert(changes.take(n + 1).drop_last() =~= changes.take(n));
        lemma_first_failure_stays(encoding, text, changes, max_bytes, n + 1);
    }
}

/// What a batch of changes leaves fits the limit, if the text did.
proof fn lemma_changed_text_fits(
    encoding: PositionEncoding,
    text: Seq<char>,
    changes: Seq<ContentChangeView>,
    max_bytes: usize,
)
    requires
        changed_by_all(encoding, text, changes, max_bytes) is Ok,
        byte_count(text) <= max_bytes,
    ensures
        byte_count(changed_by_all(encoding, text, changes, max_bytes)->Ok_0) <= max_bytes,
{
}

/// The read-only view of the connection's documents that user code gets.
///
/// It carries the document lookup and the position-conversion behaviour, and
/// deliberately nothing else: there is no `open`, `close`, or change operation
/// to call.
pub struct DocumentsView<'a> {
    documents: &'a Documents,
}

impl<'a> DocumentsView<'a> {
    /// The documents that are read.
    pub closed spec fn documents(&self) -> Documents {
        *self.documents
    }

    /// Read a snapshot of a document by URI, or `None` if it is not open.
    ///
    /// The lookup resolves through the normalized URI identity (scheme and host
    /// case, percent-encoding, and Windows drive-letter case are equivalent
    /// spellings of one document), while the returned [`Document`] keeps the
    /// URI the client opened it with.
    pub fn get(&self, uri: &str) -> (document: Option<Document>)
        requires
            self.documents().wf(),
        ensures
            match document {
                Some(d) => {
                    &&& self.documents().docs().dom().contains(key_of(uri@))
                    &&& d@ == self.documents().docs()[key_of(uri@)]
                },
                None => !self.documents().docs().dom().contains(key_of(uri@)),
            },
    {
        self.documents.get(uri)
    }

    /// Convert a position in `uri` to a byte offset using the connection's
    /// negotiated encoding. `None` if the document is not open or the position
    /// is out of range.
    pub fn position_to_offset(&self, uri: &str, position: Position) -> (offset: Option<usize>)
        requires
            self.documents().wf(),
        ensures
            match offset {
                Some(at) => {
                    &&& self.documents().docs().dom().contains(key_of(uri@))
                    &&& offset_of_position(
                        self.documents().encoding(),
                        self.documents().docs()[key_of(uri@)].text,
                        position,
                    ) == Some(at as int)
                },
                None => self.documents().docs().dom().contains(key_of(uri@))
                    ==> offset_of_position(
                    self.documents().encoding(),
                    self.documents().docs()[key_of(uri@)].text,
                    position,
                ) is None,
            },
    {
        self.documents.position_to_offset(uri, position)
    }

    /// Convert a byte offset in `uri` to a position using the connection's
    /// negotiated encoding. `None` if the document is not open or the offset is
    /// out of range.
    pub fn offset_to_position(&self, uri: &str, offset: usize) -> (position: Option<Position>)
        requires
            self.documents().wf(),
        ensures
            position == if self.documents().docs().dom().contains(key_of(uri@)) && offset
                <= byte_count(self.documents().docs()[key_of(uri@)].text) {
                Some(
                    position_of_offset(
                        self.documents().encoding(),
                        self.documents().docs()[key_of(uri@)].text,
                        offset as int,
                    ),
                )
            } else {
                None
            },
    {
        self.documents.offset_to_position(uri, offset)
    }

    /// The encoding `Position.character` is measured in for this connection,
    /// negotiated during initialization.
    pub fn position_encoding(&self) -> (encoding: PositionEncoding)
        ensures
            encoding == self.documents().encoding(),
    {
        self.documents.position_encoding()
    }
}

/// A position that has an offset is the position of that offset, unless it
/// stands behind the break that ends its line: that offset belongs to the next
/// line.
pub proof fn law_offset_leads_back_to_its_position(
    encoding: PositionEncoding,
    text: Seq<char>,
    position: Position,
)
    requires
        offset_of_position(encoding, text, position) is Some,
        offset_of_position(encoding, text, position)->0 < units(
            PositionEncoding::Utf8,
            text,
            line_start(text, position.line + 1),
        ) || position.line + 1 == line_count(text),
    ensures
        offset_of_position(encoding, text, position)->0 <= byte_count(text),
        position_of_offset(encoding, text, offset_of_position(encoding, text, position)->0)
            == position,
{
    let k = choose|k: int| position_at(encoding, text, position, k);
    let line = position.line as int;
    let start = line_start(text, line);
    let next = line_start(text, line + 1);
    lemma_position_is_unique(encoding, text, position, k);
    lemma_lines_in_order(text, line);
    lemma_line_start(text, line);
    lemma_content_len(line_of(text, line), line_of(text, line).len() as int);
    lemma_units_identify_prefix(PositionEncoding::Utf8, text, k, next);
    lemma_char_in_line(text, line, k);
    lemma_char_of_first_byte(text, k);
    lemma_units_of_stretch(PositionEncoding::Utf8, text, start, next, k - start);
}

/// The number of characters of a line without the break that ends it.
pub open spec fn unbroken_len(line: Seq<char>) -> int {
    let n = line.len() as int;
    if n >= 2 && line[n - 2] == '\u{d}' && line[n - 1] == '\u{a}' {
        n - 2
    } else if n >= 1 && is_line_break(line[n - 1]) {
        n - 1
    } else {
        n
    }
}

/// A line that is not the last ends in a break.
proof fn lemma_line_ends_in_a_break(text: Seq<char>, line: int)
    requires
        0 <= line,
        line + 1 < line_count(text),
    ensures
        unbroken_len(line_of(text, line)) < line_of(text, line).len(),
{
    lemma_lines_in_order(text, line);
    lemma_line_start(text, line);
    lemma_line_start(text, line + 1);
    let next = line_start(text, line + 1);
    assert(breaks_before(text, next - 1) < line + 1);
    assert(starts_line(text, next));
    let chars = line_of(text, line);
    assert(chars[chars.len() - 1] == text[next - 1]);
}

/// Every position within the content of its line leads to an offset and back:
/// one whose column, in units of the encoding, is at most the length of the line
/// without its break.
pub proof fn law_positions_round_trip(
    encoding: PositionEncoding,
    text: Seq<char>,
    position: Position,
)
    requires
        offset_of_position(encoding, text, position) is Some,
        position.character <= units(
            encoding,
            line_of(text, position.line as int),
            unbroken_len(line_of(text, position.line as int)),
        ),
    ensures
        offset_of_position(encoding, text, position)->0 <= byte_count(text),
        position_of_offset(encoding, text, offset_of_position(encoding, text, position)->0)
            == position,
{
    let k = choose|k: int| position_at(encoding, text, position, k);
    let line = position.line as int;
    let chars = line_of(text, line);
    let start = line_start(text, line);
    let next = line_start(text, line + 1);
    lemma_position_is_unique(encoding, text, position, k);
    lemma_lines_in_order(text, line);
    lemma_line_start(text, line);
    lemma_content_len(chars, chars.len() as int);
    lemma_units_identify_prefix(encoding, chars, unbroken_len(chars), k - start);
    if line + 1 < line_count(text) {
        lemma_line_ends_in_a_break(text, line);
        lemma_units_identify_prefix(PositionEncoding::Utf8, text, k, next);
    }
    law_offset_leads_back_to_its_position(encoding, text, position);
}

/// The position of an offset has that offset, where the offset starts a
/// character, stands for UTF-8 before its line's ending, and its line and
/// column can be written in a position.
pub proof fn law_position_leads_back_to_its_offset(
    encoding: PositionEncoding,
    text: Seq<char>,
    offset: int,
)
    requires
        0 <= offset <= byte_count(text),
        offset == units(PositionEncoding::Utf8, text, char_of_byte(text, offset)),
        breaks_before(text, char_of_byte(text, offset)) <= u32::MAX,
        ({
            let k = char_of_byte(text, offset);
            let line = breaks_before(text, k) as int;
            let column = k - line_start(text, line);
            &&& units(encoding, line_of(text, line), column) <= u32::MAX
            &&& column <= column_limit(encoding, line_of(text, line))
        }),
    ensures
        offset_of_position(encoding, text, position_of_offset(encoding, text, offset)) == Some(
            offset,
        ),
{
    let k = char_of_byte(text, offset);
    lemma_byte_in_one_char(text, offset);
    let line = breaks_before(text, k) as int;
    lemma_line_of_char(text, k);
    lemma_lines_in_order(text, line);
    lemma_line_start(text, line);
    let start = line_start(text, line);
    let next = line_start(text, line + 1);
    lemma_units_of_stretch(PositionEncoding::Utf8, text, start, next, k - start);
    let position = position_of_offset(encoding, text, offset);
    assert(position_at(encoding, text, position, k));
    lemma_position_is_unique(encoding, text, position, k);
}

/// A document is read back under every spelling of the URI it was opened with,
/// and under no other.
pub proof fn law_opened_document_is_read_back(
    docs: Map<Seq<u8>, DocumentView>,
    opened: Seq<char>,
    document: DocumentView,
    asked: Seq<char>,
)
    ensures
        key_of(asked) == key_of(opened) ==> docs.insert(key_of(opened), document).dom().contains(
            key_of(asked),
        ) && docs.insert(key_of(opened), document)[key_of(asked)] == document,
        key_of(asked) != key_of(opened) ==> docs.insert(key_of(opened), document).dom().contains(
            key_of(asked),
        ) == docs.dom().contains(key_of(asked)),
        !docs.remove(key_of(opened)).dom().contains(key_of(opened)),
{
}

/// Later changes of a batch are read against the text that the earlier ones
/// left.
pub proof fn law_changes_compose(
    encoding: PositionEncoding,
    text: Seq<char>,
    first: Seq<ContentChangeView>,
    second: Seq<ContentChangeView>,
    max_bytes: usize,
)
    requires
        changed_by_all(encoding, text, first, max_bytes) is Ok,
    ensures
        changed_by_all(encoding, text, first + second, max_bytes) == changed_by_all(
            encoding,
            changed_by_all(encoding, text, first, max_bytes)->Ok_0,
            second,
            max_bytes,
        ),
    decreases second.len(),
{
    if second.len() == 0 {
        assert(first + second =~= first);
    } else {
        assert((first + second).drop_last() =~= first + second.drop_last());
        law_changes_compose(encoding, text, first, second.drop_last(), max_bytes);
    }
}

} // verus!
