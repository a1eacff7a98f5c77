//! The text rope behind a document: what its lines are, and the operations on
//! `ropey::Rope` that documents use.
use vstd::prelude::*;

use ropey::Rope;

use crate::documents::PositionEncoding;
use crate::units::{byte_count, lemma_units_grow, units};

verus! {

/// The characters that end a line, alone or, for a carriage return, together
/// with the line feed that follows it.
pub open spec fn is_line_break(c: char) -> bool {
    ||| c == '\u{a}'
    ||| c == '\u{b}'
    ||| c == '\u{c}'
    ||| c == '\u{d}'
    ||| c == '\u{85}'
    ||| c == '\u{2028}'
    ||| c == '\u{2029}'
}

/// Whether a line other than the first starts at character `k`: a line break
/// ends there, and a carriage return is not cut off its line feed.
pub open spec fn starts_line(text: Seq<char>, k: int) -> bool {
    &&& 0 < k <= text.len()
    &&& is_line_break(text[k - 1])
    &&& !(text[k - 1] == '\u{d}' && k < text.len() && text[k] == '\u{a}')
}

/// How many lines other than the first start at or before character `k`.
pub open spec fn breaks_before(text: Seq<char>, k: int) -> nat
    decreases k,
{
    if k <= 0 {
        0
    } else {
        breaks_before(text, k - 1) + if starts_line(text, k) {
            1nat
        } else {
            0nat
        }
    }
}

/// The number of lines in a text.
pub open spec fn line_count(text: Seq<char>) -> nat {
    breaks_before(text, text.len() as int) + 1
}

/// The first character from `k` on that has at least `line` line starts at or
/// before it, or the end of the text.
pub open spec fn line_start_from(text: Seq<char>, line: int, k: int) -> int
    decreases text.len() - k,
{
    if k >= text.len() || breaks_before(text, k) >= line {
        k
    } else {
        line_start_from(text, line, k + 1)
    }
}

/// The character at which a line starts; the end of the text past the last.
pub open spec fn line_start(text: Seq<char>, line: int) -> int {
    line_start_from(text, line, 0)
}

/// A line, with the line break that ends it.
pub open spec fn line_of(text: Seq<char>, line: int) -> Seq<char> {
    text.subrange(line_start(text, line), line_start(text, line + 1))
}

/// Whether byte `byte` belongs to character `k`, or ends the text with it.
pub open spec fn byte_in_char(text: Seq<char>, byte: int, k: int) -> bool {
    &&& 0 <= k <= text.len()
    &&& units(PositionEncoding::Utf8, text, k) <= byte
    &&& k < text.len() ==> byte < units(PositionEncoding::Utf8, text, k + 1)
}

/// Line starts are only ever added, at most one for each character.
pub proof fn lemma_breaks_grow(text: Seq<char>, a: int, b: int)
    requires
        0 <= a <= b,
    ensures
        breaks_before(text, a) <= breaks_before(text, b) <= breaks_before(text, a) + (b - a),
    decreases b,
{
    if a < b {
        lemma_breaks_grow(text, a, b - 1);
    }
}

/// A search for a line's start ends at the first character that has the line's
/// number of line starts at or before it.
proof fn lemma_line_start_from(text: Seq<char>, line: int, k: int)
    requires
        0 <= line,
        0 <= k <= text.len(),
        k == 0 || breaks_before(text, k - 1) < line,
    ensures
        k <= line_start_from(text, line, k) <= text.len(),
        line < line_count(text) ==> breaks_before(text, line_start_from(text, line, k)) == line,
        line >= line_count(text) ==> line_start_from(text, line, k) == text.len(),
        forall|j: int|
            0 <= j < line_start_from(text, line, k) ==> #[trigger] breaks_before(text, j) < line,
    decreases text.len() - k,
{
    lemma_breaks_grow(text, k, text.len() as int);
    if k > 0 {
        assert forall|j: int| 0 <= j < k implies #[trigger] breaks_before(text, j) < line by {
            lemma_breaks_grow(text, j, k - 1);
        }
    }
    if k >= text.len() || breaks_before(text, k) >= line {
        if k > 0 {
            assert(breaks_before(text, k) <= breaks_before(text, k - 1) + 1);
        }
    } else {
        lemma_line_start_from(text, line, k + 1);
    }
}

/// A line starts at the first character that has the line's number of line
/// starts at or before it.
pub proof fn lemma_line_start(text: Seq<char>, line: int)
    requires
        0 <= line,
    ensures
        0 <= line_start(text, line) <= text.len(),
        line < line_count(text) ==> breaks_before(text, line_start(text, line)) == line,
        line >= line_count(text) ==> line_start(text, line) == text.len(),
        forall|j: int|
            0 <= j < line_start(text, line) ==> #[trigger] breaks_before(text, j) < line,
{
    lemma_line_start_from(text, line, 0);
}

/// A line stands before the next one.
pub proof fn lemma_lines_in_order(text: Seq<char>, line: int)
    requires
        0 <= line < line_count(text),
    ensures
        line_start(text, line) <= line_start(text, line + 1) <= text.len(),
        line_of(text, line).len() == line_start(text, line + 1) - line_start(text, line),
        line + 1 < line_count(text) ==> line_start(text, line) < line_start(text, line + 1),
        line + 1 == line_count(text) ==> line_start(text, line + 1) == text.len(),
{
    lemma_line_start(text, line);
    lemma_line_start(text, line + 1);
    if line_start(text, line + 1) < line_start(text, line) {
        assert(breaks_before(text, line_start(text, line + 1)) < line);
    }
}

/// The line of a character is the number of line starts at or before it.
pub proof fn lemma_line_of_char(text: Seq<char>, k: int)
    requires
        0 <= k <= text.len(),
    ensures
        breaks_before(text, k) < line_count(text),
        line_start(text, breaks_before(text, k) as int) <= k,
        k < text.len() ==> k < line_start(text, (breaks_before(text, k) + 1) as int),
{
    let line = breaks_before(text, k) as int;
    lemma_breaks_grow(text, k, text.len() as int);
    lemma_line_start(text, line);
    lemma_line_start(text, line + 1);
    if k < line_start(text, line) {
        assert(breaks_before(text, k) < line);
    }
    if k < text.len() && line_start(text, line + 1) <= k {
        lemma_breaks_grow(text, line_start(text, line + 1), k);
    }
}

/// The characters of a line, and the place where the next one starts unless it
/// does start there, have that line.
pub proof fn lemma_char_in_line(text: Seq<char>, line: int, k: int)
    requires
        0 <= line < line_count(text),
        line_start(text, line) <= k <= line_start(text, line + 1),
        k < line_start(text, line + 1) || line + 1 == line_count(text),
    ensures
        breaks_before(text, k) == line,
{
    lemma_line_start(text, line);
    lemma_line_start(text, line + 1);
    lemma_breaks_grow(text, line_start(text, line), k);
    lemma_breaks_grow(text, k, text.len() as int);
}

/// Every byte up to the end of the text belongs to exactly one character.
pub proof fn lemma_byte_in_one_char(text: Seq<char>, byte: int)
    requires
        0 <= byte <= byte_count(text),
    ensures
        exists|k: int| byte_in_char(text, byte, k),
        forall|k: int, j: int| #[trigger]
            byte_in_char(text, byte, k) && #[trigger] byte_in_char(text, byte, j) ==> k == j,
{
    lemma_char_of_byte_exists(text, byte, text.len() as int);
    assert forall|k: int, j: int| #[trigger]
        byte_in_char(text, byte, k) && #[trigger] byte_in_char(text, byte, j) implies k == j by {
        if k < j {
            lemma_units_grow(PositionEncoding::Utf8, text, k + 1, j);
        } else if j < k {
            lemma_units_grow(PositionEncoding::Utf8, text, j + 1, k);
        }
    }
}

proof fn lemma_char_of_byte_exists(text: Seq<char>, byte: int, k: int)
    requires
        0 <= byte,
        0 <= k <= text.len(),
        k < text.len() ==> byte < units(PositionEncoding::Utf8, text, k + 1),
    ensures
        exists|j: int| byte_in_char(text, byte, j),
    decreases k,
{
    if units(PositionEncoding::Utf8, text, k) <= byte {
        assert(byte_in_char(text, byte, k));
    } else {
        lemma_char_of_byte_exists(text, byte, k - 1);
    }
}

/// The character a byte belongs to.
pub open spec fn char_of_byte(text: Seq<char>, byte: int) -> int {
    choose|k: int| byte_in_char(text, byte, k)
}

/// The first byte of a character belongs to it.
pub proof fn lemma_char_of_first_byte(text: Seq<char>, k: int)
    requires
        0 <= k <= text.len(),
    ensures
        units(PositionEncoding::Utf8, text, k) <= byte_count(text),
        byte_in_char(text, units(PositionEncoding::Utf8, text, k) as int, k),
        char_of_byte(text, units(PositionEncoding::Utf8, text, k) as int) == k,
{
    lemma_units_grow(PositionEncoding::Utf8, text, k, text.len() as int);
    let byte = units(PositionEncoding::Utf8, text, k) as int;
    assert(byte_in_char(text, byte, k));
    lemma_byte_in_one_char(text, byte);
}

#[verifier::external_type_specification]
#[verifier::external_body]
pub struct ExRope(Rope);

/// The characters a rope holds, in order.
pub uninterp spec fn rope_chars(rope: Rope) -> Seq<char>;

/// `ropey::Rope::from_str`: a rope holding the characters of a string.
#[verifier::external_body]
pub(crate) fn rope_from_str(text: &str) -> (rope: Rope)
    ensures
        rope_chars(rope) == text@,
{
    Rope::from_str(text)
}

/// `ropey::Rope`'s `Display`: the characters a rope holds, as a string.
#[verifier::external_body]
pub(crate) fn rope_to_string(rope: &Rope) -> (text: String)
    ensures
        text@ == rope_chars(*rope),
{
    rope.to_string()
}

/// `ropey::Rope`'s `Clone`: another rope with the same characters.
#[verifier::external_body]
pub(crate) fn rope_clone(rope: &Rope) -> (copy: Rope)
    ensures
        rope_chars(copy) == rope_chars(*rope),
{
    rope.clone()
}

/// `ropey::Rope::len_bytes`: the length of the text in UTF-8.
#[verifier::external_body]
pub(crate) fn rope_len_bytes(rope: &Rope) -> (n: usize)
    requires
        byte_count(rope_chars(*rope)) <= usize::MAX,
    ensures
        n == byte_count(rope_chars(*rope)),
{
    rope.len_bytes()
}

/// `ropey::Rope::len_lines`: one more than the number of line breaks.
#[verifier::external_body]
pub(crate) fn rope_len_lines(rope: &Rope) -> (n: usize)
    requires
        byte_count(rope_chars(*rope)) < usize::MAX,
    ensures
        n == line_count(rope_chars(*rope)),
{
    rope.len_lines()
}

/// `ropey::Rope::line_to_byte`: the byte at which a line starts.
#[verifier::external_body]
pub(crate) fn rope_line_to_byte(rope: &Rope, line: usize) -> (byte: usize)
    requires
        byte_count(rope_chars(*rope)) < usize::MAX,
        line <= line_count(rope_chars(*rope)),
    ensures
        byte == units(
            PositionEncoding::Utf8,
            rope_chars(*rope),
            line_start(rope_chars(*rope), line as int),
        ),
{
    rope.line_to_byte(line)
}

/// `ropey::Rope::line`, as a string: a line with the break that ends it.
#[verifier::external_body]
pub(crate) fn rope_line(rope: &Rope, line: usize) -> (text: String)
    requires
        byte_count(rope_chars(*rope)) < usize::MAX,
        line < line_count(rope_chars(*rope)),
    ensures
        text@ == line_of(rope_chars(*rope), line as int),
{
    rope.line(line).into()
}

/// `ropey::Rope::byte_to_line`: the number of line breaks before a byte.
#[verifier::external_body]
pub(crate) fn rope_byte_to_line(rope: &Rope, byte: usize) -> (line: usize)
    requires
        byte_count(rope_chars(*rope)) < usize::MAX,
        byte <= byte_count(rope_chars(*rope)),
    ensures
        line == breaks_before(
            rope_chars(*rope),
            char_of_byte(rope_chars(*rope), byte as int),
        ),
{
    rope.byte_to_line(byte)
}

/// `ropey::Rope::byte_to_char`: the character a byte belongs to.
#[verifier::external_body]
pub(crate) fn rope_byte_to_char(rope: &Rope, byte: usize) -> (k: usize)
    requires
        byte_count(rope_chars(*rope)) < usize::MAX,
        byte <= byte_count(rope_chars(*rope)),
    ensures
        k == char_of_byte(rope_chars(*rope), byte as int),
{
    rope.byte_to_char(byte)
}

/// `ropey::Rope::remove`: the characters of a range are gone.
#[verifier::external_body]
pub(crate) fn rope_remove(rope: &mut Rope, from: usize, to: usize)
    requires
        byte_count(rope_chars(*old(rope))) < usize::MAX,
        from <= to <= rope_chars(*old(rope)).len(),
    ensures
        rope_chars(*final(rope)) == rope_chars(*old(rope)).take(from as int) + rope_chars(
            *old(rope),
        ).skip(to as int),
{
    rope.remove(from..to);
}

/// `ropey::Rope::insert`: a string stands before a character.
#[verifier::external_body]
pub(crate) fn rope_insert(rope: &mut Rope, at: usize, text: &str)
    requires
        byte_count(rope_chars(*old(rope))) + byte_count(text@) < usize::MAX,
        at <= rope_chars(*old(rope)).len(),
    ensures
        rope_chars(*final(rope)) == rope_chars(*old(rope)).take(at as int) + text@ + rope_chars(
            *old(rope),
        ).skip(at as int),
{
    rope.insert(at, text);
}

} // verus!
