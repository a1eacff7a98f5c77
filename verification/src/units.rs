//! Code units: how many UTF-8 bytes or UTF-16 units a run of characters takes.
use vstd::prelude::*;
use vstd::utf8::*;

use crate::documents::PositionEncoding;

verus! {

/// The number of code units one character takes under an encoding.
pub open spec fn width(encoding: PositionEncoding, c: char) -> nat {
    match encoding {
        PositionEncoding::Utf8 => if c as u32 <= 0x7F {
            1
        } else if c as u32 <= 0x7FF {
            2
        } else if c as u32 <= 0xFFFF {
            3
        } else {
            4
        },
        PositionEncoding::Utf16 => if c as u32 <= 0xFFFF {
            1
        } else {
            2
        },
    }
}

/// The number of code units that the first `n` characters of `chars` take.
pub open spec fn units(encoding: PositionEncoding, chars: Seq<char>, n: int) -> nat
    decreases n,
{
    if n <= 0 {
        0
    } else {
        units(encoding, chars, n - 1) + width(encoding, chars[n - 1])
    }
}

/// The number of bytes `chars` takes in UTF-8.
pub open spec fn byte_count(chars: Seq<char>) -> nat {
    units(PositionEncoding::Utf8, chars, chars.len() as int)
}

/// A longer run of characters takes more code units, at least one for each.
pub proof fn lemma_units_grow(encoding: PositionEncoding, chars: Seq<char>, a: int, b: int)
    requires
        0 <= a <= b,
    ensures
        units(encoding, chars, a) + (b - a) <= units(encoding, chars, b),
        units(encoding, chars, b) <= units(encoding, chars, a) + 4 * (b - a),
    decreases b,
{
    if a < b {
        lemma_units_grow(encoding, chars, a, b - 1);
    }
}

/// Two sequences that agree on their first `n` characters take the same units.
pub proof fn lemma_units_of_equal_prefixes(
    encoding: PositionEncoding,
    left: Seq<char>,
    right: Seq<char>,
    n: int,
)
    requires
        forall|i: int| 0 <= i < n ==> left[i] == right[i],
    ensures
        units(encoding, left, n) == units(encoding, right, n),
    decreases n,
{
    if n > 0 {
        lemma_units_of_equal_prefixes(encoding, left, right, n - 1);
    }
}

/// The units of a stretch are the difference of the units at its two ends.
pub proof fn lemma_units_of_stretch(
    encoding: PositionEncoding,
    chars: Seq<char>,
    from: int,
    to: int,
    n: int,
)
    requires
        0 <= from,
        0 <= n,
        from + n <= to <= chars.len(),
    ensures
        units(encoding, chars, from + n) == units(encoding, chars, from) + units(
            encoding,
            chars.subrange(from, to),
            n,
        ),
    decreases n,
{
    if n > 0 {
        lemma_units_of_stretch(encoding, chars, from, to, n - 1);
        assert(chars.subrange(from, to)[n - 1] == chars[from + n - 1]);
    }
}

/// The units of two sequences joined are the units of both.
pub proof fn lemma_units_of_join(encoding: PositionEncoding, left: Seq<char>, right: Seq<char>)
    ensures
        units(encoding, left + right, (left.len() + right.len()) as int) == units(
            encoding,
            left,
            left.len() as int,
        ) + units(encoding, right, right.len() as int),
{
    let both = left + right;
    lemma_units_of_stretch(
        encoding,
        both,
        left.len() as int,
        both.len() as int,
        right.len() as int,
    );
    lemma_units_of_equal_prefixes(encoding, both, left, left.len() as int);
    assert(both.subrange(left.len() as int, both.len() as int) =~= right);
}

/// `byte_count` is the length of the UTF-8 encoding.
pub proof fn lemma_byte_count_is_encoding_length(chars: Seq<char>)
    ensures
        encode_utf8(chars).len() == byte_count(chars),
    decreases chars.len(),
{
    if chars.len() > 0 {
        let head = chars.subrange(0, 1);
        let tail = chars.drop_first();
        char_is_scalar(chars[0]);
        lemma_byte_count_is_encoding_length(tail);
        assert(head + tail =~= chars);
        lemma_units_of_join(PositionEncoding::Utf8, head, tail);
        assert(units(PositionEncoding::Utf8, head, 0) == 0);
        assert(units(PositionEncoding::Utf8, head, 1) == width(PositionEncoding::Utf8, chars[0]));
        assert(encode_scalar(chars[0] as u32).len() == width(PositionEncoding::Utf8, chars[0]));
    }
}

/// Distinct prefixes take distinct numbers of units.
pub proof fn lemma_units_identify_prefix(
    encoding: PositionEncoding,
    chars: Seq<char>,
    a: int,
    b: int,
)
    requires
        0 <= a,
        0 <= b,
    ensures
        (units(encoding, chars, a) == units(encoding, chars, b)) == (a == b),
        (units(encoding, chars, a) < units(encoding, chars, b)) == (a < b),
{
    if a < b {
        lemma_units_grow(encoding, chars, a, b);
    } else if b < a {
        lemma_units_grow(encoding, chars, b, a);
    }
}

/// The number of code units one character takes under an encoding.
pub fn char_width(encoding: PositionEncoding, c: char) -> (n: usize)
    ensures
        n == width(encoding, c),
        1 <= n <= 4,
{
    let scalar: u32 = c as u32;
    match encoding {
        PositionEncoding::Utf8 => {
            if scalar <= 0x7F {
                1
            } else if scalar <= 0x7FF {
                2
            } else if scalar <= 0xFFFF {
                3
            } else {
                4
            }
        },
        PositionEncoding::Utf16 => {
            if scalar <= 0xFFFF {
                1
            } else {
                2
            }
        },
    }
}

} // verus!
