//! The identity of a URI: equivalent spellings share one key.
//!
//! The case of the scheme and of the host, a needless percent-encoding, and
//! the case of a Windows drive letter make no difference. Everything else does,
//! the case of an ordinary path among it.
use vstd::prelude::*;
use vstd::utf8::encode_utf8;

verus! {

/// The byte with an ASCII capital turned into its small letter.
pub open spec fn lower(b: u8) -> u8 {
    if 0x41 <= b <= 0x5A {
        (b + 0x20) as u8
    } else {
        b
    }
}

/// The bytes with every ASCII capital turned into its small letter.
pub open spec fn lower_all(s: Seq<u8>) -> Seq<u8> {
    s.map_values(|b: u8| lower(b))
}

/// Whether a byte separates the parts of a URI: `/`, `?` or `#`.
pub open spec fn is_delimiter(b: u8) -> bool {
    b == 0x2F || b == 0x3F || b == 0x23
}

/// The value of a hexadecimal digit, or 16 for another byte.
pub open spec fn hex_value(b: u8) -> u8 {
    if 0x30 <= b <= 0x39 {
        (b - 0x30) as u8
    } else if 0x41 <= b <= 0x46 {
        (b - 0x37) as u8
    } else if 0x61 <= b <= 0x66 {
        (b - 0x57) as u8
    } else {
        16
    }
}

/// The capital hexadecimal digit for a value below 16.
pub open spec fn hex_digit(v: u8) -> u8 {
    if v < 10 {
        (v + 0x30) as u8
    } else {
        (v + 0x37) as u8
    }
}

/// Whether a percent-encoded byte stands at the front.
pub open spec fn escape_first(s: Seq<u8>) -> bool {
    &&& s.len() >= 3
    &&& s[0] == 0x25
    &&& hex_value(s[1]) < 16
    &&& hex_value(s[2]) < 16
}

/// The byte that the percent-encoding at the front stands for.
pub open spec fn escaped_byte(s: Seq<u8>) -> u8 {
    (hex_value(s[1]) * 16 + hex_value(s[2])) as u8
}

/// Whether a byte keeps its percent-encoding: decoded, a delimiter would
/// separate parts and a percent sign would start an encoding.
pub open spec fn stays_escaped(b: u8) -> bool {
    is_delimiter(b) || b == 0x25
}

/// How a byte is written in a key when its URI percent-encoded it.
pub open spec fn unescaped(b: u8) -> Seq<u8> {
    if stays_escaped(b) {
        seq![0x25u8, hex_digit(b / 16), hex_digit(b % 16)]
    } else {
        seq![b]
    }
}

/// The bytes with each percent-encoding replaced by its one spelling.
pub open spec fn decoded(s: Seq<u8>) -> Seq<u8>
    decreases s.len(),
{
    if s.len() == 0 {
        seq![]
    } else if escape_first(s) {
        unescaped(escaped_byte(s)) + decoded(s.skip(3))
    } else {
        seq![s[0]] + decoded(s.skip(1))
    }
}

/// The first place from `from` on of a delimiter or of `extra`, or the end.
pub open spec fn scan(s: Seq<u8>, from: int, extra: u8) -> int
    decreases s.len() - from,
{
    if from >= s.len() || is_delimiter(s[from]) || s[from] == extra {
        from
    } else {
        scan(s, from + 1, extra)
    }
}

/// Where the scheme ends, with its colon; 0 where there is no scheme.
pub open spec fn scheme_end(s: Seq<u8>) -> int {
    let i = scan(s, 0, 0x3A);
    if i < s.len() && s[i] == 0x3A {
        i + 1
    } else {
        0
    }
}

/// Where the authority ends, with the two slashes before it; where the scheme
/// ends if there is no authority.
pub open spec fn authority_end(s: Seq<u8>) -> int {
    let i = scheme_end(s);
    if i + 2 <= s.len() && s[i] == 0x2F && s[i + 1] == 0x2F {
        scan(s, i + 2, 0x2F)
    } else {
        i
    }
}

/// Where the host starts within the authority: behind the user's at sign.
pub open spec fn host_start(s: Seq<u8>) -> int {
    let from = scheme_end(s);
    let to = authority_end(s);
    let at = scan(s.take(to), if to > from { from + 2 } else { from }, 0x40);
    if at < to {
        at + 1
    } else {
        from
    }
}

/// Whether a path starts with a Windows drive, such as `/C:` or `/C:/`.
pub open spec fn starts_with_drive(path: Seq<u8>) -> bool {
    &&& path.len() >= 3
    &&& path[0] == 0x2F
    &&& 0x61 <= lower(path[1]) <= 0x7A
    &&& path[2] == 0x3A
    &&& path.len() == 3 || path[3] == 0x2F
}

/// The path with the letter of its drive, if it starts with one, made small.
pub open spec fn with_small_drive(path: Seq<u8>) -> Seq<u8> {
    if starts_with_drive(path) {
        path.update(1, lower(path[1]))
    } else {
        path
    }
}

/// The scheme of files, with its colon.
pub open spec fn file_scheme() -> Seq<u8> {
    seq![0x66u8, 0x69u8, 0x6Cu8, 0x65u8, 0x3Au8]
}

/// The key of a URI given as bytes.
pub open spec fn key_of_bytes(s: Seq<u8>) -> Seq<u8> {
    let scheme = lower_all(s.take(scheme_end(s)));
    let user = decoded(s.subrange(scheme_end(s), host_start(s)));
    let host = lower_all(decoded(s.subrange(host_start(s), authority_end(s))));
    let path = decoded(s.skip(authority_end(s)));
    scheme + user + host + if scheme == file_scheme() {
        with_small_drive(path)
    } else {
        path
    }
}

/// The key of a URI.
pub open spec fn key_of(uri: Seq<char>) -> Seq<u8> {
    key_of_bytes(encode_utf8(uri))
}

fn lower_byte(b: u8) -> (r: u8)
    ensures
        r == lower(b),
{
    if 0x41 <= b && b <= 0x5A {
        b + 0x20
    } else {
        b
    }
}

fn hex_value_of(b: u8) -> (v: u8)
    ensures
        v == hex_value(b),
        v <= 16,
{
    if 0x30 <= b && b <= 0x39 {
        b - 0x30
    } else if 0x41 <= b && b <= 0x46 {
        b - 0x37
    } else if 0x61 <= b && b <= 0x66 {
        b - 0x57
    } else {
        16
    }
}

fn hex_digit_of(v: u8) -> (d: u8)
    requires
        v < 16,
    ensures
        d == hex_digit(v),
{
    if v < 10 {
        v + 0x30
    } else {
        v + 0x37
    }
}

fn scan_from(s: &[u8], from: usize, to: usize, extra: u8) -> (i: usize)
    requires
        from <= to <= s@.len(),
    ensures
        i == scan(s@.take(to as int), from as int, extra),
        from <= i <= to,
{
    let mut i: usize = from;
    while i < to && s[i] != 0x2F && s[i] != 0x3F && s[i] != 0x23 && s[i] != extra
        invariant
            from <= i <= to <= s@.len(),
            scan(s@.take(to as int), from as int, extra) == scan(s@.take(to as int), i as int, extra),
        decreases to - i,
    {
        i = i + 1;
    }
    i
}

/// Append the decoded bytes of a stretch to `out`.
fn push_decoded(out: &mut Vec<u8>, s: &[u8], from: usize, to: usize)
    requires
        from <= to <= s@.len(),
    ensures
        final(out)@ == old(out)@ + decoded(s@.subrange(from as int, to as int)),
{
    let mut i: usize = from;
    assert(out@ + decoded(s@.subrange(i as int, to as int)) =~= old(out)@ + decoded(
        s@.subrange(from as int, to as int),
    ));
    while i < to
        invariant
            from <= i <= to <= s@.len(),
            out@ + decoded(s@.subrange(i as int, to as int)) == old(out)@ + decoded(
                s@.subrange(from as int, to as int),
            ),
        decreases to - i,
    {
        let ghost rest = s@.subrange(i as int, to as int);
        let ghost before = out@;
        if to - i >= 3 && s[i] == 0x25 && hex_value_of(s[i + 1]) < 16 && hex_value_of(s[i + 2])
            < 16 {
            let high = hex_value_of(s[i + 1]);
            let low = hex_value_of(s[i + 2]);
            let byte: u8 = high * 16 + low;
            assert(escape_first(rest));
            assert(byte == escaped_byte(rest));
            assert(rest.skip(3) =~= s@.subrange(i + 3, to as int));
            if byte == 0x2F || byte == 0x3F || byte == 0x23 || byte == 0x25 {
                out.push(0x25);
                out.push(hex_digit_of(byte / 16));
                out.push(hex_digit_of(byte % 16));
            } else {
                out.push(byte);
            }
            assert(out@ =~= before + unescaped(byte));
            i = i + 3;
        } else {
            assert(!escape_first(rest));
            assert(rest.skip(1) =~= s@.subrange(i + 1, to as int));
            out.push(s[i]);
            assert(out@ =~= before + seq![rest[0]]);
            i = i + 1;
        }
        assert(out@ + decoded(s@.subrange(i as int, to as int)) =~= before + decoded(rest));
    }
    assert(s@.subrange(i as int, to as int) =~= Seq::<u8>::empty());
    assert(out@ =~= old(out)@ + decoded(s@.subrange(from as int, to as int)));
}

/// Make the letters of `out` from `from` on small.
fn lower_tail(out: &mut Vec<u8>, from: usize)
    requires
        from <= old(out)@.len(),
    ensures
        final(out)@ == old(out)@.take(from as int) + lower_all(old(out)@.skip(from as int)),
{
    let mut i: usize = from;
    while i < out.len()
        invariant
            from <= i <= out@.len(),
            out@.len() == old(out)@.len(),
            forall|k: int|
                0 <= k < out@.len() ==> out@[k] == if from <= k < i {
                    lower(old(out)@[k])
                } else {
                    old(out)@[k]
                },
        decreases out@.len() - i,
    {
        let b = lower_byte(out[i]);
        out.set(i, b);
        i = i + 1;
    }
    assert(out@ =~= old(out)@.take(from as int) + lower_all(old(out)@.skip(from as int)));
}

/// Where the scheme ends, where the host starts and where the authority ends.
fn parts(s: &[u8]) -> (r: (usize, usize, usize))
    ensures
        r.0 == scheme_end(s@),
        r.1 == host_start(s@),
        r.2 == authority_end(s@),
        r.0 <= r.1 <= r.2 <= s@.len(),
{
    assert(s@.take(s@.len() as int) =~= s@);
    let colon = scan_from(s, 0, s.len(), 0x3A);
    let scheme_to: usize = if colon < s.len() && s[colon] == 0x3A {
        colon + 1
    } else {
        0
    };
    let has_authority = s.len() - scheme_to >= 2 && s[scheme_to] == 0x2F && s[scheme_to + 1]
        == 0x2F;
    if !has_authority {
        return (scheme_to, scheme_to, scheme_to);
    }
    let authority_to = scan_from(s, scheme_to + 2, s.len(), 0x2F);
    let at = scan_from(s, scheme_to + 2, authority_to, 0x40);
    if at < authority_to {
        (scheme_to, at + 1, authority_to)
    } else {
        (scheme_to, scheme_to, authority_to)
    }
}

/// The first `to` bytes, made small.
fn lowered(s: &[u8], to: usize) -> (out: Vec<u8>)
    requires
        to <= s@.len(),
    ensures
        out@ == lower_all(s@.take(to as int)),
{
    let mut out: Vec<u8> = Vec::new();
    let mut i: usize = 0;
    while i < to
        invariant
            i <= to <= s@.len(),
            out@ =~= lower_all(s@.take(i as int)),
        decreases to - i,
    {
        out.push(lower_byte(s[i]));
        i = i + 1;
    }
    out
}

/// Make the letter of the drive that the path from `at` on starts with small.
fn lower_drive(key: &mut Vec<u8>, at: usize)
    requires
        at <= old(key)@.len(),
    ensures
        final(key)@ == old(key)@.take(at as int) + with_small_drive(old(key)@.skip(at as int)),
{
    let ghost path = key@.skip(at as int);
    let n: usize = key.len() - at;
    if n >= 3 && key[at] == 0x2F && key[at + 2] == 0x3A && (n == 3 || key[at + 3] == 0x2F) {
        let letter = lower_byte(key[at + 1]);
        if 0x61 <= letter && letter <= 0x7A {
            assert(starts_with_drive(path));
            key.set(at + 1, letter);
        }
    }
    assert(key@ =~= old(key)@.take(at as int) + with_small_drive(path));
}

/// The key of a URI.
pub fn uri_key(uri: &str) -> (key: Vec<u8>)
    ensures
        key@ == key_of(uri@),
{
    let s = uri.as_bytes();
    let (scheme_to, host_from, authority_to) = parts(s);
    let mut key = lowered(s, scheme_to);
    let is_file = key.len() == 5 && key[0] == 0x66 && key[1] == 0x69 && key[2] == 0x6C && key[3]
        == 0x65 && key[4] == 0x3A;
    let ghost scheme = key@;
    assert(is_file == (scheme =~= file_scheme()));
    push_decoded(&mut key, s, scheme_to, host_from);
    let ghost before_host = key@;
    let host_at = key.len();
    push_decoded(&mut key, s, host_from, authority_to);
    assert(key@.take(host_at as int) =~= before_host);
    assert(key@.skip(host_at as int) =~= decoded(
        s@.subrange(host_from as int, authority_to as int),
    ));
    lower_tail(&mut key, host_at);
    let ghost before_path = key@;
    let path_at = key.len();
    push_decoded(&mut key, s, authority_to, s.len());
    assert(s@.subrange(authority_to as int, s@.len() as int) =~= s@.skip(authority_to as int));
    assert(key@.take(path_at as int) =~= before_path);
    assert(key@.skip(path_at as int) =~= decoded(s@.skip(authority_to as int)));
    if is_file {
        lower_drive(&mut key, path_at);
    }
    key
}

/// Whether every percent sign starts a percent-encoding.
pub open spec fn well_escaped(s: Seq<u8>) -> bool
    decreases s.len(),
{
    if s.len() == 0 {
        true
    } else if escape_first(s) {
        well_escaped(s.skip(3))
    } else {
        s[0] != 0x25 && well_escaped(s.skip(1))
    }
}

/// Two stretches are decoded one after the other where no percent-encoding
/// straddles them.
pub proof fn lemma_decoded_in_parts(left: Seq<u8>, right: Seq<u8>)
    requires
        well_escaped(left),
    ensures
        decoded(left + right) == decoded(left) + decoded(right),
    decreases left.len(),
{
    if left.len() == 0 {
        assert(left + right =~= right);
        assert(decoded(left) + decoded(right) =~= decoded(right));
    } else if escape_first(left) {
        assert(escape_first(left + right));
        assert((left + right).skip(3) =~= left.skip(3) + right);
        lemma_decoded_in_parts(left.skip(3), right);
        assert(decoded(left + right) =~= decoded(left) + decoded(right));
    } else {
        assert((left + right)[0] == left[0]);
        assert((left + right).skip(1) =~= left.skip(1) + right);
        lemma_decoded_in_parts(left.skip(1), right);
        assert(decoded(left + right) =~= decoded(left) + decoded(right));
    }
}

/// A stretch of a component decodes the same with a byte percent-encoded and
/// without.
proof fn lemma_needless_escape(left: Seq<u8>, high: u8, low: u8, right: Seq<u8>)
    requires
        well_escaped(left),
        hex_value(high) < 16,
        hex_value(low) < 16,
        !stays_escaped((hex_value(high) * 16 + hex_value(low)) as u8),
    ensures
        decoded(left + seq![0x25u8, high, low] + right) == decoded(
            left + seq![(hex_value(high) * 16 + hex_value(low)) as u8] + right,
        ),
{
    let byte = (hex_value(high) * 16 + hex_value(low)) as u8;
    let escape = seq![0x25u8, high, low];
    let plain = seq![byte];
    assert(left + escape + right =~= left + (escape + right));
    assert(left + plain + right =~= left + (plain + right));
    lemma_decoded_in_parts(left, escape + right);
    lemma_decoded_in_parts(left, plain + right);
    assert(escape_first(escape + right));
    assert((escape + right).skip(3) =~= right);
    assert(!escape_first(plain + right));
    assert((plain + right).skip(1) =~= right);
}

/// A scan that ends within a stretch ends there whatever follows.
proof fn lemma_scan_within(head: Seq<u8>, rest: Seq<u8>, from: int, extra: u8)
    requires
        0 <= from,
        scan(head, from, extra) < head.len(),
    ensures
        scan(head + rest, from, extra) == scan(head, from, extra),
    decreases head.len() - from,
{
    if from < head.len() {
        assert((head + rest)[from] == head[from]);
        if !(is_delimiter(head[from]) || head[from] == extra) {
            lemma_scan_within(head, rest, from + 1, extra);
        }
    }
}

/// A byte behind the authority that needs no percent-encoding is the same with
/// and without it, in whatever case the hexadecimal digits are written. `head` is
/// the scheme and the authority of an absolute URI.
pub proof fn law_needless_percent_encoding_makes_no_difference(
    head: Seq<u8>,
    left: Seq<u8>,
    high: u8,
    low: u8,
    right: Seq<u8>,
)
    requires
        scheme_end(head) > 0,
        authority_end(head + (left + seq![0x25u8, high, low] + right)) == head.len(),
        authority_end(
            head + (left + seq![(hex_value(high) * 16 + hex_value(low)) as u8] + right),
        ) == head.len(),
        well_escaped(left),
        hex_value(high) < 16,
        hex_value(low) < 16,
        !stays_escaped((hex_value(high) * 16 + hex_value(low)) as u8),
    ensures
        key_of_bytes(head + (left + seq![0x25u8, high, low] + right)) == key_of_bytes(
            head + (left + seq![(hex_value(high) * 16 + hex_value(low)) as u8] + right),
        ),
{
    let byte = (hex_value(high) * 16 + hex_value(low)) as u8;
    let escaped_path = left + seq![0x25u8, high, low] + right;
    let plain_path = left + seq![byte] + right;
    let s = head + escaped_path;
    let t = head + plain_path;
    lemma_needless_escape(left, high, low, right);
    lemma_scan_within(head, escaped_path, 0, 0x3A);
    lemma_scan_within(head, plain_path, 0, 0x3A);
    let from = scheme_end(head);
    assert(s.take(from) =~= head.take(from));
    assert(t.take(from) =~= head.take(from));
    assert(s.take(head.len() as int) =~= head);
    assert(t.take(head.len() as int) =~= head);
    assert(s.skip(head.len() as int) =~= escaped_path);
    assert(t.skip(head.len() as int) =~= plain_path);
    let host = host_start(s);
    assert(host == host_start(t));
    lemma_scan_in_range(head, if head.len() > from { from + 2 } else { from }, 0x40);
    assert(s.subrange(from, host) =~= t.subrange(from, host));
    assert(s.subrange(host, head.len() as int) =~= t.subrange(host, head.len() as int));
}

/// A scan ends between where it starts and the end.
proof fn lemma_scan_in_range(s: Seq<u8>, from: int, extra: u8)
    ensures
        from <= scan(s, from, extra),
        from <= s.len() ==> scan(s, from, extra) <= s.len(),
    decreases s.len() - from,
{
    if !(from >= s.len() || is_delimiter(s[from]) || s[from] == extra) {
        lemma_scan_in_range(s, from + 1, extra);
    }
}

/// Letter case does not move the end of a scan, unless the scan looks for a
/// letter.
proof fn lemma_scan_ignores_case(s: Seq<u8>, t: Seq<u8>, from: int, extra: u8)
    requires
        s.len() == t.len(),
        0 <= from,
        forall|i: int| 0 <= i < s.len() ==> lower(s[i]) == lower(t[i]),
        !(0x41 <= extra <= 0x5A),
        !(0x61 <= extra <= 0x7A),
    ensures
        scan(s, from, extra) == scan(t, from, extra),
        from <= s.len() ==> from <= scan(s, from, extra) <= s.len(),
    decreases s.len() - from,
{
    if from < s.len() {
        assert(lower(s[from]) == lower(t[from]));
        if !(is_delimiter(s[from]) || s[from] == extra) {
            lemma_scan_ignores_case(s, t, from + 1, extra);
        }
    }
}

/// The case of the scheme makes no difference.
pub proof fn law_scheme_case_makes_no_difference(s: Seq<u8>, t: Seq<u8>)
    requires
        s.len() == t.len(),
        forall|i: int| 0 <= i < scheme_end(s) ==> lower(s[i]) == lower(t[i]),
        forall|i: int| scheme_end(s) <= i < s.len() ==> s[i] == t[i],
    ensures
        key_of_bytes(s) == key_of_bytes(t),
{
    assert forall|i: int| 0 <= i < s.len() implies lower(s[i]) == lower(t[i]) by {}
    lemma_scan_ignores_case(s, t, 0, 0x3A);
    let from = scheme_end(s);
    assert(from == scheme_end(t));
    if from + 2 <= s.len() {
        lemma_scan_ignores_case(s, t, from + 2, 0x2F);
    }
    let to = authority_end(s);
    assert(to == authority_end(t));
    assert(lower_all(s.take(from)) =~= lower_all(t.take(from)));
    assert(s.skip(to) =~= t.skip(to));
    let begin = if to > from {
        from + 2
    } else {
        from
    };
    lemma_scan_ignores_case(s.take(to), t.take(to), begin, 0x40);
    let host = host_start(s);
    assert(host == host_start(t));
    assert(s.subrange(from, host) =~= t.subrange(from, host));
    assert(s.subrange(host, to) =~= t.subrange(host, to));
}

/// Letter case makes no difference to the lowered decoding.
proof fn lemma_lowered_decoding_ignores_case(s: Seq<u8>, t: Seq<u8>)
    requires
        s.len() == t.len(),
        forall|i: int| 0 <= i < s.len() ==> lower(s[i]) == lower(t[i]),
    ensures
        lower_all(decoded(s)) == lower_all(decoded(t)),
    decreases s.len(),
{
    if s.len() > 0 {
        assert(lower(s[0]) == lower(t[0]));
        if s.len() >= 3 {
            assert(lower(s[1]) == lower(t[1]));
            assert(lower(s[2]) == lower(t[2]));
        }
        assert(escape_first(s) == escape_first(t));
        let n: int = if escape_first(s) {
            3
        } else {
            1
        };
        assert forall|i: int| 0 <= i < s.skip(n).len() implies lower(s.skip(n)[i]) == lower(
            t.skip(n)[i],
        ) by {
            assert(lower(s[i + n]) == lower(t[i + n]));
        }
        lemma_lowered_decoding_ignores_case(s.skip(n), t.skip(n));
        let (a, b) = if escape_first(s) {
            (unescaped(escaped_byte(s)), unescaped(escaped_byte(t)))
        } else {
            (seq![s[0]], seq![t[0]])
        };
        assert(decoded(s) == a + decoded(s.skip(n)));
        assert(decoded(t) == b + decoded(t.skip(n)));
        assert(lower_all(a) =~= lower_all(b));
        assert(lower_all(a + decoded(s.skip(n))) =~= lower_all(a) + lower_all(
            decoded(s.skip(n)),
        ));
        assert(lower_all(b + decoded(t.skip(n))) =~= lower_all(b) + lower_all(
            decoded(t.skip(n)),
        ));
    }
}

/// The case of the host makes no difference.
pub proof fn law_host_case_makes_no_difference(s: Seq<u8>, t: Seq<u8>)
    requires
        s.len() == t.len(),
        forall|i: int|
            0 <= i < s.len() && !(host_start(s) <= i < authority_end(s)) ==> s[i] == t[i],
        forall|i: int| host_start(s) <= i < authority_end(s) ==> lower(s[i]) == lower(t[i]),
    ensures
        key_of_bytes(s) == key_of_bytes(t),
{
    assert forall|i: int| 0 <= i < s.len() implies lower(s[i]) == lower(t[i]) by {
        if host_start(s) <= i < authority_end(s) {
        } else {
            assert(s[i] == t[i]);
        }
    }
    lemma_scan_ignores_case(s, t, 0, 0x3A);
    let from = scheme_end(s);
    assert(from == scheme_end(t));
    if from + 2 <= s.len() {
        lemma_scan_ignores_case(s, t, from + 2, 0x2F);
        if from < s.len() {
            assert(lower(s[from]) == lower(t[from]));
            assert(lower(s[from + 1]) == lower(t[from + 1]));
        }
    }
    let to = authority_end(s);
    assert(to == authority_end(t));
    let begin = if to > from {
        from + 2
    } else {
        from
    };
    lemma_scan_ignores_case(s.take(to), t.take(to), begin, 0x40);
    let host = host_start(s);
    assert(host == host_start(t));
    assert(s.take(from) =~= t.take(from));
    assert(s.subrange(from, host) =~= t.subrange(from, host));
    assert(s.skip(to) =~= t.skip(to));
    let left = s.subrange(host, to);
    let right = t.subrange(host, to);
    assert forall|i: int| 0 <= i < left.len() implies lower(left[i]) == lower(right[i]) by {
        assert(left[i] == s[host + i]);
        assert(right[i] == t[host + i]);
        assert(host <= host + i < to);
    }
    lemma_lowered_decoding_ignores_case(left, right);
}

/// The path of a drive decodes to the path of that drive.
proof fn lemma_drive_is_decoded(path: Seq<u8>)
    requires
        starts_with_drive(path),
    ensures
        decoded(path) == seq![path[0], path[1], path[2]] + decoded(path.skip(3)),
        starts_with_drive(decoded(path)),
{
    assert(!escape_first(path));
    assert(!escape_first(path.skip(1)));
    assert(!escape_first(path.skip(1).skip(1)));
    assert(path.skip(1).skip(1).skip(1) =~= path.skip(3));
    assert(decoded(path.skip(1).skip(1)) == seq![path[2]] + decoded(path.skip(3)));
    assert(decoded(path.skip(1)) == seq![path[1]] + decoded(path.skip(1).skip(1)));
    assert(decoded(path) == seq![path[0]] + decoded(path.skip(1)));
    assert(decoded(path) =~= seq![path[0], path[1], path[2]] + decoded(path.skip(3)));
    if path.len() == 3 {
        assert(decoded(path.skip(3)) =~= Seq::<u8>::empty());
    } else {
        assert(path.skip(3)[0] == 0x2F);
        assert(decoded(path.skip(3)) == seq![path[3]] + decoded(path.skip(3).skip(1)));
    }
}

/// The case of the drive letter of a file makes no difference.
pub proof fn law_drive_case_makes_no_difference(s: Seq<u8>, t: Seq<u8>)
    requires
        lower_all(s.take(scheme_end(s))) == file_scheme(),
        starts_with_drive(s.skip(authority_end(s))),
        s.len() == t.len(),
        lower(s[authority_end(s) + 1]) == lower(t[authority_end(s) + 1]),
        forall|i: int| 0 <= i < s.len() && i != authority_end(s) + 1 ==> s[i] == t[i],
    ensures
        key_of_bytes(s) == key_of_bytes(t),
{
    assert forall|i: int| 0 <= i < s.len() implies lower(s[i]) == lower(t[i]) by {}
    lemma_scan_ignores_case(s, t, 0, 0x3A);
    let from = scheme_end(s);
    assert(from == scheme_end(t));
    if from + 2 <= s.len() {
        lemma_scan_ignores_case(s, t, from + 2, 0x2F);
        assert(lower(s[from]) == lower(t[from]));
        assert(lower(s[from + 1]) == lower(t[from + 1]));
    }
    let to = authority_end(s);
    assert(to == authority_end(t));
    lemma_scan_in_range(s, 0, 0x3A);
    lemma_scan_in_range(s, from + 2, 0x2F);
    assert(s.take(to) =~= t.take(to));
    assert(s.take(from) =~= t.take(from));
    let host = host_start(s);
    assert(host == host_start(t));
    lemma_scan_in_range(
        s.take(to),
        if to > from {
            from + 2
        } else {
            from
        },
        0x40,
    );
    assert(s.subrange(from, host) =~= t.subrange(from, host));
    assert(s.subrange(host, to) =~= t.subrange(host, to));
    let path = s.skip(to);
    let other = t.skip(to);
    assert(other[0] == path[0] && other[2] == path[2]);
    assert(path.len() > 3 ==> other[3] == path[3]);
    assert(lower(other[1]) == lower(path[1]));
    assert(starts_with_drive(other));
    lemma_drive_is_decoded(path);
    lemma_drive_is_decoded(other);
    assert(path.skip(3) =~= other.skip(3));
    assert(with_small_drive(decoded(path)) =~= with_small_drive(decoded(other)));
}

} // verus!
