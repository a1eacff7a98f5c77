//! Which spellings of URIs address one document, and which do not.
use vstd::prelude::*;
use vstd::utf8::encode_utf8;

use crate::uri_key::{
    authority_end, decoded, escape_first, escaped_byte, file_scheme, hex_digit, hex_value,
    host_start, key_of, key_of_bytes, lower, lower_all, scan, scheme_end,
    starts_with_drive, unescaped, with_small_drive,
};

verus! {

/// One byte behind the authority of a URI, as it is written.
pub enum Piece {
    /// The byte itself, which is no percent sign.
    Plain(u8),
    /// The byte percent-encoded, with capital or with small digits.
    Escaped(u8, bool),
}

/// The capital digits in the order of their values.
pub open spec fn capital_digits() -> Seq<u8> {
    seq![
        48u8, 49u8, 50u8, 51u8, 52u8, 53u8, 54u8, 55u8, 56u8, 57u8, 65u8, 66u8, 67u8, 68u8, 69u8,
        70u8,
    ]
}

/// The small digits in the order of their values.
pub open spec fn small_digits() -> Seq<u8> {
    seq![
        48u8, 49u8, 50u8, 51u8, 52u8, 53u8, 54u8, 55u8, 56u8, 57u8, 97u8, 98u8, 99u8, 100u8, 101u8,
        102u8,
    ]
}

impl Piece {
    /// The byte that is meant.
    pub open spec fn byte(self) -> u8 {
        match self {
            Piece::Plain(byte) => byte,
            Piece::Escaped(byte, _) => byte,
        }
    }

    /// The bytes that are written.
    pub open spec fn written(self) -> Seq<u8> {
        match self {
            Piece::Plain(byte) => seq![byte],
            Piece::Escaped(byte, capital) => {
                let digits = if capital {
                    capital_digits()
                } else {
                    small_digits()
                };
                seq![37u8, digits[byte as int / 16], digits[byte as int % 16]]
            },
        }
    }

    /// Whether two pieces mean the same: the same byte, and for `/`, `?`, `#` and
    /// `%` also whether it is percent-encoded.
    pub open spec fn means(self, other: Piece) -> bool {
        &&& self.byte() == other.byte()
        &&& separates(self.byte()) || self.byte() == 37 ==> (self is Plain) == (other is Plain)
    }
}

/// Whether a byte separates the parts of a URI: `/`, `?` and `#`.
pub open spec fn separates(byte: u8) -> bool {
    byte == 47 || byte == 63 || byte == 35
}

/// The bytes that pieces are written as.
pub open spec fn written_all(pieces: Seq<Piece>) -> Seq<u8>
    decreases pieces.len(),
{
    if pieces.len() == 0 {
        Seq::empty()
    } else {
        pieces[0].written() + written_all(pieces.skip(1))
    }
}

/// The authority of a URI.
pub struct Authority {
    /// The user, if there is one.
    pub user: Option<Seq<u8>>,
    /// The host; none is an empty one.
    pub host: Seq<u8>,
}

/// A URI in parts.
pub struct Parts {
    pub scheme: Seq<u8>,
    pub authority: Option<Authority>,
    /// What follows the authority, or the scheme where there is none.
    pub path: Seq<Piece>,
}

/// Bytes among which none separates parts, and none is a percent sign.
pub open spec fn unseparated(bytes: Seq<u8>) -> bool {
    forall|i: int| 0 <= i < bytes.len() ==> !separates(#[trigger] bytes[i]) && bytes[i] != 37
}

/// Bytes among which none is another.
pub open spec fn without(bytes: Seq<u8>, other: u8) -> bool {
    forall|i: int| 0 <= i < bytes.len() ==> #[trigger] bytes[i] != other
}

impl Authority {
    /// The authority as it is written, behind its two slashes.
    pub open spec fn written(self) -> Seq<u8> {
        match self.user {
            Some(user) => seq![47u8, 47u8] + user + seq![64u8] + self.host,
            None => seq![47u8, 47u8] + self.host,
        }
    }

    /// No part of the authority holds what would end it.
    pub open spec fn wf(self) -> bool {
        &&& unseparated(self.host)
        &&& match self.user {
            Some(user) => unseparated(user) && without(user, 64),
            None => without(self.host, 64),
        }
    }
}

impl Parts {
    /// The URI as it is written.
    pub open spec fn written(self) -> Seq<u8> {
        let authority = match self.authority {
            Some(authority) => authority.written(),
            None => Seq::empty(),
        };
        self.scheme + seq![58u8] + authority + written_all(self.path)
    }

    /// The parts are those that a reader of the URI would find.
    pub open spec fn wf(self) -> bool {
        &&& unseparated(self.scheme)
        &&& without(self.scheme, 58)
        &&& forall|i: int|
            0 <= i < self.path.len() ==> (#[trigger] self.path[i] matches Piece::Plain(byte)
                ==> byte != 37)
        &&& match self.authority {
            Some(authority) => {
                &&& authority.wf()
                &&& self.path.len() > 0 ==> self.path[0] is Plain && separates(self.path[0].byte())
            },
            None => !(self.path.len() >= 2 && self.path[0] == Piece::Plain(47) && self.path[1]
                == Piece::Plain(47)),
        }
    }

    /// Whether this is a file under a Windows drive.
    pub open spec fn on_a_drive(self) -> bool {
        &&& same_letters(self.scheme, seq![102u8, 105u8, 108u8, 101u8])
        &&& self.path.len() >= 3
        &&& self.path[0] == Piece::Plain(47)
        &&& is_letter(self.path[1].byte())
        &&& self.path[2].byte() == 58
        &&& self.path.len() == 3 || self.path[3] == Piece::Plain(47)
    }

    /// Whether two URIs are spellings of one: they have the same parts, but for
    /// the case of the scheme, of the host and of a drive letter, and for needless
    /// percent-encodings.
    pub open spec fn is_spelled_as(self, other: Parts) -> bool {
        &&& same_letters(self.scheme, other.scheme)
        &&& match (self.authority, other.authority) {
            (Some(mine), Some(theirs)) => mine.user == theirs.user && same_letters(
                mine.host,
                theirs.host,
            ),
            (None, None) => true,
            _ => false,
        }
        &&& self.path.len() == other.path.len()
        &&& forall|i: int|
            0 <= i < self.path.len() ==> (#[trigger] self.path[i]).means(other.path[i]) || (i == 1
                && self.on_a_drive() && same_letter(self.path[1].byte(), other.path[1].byte()))
    }
}

/// Whether a byte is a letter of the alphabet.
pub open spec fn is_letter(byte: u8) -> bool {
    65 <= byte <= 90 || 97 <= byte <= 122
}

/// Whether two bytes are the same but for letter case.
pub open spec fn same_letter(one: u8, other: u8) -> bool {
    ||| one == other
    ||| 65 <= one <= 90 && other == one + 32
    ||| 65 <= other <= 90 && one == other + 32
}

/// Whether two texts are the same but for letter case.
pub open spec fn same_letters(one: Seq<u8>, other: Seq<u8>) -> bool {
    one.len() == other.len() && forall|i: int|
        0 <= i < one.len() ==> same_letter(#[trigger] one[i], other[i])
}

/// How a piece stands in a key.
spec fn keyed(piece: Piece) -> Seq<u8> {
    match piece {
        Piece::Plain(byte) => seq![byte],
        Piece::Escaped(byte, _) => if separates(byte) || byte == 37 {
            Piece::Escaped(byte, true).written()
        } else {
            seq![byte]
        },
    }
}

/// How pieces stand in a key.
spec fn keyed_all(pieces: Seq<Piece>) -> Seq<u8>
    decreases pieces.len(),
{
    if pieces.len() == 0 {
        Seq::empty()
    } else {
        keyed(pieces[0]) + keyed_all(pieces.skip(1))
    }
}

/// The digits have their values.
proof fn lemma_digits(v: u8)
    requires
        v < 16,
    ensures
        hex_value(capital_digits()[v as int]) == v,
        hex_value(small_digits()[v as int]) == v,
        hex_digit(v) == capital_digits()[v as int],
{
    let i = v as int;
    assert(i == 0 || i == 1 || i == 2 || i == 3 || i == 4 || i == 5 || i == 6 || i == 7 || i == 8
        || i == 9 || i == 10 || i == 11 || i == 12 || i == 13 || i == 14 || i == 15);
}

/// Pieces that a reader would find.
spec fn readable(pieces: Seq<Piece>) -> bool {
    forall|i: int|
        0 <= i < pieces.len() ==> (#[trigger] pieces[i] matches Piece::Plain(byte) ==> byte != 37)
}

/// Written pieces are decoded one by one.
proof fn lemma_pieces_are_decoded(pieces: Seq<Piece>)
    requires
        readable(pieces),
    ensures
        decoded(written_all(pieces)) == keyed_all(pieces),
    decreases pieces.len(),
{
    let s = written_all(pieces);
    if pieces.len() > 0 {
        let rest = pieces.skip(1);
        assert forall|i: int| 0 <= i < rest.len() implies (
        #[trigger] rest[i] matches Piece::Plain(byte) ==> byte != 37) by {
            assert(rest[i] == pieces[i + 1]);
        }
        lemma_pieces_are_decoded(rest);
        let tail = written_all(rest);
        match pieces[0] {
            Piece::Plain(byte) => {
                assert(s[0] == byte);
                assert(!escape_first(s));
                assert(s.skip(1) =~= tail);
                assert(decoded(s) =~= keyed_all(pieces));
            },
            Piece::Escaped(byte, capital) => {
                let high = byte / 16;
                let low = byte % 16;
                lemma_digits(high);
                lemma_digits(low);
                assert(s[0] == 37);
                assert(hex_value(s[1]) == high);
                assert(hex_value(s[2]) == low);
                assert(escape_first(s));
                assert(escaped_byte(s) == byte);
                assert(s.skip(3) =~= tail);
                assert(unescaped(byte) =~= keyed(pieces[0]));
                assert(decoded(s) =~= keyed_all(pieces));
            },
        }
    }
}

/// Bytes without percent signs are decoded to themselves.
proof fn lemma_plain_bytes_are_decoded(s: Seq<u8>)
    requires
        without(s, 37),
    ensures
        decoded(s) == s,
    decreases s.len(),
{
    if s.len() > 0 {
        assert(s[0] != 37);
        assert forall|i: int| 0 <= i < s.skip(1).len() implies #[trigger] s.skip(1)[i] != 37 by {
            assert(s.skip(1)[i] == s[i + 1]);
        }
        lemma_plain_bytes_are_decoded(s.skip(1));
        assert(decoded(s) =~= s);
    } else {
        assert(decoded(s) =~= s);
    }
}

/// A scan passes over bytes that it does not look for and stops behind them.
proof fn lemma_scan_passes(s: Seq<u8>, from: int, to: int, extra: u8)
    requires
        0 <= from <= to <= s.len(),
        forall|i: int| from <= i < to ==> !separates(#[trigger] s[i]) && s[i] != extra,
        to < s.len() ==> separates(s[to]) || s[to] == extra,
    ensures
        scan(s, from, extra) == to,
    decreases to - from,
{
    if from < to {
        assert(!separates(s[from]));
        lemma_scan_passes(s, from + 1, to, extra);
    }
}

/// The authority in a key.
spec fn keyed_authority(authority: Option<Authority>) -> Seq<u8> {
    match authority {
        None => Seq::empty(),
        Some(authority) => match authority.user {
            Some(user) => seq![47u8, 47u8] + user + seq![64u8] + lower_all(authority.host),
            None => seq![47u8, 47u8] + lower_all(authority.host),
        },
    }
}

/// The path in a key.
spec fn keyed_path(parts: Parts) -> Seq<u8> {
    let path = keyed_all(parts.path);
    if lower_all(parts.scheme + seq![58u8]) == file_scheme() {
        with_small_drive(path)
    } else {
        path
    }
}

/// The first byte that pieces are written as.
proof fn lemma_first_written(pieces: Seq<Piece>)
    requires
        readable(pieces),
        pieces.len() > 0,
    ensures
        written_all(pieces).len() > 0,
        pieces[0] matches Piece::Plain(byte) ==> written_all(pieces)[0] == byte
            && written_all(pieces).skip(1) == written_all(pieces.skip(1)),
        pieces[0] is Escaped ==> written_all(pieces)[0] == 37,
{
    if pieces[0] is Plain {
        assert(written_all(pieces).skip(1) =~= written_all(pieces.skip(1)));
    }
}

/// Where the parts of a written URI are found.
proof fn lemma_parts_are_found(parts: Parts)
    requires
        parts.wf(),
    ensures
        ({
            let s = parts.written();
            let from = parts.scheme.len() + 1;
            let authority = match parts.authority {
                Some(authority) => authority.written(),
                None => Seq::<u8>::empty(),
            };
            &&& scheme_end(s) == from
            &&& authority_end(s) == from + authority.len()
            &&& host_start(s) == match parts.authority {
                Some(authority) => match authority.user {
                    Some(user) => from + 2 + user.len() + 1,
                    None => from,
                },
                None => from,
            }
        }),
{
    let s = parts.written();
    let colon = parts.scheme.len() as int;
    let from = colon + 1;
    assert forall|i: int| 0 <= i < colon implies !separates(#[trigger] s[i]) && s[i] != 58 by {
        assert(s[i] == parts.scheme[i]);
    }
    assert(s[colon] == 58);
    lemma_scan_passes(s, 0, colon, 58);
    let path = written_all(parts.path);
    if parts.path.len() > 0 {
        lemma_first_written(parts.path);
    }
    match parts.authority {
        Some(authority) => {
            let written = authority.written();
            let to = from + written.len();
            assert(s[from] == 47 && s[from + 1] == 47);
            assert forall|i: int| from + 2 <= i < to implies !separates(#[trigger] s[i]) by {
                assert(s[i] == written[i - from]);
                match authority.user {
                    Some(user) => {
                        if i - from < 2 + user.len() {
                            assert(written[i - from] == user[i - from - 2]);
                        } else if i - from == 2 + user.len() {
                            assert(written[i - from] == 64);
                        } else {
                            assert(written[i - from] == authority.host[i - from - 3 - user.len()]);
                        }
                    },
                    None => {
                        assert(written[i - from] == authority.host[i - from - 2]);
                    },
                }
            }
            if to < s.len() {
                assert(s[to] == path[0]);
                assert(separates(s[to]));
            }
            lemma_scan_passes(s, from + 2, to, 47);
            let taken = s.take(to);
            match authority.user {
                Some(user) => {
                    let at = from + 2 + user.len();
                    assert(taken[at] == 64) by {
                        assert(s[at] == written[at - from]);
                    }
                    assert forall|i: int| from + 2 <= i < at implies !separates(
                        #[trigger] taken[i],
                    ) && taken[i] != 64 by {
                        assert(taken[i] == written[i - from]);
                        assert(written[i - from] == user[i - from - 2]);
                    }
                    lemma_scan_passes(taken, from + 2, at, 64);
                },
                None => {
                    assert forall|i: int| from + 2 <= i < to implies !separates(
                        #[trigger] taken[i],
                    ) && taken[i] != 64 by {
                        assert(taken[i] == s[i]);
                        assert(s[i] == written[i - from]);
                        assert(written[i - from] == authority.host[i - from - 2]);
                    }
                    lemma_scan_passes(taken, from + 2, to, 64);
                },
            }
        },
        None => {
            assert(s.skip(from) =~= path);
            if from + 2 <= s.len() && s[from] == 47 && s[from + 1] == 47 {
                assert(path[0] == 47 && path[1] == 47);
                assert(parts.path[0] == Piece::Plain(47));
                assert(path[1] == written_all(parts.path.skip(1))[0]);
                if parts.path.len() >= 2 {
                    assert forall|i: int| 0 <= i < parts.path.skip(1).len() implies (
                    #[trigger] parts.path.skip(1)[i] matches Piece::Plain(byte) ==> byte != 37) by {
                        assert(parts.path.skip(1)[i] == parts.path[i + 1]);
                    }
                    lemma_first_written(parts.path.skip(1));
                    assert(parts.path[1] == Piece::Plain(47));
                }
                assert(false);
            }
            lemma_scan_passes(s.take(from), from, from, 64);
        },
    }
}

/// The key of a written URI.
proof fn lemma_key_of_parts(parts: Parts)
    requires
        parts.wf(),
    ensures
        key_of_bytes(parts.written()) == lower_all(parts.scheme + seq![58u8]) + keyed_authority(
            parts.authority,
        ) + keyed_path(parts),
{
    let s = parts.written();
    let from = parts.scheme.len() + 1;
    lemma_parts_are_found(parts);
    lemma_pieces_are_decoded(parts.path);
    let to = authority_end(s);
    assert(s.take(from as int) =~= parts.scheme + seq![58u8]);
    assert(s.skip(to) =~= written_all(parts.path));
    let user = s.subrange(from as int, host_start(s));
    let host = s.subrange(host_start(s), to);
    match parts.authority {
        Some(authority) => {
            match authority.user {
                Some(name) => {
                    assert(user =~= seq![47u8, 47u8] + name + seq![64u8]);
                    assert(host =~= authority.host);
                    assert forall|i: int| 0 <= i < user.len() implies #[trigger] user[i] != 37 by {
                        if 2 <= i < 2 + name.len() {
                            assert(user[i] == name[i - 2]);
                        }
                    }
                    assert forall|i: int| 0 <= i < host.len() implies #[trigger] host[i] != 37 by {}
                    lemma_plain_bytes_are_decoded(user);
                    lemma_plain_bytes_are_decoded(host);
                },
                None => {
                    assert(user =~= Seq::<u8>::empty());
                    assert(host =~= seq![47u8, 47u8] + authority.host);
                    assert forall|i: int| 0 <= i < host.len() implies #[trigger] host[i] != 37 by {
                        if 2 <= i {
                            assert(host[i] == authority.host[i - 2]);
                        }
                    }
                    lemma_plain_bytes_are_decoded(user);
                    lemma_plain_bytes_are_decoded(host);
                    assert(lower_all(host) =~= seq![47u8, 47u8] + lower_all(authority.host));
                },
            }
        },
        None => {
            assert(user =~= Seq::<u8>::empty());
            assert(host =~= Seq::<u8>::empty());
            lemma_plain_bytes_are_decoded(user);
            assert(lower_all(decoded(host)) =~= Seq::<u8>::empty());
        },
    }
    assert(key_of_bytes(s) =~= lower_all(parts.scheme + seq![58u8]) + keyed_authority(
        parts.authority,
    ) + keyed_path(parts));
}

/// Texts are the same but for letter case exactly if they are the same in small
/// letters.
proof fn lemma_same_letters(one: Seq<u8>, other: Seq<u8>)
    ensures
        same_letters(one, other) == (lower_all(one) == lower_all(other)),
{
    if lower_all(one) == lower_all(other) {
        assert(lower_all(one).len() == one.len());
        assert(lower_all(other).len() == other.len());
        assert forall|i: int| 0 <= i < one.len() implies same_letter(#[trigger] one[i], other[i]) by {
            assert(lower_all(one)[i] == lower_all(other)[i]);
        }
    }
    if same_letters(one, other) {
        assert forall|i: int| 0 <= i < one.len() implies lower_all(one)[i] == lower_all(
            other,
        )[i] by {
            assert(same_letter(one[i], other[i]));
        }
        assert(lower_all(one) =~= lower_all(other));
    }
}

/// Pieces stand in a key alike exactly if they mean the same.
proof fn lemma_pieces_are_told_apart(one: Seq<Piece>, other: Seq<Piece>)
    requires
        readable(one),
        readable(other),
    ensures
        keyed_all(one) == keyed_all(other) <==> one.len() == other.len() && forall|i: int|
            0 <= i < one.len() ==> (#[trigger] one[i]).means(other[i]),
    decreases one.len(),
{
    if one.len() == 0 || other.len() == 0 {
        if one.len() > 0 {
            assert(keyed_all(one).len() > 0);
        }
        if other.len() > 0 {
            assert(keyed_all(other).len() > 0);
        }
    } else {
        let a = one.skip(1);
        let b = other.skip(1);
        assert forall|i: int| 0 <= i < a.len() implies (#[trigger] a[i] matches Piece::Plain(byte)
            ==> byte != 37) by {
            assert(a[i] == one[i + 1]);
        }
        assert forall|i: int| 0 <= i < b.len() implies (#[trigger] b[i] matches Piece::Plain(byte)
            ==> byte != 37) by {
            assert(b[i] == other[i + 1]);
        }
        lemma_pieces_are_told_apart(a, b);
        let s = keyed_all(one);
        let t = keyed_all(other);
        lemma_digits(one[0].byte() / 16);
        lemma_digits(one[0].byte() % 16);
        lemma_digits(other[0].byte() / 16);
        lemma_digits(other[0].byte() % 16);
        if s == t {
            assert(s[0] == t[0]);
            let m = keyed(one[0]);
            let n = keyed(other[0]);
            assert(s[0] == m[0]);
            assert(t[0] == n[0]);
            if m.len() == 3 {
                assert(m[0] == 37);
                assert(n.len() == 3);
                assert(s[1] == m[1] && s[2] == m[2]);
                assert(t[1] == n[1] && t[2] == n[2]);
            } else {
                assert(n.len() == 1);
            }
            assert(one[0].means(other[0]));
            assert(keyed_all(a) =~= s.skip(m.len() as int));
            assert(keyed_all(b) =~= t.skip(n.len() as int));
            assert forall|i: int| 0 <= i < one.len() implies (#[trigger] one[i]).means(other[i]) by {
                if i > 0 {
                    assert(a[i - 1].means(b[i - 1]));
                }
            }
        }
        if one.len() == other.len() && forall|i: int|
            0 <= i < one.len() ==> (#[trigger] one[i]).means(other[i]) {
            assert forall|i: int| 0 <= i < a.len() implies (#[trigger] a[i]).means(b[i]) by {
                assert(one[i + 1].means(other[i + 1]));
            }
            assert(one[0].means(other[0]));
            assert(keyed(one[0]) =~= keyed(other[0]));
            assert(keyed_all(one) == keyed_all(other));
        }
    }
}

/// Two texts that end at a byte which neither holds are told apart from what
/// follows it.
proof fn lemma_split_at(a: Seq<u8>, p: Seq<u8>, b: Seq<u8>, q: Seq<u8>, byte: u8)
    requires
        without(a, byte),
        without(b, byte),
        a + seq![byte] + p == b + seq![byte] + q,
    ensures
        a == b,
        p == q,
{
    let s = a + seq![byte] + p;
    let t = b + seq![byte] + q;
    assert(s[a.len() as int] == byte);
    assert(t[b.len() as int] == byte);
    if a.len() < b.len() {
        assert(t[a.len() as int] == b[a.len() as int]);
    } else if b.len() < a.len() {
        assert(s[b.len() as int] == a[b.len() as int]);
    }
    assert(a =~= s.take(a.len() as int));
    assert(b =~= t.take(b.len() as int));
    assert(p =~= s.skip((a.len() + 1) as int));
    assert(q =~= t.skip((b.len() + 1) as int));
}

/// Whether bytes are empty or start with a separator.
spec fn starts_apart(bytes: Seq<u8>) -> bool {
    bytes.len() > 0 ==> separates(bytes[0])
}

/// Whether no byte separates.
spec fn all_together(bytes: Seq<u8>) -> bool {
    forall|i: int| 0 <= i < bytes.len() ==> !separates(#[trigger] bytes[i])
}

/// Bytes that do not separate are told apart from what a separator starts.
proof fn lemma_split_apart(a: Seq<u8>, p: Seq<u8>, b: Seq<u8>, q: Seq<u8>)
    requires
        all_together(a),
        all_together(b),
        starts_apart(p),
        starts_apart(q),
        a + p == b + q,
    ensures
        a == b,
        p == q,
{
    let s = a + p;
    let t = b + q;
    if a.len() < b.len() {
        assert(s.len() == t.len());
        assert(s[a.len() as int] == p[0]);
        assert(t[a.len() as int] == b[a.len() as int]);
    } else if b.len() < a.len() {
        assert(s.len() == t.len());
        assert(t[b.len() as int] == q[0]);
        assert(s[b.len() as int] == a[b.len() as int]);
    }
    assert(a =~= s.take(a.len() as int));
    assert(b =~= t.take(b.len() as int));
    assert(p =~= s.skip(a.len() as int));
    assert(q =~= t.skip(b.len() as int));
}

/// The path with the letter of its drive made small.
spec fn settled_path(parts: Parts) -> Seq<Piece> {
    if parts.on_a_drive() {
        parts.path.update(1, Piece::Plain(lower(parts.path[1].byte())))
    } else {
        parts.path
    }
}

/// The first pieces of a path in its key.
proof fn lemma_first_keyed(pieces: Seq<Piece>)
    requires
        readable(pieces),
        pieces.len() > 0,
    ensures
        keyed_all(pieces).len() >= keyed(pieces[0]).len() >= 1,
        keyed_all(pieces)[0] == keyed(pieces[0])[0],
        keyed(pieces[0]).len() == 1 ==> keyed_all(pieces).skip(1) == keyed_all(pieces.skip(1))
            && keyed_all(pieces)[0] == pieces[0].byte() && keyed_all(pieces)[0] != 37,
        keyed(pieces[0]).len() != 1 ==> keyed_all(pieces)[0] == 37,
        readable(pieces.skip(1)),
{
    assert forall|i: int| 0 <= i < pieces.skip(1).len() implies (
    #[trigger] pieces.skip(1)[i] matches Piece::Plain(byte) ==> byte != 37) by {
        assert(pieces.skip(1)[i] == pieces[i + 1]);
    }
    assert(keyed_all(pieces) == keyed(pieces[0]) + keyed_all(pieces.skip(1)));
    if keyed(pieces[0]).len() == 1 {
        assert(keyed_all(pieces).skip(1) =~= keyed_all(pieces.skip(1)));
    }
}

/// A path is that of a drive in its key exactly if its pieces say so.
proof fn lemma_drive_in_key(path: Seq<Piece>)
    requires
        readable(path),
    ensures
        starts_with_drive(keyed_all(path)) == (path.len() >= 3 && path[0] == Piece::Plain(47)
            && is_letter(path[1].byte()) && path[2].byte() == 58 && (path.len() == 3 || path[3]
            == Piece::Plain(47))),
        starts_with_drive(keyed_all(path)) ==> with_small_drive(keyed_all(path)) == keyed_all(
            path.update(1, Piece::Plain(lower(path[1].byte()))),
        ),
{
    let k = keyed_all(path);
    if path.len() == 0 {
        assert(k.len() == 0);
    } else {
        lemma_first_keyed(path);
        let one = path.skip(1);
        if one.len() == 0 {
            assert(keyed_all(one) =~= Seq::<u8>::empty());
        } else {
            lemma_first_keyed(one);
            assert(one[0] == path[1]);
            let two = one.skip(1);
            assert(two =~= path.skip(2));
            if two.len() == 0 {
                assert(keyed_all(two) =~= Seq::<u8>::empty());
            } else {
                lemma_first_keyed(two);
                assert(two[0] == path[2]);
                let three = two.skip(1);
                assert(three =~= path.skip(3));
                if three.len() == 0 {
                    assert(keyed_all(three) =~= Seq::<u8>::empty());
                } else {
                    lemma_first_keyed(three);
                    assert(three[0] == path[3]);
                }
                assert(keyed(path[0]).len() == 1 ==> k.skip(1) == keyed_all(one));
                assert(keyed(path[1]).len() == 1 ==> keyed_all(one).skip(1) == keyed_all(two));
                assert(keyed(path[2]).len() == 1 ==> keyed_all(two).skip(1) == keyed_all(three));
                if keyed(path[0]).len() == 1 && keyed(path[1]).len() == 1 {
                    assert(k[1] == keyed_all(one)[0]);
                    assert(k[2] == keyed_all(two)[0]) by {
                        assert(k.skip(1).skip(1)[0] == k[2]);
                    }
                    if keyed(path[2]).len() == 1 && k.len() > 3 {
                        assert(k.skip(1).skip(1).skip(1)[0] == k[3]);
                        assert(k[3] == keyed_all(three)[0]);
                    }
                    if keyed(path[2]).len() == 1 {
                        assert(k.len() == 3 + keyed_all(three).len());
                    }
                }
                if starts_with_drive(k) {
                    assert(k.skip(1)[0] == k[1]);
                    assert(k.skip(1).skip(1)[0] == k[2]);
                    let small = Piece::Plain(lower(path[1].byte()));
                    let moved = path.update(1, small);
                    assert(moved.skip(1) =~= seq![small] + two);
                    assert(moved.skip(1).skip(1) =~= two);
                    assert(keyed_all(moved.skip(1)) == keyed(small) + keyed_all(two));
                    assert(keyed_all(moved) == keyed(path[0]) + keyed_all(moved.skip(1)));
                    assert(with_small_drive(k) =~= keyed_all(moved));
                }
            }
        }
    }
}

/// The path in a key is that of its settled pieces.
proof fn lemma_settled_path(parts: Parts)
    requires
        parts.wf(),
    ensures
        keyed_path(parts) == keyed_all(settled_path(parts)),
        readable(settled_path(parts)),
        settled_path(parts).len() == parts.path.len(),
{
    lemma_drive_in_key(parts.path);
    let scheme = parts.scheme + seq![58u8];
    let file = seq![102u8, 105u8, 108u8, 101u8];
    lemma_same_letters(scheme, file + seq![58u8]);
    assert(lower_all(file + seq![58u8]) =~= file_scheme());
    if same_letters(parts.scheme, file) {
        assert forall|i: int| 0 <= i < scheme.len() implies same_letter(
            #[trigger] scheme[i],
            (file + seq![58u8])[i],
        ) by {
            if i < parts.scheme.len() {
                assert(same_letter(parts.scheme[i], file[i]));
            }
        }
    }
    if same_letters(scheme, file + seq![58u8]) {
        assert forall|i: int| 0 <= i < parts.scheme.len() implies same_letter(
            #[trigger] parts.scheme[i],
            file[i],
        ) by {
            assert(same_letter(scheme[i], (file + seq![58u8])[i]));
        }
    }
    let settled = settled_path(parts);
    assert forall|i: int| 0 <= i < settled.len() implies (
    #[trigger] settled[i] matches Piece::Plain(byte) ==> byte != 37) by {
        assert(parts.path[i] matches Piece::Plain(byte) ==> byte != 37);
    }
}

/// Settled pieces mean the same exactly if the paths are spellings of one.
proof fn lemma_settled_paths_agree(u: Parts, v: Parts)
    requires
        u.wf(),
        v.wf(),
        same_letters(u.scheme, v.scheme),
        u.path.len() == v.path.len(),
    ensures
        (forall|i: int|
            0 <= i < u.path.len() ==> (#[trigger] settled_path(u)[i]).means(settled_path(v)[i]))
            <==> (forall|i: int|
            0 <= i < u.path.len() ==> (#[trigger] u.path[i]).means(v.path[i]) || (i == 1
                && u.on_a_drive() && same_letter(u.path[1].byte(), v.path[1].byte()))),
{
    let file = seq![102u8, 105u8, 108u8, 101u8];
    lemma_same_letters(u.scheme, v.scheme);
    lemma_same_letters(u.scheme, file);
    lemma_same_letters(v.scheme, file);
    let a = settled_path(u);
    let b = settled_path(v);
    if forall|i: int| 0 <= i < u.path.len() ==> (#[trigger] a[i]).means(b[i]) {
        if u.path.len() >= 3 {
            assert(a[0].means(b[0]) && a[1].means(b[1]) && a[2].means(b[2]));
            if u.path.len() > 3 {
                assert(a[3].means(b[3]));
            }
        }
        assert forall|i: int| 0 <= i < u.path.len() implies (#[trigger] u.path[i]).means(v.path[i])
            || (i == 1 && u.on_a_drive() && same_letter(u.path[1].byte(), v.path[1].byte())) by {
            assert(a[i].means(b[i]));
        }
    }
    if forall|i: int|
        0 <= i < u.path.len() ==> (#[trigger] u.path[i]).means(v.path[i]) || (i == 1
            && u.on_a_drive() && same_letter(u.path[1].byte(), v.path[1].byte())) {
        if u.path.len() >= 3 {
            assert(u.path[0].means(v.path[0]) && u.path[2].means(v.path[2]));
            assert(u.path[1].means(v.path[1]) || (u.on_a_drive() && same_letter(
                u.path[1].byte(),
                v.path[1].byte(),
            )));
            if u.path.len() > 3 {
                assert(u.path[3].means(v.path[3]));
            }
        }
        assert forall|i: int| 0 <= i < u.path.len() implies (#[trigger] a[i]).means(b[i]) by {
            assert(u.path[i].means(v.path[i]) || (i == 1 && u.on_a_drive() && same_letter(
                u.path[1].byte(),
                v.path[1].byte(),
            )));
        }
    }
}

/// The path of a key is empty or starts with a separator behind an authority, and
/// starts with no two slashes where there is none.
proof fn lemma_path_starts_apart(parts: Parts)
    requires
        parts.wf(),
    ensures
        parts.authority is Some ==> starts_apart(keyed_path(parts)),
        parts.authority is None ==> !(keyed_path(parts).len() >= 2 && keyed_path(parts)[0] == 47
            && keyed_path(parts)[1] == 47),
{
    lemma_settled_path(parts);
    let path = settled_path(parts);
    if path.len() > 0 {
        lemma_first_keyed(path);
        if path.len() > 1 {
            lemma_first_keyed(path.skip(1));
            assert(path.skip(1)[0] == path[1]);
            assert(keyed_all(path).len() >= 2 ==> keyed_all(path).skip(1)[0] == keyed_all(path)[1]);
            if keyed(path[0]).len() == 1 {
                assert(keyed_all(path)[1] == keyed_all(path.skip(1))[0]);
            }
        } else {
            assert(keyed_all(path.skip(1)) =~= Seq::<u8>::empty());
        }
        lemma_digits(path[0].byte() / 16);
    }
}

/// The authority of a key behind its slashes.
spec fn inner_authority(authority: Authority) -> Seq<u8> {
    match authority.user {
        Some(user) => user + seq![64u8] + lower_all(authority.host),
        None => lower_all(authority.host),
    }
}

/// Authorities stand in a key alike exactly if they are the same but for the case
/// of the host.
proof fn lemma_authorities_are_told_apart(u: Authority, v: Authority)
    requires
        u.wf(),
        v.wf(),
    ensures
        inner_authority(u) == inner_authority(v) <==> u.user == v.user && same_letters(
            u.host,
            v.host,
        ),
        all_together(inner_authority(u)),
{
    lemma_same_letters(u.host, v.host);
    let a = inner_authority(u);
    let b = inner_authority(v);
    assert forall|i: int| 0 <= i < a.len() implies !separates(#[trigger] a[i]) by {
        match u.user {
            Some(user) => {
                if i < user.len() {
                    assert(a[i] == user[i]);
                } else if i > user.len() {
                    assert(a[i] == lower(u.host[i - user.len() - 1]));
                    assert(!separates(u.host[i - user.len() - 1]));
                }
            },
            None => {
                assert(a[i] == lower(u.host[i]));
                assert(!separates(u.host[i]));
            },
        }
    }
    if a == b {
        match (u.user, v.user) {
            (Some(one), Some(other)) => {
                lemma_split_at(one, lower_all(u.host), other, lower_all(v.host), 64);
            },
            (Some(one), None) => {
                assert(a[one.len() as int] == 64);
                assert(b[one.len() as int] == lower(v.host[one.len() as int]));
                assert(v.host[one.len() as int] != 64);
            },
            (None, Some(other)) => {
                assert(b[other.len() as int] == 64);
                assert(a[other.len() as int] == lower(u.host[other.len() as int]));
                assert(u.host[other.len() as int] != 64);
            },
            (None, None) => {},
        }
    }
}

/// A key tells its scheme, its authority and its path.
#[verifier::spinoff_prover]
proof fn lemma_keys_are_parted(u: Parts, v: Parts)
    requires
        u.wf(),
        v.wf(),
        lower_all(u.scheme + seq![58u8]) + keyed_authority(u.authority) + keyed_path(u)
            == lower_all(v.scheme + seq![58u8]) + keyed_authority(v.authority) + keyed_path(v),
    ensures
        lower_all(u.scheme) == lower_all(v.scheme),
        keyed_authority(u.authority) + keyed_path(u) == keyed_authority(v.authority) + keyed_path(
            v,
        ),
{
    let colon = seq![58u8];
    let a = keyed_authority(u.authority) + keyed_path(u);
    let b = keyed_authority(v.authority) + keyed_path(v);
    assert(lower_all(u.scheme + colon) =~= lower_all(u.scheme) + colon);
    assert(lower_all(v.scheme + colon) =~= lower_all(v.scheme) + colon);
    assert(lower_all(u.scheme + colon) + keyed_authority(u.authority) + keyed_path(u)
        =~= lower_all(u.scheme) + colon + a);
    assert(lower_all(v.scheme + colon) + keyed_authority(v.authority) + keyed_path(v)
        =~= lower_all(v.scheme) + colon + b);
    assert forall|i: int| 0 <= i < lower_all(u.scheme).len() implies #[trigger] lower_all(
        u.scheme,
    )[i] != 58 by {
        assert(u.scheme[i] != 58);
    }
    assert forall|i: int| 0 <= i < lower_all(v.scheme).len() implies #[trigger] lower_all(
        v.scheme,
    )[i] != 58 by {
        assert(v.scheme[i] != 58);
    }
    lemma_split_at(lower_all(u.scheme), a, lower_all(v.scheme), b, 58);
}

/// What follows the scheme of a key tells the authority and the path.
#[verifier::spinoff_prover]
proof fn lemma_authority_is_parted(u: Parts, v: Parts)
    requires
        u.wf(),
        v.wf(),
        keyed_authority(u.authority) + keyed_path(u) == keyed_authority(v.authority) + keyed_path(
            v,
        ),
    ensures
        keyed_path(u) == keyed_path(v),
        match (u.authority, v.authority) {
            (Some(mine), Some(theirs)) => inner_authority(mine) == inner_authority(theirs),
            (None, None) => true,
            _ => false,
        },
{
    lemma_path_starts_apart(u);
    lemma_path_starts_apart(v);
    let a = keyed_authority(u.authority);
    let b = keyed_authority(v.authority);
    let p = keyed_path(u);
    let q = keyed_path(v);
    if let Some(authority) = u.authority {
        assert(a =~= seq![47u8, 47u8] + inner_authority(authority));
        assert((a + p)[0] == 47 && (a + p)[1] == 47);
        assert((a + p).skip(2) =~= inner_authority(authority) + p);
        lemma_authorities_are_told_apart(authority, authority);
    } else {
        assert(a + p =~= p);
    }
    if let Some(authority) = v.authority {
        assert(b =~= seq![47u8, 47u8] + inner_authority(authority));
        assert((b + q)[0] == 47 && (b + q)[1] == 47);
        assert((b + q).skip(2) =~= inner_authority(authority) + q);
        lemma_authorities_are_told_apart(authority, authority);
    } else {
        assert(b + q =~= q);
    }
    if let (Some(mine), Some(theirs)) = (u.authority, v.authority) {
        lemma_split_apart(inner_authority(mine), p, inner_authority(theirs), q);
    }
}

/// Whether the authorities of two URIs are the same but for the case of the host.
spec fn same_authority(u: Parts, v: Parts) -> bool {
    match (u.authority, v.authority) {
        (Some(mine), Some(theirs)) => mine.user == theirs.user && same_letters(
            mine.host,
            theirs.host,
        ),
        (None, None) => true,
        _ => false,
    }
}

/// Authorities that are the same but for the case of the host stand in a key alike.
proof fn lemma_same_authority(u: Parts, v: Parts)
    requires
        u.wf(),
        v.wf(),
    ensures
        same_authority(u, v) <==> match (u.authority, v.authority) {
            (Some(mine), Some(theirs)) => inner_authority(mine) == inner_authority(theirs),
            (None, None) => true,
            _ => false,
        },
        same_authority(u, v) ==> keyed_authority(u.authority) == keyed_authority(v.authority),
{
    if let (Some(mine), Some(theirs)) = (u.authority, v.authority) {
        lemma_authorities_are_told_apart(mine, theirs);
        assert(keyed_authority(u.authority) =~= seq![47u8, 47u8] + inner_authority(mine));
        assert(keyed_authority(v.authority) =~= seq![47u8, 47u8] + inner_authority(theirs));
    }
}

/// Paths stand in a key alike exactly if they are spellings of one.
#[verifier::spinoff_prover]
proof fn lemma_same_path(u: Parts, v: Parts)
    requires
        u.wf(),
        v.wf(),
        same_letters(u.scheme, v.scheme),
    ensures
        keyed_path(u) == keyed_path(v) <==> (u.path.len() == v.path.len() && forall|i: int|
            0 <= i < u.path.len() ==> (#[trigger] u.path[i]).means(v.path[i]) || (i == 1
                && u.on_a_drive() && same_letter(u.path[1].byte(), v.path[1].byte()))),
{
    lemma_settled_path(u);
    lemma_settled_path(v);
    lemma_pieces_are_told_apart(settled_path(u), settled_path(v));
    if u.path.len() == v.path.len() {
        lemma_settled_paths_agree(u, v);
    }
}

/// Two URIs share a key exactly if they are spellings of one: everything but the
/// case of the scheme, of the host and of a drive letter, and needless
/// percent-encodings, tells documents apart.
#[verifier::spinoff_prover]
pub proof fn law_uris_share_a_key_exactly_if_they_are_spellings_of_one(u: Parts, v: Parts)
    requires
        u.wf(),
        v.wf(),
    ensures
        key_of_bytes(u.written()) == key_of_bytes(v.written()) <==> u.is_spelled_as(v),
{
    lemma_key_of_parts(u);
    lemma_key_of_parts(v);
    lemma_same_letters(u.scheme, v.scheme);
    lemma_same_authority(u, v);
    if key_of_bytes(u.written()) == key_of_bytes(v.written()) {
        lemma_keys_are_parted(u, v);
        lemma_authority_is_parted(u, v);
        lemma_same_path(u, v);
        assert(u.is_spelled_as(v));
    }
    if u.is_spelled_as(v) {
        lemma_same_path(u, v);
        assert(same_authority(u, v));
        let colon = seq![58u8];
        assert(lower_all(u.scheme + colon) =~= lower_all(u.scheme) + colon);
        assert(lower_all(v.scheme + colon) =~= lower_all(v.scheme) + colon);
    }
}

/// Documents are told apart by what their URIs mean: texts whose bytes are those
/// of two URIs have one key exactly if the URIs are spellings of one.
pub proof fn law_texts_share_a_key_exactly_if_they_are_spellings_of_one(
    one: Seq<char>,
    other: Seq<char>,
    u: Parts,
    v: Parts,
)
    requires
        u.wf(),
        v.wf(),
        encode_utf8(one) == u.written(),
        encode_utf8(other) == v.written(),
    ensures
        key_of(one) == key_of(other) <==> u.is_spelled_as(v),
{
    law_uris_share_a_key_exactly_if_they_are_spellings_of_one(u, v);
}

/// Whether a byte is a hexadecimal digit.
pub open spec fn is_hex(byte: u8) -> bool {
    48 <= byte <= 57 || 65 <= byte <= 70 || 97 <= byte <= 102
}

/// Decoding goes byte by byte. A percent-encoding of `/`, `?`, `#` or `%` stays, with
/// capital digits, and any other becomes its byte; a byte that starts no
/// percent-encoding, a lone percent sign among them, stays as it is.
pub proof fn law_decoding_goes_byte_by_byte(byte: u8, capital: bool, rest: Seq<u8>)
    ensures
        decoded(Seq::empty()) == Seq::<u8>::empty(),
        decoded(Piece::Escaped(byte, capital).written() + rest) == if separates(byte) || byte == 37 {
            Piece::Escaped(byte, true).written() + decoded(rest)
        } else {
            seq![byte] + decoded(rest)
        },
        byte != 37 || !(rest.len() >= 2 && is_hex(rest[0]) && is_hex(rest[1])) ==> decoded(
            seq![byte] + rest,
        ) == seq![byte] + decoded(rest),
{
    let s = Piece::Escaped(byte, capital).written() + rest;
    lemma_digits(byte / 16);
    lemma_digits(byte % 16);
    assert(s[0] == 37);
    assert(hex_value(s[1]) == byte / 16);
    assert(hex_value(s[2]) == byte % 16);
    assert(escape_first(s));
    assert(escaped_byte(s) == byte);
    assert(s.skip(3) =~= rest);
    assert(unescaped(byte) =~= if separates(byte) || byte == 37 {
        Piece::Escaped(byte, true).written()
    } else {
        seq![byte]
    });
    let t = seq![byte] + rest;
    assert(t.skip(1) =~= rest);
    assert(t[0] == byte);
    if rest.len() >= 2 {
        assert(t[1] == rest[0] && t[2] == rest[1]);
    }
}

/// An at sign ends what is decoded before it.
proof fn lemma_decoded_up_to_an_at_sign(user: Seq<u8>)
    ensures
        decoded(user + seq![64u8]) == decoded(user) + seq![64u8],
    decreases user.len(),
{
    let s = user + seq![64u8];
    if user.len() == 0 {
        assert(s =~= seq![64u8]);
        assert(s.skip(1) =~= Seq::<u8>::empty());
        law_decoding_goes_byte_by_byte(64, true, Seq::empty());
        assert(seq![64u8] + Seq::<u8>::empty() =~= s);
        assert(decoded(s) =~= seq![64u8]);
        assert(user =~= Seq::<u8>::empty());
        assert(decoded(user) =~= Seq::<u8>::empty());
    } else {
        if escape_first(user) {
            assert(s[1] == user[1] && s[2] == user[2]);
            assert(escape_first(s));
            lemma_decoded_up_to_an_at_sign(user.skip(3));
            assert(s.skip(3) =~= user.skip(3) + seq![64u8]);
        } else {
            if user.len() >= 2 {
                assert(s[1] == user[1]);
            }
            if user.len() >= 3 {
                assert(s[2] == user[2]);
            }
            assert(!escape_first(s));
            lemma_decoded_up_to_an_at_sign(user.skip(1));
            assert(s.skip(1) =~= user.skip(1) + seq![64u8]);
        }
        assert(decoded(s) =~= decoded(user) + seq![64u8]);
    }
}

/// Two slashes are decoded to themselves.
proof fn lemma_decoded_behind_slashes(rest: Seq<u8>)
    ensures
        decoded(seq![47u8, 47u8] + rest) == seq![47u8, 47u8] + decoded(rest),
{
    let s = seq![47u8, 47u8] + rest;
    law_decoding_goes_byte_by_byte(47, true, rest);
    law_decoding_goes_byte_by_byte(47, true, seq![47u8] + rest);
    assert(s =~= seq![47u8] + (seq![47u8] + rest));
    assert(decoded(s) =~= seq![47u8, 47u8] + decoded(rest));
}

/// The path of a key: that of a file has the letter of its drive made small, and
/// any other stays.
pub open spec fn path_in_key(scheme: Seq<u8>, path: Seq<u8>) -> Seq<u8> {
    if same_letters(scheme, seq![102u8, 105u8, 108u8, 101u8]) && path.len() >= 3 && path[0] == 47
        && 65 <= path[1] <= 90 && path[2] == 58 && (path.len() == 3 || path[3] == 47) {
        path.update(1, (path[1] + 32) as u8)
    } else {
        path
    }
}

/// The scheme in a key is that of a file exactly if its letters are.
proof fn lemma_path_in_key(scheme: Seq<u8>, path: Seq<u8>)
    ensures
        (if lower_all(scheme + seq![58u8]) == file_scheme() {
            with_small_drive(path)
        } else {
            path
        }) == path_in_key(scheme, path),
{
    let file = seq![102u8, 105u8, 108u8, 101u8];
    let whole = scheme + seq![58u8];
    let other = file + seq![58u8];
    lemma_same_letters(whole, other);
    assert(lower_all(other) =~= file_scheme());
    if same_letters(scheme, file) {
        assert forall|i: int| 0 <= i < whole.len() implies same_letter(
            #[trigger] whole[i],
            other[i],
        ) by {
            if i < scheme.len() {
                assert(same_letter(scheme[i], file[i]));
            }
        }
    }
    if same_letters(whole, other) {
        assert forall|i: int| 0 <= i < scheme.len() implies same_letter(
            #[trigger] scheme[i],
            file[i],
        ) by {
            assert(same_letter(whole[i], other[i]));
        }
    }
    if path.len() >= 3 {
        assert(path.update(1, path[1]) =~= path);
    }
}

/// The key of a URI with an authority holds its parts in order: the scheme and the
/// host in small letters, the host, the user and the path with their needless
/// percent-encodings decoded, whatever bytes they hold.
#[verifier::spinoff_prover]
pub proof fn law_a_key_holds_the_parts_in_order(
    scheme: Seq<u8>,
    user: Seq<u8>,
    host: Seq<u8>,
    path: Seq<u8>,
)
    requires
        forall|i: int| 0 <= i < scheme.len() ==> !separates(#[trigger] scheme[i]),
        without(scheme, 58),
        forall|i: int| 0 <= i < user.len() ==> !separates(#[trigger] user[i]),
        without(user, 64),
        forall|i: int| 0 <= i < host.len() ==> !separates(#[trigger] host[i]),
        path.len() > 0 ==> separates(path[0]),
    ensures
        key_of_bytes(scheme + seq![58u8, 47u8, 47u8] + user + seq![64u8] + host + path)
            == lower_all(scheme) + seq![58u8, 47u8, 47u8] + decoded(user) + seq![64u8] + lower_all(
            decoded(host),
        ) + path_in_key(scheme, decoded(path)),
        without(host, 64) ==> key_of_bytes(scheme + seq![58u8, 47u8, 47u8] + host + path)
            == lower_all(scheme) + seq![58u8, 47u8, 47u8] + lower_all(decoded(host)) + path_in_key(
            scheme,
            decoded(path),
        ),
{
    lemma_path_in_key(scheme, decoded(path));
    let colon = scheme.len() as int;
    let from = colon + 1;
    let s = scheme + seq![58u8, 47u8, 47u8] + user + seq![64u8] + host + path;
    let at = from + 2 + user.len();
    let to = at + 1 + host.len();
    assert forall|i: int| 0 <= i < colon implies !separates(#[trigger] s[i]) && s[i] != 58 by {
        assert(s[i] == scheme[i]);
    }
    assert(s[colon] == 58 && s[from] == 47 && s[from + 1] == 47 && s[at] == 64);
    lemma_scan_passes(s, 0, colon, 58);
    assert forall|i: int| from + 2 <= i < at implies s[i] == #[trigger] user[i - from - 2] by {}
    assert forall|i: int| from + 2 <= i < to implies !separates(#[trigger] s[i]) by {
        if i < at {
            assert(s[i] == user[i - from - 2]);
        } else if i > at {
            assert(s[i] == host[i - at - 1]);
        }
    }
    if to < s.len() {
        assert(s[to] == path[0]);
    }
    lemma_scan_passes(s, from + 2, to, 47);
    let taken = s.take(to);
    assert forall|i: int| from + 2 <= i < at implies !separates(#[trigger] taken[i]) && taken[i]
        != 64 by {
        assert(taken[i] == user[i - from - 2]);
    }
    lemma_scan_passes(taken, from + 2, at, 64);
    assert(s.take(from) =~= scheme + seq![58u8]);
    assert(s.subrange(from, at + 1) =~= seq![47u8, 47u8] + (user + seq![64u8]));
    assert(s.subrange(at + 1, to) =~= host);
    assert(s.skip(to) =~= path);
    lemma_decoded_behind_slashes(user + seq![64u8]);
    lemma_decoded_up_to_an_at_sign(user);
    assert(key_of_bytes(s) =~= lower_all(scheme) + seq![58u8, 47u8, 47u8] + decoded(user) + seq![
        64u8,
    ] + lower_all(decoded(host)) + path_in_key(scheme, decoded(path)));
    if without(host, 64) {
        lemma_key_without_a_user(scheme, host, path);
    }
}

/// The key of a URI with an authority but no user.
#[verifier::spinoff_prover]
proof fn lemma_key_without_a_user(scheme: Seq<u8>, host: Seq<u8>, path: Seq<u8>)
    requires
        forall|i: int| 0 <= i < scheme.len() ==> !separates(#[trigger] scheme[i]),
        without(scheme, 58),
        forall|i: int| 0 <= i < host.len() ==> !separates(#[trigger] host[i]),
        without(host, 64),
        path.len() > 0 ==> separates(path[0]),
    ensures
        key_of_bytes(scheme + seq![58u8, 47u8, 47u8] + host + path) == lower_all(scheme) + seq![
            58u8,
            47u8,
            47u8,
        ] + lower_all(decoded(host)) + path_in_key(scheme, decoded(path)),
{
    lemma_path_in_key(scheme, decoded(path));
    let colon = scheme.len() as int;
    let from = colon + 1;
    let s = scheme + seq![58u8, 47u8, 47u8] + host + path;
    let to = from + 2 + host.len();
    assert forall|i: int| 0 <= i < colon implies !separates(#[trigger] s[i]) && s[i] != 58 by {
        assert(s[i] == scheme[i]);
    }
    assert(s[colon] == 58 && s[from] == 47 && s[from + 1] == 47);
    lemma_scan_passes(s, 0, colon, 58);
    assert forall|i: int| from + 2 <= i < to implies !separates(#[trigger] s[i]) by {
        assert(s[i] == host[i - from - 2]);
    }
    if to < s.len() {
        assert(s[to] == path[0]);
    }
    lemma_scan_passes(s, from + 2, to, 47);
    let taken = s.take(to);
    assert forall|i: int| from + 2 <= i < to implies !separates(#[trigger] taken[i]) && taken[i]
        != 64 by {
        assert(taken[i] == host[i - from - 2]);
    }
    lemma_scan_passes(taken, from + 2, to, 64);
    assert(s.take(from) =~= scheme + seq![58u8]);
    assert(s.subrange(from, from) =~= Seq::<u8>::empty());
    assert(s.subrange(from, to) =~= seq![47u8, 47u8] + host);
    assert(s.skip(to) =~= path);
    lemma_decoded_behind_slashes(host);
    assert(decoded(Seq::<u8>::empty()) =~= Seq::<u8>::empty());
    assert(key_of_bytes(s) =~= lower_all(scheme) + seq![58u8, 47u8, 47u8] + lower_all(
        decoded(host),
    ) + path_in_key(scheme, decoded(path)));
}

/// A key makes the letters of its scheme and host small: capital letters become
/// small ones and every other byte stays.
pub proof fn law_only_capital_letters_are_made_small(bytes: Seq<u8>, i: int)
    requires
        0 <= i < bytes.len(),
    ensures
        lower_all(bytes).len() == bytes.len(),
        65 <= bytes[i] <= 90 ==> lower_all(bytes)[i] == bytes[i] + 32,
        !(65 <= bytes[i] <= 90) ==> lower_all(bytes)[i] == bytes[i],
{
}

} // verus!
