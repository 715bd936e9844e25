//! UUIDs as 16 bytes, their generation and their text forms.

use vstd::prelude::*;

use crate::codec::{ascii_bytes, hex_pairs, hex_text};

verus! {

/// The hyphenated text of a UUID: 32 lowercase hexadecimal digits in groups
/// of 8, 4, 4, 4 and 12.
pub open spec fn hyphenated(b: Seq<u8>) -> Seq<char> {
    hex_text(b.subrange(0, 4)) + "-"@ + hex_text(b.subrange(4, 6)) + "-"@ + hex_text(b.subrange(6, 8)) + "-"@
        + hex_text(b.subrange(8, 10)) + "-"@ + hex_text(b.subrange(10, 16))
}

/// The hyphenated text of a UUID is ASCII.
pub proof fn lemma_hyphenated_ascii(b: Seq<u8>)
    requires
        b.len() == 16,
    ensures
        vstd::utf8::is_ascii_chars(hyphenated(b)),
{
    reveal_strlit("-");
    crate::codec::lemma_hex_text_reads_back(b.subrange(0, 4));
    crate::codec::lemma_hex_text_reads_back(b.subrange(4, 6));
    crate::codec::lemma_hex_text_reads_back(b.subrange(6, 8));
    crate::codec::lemma_hex_text_reads_back(b.subrange(8, 10));
    crate::codec::lemma_hex_text_reads_back(b.subrange(10, 16));
    let h = hyphenated(b);
    assert forall|i: int| 0 <= i < h.len() implies '\0' <= #[trigger] h[i] <= '\u{7f}' by {
        let p0 = hex_text(b.subrange(0, 4));
        let p1 = hex_text(b.subrange(4, 6));
        let p2 = hex_text(b.subrange(6, 8));
        let p3 = hex_text(b.subrange(8, 10));
        let p4 = hex_text(b.subrange(10, 16));
        assert(h == p0 + "-"@ + p1 + "-"@ + p2 + "-"@ + p3 + "-"@ + p4);
        if i < 8 {
            assert(h[i] == p0[i]);
        } else if i == 8 || i == 13 || i == 18 || i == 23 {
            assert(h[i] == '-');
        } else if i < 13 {
            assert(h[i] == p1[i - 9]);
        } else if i < 18 {
            assert(h[i] == p2[i - 14]);
        } else if i < 23 {
            assert(h[i] == p3[i - 19]);
        } else {
            assert(h[i] == p4[i - 24]);
        }
    }
}

/// The hyphenated text of a UUID has 36 characters: `-` at positions 8,
/// 13, 18 and 23, and a lowercase hexadecimal digit everywhere else.
pub proof fn lemma_hyphenated_shape(b: Seq<u8>)
    requires
        b.len() == 16,
    ensures
        hyphenated(b).len() == 36,
        forall|i: int| 0 <= i < 36 ==> (#[trigger] hyphenated(b)[i] == '-' <==> (i == 8 || i == 13 || i == 18 || i == 23)),
        forall|i: int| 0 <= i < 36 && i != 8 && i != 13 && i != 18 && i != 23
            ==> ('0' <= #[trigger] hyphenated(b)[i] <= '9' || 'a' <= hyphenated(b)[i] <= 'f'),
{
    reveal_strlit("-");
    crate::codec::lemma_hex_text_digits(b.subrange(0, 4));
    crate::codec::lemma_hex_text_digits(b.subrange(4, 6));
    crate::codec::lemma_hex_text_digits(b.subrange(6, 8));
    crate::codec::lemma_hex_text_digits(b.subrange(8, 10));
    crate::codec::lemma_hex_text_digits(b.subrange(10, 16));
    let h = hyphenated(b);
    let p0 = hex_text(b.subrange(0, 4));
    let p1 = hex_text(b.subrange(4, 6));
    let p2 = hex_text(b.subrange(6, 8));
    let p3 = hex_text(b.subrange(8, 10));
    let p4 = hex_text(b.subrange(10, 16));
    assert(h == p0 + "-"@ + p1 + "-"@ + p2 + "-"@ + p3 + "-"@ + p4);
    assert forall|i: int| 0 <= i < 36 implies (#[trigger] h[i] == '-' <==> (i == 8 || i == 13 || i == 18 || i == 23))
        && (!(i == 8 || i == 13 || i == 18 || i == 23) ==> ('0' <= h[i] <= '9' || 'a' <= h[i] <= 'f')) by {
        if i < 8 {
            assert(h[i] == p0[i]);
        } else if i == 8 || i == 13 || i == 18 || i == 23 {
            assert(h[i] == '-');
        } else if i < 13 {
            assert(h[i] == p1[i - 9]);
        } else if i < 18 {
            assert(h[i] == p2[i - 14]);
        } else if i < 23 {
            assert(h[i] == p3[i - 19]);
        } else {
            assert(h[i] == p4[i - 24]);
        }
    }
}

/// A UUID's hyphenated text.
///
/// Calls `uuid::Uuid::from_bytes` and formats it with `to_string`, which
/// writes the hyphenated lowercase form.
#[verifier::external_body]
pub(crate) fn uuid_hyphenated(b: [u8; 16]) -> (r: String)
    ensures
        r@ == hyphenated(b@),
{
    uuid::Uuid::from_bytes(b).to_string()
}

/// A UUID's text without hyphens: its 32 lowercase hexadecimal digits.
///
/// Calls `uuid::Uuid::simple` and formats it with `to_string`.
#[verifier::external_body]
pub(crate) fn uuid_simple(b: [u8; 16]) -> (r: String)
    ensures
        r@ == hex_text(b@),
{
    uuid::Uuid::from_bytes(b).simple().to_string()
}

/// The uppercase form of a text, as `str::to_uppercase` computes it.
pub uninterp spec fn uppercase(s: Seq<char>) -> Seq<char>;

/// `c` with an ASCII small letter made capital.
pub open spec fn ascii_upper(c: char) -> char {
    if 'a' <= c <= 'z' { (c as int - 32) as char } else { c }
}

/// The uppercase form of `s`.
///
/// Calls `str::to_uppercase`, which maps each character by the Unicode
/// `Uppercase` mapping; its result depends on `s` alone, and on an ASCII
/// text that mapping capitalises the small letters and keeps every other
/// character.
#[verifier::external_body]
pub(crate) fn to_uppercase(s: &str) -> (r: String)
    ensures
        r@ == uppercase(s@),
        vstd::utf8::is_ascii_chars(s@) ==> r@ == s@.map_values(|c: char| ascii_upper(c)),
{
    s.to_uppercase()
}

/// The 16 bytes of a UUID carry the version `v` in the high nibble of
/// byte 6 and the RFC 4122 variant (bits `10`) at the top of byte 8.
pub open spec fn has_version(b: Seq<u8>, v: int) -> bool {
    b.len() == 16 && b[6] / 16 == v && b[8] / 64 == 2
}

/// The node id the library's version 1 UUIDs carry.
pub open spec fn v1_node() -> Seq<u8> {
    seq![0x00u8, 0x11u8, 0x22u8, 0x33u8, 0x44u8, 0x55u8]
}

/// A fresh random (version 4) UUID.
///
/// Calls `uuid::Uuid::new_v4`, which draws random bytes and then sets the
/// version (4) and variant (RFC 4122) bits.  Which bytes were drawn is
/// not stated: they are random.
#[verifier::external_body]
pub(crate) fn uuid_v4() -> (r: [u8; 16])
    ensures
        has_version(r@, 4),
{
    *uuid::Uuid::new_v4().as_bytes()
}

/// A fresh time-based (version 1) UUID with the node id 00-11-22-33-44-55.
///
/// Calls `uuid::Uuid::now_v1`, which writes the clock's timestamp and a
/// counter with the version (1) and variant (RFC 4122) bits set, and the
/// node id in the last six bytes.  The timestamp and counter depend on the
/// clock and are not stated.
#[verifier::external_body]
pub(crate) fn uuid_v1() -> (r: [u8; 16])
    ensures
        has_version(r@, 1),
        r@.subrange(10, 16) == v1_node(),
{
    *uuid::Uuid::now_v1(&[0x00, 0x11, 0x22, 0x33, 0x44, 0x55]).as_bytes()
}

/// A fresh time-ordered (version 7) UUID.
///
/// Calls `uuid::Uuid::now_v7`, which writes the clock's milliseconds, a
/// counter and random bits with the version (7) and variant (RFC 4122)
/// bits set.  The time and the random bits are not stated.
#[verifier::external_body]
pub(crate) fn uuid_v7() -> (r: [u8; 16])
    ensures
        has_version(r@, 7),
{
    *uuid::Uuid::now_v7().as_bytes()
}

/// The name-based (version 5, SHA-1) UUID of `name` in namespace `ns`.
pub uninterp spec fn name_uuid(ns: Seq<u8>, name: Seq<u8>) -> Seq<u8>;

/// The version 5 UUID of `name` in namespace `ns`.
///
/// Calls `uuid::Uuid::new_v5`, whose value depends on the namespace and the
/// name alone, and which sets the version (5) and variant (RFC 4122) bits.
#[verifier::external_body]
pub(crate) fn uuid_v5(ns: [u8; 16], name: &[u8]) -> (r: [u8; 16])
    ensures
        r@ == name_uuid(ns@, name@),
        has_version(r@, 5),
{
    *uuid::Uuid::new_v5(&uuid::Uuid::from_bytes(ns), name).as_bytes()
}

/// The standard namespaces of name-based UUIDs.
#[derive(Debug, Clone, Copy, PartialEq, Eq, Structural)]
pub enum UuidNamespace {
    Dns,
    Url,
    Oid,
    X500,
}

/// The bytes of a standard namespace (RFC 4122, appendix C).
pub open spec fn namespace_bytes(ns: UuidNamespace) -> Seq<u8> {
    match ns {
        UuidNamespace::Dns => seq![0x6b, 0xa7, 0xb8, 0x10, 0x9d, 0xad, 0x11, 0xd1, 0x80, 0xb4, 0x00, 0xc0, 0x4f, 0xd4, 0x30, 0xc8],
        UuidNamespace::Url => seq![0x6b, 0xa7, 0xb8, 0x11, 0x9d, 0xad, 0x11, 0xd1, 0x80, 0xb4, 0x00, 0xc0, 0x4f, 0xd4, 0x30, 0xc8],
        UuidNamespace::Oid => seq![0x6b, 0xa7, 0xb8, 0x12, 0x9d, 0xad, 0x11, 0xd1, 0x80, 0xb4, 0x00, 0xc0, 0x4f, 0xd4, 0x30, 0xc8],
        UuidNamespace::X500 => seq![0x6b, 0xa7, 0xb8, 0x14, 0x9d, 0xad, 0x11, 0xd1, 0x80, 0xb4, 0x00, 0xc0, 0x4f, 0xd4, 0x30, 0xc8],
    }
}

/// The bytes of a standard namespace.
///
/// Reads `uuid::Uuid::NAMESPACE_DNS`, `NAMESPACE_URL`, `NAMESPACE_OID` or
/// `NAMESPACE_X500`, whose values RFC 4122 fixes.
#[verifier::external_body]
pub(crate) fn namespace_uuid(ns: UuidNamespace) -> (r: [u8; 16])
    ensures
        r@ == namespace_bytes(ns),
{
    match ns {
        UuidNamespace::Dns => *uuid::Uuid::NAMESPACE_DNS.as_bytes(),
        UuidNamespace::Url => *uuid::Uuid::NAMESPACE_URL.as_bytes(),
        UuidNamespace::Oid => *uuid::Uuid::NAMESPACE_OID.as_bytes(),
        UuidNamespace::X500 => *uuid::Uuid::NAMESPACE_X500.as_bytes(),
    }
}

/// The 16 bytes that 32 hexadecimal digits (of either case) spell, two
/// digits per byte; `None` when a character is not a hexadecimal digit.
pub open spec fn uuid_hex_bytes(digits: Seq<char>) -> Option<Seq<u8>> {
    if vstd::utf8::is_ascii_chars(digits) {
        hex_pairs(ascii_bytes(digits))
    } else {
        None
    }
}

/// The bytes of a hyphenated UUID text: groups of 8, 4, 4, 4 and 12
/// hexadecimal digits separated by `-`.
pub open spec fn hyphenated_uuid_bytes(s: Seq<char>) -> Option<Seq<u8>> {
    if s.len() == 36 && s[8] == '-' && s[13] == '-' && s[18] == '-' && s[23] == '-' {
        uuid_hex_bytes(
            s.subrange(0, 8) + s.subrange(9, 13) + s.subrange(14, 18) + s.subrange(19, 23) + s.subrange(24, 36),
        )
    } else {
        None
    }
}

/// `c` with an ASCII capital letter made small.
pub open spec fn ascii_lower(c: char) -> char {
    if 'A' <= c <= 'Z' { (c as int + 32) as char } else { c }
}

/// The bytes of a UUID text in one of the forms it may take: 32
/// hexadecimal digits, the hyphenated form, the hyphenated form in braces,
/// or the hyphenated form after `urn:uuid:` (in any case).
pub open spec fn uuid_text_bytes(s: Seq<char>) -> Option<Seq<u8>> {
    if s.len() == 32 {
        uuid_hex_bytes(s)
    } else if s.len() == 36 {
        hyphenated_uuid_bytes(s)
    } else if s.len() == 38 && s[0] == '{' && s[37] == '}' {
        hyphenated_uuid_bytes(s.subrange(1, 37))
    } else if s.len() == 45 && s.subrange(0, 9).map_values(|c: char| ascii_lower(c)) == "urn:uuid:"@ {
        hyphenated_uuid_bytes(s.subrange(9, 45))
    } else {
        None
    }
}

/// The text of the error that reading `s` as a UUID reports.
pub uninterp spec fn uuid_error_text(s: Seq<char>) -> Seq<char>;

/// What reading `s` as a UUID gives: its bytes, or the error text.
pub open spec fn uuid_reading(s: Seq<char>) -> Result<Seq<u8>, Seq<char>> {
    match uuid_text_bytes(s) {
        Some(b) => Ok(b),
        None => Err(uuid_error_text(s)),
    }
}

/// Read a UUID from text.
///
/// Calls `uuid::Uuid::parse_str`, which reads the four forms that
/// `uuid_text_bytes` describes (by the byte length of the text: 32, 36, 38
/// or 45) with hexadecimal digits of either case, and fails on any other
/// text; the text of its error depends on the input alone.
#[verifier::external_body]
pub(crate) fn parse_uuid(s: &str) -> (r: Result<[u8; 16], String>)
    ensures
        match r {
            Ok(b) => uuid_text_bytes(s@) == Some(b@),
            Err(m) => uuid_text_bytes(s@) is None && m@ == uuid_error_text(s@),
        },
{
    uuid::Uuid::parse_str(s).map(|u| *u.as_bytes()).map_err(|e| e.to_string())
}

} // verus!
