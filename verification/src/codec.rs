//! Byte encodings of text: hexadecimal, percent-encoding, Base64, and
//! UTF-8 validation.

use base64::Engine;
use vstd::prelude::*;
use vstd::string::StringSliceAdditionalSpecFns;
use vstd::utf8::{decode_utf8, valid_utf8};

verus! {

/// The lowercase hexadecimal digit of `n` (below 16).
pub open spec fn lower_hex_digit(n: int) -> char {
    if n < 10 { ('0' as int + n) as char } else { ('a' as int + n - 10) as char }
}

/// The uppercase hexadecimal digit of `n` (below 16).
pub open spec fn upper_hex_digit(n: int) -> char {
    if n < 10 { ('0' as int + n) as char } else { ('A' as int + n - 10) as char }
}

/// The bytes written as lowercase hexadecimal, two digits per byte.
pub open spec fn hex_text(b: Seq<u8>) -> Seq<char>
    decreases b.len(),
{
    if b.len() == 0 {
        Seq::empty()
    } else {
        seq![lower_hex_digit(b[0] as int / 16), lower_hex_digit(b[0] as int % 16)] + hex_text(b.drop_first())
    }
}

/// The bytes written as lowercase hexadecimal.
///
/// Calls `hex::encode`, which writes each byte as two lowercase digits.
#[verifier::external_body]
pub(crate) fn hex_encode(bytes: &[u8]) -> (r: String)
    ensures
        r@ == hex_text(bytes@),
{
    hex::encode(bytes)
}

/// The value of a hexadecimal digit byte (either case).
pub open spec fn hex_value(c: u8) -> Option<u8> {
    if 48 <= c <= 57 {
        Some((c - 48) as u8)
    } else if 97 <= c <= 102 {
        Some((c - 87) as u8)
    } else if 65 <= c <= 70 {
        Some((c - 55) as u8)
    } else {
        None
    }
}

/// The bytes that pairs of hexadecimal digits stand for; `None` when a
/// digit is invalid or one is left over.
pub open spec fn hex_pairs(b: Seq<u8>) -> Option<Seq<u8>>
    decreases b.len(),
{
    if b.len() == 0 {
        Some(Seq::empty())
    } else if b.len() == 1 {
        None
    } else {
        match (hex_value(b[0]), hex_value(b[1]), hex_pairs(b.subrange(2, b.len() as int))) {
            (Some(h), Some(l), Some(rest)) => Some(seq![(h * 16 + l) as u8] + rest),
            _ => None,
        }
    }
}

/// The text of `hex`'s error for an even-length input with an invalid digit.
pub uninterp spec fn hex_error_text(b: Seq<u8>) -> Seq<char>;

/// The bytes a hexadecimal text stands for, or the error text.
///
/// Calls `hex::decode` on the text's bytes: an odd length is refused as
/// "Odd number of digits", otherwise each pair of digits (either case)
/// gives a byte, and an invalid digit is refused with an error whose text
/// depends on the bytes alone.
#[verifier::external_body]
pub(crate) fn hex_decode(s: &str) -> (r: Result<Vec<u8>, String>)
    ensures
        match r {
            Ok(x) => s.spec_bytes().len() % 2 == 0 && hex_pairs(s.spec_bytes()) == Some(x@),
            Err(m) => if s.spec_bytes().len() % 2 == 1 {
                m@ == "Odd number of digits"@
            } else {
                hex_pairs(s.spec_bytes()) is None && m@ == hex_error_text(s.spec_bytes())
            },
        },
{
    hex::decode(s).map_err(|e| e.to_string())
}

/// `b` is an ASCII letter or digit.
pub open spec fn is_ascii_alnum(b: u8) -> bool {
    (48 <= b <= 57) || (65 <= b <= 90) || (97 <= b <= 122)
}

/// The bytes percent-encoded: ASCII letters and digits are kept, every
/// other byte becomes `%` and two uppercase hexadecimal digits.
pub open spec fn percent_text(b: Seq<u8>) -> Seq<char>
    decreases b.len(),
{
    if b.len() == 0 {
        Seq::empty()
    } else {
        (if is_ascii_alnum(b[0]) {
            seq![b[0] as char]
        } else {
            seq!['%', upper_hex_digit(b[0] as int / 16), upper_hex_digit(b[0] as int % 16)]
        }) + percent_text(b.drop_first())
    }
}

/// The bytes percent-encoded, keeping only ASCII letters and digits.
///
/// Calls `percent_encoding::percent_encode` with `NON_ALPHANUMERIC`, which
/// writes every byte outside that set as `%` and two uppercase digits.
#[verifier::external_body]
pub(crate) fn percent_encode_bytes(bytes: &[u8]) -> (r: String)
    ensures
        r@ == percent_text(bytes@),
{
    percent_encoding::percent_encode(bytes, percent_encoding::NON_ALPHANUMERIC).to_string()
}

/// The bytes a percent-encoded byte string stands for: `%` and two
/// hexadecimal digits (either case) give one byte; any other byte, a `%`
/// without two digits included, stands for itself.
pub open spec fn percent_decoded(b: Seq<u8>) -> Seq<u8>
    decreases b.len(),
{
    if b.len() == 0 {
        Seq::empty()
    } else if b[0] == 37 && b.len() >= 3 && hex_value(b[1]) is Some && hex_value(b[2]) is Some {
        seq![(hex_value(b[1])->Some_0 * 16 + hex_value(b[2])->Some_0) as u8] + percent_decoded(b.subrange(3, b.len() as int))
    } else {
        seq![b[0]] + percent_decoded(b.drop_first())
    }
}

/// The bytes a percent-encoded text stands for.
///
/// Calls `percent_encoding::percent_decode_str` and collects the bytes it
/// yields.
#[verifier::external_body]
pub(crate) fn percent_decode_bytes(s: &str) -> (r: Vec<u8>)
    ensures
        r@ == percent_decoded(s.spec_bytes()),
{
    percent_encoding::percent_decode_str(s).collect()
}

/// The text of the standard library's error for bytes that are not UTF-8.
pub uninterp spec fn utf8_error_text(b: Seq<u8>) -> Seq<char>;

/// The text the bytes encode in UTF-8, or the error text.
///
/// Calls `String::from_utf8`, which accepts exactly the valid UTF-8
/// sequences; its error's text depends on the bytes alone.
#[verifier::external_body]
pub(crate) fn text_from_utf8(bytes: Vec<u8>) -> (r: Result<String, String>)
    ensures
        match r {
            Ok(s) => valid_utf8(bytes@) && s@ == decode_utf8(bytes@),
            Err(m) => !valid_utf8(bytes@) && m@ == utf8_error_text(bytes@),
        },
{
    String::from_utf8(bytes).map_err(|e| e.to_string())
}

/// The Base64 digit of `n` (below 64): `A`-`Z`, `a`-`z`, `0`-`9`, then
/// `+` and `/`, or `-` and `_` in the URL-safe alphabet.
pub open spec fn base64_digit(n: int, url_safe: bool) -> char {
    if n < 26 {
        ('A' as int + n) as char
    } else if n < 52 {
        ('a' as int + n - 26) as char
    } else if n < 62 {
        ('0' as int + n - 52) as char
    } else if n == 62 {
        if url_safe { '-' } else { '+' }
    } else {
        if url_safe { '_' } else { '/' }
    }
}

/// The padded Base64 text of the bytes: each group of three bytes becomes
/// four digits of six bits each, and a last group of one or two bytes is
/// written as two or three digits (the missing bits zero) and padded with
/// `=` to four characters.
pub open spec fn base64_text(b: Seq<u8>, url_safe: bool) -> Seq<char>
    decreases b.len(),
{
    if b.len() == 0 {
        Seq::empty()
    } else if b.len() == 1 {
        seq![
            base64_digit(b[0] as int / 4, url_safe),
            base64_digit((b[0] as int % 4) * 16, url_safe),
            '=',
            '=',
        ]
    } else if b.len() == 2 {
        seq![
            base64_digit(b[0] as int / 4, url_safe),
            base64_digit((b[0] as int % 4) * 16 + b[1] as int / 16, url_safe),
            base64_digit((b[1] as int % 16) * 4, url_safe),
            '=',
        ]
    } else {
        seq![
            base64_digit(b[0] as int / 4, url_safe),
            base64_digit((b[0] as int % 4) * 16 + b[1] as int / 16, url_safe),
            base64_digit((b[1] as int % 16) * 4 + b[2] as int / 64, url_safe),
            base64_digit(b[2] as int % 64, url_safe),
        ] + base64_text(b.subrange(3, b.len() as int), url_safe)
    }
}

/// `s` is the padded Base64 text of some bytes.
pub open spec fn base64_encodes(s: Seq<char>, url_safe: bool) -> bool {
    exists|b: Seq<u8>| base64_text(b, url_safe) == s
}

/// The bytes whose padded Base64 text is `s` (there is at most one such
/// sequence: see `lemma_base64_text_injective`).
pub open spec fn base64_bytes(s: Seq<char>, url_safe: bool) -> Seq<u8> {
    choose|b: Seq<u8>| base64_text(b, url_safe) == s
}

/// The bytes in standard Base64.
///
/// Calls `base64::engine::general_purpose::STANDARD.encode`, which writes
/// the standard alphabet with `=` padding.
#[verifier::external_body]
pub(crate) fn encode_base64_standard(bytes: &[u8]) -> (r: String)
    ensures
        r@ == base64_text(bytes@, false),
{
    base64::engine::general_purpose::STANDARD.encode(bytes)
}

/// The bytes in URL-safe Base64.
///
/// Calls `base64::engine::general_purpose::URL_SAFE.encode`, which writes
/// the URL-safe alphabet with `=` padding.
#[verifier::external_body]
pub(crate) fn encode_base64_url(bytes: &[u8]) -> (r: String)
    ensures
        r@ == base64_text(bytes@, true),
{
    base64::engine::general_purpose::URL_SAFE.encode(bytes)
}

/// The text of the error that standard Base64 decoding reports for `s`.
pub uninterp spec fn base64_standard_error(s: Seq<char>) -> Seq<char>;

/// Decode standard Base64.
///
/// Calls `base64::engine::general_purpose::STANDARD.decode`. Its engine
/// requires canonical padding and rejects set trailing bits, so it accepts
/// exactly the texts that `STANDARD.encode` writes and gives back their
/// bytes; the text of its error depends on the input alone.
#[verifier::external_body]
pub(crate) fn decode_base64_standard(s: &str) -> (r: Result<Vec<u8>, String>)
    ensures
        match r {
            Ok(b) => base64_text(b@, false) == s@,
            Err(m) => !base64_encodes(s@, false) && m@ == base64_standard_error(s@),
        },
{
    base64::engine::general_purpose::STANDARD.decode(s).map_err(|e| e.to_string())
}

/// The text of the error that URL-safe Base64 decoding reports for `s`.
pub uninterp spec fn base64_url_error(s: Seq<char>) -> Seq<char>;

/// Decode URL-safe Base64.
///
/// Calls `base64::engine::general_purpose::URL_SAFE.decode`. Its engine
/// requires canonical padding and rejects set trailing bits, so it accepts
/// exactly the texts that `URL_SAFE.encode` writes and gives back their
/// bytes; the text of its error depends on the input alone.
#[verifier::external_body]
pub(crate) fn decode_base64_url(s: &str) -> (r: Result<Vec<u8>, String>)
    ensures
        match r {
            Ok(b) => base64_text(b@, true) == s@,
            Err(m) => !base64_encodes(s@, true) && m@ == base64_url_error(s@),
        },
{
    base64::engine::general_purpose::URL_SAFE.decode(s).map_err(|e| e.to_string())
}

/// The bytes of an ASCII text: one per character.
pub open spec fn ascii_bytes(cs: Seq<char>) -> Seq<u8> {
    Seq::new(cs.len(), |i: int| cs[i] as u8)
}

/// A hexadecimal digit reads back as its value.
proof fn lemma_hex_digit_value(n: int)
    requires
        0 <= n < 16,
    ensures
        hex_value(lower_hex_digit(n) as u8) == Some(n as u8),
        hex_value(upper_hex_digit(n) as u8) == Some(n as u8),
        '\0' <= lower_hex_digit(n) <= '\u{7f}',
        '\0' <= upper_hex_digit(n) <= '\u{7f}',
        !crate::text::is_whitespace(lower_hex_digit(n)),
        !crate::text::is_whitespace(upper_hex_digit(n)),
{
}

/// Hexadecimal text is ASCII without white space, and reads back as the
/// bytes it writes.
pub proof fn lemma_hex_text_reads_back(b: Seq<u8>)
    ensures
        hex_text(b).len() == 2 * b.len(),
        vstd::utf8::is_ascii_chars(hex_text(b)),
        forall|i: int| 0 <= i < hex_text(b).len() ==> !crate::text::is_whitespace(#[trigger] hex_text(b)[i]),
        hex_pairs(ascii_bytes(hex_text(b))) == Some(b),
    decreases b.len(),
{
    if b.len() > 0 {
        let hi = b[0] as int / 16;
        let lo = b[0] as int % 16;
        lemma_hex_digit_value(hi);
        lemma_hex_digit_value(lo);
        lemma_hex_text_reads_back(b.drop_first());
        let t = hex_text(b);
        let rest = hex_text(b.drop_first());
        assert(t == seq![lower_hex_digit(hi), lower_hex_digit(lo)] + rest);
        assert forall|i: int| 0 <= i < t.len() implies '\0' <= #[trigger] t[i] <= '\u{7f}' && !crate::text::is_whitespace(t[i]) by {
            if i >= 2 {
                assert(t[i] == rest[i - 2]);
            }
        }
        let ab = ascii_bytes(t);
        assert(ab.subrange(2, ab.len() as int) =~= ascii_bytes(rest));
        assert(ab[0] == lower_hex_digit(hi) as u8);
        assert(ab[1] == lower_hex_digit(lo) as u8);
        assert(seq![(hi * 16 + lo) as u8] + b.drop_first() =~= b);
    }
}

/// Every character of hexadecimal text is a lowercase hexadecimal digit.
pub proof fn lemma_hex_text_digits(b: Seq<u8>)
    ensures
        hex_text(b).len() == 2 * b.len(),
        forall|i: int| 0 <= i < hex_text(b).len() ==> ('0' <= #[trigger] hex_text(b)[i] <= '9' || 'a' <= hex_text(b)[i] <= 'f'),
    decreases b.len(),
{
    if b.len() > 0 {
        lemma_hex_text_digits(b.drop_first());
        let t = hex_text(b);
        let rest = hex_text(b.drop_first());
        let hi = b[0] as int / 16;
        let lo = b[0] as int % 16;
        assert(t == seq![lower_hex_digit(hi), lower_hex_digit(lo)] + rest);
        assert forall|i: int| 0 <= i < t.len() implies ('0' <= #[trigger] t[i] <= '9' || 'a' <= t[i] <= 'f') by {
            if i >= 2 {
                assert(t[i] == rest[i - 2]);
            }
        }
    }
}

/// Percent-encoded text is ASCII without white space, and reads back as the
/// bytes it encodes.
pub proof fn lemma_percent_text_reads_back(b: Seq<u8>)
    ensures
        vstd::utf8::is_ascii_chars(percent_text(b)),
        forall|i: int| 0 <= i < percent_text(b).len() ==> !crate::text::is_whitespace(#[trigger] percent_text(b)[i]),
        percent_decoded(ascii_bytes(percent_text(b))) == b,
    decreases b.len(),
{
    if b.len() > 0 {
        let hi = b[0] as int / 16;
        let lo = b[0] as int % 16;
        lemma_hex_digit_value(hi);
        lemma_hex_digit_value(lo);
        lemma_percent_text_reads_back(b.drop_first());
        let t = percent_text(b);
        let rest = percent_text(b.drop_first());
        let head = if is_ascii_alnum(b[0]) {
            seq![b[0] as char]
        } else {
            seq!['%', upper_hex_digit(hi), upper_hex_digit(lo)]
        };
        assert(t == head + rest);
        assert forall|i: int| 0 <= i < t.len() implies '\0' <= #[trigger] t[i] <= '\u{7f}' && !crate::text::is_whitespace(t[i]) by {
            if i >= head.len() {
                assert(t[i] == rest[i - head.len()]);
            }
        }
        let ab = ascii_bytes(t);
        assert(ab.subrange(head.len() as int, ab.len() as int) =~= ascii_bytes(rest));
        if is_ascii_alnum(b[0]) {
            assert(ab[0] == b[0]);
            assert(ab.drop_first() =~= ascii_bytes(rest));
            assert(seq![b[0]] + b.drop_first() =~= b);
        } else {
            assert(ab[0] == 37);
            assert(ab[1] == upper_hex_digit(hi) as u8);
            assert(ab[2] == upper_hex_digit(lo) as u8);
            assert(seq![(hi * 16 + lo) as u8] + b.drop_first() =~= b);
        }
    }
}

/// Base64 digits are distinct, printable ASCII, neither `=` nor white
/// space.
proof fn lemma_base64_digit(m: int, n: int, url_safe: bool)
    requires
        0 <= m < 64,
        0 <= n < 64,
    ensures
        base64_digit(m, url_safe) == base64_digit(n, url_safe) ==> m == n,
        base64_digit(n, url_safe) != '=',
        '\0' <= base64_digit(n, url_safe) <= '\u{7f}',
        !crate::text::is_whitespace(base64_digit(n, url_safe)),
{
}

/// Four equal digits of a group of three bytes come from equal bytes.
proof fn lemma_base64_group(a0: u8, a1: u8, a2: u8, b0: u8, b1: u8, b2: u8)
    by (bit_vector)
    requires
        a0 / 4 == b0 / 4,
        (a0 % 4) * 16 + a1 / 16 == (b0 % 4) * 16 + b1 / 16,
        (a1 % 16) * 4 + a2 / 64 == (b1 % 16) * 4 + b2 / 64,
        a2 % 64 == b2 % 64,
    ensures
        a0 == b0 && a1 == b1 && a2 == b2,
{
}

/// Padded Base64 text is ASCII without white space, and no two byte
/// sequences have the same text.
pub proof fn lemma_base64_text_injective(a: Seq<u8>, b: Seq<u8>, url_safe: bool)
    ensures
        vstd::utf8::is_ascii_chars(base64_text(a, url_safe)),
        forall|i: int| 0 <= i < base64_text(a, url_safe).len() ==> !crate::text::is_whitespace(#[trigger] base64_text(a, url_safe)[i]),
        base64_text(a, url_safe) == base64_text(b, url_safe) ==> a == b,
    decreases a.len(),
{
    let u = url_safe;
    let ta = base64_text(a, u);
    let tb = base64_text(b, u);
    if a.len() == 0 {
        if b.len() > 0 {
            assert(tb.len() >= 4);
        }
        assert(ta == tb ==> a =~= b);
        return;
    }
    let x0 = a[0] as int / 4;
    let x1 = (a[0] as int % 4) * 16 + if a.len() >= 2 { a[1] as int / 16 } else { 0 };
    let x2 = if a.len() >= 2 { (a[1] as int % 16) * 4 + if a.len() >= 3 { a[2] as int / 64 } else { 0 } } else { 0 };
    let x3 = if a.len() >= 3 { a[2] as int % 64 } else { 0 };
    lemma_base64_digit(x0, x0, u);
    lemma_base64_digit(x1, x1, u);
    lemma_base64_digit(x2, x2, u);
    lemma_base64_digit(x3, x3, u);
    if a.len() >= 3 {
        let ra = a.subrange(3, a.len() as int);
        lemma_base64_text_injective(ra, if b.len() >= 3 { b.subrange(3, b.len() as int) } else { b }, u);
        let rest = base64_text(ra, u);
        assert forall|i: int| 0 <= i < ta.len() implies '\0' <= #[trigger] ta[i] <= '\u{7f}' && !crate::text::is_whitespace(ta[i]) by {
            if i >= 4 {
                assert(ta[i] == rest[i - 4]);
            }
        }
    } else {
        assert forall|i: int| 0 <= i < ta.len() implies '\0' <= #[trigger] ta[i] <= '\u{7f}' && !crate::text::is_whitespace(ta[i]) by {
        }
    }
    if ta == tb {
        assert(ta.len() == tb.len());
        assert(b.len() > 0);
        let y0 = b[0] as int / 4;
        let y1 = (b[0] as int % 4) * 16 + if b.len() >= 2 { b[1] as int / 16 } else { 0 };
        let y2 = if b.len() >= 2 { (b[1] as int % 16) * 4 + if b.len() >= 3 { b[2] as int / 64 } else { 0 } } else { 0 };
        let y3 = if b.len() >= 3 { b[2] as int % 64 } else { 0 };
        lemma_base64_digit(x0, y0, u);
        lemma_base64_digit(x1, y1, u);
        lemma_base64_digit(x2, y2, u);
        lemma_base64_digit(x3, y3, u);
        lemma_base64_digit(y2, y2, u);
        lemma_base64_digit(y3, y3, u);
        assert(ta[0] == tb[0] && ta[1] == tb[1] && ta[2] == tb[2] && ta[3] == tb[3]);
        assert(a.len() >= 3 <==> b.len() >= 3);
        assert(a.len() >= 2 <==> b.len() >= 2);
        let a1: u8 = if a.len() >= 2 { a[1] } else { 0 };
        let a2: u8 = if a.len() >= 3 { a[2] } else { 0 };
        let b1: u8 = if b.len() >= 2 { b[1] } else { 0 };
        let b2: u8 = if b.len() >= 3 { b[2] } else { 0 };
        lemma_base64_group(a[0], a1, a2, b[0], b1, b2);
        if a.len() >= 3 {
            let ra = a.subrange(3, a.len() as int);
            let rb = b.subrange(3, b.len() as int);
            assert(base64_text(ra, u) =~= ta.subrange(4, ta.len() as int));
            assert(base64_text(rb, u) =~= tb.subrange(4, tb.len() as int));
            assert(ra == rb);
            assert(a =~= b.subrange(0, 3) + rb);
            assert(b =~= b.subrange(0, 3) + rb);
        } else {
            assert(a =~= b);
        }
    }
}

/// The padded Base64 text of some bytes reads back as those bytes.
pub proof fn lemma_base64_reads_back(b: Seq<u8>, url_safe: bool)
    ensures
        base64_encodes(base64_text(b, url_safe), url_safe),
        base64_bytes(base64_text(b, url_safe), url_safe) == b,
{
    let t = base64_text(b, url_safe);
    assert(base64_text(b, url_safe) == t);
    let c = base64_bytes(t, url_safe);
    lemma_base64_text_injective(c, b, url_safe);
}

} // verus!
