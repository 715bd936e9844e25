//! Reading integers written in decimal.

use vstd::prelude::*;
use vstd::string::StrSliceExecFns;

use crate::text::{decimal_text, digit_char};

verus! {

/// `c` is an ASCII digit.
pub open spec fn is_digit(c: char) -> bool {
    '0' as int <= c as int <= '9' as int
}

/// Every character of `s` is an ASCII digit.
pub open spec fn all_digits(s: Seq<char>) -> bool {
    forall|i: int| 0 <= i < s.len() ==> is_digit(#[trigger] s[i])
}

/// The value of a string of digits.
pub open spec fn digits_value(s: Seq<char>) -> int
    decreases s.len(),
{
    if s.len() == 0 {
        0
    } else {
        digits_value(s.drop_last()) * 10 + (s.last() as int - '0' as int)
    }
}

/// The `i64` that `s` writes in decimal, as `i64::from_str` reads it: an
/// optional `+` or `-`, then one or more digits, with a value in range.
pub open spec fn decimal_i64(s: Seq<char>) -> Option<i64> {
    let neg = s.len() > 0 && s[0] == '-';
    let body = if s.len() > 0 && (s[0] == '-' || s[0] == '+') { s.drop_first() } else { s };
    if body.len() == 0 || !all_digits(body) {
        None
    } else {
        let v = if neg { -digits_value(body) } else { digits_value(body) };
        if i64::MIN <= v <= i64::MAX { Some(v as i64) } else { None }
    }
}

/// A string of digits has a non-negative value.
proof fn lemma_digits_value_nonneg(s: Seq<char>)
    requires
        all_digits(s),
    ensures
        digits_value(s) >= 0,
    decreases s.len(),
{
    if s.len() > 0 {
        lemma_digits_value_nonneg(s.drop_last());
        assert(is_digit(s[s.len() - 1]));
    }
}

/// Read an `i64` written in decimal.
pub fn parse_i64(s: &str) -> (r: Option<i64>)
    ensures
        r == decimal_i64(s@),
{
    let n = s.unicode_len();
    let mut start: usize = 0;
    let mut neg = false;
    if n > 0 {
        let c = s.get_char(0);
        if c == '-' {
            neg = true;
            start = 1;
        } else if c == '+' {
            start = 1;
        }
    }
    let ghost body = s@.subrange(start as int, n as int);
    assert(body =~= (if s@.len() > 0 && (s@[0] == '-' || s@[0] == '+') { s@.drop_first() } else { s@ }));
    if start == n {
        return None;
    }
    let limit: i128 = 9_223_372_036_854_775_808;
    let mut acc: i128 = 0;
    let mut big = false;
    let mut i: usize = start;
    while i < n
        invariant
            start <= i <= n,
            n == s@.len(),
            body == s@.subrange(start as int, n as int),
            all_digits(s@.subrange(start as int, i as int)),
            !big ==> acc == digits_value(s@.subrange(start as int, i as int)) && 0 <= acc <= limit,
            big ==> digits_value(s@.subrange(start as int, i as int)) > limit,
            limit == 9_223_372_036_854_775_808,
            body == (if s@.len() > 0 && (s@[0] == '-' || s@[0] == '+') { s@.drop_first() } else { s@ }),
            neg == (s@.len() > 0 && s@[0] == '-'),
        decreases n - i,
    {
        let c = s.get_char(i);
        let ghost pre = s@.subrange(start as int, i as int);
        let ghost post = s@.subrange(start as int, i + 1);
        assert(post.drop_last() =~= pre);
        assert(post.last() == c);
        if !(c >= '0' && c <= '9') {
            proof {
                assert(body[i - start] == c);
                assert(!is_digit(body[i - start]));
            }
            return None;
        }
        proof {
            assert forall|k: int| 0 <= k < post.len() implies is_digit(#[trigger] post[k]) by {
                if k < pre.len() {
                    assert(post[k] == pre[k]);
                }
            }
            lemma_digits_value_nonneg(pre);
        }
        let d: i128 = (c as u32 - 48) as i128;
        if !big {
            let next = acc * 10 + d;
            if next > limit {
                big = true;
            } else {
                acc = next;
            }
        }
        i = i + 1;
    }
    assert(s@.subrange(start as int, n as int) == body);
    if big {
        return None;
    }
    if neg {
        let v = -acc;
        if v < -9_223_372_036_854_775_808i128 {
            None
        } else {
            Some(v as i64)
        }
    } else {
        if acc > 9_223_372_036_854_775_807i128 {
            None
        } else {
            Some(acc as i64)
        }
    }
}

/// A digit character stands for its digit.
proof fn lemma_digit_char_value(d: int)
    requires
        0 <= d < 10,
    ensures
        digit_char(d) as int == '0' as int + d,
{
}

/// The decimal text of a non-negative number is a non-empty string of
/// digits whose value is the number.
proof fn lemma_decimal_text_digits(n: int)
    requires
        n >= 0,
    ensures
        decimal_text(n).len() > 0,
        all_digits(decimal_text(n)),
        digits_value(decimal_text(n)) == n,
    decreases n,
{
    let s = decimal_text(n);
    lemma_digit_char_value(n % 10);
    if n < 10 {
        assert(s == seq![digit_char(n)]);
        assert(s.drop_last() =~= Seq::<char>::empty());
        assert(s.last() == digit_char(n));
        assert(digits_value(s) == digits_value(s.drop_last()) * 10 + (s.last() as int - '0' as int));
    } else {
        lemma_decimal_text_digits(n / 10);
        let d = digit_char(n % 10);
        assert(s == decimal_text(n / 10) + seq![d]);
        assert(s.drop_last() =~= decimal_text(n / 10));
        assert(s.last() == d);
        assert(digits_value(s) == digits_value(s.drop_last()) * 10 + (s.last() as int - '0' as int));
        assert((n / 10) * 10 + n % 10 == n);
        assert forall|i: int| 0 <= i < s.len() implies is_digit(#[trigger] s[i]) by {
            if i < s.len() - 1 {
                assert(s[i] == decimal_text(n / 10)[i]);
            }
        }
    }
}

/// Reading back the decimal text of an `i64` gives the number: what
/// `i64_to_string` writes (a shown timestamp, say), `parse_i64` reads.
pub proof fn law_decimal_round_trip(n: i64)
    ensures
        decimal_i64(decimal_text(n as int)) == Some(n),
{
    if n >= 0 {
        lemma_decimal_text_digits(n as int);
        let s = decimal_text(n as int);
        assert(is_digit(s[0]));
    } else {
        lemma_decimal_text_digits(-(n as int));
        let s = decimal_text(n as int);
        assert(s == seq!['-'] + decimal_text(-(n as int)));
        assert(s.drop_first() =~= decimal_text(-(n as int)));
    }
}

} // verus!
