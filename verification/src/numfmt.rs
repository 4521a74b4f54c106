//! Integers written in decimal: reading them from text the way `str::parse`
//! does, and writing them the way `Display` does.
use crate::strings::push_char;
use vstd::prelude::*;

verus! {

/// Whether `c` is an ASCII decimal digit.
pub open spec fn is_digit(c: char) -> bool {
    48 <= (c as int) <= 57
}

/// The value of an ASCII decimal digit.
pub open spec fn digit_value(c: char) -> int {
    (c as int) - 48
}

/// The digit that stands for `d`, for `0 <= d < 10`.
pub open spec fn digit_char(d: int) -> char {
    (d + 48) as char
}

/// Whether `s` is a non-empty run of decimal digits.
pub open spec fn all_digits(s: Seq<char>) -> bool {
    s.len() > 0 && forall|i: int| 0 <= i < s.len() ==> is_digit(#[trigger] s[i])
}

/// The value of a run of decimal digits, most significant first.
pub open spec fn digits_value(s: Seq<char>) -> int
    decreases s.len(),
{
    if s.len() == 0 {
        0
    } else {
        digits_value(s.drop_last()) * 10 + digit_value(s.last())
    }
}

/// The value of an unsigned integer's text: an optional '+', then digits.
pub open spec fn unsigned_text_value(s: Seq<char>) -> Option<int> {
    let body = if s.len() > 0 && s[0] == '+' {
        s.drop_first()
    } else {
        s
    };
    if all_digits(body) {
        Some(digits_value(body))
    } else {
        None
    }
}

/// The value of a signed integer's text: an optional '+' or '-', then
/// digits.
pub open spec fn signed_text_value(s: Seq<char>) -> Option<int> {
    if s.len() > 0 && s[0] == '-' {
        let body = s.drop_first();
        if all_digits(body) {
            Some(-digits_value(body))
        } else {
            None
        }
    } else {
        unsigned_text_value(s)
    }
}

/// What `str::parse::<u64>` gives: the value where the text is one and it
/// fits.
pub open spec fn spec_parse_u64(s: Seq<char>) -> Option<u64> {
    match unsigned_text_value(s) {
        Some(v) => if v <= u64::MAX {
            Some(v as u64)
        } else {
            None
        },
        None => None,
    }
}

/// What `str::parse::<i32>` gives: the value where the text is one and it
/// fits.
pub open spec fn spec_parse_i32(s: Seq<char>) -> Option<i32> {
    match signed_text_value(s) {
        Some(v) => if i32::MIN <= v <= i32::MAX {
            Some(v as i32)
        } else {
            None
        },
        None => None,
    }
}

/// The decimal digits of `n`, without leading zeros ("0" for zero).
pub open spec fn decimal_digits(n: nat) -> Seq<char>
    decreases n,
{
    if n < 10 {
        seq![digit_char(n as int)]
    } else {
        decimal_digits(n / 10).push(digit_char((n % 10) as int))
    }
}

/// The text of a signed integer: a '-' for a negative one, then the digits
/// of its magnitude.
pub open spec fn signed_text(n: int) -> Seq<char> {
    if n < 0 {
        seq!['-'] + decimal_digits((-n) as nat)
    } else {
        decimal_digits(n as nat)
    }
}

/// A run of digits is worth no less than any prefix of it.
proof fn lemma_digits_value_prefix(s: Seq<char>, k: int)
    requires
        0 <= k <= s.len(),
        forall|i: int| 0 <= i < s.len() ==> is_digit(#[trigger] s[i]),
    ensures
        0 <= digits_value(s.take(k)) <= digits_value(s),
    decreases s.len() - k,
{
    if k < s.len() {
        lemma_digits_value_prefix(s, k + 1);
        assert(s.take(k + 1).drop_last() =~= s.take(k));
        assert(is_digit(s[k]));
    } else {
        assert(s.take(k) =~= s);
        lemma_digits_value_nonneg(s);
    }
}

/// A run of digits is worth at least zero.
proof fn lemma_digits_value_nonneg(s: Seq<char>)
    requires
        forall|i: int| 0 <= i < s.len() ==> is_digit(#[trigger] s[i]),
    ensures
        digits_value(s) >= 0,
    decreases s.len(),
{
    if s.len() > 0 {
        assert(is_digit(s[s.len() - 1]));
        lemma_digits_value_nonneg(s.drop_last());
    }
}

/// Reads the digits of `s` from `start` on, refusing a value above `limit`.
fn digits_up_to(s: &str, start: usize, limit: u64) -> (r: Option<u64>)
    requires
        start <= s@.len(),
        limit >= 9,
    ensures
        all_digits(s@.skip(start as int)) && digits_value(s@.skip(start as int)) <= limit ==> r
            == Some(digits_value(s@.skip(start as int)) as u64),
        !(all_digits(s@.skip(start as int)) && digits_value(s@.skip(start as int)) <= limit)
            ==> r is None,
{
    let len = s.unicode_len();
    let ghost body = s@.skip(start as int);
    if start >= len {
        return None;
    }
    let mut i: usize = start;
    let mut value: u64 = 0;
    while i < len
        invariant
            len == s@.len(),
            start < len,
            start <= i <= len,
            body == s@.skip(start as int),
            forall|j: int| 0 <= j < i - start ==> is_digit(#[trigger] body[j]),
            value == digits_value(body.take(i - start)),
            value <= limit,
            limit >= 9,
        decreases len - i,
    {
        let c = s.get_char(i);
        proof {
            assert(body[i - start] == c);
            assert(body.take(i - start + 1).drop_last() =~= body.take(i - start));
        }
        if !('0' <= c && c <= '9') {
            proof {
                assert(!is_digit(body[i - start]));
            }
            return None;
        }
        let d: u64 = ((c as u32) - 48) as u64;
        if value > (limit - d) / 10 {
            proof {
                assert(forall|j: int| 0 <= j <= i - start ==> is_digit(#[trigger] body[j]));
                if all_digits(body) {
                    lemma_digits_value_prefix(body, i - start + 1);
                }
                assert(value * 10 + d > limit) by (nonlinear_arith)
                    requires
                        value > (limit - d) / 10,
                        d <= limit || d > limit,
                        d <= 9,
                        limit >= 0,
                ;
            }
            return None;
        }
        proof {
            assert(value * 10 + d <= limit) by (nonlinear_arith)
                requires
                    value <= (limit - d) / 10,
                    d <= limit,
            ;
        }
        value = value * 10 + d;
        i += 1;
    }
    proof {
        assert(body.take(len - start) =~= body);
    }
    Some(value)
}

/// `str::parse::<u64>`: an optional '+', then decimal digits whose value
/// fits in 64 bits.
pub fn parse_u64(s: &str) -> (r: Option<u64>)
    ensures
        r == spec_parse_u64(s@),
{
    let start: usize = if s.unicode_len() > 0 && s.get_char(0) == '+' {
        1
    } else {
        0
    };
    proof {
        assert(s@.skip(0) =~= s@);
        if s@.len() > 0 {
            assert(s@.skip(1) =~= s@.drop_first());
        }
    }
    digits_up_to(s, start, u64::MAX)
}

/// `str::parse::<i32>`: an optional '+' or '-', then decimal digits whose
/// signed value fits in 32 bits.
pub fn parse_i32(s: &str) -> (r: Option<i32>)
    ensures
        r == spec_parse_i32(s@),
{
    proof {
        assert(s@.skip(0) =~= s@);
        if s@.len() > 0 {
            assert(s@.skip(1) =~= s@.drop_first());
        }
    }
    if s.unicode_len() > 0 && s.get_char(0) == '-' {
        match digits_up_to(s, 1, 2147483648) {
            Some(v) => {
                proof {
                    lemma_digits_value_nonneg(s@.skip(1));
                }
                assert(v <= 2147483648);
                let r: i64 = 0 - (v as i64);
                assert(signed_text_value(s@) == Some(r as int));
                Some(r as i32)
            },
            None => None,
        }
    } else {
        let start: usize = if s.unicode_len() > 0 && s.get_char(0) == '+' {
            1
        } else {
            0
        };
        match digits_up_to(s, start, 2147483647) {
            Some(v) => {
                proof {
                    lemma_digits_value_nonneg(s@.skip(start as int));
                }
                assert(v <= 2147483647);
                assert(signed_text_value(s@) == Some(v as int));
                Some(v as i32)
            },
            None => {
                proof {
                    if all_digits(s@.skip(start as int)) {
                        lemma_digits_value_nonneg(s@.skip(start as int));
                    }
                }
                None
            },
        }
    }
}

/// The digit character for `d`.
fn digit_to_char(d: u64) -> (r: char)
    requires
        d < 10,
    ensures
        r == digit_char(d as int),
{
    ((d + 48) as u8) as char
}

/// Appends the decimal digits of `n` to `out`.
fn push_digits(n: u64, out: &mut String)
    ensures
        final(out)@ == old(out)@ + decimal_digits(n as nat),
    decreases n,
{
    if n >= 10 {
        push_digits(n / 10, out);
    }
    push_char(out, digit_to_char(n % 10));
    proof {
        if n >= 10 {
            assert(old(out)@ + decimal_digits((n / 10) as nat) + seq![digit_char((n % 10) as int)]
                =~= old(out)@ + decimal_digits(n as nat));
        } else {
            assert(old(out)@ + seq![digit_char((n % 10) as int)] =~= old(out)@ + decimal_digits(
                n as nat,
            ));
        }
    }
}

/// The decimal text of `n`, as `Display` writes it.
pub fn format_u64(n: u64) -> (r: String)
    ensures
        r@ == decimal_digits(n as nat),
{
    let mut out = String::new();
    push_digits(n, &mut out);
    proof {
        assert(Seq::<char>::empty() + decimal_digits(n as nat) =~= decimal_digits(n as nat));
    }
    out
}

/// The decimal text of `n`, with a '-' where it is negative, as `Display`
/// writes it.
pub fn format_i32(n: i32) -> (r: String)
    ensures
        r@ == signed_text(n as int),
{
    let mut out = String::new();
    if n < 0 {
        push_char(&mut out, '-');
        let m: i64 = 0 - (n as i64);
        push_digits(m as u64, &mut out);
    } else {
        push_digits(n as u64, &mut out);
        proof {
            assert(Seq::<char>::empty() + decimal_digits(n as nat) =~= decimal_digits(n as nat));
        }
    }
    out
}

/// The digits of a number are digits, and are worth the number.
pub proof fn lemma_decimal_digits(n: nat)
    ensures
        all_digits(decimal_digits(n)),
        digits_value(decimal_digits(n)) == n,
        decimal_digits(n)[0] != '+' && decimal_digits(n)[0] != '-',
    decreases n,
{
    assert(digit_value(digit_char((n % 10) as int)) == n % 10);
    let s = decimal_digits(n);
    if n >= 10 {
        lemma_decimal_digits(n / 10);
        assert(s.drop_last() =~= decimal_digits(n / 10));
        assert(s.last() == digit_char((n % 10) as int));
        assert(s[0] == decimal_digits(n / 10)[0]);
        assert(n == (n / 10) * 10 + n % 10);
        assert(digits_value(s) == digits_value(s.drop_last()) * 10 + digit_value(s.last()));
    } else {
        assert(s.drop_last() =~= Seq::<char>::empty());
        assert(s.last() == digit_char(n as int));
        assert(digits_value(Seq::<char>::empty()) == 0);
        assert(digits_value(s) == digits_value(s.drop_last()) * 10 + digit_value(s.last()));
    }
}

/// Writing an unsigned number and reading it back gives the number.
pub proof fn law_u64_text_round_trip(n: u64)
    ensures
        spec_parse_u64(decimal_digits(n as nat)) == Some(n),
{
    lemma_decimal_digits(n as nat);
}

/// Writing a 32-bit signed number and reading it back gives the number.
pub proof fn law_i32_text_round_trip(n: i32)
    ensures
        spec_parse_i32(signed_text(n as int)) == Some(n),
{
    if n < 0 {
        lemma_decimal_digits((-n) as nat);
        let s = signed_text(n as int);
        assert(s.drop_first() =~= decimal_digits((-n) as nat));
    } else {
        lemma_decimal_digits(n as nat);
    }
}

/// The text of a signed number is not empty and holds only digits and a
/// leading '-', and ends in a digit.
pub proof fn lemma_signed_text_chars(n: int)
    ensures
        signed_text(n).len() > 0,
        is_digit(signed_text(n).last()),
        forall|i: int|
            0 <= i < signed_text(n).len() ==> is_digit(#[trigger] signed_text(n)[i])
                || signed_text(n)[i] == '-',
{
    if n < 0 {
        lemma_decimal_digits((-n) as nat);
        let d = decimal_digits((-n) as nat);
        let t = signed_text(n);
        assert forall|i: int| 0 <= i < t.len() implies is_digit(#[trigger] t[i]) || t[i] == '-' by {
            if i > 0 {
                assert(t[i] == d[i - 1]);
            }
        }
        assert(t.last() == d.last());
    } else {
        lemma_decimal_digits(n as nat);
        let d = decimal_digits(n as nat);
        assert(is_digit(d[d.len() - 1]));
    }
}

} // verus!
