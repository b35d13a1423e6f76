//! Parsing octal permission strings, as `chmod` accepts them.
//!
//! A permission string is an optional leading `+`, then one or more octal
//! digits; its value must fit in 32 bits. This matches base-8 unsigned
//! integer parsing: an empty string, a stray sign, a non-octal digit or an
//! overflowing value are all rejected.

use vstd::prelude::*;

verus! {

/// Whether `c` is an octal digit, `'0'` through `'7'`.
pub open spec fn oct_digit(c: char) -> bool {
    48 <= c as u32 <= 55
}

/// The numeric value of the octal digit `c`.
pub open spec fn oct_digit_val(c: char) -> nat
    recommends
        oct_digit(c),
{
    (c as u32 - 48) as nat
}

/// Whether every character of `s` is an octal digit.
pub open spec fn oct_digits(s: Seq<char>) -> bool {
    forall|i: int| 0 <= i < s.len() ==> oct_digit(s[i])
}

/// The value of `s` read as a base-8 numeral.
pub open spec fn oct_value(s: Seq<char>) -> nat
    decreases s.len(),
{
    if s.len() == 0 {
        0
    } else {
        oct_value(s.drop_last()) * 8 + oct_digit_val(s.last())
    }
}

/// The numeral's digits: `s` with one optional leading `+` removed.
pub open spec fn sign_skipped(s: Seq<char>) -> Seq<char> {
    if s.len() > 0 && s[0] == '+' {
        s.subrange(1, s.len() as int)
    } else {
        s
    }
}

/// The permission mode a string denotes: `None` when the string is not a
/// valid octal numeral or its value does not fit in 32 bits.
pub open spec fn mode_of(s: Seq<char>) -> Option<u32> {
    let body = sign_skipped(s);
    if body.len() > 0 && oct_digits(body) && oct_value(body) <= u32::MAX {
        Some(oct_value(body) as u32)
    } else {
        None
    }
}

/// A numeral's value never drops when digits are appended.
proof fn lemma_oct_value_prefix(s: Seq<char>, k: int)
    requires
        0 <= k <= s.len(),
    ensures
        oct_value(s) >= oct_value(s.subrange(0, k)),
    decreases s.len() - k,
{
    if k == s.len() {
        assert(s.subrange(0, k) =~= s);
    } else {
        let t = s.subrange(0, s.len() - 1);
        assert(s.drop_last() == t);
        lemma_oct_value_prefix(t, k);
        assert(t.subrange(0, k) =~= s.subrange(0, k));
    }
}

/// Parse a permission string as a base-8 `u32`.
pub fn parse_octal_u32(s: &str) -> (r: Option<u32>)
    ensures
        r == mode_of(s@),
{
    let n: usize = s.unicode_len();
    let mut i: usize = 0;
    if n > 0 && s.get_char(0) == '+' {
        i = 1;
    }
    let ghost start = i as int;
    let ghost body = sign_skipped(s@);
    proof {
        assert(body =~= s@.subrange(start, n as int));
    }
    if i >= n {
        return None;
    }
    let mut acc: u64 = 0;
    while i < n
        invariant
            0 <= start <= i <= n,
            n == s@.len(),
            body == sign_skipped(s@),
            body == s@.subrange(start, n as int),
            oct_digits(body.subrange(0, i - start)),
            acc == oct_value(body.subrange(0, i - start)),
            acc <= u32::MAX,
        decreases n - i,
    {
        let c = s.get_char(i);
        let u: u32 = c as u32;
        if !(48 <= u && u <= 55) {
            assert(!oct_digit(body[i - start]));
            return None;
        }
        let d: u64 = (u - 48) as u64;
        proof {
            let ghost p = body.subrange(0, i - start);
            let ghost q = body.subrange(0, i + 1 - start);
            assert(q.drop_last() =~= p);
            assert(q.last() == body[i - start]);
        }
        acc = acc * 8 + d;
        i = i + 1;
        if acc > u32::MAX as u64 {
            proof {
                lemma_oct_value_prefix(body, i - start);
                if oct_digits(body) {
                    assert(oct_value(body) >= oct_value(body.subrange(0, i - start)));
                }
            }
            return None;
        }
    }
    proof {
        assert(body.subrange(0, n - start) =~= body);
    }
    Some(acc as u32)
}

} // verus!
