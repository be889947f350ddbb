//! Verified decimal parsing for the numeric configuration fields: the
//! keep-alive interval (unsigned seconds) and the QoS level (signed).

use vstd::prelude::*;

verus! {

/// The character is a decimal digit.
pub open spec fn is_digit(c: char) -> bool {
    '0' <= c && c <= '9'
}

/// Every character of the sequence is a decimal digit.
pub open spec fn all_digits(s: Seq<char>) -> bool {
    forall|i: int| 0 <= i < s.len() ==> is_digit(#[trigger] s[i])
}

/// The value of a digit character.
pub open spec fn digit_value(c: char) -> int {
    c as int - '0' as int
}

/// The number that a digit sequence denotes in base ten.
pub open spec fn dec_value(s: Seq<char>) -> int
    decreases s.len(),
{
    if s.len() == 0 {
        0
    } else {
        dec_value(s.drop_last()) * 10 + digit_value(s.last())
    }
}

/// The string is a well-formed unsigned decimal numeral that fits in `u64`.
pub open spec fn u64_numeral(s: Seq<char>) -> bool {
    s.len() > 0 && all_digits(s) && dec_value(s) <= u64::MAX
}

/// The string is a well-formed signed decimal numeral that fits in `i32`:
/// an optional leading minus sign followed by at least one digit.
pub open spec fn i32_numeral(s: Seq<char>) -> bool {
    if s.len() >= 1 && s[0] == '-' {
        let digits = s.subrange(1, s.len() as int);
        digits.len() > 0 && all_digits(digits) && -dec_value(digits) >= i32::MIN
    } else {
        s.len() > 0 && all_digits(s) && dec_value(s) <= i32::MAX
    }
}

/// The number that a signed numeral denotes.
pub open spec fn i32_value(s: Seq<char>) -> int {
    if s.len() >= 1 && s[0] == '-' {
        -dec_value(s.subrange(1, s.len() as int))
    } else {
        dec_value(s)
    }
}

/// A digit sequence denotes a non-negative number.
proof fn lemma_dec_value_nonneg(s: Seq<char>)
    requires
        all_digits(s),
    ensures
        dec_value(s) >= 0,
    decreases s.len(),
{
    if s.len() > 0 {
        assert(all_digits(s.drop_last())) by {
            assert(forall|i: int|
                0 <= i < s.len() - 1 ==> s.drop_last()[i] == #[trigger] s[i]);
        }
        lemma_dec_value_nonneg(s.drop_last());
    }
}

/// Extending a digit sequence by further digits never decreases its value.
proof fn lemma_dec_value_prefix_le(s: Seq<char>, i: int, j: int)
    requires
        all_digits(s),
        0 <= i <= j <= s.len(),
    ensures
        dec_value(s.subrange(0, i)) <= dec_value(s.subrange(0, j)),
    decreases j - i,
{
    if i < j {
        lemma_dec_value_prefix_le(s, i, j - 1);
        let p = s.subrange(0, j);
        assert(p.drop_last() =~= s.subrange(0, j - 1));
        assert(all_digits(s.subrange(0, j - 1))) by {
            assert(forall|k: int|
                0 <= k < j - 1 ==> s.subrange(0, j - 1)[k] == #[trigger] s[k]);
        }
        lemma_dec_value_nonneg(s.subrange(0, j - 1));
        assert(is_digit(s[j - 1]));
        assert(dec_value(p) == dec_value(s.subrange(0, j - 1)) * 10 + digit_value(p.last()));
    }
}

/// Parses an unsigned decimal numeral. Returns the denoted number exactly
/// when the whole string is made of digits and the number fits in `u64`,
/// and nothing otherwise.
pub fn parse_u64(s: &str) -> (r: Option<u64>)
    ensures
        r is Some <==> u64_numeral(s@),
        r is Some ==> r->0 == dec_value(s@),
{
    let n = s.unicode_len();
    if n == 0 {
        return None;
    }
    let mut val: u64 = 0;
    let mut i: usize = 0;
    while i < n
        invariant
            0 < n == s@.len(),
            0 <= i <= n,
            all_digits(s@.subrange(0, i as int)),
            val == dec_value(s@.subrange(0, i as int)),
        decreases n - i,
    {
        let c = s.get_char(i);
        if !('0' <= c && c <= '9') {
            assert(!all_digits(s@)) by {
                assert(s@[i as int] == c && !is_digit(c));
            }
            return None;
        }
        let d: u64 = (c as u32 as u64) - 48;
        let ghost prefix = s@.subrange(0, i as int);
        let ghost next = s@.subrange(0, i as int + 1);
        assert(next.drop_last() =~= prefix && next.last() == c);
        if val > u64::MAX / 10 || d > u64::MAX - val * 10 {
            // The digits seen so far already denote a number past u64::MAX,
            // and further digits only grow it.
            assert(dec_value(next) > u64::MAX);
            assert(all_digits(s@) ==> dec_value(s@) > u64::MAX) by {
                if all_digits(s@) {
                    lemma_dec_value_prefix_le(s@, i as int + 1, n as int);
                    assert(s@.subrange(0, n as int) =~= s@);
                }
            }
            return None;
        }
        val = val * 10 + d;
        i = i + 1;
    }
    assert(s@.subrange(0, n as int) =~= s@);
    Some(val)
}

/// Parses a signed decimal numeral. Returns the denoted number exactly
/// when the string is an optional minus sign followed by digits and the
/// number fits in `i32`, and nothing otherwise.
pub fn parse_i32(s: &str) -> (r: Option<i32>)
    ensures
        r is Some <==> i32_numeral(s@),
        r is Some ==> r->0 == i32_value(s@),
{
    let n = s.unicode_len();
    if n >= 1 && s.get_char(0) == '-' {
        let digits = s.substring_char(1, n);
        match parse_u64(digits) {
            Some(v) => {
                if v > 2147483648 {
                    proof {
                        if i32_numeral(s@) {
                            assert(-dec_value(s@.subrange(1, n as int)) >= i32::MIN);
                        }
                    }
                    None
                } else if v == 2147483648 {
                    Some(i32::MIN)
                } else {
                    Some(-(v as i32))
                }
            },
            None => {
                proof {
                    if i32_numeral(s@) {
                        let ds = s@.subrange(1, n as int);
                        lemma_dec_value_nonneg(ds);
                        assert(dec_value(ds) <= 2147483648 < u64::MAX);
                        assert(u64_numeral(ds));
                    }
                }
                None
            },
        }
    } else {
        match parse_u64(s) {
            Some(v) => {
                if v > 2147483647 {
                    None
                } else {
                    Some(v as i32)
                }
            },
            None => None,
        }
    }
}

} // verus!
