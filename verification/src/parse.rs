//! Decimal parsing of call arguments handed over as strings: an
//! optional sign followed by one or more digits, with
//! exact range checks for the target value type. Used by
//! `Instance::invoke`, which must reject a bad argument before any
//! guest code executes.
use vstd::prelude::*;

use crate::types::Val;
use crate::types::ValType;

verus! {

/// Code point of the minus sign.
pub open spec fn is_minus_sign(c: char) -> bool {
    c as int == 45
}

/// Code point of the plus sign.
pub open spec fn is_plus_sign(c: char) -> bool {
    c as int == 43
}

/// Decimal digit.
pub open spec fn is_digit(c: char) -> bool {
    48 <= c as int <= 57
}

/// Every character is a decimal digit.
pub open spec fn all_digits(s: Seq<char>) -> bool {
    forall|i: int| 0 <= i < s.len() ==> is_digit(#[trigger] s[i])
}

/// Value of a digit string, most significant first.
pub open spec fn digits_val(s: Seq<char>) -> int
    decreases s.len(),
{
    if s.len() == 0 {
        0
    } else {
        digits_val(s.drop_last()) * 10 + (s.last() as int - 48)
    }
}

/// The string is a well-formed decimal integer literal: an optional
/// sign followed by one or more digits.
pub open spec fn int_literal_parses(s: Seq<char>) -> bool {
    if s.len() >= 1 && (is_minus_sign(s[0]) || is_plus_sign(s[0])) {
        s.len() >= 2 && all_digits(s.skip(1))
    } else {
        s.len() >= 1 && all_digits(s)
    }
}

/// Mathematical value of a well-formed decimal integer literal.
pub open spec fn int_literal_val(s: Seq<char>) -> int {
    if s.len() >= 1 && is_minus_sign(s[0]) {
        -digits_val(s.skip(1))
    } else if s.len() >= 1 && is_plus_sign(s[0]) {
        digits_val(s.skip(1))
    } else {
        digits_val(s)
    }
}

/// The string parses as a value of type `ty`: well-formed and within
/// that type's range.
pub open spec fn parses_as(s: Seq<char>, ty: ValType) -> bool {
    &&& int_literal_parses(s)
    &&& match ty {
        ValType::I32 => -0x8000_0000 <= int_literal_val(s) <= 0x7fff_ffff,
        ValType::I64 => -0x8000_0000_0000_0000 <= int_literal_val(s) <= 0x7fff_ffff_ffff_ffff,
    }
}

/// The parsed value of a string under type `ty`.
pub open spec fn parsed_val(s: Seq<char>, ty: ValType) -> Val {
    match ty {
        ValType::I32 => Val::I32(int_literal_val(s) as i32),
        ValType::I64 => Val::I64(int_literal_val(s) as i64),
    }
}

/// A digit string's value is never negative.
proof fn lemma_digits_val_nonneg(s: Seq<char>)
    requires
        all_digits(s),
    ensures
        digits_val(s) >= 0,
    decreases s.len(),
{
    if s.len() > 0 {
        assert(all_digits(s.drop_last()));
        lemma_digits_val_nonneg(s.drop_last());
    }
}

/// Dropping trailing digits never increases the value.
proof fn lemma_digits_prefix_le(s: Seq<char>, k: int)
    requires
        all_digits(s),
        0 <= k <= s.len(),
    ensures
        digits_val(s.take(k)) <= digits_val(s),
    decreases s.len() - k,
{
    if k < s.len() {
        let t = s.take(k + 1);
        assert(t.drop_last() =~= s.take(k));
        assert(all_digits(t));
        assert(digits_val(t) == digits_val(s.take(k)) * 10 + (t.last() as int - 48));
        assert(all_digits(s.take(k)));
        lemma_digits_val_nonneg(s.take(k));
        lemma_digits_prefix_le(s, k + 1);
    } else {
        assert(s.take(k) =~= s);
    }
}

/// Largest accumulator for which one more digit cannot overflow the
/// cutoff of 2^63.
const DIGIT_ACC_BOUND: u64 = 1844674407370955160;

/// Parse the suffix of `s` starting at `from` as a digit string.
/// Returns its value when it is one and the value is at most 2^63,
/// the largest magnitude any supported value type can need.
fn parse_digits(s: &str, from: usize) -> (r: Option<u64>)
    requires
        from <= s@.len(),
    ensures
        match r {
            Some(v) => {
                &&& s@.len() > from
                &&& all_digits(s@.skip(from as int))
                &&& v as int == digits_val(s@.skip(from as int))
                &&& v <= 0x8000_0000_0000_0000u64
            },
            None => !(s@.len() > from && all_digits(s@.skip(from as int)) && digits_val(
                s@.skip(from as int),
            ) <= 0x8000_0000_0000_0000),
        },
{
    let n = s.unicode_len();
    if from >= n {
        return None;
    }
    let ghost t = s@.skip(from as int);
    let mut acc: u64 = 0;
    let mut i: usize = from;
    while i < n
        invariant
            from <= i <= n,
            n == s@.len(),
            t == s@.skip(from as int),
            all_digits(t.take(i - from)),
            acc as int == digits_val(t.take(i - from)),
            acc <= 0x8000_0000_0000_0000u64,
        decreases n - i,
    {
        let c = s.get_char(i);
        let u = c as u32;
        if u < 48 || u > 57 {
            proof {
                assert(t[i - from] == s@[i as int]);
                assert(!is_digit(t[i - from]));
                assert(!all_digits(t));
            }
            return None;
        }
        let d: u64 = (u - 48) as u64;
        proof {
            assert(t.take(i - from + 1).drop_last() =~= t.take(i - from));
            assert(t.take(i - from + 1).last() == s@[i as int]);
        }
        if acc > DIGIT_ACC_BOUND || acc * 10 > 0x8000_0000_0000_0000u64 - d {
            // The prefix up to and including this digit already
            // exceeds the cutoff, and appending digits never shrinks
            // the value.
            proof {
                assert(digits_val(t.take(i - from + 1)) > 0x8000_0000_0000_0000);
                if all_digits(t) {
                    lemma_digits_prefix_le(t, i - from + 1);
                }
            }
            return None;
        }
        acc = acc * 10 + d;
        i = i + 1;
    }
    proof {
        assert(t.take(i - from) =~= t);
    }
    Some(acc)
}

/// Parse a decimal i32. `Some` exactly when the string is a
/// well-formed literal whose value fits in 32 bits.
pub fn parse_i32(s: &str) -> (r: Option<i32>)
    ensures
        match r {
            Some(v) => parses_as(s@, ValType::I32) && v as int == int_literal_val(s@),
            None => !parses_as(s@, ValType::I32),
        },
{
    let n = s.unicode_len();
    if n == 0 {
        return None;
    }
    let c0 = s.get_char(0);
    if (c0 as u32) == 45 {
        match parse_digits(s, 1) {
            Some(v) => {
                if v > 0x8000_0000u64 {
                    proof {
                        lemma_digits_val_nonneg(s@.skip(1));
                    }
                    None
                } else {
                    proof {
                        assert(is_minus_sign(s@[0]));
                        assert(int_literal_parses(s@));
                        lemma_digits_val_nonneg(s@.skip(1));
                        assert(int_literal_val(s@) == -(v as int));
                        assert(-0x8000_0000 <= int_literal_val(s@) <= 0x7fff_ffff);
                    }
                    Some(((0i64 - (v as i64)) as i32))
                }
            },
            None => None,
        }
    } else if (c0 as u32) == 43 {
        match parse_digits(s, 1) {
            Some(v) => {
                if v > 0x7fff_ffffu64 {
                    None
                } else {
                    Some(v as i32)
                }
            },
            None => None,
        }
    } else {
        match parse_digits(s, 0) {
            Some(v) => {
                if v > 0x7fff_ffffu64 {
                    proof {
                        assert(s@.skip(0) =~= s@);
                    }
                    None
                } else {
                    proof {
                        assert(s@.skip(0) =~= s@);
                    }
                    Some(v as i32)
                }
            },
            None => {
                proof {
                    assert(s@.skip(0) =~= s@);
                }
                None
            },
        }
    }
}

/// Parse a decimal i64. `Some` exactly when the string is a
/// well-formed literal whose value fits in 64 bits.
pub fn parse_i64(s: &str) -> (r: Option<i64>)
    ensures
        match r {
            Some(v) => parses_as(s@, ValType::I64) && v as int == int_literal_val(s@),
            None => !parses_as(s@, ValType::I64),
        },
{
    let n = s.unicode_len();
    if n == 0 {
        return None;
    }
    let c0 = s.get_char(0);
    if (c0 as u32) == 45 {
        match parse_digits(s, 1) {
            Some(v) => {
                if v == 0x8000_0000_0000_0000u64 {
                    Some(i64::MIN)
                } else {
                    Some(0i64 - (v as i64))
                }
            },
            None => None,
        }
    } else if (c0 as u32) == 43 {
        match parse_digits(s, 1) {
            Some(v) => {
                if v > 0x7fff_ffff_ffff_ffffu64 {
                    proof {
                        lemma_digits_val_nonneg(s@.skip(1));
                    }
                    None
                } else {
                    Some(v as i64)
                }
            },
            None => None,
        }
    } else {
        match parse_digits(s, 0) {
            Some(v) => {
                if v > 0x7fff_ffff_ffff_ffffu64 {
                    proof {
                        assert(s@.skip(0) =~= s@);
                        lemma_digits_val_nonneg(s@);
                    }
                    None
                } else {
                    proof {
                        assert(s@.skip(0) =~= s@);
                    }
                    Some(v as i64)
                }
            },
            None => {
                proof {
                    assert(s@.skip(0) =~= s@);
                }
                None
            },
        }
    }
}

/// Parse one argument string as a value of the given parameter type.
pub fn parse_arg(s: &str, ty: ValType) -> (r: Option<Val>)
    ensures
        match r {
            Some(v) => parses_as(s@, ty) && v == parsed_val(s@, ty) && v.ty_spec() == ty,
            None => !parses_as(s@, ty),
        },
{
    match ty {
        ValType::I32 => {
            match parse_i32(s) {
                Some(v) => Some(Val::I32(v)),
                None => None,
            }
        },
        ValType::I64 => {
            match parse_i64(s) {
                Some(v) => Some(Val::I64(v)),
                None => None,
            }
        },
    }
}

} // verus!
