//! Validation of the panel's input fields.
//!
//! A number field accepts an optionally signed run of digits within the
//! field's range; everything else is flagged so the panel can mark the
//! field. Address fields need the socket-address parser of the runtime
//! shell, so the core does not check them.

use vstd::prelude::*;

use crate::config::{dec_val, is_dec_digit, is_dec_string, lemma_dec_val_prefix_le};

verus! {

/// What an input field holds.
#[derive(Debug, Clone, Copy, PartialEq, Eq, Structural)]
pub enum InputFieldDataType {
    Text,
    Number { min: i128, max: i128 },
    Address,
}

/// An optionally signed, non-empty run of digits.
pub open spec fn is_signed_dec_string(s: Seq<char>) -> bool {
    if s.len() > 0 && (s[0] == '-' || s[0] == '+') {
        is_dec_string(s.drop_first())
    } else {
        is_dec_string(s)
    }
}

/// The value of an optionally signed run of digits.
pub open spec fn signed_dec_val(s: Seq<char>) -> int {
    if s.len() > 0 && s[0] == '-' {
        -(dec_val(s.drop_first()) as int)
    } else if s.len() > 0 && s[0] == '+' {
        dec_val(s.drop_first()) as int
    } else {
        dec_val(s) as int
    }
}

/// Outcome of checking a number field.
#[derive(Debug, Clone, Copy, PartialEq, Eq, Structural)]
pub enum NumberInputCheck {
    /// Nothing typed yet; the field is reset, not flagged.
    Empty,
    /// A number within the field's range.
    InRange(i128),
    /// A number, but outside the field's range; the field is flagged.
    OutOfRange(i128),
    /// Not a number at all (or one beyond what the machine can hold).
    NotANumber,
}

/// What checking the text of a number field must yield.
pub open spec fn spec_check_number(min: i128, max: i128, s: Seq<char>) -> NumberInputCheck {
    if s.len() == 0 {
        NumberInputCheck::Empty
    } else if !(is_signed_dec_string(s) && i128::MIN <= signed_dec_val(s) <= i128::MAX) {
        NumberInputCheck::NotANumber
    } else if min <= signed_dec_val(s) && signed_dec_val(s) <= max {
        NumberInputCheck::InRange(signed_dec_val(s) as i128)
    } else {
        NumberInputCheck::OutOfRange(signed_dec_val(s) as i128)
    }
}

/// The sign-stripped tail carries the whole judgement: validity and value.
proof fn lemma_tail_facts(s: Seq<char>, has_sign: bool, neg: bool, t: Seq<char>)
    requires
        s.len() > 0,
        neg == (s[0] == '-'),
        has_sign == (s[0] == '-' || s[0] == '+'),
        t == s.skip(
            if has_sign {
                1int
            } else {
                0int
            },
        ),
    ensures
        is_signed_dec_string(s) == is_dec_string(t),
        signed_dec_val(s) == if neg {
            -(dec_val(t) as int)
        } else {
            dec_val(t) as int
        },
{
    if has_sign {
        assert(s.skip(1int) =~= s.drop_first());
    } else {
        assert(s.skip(0int) =~= s);
    }
}

/// Parse an optionally signed decimal number that fits the machine's widest
/// signed integer.
pub fn parse_i128(s: &str) -> (r: Option<i128>)
    ensures
        r is Some <==> is_signed_dec_string(s@) && i128::MIN <= signed_dec_val(s@) <= i128::MAX,
        r matches Some(v) ==> v == signed_dec_val(s@),
{
    let n = s.unicode_len();
    if n == 0 {
        return None;
    }
    let c0 = s.get_char(0);
    let neg = c0 == '-';
    let has_sign = neg || c0 == '+';
    let start: usize = if has_sign {
        1
    } else {
        0
    };
    let ghost t = s@.skip(start as int);
    if start == n {
        // A bare sign has no digits behind it.
        proof {
            lemma_tail_facts(s@, has_sign, neg, t);
            assert(t.len() == 0);
        }
        return None;
    }
    let limit: u128 = if neg {
        170141183460469231731687303715884105728u128
    } else {
        170141183460469231731687303715884105727u128
    };
    let mut i: usize = start;
    let mut acc: u128 = 0;
    while i < n
        invariant
            start <= i <= n,
            n == s@.len(),
            start < n,
            neg == (s@[0] == '-'),
            has_sign == (s@[0] == '-' || s@[0] == '+'),
            start == if has_sign {
                1usize
            } else {
                0usize
            },
            t == s@.skip(start as int),
            limit == if neg {
                170141183460469231731687303715884105728u128
            } else {
                170141183460469231731687303715884105727u128
            },
            forall|j: int| start <= j < i ==> is_dec_digit(s@[j]),
            acc <= limit,
            acc as nat == dec_val(t.take(i - start as int)),
        decreases n - i,
    {
        let c = s.get_char(i);
        let code = c as u32;
        if code < '0' as u32 || code > '9' as u32 {
            proof {
                lemma_tail_facts(s@, has_sign, neg, t);
                assert(t[i - start as int] == s@[i as int]);
                assert(!is_dec_digit(t[i - start as int]));
            }
            return None;
        }
        let d = (code - '0' as u32) as u128;
        proof {
            assert(t.take(i - start as int + 1).drop_last() =~= t.take(i - start as int));
            assert(t.take(i - start as int + 1).last() == t[i - start as int]);
            assert(t[i - start as int] == s@[i as int]);
        }
        if acc > limit / 10 {
            proof {
                lemma_tail_facts(s@, has_sign, neg, t);
                assert(acc * 10 >= (limit / 10 + 1) * 10 > limit);
                assert(dec_val(t.take(i - start as int + 1)) > limit);
                lemma_dec_val_prefix_le(t, i - start as int + 1);
                assert(dec_val(t) > limit);
            }
            return None;
        }
        let next = acc * 10 + d;
        if next > limit {
            proof {
                lemma_tail_facts(s@, has_sign, neg, t);
                assert(dec_val(t.take(i - start as int + 1)) > limit);
                lemma_dec_val_prefix_le(t, i - start as int + 1);
                assert(dec_val(t) > limit);
            }
            return None;
        }
        acc = next;
        i = i + 1;
    }
    proof {
        assert(t.take(n - start as int) =~= t);
        lemma_tail_facts(s@, has_sign, neg, t);
        assert forall|k: int| 0 <= k < t.len() implies is_dec_digit(t[k]) by {
            assert(t[k] == s@[k + start as int]);
        }
        assert(is_dec_string(t));
    }
    if neg {
        if acc == 170141183460469231731687303715884105728u128 {
            Some(i128::MIN)
        } else {
            Some(-(acc as i128))
        }
    } else {
        Some(acc as i128)
    }
}

/// Check the text of a number field against the field's range.
pub fn check_number_input(min: i128, max: i128, input: &str) -> (r: NumberInputCheck)
    ensures
        r == spec_check_number(min, max, input@),
{
    if input.unicode_len() == 0 {
        return NumberInputCheck::Empty;
    }
    match parse_i128(input) {
        None => NumberInputCheck::NotANumber,
        Some(v) => {
            if min <= v && v <= max {
                NumberInputCheck::InRange(v)
            } else {
                NumberInputCheck::OutOfRange(v)
            }
        },
    }
}

} // verus!
