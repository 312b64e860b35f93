//! Decimal numerals: the integers that a text writes.
use crate::text::chars_of;
use vstd::prelude::*;

verus! {

/// Whether `c` is one of the ten decimal digits.
pub open spec fn is_digit(c: char) -> bool {
    '0' <= c <= '9'
}

/// The number that the decimal digits `digits` write.
pub open spec fn decimal_value(digits: Seq<char>) -> int
    decreases digits.len(),
{
    if digits.len() == 0 {
        0
    } else {
        10 * decimal_value(digits.drop_last()) + (digits.last() as int - '0' as int)
    }
}

/// Whether `s` is one decimal digit or more, and nothing else.
pub open spec fn is_numeral(s: Seq<char>) -> bool {
    s.len() > 0 && forall|i: int| 0 <= i < s.len() ==> is_digit(#[trigger] s[i])
}

/// The integer that `s` writes in decimal: a numeral, which may have `+` in
/// front of it, or `-` where `minus` allows that sign.
pub open spec fn decimal_integer(s: Seq<char>, minus: bool) -> Option<int> {
    if s.len() > 0 && s[0] == '+' {
        if is_numeral(s.drop_first()) {
            Some(decimal_value(s.drop_first()))
        } else {
            None
        }
    } else if minus && s.len() > 0 && s[0] == '-' {
        if is_numeral(s.drop_first()) {
            Some(-decimal_value(s.drop_first()))
        } else {
            None
        }
    } else if is_numeral(s) {
        Some(decimal_value(s))
    } else {
        None
    }
}

/// The `i32` that `s` writes: a decimal numeral with an optional sign whose
/// value the type holds.
pub open spec fn parsed_i32(s: Seq<char>) -> Option<i32> {
    match decimal_integer(s, true) {
        Some(v) => if i32::MIN <= v <= i32::MAX {
            Some(v as i32)
        } else {
            None
        },
        None => None,
    }
}

/// The `usize` that `s` writes: a decimal numeral with an optional `+` whose
/// value the type holds.
pub open spec fn parsed_usize(s: Seq<char>) -> Option<usize> {
    match decimal_integer(s, false) {
        Some(v) => if v <= usize::MAX {
            Some(v as usize)
        } else {
            None
        },
        None => None,
    }
}

/// Reads the digits `chars[from..]` up to `limit`. `None` where they are no
/// numeral; otherwise their value, or `limit + 1` where it is beyond `limit`.
fn read_numeral(chars: &Vec<char>, from: usize, limit: u64) -> (value: Option<u128>)
    requires
        from <= chars.len(),
    ensures
        match value {
            Some(v) => {
                &&& is_numeral(chars@.skip(from as int))
                &&& v <= limit + 1
                &&& if decimal_value(chars@.skip(from as int)) <= limit {
                    v == decimal_value(chars@.skip(from as int))
                } else {
                    v == limit + 1
                }
            },
            None => !is_numeral(chars@.skip(from as int)),
        },
{
    let ghost digits = chars@.skip(from as int);
    if from == chars.len() {
        return None;
    }
    let mut acc: u128 = 0;
    let mut i: usize = from;
    assert(digits.take(0) == Seq::<char>::empty());
    while i < chars.len()
        invariant
            from <= i <= chars.len(),
            digits == chars@.skip(from as int),
            forall|k: int| 0 <= k < i - from ==> is_digit(#[trigger] digits[k]),
            acc <= limit + 1,
            0 <= decimal_value(digits.take(i - from)),
            if decimal_value(digits.take(i - from)) <= limit {
                acc == decimal_value(digits.take(i - from))
            } else {
                acc == limit + 1
            },
        decreases chars.len() - i,
    {
        let c = chars[i];
        assert(c == digits[i - from]);
        if !('0' <= c && c <= '9') {
            return None;
        }
        assert(digits.take(i - from + 1).drop_last() == digits.take(i - from));
        let d: u128 = (c as u32 - '0' as u32) as u128;
        let next: u128 = acc * 10 + d;
        if acc > limit as u128 || next > limit as u128 {
            acc = limit as u128 + 1;
        } else {
            acc = next;
        }
        i += 1;
    }
    assert(digits.take(digits.len() as int) == digits);
    Some(acc)
}

/// Reads `s` as an `i32`: an optional sign, then decimal digits only.
pub fn parse_i32(s: &str) -> (value: Option<i32>)
    ensures
        value == parsed_i32(s@),
{
    let chars = chars_of(s);
    assert(chars@.skip(0) == chars@);
    assert(chars@.len() > 0 ==> chars@.skip(1) == chars@.drop_first());
    if chars.len() > 0 && chars[0] == '-' {
        match read_numeral(&chars, 1, 0x8000_0000) {
            Some(v) => if v <= 0x8000_0000 {
                Some((-(v as i64)) as i32)
            } else {
                None
            },
            None => None,
        }
    } else {
        let from: usize = if chars.len() > 0 && chars[0] == '+' {
            1
        } else {
            0
        };
        match read_numeral(&chars, from, 0x7fff_ffff) {
            Some(v) => if v <= 0x7fff_ffff {
                Some(v as i32)
            } else {
                None
            },
            None => None,
        }
    }
}

/// Reads `s` as a `usize`: an optional `+`, then decimal digits only.
pub fn parse_usize(s: &str) -> (value: Option<usize>)
    ensures
        value == parsed_usize(s@),
{
    let chars = chars_of(s);
    assert(chars@.skip(0) == chars@);
    assert(chars@.len() > 0 ==> chars@.skip(1) == chars@.drop_first());
    let from: usize = if chars.len() > 0 && chars[0] == '+' {
        1
    } else {
        0
    };
    match read_numeral(&chars, from, usize::MAX as u64) {
        Some(v) => if v <= usize::MAX as u128 {
            Some(v as usize)
        } else {
            None
        },
        None => None,
    }
}

} // verus!
