//! Decimal text for the identifiers kept in the persisted work state.
//!
//! The save file stores each pending item identifier as a decimal line.
//! Rendering and parsing are verified against one value function, so the
//! two sides agree by construction.

use vstd::prelude::*;

verus! {

/// Whether `c` is a decimal digit.
pub open spec fn is_digit(c: char) -> bool {
    48 <= c as u32 <= 57
}

/// The numeric value of a digit character.
pub open spec fn digit_val(c: char) -> nat
    recommends
        is_digit(c),
{
    (c as u32 - 48) as nat
}

/// The digit character for a value below ten.
pub open spec fn digit_char(d: int) -> char
    recommends
        0 <= d < 10,
{
    if d == 0 {
        '0'
    } else if d == 1 {
        '1'
    } else if d == 2 {
        '2'
    } else if d == 3 {
        '3'
    } else if d == 4 {
        '4'
    } else if d == 5 {
        '5'
    } else if d == 6 {
        '6'
    } else if d == 7 {
        '7'
    } else if d == 8 {
        '8'
    } else {
        '9'
    }
}

/// Whether every character of `s` is a decimal digit.
pub open spec fn all_digits(s: Seq<char>) -> bool {
    forall|j: int| 0 <= j < s.len() ==> is_digit(#[trigger] s[j])
}

/// The number that the digit text `s` denotes, most significant digit
/// first.
pub open spec fn str_value(s: Seq<char>) -> nat
    recommends
        all_digits(s),
    decreases s.len(),
{
    if s.len() == 0 {
        0
    } else {
        10 * str_value(s.drop_last()) + digit_val(s.last())
    }
}

/// What parsing `s` as an unsigned 128-bit decimal yields: the denoted
/// number when `s` is one or more digits and the value fits, nothing
/// otherwise.
pub open spec fn spec_parse_u128(s: Seq<char>) -> Option<u128> {
    if s.len() > 0 && all_digits(s) && str_value(s) <= u128::MAX {
        Some(str_value(s) as u128)
    } else {
        None
    }
}

/// The canonical decimal text of `n`: no sign, no padding, most
/// significant digit first.
pub open spec fn dec_digits(n: nat) -> Seq<char>
    decreases n,
{
    if n < 10 {
        seq![digit_char(n as int)]
    } else {
        dec_digits(n / 10) + seq![digit_char((n % 10) as int)]
    }
}

/// Appending a digit multiplies the value by ten and adds the digit.
proof fn lemma_str_value_push(s: Seq<char>, c: char)
    ensures
        str_value(s.push(c)) == 10 * str_value(s) + digit_val(c),
{
    assert(s.push(c).drop_last() =~= s);
}

/// The value never shrinks as more digits are read.
proof fn lemma_str_value_prefix_le(s: Seq<char>, i: int, j: int)
    requires
        0 <= i <= j <= s.len(),
    ensures
        str_value(s.take(i)) <= str_value(s.take(j)),
    decreases j - i,
{
    if i < j {
        lemma_str_value_prefix_le(s, i, j - 1);
        assert(s.take(j).drop_last() =~= s.take(j - 1));
        assert(str_value(s.take(j)) == 10 * str_value(s.take(j - 1)) + digit_val(s.take(j).last()));
    }
}

/// The canonical decimal text is one or more digits and denotes the
/// number it was made from.
pub proof fn lemma_dec_digits(n: nat)
    ensures
        dec_digits(n).len() >= 1,
        all_digits(dec_digits(n)),
        str_value(dec_digits(n)) == n,
    decreases n,
{
    let s = dec_digits(n);
    if n < 10 {
        assert(s.drop_last() =~= Seq::<char>::empty());
        assert(str_value(s) == 10 * str_value(s.drop_last()) + digit_val(s.last()));
    } else {
        lemma_dec_digits(n / 10);
        let prefix = dec_digits(n / 10);
        let c = digit_char((n % 10) as int);
        assert(s =~= prefix.push(c));
        lemma_str_value_push(prefix, c);
        vstd::arithmetic::div_mod::lemma_fundamental_div_mod(n as int, 10);
        assert forall|j: int| 0 <= j < s.len() implies is_digit(#[trigger] s[j]) by {
            if j < prefix.len() {
                assert(is_digit(prefix[j]));
            }
        }
    }
}

/// A digit is never a line break, so decimal text is newline-free.
pub proof fn lemma_digits_no_newline(s: Seq<char>)
    requires
        all_digits(s),
    ensures
        forall|j: int| 0 <= j < s.len() ==> s[j] != '\n',
{
    assert forall|j: int| 0 <= j < s.len() implies s[j] != '\n' by {
        assert(is_digit(s[j]));
    }
}

/// The single-character text for a digit value.
fn digit_str(d: u8) -> (r: &'static str)
    requires
        d < 10,
    ensures
        r@ =~= seq![digit_char(d as int)],
{
    proof {
        reveal_strlit("0");
        reveal_strlit("1");
        reveal_strlit("2");
        reveal_strlit("3");
        reveal_strlit("4");
        reveal_strlit("5");
        reveal_strlit("6");
        reveal_strlit("7");
        reveal_strlit("8");
        reveal_strlit("9");
    }
    match d {
        0 => "0",
        1 => "1",
        2 => "2",
        3 => "3",
        4 => "4",
        5 => "5",
        6 => "6",
        7 => "7",
        8 => "8",
        _ => "9",
    }
}

/// The canonical decimal text of `n`.
pub fn u128_to_string(n: u128) -> (r: String)
    ensures
        r@ == dec_digits(n as nat),
    decreases n,
{
    if n < 10 {
        let r = digit_str(n as u8).to_owned();
        proof {
            assert(r@ =~= dec_digits(n as nat));
        }
        r
    } else {
        let mut r = u128_to_string(n / 10);
        let last = digit_str((n % 10) as u8);
        let ghost prefix = r@;
        r.append(last);
        proof {
            assert(r@ =~= dec_digits(n as nat));
        }
        r
    }
}

/// Parses `s` as an unsigned 128-bit decimal: one or more digits whose
/// value fits. Anything else, the empty text included, is rejected.
pub fn parse_u128(s: &str) -> (r: Option<u128>)
    ensures
        r == spec_parse_u128(s@),
{
    let n = s.unicode_len();
    if n == 0 {
        return None;
    }
    let mut acc: u128 = 0;
    let mut i: usize = 0;
    proof {
        assert(s@.take(0) =~= Seq::<char>::empty());
    }
    while i < n
        invariant
            n == s@.len(),
            0 < n,
            i <= n,
            all_digits(s@.take(i as int)),
            acc == str_value(s@.take(i as int)),
        decreases n - i,
    {
        let c = s.get_char(i);
        let code = c as u32;
        if code < 48 || code > 57 {
            proof {
                assert(!is_digit(s@[i as int]));
            }
            return None;
        }
        let d = (code - 48) as u128;
        let limit = u128::MAX / 10;
        let rest = u128::MAX % 10;
        if acc > limit || (acc == limit && d > rest) {
            proof {
                assert(s@.take(i + 1).drop_last() =~= s@.take(i as int));
                assert(str_value(s@.take(i + 1)) == 10 * str_value(s@.take(i as int)) + digit_val(
                    s@[i as int],
                ));
                assert(str_value(s@.take(i + 1)) > u128::MAX);
                lemma_str_value_prefix_le(s@, i + 1, s@.len() as int);
                assert(s@.take(s@.len() as int) =~= s@);
            }
            return None;
        }
        proof {
            assert(s@.take(i + 1).drop_last() =~= s@.take(i as int));
        }
        acc = acc * 10 + d;
        i = i + 1;
    }
    proof {
        assert(s@.take(n as int) =~= s@);
    }
    Some(acc)
}

} // verus!
