//! Decimal notation of machine-sized unsigned integers.
use vstd::prelude::*;

verus! {

/// Whether `c` is one of the ASCII digits `0` to `9`.
pub open spec fn is_digit(c: char) -> bool {
    '0' <= c && c <= '9'
}

/// The value of an ASCII digit.
pub open spec fn digit_value(c: char) -> nat {
    (c as u32 - '0' as u32) as nat
}

/// The character that writes the digit `d` (for `d < 10`).
pub open spec fn digit_char(d: nat) -> char {
    (d + '0' as u32) as u32 as char
}

/// A non-empty sequence of ASCII digits.
pub open spec fn is_decimal(s: Seq<char>) -> bool {
    s.len() > 0 && forall|i: int| 0 <= i < s.len() ==> is_digit(#[trigger] s[i])
}

/// The number that the digits of `s` write, most significant first.
pub open spec fn decimal_value(s: Seq<char>) -> nat
    decreases s.len(),
{
    if s.len() == 0 {
        0
    } else {
        decimal_value(s.drop_last()) * 10 + digit_value(s.last())
    }
}

/// What reading `s` as a `usize` gives: its value when `s` is written in
/// decimal digits and the value fits, and nothing otherwise.
pub open spec fn usize_of_decimal(s: Seq<char>) -> Option<usize> {
    if is_decimal(s) && decimal_value(s) <= usize::MAX {
        Some(decimal_value(s) as usize)
    } else {
        None
    }
}

/// The shortest decimal notation of `n`: no sign and no leading zeros.
pub open spec fn decimal_digits(n: nat) -> Seq<char>
    decreases n,
{
    if n < 10 {
        seq![digit_char(n)]
    } else {
        decimal_digits(n / 10) + seq![digit_char(n % 10)]
    }
}

/// Reading a longer prefix of a digit sequence never gives a smaller number.
proof fn lemma_prefix_value_le(s: Seq<char>, i: int)
    requires
        0 <= i <= s.len(),
    ensures
        decimal_value(s.subrange(0, i)) <= decimal_value(s),
    decreases s.len() - i,
{
    if i < s.len() {
        lemma_prefix_value_le(s, i + 1);
        assert(s.subrange(0, i + 1).drop_last() =~= s.subrange(0, i));
    } else {
        assert(s.subrange(0, i) =~= s);
    }
}

/// Appends the decimal notation of `n` to `out`.
pub fn push_decimal(out: &mut String, n: usize)
    ensures
        final(out)@ == old(out)@ + decimal_digits(n as nat),
    decreases n,
{
    if n >= 10 {
        push_decimal(out, n / 10);
    }
    let d: usize = n % 10;
    let all = "0123456789";
    proof {
        reveal_strlit("0123456789");
    }
    let one = all.substring_char(d, d + 1);
    proof {
        assert(one@ =~= seq![digit_char(d as nat)]) by {
            assert(one@.len() == 1);
            assert(one@[0] == all@[d as int]);
            if d == 0 {} else if d == 1 {} else if d == 2 {} else if d == 3 {} else if d == 4 {}
            else if d == 5 {} else if d == 6 {} else if d == 7 {} else if d == 8 {} else {}
        }
    }
    out.append(one);
    proof {
        if n >= 10 {
            assert(decimal_digits(n as nat) == decimal_digits((n / 10) as nat) + seq![digit_char(d as nat)]);
        } else {
            assert(d == n);
        }
    }
}

/// The decimal notation of `n`.
pub fn decimal_string(n: usize) -> (r: String)
    ensures
        r@ == decimal_digits(n as nat),
{
    let mut r = String::new();
    push_decimal(&mut r, n);
    assert(r@ =~= decimal_digits(n as nat));
    r
}

/// Reads `s` as a `usize` written in decimal digits: `None` when `s` is
/// empty, holds anything but a digit, or writes a number above `usize::MAX`.
pub fn parse_decimal(s: &str) -> (r: Option<usize>)
    ensures
        r == usize_of_decimal(s@),
{
    let n = s.unicode_len();
    if n == 0 {
        return None;
    }
    let mut acc: usize = 0;
    let mut i: usize = 0;
    while i < n
        invariant
            n == s@.len(),
            i <= n,
            acc == decimal_value(s@.subrange(0, i as int)),
            forall|k: int| 0 <= k < i ==> is_digit(#[trigger] s@[k]),
        decreases n - i,
    {
        let c = s.get_char(i);
        if c < '0' || c > '9' {
            return None;
        }
        let d: usize = (c as u32 - '0' as u32) as usize;
        proof {
            assert(s@.subrange(0, i + 1).drop_last() =~= s@.subrange(0, i as int));
            assert(s@.subrange(0, i + 1).last() == c);
        }
        match acc.checked_mul(10) {
            None => {
                proof {
                    lemma_prefix_value_le(s@, i + 1);
                }
                return None;
            },
            Some(m) => match m.checked_add(d) {
                None => {
                    proof {
                        lemma_prefix_value_le(s@, i + 1);
                    }
                    return None;
                },
                Some(v) => {
                    acc = v;
                },
            },
        }
        i = i + 1;
    }
    assert(s@.subrange(0, n as int) =~= s@);
    Some(acc)
}

} // verus!
