//! Decimal rendering of numbers, as the `{}` and `{:02}` formats write them.

use vstd::prelude::*;

verus! {

/// The character of a decimal digit.
pub open spec fn digit_char(d: nat) -> char
    recommends
        d < 10,
{
    (48 + d) as char
}

/// The decimal digits of `n`, without leading zeros (`0` is written `0`).
pub open spec fn decimal(n: nat) -> Seq<char>
    decreases n,
{
    if n < 10 {
        seq![digit_char(n)]
    } else {
        decimal(n / 10).push(digit_char(n % 10))
    }
}

/// The decimal digits of `n`, padded with a leading zero to two digits.
pub open spec fn two_digits(n: nat) -> Seq<char> {
    if n < 10 {
        seq!['0', digit_char(n)]
    } else {
        decimal(n)
    }
}

/// The decimal digits of `n`, after a minus sign where `n` is negative.
pub open spec fn signed_decimal(n: int) -> Seq<char> {
    if n < 0 {
        seq!['-'] + decimal((-n) as nat)
    } else {
        decimal(n as nat)
    }
}

/// The string of one decimal digit.
fn digit_str(d: u64) -> (s: &'static str)
    requires
        d < 10,
    ensures
        s@ == seq![digit_char(d as nat)],
{
    let s = match d {
        0 => "0",
        1 => "1",
        2 => "2",
        3 => "3",
        4 => "4",
        5 => "5",
        6 => "6",
        7 => "7",
        8 => "8",
        _ => "9",
    };
    proof {
        reveal_strlit("0");
        reveal_strlit("1");
        reveal_strlit("2");
        reveal_strlit("3");
        reveal_strlit("4");
        reveal_strlit("5");
        reveal_strlit("6");
        reveal_strlit("7");
        reveal_strlit("8");
        reveal_strlit("9");
        assert(s@ =~= seq![digit_char(d as nat)]);
    }
    s
}

/// Appends the decimal digits of `n`.
pub fn push_decimal(out: &mut String, n: u64)
    ensures
        final(out)@ == old(out)@ + decimal(n as nat),
    decreases n,
{
    if n >= 10 {
        push_decimal(out, n / 10);
    }
    out.append(digit_str(n % 10));
    proof {
        assert(final(out)@ =~= old(out)@ + decimal(n as nat));
    }
}

/// Appends the decimal digits of `n`, padded to at least two digits.
pub fn push_two_digits(out: &mut String, n: u64)
    ensures
        final(out)@ == old(out)@ + two_digits(n as nat),
{
    if n < 10 {
        out.append("0");
        proof {
            reveal_strlit("0");
        }
    }
    push_decimal(out, n);
    proof {
        assert(final(out)@ =~= old(out)@ + two_digits(n as nat));
    }
}

/// Appends the decimal digits of `n`, after a minus sign where it is
/// negative.
pub fn push_signed_decimal(out: &mut String, n: i32)
    ensures
        final(out)@ == old(out)@ + signed_decimal(n as int),
{
    if n < 0 {
        out.append("-");
        proof {
            reveal_strlit("-");
        }
        let magnitude: u64 = (-(n as i64)) as u64;
        push_decimal(out, magnitude);
    } else {
        push_decimal(out, n as u64);
    }
    proof {
        assert(final(out)@ =~= old(out)@ + signed_decimal(n as int));
    }
}

/// Different digits have different characters.
proof fn lemma_digit_char_injective(a: nat, b: nat)
    requires
        a < 10,
        b < 10,
        digit_char(a) == digit_char(b),
    ensures
        a == b,
{
    assert((48 + a) as char as int == 48 + a);
    assert((48 + b) as char as int == 48 + b);
}

/// The shape of a decimal: one digit below ten, two below a hundred, more
/// above; the last character is the last digit, and what stands before it is
/// the decimal of the number without its last digit.
pub proof fn lemma_decimal_shape(n: nat)
    ensures
        decimal(n).len() >= 1,
        (n < 10) == (decimal(n).len() == 1),
        (10 <= n < 100) == (decimal(n).len() == 2),
        decimal(n).last() == digit_char(n % 10),
        n >= 10 ==> decimal(n).drop_last() == decimal(n / 10),
    decreases n,
{
    if n >= 10 {
        lemma_decimal_shape(n / 10);
        assert(decimal(n).drop_last() =~= decimal(n / 10));
    }
}

/// Different numbers have different decimals.
pub proof fn lemma_decimal_injective(a: nat, b: nat)
    requires
        decimal(a) == decimal(b),
    ensures
        a == b,
    decreases a,
{
    lemma_decimal_shape(a);
    lemma_decimal_shape(b);
    lemma_digit_char_injective(a % 10, b % 10);
    if a >= 10 {
        lemma_decimal_injective(a / 10, b / 10);
    }
}

/// Numbers below a hundred take two characters when padded.
pub proof fn lemma_two_digits_len(n: nat)
    requires
        n < 100,
    ensures
        two_digits(n).len() == 2,
{
    lemma_decimal_shape(n);
}

/// Different numbers have different padded decimals.
pub proof fn lemma_two_digits_injective(a: nat, b: nat)
    requires
        two_digits(a) == two_digits(b),
    ensures
        a == b,
{
    lemma_decimal_shape(a);
    lemma_decimal_shape(b);
    if a < 10 && b < 10 {
        assert(two_digits(a)[1] == digit_char(a));
        assert(two_digits(b)[1] == digit_char(b));
        lemma_digit_char_injective(a, b);
    } else if a < 10 {
        lemma_not_padded(b);
        assert(two_digits(a)[0] == '0');
    } else if b < 10 {
        lemma_not_padded(a);
        assert(two_digits(b)[0] == '0');
    } else {
        lemma_decimal_injective(a, b);
    }
}

/// A two-digit decimal does not start with zero.
proof fn lemma_not_padded(n: nat)
    requires
        n >= 10,
    ensures
        decimal(n).len() == 2 ==> decimal(n)[0] != '0',
{
    lemma_decimal_shape(n);
    if decimal(n).len() == 2 {
        lemma_decimal_shape(n / 10);
        assert(decimal(n)[0] == decimal(n).drop_last()[0]);
        assert(decimal(n / 10) == seq![digit_char(n / 10)]);
        if decimal(n)[0] == '0' {
            assert(digit_char(n / 10) == digit_char(0));
            lemma_digit_char_injective(n / 10, 0);
        }
    }
}

} // verus!
