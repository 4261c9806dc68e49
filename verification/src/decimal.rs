//! Decimal notation of integers, as sequences of characters.

use vstd::prelude::*;
use vstd::string::*;

verus! {

/// The character that writes the digit `d`, for `0 <= d <= 9`.
pub open spec fn digit_char(d: int) -> char {
    if d == 0 {
        '0'
    } else if d == 1 {
        '1'
    } else if d == 2 {
        '2'
    } else if d == 3 {
        '3'
    } else if d == 4 {
        '4'
    } else if d == 5 {
        '5'
    } else if d == 6 {
        '6'
    } else if d == 7 {
        '7'
    } else if d == 8 {
        '8'
    } else {
        '9'
    }
}

/// The decimal digits of `n`, most significant first, without leading zeros.
pub open spec fn decimal_digits(n: nat) -> Seq<char>
    decreases n,
{
    if n < 10 {
        seq![digit_char(n as int)]
    } else {
        decimal_digits(n / 10).push(digit_char((n % 10) as int))
    }
}

/// The decimal notation of `i`: a minus sign for a negative number, then the
/// digits of its magnitude.
pub open spec fn signed_decimal(i: int) -> Seq<char> {
    if i < 0 {
        seq!['-'] + decimal_digits((-i) as nat)
    } else {
        decimal_digits(i as nat)
    }
}

/// Whether `c` is one of the ten decimal digits.
pub open spec fn is_digit(c: char) -> bool {
    exists|d: int| 0 <= d <= 9 && c == #[trigger] digit_char(d)
}

/// The digits of a number are never empty and hold nothing but digits.
pub proof fn lemma_decimal_digits_form(n: nat)
    ensures
        decimal_digits(n).len() >= 1,
        forall|i: int|
            0 <= i < decimal_digits(n).len() ==> is_digit(#[trigger] decimal_digits(n)[i]),
    decreases n,
{
    if n < 10 {
        assert(is_digit(digit_char(n as int)));
    } else {
        lemma_decimal_digits_form(n / 10);
        assert(is_digit(digit_char((n % 10) as int)));
    }
}

/// Different numbers have different digits.
pub proof fn lemma_decimal_digits_injective(n: nat, m: nat)
    requires
        decimal_digits(n) == decimal_digits(m),
    ensures
        n == m,
    decreases n,
{
    if n < 10 && m < 10 {
        assert(decimal_digits(n)[0] == digit_char(n as int));
        assert(decimal_digits(m)[0] == digit_char(m as int));
    } else if n < 10 {
        lemma_decimal_digits_form(m / 10);
        assert(decimal_digits(m).len() >= 2);
    } else if m < 10 {
        lemma_decimal_digits_form(n / 10);
        assert(decimal_digits(n).len() >= 2);
    } else {
        let a = decimal_digits(n / 10);
        let b = decimal_digits(m / 10);
        let x = digit_char((n % 10) as int);
        let y = digit_char((m % 10) as int);
        assert(a.push(x) == b.push(y));
        assert(a =~= a.push(x).drop_last());
        assert(b =~= b.push(y).drop_last());
        assert(x == a.push(x).last());
        assert(y == b.push(y).last());
        lemma_decimal_digits_injective(n / 10, m / 10);
        assert(x == y);
        assert(n % 10 == m % 10);
    }
}

/// Different integers have different decimal notations.
pub proof fn lemma_signed_decimal_injective(i: int, j: int)
    requires
        signed_decimal(i) == signed_decimal(j),
    ensures
        i == j,
{
    lemma_signed_decimal_form(i);
    lemma_signed_decimal_form(j);
    if i < 0 && j < 0 {
        let a = decimal_digits((-i) as nat);
        let b = decimal_digits((-j) as nat);
        assert(a =~= (seq!['-'] + a).subrange(1, a.len() as int + 1));
        assert(b =~= (seq!['-'] + b).subrange(1, b.len() as int + 1));
        lemma_decimal_digits_injective((-i) as nat, (-j) as nat);
    } else if i >= 0 && j >= 0 {
        lemma_decimal_digits_injective(i as nat, j as nat);
    } else {
        assert(signed_decimal(i)[0] == signed_decimal(j)[0]);
    }
}

/// The notation of an integer that is not negative is made of digits alone;
/// that of a negative one is a minus sign and then digits. A minus sign is
/// no digit, so the two cannot be taken for each other.
pub proof fn lemma_signed_decimal_form(i: int)
    ensures
        i >= 0 ==> signed_decimal(i).len() >= 1 && forall|k: int|
            0 <= k < signed_decimal(i).len() ==> is_digit(#[trigger] signed_decimal(i)[k]),
        i < 0 ==> signed_decimal(i).len() >= 2 && signed_decimal(i)[0] == '-' && forall|k: int|
            1 <= k < signed_decimal(i).len() ==> is_digit(#[trigger] signed_decimal(i)[k]),
        !is_digit('-'),
{
    if i < 0 {
        let digits = decimal_digits((-i) as nat);
        lemma_decimal_digits_form((-i) as nat);
        assert forall|k: int| 1 <= k < signed_decimal(i).len() implies is_digit(
            #[trigger] signed_decimal(i)[k],
        ) by {
            assert(signed_decimal(i)[k] == digits[k - 1]);
        }
    } else {
        lemma_decimal_digits_form(i as nat);
    }
}

/// The one-character string of a single digit.
fn digit_str(d: u8) -> (r: &'static str)
    requires
        d <= 9,
    ensures
        r@ == seq![digit_char(d as int)],
{
    proof {
        reveal_strlit("0");
        reveal_strlit("1");
        reveal_strlit("2");
        reveal_strlit("3");
        reveal_strlit("4");
        reveal_strlit("5");
        reveal_strlit("6");
        reveal_strlit("7");
        reveal_strlit("8");
        reveal_strlit("9");
    }
    let r: &'static str = match d {
        0 => "0",
        1 => "1",
        2 => "2",
        3 => "3",
        4 => "4",
        5 => "5",
        6 => "6",
        7 => "7",
        8 => "8",
        _ => "9",
    };
    assert(r@ =~= seq![digit_char(d as int)]);
    r
}

/// Appends the decimal digits of `n` to `out`.
pub fn push_decimal(out: &mut String, n: u64)
    ensures
        final(out)@ == old(out)@ + decimal_digits(n as nat),
    decreases n,
{
    if n >= 10 {
        push_decimal(out, n / 10);
    }
    let d: u8 = (n % 10) as u8;
    out.append(digit_str(d));
    assert(out@ =~= old(out)@ + decimal_digits(n as nat));
}

/// Appends the decimal notation of `i` to `out`.
pub fn push_signed_decimal(out: &mut String, i: i64)
    ensures
        final(out)@ == old(out)@ + signed_decimal(i as int),
{
    if i < 0 {
        proof {
            reveal_strlit("-");
        }
        out.append("-");
        let magnitude: u64 = (-(i + 1)) as u64 + 1;
        push_decimal(out, magnitude);
        assert(out@ =~= old(out)@ + signed_decimal(i as int));
    } else {
        push_decimal(out, i as u64);
    }
}

} // verus!
