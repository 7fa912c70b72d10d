//! Decimal notation of unsigned integers.

use vstd::prelude::*;
use vstd::string::*;

verus! {

/// The character that writes a single decimal digit.
pub open spec fn digit_char(d: nat) -> char
    recommends
        d < 10,
{
    if d == 0 {
        '0'
    } else if d == 1 {
        '1'
    } else if d == 2 {
        '2'
    } else if d == 3 {
        '3'
    } else if d == 4 {
        '4'
    } else if d == 5 {
        '5'
    } else if d == 6 {
        '6'
    } else if d == 7 {
        '7'
    } else if d == 8 {
        '8'
    } else {
        '9'
    }
}

/// The decimal notation of `n`, most significant digit first, without
/// leading zeros; zero is written `0`.
pub open spec fn decimal(n: nat) -> Seq<char>
    decreases n,
{
    if n < 10 {
        seq![digit_char(n)]
    } else {
        decimal(n / 10).push(digit_char(n % 10))
    }
}

/// The power of ten with the given exponent.
pub open spec fn pow10(exponent: nat) -> nat
    decreases exponent,
{
    if exponent == 0 {
        1
    } else {
        10 * pow10((exponent - 1) as nat)
    }
}

/// No power of ten is zero.
pub proof fn lemma_pow10_positive(exponent: nat)
    ensures
        pow10(exponent) >= 1,
    decreases exponent,
{
    if exponent > 0 {
        lemma_pow10_positive((exponent - 1) as nat);
    }
}

/// The notation of a number is never empty.
pub proof fn lemma_decimal_nonempty(n: nat)
    ensures
        decimal(n).len() >= 1,
{
}

/// A number has at most `k` decimal digits exactly when it lies below the
/// `k`-th power of ten.
pub proof fn lemma_decimal_len(n: nat, k: nat)
    requires
        k >= 1,
    ensures
        decimal(n).len() <= k <==> n < pow10(k),
    decreases k,
{
    lemma_pow10_positive((k - 1) as nat);
    if n >= 10 {
        lemma_decimal_nonempty(n / 10);
        if k > 1 {
            lemma_decimal_len(n / 10, (k - 1) as nat);
        }
    }
}

/// Every 64-bit number is written with at most twenty digits.
pub proof fn lemma_decimal_len_u64(n: u64)
    ensures
        1 <= decimal(n as nat).len() <= 20,
{
    lemma_decimal_nonempty(n as nat);
    lemma_decimal_len(n as nat, 20);
    assert(pow10(20) == 100_000_000_000_000_000_000nat) by {
        reveal_with_fuel(pow10, 21);
    }
}

/// The text of one decimal digit.
fn digit_text(d: u64) -> (text: &'static str)
    requires
        d < 10,
    ensures
        text@ == seq![digit_char(d as nat)],
{
    proof {
        reveal_strlit("0");
        reveal_strlit("1");
        reveal_strlit("2");
        reveal_strlit("3");
        reveal_strlit("4");
        reveal_strlit("5");
        reveal_strlit("6");
        reveal_strlit("7");
        reveal_strlit("8");
        reveal_strlit("9");
    }
    let text = if d == 0 {
        "0"
    } else if d == 1 {
        "1"
    } else if d == 2 {
        "2"
    } else if d == 3 {
        "3"
    } else if d == 4 {
        "4"
    } else if d == 5 {
        "5"
    } else if d == 6 {
        "6"
    } else if d == 7 {
        "7"
    } else if d == 8 {
        "8"
    } else {
        "9"
    };
    assert(text@ =~= seq![digit_char(d as nat)]);
    text
}

/// Writes `n` in decimal notation.
pub fn decimal_string(n: u64) -> (text: String)
    ensures
        text@ == decimal(n as nat),
    decreases n,
{
    if n < 10 {
        String::from_str(digit_text(n))
    } else {
        let mut text = decimal_string(n / 10);
        text.append(digit_text(n % 10));
        assert(text@ =~= decimal(n as nat));
        text
    }
}

/// Counts the decimal digits of `n`.
pub fn digit(n: u64) -> (count: u64)
    ensures
        count == decimal(n as nat).len(),
        1 <= count <= 20,
    decreases n,
{
    proof {
        lemma_decimal_len_u64(n);
    }
    if n < 10 {
        1
    } else {
        let shorter = digit(n / 10);
        shorter + 1
    }
}

} // verus!
