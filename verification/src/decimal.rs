//! Decimal notation: the digits of a natural number, written and read.

use vstd::arithmetic::power::pow;
use vstd::prelude::*;

verus! {

/// The character that writes the digit `d`, for `0 <= d <= 9`.
pub open spec fn digit_char(d: int) -> char {
    if d == 0 {
        '0'
    } else if d == 1 {
        '1'
    } else if d == 2 {
        '2'
    } else if d == 3 {
        '3'
    } else if d == 4 {
        '4'
    } else if d == 5 {
        '5'
    } else if d == 6 {
        '6'
    } else if d == 7 {
        '7'
    } else if d == 8 {
        '8'
    } else {
        '9'
    }
}

/// Whether `c` is one of the ten ASCII digits.
pub open spec fn is_digit(c: char) -> bool {
    '0' <= c && c <= '9'
}

/// The value of the ASCII digit `c`.
pub open spec fn digit_value(c: char) -> int {
    c as int - '0' as int
}

/// The decimal notation of `n`, without sign and without leading zeros.
pub open spec fn decimal_text(n: nat) -> Seq<char>
    decreases n,
{
    if n < 10 {
        seq![digit_char(n as int)]
    } else {
        decimal_text(n / 10).push(digit_char((n % 10) as int))
    }
}

/// The number that the first `n` characters of `s` write as ASCII digits.
pub open spec fn value_of_first(s: Seq<char>, n: int) -> int
    decreases n,
{
    if n <= 0 {
        0
    } else {
        10 * value_of_first(s, n - 1) + digit_value(s[n - 1])
    }
}

/// The number that a sequence of ASCII digits writes; leading zeros count for
/// nothing and the empty sequence writes zero.
pub open spec fn digits_value(s: Seq<char>) -> int {
    value_of_first(s, s.len() as int)
}

/// The `k`-th power of ten. The powers that fit in 64 bits are written out;
/// each further one is ten times the one before.
pub open spec fn ten_to(k: nat) -> int
    decreases k,
{
    if k == 0 {
        1
    } else if k == 1 {
        10
    } else if k == 2 {
        100
    } else if k == 3 {
        1_000
    } else if k == 4 {
        10_000
    } else if k == 5 {
        100_000
    } else if k == 6 {
        1_000_000
    } else if k == 7 {
        10_000_000
    } else if k == 8 {
        100_000_000
    } else if k == 9 {
        1_000_000_000
    } else if k == 10 {
        10_000_000_000
    } else if k == 11 {
        100_000_000_000
    } else if k == 12 {
        1_000_000_000_000
    } else if k == 13 {
        10_000_000_000_000
    } else if k == 14 {
        100_000_000_000_000
    } else if k == 15 {
        1_000_000_000_000_000
    } else if k == 16 {
        10_000_000_000_000_000
    } else if k == 17 {
        100_000_000_000_000_000
    } else if k == 18 {
        1_000_000_000_000_000_000
    } else if k == 19 {
        10_000_000_000_000_000_000
    } else {
        10 * ten_to((k - 1) as nat)
    }
}

/// The powers of ten are those of the power function.
pub proof fn lemma_ten_to(k: nat)
    ensures
        ten_to(k) == pow(10, k),
        ten_to(k) > 0,
        ten_to(k + 1) == 10 * ten_to(k),
    decreases k,
{
    reveal_with_fuel(pow, 21);
    if k >= 19 {
        lemma_ten_to((k - 1) as nat);
        assert(pow(10, k) == 10 * pow(10, (k - 1) as nat)) by {
            reveal(pow);
        }
        assert(pow(10, k + 1) == 10 * pow(10, k)) by {
            reveal(pow);
        }
    }
}

/// Whether every character of `s` is an ASCII digit.
pub open spec fn all_digits(s: Seq<char>) -> bool {
    forall|i: int| 0 <= i < s.len() ==> is_digit(#[trigger] s[i])
}

/// Every digit character is an ASCII digit and has the digit as its value.
pub proof fn lemma_digit_char(d: int)
    requires
        0 <= d <= 9,
    ensures
        is_digit(digit_char(d)),
        digit_value(digit_char(d)) == d,
{
}

/// Texts that agree in their first `n` characters write the same number
/// with them.
pub proof fn lemma_value_of_first_agrees(a: Seq<char>, b: Seq<char>, n: int)
    requires
        n <= a.len(),
        n <= b.len(),
        forall|i: int| 0 <= i < n ==> a[i] == b[i],
    ensures
        value_of_first(a, n) == value_of_first(b, n),
    decreases n,
{
    if n > 0 {
        lemma_value_of_first_agrees(a, b, n - 1);
    }
}

/// One more digit at the end: the number moves up by one decimal place and
/// takes the digit in.
pub proof fn lemma_digits_value_last(s: Seq<char>)
    ensures
        s.len() == 0 ==> digits_value(s) == 0,
        s.len() > 0 ==> digits_value(s) == 10 * digits_value(s.drop_last()) + digit_value(
            s.last(),
        ),
{
    if s.len() > 0 {
        lemma_value_of_first_agrees(s, s.drop_last(), s.len() - 1);
    }
}

/// Reading the decimal notation of a number gives the number back.
pub proof fn lemma_decimal_round_trip(n: nat)
    ensures
        all_digits(decimal_text(n)),
        decimal_text(n).len() >= 1,
        digits_value(decimal_text(n)) == n,
    decreases n,
{
    let s = decimal_text(n);
    if n < 10 {
        lemma_digit_char(n as int);
        assert(s.drop_last() =~= Seq::<char>::empty());
    } else {
        lemma_decimal_round_trip(n / 10);
        lemma_digit_char((n % 10) as int);
        assert(s.drop_last() =~= decimal_text(n / 10));
        assert(s.last() == digit_char((n % 10) as int));
    }
    lemma_digits_value_last(s);
    lemma_digits_value_last(s.drop_last());
}

/// Writes one digit at the end of `out`.
pub fn push_digit(out: &mut String, d: u64)
    requires
        d <= 9,
    ensures
        final(out)@ == old(out)@.push(digit_char(d as int)),
{
    let ghost before = out@;
    proof {
        reveal_strlit("0");
        reveal_strlit("1");
        reveal_strlit("2");
        reveal_strlit("3");
        reveal_strlit("4");
        reveal_strlit("5");
        reveal_strlit("6");
        reveal_strlit("7");
        reveal_strlit("8");
        reveal_strlit("9");
    }
    if d == 0 {
        out.append("0");
    } else if d == 1 {
        out.append("1");
    } else if d == 2 {
        out.append("2");
    } else if d == 3 {
        out.append("3");
    } else if d == 4 {
        out.append("4");
    } else if d == 5 {
        out.append("5");
    } else if d == 6 {
        out.append("6");
    } else if d == 7 {
        out.append("7");
    } else if d == 8 {
        out.append("8");
    } else {
        out.append("9");
    }
    assert(out@ =~= before.push(digit_char(d as int)));
}

/// Writes the decimal notation of `n` at the end of `out`.
pub fn push_decimal(out: &mut String, n: u64)
    ensures
        final(out)@ == old(out)@ + decimal_text(n as nat),
    decreases n,
{
    let ghost before = out@;
    if n >= 10 {
        push_decimal(out, n / 10);
    }
    push_digit(out, n % 10);
    assert(out@ =~= before + decimal_text(n as nat));
}

/// Digits written after other digits: the first number moves up by one
/// decimal place for each digit that follows.
pub proof fn lemma_digits_value_concat(a: Seq<char>, b: Seq<char>)
    ensures
        digits_value(a + b) == digits_value(a) * ten_to(b.len()) + digits_value(b),
    decreases b.len(),
{
    if b.len() == 0 {
        assert(a + b =~= a);
    } else {
        let ab = a + b;
        assert(ab.drop_last() =~= a + b.drop_last());
        assert(ab.last() == b.last());
        lemma_digits_value_last(ab);
        lemma_digits_value_last(b);
        lemma_digits_value_concat(a, b.drop_last());
        let p = ten_to(b.drop_last().len());
        lemma_ten_to(b.drop_last().len());
        assert(ten_to(b.len()) == 10 * p);
        assert(10 * (digits_value(a) * p) == digits_value(a) * (10 * p)) by (nonlinear_arith);
    }
}

/// A number written with `k` digits is below the `k`-th power of ten.
pub proof fn lemma_digits_value_bound(s: Seq<char>)
    requires
        all_digits(s),
    ensures
        0 <= digits_value(s) < ten_to(s.len()),
    decreases s.len(),
{
    if s.len() == 0 {
    } else {
        let front = s.drop_last();
        assert(all_digits(front)) by {
            assert forall|i: int| 0 <= i < front.len() implies is_digit(#[trigger] front[i]) by {
                assert(front[i] == s[i]);
            }
        }
        lemma_digits_value_bound(front);
        lemma_digits_value_last(s);
        assert(is_digit(s[s.len() - 1]));
        lemma_ten_to(front.len());
        assert(ten_to(s.len()) == 10 * ten_to(front.len()));
    }
}

} // verus!
