//! Rounding in the manner of double-precision binary arithmetic, carried out
//! on integers: a value is held to 53 significant binary digits, and a
//! quotient held so is then rounded to one decimal place. Ties go to the even
//! neighbour at both steps.

use vstd::prelude::*;

verus! {

/// `a / b` rounded to the nearest integer, a tie going to the even neighbour.
pub open spec fn round_half_even(a: int, b: int) -> int {
    let f = a / b;
    let r = a % b;
    if 2 * r < b {
        f
    } else if 2 * r > b {
        f + 1
    } else if f % 2 == 0 {
        f
    } else {
        f + 1
    }
}

/// The rounded quotient lies within half a unit of the exact one.
pub proof fn lemma_round_half_even_near(a: int, b: int)
    requires
        0 <= a,
        0 < b,
    ensures
        2 * (round_half_even(a, b) * b - a) <= b,
        2 * (a - round_half_even(a, b) * b) <= b,
        0 <= round_half_even(a, b) <= a / b + 1,
        a / b <= round_half_even(a, b),
{
    let f = a / b;
    let r = a % b;
    assert(a == b * f + r && 0 <= r < b) by {
        vstd::arithmetic::div_mod::lemma_fundamental_div_mod(a, b);
    }
    assert(0 <= f) by {
        vstd::arithmetic::div_mod::lemma_div_pos_is_pos(a, b);
    }
    assert((f + 1) * b == f * b + b) by (nonlinear_arith);
    assert(f * b == b * f) by (nonlinear_arith);
}

/// A multiple of the divisor is its own rounded quotient.
pub proof fn lemma_round_half_even_exact(q: int, b: int)
    requires
        0 <= q,
        0 < b,
    ensures
        round_half_even(q * b, b) == q,
{
    vstd::arithmetic::div_mod::lemma_fundamental_div_mod_converse(q * b, b, q, 0);
}

/// Computes `a / b` rounded to the nearest integer, ties to even.
pub fn div_round_half_even(a: u128, b: u128) -> (q: u128)
    requires
        0 < b,
        a < u128::MAX,
    ensures
        q == round_half_even(a as int, b as int),
{
    let f: u128 = a / b;
    let r: u128 = a % b;
    proof {
        lemma_round_half_even_near(a as int, b as int);
        vstd::arithmetic::div_mod::lemma_fundamental_div_mod(a as int, b as int);
        assert(f * b <= a) by (nonlinear_arith)
            requires
                a == b * f + r,
                0 <= r,
        ;
        assert(f <= a) by (nonlinear_arith)
            requires
                f * b <= a,
                b >= 1,
                f >= 0,
        ;
    }
    if r < b - r {
        f
    } else if r > b - r {
        f + 1
    } else if f % 2 == 0 {
        f
    } else {
        f + 1
    }
}

/// The weight of the last binary digit that is kept when `n` is held to 53
/// significant binary digits: 1 below 2^53, and doubling with each further
/// power of two.
pub open spec fn last_place(n: int) -> int {
    if n < 0x20_0000_0000_0000 {
        1
    } else if n < 0x40_0000_0000_0000 {
        2
    } else if n < 0x80_0000_0000_0000 {
        4
    } else if n < 0x100_0000_0000_0000 {
        8
    } else if n < 0x200_0000_0000_0000 {
        16
    } else if n < 0x400_0000_0000_0000 {
        32
    } else if n < 0x800_0000_0000_0000 {
        64
    } else if n < 0x1000_0000_0000_0000 {
        128
    } else if n < 0x2000_0000_0000_0000 {
        256
    } else if n < 0x4000_0000_0000_0000 {
        512
    } else if n < 0x8000_0000_0000_0000 {
        1024
    } else {
        2048
    }
}

/// `n` held to 53 significant binary digits, for `n` below 2^64: the nearest
/// multiple of `last_place(n)`, ties to the even multiple.
pub open spec fn held_to_53_bits(n: int) -> int {
    round_half_even(n, last_place(n)) * last_place(n)
}

/// A count below 2^53 is held exactly.
pub proof fn lemma_small_is_held(n: int)
    requires
        0 <= n < 0x20_0000_0000_0000,
    ensures
        held_to_53_bits(n) == n,
{
    lemma_round_half_even_exact(n, 1);
}

/// Holding a count below 2^64 to 53 binary digits gives a multiple of its
/// last place that has at most 53 binary digits before that place, and moves
/// the count by half a last place at most.
pub proof fn lemma_held_is_near(n: int)
    requires
        0 <= n < 0x1_0000_0000_0000_0000,
    ensures
        held_to_53_bits(n) % last_place(n) == 0,
        0 <= held_to_53_bits(n) <= 0x20_0000_0000_0000 * last_place(n),
        2 * (held_to_53_bits(n) - n) <= last_place(n),
        2 * (n - held_to_53_bits(n)) <= last_place(n),
{
    let place = last_place(n);
    let q = round_half_even(n, place);
    lemma_round_half_even_near(n, place);
    vstd::arithmetic::div_mod::lemma_mod_multiples_basic(q, place);
    assert(q * place <= 0x20_0000_0000_0000 * place) by {
        if place == 1 {
        } else if place == 2 {
        } else if place == 4 {
        } else if place == 8 {
        } else if place == 16 {
        } else if place == 32 {
        } else if place == 64 {
        } else if place == 128 {
        } else if place == 256 {
        } else if place == 512 {
        } else if place == 1024 {
        } else {
        }
    }
    assert(0 <= q * place) by (nonlinear_arith)
        requires
            0 <= q,
            0 < place,
    ;
}

/// A last place divides 2048.
pub proof fn lemma_last_place_divides(n: int)
    ensures
        last_place(n) > 0,
        2048 == last_place(n) * (2048int / last_place(n)),
{
}

/// A multiple of 2048 is a multiple of every last place.
pub proof fn lemma_multiple_of_last_place(v: int, n: int)
    requires
        v % 2048 == 0,
    ensures
        v % last_place(n) == 0,
{
    let place = last_place(n);
    let k = 2048int / place;
    let j = v / 2048;
    lemma_last_place_divides(n);
    vstd::arithmetic::div_mod::lemma_fundamental_div_mod(v, 2048);
    assert(v == (j * k) * place) by (nonlinear_arith)
        requires
            v == 2048 * j,
            2048 == place * k,
    ;
    vstd::arithmetic::div_mod::lemma_fundamental_div_mod_converse(v, place, j * k, 0);
}

/// A count below 2^64 that is a multiple of 2048 is held exactly.
pub proof fn lemma_multiple_is_held(n: int)
    requires
        0 <= n < 0x1_0000_0000_0000_0000,
        n % 2048 == 0,
    ensures
        held_to_53_bits(n) == n,
{
    let place = last_place(n);
    let k = 2048int / place;
    let j = n / 2048;
    lemma_last_place_divides(n);
    vstd::arithmetic::div_mod::lemma_fundamental_div_mod(n, 2048);
    vstd::arithmetic::div_mod::lemma_div_pos_is_pos(n, 2048);
    assert(n == (j * k) * place) by (nonlinear_arith)
        requires
            n == 2048 * j,
            2048 == place * k,
    ;
    assert(0 <= j * k) by (nonlinear_arith)
        requires
            0 <= j,
            0 < k,
    ;
    lemma_round_half_even_exact(j * k, place);
}

/// Computes `n` held to 53 significant binary digits.
pub fn hold_to_53_bits(n: u64) -> (x: u128)
    ensures
        x == held_to_53_bits(n as int),
        x <= 0x1_0000_0000_0000_0000,
{
    let place: u128 = if n < 0x20_0000_0000_0000 {
        1
    } else if n < 0x40_0000_0000_0000 {
        2
    } else if n < 0x80_0000_0000_0000 {
        4
    } else if n < 0x100_0000_0000_0000 {
        8
    } else if n < 0x200_0000_0000_0000 {
        16
    } else if n < 0x400_0000_0000_0000 {
        32
    } else if n < 0x800_0000_0000_0000 {
        64
    } else if n < 0x1000_0000_0000_0000 {
        128
    } else if n < 0x2000_0000_0000_0000 {
        256
    } else if n < 0x4000_0000_0000_0000 {
        512
    } else if n < 0x8000_0000_0000_0000 {
        1024
    } else {
        2048
    };
    let q = div_round_half_even(n as u128, place);
    proof {
        lemma_held_is_near(n as int);
        assert(0x20_0000_0000_0000 * last_place(n as int) <= 0x1_0000_0000_0000_0000);
    }
    q * place
}

/// The power of two that scales the quotient `x / u` into the range of a
/// 53-digit binary significand, for `u / 2 <= x < 2048 * u`: 2^52 where the
/// quotient lies in `[1, 2)`, halving for each doubling of the quotient down
/// to 2^42, and 2^53 where the quotient lies below 1.
pub open spec fn binade_scale(x: int, u: int) -> int {
    if x >= 1024 * u {
        0x400_0000_0000
    } else if x >= 512 * u {
        0x800_0000_0000
    } else if x >= 256 * u {
        0x1000_0000_0000
    } else if x >= 128 * u {
        0x2000_0000_0000
    } else if x >= 64 * u {
        0x4000_0000_0000
    } else if x >= 32 * u {
        0x8000_0000_0000
    } else if x >= 16 * u {
        0x1_0000_0000_0000
    } else if x >= 8 * u {
        0x2_0000_0000_0000
    } else if x >= 4 * u {
        0x4_0000_0000_0000
    } else if x >= 2 * u {
        0x8_0000_0000_0000
    } else if x >= u {
        0x10_0000_0000_0000
    } else {
        0x20_0000_0000_0000
    }
}

/// The significand of the quotient `x / u` held to 53 significant binary
/// digits: the held quotient is this number divided by `binade_scale(x, u)`.
pub open spec fn quotient_significand(x: int, u: int) -> int {
    round_half_even(x * binade_scale(x, u), u)
}

/// The quotient `x / u`, held to 53 significant binary digits and then
/// rounded to one decimal place, counted in tenths; ties go to the even
/// neighbour at both steps.
pub open spec fn quotient_tenths(x: int, u: int) -> int {
    round_half_even(10 * quotient_significand(x, u), binade_scale(x, u))
}

/// Computes the scale of the quotient `x / u`.
pub fn scale_of_quotient(x: u128, u: u128) -> (s: u128)
    requires
        u <= 0x1000_0000_0000_0000,
    ensures
        s == binade_scale(x as int, u as int),
        is_binade_scale(s as int),
{
    if x >= 1024 * u {
        0x400_0000_0000
    } else if x >= 512 * u {
        0x800_0000_0000
    } else if x >= 256 * u {
        0x1000_0000_0000
    } else if x >= 128 * u {
        0x2000_0000_0000
    } else if x >= 64 * u {
        0x4000_0000_0000
    } else if x >= 32 * u {
        0x8000_0000_0000
    } else if x >= 16 * u {
        0x1_0000_0000_0000
    } else if x >= 8 * u {
        0x2_0000_0000_0000
    } else if x >= 4 * u {
        0x4_0000_0000_0000
    } else if x >= 2 * u {
        0x8_0000_0000_0000
    } else if x >= u {
        0x10_0000_0000_0000
    } else {
        0x20_0000_0000_0000
    }
}

/// Computes the quotient `x / u` in tenths, as `quotient_tenths` defines it.
pub fn tenths_of_quotient(x: u128, u: u128) -> (t: u128)
    requires
        0 < u <= 0x1000_0000_0000_0000,
        x <= 0x1_0000_0000_0000_0000,
    ensures
        t == quotient_tenths(x as int, u as int),
        u >= 1000 ==> t <= u64::MAX,
{
    let s = scale_of_quotient(x, u);
    assert(x * s <= 0x1_0000_0000_0000_0000 * 0x20_0000_0000_0000) by (nonlinear_arith)
        requires
            0 <= x <= 0x1_0000_0000_0000_0000,
            0 <= s <= 0x20_0000_0000_0000,
    ;
    let m = div_round_half_even(x * s, u);
    proof {
        lemma_round_half_even_near((x * s) as int, u as int);
        vstd::arithmetic::div_mod::lemma_div_is_ordered_by_denominator((x * s) as int, 1, u as int);
        vstd::arithmetic::div_mod::lemma_div_basics((x * s) as int);
    }
    let t = div_round_half_even(10 * m, s);
    proof {
        lemma_round_half_even_near((10 * m) as int, s as int);
        if u >= 1000 {
            let top = 0x1_0000_0000_0000_0000int;
            vstd::arithmetic::div_mod::lemma_div_is_ordered_by_denominator(
                (x * s) as int,
                1000,
                u as int,
            );
            assert(x * s <= top * s) by (nonlinear_arith)
                requires
                    x <= top,
                    s >= 0,
            ;
            vstd::arithmetic::div_mod::lemma_div_is_ordered((x * s) as int, top * s, 1000);
            assert(m <= (top * s) / 1000 + 1);
            lemma_tenths_fit(m as int, s as int);
        }
    }
    t
}

/// A significand no larger than a thousandth of 2^64 scaled, in tenths, stays
/// far below 2^64.
proof fn lemma_tenths_fit(m: int, s: int)
    requires
        0 <= m <= (0x1_0000_0000_0000_0000 * s) / 1000 + 1,
        is_binade_scale(s),
    ensures
        (10 * m) / s + 1 <= u64::MAX,
{
    let top = 0x1_0000_0000_0000_0000int;
    if s == 0x400_0000_0000 {
        assert(top * s == top * 0x400_0000_0000);
    } else if s == 0x800_0000_0000 {
        assert(top * s == top * 0x800_0000_0000);
    } else if s == 0x1000_0000_0000 {
        assert(top * s == top * 0x1000_0000_0000);
    } else if s == 0x2000_0000_0000 {
        assert(top * s == top * 0x2000_0000_0000);
    } else if s == 0x4000_0000_0000 {
        assert(top * s == top * 0x4000_0000_0000);
    } else if s == 0x8000_0000_0000 {
        assert(top * s == top * 0x8000_0000_0000);
    } else if s == 0x1_0000_0000_0000 {
        assert(top * s == top * 0x1_0000_0000_0000);
    } else if s == 0x2_0000_0000_0000 {
        assert(top * s == top * 0x2_0000_0000_0000);
    } else if s == 0x4_0000_0000_0000 {
        assert(top * s == top * 0x4_0000_0000_0000);
    } else if s == 0x8_0000_0000_0000 {
        assert(top * s == top * 0x8_0000_0000_0000);
    } else if s == 0x10_0000_0000_0000 {
        assert(top * s == top * 0x10_0000_0000_0000);
    } else {
        assert(top * s == top * 0x20_0000_0000_0000);
    }
}

/// Whether `s` is one of the twelve scales, 2^42 to 2^53.
pub open spec fn is_binade_scale(s: int) -> bool {
    s == 0x400_0000_0000 || s == 0x800_0000_0000 || s == 0x1000_0000_0000 || s
        == 0x2000_0000_0000 || s == 0x4000_0000_0000 || s == 0x8000_0000_0000 || s
        == 0x1_0000_0000_0000 || s == 0x2_0000_0000_0000 || s == 0x4_0000_0000_0000 || s
        == 0x8_0000_0000_0000 || s == 0x10_0000_0000_0000 || s == 0x20_0000_0000_0000
}

/// The scale of a quotient is one of the twelve scales, and more than half
/// the divisor where the dividend is below 2^53 and the divisor below 2^54.
pub proof fn lemma_binade_scale(x: int, u: int)
    requires
        0 <= x < 0x20_0000_0000_0000,
        0 < u < 0x40_0000_0000_0000,
    ensures
        is_binade_scale(binade_scale(x, u)),
        u < 2 * binade_scale(x, u),
{
}

/// Two roundings in a row stay within the sum of what each may add: with a
/// significand `m` within half a unit of `n * s / u` and tenths `t` within
/// half a unit of `10 * m / s`, `t * u` lies within `(u * s + 10 * u) / 2`
/// of `10 * n`, all taken `s` times.
proof fn lemma_two_roundings(n: int, u: int, s: int, m: int, t: int)
    requires
        0 < u,
        0 < s,
        2 * (m * u - n * s) <= u,
        2 * (n * s - m * u) <= u,
        2 * (t * s - 10 * m) <= s,
        2 * (10 * m - t * s) <= s,
    ensures
        2 * (t * u - 10 * n) * s <= u * s + 10 * u,
        2 * (10 * n - t * u) * s <= u * s + 10 * u,
{
    assert(2 * (t * s - 10 * m) * u <= s * u) by (nonlinear_arith)
        requires
            2 * (t * s - 10 * m) <= s,
            0 < u,
    ;
    assert(2 * (10 * m - t * s) * u <= s * u) by (nonlinear_arith)
        requires
            2 * (10 * m - t * s) <= s,
            0 < u,
    ;
    assert(2 * (t * u - 10 * n) * s == 2 * (t * s - 10 * m) * u + 20 * (m * u - n * s))
        by (nonlinear_arith);
    assert(2 * (10 * n - t * u) * s == 2 * (10 * m - t * s) * u + 20 * (n * s - m * u))
        by (nonlinear_arith);
    assert(s * u == u * s) by (nonlinear_arith);
}

/// Where the divisor is a multiple of 20 and the dividend is below 2^53, the
/// tenths of the quotient are a nearest whole number of tenths of the exact
/// quotient: holding the quotient to 53 binary digits first moves it across
/// no half of a tenth.
pub proof fn lemma_tenths_near_decimal(n: int, u: int)
    requires
        0 <= n < 0x20_0000_0000_0000,
        0 < u < 0x40_0000_0000_0000,
        u % 20 == 0,
    ensures
        2 * (quotient_tenths(n, u) * u - 10 * n) <= u,
        2 * (10 * n - quotient_tenths(n, u) * u) <= u,
        0 <= quotient_tenths(n, u),
{
    let s = binade_scale(n, u);
    let m = quotient_significand(n, u);
    let t = quotient_tenths(n, u);
    lemma_binade_scale(n, u);
    assert(0 <= n * s) by (nonlinear_arith)
        requires
            0 <= n,
            0 < s,
    ;
    lemma_round_half_even_near(n * s, u);
    assert(0 <= 10 * m);
    lemma_round_half_even_near(10 * m, s);
    lemma_two_roundings(n, u, s, m, t);
    let v = u / 20;
    assert(u == 20 * v);
    let f = 2 * v * t - n;
    assert(t * u - 10 * n == 10 * f) by (nonlinear_arith)
        requires
            u == 20 * v,
            f == 2 * v * t - n,
    ;
    // 20 * |f| * s <= 20 * v * s + 200 * v, and 10 * v < s
    if f >= v + 1 {
        assert(false) by (nonlinear_arith)
            requires
                f >= v + 1,
                2 * (10 * f) * s <= (20 * v) * s + 10 * (20 * v),
                20 * v < 2 * s,
                0 < s,
                0 < v,
        ;
    }
    if -f >= v + 1 {
        assert(false) by (nonlinear_arith)
            requires
                -f >= v + 1,
                2 * (-(10 * f)) * s <= (20 * v) * s + 10 * (20 * v),
                20 * v < 2 * s,
                0 < s,
                0 < v,
        ;
    }
}

/// Whether `u` is one of the first five powers of 1024.
pub open spec fn is_binary_power(u: int) -> bool {
    u == 0x400 || u == 0x10_0000 || u == 0x4000_0000 || u == 0x100_0000_0000 || u
        == 0x4_0000_0000_0000
}

/// A scale that is more than half a power of 1024 is a multiple of it.
proof fn lemma_scale_is_multiple(s: int, u: int)
    requires
        is_binade_scale(s),
        is_binary_power(u),
        u < 2 * s,
    ensures
        s % u == 0,
        s == (s / u) * u,
        0 < s / u,
{
    if u == 0x400 {
    } else if u == 0x10_0000 {
    } else if u == 0x4000_0000 {
    } else if u == 0x100_0000_0000 {
    } else {
    }
}

/// Where the divisor is a power of 1024 and the dividend is below 2^53, the
/// quotient is held exactly, and its tenths are a nearest whole number of
/// tenths of it.
pub proof fn lemma_tenths_near_binary(n: int, u: int)
    requires
        0 <= n < 0x20_0000_0000_0000,
        is_binary_power(u),
    ensures
        2 * (quotient_tenths(n, u) * u - 10 * n) <= u,
        2 * (10 * n - quotient_tenths(n, u) * u) <= u,
        0 <= quotient_tenths(n, u),
{
    let s = binade_scale(n, u);
    let m = quotient_significand(n, u);
    let t = quotient_tenths(n, u);
    lemma_binade_scale(n, u);
    lemma_scale_is_multiple(s, u);
    let k = s / u;
    assert(n * s == (n * k) * u) by (nonlinear_arith)
        requires
            s == k * u,
    ;
    assert(0 <= n * k) by (nonlinear_arith)
        requires
            0 <= n,
            0 < k,
    ;
    lemma_round_half_even_exact(n * k, u);
    assert(m == n * k);
    lemma_round_half_even_near(10 * m, s);
    // 2 * |t * s - 10 * n * k| <= s, with s == k * u
    assert(2 * (t * u - 10 * n) * k == 2 * (t * s - 10 * m)) by (nonlinear_arith)
        requires
            s == k * u,
            m == n * k,
    ;
    assert(2 * (10 * n - t * u) * k == 2 * (10 * m - t * s)) by (nonlinear_arith)
        requires
            s == k * u,
            m == n * k,
    ;
    assert(2 * (t * u - 10 * n) <= u) by (nonlinear_arith)
        requires
            2 * (t * u - 10 * n) * k <= k * u,
            0 < k,
    ;
    assert(2 * (10 * n - t * u) <= u) by (nonlinear_arith)
        requires
            2 * (10 * n - t * u) * k <= k * u,
            0 < k,
    ;
}

/// The quotient of a multiple of the divisor is held exactly and has
/// nothing to round: its tenths are ten times the multiple.
pub proof fn lemma_tenths_of_multiple(j: int, u: int)
    requires
        0 <= j,
        0 < u,
    ensures
        quotient_tenths(j * u, u) == 10 * j,
{
    let x = j * u;
    let s = binade_scale(x, u);
    assert(s > 0);
    assert(x * s == (j * s) * u) by (nonlinear_arith)
        requires
            x == j * u,
    ;
    assert(0 <= j * s) by (nonlinear_arith)
        requires
            0 <= j,
            0 < s,
    ;
    lemma_round_half_even_exact(j * s, u);
    assert(10 * (j * s) == (10 * j) * s) by (nonlinear_arith);
    lemma_round_half_even_exact(10 * j, s);
}

/// The same for a larger dividend that is a multiple of `p`, where a
/// twentieth of the divisor is a multiple of `p` too and the scale times `p`
/// is more than half the divisor: the tenths of the quotient are a nearest
/// whole number of tenths of the exact quotient.
pub proof fn lemma_tenths_near_decimal_held(n: int, u: int, p: int)
    requires
        0 <= n,
        0 < u,
        0 < p,
        n % p == 0,
        u % 20 == 0,
        (u / 20) % p == 0,
        u < 2 * binade_scale(n, u) * p,
    ensures
        2 * (quotient_tenths(n, u) * u - 10 * n) <= u,
        2 * (10 * n - quotient_tenths(n, u) * u) <= u,
        0 <= quotient_tenths(n, u),
{
    let s = binade_scale(n, u);
    let m = quotient_significand(n, u);
    let t = quotient_tenths(n, u);
    assert(s > 0);
    assert(0 <= n * s) by (nonlinear_arith)
        requires
            0 <= n,
            0 < s,
    ;
    lemma_round_half_even_near(n * s, u);
    lemma_round_half_even_near(10 * m, s);
    lemma_two_roundings(n, u, s, m, t);
    let v = u / 20;
    let a = n / p;
    let w = v / p;
    vstd::arithmetic::div_mod::lemma_fundamental_div_mod(n, p);
    vstd::arithmetic::div_mod::lemma_fundamental_div_mod(v, p);
    assert(u == 20 * v);
    // A twentieth of the divisor and the dividend are multiples of `p`, so
    // what lies between the tenths and the dividend is one too.
    let g = 2 * w * t - a;
    assert(t * u - 10 * n == 10 * (p * g)) by (nonlinear_arith)
        requires
            u == 20 * v,
            v == p * w,
            n == p * a,
            g == 2 * w * t - a,
    ;
    if g >= w + 1 {
        assert(false) by (nonlinear_arith)
            requires
                g >= w + 1,
                2 * (10 * (p * g)) * s <= (20 * (p * w)) * s + 10 * (20 * (p * w)),
                20 * (p * w) < 2 * s * p,
                0 < s,
                0 < p,
                0 <= w,
        ;
    }
    if -g >= w + 1 {
        assert(false) by (nonlinear_arith)
            requires
                -g >= w + 1,
                2 * (-(10 * (p * g))) * s <= (20 * (p * w)) * s + 10 * (20 * (p * w)),
                20 * (p * w) < 2 * s * p,
                0 < s,
                0 < p,
                0 <= w,
        ;
    }
    assert(p * g <= p * w && -(p * g) <= p * w) by (nonlinear_arith)
        requires
            g <= w,
            -g <= w,
            0 < p,
    ;
}

/// The same in the binary base for a count from 2^53 up to 2^60 that is a
/// multiple of its last place, divided by the fifth power of 1024: the
/// quotient is held exactly, and its tenths are a nearest whole number of
/// tenths of it.
pub proof fn lemma_tenths_near_binary_held(n: int)
    requires
        0x20_0000_0000_0000 <= n < 0x1000_0000_0000_0000,
        n % last_place(n) == 0,
    ensures
        2 * (quotient_tenths(n, 0x4_0000_0000_0000) * 0x4_0000_0000_0000 - 10 * n)
            <= 0x4_0000_0000_0000,
        2 * (10 * n - quotient_tenths(n, 0x4_0000_0000_0000) * 0x4_0000_0000_0000)
            <= 0x4_0000_0000_0000,
        0 <= quotient_tenths(n, 0x4_0000_0000_0000),
{
    let u = 0x4_0000_0000_0000int;
    let p = last_place(n);
    let s = binade_scale(n, u);
    let m = quotient_significand(n, u);
    let t = quotient_tenths(n, u);
    let a = n / p;
    assert(s * p == u);
    vstd::arithmetic::div_mod::lemma_fundamental_div_mod(n, p);
    vstd::arithmetic::div_mod::lemma_div_pos_is_pos(n, p);
    assert(n * s == a * u) by (nonlinear_arith)
        requires
            n == p * a,
            s * p == u,
    ;
    lemma_round_half_even_exact(a, u);
    assert(m == a);
    lemma_round_half_even_near(10 * m, s);
    assert(t * u - 10 * n == p * (t * s - 10 * m)) by (nonlinear_arith)
        requires
            n == p * a,
            s * p == u,
            m == a,
    ;
    assert(2 * (p * (t * s - 10 * m)) <= p * s && 2 * (p * (10 * m - t * s)) <= p * s)
        by (nonlinear_arith)
        requires
            2 * (t * s - 10 * m) <= s,
            2 * (10 * m - t * s) <= s,
            0 < p,
    ;
    assert(p * (10 * m - t * s) == -(p * (t * s - 10 * m))) by (nonlinear_arith);
}

} // verus!
