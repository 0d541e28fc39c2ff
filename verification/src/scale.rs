//! Scaling a length by a ratio of two lengths, rounded as double precision rounds.
//!
//! A frame that is wider than it may be is shrunk by the factor `limit / width`.  The factor
//! is a binary64 quotient, the new length a binary64 product cut off to an integer.  Both are
//! computed here on integers: a positive binary64 number is a significand below two to the
//! 53rd over (or times) a power of two, and both operations round to the nearest such number,
//! ties to the even significand.

use vstd::prelude::*;
use vstd::arithmetic::power2::*;

verus! {

/// Two to the 52nd, the least significand of a normal binary64 number.
pub const SIGNIFICAND_MIN: u128 = 0x10_0000_0000_0000;

/// Two to the 53rd, which every significand stays below.
pub const SIGNIFICAND_END: u128 = 0x20_0000_0000_0000;

/// The integer nearest to `n / d`, the even one of two that are equally near.
pub open spec fn nearest(n: int, d: int) -> int {
    let q = n / d;
    let rest = n % d;
    if 2 * rest < d || (2 * rest == d && q % 2 == 0) {
        q
    } else {
        q + 1
    }
}

/// How often `a` has to be doubled for `a / b` to reach the least significand.
pub open spec fn doublings(a: int, b: int) -> nat
    decreases 2 * (SIGNIFICAND_MIN * b) - a,
{
    if a <= 0 || a >= SIGNIFICAND_MIN * b {
        0
    } else {
        1 + doublings(2 * a, b)
    }
}

/// How often `x` has to be halved to drop below two to the 53rd.
pub open spec fn halvings(x: int) -> nat
    decreases x,
{
    if x < SIGNIFICAND_END {
        0
    } else {
        1 + halvings(x / 2)
    }
}

/// The significand of the binary64 quotient `a / b`, for `0 < a < b`: the quotient is this
/// over two to the power `doublings(a, b)`.
pub open spec fn significand(a: int, b: int) -> int {
    nearest(a * pow2(doublings(a, b)), b)
}

/// An integer rounded to the nearest binary64 number.
pub open spec fn rounded(x: int) -> int {
    nearest(x, pow2(halvings(x)) as int) * pow2(halvings(x))
}

/// `length * (limit / width)` in binary64 arithmetic, cut off to an integer, for
/// `limit < width`.
pub open spec fn scaled(length: int, limit: int, width: int) -> int {
    if limit <= 0 {
        0
    } else {
        rounded(length * significand(limit, width)) / (pow2(doublings(limit, width)) as int)
    }
}

/// `nearest` is off by at most a half.
pub proof fn lemma_nearest(n: int, d: int)
    requires
        n >= 0,
        d > 0,
    ensures
        -d <= 2 * (nearest(n, d) * d - n) <= d,
        nearest(n, d) >= 0,
{
    let q = n / d;
    let rest = n % d;
    vstd::arithmetic::div_mod::lemma_fundamental_div_mod(n, d);
    assert(0 <= rest < d);
    assert(q >= 0) by (nonlinear_arith)
        requires
            n == d * q + rest,
            rest < d,
            n >= 0,
            d > 0,
    ;
    assert(q * d == n - rest && (q + 1) * d == n - rest + d) by (nonlinear_arith)
        requires
            n == d * q + rest,
    ;
}

/// Of two integers that are equally near the even one is taken.
pub proof fn lemma_nearest_even(n: int, d: int)
    requires
        n >= 0,
        d > 0,
        2 * (nearest(n, d) * d - n) == d || 2 * (nearest(n, d) * d - n) == -d,
    ensures
        nearest(n, d) % 2 == 0,
{
    let q = n / d;
    let rest = n % d;
    vstd::arithmetic::div_mod::lemma_fundamental_div_mod(n, d);
    assert(q * d == n - rest && (q + 1) * d == n - rest + d) by (nonlinear_arith)
        requires
            n == d * q + rest,
    ;
}

/// A multiple of the unit that is not below `n` is not below `n` rounded to that unit.
pub proof fn lemma_nearest_below(n: int, d: int, bound: int)
    requires
        n >= 0,
        d > 0,
        n <= bound * d,
    ensures
        nearest(n, d) <= bound,
{
    let q = n / d;
    let rest = n % d;
    vstd::arithmetic::div_mod::lemma_fundamental_div_mod(n, d);
    assert(rest == 0 ==> q <= bound) by (nonlinear_arith)
        requires
            n == d * q + rest,
            n <= bound * d,
            d > 0,
    ;
    assert(rest > 0 ==> q + 1 <= bound) by (nonlinear_arith)
        requires
            n == d * q + rest,
            n <= bound * d,
            0 <= rest,
            d > 0,
    ;
}

/// Doubling `a` as often as `doublings` says brings `a / b` between the least significand
/// and its double.
pub proof fn lemma_doublings(a: int, b: int)
    requires
        0 < a < b,
    ensures
        SIGNIFICAND_MIN * b <= a * pow2(doublings(a, b)) < SIGNIFICAND_END * b,
        doublings(a, b) >= 53,
{
    lemma_doublings_from(a, b);
    let e = doublings(a, b);
    if e < 53 {
        lemma2_to64();
        lemma2_to64_rest();
        if e < 52 {
            lemma_pow2_strictly_increases(e, 52);
        }
        assert(a * pow2(e) < SIGNIFICAND_MIN * b) by (nonlinear_arith)
            requires
                0 < a < b,
                pow2(e) <= SIGNIFICAND_MIN,
        ;
    }
}

proof fn lemma_doublings_from(a: int, b: int)
    requires
        0 < a < SIGNIFICAND_END * b,
        b > 0,
    ensures
        SIGNIFICAND_MIN * b <= a * pow2(doublings(a, b)) < SIGNIFICAND_END * b,
    decreases 2 * (SIGNIFICAND_MIN * b) - a,
{
    if a >= SIGNIFICAND_MIN * b {
        lemma2_to64();
        assert(a * pow2(doublings(a, b)) == a) by (nonlinear_arith)
            requires
                pow2(doublings(a, b)) == 1,
        ;
    } else {
        lemma_doublings_from(2 * a, b);
        let e = doublings(2 * a, b);
        lemma_pow2_unfold((e + 1) as nat);
        assert((2 * a) * pow2(e) == a * (2 * pow2(e))) by (nonlinear_arith);
    }
}

/// Halving `x` as often as `halvings` says keeps `x` within a significand's worth of units.
pub proof fn lemma_halvings(x: int)
    requires
        x >= 0,
    ensures
        x < SIGNIFICAND_END * pow2(halvings(x)),
        halvings(x) > 0 ==> SIGNIFICAND_MIN * pow2(halvings(x)) <= x,
    decreases x,
{
    lemma2_to64();
    if x >= SIGNIFICAND_END {
        lemma_halvings(x / 2);
        let s = halvings(x / 2);
        lemma_pow2_unfold((s + 1) as nat);
        assert(SIGNIFICAND_END * (2 * pow2(s)) == 2 * (SIGNIFICAND_END * pow2(s)))
            by (nonlinear_arith);
        assert(SIGNIFICAND_MIN * (2 * pow2(s)) == 2 * (SIGNIFICAND_MIN * pow2(s)))
            by (nonlinear_arith);
    }
}

/// A product below two to the 85th is halved at most 32 times.
proof fn lemma_halvings_bound(x: int)
    requires
        0 <= x,
        x <= SIGNIFICAND_END * 0xffff_ffff,
    ensures
        halvings(x) <= 32,
        pow2(halvings(x)) <= 0x1_0000_0000,
{
    lemma_halvings(x);
    lemma2_to64();
    let s = halvings(x);
    if s > 32 {
        lemma_pow2_strictly_increases(32, s);
        assert(SIGNIFICAND_MIN * pow2(s) >= SIGNIFICAND_MIN * 0x2_0000_0000) by {
            lemma_pow2_unfold(s);
            if s > 33 {
                lemma_pow2_strictly_increases(32, (s - 1) as nat);
            }
            assert(pow2(s) >= 0x2_0000_0000);
        }
    } else if s < 32 {
        lemma_pow2_strictly_increases(s, 32);
    }
}

/// What the two roundings do to a scaled length: over the common unit, the rounded product is
/// off from the exact one by less than one unit of the result, and it does not exceed the
/// length itself.
pub proof fn lemma_scaled_parts(length: int, limit: int, width: int)
    requires
        0 <= length <= u32::MAX,
        0 < limit < width <= u32::MAX,
    ensures
        ({
            let m = significand(limit, width);
            let unit = pow2(doublings(limit, width)) as int;
            let p = rounded(length * m);
            &&& 0 < unit
            &&& SIGNIFICAND_MIN <= m <= SIGNIFICAND_END
            &&& m <= unit
            &&& -width <= 2 * (m * width - limit * unit) <= width
            &&& 0 <= p <= length * unit
            &&& -0x8000_0000 <= p - length * m <= 0x8000_0000
        }),
{
    let e = doublings(limit, width);
    let unit = pow2(e) as int;
    let a = limit * unit;
    let m = significand(limit, width);
    lemma_doublings(limit, width);
    lemma_pow2_pos(e);
    lemma_nearest(a, width);
    lemma_nearest_below(a, width, SIGNIFICAND_END as int);
    assert(m >= SIGNIFICAND_MIN) by {
        let q = a / width;
        assert(q >= SIGNIFICAND_MIN) by {
            vstd::arithmetic::div_mod::lemma_fundamental_div_mod(a, width);
            let rest = a % width;
            assert(q >= SIGNIFICAND_MIN) by (nonlinear_arith)
                requires
                    a == width * q + rest,
                    rest < width,
                    SIGNIFICAND_MIN * width <= a,
                    width > 0,
            ;
        }
    }
    assert(m <= unit) by {
        assert(a <= unit * width) by (nonlinear_arith)
            requires
                a == limit * unit,
                limit < width,
                unit > 0,
        ;
        lemma_nearest_below(a, width, unit);
    }
    let x = length * m;
    assert(0 <= x <= SIGNIFICAND_END * 0xffff_ffff) by (nonlinear_arith)
        requires
            x == length * m,
            0 <= length <= 0xffff_ffff,
            0 <= m <= SIGNIFICAND_END,
    ;
    let s = halvings(x);
    let step = pow2(s) as int;
    lemma_halvings_bound(x);
    lemma_pow2_pos(s);
    lemma_nearest(x, step);
    let y = nearest(x, step);
    assert(rounded(x) == y * step);
    assert(y * step >= 0) by (nonlinear_arith)
        requires
            y >= 0,
            step > 0,
    ;
    // The length in units is a multiple of the rounding step, so rounding cannot pass it.
    let wide = pow2((e - s) as nat) as int;
    assert(unit == wide * step) by {
        lemma_pow2_adds((e - s) as nat, s);
        assert((e - s) as nat + s == e);
    }
    assert(x <= (length * wide) * step) by (nonlinear_arith)
        requires
            x == length * m,
            m <= wide * step,
            0 <= length,
    ;
    lemma_nearest_below(x, step, length * wide);
    assert(y * step <= length * unit) by (nonlinear_arith)
        requires
            y <= length * wide,
            unit == wide * step,
            step > 0,
    ;
}

/// A scaled length is at most the length itself.
pub proof fn lemma_scaled_shrinks(length: int, limit: int, width: int)
    requires
        0 <= length <= u32::MAX,
        0 <= limit < width <= u32::MAX,
    ensures
        0 <= scaled(length, limit, width) <= length,
{
    if limit > 0 {
        lemma_scaled_parts(length, limit, width);
        let unit = pow2(doublings(limit, width)) as int;
        let p = rounded(length * significand(limit, width));
        vstd::arithmetic::div_mod::lemma_div_is_ordered(p, length * unit, unit);
        vstd::arithmetic::div_mod::lemma_div_pos_is_pos(p, unit);
        vstd::arithmetic::div_mod::lemma_div_by_multiple(length, unit);
    }
}

/// A scaled length differs from the exact quotient `length * limit / width` by less than two
/// below and less than one above.
pub proof fn lemma_scaled_near(length: int, limit: int, width: int)
    requires
        0 <= length <= u32::MAX,
        0 <= limit < width <= u32::MAX,
    ensures
        (scaled(length, limit, width) - 1) * width < length * limit,
        length * limit < (scaled(length, limit, width) + 2) * width,
{
    if limit == 0 {
        let r = scaled(length, limit, width);
        assert((r - 1) * width < length * limit && length * limit < (r + 2) * width)
            by (nonlinear_arith)
            requires
                limit == 0,
                r == 0,
                width > 0,
        ;
    } else {
        lemma_scaled_parts(length, limit, width);
        lemma_scaled_near_cut(length, limit, width);
    }
}

proof fn lemma_scaled_near_cut(length: int, limit: int, width: int)
    requires
        0 <= length <= u32::MAX,
        0 < limit < width <= u32::MAX,
    ensures
        (scaled(length, limit, width) - 1) * width < length * limit,
        length * limit < (scaled(length, limit, width) + 2) * width,
{
    lemma_scaled_parts(length, limit, width);
    lemma_doublings(limit, width);
    let m = significand(limit, width);
    let e = doublings(limit, width);
    let unit = pow2(e) as int;
    let p = rounded(length * m);
    let r = scaled(length, limit, width);
    lemma2_to64();
    lemma2_to64_rest();
    if e > 53 {
        lemma_pow2_strictly_increases(53, e);
    }
    assert(unit >= SIGNIFICAND_END);
    vstd::arithmetic::div_mod::lemma_fundamental_div_mod(p, unit);
    let rest = p % unit;
    assert(p == unit * r + rest && 0 <= rest < unit);
    // Everything over the common denominator `2 * width * unit`.
    let exact = length * limit;
    let drift = m * width - limit * unit;
    assert(2 * (p * width) - 2 * (exact * unit) == 2 * ((p - length * m) * width) + length * (2
        * drift)) by (nonlinear_arith)
        requires
            exact == length * limit,
            drift == m * width - limit * unit,
    ;
    assert(-(0x1_0000_0000 * width) <= 2 * ((p - length * m) * width) <= 0x1_0000_0000 * width)
        by (nonlinear_arith)
        requires
            -0x8000_0000 <= p - length * m <= 0x8000_0000,
            width > 0,
    ;
    assert(-(0xffff_ffff * width) <= length * (2 * drift) <= 0xffff_ffff * width)
        by (nonlinear_arith)
        requires
            -width <= 2 * drift <= width,
            0 <= length <= 0xffff_ffff,
            width > 0,
    ;
    assert(0x2_0000_0000 * width < 2 * (unit * width)) by (nonlinear_arith)
        requires
            unit >= 0x20_0000_0000_0000,
            width > 0,
    ;
    // |p * width - exact * unit| < unit * width
    assert(p * width - exact * unit < unit * width);
    assert(exact * unit - p * width < unit * width);
    assert((r - 1) * width < exact) by (nonlinear_arith)
        requires
            p == unit * r + rest,
            0 <= rest,
            p * width - exact * unit < unit * width,
            unit > 0,
            width > 0,
    ;
    assert(exact < (r + 2) * width) by (nonlinear_arith)
        requires
            p == unit * r + rest,
            rest < unit,
            exact * unit - p * width < unit * width,
            unit > 0,
            width > 0,
    ;
}

/// Scaling the width itself gives the limit, or one less where the product rounds down.
pub proof fn lemma_scaled_width(limit: int, width: int)
    requires
        0 < limit < width <= u32::MAX,
    ensures
        limit - 1 <= scaled(width, limit, width) <= limit,
{
    lemma_scaled_near(width, limit, width);
    let r = scaled(width, limit, width);
    assert(r - 1 < limit && limit < r + 2) by (nonlinear_arith)
        requires
            (r - 1) * width < width * limit,
            width * limit < (r + 2) * width,
            width > 0,
    ;
}

/// A multiple of the step is not changed by rounding to that step.
proof fn lemma_nearest_exact(q: int, d: int)
    requires
        q >= 0,
        d > 0,
    ensures
        nearest(q * d, d) == q,
{
    vstd::arithmetic::div_mod::lemma_div_by_multiple(q, d);
    vstd::arithmetic::div_mod::lemma_mod_multiples_basic(q, d);
}

/// A factor of one half, one quarter and so on is exact: the length is divided, and what
/// remains is cut off.
pub proof fn lemma_scaled_divides(length: int, limit: int, k: nat)
    requires
        0 <= length <= u32::MAX,
        0 < limit,
        k >= 1,
        limit * pow2(k) <= u32::MAX,
    ensures
        scaled(length, limit, limit * pow2(k)) == length / (pow2(k) as int),
{
    let part = pow2(k) as int;
    let width = limit * part;
    lemma2_to64();
    lemma2_to64_rest();
    lemma_pow2_strictly_increases(0, k);
    assert(limit < width) by (nonlinear_arith)
        requires
            width == limit * part,
            part > 1,
            limit > 0,
    ;
    lemma_doublings(limit, width);
    let e = doublings(limit, width);
    let min = SIGNIFICAND_MIN as int;
    // The factor is two to the minus k: doubled 52 + k times it is the least significand.
    let exact = pow2((52 + k) as nat) as int;
    lemma_pow2_adds(52, k);
    assert(exact == min * part);
    assert(limit * exact == min * width) by (nonlinear_arith)
        requires
            exact == min * part,
            width == limit * part,
    ;
    if e > 52 + k {
        lemma_pow2_unfold(e);
        if e - 1 > 52 + k {
            lemma_pow2_strictly_increases((52 + k) as nat, (e - 1) as nat);
        }
        assert(limit * pow2(e) >= 2 * (limit * exact)) by (nonlinear_arith)
            requires
                pow2(e) >= 2 * exact,
                limit > 0,
        ;
    } else if e < 52 + k {
        lemma_pow2_strictly_increases(e, (52 + k) as nat);
        assert(limit * pow2(e) < limit * exact) by (nonlinear_arith)
            requires
                pow2(e) < exact,
                limit > 0,
        ;
    }
    assert(e == 52 + k);
    lemma_nearest_exact(min, width);
    assert(significand(limit, width) == min);
    // The product is a multiple of every step that it can be rounded to.
    let x = length * min;
    assert(0 <= x <= SIGNIFICAND_END * 0xffff_ffff);
    lemma_halvings_bound(x);
    let s = halvings(x);
    let step = pow2(s) as int;
    let wide = pow2((52 - s) as nat) as int;
    lemma_pow2_adds((52 - s) as nat, s);
    lemma_pow2_pos(s);
    assert(x == (length * wide) * step) by (nonlinear_arith)
        requires
            x == length * min,
            min == wide * step,
    ;
    lemma_nearest_exact(length * wide, step);
    assert(rounded(x) == x);
    vstd::arithmetic::div_mod::lemma_div_denominator(x, min, part);
    vstd::arithmetic::div_mod::lemma_div_by_multiple(length, min);
}

/// Multiplies `length` by `limit / width` in binary64 arithmetic and cuts off the fraction.
pub fn scale_length(length: u32, limit: u32, width: u32) -> (r: u32)
    requires
        limit < width,
    ensures
        r == scaled(length as int, limit as int, width as int),
{
    if limit == 0 {
        return 0;
    }
    let goal: u128 = SIGNIFICAND_MIN * (width as u128);
    let mut a: u128 = limit as u128;
    let mut unit: u128 = 1;
    let ghost mut e: nat = 0;
    proof {
        lemma2_to64();
        lemma_doublings(limit as int, width as int);
    }
    while a < goal
        invariant
            goal == SIGNIFICAND_MIN * width,
            0 < limit < width,
            0 < a < 2 * goal,
            unit == pow2(e),
            a == limit * unit,
            doublings(limit as int, width as int) == e + doublings(a as int, width as int),
        decreases 2 * goal - a,
    {
        proof {
            lemma_pow2_unfold((e + 1) as nat);
            assert(2 * a == limit * (2 * unit)) by (nonlinear_arith)
                requires
                    a == limit * unit,
            ;
            assert(unit <= a) by (nonlinear_arith)
                requires
                    a == limit * unit,
                    limit >= 1,
            ;
            e = e + 1;
        }
        a = a * 2;
        unit = unit * 2;
    }
    assert(e == doublings(limit as int, width as int));
    let m: u128 = round_div(a, width as u128);
    proof {
        lemma_scaled_parts(length as int, limit as int, width as int);
        assert(length * m <= 0xffff_ffff * SIGNIFICAND_END) by (nonlinear_arith)
            requires
                0 <= length <= 0xffff_ffff,
                0 <= m <= SIGNIFICAND_END,
        ;
    }
    let x: u128 = (length as u128) * m;
    let p: u128 = round_binary64(x);
    proof {
        lemma_scaled_shrinks(length as int, limit as int, width as int);
    }
    (p / unit) as u32
}

/// Divides and rounds to the nearest integer, ties to even.
fn round_div(n: u128, d: u128) -> (r: u128)
    requires
        0 < d <= u64::MAX,
        n < u128::MAX,
    ensures
        r == nearest(n as int, d as int),
{
    let q: u128 = n / d;
    let rest: u128 = n % d;
    if 2 * rest < d || (2 * rest == d && q % 2 == 0) {
        q
    } else {
        proof {
            assert(q <= n) by (nonlinear_arith)
                requires
                    q == n / d,
                    d > 0,
                    n >= 0,
            ;
        }
        q + 1
    }
}

/// Rounds an integer to the nearest binary64 number.
fn round_binary64(x: u128) -> (r: u128)
    requires
        x <= SIGNIFICAND_END * 0xffff_ffff,
    ensures
        r == rounded(x as int),
{
    let mut step: u128 = 1;
    let mut rest: u128 = x;
    let ghost mut s: nat = 0;
    proof {
        lemma2_to64();
        lemma_halvings_bound(x as int);
    }
    while rest >= SIGNIFICAND_END
        invariant
            step == pow2(s),
            halvings(x as int) == s + halvings(rest as int),
            halvings(x as int) <= 32,
        decreases rest,
    {
        proof {
            lemma_pow2_unfold((s + 1) as nat);
            lemma2_to64();
            if s < 32 {
                lemma_pow2_strictly_increases(s, 32);
            }
            s = s + 1;
        }
        step = step * 2;
        rest = rest / 2;
    }
    proof {
        lemma_nearest(x as int, step as int);
        let y = nearest(x as int, step as int);
        assert(y * step <= u128::MAX);
        assert(y <= y * step) by (nonlinear_arith)
            requires
                y >= 0,
                step >= 1,
        ;
    }
    let y: u128 = round_div(x, step);
    y * step
}

} // verus!
