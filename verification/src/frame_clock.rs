//! The number of frame periods that have passed since a capture started.
//!
//! The count is what binary64 arithmetic gives for `seconds * rate`: the seconds,
//! their fraction, the sum and the product are each rounded to the nearest number
//! with 53 significant bits, ties to even. Everything is held as a multiple of
//! one small unit, `1 / pow2(UNIT_BITS)` of a second (or of a frame).

use vstd::arithmetic::div_mod::*;
use vstd::arithmetic::mul::*;
use vstd::arithmetic::power2::*;
use vstd::prelude::*;

use crate::time::{TimeSpan, NANOS_PER_SEC};

verus! {

/// How many bits a binary64 number has for its digits.
pub const DIGIT_BITS: u32 = 53;

/// The smallest binary64 step that occurs: one nanosecond is more than
/// `pow2(-30)` of a second, and 52 more bits stand behind its first.
pub const UNIT_BITS: u32 = 82;

/// `num / den` rounded to the nearest integer, a tie to the even one.
pub open spec fn half_even(num: nat, den: nat) -> nat {
    let whole = num / den;
    let rest = num % den;
    if 2 * rest < den || (2 * rest == den && whole % 2 == 0) {
        whole
    } else {
        whole + 1
    }
}

/// How many low bits of `n` do not fit into the digits.
pub open spec fn excess_bits(n: nat) -> nat
    decreases n,
{
    if n < pow2(DIGIT_BITS as nat) {
        0
    } else {
        proof {
            lemma_pow2_pos(DIGIT_BITS as nat);
        }
        1 + excess_bits(n / 2)
    }
}

/// The multiple of the unit nearest to `num / den` that fits into the digits.
pub open spec fn nearest(num: nat, den: nat) -> nat {
    let step = pow2(excess_bits(num / den));
    half_even(num, den * step) * step
}

/// A span in seconds, as a number of units.
pub open spec fn seconds(nanos: nat) -> nat {
    let unit = pow2(UNIT_BITS as nat);
    let whole = nearest(nanos / NANOS_PER_SEC as nat, 1) * unit;
    let part = nearest((nanos % NANOS_PER_SEC as nat) * unit, NANOS_PER_SEC as nat);
    nearest(whole + part, 1)
}

/// The whole frame periods in a span, at `rate` frames per second.
pub open spec fn frame_periods(nanos: nat, rate: nat) -> nat {
    nearest(seconds(nanos) * rate, 1) / pow2(UNIT_BITS as nat)
}

/// A number of units that fits into the digits: `mantissa * pow2(shift)`.
struct Rounded {
    mantissa: u64,
    shift: u32,
}

impl Rounded {
    spec fn value(self) -> nat {
        self.mantissa as nat * pow2(self.shift as nat)
    }
}

proof fn lemma_pow2_monotone(a: nat, b: nat)
    requires
        a <= b,
    ensures
        0 < pow2(a) <= pow2(b),
{
    lemma_pow2_pos(a);
    if a < b {
        lemma_pow2_strictly_increases(a, b);
    }
}

/// Every bit above the digits is one step of `excess_bits`.
proof fn lemma_excess_splits(n: nat, bits: nat)
    requires
        n >= pow2((52 + bits) as nat),
    ensures
        excess_bits(n) == bits + excess_bits(n / pow2(bits)),
    decreases bits,
{
    lemma_pow2_pos(bits);
    if bits == 0 {
        lemma2_to64();
        assert(n / 1 == n);
    } else {
        let before = (bits - 1) as nat;
        lemma_pow2_monotone(53, (52 + bits) as nat);
        lemma_pow2_unfold((52 + bits) as nat);
        lemma_pow2_unfold(bits);
        lemma_pow2_pos(before);
        assert(n / 2 >= pow2((52 + before) as nat));
        lemma_excess_splits(n / 2, before);
        lemma_div_denominator(n as int, 2, pow2(before) as int);
    }
}

/// A number of at most `53 + bits` bits has at most `bits` too many.
proof fn lemma_excess_bound(n: nat, bits: nat)
    requires
        n < pow2((53 + bits) as nat),
    ensures
        excess_bits(n) <= bits,
    decreases bits,
{
    if bits > 0 && n >= pow2(53) {
        lemma_pow2_unfold((53 + bits) as nat);
        lemma_excess_bound(n / 2, (bits - 1) as nat);
    }
}

/// What is left above the excess bits fits into the digits.
proof fn lemma_excess_leaves_digits(n: nat)
    ensures
        n / pow2(excess_bits(n)) < pow2(53),
        pow2(excess_bits(n)) > 0,
        excess_bits(n) > 0 ==> n >= pow2((52 + excess_bits(n)) as nat),
    decreases n,
{
    let bits = excess_bits(n);
    lemma_pow2_pos(bits);
    lemma2_to64();
    if n >= pow2(53) {
        lemma2_to64_rest();
        lemma_excess_leaves_digits(n / 2);
        let before = excess_bits(n / 2);
        lemma_pow2_unfold(bits);
        lemma_pow2_unfold((52 + bits) as nat);
        lemma_div_denominator(n as int, 2, pow2(before) as int);
        if before == 0 {
            assert(pow2(53) == 2 * pow2(52)) by {
                lemma_pow2_unfold(53);
            }
        }
    } else {
        assert(n / 1 == n);
    }
}

/// Multiplying both sides of a ratio does not change how it rounds.
proof fn lemma_half_even_scales(num: nat, den: nat, factor: nat)
    requires
        den > 0,
        factor > 0,
    ensures
        half_even(num * factor, den * factor) == half_even(num, den),
{
    let whole = num / den;
    let rest = num % den;
    lemma_fundamental_div_mod(num as int, den as int);
    assert(num * factor == whole * (den * factor) + rest * factor && rest * factor < den * factor
        && (2 * rest < den <==> 2 * (rest * factor) < den * factor) && (2 * rest == den
        <==> 2 * (rest * factor) == den * factor)) by (nonlinear_arith)
        requires
            num == den * whole + rest,
            rest < den,
            factor > 0,
    ;
    lemma_fundamental_div_mod_converse(
        (num * factor) as int,
        (den * factor) as int,
        whole as int,
        (rest * factor) as int,
    );
}

/// A number that fits into the digits once its low zeros are dropped is its own
/// nearest one.
proof fn lemma_nearest_exact(digits: nat, bits: nat)
    requires
        digits < pow2(53),
    ensures
        nearest(digits * pow2(bits), 1) == digits * pow2(bits),
{
    let n = digits * pow2(bits);
    let excess = excess_bits(n);
    lemma_pow2_adds(53, bits);
    lemma_pow2_pos(bits);
    assert(digits * pow2(bits) < pow2(53) * pow2(bits)) by (nonlinear_arith)
        requires
            digits < pow2(53),
            pow2(bits) > 0,
    ;
    lemma_excess_bound(n, bits);
    assert(n / 1 == n);
    lemma_pow2_adds((bits - excess) as nat, excess);
    lemma_pow2_pos(excess);
    let quotient = digits * pow2((bits - excess) as nat);
    lemma_mul_is_associative(digits as int, pow2((bits - excess) as nat) as int, pow2(excess) as int);
    assert(n == quotient * pow2(excess));
    lemma_fundamental_div_mod_converse(n as int, pow2(excess) as int, quotient as int, 0);
    assert(1 * pow2(excess) == pow2(excess));
}

/// Rounding commutes with a change of the unit by a power of two.
proof fn lemma_nearest_scales(n: nat, bits: nat)
    ensures
        nearest(n * pow2(bits), 1) == nearest(n, 1) * pow2(bits),
{
    lemma_pow2_pos(bits);
    if n < pow2(53) {
        lemma_nearest_exact(n, bits);
        lemma_nearest_exact(n, 0);
        lemma2_to64();
        assert(n * 1 == n);
    } else {
        let scaled = n * pow2(bits);
        lemma_pow2_adds(53, bits);
        lemma_pow2_monotone((52 + bits) as nat, (53 + bits) as nat);
        assert(n * pow2(bits) >= pow2(53) * pow2(bits)) by (nonlinear_arith)
            requires
                n >= pow2(53),
        ;
        lemma_excess_splits(scaled, bits);
        assert(scaled / pow2(bits) == n) by {
            lemma_div_multiples_vanish(n as int, pow2(bits) as int);
            lemma_mul_is_commutative(n as int, pow2(bits) as int);
        }
        let excess = excess_bits(n);
        lemma_pow2_adds(excess, bits);
        lemma_pow2_pos(excess);
        assert(n / 1 == n);
        assert(scaled / 1 == scaled);
        lemma_half_even_scales(n, pow2(excess), pow2(bits));
        let rounded = half_even(n, pow2(excess));
        lemma_mul_is_associative(rounded as int, pow2(excess) as int, pow2(bits) as int);
        assert(1 * pow2(excess) == pow2(excess));
        assert(1 * pow2(excess + bits) == pow2(excess + bits));
    }
}

/// Rounding moves a number by no more than one part in `pow2(53)`.
proof fn lemma_nearest_error(num: nat, den: nat)
    requires
        den > 0,
        num / den >= pow2(52),
    ensures
        pow2(53) * (nearest(num, den) * den) <= (pow2(53) + 1) * num,
        pow2(53) * (nearest(num, den) * den) >= (pow2(53) - 1) * num,
{
    let quotient = num / den;
    let excess = excess_bits(quotient);
    let step = pow2(excess);
    let wide = den * step;
    let rounded = half_even(num, wide);
    lemma_excess_leaves_digits(quotient);
    lemma_pow2_adds(52, excess);
    lemma_pow2_unfold(53);
    lemma2_to64();
    assert(quotient >= pow2(52) * step);
    lemma_mul_strictly_positive(den as int, step as int);
    lemma_fundamental_div_mod(num as int, den as int);
    lemma_fundamental_div_mod(num as int, wide as int);
    let whole = num / wide;
    let rest = num % wide;
    assert(pow2(52) * wide <= num) by (nonlinear_arith)
        requires
            quotient >= pow2(52) * step,
            num == den * quotient + num % den,
            num % den >= 0,
            wide == den * step,
            den > 0,
    ;
    assert(2 * (rounded * wide) <= 2 * num + wide && 2 * (rounded * wide) >= 2 * num - wide)
        by (nonlinear_arith)
        requires
            num == wide * whole + rest,
            0 <= rest < wide,
            rounded == whole && 2 * rest <= wide || rounded == whole + 1 && 2 * rest >= wide,
    ;
    assert(nearest(num, den) * den == rounded * wide) by (nonlinear_arith)
        requires
            nearest(num, den) == rounded * step,
            wide == den * step,
    ;
    let product = rounded * wide;
    assert(pow2(53) * product <= (pow2(53) + 1) * num && pow2(53) * product >= (pow2(53) - 1) * num)
        by (nonlinear_arith)
        requires
            2 * product <= 2 * num + wide,
            2 * product >= 2 * num - wide,
            pow2(52) * wide <= num,
            pow2(53) == 2 * pow2(52),
    ;
}

/// Three roundings after each other move a number by no more than four parts.
proof fn lemma_errors_add(m: int, t: int, g: int, sum: int, s: int, r: int, p: int)
    requires
        m >= 4,
        t >= 0,
        g > 0,
        sum >= 0,
        s >= 0,
        r >= 0,
        p >= 0,
        m * (sum * g) <= (m + 1) * t,
        m * (sum * g) >= (m - 1) * t,
        m * s <= (m + 1) * sum,
        m * s >= (m - 1) * sum,
        m * p <= (m + 1) * (s * r),
        m * p >= (m - 1) * (s * r),
    ensures
        m * (p * g) <= (m + 4) * (t * r),
        m * (p * g) >= (m - 4) * (t * r),
{
    let a = sum * g;
    let b = s * g;
    let c = p * g;
    assert(m * b <= (m + 1) * a && m * b >= (m - 1) * a) by (nonlinear_arith)
        requires
            m * s <= (m + 1) * sum,
            m * s >= (m - 1) * sum,
            a == sum * g,
            b == s * g,
            g > 0,
    ;
    assert(m * c <= (m + 1) * (b * r) && m * c >= (m - 1) * (b * r)) by (nonlinear_arith)
        requires
            m * p <= (m + 1) * (s * r),
            m * p >= (m - 1) * (s * r),
            b == s * g,
            c == p * g,
            g > 0,
    ;
    assert(m * (m * b) <= (m + 1) * (m + 1) * t && m * (m * b) >= (m - 1) * (m - 1) * t)
        by (nonlinear_arith)
        requires
            m * b <= (m + 1) * a,
            m * b >= (m - 1) * a,
            m * a <= (m + 1) * t,
            m * a >= (m - 1) * t,
            m >= 4,
    ;
    let q = t * r;
    let d = b * r;
    assert(m * (m * d) <= (m + 1) * (m + 1) * q && m * (m * d) >= (m - 1) * (m - 1) * q && q >= 0)
        by (nonlinear_arith)
        requires
            m * (m * b) <= (m + 1) * (m + 1) * t,
            m * (m * b) >= (m - 1) * (m - 1) * t,
            d == b * r,
            q == t * r,
            r >= 0,
            t >= 0,
    ;
    assert(m * (m * (m * c)) <= (m + 1) * ((m + 1) * (m + 1) * q) && m * (m * (m * c)) >= (m - 1)
        * ((m - 1) * (m - 1) * q)) by (nonlinear_arith)
        requires
            m * c <= (m + 1) * d,
            m * c >= (m - 1) * d,
            m * (m * d) <= (m + 1) * (m + 1) * q,
            m * (m * d) >= (m - 1) * (m - 1) * q,
            m >= 4,
    ;
    assert((m + 1) * ((m + 1) * (m + 1) * q) <= m * (m * ((m + 4) * q)) && (m - 1) * ((m - 1) * (m
        - 1) * q) >= m * (m * ((m - 4) * q))) by (nonlinear_arith)
        requires
            m >= 4,
            q >= 0,
    ;
    let low = (m - 4) * q;
    let high = (m + 4) * q;
    let mid = m * c;
    assert(low <= mid <= high) by (nonlinear_arith)
        requires
            m * (m * low) <= m * (m * mid),
            m * (m * mid) <= m * (m * high),
            m >= 4,
    ;
}

/// Zero rounds to zero.
proof fn lemma_nearest_zero(den: nat)
    requires
        den > 0,
    ensures
        nearest(0, den) == 0,
{
    lemma2_to64();
    assert(0nat / den == 0);
    assert(excess_bits(0) == 0);
    assert(half_even(0, den * 1) == 0);
}

/// The seconds are nearest to what they stand for, up to two roundings.
proof fn lemma_seconds_error(nanos: nat)
    requires
        nanos > 0,
        nanos / (NANOS_PER_SEC as nat) < pow2(53),
    ensures
        ({
            let unit = pow2(UNIT_BITS as nat);
            let part = nearest((nanos % NANOS_PER_SEC as nat) * unit, NANOS_PER_SEC as nat);
            let sum = (nanos / NANOS_PER_SEC as nat) * unit + part;
            &&& sum >= pow2(52)
            &&& seconds(nanos) == nearest(sum, 1)
            &&& pow2(53) * (sum * NANOS_PER_SEC as nat) <= (pow2(53) + 1) * (nanos * unit)
            &&& pow2(53) * (sum * NANOS_PER_SEC as nat) >= (pow2(53) - 1) * (nanos * unit)
        }),
{
    let g = NANOS_PER_SEC as nat;
    let unit = pow2(UNIT_BITS as nat);
    let m = pow2(53);
    let whole = nanos / g;
    let rest = nanos % g;
    let part = nearest(rest * unit, g);
    let sum = whole * unit + part;
    lemma2_to64();
    lemma2_to64_rest();
    lemma_pow2_adds(52, 30);
    lemma_nearest_exact(whole, 0);
    assert(whole * 1 == whole);
    lemma_fundamental_div_mod(nanos as int, g as int);
    if rest == 0 {
        lemma_nearest_exact(0, 0);
        assert(0 * unit == 0);
        lemma_nearest_zero(g);
        assert(whole >= 1);
        assert(sum >= unit) by (nonlinear_arith)
            requires
                sum == whole * unit,
                whole >= 1,
        ;
        assert(sum * g == nanos * unit) by (nonlinear_arith)
            requires
                sum == whole * unit,
                nanos == g * whole,
        ;
        let t = nanos * unit;
        assert(m * t <= (m + 1) * t && m * t >= (m - 1) * t) by (nonlinear_arith)
            requires
                t >= 0,
        ;
    } else {
        let num = rest * unit;
        assert(num >= pow2(52) * g) by (nonlinear_arith)
            requires
                num == rest * unit,
                rest >= 1,
                unit == pow2(52) * pow2(30),
                pow2(30) >= g,
        ;
        lemma_div_is_ordered((pow2(52) * g) as int, num as int, g as int);
        lemma_div_by_multiple(pow2(52) as int, g as int);
        lemma_nearest_error(num, g);
        lemma_nearest_at_least(num, g);
        let t = nanos * unit;
        assert(sum * g - t == part * g - num && num <= t) by (nonlinear_arith)
            requires
                sum == whole * unit + part,
                t == nanos * unit,
                nanos == g * whole + rest,
                num == rest * unit,
                whole >= 0,
        ;
        let x = part * g;
        let y = sum * g;
        assert(m * y <= (m + 1) * t && m * y >= (m - 1) * t) by (nonlinear_arith)
            requires
                m * x <= (m + 1) * num,
                m * x >= (m - 1) * num,
                y - t == x - num,
                num <= t,
        ;
        assert(whole * unit >= 0) by (nonlinear_arith);
    }
}

/// A number with all its digits keeps them when it is rounded.
proof fn lemma_nearest_at_least(num: nat, den: nat)
    requires
        den > 0,
        num / den >= pow2(52),
    ensures
        nearest(num, den) >= pow2(52),
{
    let quotient = num / den;
    let excess = excess_bits(quotient);
    let step = pow2(excess);
    lemma_excess_leaves_digits(quotient);
    lemma_pow2_adds(52, excess);
    lemma2_to64();
    lemma_div_denominator(num as int, den as int, step as int);
    assert(quotient / step >= pow2(52)) by {
        lemma_div_is_ordered((pow2(52) * step) as int, quotient as int, step as int);
        lemma_div_by_multiple(pow2(52) as int, step as int);
    }
    assert(half_even(num, den * step) * step >= pow2(52)) by (nonlinear_arith)
        requires
            half_even(num, den * step) >= pow2(52),
            step >= 1,
    ;
}

/// The count of frame periods is off by one at most from that of exact arithmetic,
/// for counts up to `pow2(51)`.
pub proof fn frame_periods_are_within_one(nanos: nat, rate: nat)
    requires
        rate > 0,
        nanos * rate <= pow2(51) * NANOS_PER_SEC as nat,
    ensures
        frame_periods(nanos, rate) <= (nanos * rate) / (NANOS_PER_SEC as nat) + 1,
        (nanos * rate) / (NANOS_PER_SEC as nat) <= frame_periods(nanos, rate) + 1,
{
    let g = NANOS_PER_SEC as nat;
    let unit = pow2(UNIT_BITS as nat);
    let m = pow2(53);
    let s = seconds(nanos);
    let p = nearest(s * rate, 1);
    lemma2_to64();
    lemma2_to64_rest();
    lemma_pow2_unfold(53);
    lemma_pow2_unfold(52);
    lemma_pow2_pos(82);
    if nanos == 0 {
        whole_seconds_count_exactly(0, rate);
        assert(0 * rate == 0);
    } else {
        assert(nanos / g <= pow2(51)) by {
            assert(nanos <= pow2(51) * g) by (nonlinear_arith)
                requires
                    nanos * rate <= pow2(51) * g,
                    rate >= 1,
            ;
            lemma_div_is_ordered(nanos as int, (pow2(51) * g) as int, g as int);
            lemma_div_by_multiple(pow2(51) as int, g as int);
        }
        lemma_seconds_error(nanos);
        let part = nearest((nanos % g) * unit, g);
        let sum = (nanos / g) * unit + part;
        assert(sum / 1 == sum);
        lemma_nearest_error(sum, 1);
        lemma_nearest_at_least(sum, 1);
        assert(s * 1 == s);
        assert(s * rate >= pow2(52)) by (nonlinear_arith)
            requires
                s >= pow2(52),
                rate >= 1,
        ;
        assert((s * rate) / 1 == s * rate);
        lemma_nearest_error(s * rate, 1);
        assert(p * 1 == p);
        let t = nanos * unit;
        lemma_errors_add(m as int, t as int, g as int, sum as int, s as int, rate as int, p as int);
        let exact = nanos * rate;
        let tr = t * rate;
        assert(tr == exact * unit) by (nonlinear_arith)
            requires
                tr == t * rate,
                t == nanos * unit,
                exact == nanos * rate,
        ;
        let pg = p * g;
        assert(pg <= unit * (exact + g) && pg >= unit * (exact - g)) by (nonlinear_arith)
            requires
                m * pg <= (m + 4) * tr,
                m * pg >= (m - 4) * tr,
                tr == exact * unit,
                4 * exact <= m * g,
                m > 0,
                unit > 0,
        ;
        let count = p / unit;
        lemma_fundamental_div_mod(p as int, unit as int);
        assert(count * g <= exact + g && (count + 2) * g > exact) by (nonlinear_arith)
            requires
                p == unit * count + p % unit,
                0 <= p % unit < unit,
                pg == p * g,
                pg <= unit * (exact + g),
                pg >= unit * (exact - g),
                unit > 0,
                g > 0,
        ;
        lemma_fundamental_div_mod(exact as int, g as int);
        assert(count <= exact / g + 1 && exact / g <= count + 1) by (nonlinear_arith)
            requires
                count * g <= exact + g,
                (count + 2) * g > exact,
                exact == g * (exact / g) + exact % g,
                0 <= exact % g < g,
                g > 0,
        ;
    }
}

/// At whole seconds the count of frame periods is exact.
pub proof fn whole_seconds_count_exactly(secs: nat, rate: nat)
    requires
        secs < pow2(53),
        secs * rate < pow2(53),
    ensures
        frame_periods(secs * NANOS_PER_SEC as nat, rate) == secs * rate,
{
    let g = NANOS_PER_SEC as nat;
    let unit = pow2(UNIT_BITS as nat);
    let nanos = secs * g;
    lemma2_to64();
    lemma_pow2_pos(82);
    lemma_fundamental_div_mod_converse(nanos as int, g as int, secs as int, 0);
    lemma_nearest_exact(secs, 0);
    assert(secs * 1 == secs);
    assert(0 * unit == 0);
    lemma_nearest_zero(g);
    lemma_nearest_exact(secs, 82);
    assert((secs * unit) * rate == (secs * rate) * unit) by (nonlinear_arith);
    lemma_nearest_exact(secs * rate, 82);
    lemma_div_by_multiple((secs * rate) as int, unit as int);
}

/// A larger number has no fewer excess bits.
proof fn lemma_excess_ordered(a: nat, b: nat)
    requires
        a <= b,
    ensures
        excess_bits(a) <= excess_bits(b),
    decreases b,
{
    lemma_pow2_pos(53);
    if a >= pow2(53) {
        lemma_excess_ordered(a / 2, b / 2);
    }
}

/// Rounding keeps the order of numbers.
proof fn lemma_nearest_ordered(a: nat, b: nat, den: nat)
    requires
        a <= b,
        den > 0,
    ensures
        nearest(a, den) <= nearest(b, den),
{
    let low = a / den;
    let high = b / den;
    let low_bits = excess_bits(low);
    let high_bits = excess_bits(high);
    let low_step = pow2(low_bits);
    let high_step = pow2(high_bits);
    lemma_div_is_ordered(a as int, b as int, den as int);
    lemma_excess_ordered(low, high);
    lemma_excess_leaves_digits(low);
    lemma_excess_leaves_digits(high);
    lemma_div_denominator(a as int, den as int, low_step as int);
    lemma_div_denominator(b as int, den as int, high_step as int);
    let rounded_low = half_even(a, den * low_step);
    let rounded_high = half_even(b, den * high_step);
    if low_bits == high_bits {
        let wide = den * low_step;
        lemma_mul_strictly_positive(den as int, low_step as int);
        lemma_div_is_ordered(a as int, b as int, wide as int);
        lemma_fundamental_div_mod(a as int, wide as int);
        lemma_fundamental_div_mod(b as int, wide as int);
        assert(rounded_low <= rounded_high);
        lemma_mul_inequality(rounded_low as int, rounded_high as int, low_step as int);
    } else {
        assert(rounded_low <= pow2(53));
        lemma_mul_inequality(rounded_low as int, pow2(53) as int, low_step as int);
        lemma_pow2_adds(53, low_bits);
        lemma_pow2_monotone((53 + low_bits) as nat, (52 + high_bits) as nat);
        lemma_pow2_adds(52, high_bits);
        assert(high / high_step >= pow2(52)) by {
            lemma_div_is_ordered((pow2(52) * high_step) as int, high as int, high_step as int);
            lemma_div_by_multiple(pow2(52) as int, high_step as int);
        }
        lemma_mul_inequality(pow2(52) as int, rounded_high as int, high_step as int);
    }
}

/// The seconds keep the order of spans.
proof fn lemma_seconds_ordered(earlier: nat, later: nat)
    requires
        earlier <= later,
        later / (NANOS_PER_SEC as nat) < pow2(53),
    ensures
        seconds(earlier) <= seconds(later),
{
    let g = NANOS_PER_SEC as nat;
    let unit = pow2(UNIT_BITS as nat);
    let low = earlier / g;
    let high = later / g;
    let low_part = nearest((earlier % g) * unit, g);
    let high_part = nearest((later % g) * unit, g);
    lemma2_to64();
    lemma_pow2_pos(82);
    lemma_div_is_ordered(earlier as int, later as int, g as int);
    lemma_fundamental_div_mod(earlier as int, g as int);
    lemma_fundamental_div_mod(later as int, g as int);
    lemma_nearest_exact(low, 0);
    lemma_nearest_exact(high, 0);
    assert(low * 1 == low && high * 1 == high);
    if low == high {
        lemma_mul_inequality((earlier % g) as int, (later % g) as int, unit as int);
        lemma_nearest_ordered((earlier % g) * unit, (later % g) * unit, g);
    } else {
        lemma_mul_inequality((earlier % g) as int, g as int, unit as int);
        lemma_nearest_ordered((earlier % g) * unit, g * unit, g);
        assert(nearest(g * unit, g) == unit) by {
            lemma_div_multiples_vanish(unit as int, g as int);
            lemma_nearest_exact(1, 82);
            assert(unit / 1 == unit);
            assert(1 * unit == unit);
            let step = pow2(excess_bits(unit));
            lemma_pow2_pos(excess_bits(unit));
            lemma_half_even_scales(unit, 1 * step, g);
            assert((1 * step) * g == g * step) by (nonlinear_arith);
            assert(unit * g == g * unit) by (nonlinear_arith);
        }
        assert(low * unit + unit <= high * unit) by (nonlinear_arith)
            requires
                low + 1 <= high,
        ;
    }
    lemma_nearest_ordered(low * unit + low_part, high * unit + high_part, 1);
}

/// The count of frame periods never goes back as time passes.
pub proof fn frame_periods_never_go_back(earlier: nat, later: nat, rate: nat)
    requires
        earlier <= later,
        later / (NANOS_PER_SEC as nat) < pow2(53),
    ensures
        frame_periods(earlier, rate) <= frame_periods(later, rate),
{
    lemma_seconds_ordered(earlier, later);
    lemma_mul_inequality(seconds(earlier) as int, seconds(later) as int, rate as int);
    lemma_nearest_ordered(seconds(earlier) * rate, seconds(later) * rate, 1);
    lemma_pow2_pos(82);
    lemma_div_is_ordered(
        nearest(seconds(earlier) * rate, 1) as int,
        nearest(seconds(later) * rate, 1) as int,
        pow2(82) as int,
    );
}

/// A number keeps 53 significant bits: none is cut off where it has no more, and otherwise
/// as many as leave exactly that many.
pub proof fn digits_are_used_up(n: nat)
    ensures
        n < pow2(53) ==> excess_bits(n) == 0,
        n >= pow2(53) ==> pow2(52) * pow2(excess_bits(n)) <= n < pow2(53) * pow2(excess_bits(n)),
{
    let bits = excess_bits(n);
    lemma_excess_leaves_digits(n);
    if n >= pow2(53) {
        lemma_pow2_adds(52, bits);
        lemma_fundamental_div_mod(n as int, pow2(bits) as int);
        let above = n / pow2(bits);
        let step = pow2(bits);
        assert(n < pow2(53) * step) by (nonlinear_arith)
            requires
                n == step * above + n % step,
                n % step < step,
                above + 1 <= pow2(53),
                step > 0,
        ;
    }
}

/// Rounding gives a number that fits into the digits, and of those the nearest one: no more
/// than half a step away, and at half a step the even one.
pub proof fn rounding_goes_to_the_nearest(num: nat, den: nat)
    requires
        den > 0,
    ensures
        ({
            let rounded = nearest(num, den);
            let step = pow2(excess_bits(num / den));
            let digits = rounded / step;
            &&& rounded == digits * step
            &&& digits <= pow2(53)
            &&& 2 * (digits * (den * step)) <= 2 * num + den * step
            &&& 2 * num <= 2 * (digits * (den * step)) + den * step
            &&& 2 * num == 2 * (digits * (den * step)) + den * step ==> digits % 2 == 0
            &&& 2 * num + den * step == 2 * (digits * (den * step)) ==> digits % 2 == 0
        }),
{
    let quotient = num / den;
    let step = pow2(excess_bits(quotient));
    let wide = den * step;
    let digits = half_even(num, wide);
    lemma_excess_leaves_digits(quotient);
    lemma_mul_strictly_positive(den as int, step as int);
    lemma_div_by_multiple(digits as int, step as int);
    lemma_div_denominator(num as int, den as int, step as int);
    lemma_fundamental_div_mod(num as int, wide as int);
    let whole = num / wide;
    let rest = num % wide;
    assert(whole * wide == wide * whole) by (nonlinear_arith);
    assert((whole + 1) * wide == wide * whole + wide) by (nonlinear_arith);
    assert(digits == whole || digits == whole + 1);
    if digits == whole + 1 && 2 * rest == wide {
        assert(whole % 2 == 1);
        assert(digits % 2 == 0);
    }
}

/// The seconds, their fraction, the sum and the product with the rate are each rounded, and
/// of the product the whole frames count.
pub proof fn every_step_is_rounded(nanos: nat, rate: nat)
    ensures
        ({
            let whole = nearest(nanos / 1_000_000_000, 1);
            let part = nearest((nanos % 1_000_000_000) * pow2(82), 1_000_000_000);
            let product = nearest(seconds(nanos) * rate, 1);
            let frames = frame_periods(nanos, rate);
            &&& seconds(nanos) == nearest(whole * pow2(82) + part, 1)
            &&& frames * pow2(82) <= product < (frames + 1) * pow2(82)
        }),
{
    let product = nearest(seconds(nanos) * rate, 1);
    let unit = pow2(82);
    let frames = product / unit;
    lemma_pow2_pos(82);
    lemma_fundamental_div_mod(product as int, unit as int);
    assert(frames * unit == unit * frames) by (nonlinear_arith);
    assert((frames + 1) * unit == unit * frames + unit) by (nonlinear_arith);
}

/// `n` with its lowest bit set where `more` says that something was cut off below.
spec fn sticky(n: nat, more: bool) -> nat {
    if more && n % 2 == 0 {
        n + 1
    } else {
        n
    }
}

/// Bits that are far below the digits matter to rounding only by whether there
/// are any.
proof fn lemma_nearest_sticky(top: nat, low: nat, bits: nat)
    requires
        low < pow2(bits),
        top >= pow2(54),
    ensures
        nearest(top * pow2(bits) + low, 1) == nearest(sticky(top, low > 0), 1) * pow2(bits),
{
    let n = top * pow2(bits) + low;
    let stuck = sticky(top, low > 0);
    lemma_pow2_pos(bits);
    lemma_fundamental_div_mod_converse(n as int, pow2(bits) as int, top as int, low as int);
    lemma_pow2_adds(54, bits);
    assert(n >= pow2(54) * pow2(bits)) by (nonlinear_arith)
        requires
            n == top * pow2(bits) + low,
            top >= pow2(54),
    ;
    lemma_pow2_monotone((52 + bits) as nat, (54 + bits) as nat);
    lemma_excess_splits(n, bits);
    lemma_pow2_monotone(53, 54);
    assert(stuck / 2 == top / 2);
    assert(excess_bits(stuck) == excess_bits(top));
    let excess = excess_bits(top);
    assert(excess >= 2) by {
        lemma_pow2_unfold(54);
        reveal_with_fuel(excess_bits, 3);
    }
    let step = pow2(excess);
    let half = pow2((excess - 1) as nat);
    lemma_pow2_unfold(excess);
    lemma_pow2_unfold((excess - 1) as nat);
    lemma_pow2_pos((excess - 2) as nat);
    lemma_pow2_adds(excess, bits);
    // the remainders of the three numbers
    let whole = top / step;
    let rest = top % step;
    lemma_fundamental_div_mod(top as int, step as int);
    lemma_mul_is_commutative(whole as int, step as int);
    let stuck_rest = (stuck - whole * step) as nat;
    assert(whole * step == (2 * whole) * half) by (nonlinear_arith)
        requires
            step == 2 * half,
    ;
    assert(half == 2 * pow2((excess - 2) as nat));
    assert(rest % 2 == top % 2) by {
        let quarter = pow2((excess - 2) as nat);
        assert(whole * step == 2 * (2 * whole * quarter)) by (nonlinear_arith)
            requires
                step == 4 * quarter,
        ;
    }
    assert(stuck_rest == sticky(rest, low > 0));
    assert(stuck_rest < step);
    lemma_fundamental_div_mod_converse(stuck as int, step as int, whole as int, stuck_rest as int);
    let wide = step * pow2(bits);
    let wide_rest = rest * pow2(bits) + low;
    assert(n == whole * wide + wide_rest && wide_rest < wide && (2 * wide_rest < wide
        <==> 2 * stuck_rest < step) && (2 * wide_rest == wide <==> 2 * stuck_rest == step))
        by (nonlinear_arith)
        requires
            n == top * pow2(bits) + low,
            top == whole * step + rest,
            rest < step,
            low < pow2(bits),
            step == 2 * half,
            half % 2 == 0,
            wide == step * pow2(bits),
            wide_rest == rest * pow2(bits) + low,
            stuck_rest == (if low > 0 && rest % 2 == 0 {
                rest + 1
            } else {
                rest
            }),
    ;
    lemma_fundamental_div_mod_converse(n as int, wide as int, whole as int, wide_rest as int);
    assert(half_even(n, wide) == half_even(stuck, step));
    lemma_mul_is_associative(half_even(n, wide) as int, step as int, pow2(bits) as int);
    assert(n / 1 == n);
    assert(stuck / 1 == stuck);
    assert(1 * step == step);
    assert(1 * wide == wide);
}

/// Rounds `num / den`.
fn round_ratio(num: u128, den: u128) -> (r: Rounded)
    requires
        0 < den <= NANOS_PER_SEC,
    ensures
        r.value() == nearest(num as nat, den as nat),
        r.mantissa <= pow2(DIGIT_BITS as nat),
        r.shift == excess_bits((num / den) as nat),
        r.shift <= 75,
{
    let quotient: u128 = num / den;
    let ghost bits = excess_bits(quotient as nat);
    proof {
        lemma2_to64_rest();
        lemma_pow2_adds(64, 64);
        lemma_excess_bound(quotient as nat, 75);
        lemma_excess_leaves_digits(quotient as nat);
        lemma_pow2_monotone(bits, 75);
        lemma_pow2_adds(64, 11);
        lemma2_to64();
    }
    let mut shift: u32 = 0;
    let mut step: u128 = 1;
    while quotient / step >= 0x20_0000_0000_0000
        invariant
            shift <= bits <= 75,
            bits == excess_bits(quotient as nat),
            step == pow2(shift as nat),
            pow2(53) == 0x20_0000_0000_0000,
            pow2(75) == 0x1_0000_0000_0000_0000 * 0x800,
            shift < bits ==> quotient >= pow2((52 + bits) as nat),
            quotient / (pow2(bits) as u128) < 0x20_0000_0000_0000,
            pow2(bits) <= pow2(75),
            step > 0,
        decreases bits - shift,
    {
        proof {
            lemma_pow2_unfold((shift + 1) as nat);
            lemma_pow2_monotone((shift + 1) as nat, bits);
        }
        step = step * 2;
        shift = shift + 1;
    }
    proof {
        if shift < bits {
            lemma_pow2_monotone((53 + shift) as nat, (52 + bits) as nat);
            lemma_pow2_adds(53, shift as nat);
            lemma_div_is_ordered(
                (pow2(53) * step) as int,
                quotient as int,
                step as int,
            );
            lemma_div_by_multiple(pow2(53) as int, step as int);
            assert(false);
        }
        assert(den * step <= 0xffff_ffff_ffff_ffff_ffff_ffff_ffff_ffff) by (nonlinear_arith)
            requires
                den <= 1_000_000_000,
                step <= 0x1_0000_0000_0000_0000 * 0x800,
        ;
        lemma_mul_strictly_positive(den as int, step as int);
        lemma_div_denominator(num as int, den as int, step as int);
    }
    let wide: u128 = den * step;
    let whole: u128 = num / wide;
    let rest: u128 = num % wide;
    let gap: u128 = wide - rest;
    let up = rest > gap || (rest == gap && whole % 2 == 1);
    let mantissa: u64 = if up {
        (whole + 1) as u64
    } else {
        whole as u64
    };
    Rounded { mantissa, shift }
}

/// A number whose digits are all used, or one step more, is its own nearest one.
proof fn lemma_rounded_exact(digits: nat, bits: nat)
    requires
        digits <= pow2(53),
    ensures
        nearest(digits * pow2(bits), 1) == digits * pow2(bits),
{
    if digits < pow2(53) {
        lemma_nearest_exact(digits, bits);
    } else {
        lemma_pow2_adds(53, bits);
        lemma_pow2_adds(52, bits + 1);
        lemma_pow2_strictly_increases(52, 53);
        lemma_nearest_exact(pow2(52), bits + 1);
    }
}

/// Nothing but zero rounds to zero.
proof fn lemma_nearest_positive(n: nat)
    requires
        n > 0,
    ensures
        nearest(n, 1) > 0,
{
    let bits = excess_bits(n);
    lemma_excess_leaves_digits(n);
    assert(n / 1 == n);
    assert(1 * pow2(bits) == pow2(bits));
    assert(n / pow2(bits) > 0) by {
        if bits > 0 {
            lemma_pow2_monotone(bits, (52 + bits) as nat);
            lemma_div_is_ordered(pow2(bits) as int, n as int, pow2(bits) as int);
            lemma_div_by_self(pow2(bits) as int);
        } else {
            lemma2_to64();
            assert(n / 1 == n);
        }
    }
    lemma_mul_strictly_positive(half_even(n, pow2(bits)) as int, pow2(bits) as int);
}

/// `x * pow2(shift)` for numbers that are small enough.
fn scaled(x: u64, shift: u32) -> (r: u128)
    requires
        x <= pow2(53),
        shift <= 74,
    ensures
        r == x * pow2(shift as nat),
        r <= pow2(53 + shift as nat),
{
    let mut step: u128 = 1;
    let mut done: u32 = 0;
    proof {
        lemma2_to64();
    }
    while done < shift
        invariant
            done <= shift <= 74,
            step == pow2(done as nat),
        decreases shift - done,
    {
        proof {
            lemma_pow2_unfold((done + 1) as nat);
            lemma_pow2_monotone((done + 1) as nat, 74);
            lemma_pow2_adds(64, 10);
            lemma2_to64();
        }
        step = step * 2;
        done = done + 1;
    }
    proof {
        lemma_pow2_adds(53, shift as nat);
        assert(x * step <= pow2(53) * step) by (nonlinear_arith)
            requires
                x <= pow2(53),
        ;
        lemma_pow2_monotone((53 + shift) as nat, 127);
        lemma_pow2_adds(64, 63);
        lemma2_to64_rest();
    }
    x as u128 * step
}

/// `span` in seconds.
fn rounded_seconds(span: TimeSpan) -> (r: Rounded)
    requires
        span.nanos / NANOS_PER_SEC <= u64::MAX,
    ensures
        r.value() == seconds(span.nanos as nat),
        r.mantissa <= pow2(DIGIT_BITS as nat),
        r.shift <= 95,
{
    let secs: u128 = span.nanos / NANOS_PER_SEC;
    let nanos: u128 = span.nanos % NANOS_PER_SEC;
    proof {
        lemma2_to64();
        lemma2_to64_rest();
        lemma_pow2_adds(64, 18);
        lemma_pow2_adds(53, 29);
        lemma_pow2_adds(62, 20);
    }
    let unit: u128 = 0x4_0000_0000_0000_0000_0000;
    assert(unit == pow2(82));
    let part = round_ratio(nanos * unit, NANOS_PER_SEC);
    let ghost part_value = part.value();
    proof {
        assert((nanos * unit) / 1_000_000_000 < unit);
        lemma_excess_bound(((nanos * unit) / 1_000_000_000) as nat, 29);
    }
    if secs == 0 {
        proof {
            lemma_rounded_exact(part.mantissa as nat, part.shift as nat);
            lemma_nearest_exact(0, 0);
            assert(0 * pow2(82) == 0);
        }
        return part;
    }
    let fraction: u128 = scaled(part.mantissa, part.shift);
    let whole_rounded = round_ratio(secs, 1);
    proof {
        lemma_excess_bound(secs as nat, 11);
        lemma_pow2_adds(53, 11);
        lemma_pow2_monotone(53 + whole_rounded.shift as nat, 64);
        lemma_pow2_monotone(53 + part.shift as nat, 82);
    }
    let whole: u128 = scaled(whole_rounded.mantissa, whole_rounded.shift);
    proof {
        assert(whole > 0) by {
            lemma_nearest_positive(secs as nat);
        }
    }
    let coarse: u128 = 0x10_0000;
    let low: u128 = fraction % coarse;
    let top: u128 = whole * 0x4000_0000_0000_0000 + fraction / coarse;
    let stuck: u128 = if low > 0 && top % 2 == 0 {
        top + 1
    } else {
        top
    };
    let sum = round_ratio(stuck, 1);
    proof {
        assert(coarse == pow2(20));
        lemma_nearest_sticky(top as nat, low as nat, 20);
        assert(top * pow2(20) + low == whole * pow2(82) + fraction);
        lemma_pow2_adds(sum.shift as nat, 20);
        lemma_mul_is_associative(
            sum.mantissa as int,
            pow2(sum.shift as nat) as int,
            pow2(20) as int,
        );
    }
    Rounded { mantissa: sum.mantissa, shift: sum.shift + 20 }
}

/// The whole frame periods in `span`, at `rate` frames per second. Counts beyond
/// the range of `u64` are cut to its end.
pub fn whole_frames(span: TimeSpan, rate: u32) -> (r: u64)
    requires
        span.nanos / NANOS_PER_SEC <= u64::MAX,
    ensures
        r == if frame_periods(span.nanos as nat, rate as nat) <= u64::MAX {
            frame_periods(span.nanos as nat, rate as nat)
        } else {
            u64::MAX as nat
        },
{
    let secs = rounded_seconds(span);
    proof {
        lemma2_to64();
        lemma2_to64_rest();
        assert(secs.mantissa * rate < pow2(53) * pow2(33)) by (nonlinear_arith)
            requires
                secs.mantissa <= pow2(53),
                rate < pow2(32),
                pow2(33) == 2 * pow2(32),
                pow2(53) > 0,
                pow2(32) > 0,
        ;
        lemma_pow2_adds(53, 33);
    }
    let raw: u128 = secs.mantissa as u128 * rate as u128;
    let product = round_ratio(raw, 1);
    let bits: u32 = product.shift + secs.shift;
    let ghost exact = product.mantissa as nat * pow2(bits as nat);
    proof {
        lemma_excess_bound(raw as nat, 33);
        lemma_nearest_scales(raw as nat, secs.shift as nat);
        assert(seconds(span.nanos as nat) * rate == raw * pow2(secs.shift as nat))
            by (nonlinear_arith)
            requires
                seconds(span.nanos as nat) == secs.mantissa * pow2(secs.shift as nat),
                raw == secs.mantissa * rate,
        ;
        lemma_pow2_adds(product.shift as nat, secs.shift as nat);
        lemma_mul_is_associative(
            product.mantissa as int,
            pow2(product.shift as nat) as int,
            pow2(secs.shift as nat) as int,
        );
        lemma_pow2_pos(82);
    }
    if bits >= 82 {
        let frames: u128 = scaled(product.mantissa, bits - 82);
        proof {
            lemma_pow2_adds((bits - 82) as nat, 82);
            lemma_mul_is_associative(
                product.mantissa as int,
                pow2((bits - 82) as nat) as int,
                pow2(82) as int,
            );
            lemma_div_by_multiple(frames as int, pow2(82) as int);
        }
        if frames > u64::MAX as u128 {
            u64::MAX
        } else {
            frames as u64
        }
    } else {
        let down: u32 = 82 - bits;
        proof {
            lemma_pow2_adds(bits as nat, down as nat);
            lemma_pow2_pos(bits as nat);
            lemma_pow2_pos(down as nat);
            lemma_div_denominator(exact as int, pow2(bits as nat) as int, pow2(down as nat) as int);
            lemma_div_by_multiple(product.mantissa as int, pow2(bits as nat) as int);
        }
        halved(product.mantissa, down)
    }
}

/// `x / pow2(times)`.
fn halved(x: u64, times: u32) -> (r: u64)
    ensures
        r == x as nat / pow2(times as nat),
{
    let mut r: u64 = x;
    let mut done: u32 = 0;
    proof {
        lemma2_to64();
    }
    while done < times
        invariant
            done <= times,
            r == x as nat / pow2(done as nat),
        decreases times - done,
    {
        proof {
            lemma_pow2_unfold((done + 1) as nat);
            lemma_pow2_pos(done as nat);
            lemma_div_denominator(x as int, pow2(done as nat) as int, 2);
        }
        r = r / 2;
        done = done + 1;
    }
    r
}

} // verus!
