//! Rounding an exact quotient to the nearest double.
use super::{midpoint, nearest, rounds_to, units, BINADE, INFINITE};
use vstd::arithmetic::power2::{lemma_pow2_adds, lemma_pow2_pos, lemma_pow2_strictly_increases, lemma_pow2_unfold, pow2};
use vstd::prelude::*;

verus! {

/// The powers of two that the encoding is made of.
pub proof fn lemma_pow2_values()
    ensures
        pow2(0) == 1,
        pow2(1) == 2,
        pow2(2) == 4,
        pow2(52) == BINADE,
        pow2(53) == 2 * BINADE,
        pow2(54) == 4 * BINADE,
        pow2(63) == 0x8000_0000_0000_0000,
        pow2(64) == 0x1_0000_0000_0000_0000,
{
    vstd::arithmetic::power2::lemma2_to64();
    vstd::arithmetic::power2::lemma2_to64_rest();
}

/// A significand `q` at scale `x` encodes `q * 2^x` units.
pub proof fn lemma_units_scaled(x: nat, q: nat)
    requires
        q <= 2 * BINADE,
        x == 0 || q >= BINADE,
    ensures
        units(x * (BINADE as nat) + q) == q * pow2(x),
{
    let b = BINADE as nat;
    let m = x * b + q;
    lemma_pow2_unfold(x + 1);
    assert(pow2(0) == 1) by {
        lemma_pow2_values();
    }
    if q < b {
        assert(m / b == 0 && m % b == q);
    } else if q < 2 * b {
        assert(m / b == x + 1 && m % b == q - b) by (nonlinear_arith)
            requires
                m == x * b + q,
                b <= q < 2 * b,
                b == 0x10_0000_0000_0000nat,
        ;
    } else {
        assert(m / b == x + 2 && m % b == 0) by (nonlinear_arith)
            requires
                m == x * b + q,
                q == 2 * b,
                b == 0x10_0000_0000_0000nat,
        ;
        assert((b + 0) * pow2(x + 1) == 2 * b * pow2(x)) by (nonlinear_arith)
            requires
                pow2(x + 1) == 2 * pow2(x),
        ;
    }
}

/// The scale of a magnitude's binade.
pub open spec fn scale(magnitude: nat) -> nat {
    let exponent = magnitude / (BINADE as nat);
    if exponent == 0 {
        0
    } else {
        (exponent - 1) as nat
    }
}

/// Larger encodings encode larger values.
pub proof fn lemma_units_step(magnitude: nat)
    ensures
        units(magnitude) < units(magnitude + 1),
{
    let b = BINADE as nat;
    let x = scale(magnitude);
    let q = (magnitude - x * b) as nat;
    assert(magnitude == (magnitude / b) * b + magnitude % b) by {
        vstd::arithmetic::div_mod::lemma_fundamental_div_mod(magnitude as int, b as int);
    }
    if magnitude / b == 0 {
        assert(x == 0 && q == magnitude);
    } else {
        assert(x * b == (magnitude / b) * b - b) by (nonlinear_arith)
            requires
                x == magnitude / b - 1,
        ;
        assert(q == b + magnitude % b);
    }
    lemma_units_scaled(x, q);
    lemma_units_scaled(x, q + 1);
    lemma_pow2_pos(x);
    assert(q * pow2(x) < (q + 1) * pow2(x)) by (nonlinear_arith)
        requires
            pow2(x) > 0,
    ;
    assert(x * b + q == magnitude);
    assert(x * b + (q + 1) == magnitude + 1);
}

pub proof fn lemma_units_increase(a: nat, b: nat)
    requires
        a < b,
    ensures
        units(a) < units(b),
    decreases b,
{
    lemma_units_step((b - 1) as nat);
    if a < b - 1 {
        lemma_units_increase(a, (b - 1) as nat);
    }
}

pub proof fn lemma_midpoint_increase(a: nat, b: nat)
    requires
        a < b,
    ensures
        midpoint(a) < midpoint(b),
{
    lemma_units_increase(a, b);
    lemma_units_increase(a + 1, b + 1);
}

/// At most one double is the nearest.
pub proof fn lemma_nearest_unique(num: nat, den: nat, magnitude: nat)
    requires
        den > 0,
        rounds_to(num, den, magnitude),
    ensures
        nearest(num, den) == magnitude,
{
    let other = nearest(num, den);
    assert(rounds_to(num, den, other));
    lemma_nearest_ordered(num, den, other, magnitude);
    lemma_nearest_ordered(num, den, magnitude, other);
}

proof fn lemma_nearest_ordered(num: nat, den: nat, a: nat, b: nat)
    requires
        den > 0,
        rounds_to(num, den, a),
        rounds_to(num, den, b),
    ensures
        a >= b,
{
    if a < b {
        let lower = midpoint(a);
        let upper = midpoint((b - 1) as nat);
        if a < b - 1 {
            lemma_midpoint_increase(a, (b - 1) as nat);
            assert(lower * den < upper * den) by (nonlinear_arith)
                requires
                    lower < upper,
                    den > 0,
            ;
        }
    }
}

/// Some double is the nearest.
proof fn lemma_nearest_search(num: nat, den: nat, m: nat) -> (r: nat)
    requires
        den > 0,
        m <= INFINITE,
        m > 0 ==> midpoint((m - 1) as nat) * den < 2 * num,
    ensures
        rounds_to(num, den, r),
    decreases INFINITE - m,
{
    if m == INFINITE {
        m
    } else if 2 * num < midpoint(m) * den {
        m
    } else if 2 * num == midpoint(m) * den {
        if m % 2 == 0 {
            m
        } else {
            lemma_midpoint_increase(m, m + 1);
            assert(midpoint(m) * den < midpoint(m + 1) * den) by (nonlinear_arith)
                requires
                    midpoint(m) < midpoint(m + 1),
                    den > 0,
            ;
            m + 1
        }
    } else {
        lemma_nearest_search(num, den, m + 1)
    }
}

/// The nearest double is nearest.
pub proof fn lemma_nearest_rounds(num: nat, den: nat)
    requires
        den > 0,
    ensures
        rounds_to(num, den, nearest(num, den)),
{
    let r = lemma_nearest_search(num, den, 0);
    assert(rounds_to(num, den, r));
}

/// Rounding keeps the order.
pub proof fn lemma_nearest_monotone(num: nat, den: nat, other_num: nat, other_den: nat)
    requires
        den > 0,
        other_den > 0,
        num * other_den <= other_num * den,
    ensures
        nearest(num, den) <= nearest(other_num, other_den),
{
    let a = nearest(num, den);
    let b = nearest(other_num, other_den);
    lemma_nearest_rounds(num, den);
    lemma_nearest_rounds(other_num, other_den);
    if a > b {
        let low = midpoint(b);
        let high = midpoint((a - 1) as nat);
        if b < a - 1 {
            lemma_midpoint_increase(b, (a - 1) as nat);
        }
        assert(high * den * other_den <= 2 * num * other_den) by (nonlinear_arith)
            requires
                high * den <= 2 * num,
        ;
        assert(2 * other_num * den <= low * other_den * den) by (nonlinear_arith)
            requires
                2 * other_num <= low * other_den,
        ;
        assert(2 * num * other_den <= 2 * other_num * den) by (nonlinear_arith)
            requires
                num * other_den <= other_num * den,
        ;
        assert(low * other_den * den == low * (den * other_den)) by (nonlinear_arith);
        assert(high * den * other_den == high * (den * other_den)) by (nonlinear_arith);
        assert(den * other_den > 0) by (nonlinear_arith)
            requires
                den > 0,
                other_den > 0,
        ;
        assert(high <= low) by (nonlinear_arith)
            requires
                high * (den * other_den) <= low * (den * other_den),
                den * other_den > 0,
        ;
        assert(a - 1 == b);
        // Both sides tie at the same midpoint, which only one of them may win.
        assert(2 * num * other_den == high * den * other_den);
        assert(2 * num == high * den) by (nonlinear_arith)
            requires
                2 * num * other_den == high * den * other_den,
                other_den > 0,
        ;
        assert(2 * other_num == low * other_den) by (nonlinear_arith)
            requires
                2 * other_num * den == low * other_den * den,
                den > 0,
        ;
    }
}

/// `num / den` lies in the cell of significand `q` at scale `x`.
pub open spec fn in_cell(num: nat, den: nat, q: nat, x: nat) -> bool {
    &&& q * pow2(x) * den <= num
    &&& num < (q + 1) * pow2(x) * den
}

proof fn lemma_round_down(num: nat, den: nat, q: nat, x: nat)
    requires
        den > 0,
        q < 2 * BINADE,
        x == 0 || q >= BINADE,
        in_cell(num, den, q, x),
        2 * num <= (2 * q + 1) * pow2(x) * den,
        2 * num == (2 * q + 1) * pow2(x) * den ==> q % 2 == 0,
        x * BINADE + q < INFINITE,
    ensures
        rounds_to(num, den, x * (BINADE as nat) + q),
{
    let b = BINADE as nat;
    let m = x * b + q;
    lemma_units_scaled(x, q);
    lemma_units_scaled(x, q + 1);
    assert(midpoint(m) == (2 * q + 1) * pow2(x)) by (nonlinear_arith)
        requires
            midpoint(m) == q * pow2(x) + (q + 1) * pow2(x),
    ;
    assert(m % 2 == q % 2) by (nonlinear_arith)
        requires
            m == x * b + q,
            b == 0x10_0000_0000_0000nat,
    ;
    if m > 0 {
        lemma_units_step((m - 1) as nat);
        assert(midpoint((m - 1) as nat) * den < 2 * num) by (nonlinear_arith)
            requires
                midpoint((m - 1) as nat) < 2 * units(m),
                units(m) * den <= num,
                den > 0,
        ;
    }
}

proof fn lemma_round_up(num: nat, den: nat, q: nat, x: nat)
    requires
        den > 0,
        q < 2 * BINADE,
        x == 0 || q >= BINADE,
        in_cell(num, den, q, x),
        2 * num >= (2 * q + 1) * pow2(x) * den,
        2 * num == (2 * q + 1) * pow2(x) * den ==> q % 2 == 1,
        x * BINADE + q < INFINITE,
    ensures
        rounds_to(num, den, x * (BINADE as nat) + q + 1),
{
    let b = BINADE as nat;
    let m = x * b + q;
    lemma_units_scaled(x, q);
    lemma_units_scaled(x, q + 1);
    assert(midpoint(m) == (2 * q + 1) * pow2(x)) by (nonlinear_arith)
        requires
            midpoint(m) == q * pow2(x) + (q + 1) * pow2(x),
    ;
    assert(m % 2 == q % 2) by (nonlinear_arith)
        requires
            m == x * b + q,
            b == 0x10_0000_0000_0000nat,
    ;
    if m + 1 < INFINITE {
        lemma_units_step(m + 1);
        assert(2 * num < midpoint(m + 1) * den) by (nonlinear_arith)
            requires
                midpoint(m + 1) > 2 * units(m + 1),
                num < units(m + 1) * den,
                den > 0,
        ;
    }
}

proof fn lemma_round_overflow(num: nat, den: nat)
    requires
        den > 0,
        units(INFINITE as nat) * den <= num,
    ensures
        rounds_to(num, den, INFINITE as nat),
{
    let m = INFINITE as nat;
    lemma_units_step((m - 1) as nat);
    assert(midpoint((m - 1) as nat) * den < 2 * num) by (nonlinear_arith)
        requires
            midpoint((m - 1) as nat) < 2 * units(m),
            units(m) * den <= num,
            den > 0,
    ;
}

/// `2^e` for a scale that is not negative, else 1.
pub open spec fn scale_up(e: int) -> nat {
    pow2(if e >= 0 { e as nat } else { 0 })
}

/// `2^-e` for a negative scale, else 1.
pub open spec fn scale_down(e: int) -> nat {
    pow2(if e < 0 { (-e) as nat } else { 0 })
}

/// `num / den` is `m * 2^e`, or lies strictly between that and
/// `(m + 1) * 2^e` where `sticky` is set.
pub open spec fn represents(num: nat, den: nat, m: nat, e: int, sticky: bool) -> bool {
    let value = num * scale_down(e);
    let unit = scale_up(e) * den;
    if sticky {
        m * unit < value && value < (m + 1) * unit
    } else {
        m * unit == value
    }
}

proof fn lemma_cell_scaled(value: nat, unit: nat, m: nat, p: nat, q: nat, rem: nat, sticky: bool)
    requires
        unit > 0,
        p % 2 == 0,
        rem < p,
        m == q * p + rem,
        if sticky {
            m * unit < value && value < (m + 1) * unit
        } else {
            m * unit == value
        },
    ensures
        q * (p * unit) <= value,
        value < (q + 1) * (p * unit),
        2 * rem < p ==> 2 * value < (2 * q + 1) * (p * unit),
        2 * rem > p ==> 2 * value > (2 * q + 1) * (p * unit),
        2 * rem == p && !sticky ==> 2 * value == (2 * q + 1) * (p * unit),
        2 * rem == p && sticky ==> 2 * value > (2 * q + 1) * (p * unit),
{
    let w = p * unit;
    assert(m * unit == q * w + rem * unit) by (nonlinear_arith)
        requires
            m == q * p + rem,
            w == p * unit,
    ;
    assert((m + 1) * unit == m * unit + unit) by (nonlinear_arith);
    assert((q + 1) * w == q * w + w) by (nonlinear_arith);
    assert((2 * q + 1) * w == 2 * (q * w) + w) by (nonlinear_arith);
    assert(rem * unit + unit <= w) by (nonlinear_arith)
        requires
            rem + 1 <= p,
            w == p * unit,
    ;
    if 2 * rem < p {
        assert(2 * (rem * unit) + 2 * unit <= w) by (nonlinear_arith)
            requires
                2 * rem + 2 <= p,
                w == p * unit,
        ;
    } else if 2 * rem > p {
        assert(2 * (rem * unit) > w) by (nonlinear_arith)
            requires
                2 * rem > p,
                w == p * unit,
                unit > 0,
        ;
    } else {
        assert(2 * (rem * unit) == w) by (nonlinear_arith)
            requires
                2 * rem == p,
                w == p * unit,
        ;
    }
}

/// Dropping the low `s` bits of `m` places the value in a cell, and the dropped
/// bits tell on which side of the cell's middle it lies.
proof fn lemma_cell(num: nat, den: nat, m: nat, e: int, sticky: bool, x: nat, s: nat, q: nat, rem: nat)
    requires
        den > 0,
        represents(num, den, m, e, sticky),
        s > 0,
        s == x - e,
        rem < pow2(s),
        m == q * pow2(s) + rem,
    ensures
        in_cell(num, den, q, x),
        2 * rem < pow2(s) ==> 2 * num < (2 * q + 1) * pow2(x) * den,
        2 * rem > pow2(s) ==> 2 * num > (2 * q + 1) * pow2(x) * den,
        2 * rem == pow2(s) && !sticky ==> 2 * num == (2 * q + 1) * pow2(x) * den,
        2 * rem == pow2(s) && sticky ==> 2 * num > (2 * q + 1) * pow2(x) * den,
{
    let up = scale_up(e);
    let k = scale_down(e);
    let p = pow2(s);
    let u = pow2(x);
    assert(pow2(0) == 1) by {
        lemma_pow2_values();
    }
    assert(u * k == p * up) by {
        if e >= 0 {
            lemma_pow2_adds(s, e as nat);
            assert(k == 1 && u == p * up);
        } else {
            lemma_pow2_adds(x, (-e) as nat);
            assert(up == 1 && p == u * k);
        }
        assert(u * 1 == u && p * 1 == p);
    }
    lemma_pow2_pos(if e >= 0 { e as nat } else { 0 });
    lemma_pow2_pos(if e < 0 { (-e) as nat } else { 0 });
    lemma_pow2_unfold(s);
    let unit = up * den;
    assert(unit > 0) by (nonlinear_arith)
        requires
            unit == up * den,
            up > 0,
            den > 0,
    ;
    lemma_cell_scaled(num * k, unit, m, p, q, rem, sticky);
    lemma_cell_cancel(num, den, u, k, p * unit, up, p, q);
    lemma_cell_cancel(num, den, u, k, p * unit, up, p, q + 1);
    lemma_cell_cancel(2 * num, den, u, k, p * unit, up, p, 2 * q + 1);
    assert(2 * (num * k) == (2 * num) * k) by (nonlinear_arith);
}

proof fn lemma_cell_cancel(num: nat, den: nat, u: nat, k: nat, w: nat, up: nat, p: nat, c: nat)
    requires
        k > 0,
        u * k == p * up,
        w == p * (up * den),
    ensures
        c * w <= num * k ==> c * u * den <= num,
        num * k < c * w ==> num < c * u * den,
        c * w < num * k ==> c * u * den < num,
        c * w == num * k ==> c * u * den == num,
{
    let z = c * u * den;
    assert(c * w == z * k) by (nonlinear_arith)
        requires
            u * k == p * up,
            w == p * (up * den),
            z == c * u * den,
    ;
    assert(z * k <= num * k ==> z <= num) by (nonlinear_arith)
        requires
            k > 0,
    ;
    assert(num * k < z * k ==> num < z) by (nonlinear_arith)
        requires
            k > 0,
    ;
    assert(num * k <= z * k ==> num <= z) by (nonlinear_arith)
        requires
            k > 0,
    ;
    assert(z * k < num * k ==> z < num) by (nonlinear_arith)
        requires
            k > 0,
    ;
}

/// The power of two with exponent `n`.
pub fn power_of_two(n: u32) -> (p: u128)
    requires
        n < 128,
    ensures
        p == pow2(n as nat),
{
    let mut p: u128 = 1;
    let mut i: u32 = 0;
    assert(pow2(0) == 1) by {
        lemma_pow2_values();
    }
    while i < n
        invariant
            i <= n < 128,
            p == pow2(i as nat),
        decreases n - i,
    {
        proof {
            lemma_pow2_small((i + 1) as nat);
            lemma_pow2_unfold((i + 1) as nat);
        }
        p = 2 * p;
        i = i + 1;
    }
    p
}

proof fn lemma_pow2_small(n: nat)
    requires
        n < 128,
    ensures
        pow2(n) <= u128::MAX,
{
    lemma_pow2_values();
    lemma_pow2_adds(63, 64);
    if n < 127 {
        lemma_pow2_strictly_increases(n, 127);
    }
    assert(0x8000_0000_0000_0000nat * 0x1_0000_0000_0000_0000nat <= u128::MAX);
}

/// Number of significant bits of `m`.
pub fn bit_length(m: u128) -> (l: u32)
    requires
        0 < m < pow2(120),
    ensures
        1 <= l <= 120,
        pow2((l - 1) as nat) <= m < pow2(l as nat),
{
    let mut l: u32 = 1;
    assert(pow2(0) == 1) by {
        lemma_pow2_values();
    }
    while power_of_two(l) <= m
        invariant
            1 <= l <= 120,
            0 < m < pow2(120),
            pow2((l - 1) as nat) <= m,
        decreases 120 - l,
    {
        l = l + 1;
    }
    l
}

/// The magnitude nearest to a value given by its leading bits.
///
/// `sticky` says that the value is not exactly `m * 2^e` but a little more; it is
/// only meaningful for a significand that is longer than any double's.
pub fn round_scaled(m: u128, e: i32, sticky: bool, num: Ghost<nat>, den: Ghost<nat>) -> (r: u64)
    requires
        0 < m < pow2(120),
        -10000 < e < 10000,
        sticky ==> m >= pow2(54),
        den@ > 0,
        represents(num@, den@, m as nat, e as int, sticky),
    ensures
        rounds_to(num@, den@, r as nat),
        r == nearest(num@, den@),
{
    let l: i32 = bit_length(m) as i32;
    let x: i32 = if l + e > 53 { l + e - 53 } else { 0 };
    let s: i32 = x - e;
    proof {
        lemma_pow2_values();
    }
    let r: u64 = if x >= 2046 {
        proof {
            lemma_overflows(num@, den@, m as nat, e as int, sticky, l as nat);
            lemma_round_overflow(num@, den@);
        }
        INFINITE
    } else if s <= 0 {
        let p: u128 = power_of_two((-s) as u32);
        proof {
            if sticky {
                lemma_pow2_strictly_increases(l as nat, 54);
            }
            lemma_exact(num@, den@, m as nat, e as int, x as nat, (-s) as nat, l as nat);
        }
        let q: u128 = m * p;
        proof {
            lemma_pow2_pos(x as nat);
            assert(in_cell(num@, den@, q as nat, x as nat) && 2 * num@ < (2 * q + 1) * pow2(x as nat) * den@)
                by (nonlinear_arith)
                requires
                    num@ == q * pow2(x as nat) * den@,
                    pow2(x as nat) > 0,
                    den@ > 0,
                    in_cell(num@, den@, q as nat, x as nat) <==> (q * pow2(x as nat) * den@ <= num@ && num@ < (q
                        + 1) * pow2(x as nat) * den@),
            ;
            lemma_round_down(num@, den@, q as nat, x as nat);
        }
        (x as u64) * BINADE + (q as u64)
    } else if s > 127 {
        proof {
            lemma_pow2_strictly_increases(120, s as nat);
            lemma_pow2_strictly_increases(121, s as nat);
            lemma_pow2_adds(1, 120);
            assert(m == 0 * pow2(s as nat) + m) by (nonlinear_arith);
            lemma_cell(num@, den@, m as nat, e as int, sticky, 0, s as nat, 0, m as nat);
            lemma_round_down(num@, den@, 0, 0);
        }
        0
    } else {
        let p: u128 = power_of_two(s as u32);
        proof {
            lemma_pow2_pos(s as nat);
        }
        let q: u128 = m / p;
        let rem: u128 = m % p;
        proof {
            vstd::arithmetic::div_mod::lemma_fundamental_div_mod(m as int, p as int);
            assert(m == q * p + rem) by (nonlinear_arith)
                requires
                    m == p * q + rem,
            ;
            lemma_quotient_bits(m as nat, l as nat, s as nat, q as nat, rem as nat);
            lemma_cell(num@, den@, m as nat, e as int, sticky, x as nat, s as nat, q as nat, rem as nat);
        }
        let half: u128 = power_of_two((s - 1) as u32);
        proof {
            lemma_pow2_unfold(s as nat);
        }
        let up: bool = rem > half || (rem == half && (sticky || q % 2 == 1));
        proof {
            if up {
                lemma_round_up(num@, den@, q as nat, x as nat);
            } else {
                lemma_round_down(num@, den@, q as nat, x as nat);
            }
        }
        (x as u64) * BINADE + (q as u64) + (if up { 1u64 } else { 0u64 })
    };
    proof {
        lemma_nearest_unique(num@, den@, r as nat);
    }
    r
}

proof fn lemma_overflows(num: nat, den: nat, m: nat, e: int, sticky: bool, l: nat)
    requires
        den > 0,
        l >= 1,
        pow2((l - 1) as nat) <= m,
        l + e - 53 >= 2046,
        represents(num, den, m, e, sticky),
    ensures
        units(INFINITE as nat) * den <= num,
{
    lemma_units_scaled(2046, BINADE as nat);
    lemma_pow2_values();
    lemma_pow2_adds(52, 2046);
    let top = pow2(2098);
    assert(units(INFINITE as nat) == top);
    let up = scale_up(e);
    let k = scale_down(e);
    lemma_pow2_pos(if e >= 0 { e as nat } else { 0 });
    lemma_pow2_pos(if e < 0 { (-e) as nat } else { 0 });
    let h = pow2((l - 1) as nat);
    assert(top * k <= h * up) by {
        if e >= 0 {
            lemma_pow2_adds((l - 1) as nat, e as nat);
            if 2098 < l - 1 + e {
                lemma_pow2_strictly_increases(2098, (l - 1 + e) as nat);
            }
        } else {
            lemma_pow2_adds(2098, (-e) as nat);
            if 2098 - e < l - 1 {
                lemma_pow2_strictly_increases((2098 - e) as nat, (l - 1) as nat);
            }
        }
    }
    assert(top * den <= num) by (nonlinear_arith)
        requires
            top * k <= h * up,
            h <= m,
            m * (up * den) <= num * k,
            k > 0,
    ;
}

proof fn lemma_exact(num: nat, den: nat, m: nat, e: int, x: nat, t: nat, l: nat)
    requires
        den > 0,
        l >= 1,
        e >= 0,
        t == e - x,
        pow2((l - 1) as nat) <= m < pow2(l),
        x == if l + e > 53 { (l + e - 53) as nat } else { 0 },
        represents(num, den, m, e, false),
    ensures
        num == (m * pow2(t)) * pow2(x) * den,
        m * pow2(t) < 2 * BINADE,
        x == 0 || m * pow2(t) >= BINADE,
{
    lemma_pow2_values();
    lemma_pow2_adds(t, x);
    lemma_pow2_adds(l, t);
    lemma_pow2_adds((l - 1) as nat, t);
    lemma_pow2_pos(t);
    assert(num == (m * pow2(t)) * pow2(x) * den) by (nonlinear_arith)
        requires
            m * (pow2(e as nat) * den) == num * 1,
            pow2(e as nat) == pow2(t) * pow2(x),
    ;
    assert(m * pow2(t) < pow2(l) * pow2(t)) by (nonlinear_arith)
        requires
            m < pow2(l),
            pow2(t) > 0,
    ;
    assert(m * pow2(t) >= pow2((l - 1) as nat) * pow2(t)) by (nonlinear_arith)
        requires
            m >= pow2((l - 1) as nat),
    ;
    if l + t < 53 {
        lemma_pow2_strictly_increases((l + t) as nat, 53);
    }
}

proof fn lemma_quotient_bits(m: nat, l: nat, s: nat, q: nat, rem: nat)
    requires
        l >= 1,
        s > 0,
        l <= s + 53,
        pow2((l - 1) as nat) <= m < pow2(l),
        m == q * pow2(s) + rem,
        rem < pow2(s),
    ensures
        q < 2 * BINADE,
        l == s + 53 ==> q >= BINADE,
{
    lemma_pow2_values();
    lemma_pow2_adds(53, s);
    lemma_pow2_adds(52, s);
    if l < s + 53 {
        lemma_pow2_strictly_increases(l, s + 53);
    }
    let p = pow2(s);
    assert(q < 2 * BINADE) by (nonlinear_arith)
        requires
            q * p + rem < 2 * BINADE * p,
    ;
    if l == s + 53 {
        assert(q >= BINADE) by (nonlinear_arith)
            requires
                q * p + rem >= BINADE * p,
                rem < p,
        ;
    }
}

} // verus!
