//! Arithmetic and comparison of doubles.
use super::rounding::{
    bit_length, lemma_nearest_unique, lemma_pow2_values, lemma_units_step, power_of_two, represents,
    round_scaled, scale_down, scale_up,
};
use super::{
    clamped, difference_of, larger_of, nearest, of_integer, of_ratio, product_of, quotient_of,
    rounds_to, signed, smaller_of, sum_of, units, Binary64, BINADE, INFINITE, SIGN, UNIT_BITS,
};
use vstd::arithmetic::power2::{lemma_pow2_adds, lemma_pow2_pos, lemma_pow2_strictly_increases, pow2};
use vstd::prelude::*;

verus! {

/// Significand and scale of a magnitude.
pub(crate) fn decode(magnitude: u64) -> (r: (u64, u32))
    requires
        magnitude < INFINITE,
    ensures
        r.0 < 2 * BINADE,
        r.1 <= 2045,
        units(magnitude as nat) == r.0 * pow2(r.1 as nat),
        r.1 > 0 ==> r.0 >= BINADE,
        r.1 == (if magnitude / BINADE == 0 { 0 } else { magnitude / BINADE - 1 }),
        r.0 == 0 <==> magnitude == 0,
{
    let exponent: u64 = magnitude / BINADE;
    let fraction: u64 = magnitude % BINADE;
    proof {
        lemma_pow2_values();
        vstd::arithmetic::div_mod::lemma_fundamental_div_mod(magnitude as int, BINADE as int);
    }
    if exponent == 0 {
        assert(fraction * 1 == fraction);
        (fraction, 0)
    } else {
        (BINADE + fraction, (exponent - 1) as u32)
    }
}

/// Zero is its own nearest double.
pub proof fn lemma_nearest_zero(den: nat)
    requires
        den > 0,
    ensures
        nearest(0, den) == 0,
{
    assert(rounds_to(0, den, 0)) by {
        assert(units(0) == 0 && units(1) == 1);
        assert(1 * den > 0);
    }
    lemma_nearest_unique(0, den, 0);
}

/// A double is its own nearest double.
pub proof fn lemma_nearest_exact(magnitude: nat)
    requires
        magnitude < INFINITE,
    ensures
        nearest(units(magnitude), 1) == magnitude,
{
    lemma_units_step(magnitude);
    if magnitude > 0 {
        lemma_units_step((magnitude - 1) as nat);
    }
    assert(rounds_to(units(magnitude), 1, magnitude));
    lemma_nearest_unique(units(magnitude), 1, magnitude);
}

pub(crate) fn pack(negative: bool, magnitude: u64) -> (r: Binary64)
    requires
        magnitude <= INFINITE,
    ensures
        r == signed(negative, magnitude as nat),
{
    if negative {
        Binary64 { bits: magnitude + SIGN }
    } else {
        Binary64 { bits: magnitude }
    }
}

fn multiply_magnitudes(a: u64, b: u64) -> (r: u64)
    requires
        a < INFINITE,
        b < INFINITE,
    ensures
        r <= INFINITE,
        r == nearest(units(a as nat) * units(b as nat), pow2(UNIT_BITS as nat)),
{
    let (ma, xa) = decode(a);
    let (mb, xb) = decode(b);
    let ghost num = units(a as nat) * units(b as nat);
    let ghost den = pow2(UNIT_BITS as nat);
    proof {
        lemma_pow2_pos(UNIT_BITS as nat);
        lemma_pow2_values();
        lemma_pow2_adds(53, 53);
        lemma_pow2_strictly_increases(106, 120);
        assert(0 <= ma * mb < 0x20_0000_0000_0000 * 0x20_0000_0000_0000) by (nonlinear_arith)
            requires
                0 <= ma < 0x20_0000_0000_0000,
                0 <= mb < 0x20_0000_0000_0000,
        ;
    }
    let m: u128 = (ma as u128) * (mb as u128);
    let ghost big = (xa + xb) as nat;
    proof {
        lemma_pow2_adds(xa as nat, xb as nat);
        assert(num == m * pow2(big)) by (nonlinear_arith)
            requires
                num == (ma * pow2(xa as nat)) * (mb * pow2(xb as nat)),
                m == ma * mb,
                pow2(big) == pow2(xa as nat) * pow2(xb as nat),
        ;
    }
    if m == 0 {
        proof {
            assert(0 * pow2(big) == 0) by (nonlinear_arith);
            lemma_nearest_zero(den);
        }
        return 0;
    }
    let e: i32 = (xa as i32) + (xb as i32) - (UNIT_BITS as i32);
    proof {
        if e >= 0 {
            lemma_pow2_adds(e as nat, UNIT_BITS as nat);
            assert(pow2(big) == scale_up(e as int) * den);
            assert(num * 1 == num);
        } else {
            assert(1 * den == den);
            lemma_pow2_adds(big, (-e) as nat);
            assert((m * pow2(big)) * pow2((-e) as nat) == m * (pow2(big) * pow2((-e) as nat))) by (nonlinear_arith);
        }
        assert(represents(num, den, m as nat, e as int, false));
    }
    round_scaled(m, e, false, Ghost(num), Ghost(den))
}

fn divide_magnitudes(a: u64, b: u64) -> (r: u64)
    requires
        a < INFINITE,
        0 < b < INFINITE,
    ensures
        r <= INFINITE,
        r == nearest(units(a as nat) * pow2(UNIT_BITS as nat), units(b as nat)),
{
    let (ma, xa) = decode(a);
    let (mb, xb) = decode(b);
    let ghost den = units(b as nat);
    let ghost num = units(a as nat) * pow2(UNIT_BITS as nat);
    proof {
        lemma_pow2_pos(xb as nat);
        assert(den > 0) by (nonlinear_arith)
            requires
                den == mb * pow2(xb as nat),
                mb > 0,
                pow2(xb as nat) > 0,
        ;
        lemma_pow2_values();
        lemma_pow2_strictly_increases(53, 120);
    }
    if ma == 0 {
        proof {
            assert(0 * pow2(xa as nat) == 0) by (nonlinear_arith);
            assert(0 * pow2(UNIT_BITS as nat) == 0) by (nonlinear_arith);
            lemma_nearest_zero(den);
        }
        return 0;
    }
    let l: u32 = bit_length(ma as u128);
    let t: u32 = 119 - l.min(119);
    proof {
        if l > 53 {
            if l > 54 {
                lemma_pow2_strictly_increases(53, (l - 1) as nat);
            }
        }
        assert(l <= 53);
        lemma_pow2_adds(l as nat, t as nat);
        lemma_pow2_adds((l - 1) as nat, t as nat);
        lemma_pow2_strictly_increases(119, 120);
        lemma_pow2_adds(54, 64);
    }
    let p: u128 = power_of_two(t);
    proof {
        lemma_pow2_pos(t as nat);
        assert(ma * p < pow2(119) && ma * p >= pow2(118)) by (nonlinear_arith)
            requires
                pow2((l - 1) as nat) <= ma < pow2(l as nat),
                p > 0,
                pow2(119) == pow2(l as nat) * p,
                pow2(118) == pow2((l - 1) as nat) * p,
        ;
        lemma_pow2_adds(55, 64);
        lemma_pow2_adds(1, 54);
        assert(pow2(119) <= u128::MAX);
    }
    let n: u128 = (ma as u128) * p;
    let d: u128 = mb as u128;
    let q: u128 = n / d;
    let rem: u128 = n % d;
    proof {
        vstd::arithmetic::div_mod::lemma_fundamental_div_mod(n as int, d as int);
        assert(n == q * d + rem) by (nonlinear_arith)
            requires
                n == d * q + rem,
        ;
        assert(q >= pow2(54)) by (nonlinear_arith)
            requires
                q * d + rem >= pow2(54) * pow2(64),
                rem < d,
                d < pow2(64),
                pow2(64) > 0,
        ;
        assert(q <= n) by (nonlinear_arith)
            requires
                q * d + rem == n,
                d >= 1,
        ;
    }
    let e: i32 = (xa as i32) + (UNIT_BITS as i32) - (t as i32) - (xb as i32);
    proof {
        lemma_quotient_represents(
            ma as nat,
            xa as nat,
            mb as nat,
            xb as nat,
            t as nat,
            q as nat,
            rem as nat,
            e as int,
        );
    }
    round_scaled(q, e, rem != 0, Ghost(num), Ghost(den))
}

proof fn lemma_quotient_represents(ma: nat, xa: nat, mb: nat, xb: nat, t: nat, q: nat, rem: nat, e: int)
    requires
        mb > 0,
        rem < mb,
        ma * pow2(t) == q * mb + rem,
        e == xa + UNIT_BITS - t - xb,
    ensures
        represents((ma * pow2(xa)) * pow2(UNIT_BITS as nat), mb * pow2(xb), q, e, rem != 0),
{
    let num = (ma * pow2(xa)) * pow2(UNIT_BITS as nat);
    let den = mb * pow2(xb);
    let up = scale_up(e);
    let k = scale_down(e);
    let z = pow2(xb) * up;
    lemma_pow2_values();
    lemma_pow2_pos(xb);
    lemma_pow2_pos(if e >= 0 { e as nat } else { 0 });
    lemma_pow2_adds(xa, UNIT_BITS as nat);
    let total = pow2(xa + UNIT_BITS as nat);
    assert(num == ma * total) by (nonlinear_arith)
        requires
            num == (ma * pow2(xa)) * pow2(UNIT_BITS as nat),
            total == pow2(xa) * pow2(UNIT_BITS as nat),
    ;
    assert(total * k == pow2(t) * z) by {
        lemma_pow2_adds(t, xb);
        if e >= 0 {
            lemma_pow2_adds(t + xb, e as nat);
            assert(total == pow2(t + xb) * up);
            assert((pow2(t) * pow2(xb)) * up == pow2(t) * (pow2(xb) * up)) by (nonlinear_arith);
            assert(total * 1 == total);
        } else {
            lemma_pow2_adds(xa + UNIT_BITS as nat, (-e) as nat);
            assert(total * k == pow2(t + xb));
            assert(up == 1);
            assert(pow2(xb) * 1 == pow2(xb));
        }
    }
    assert(num * k == (ma * pow2(t)) * z) by (nonlinear_arith)
        requires
            num == ma * total,
            total * k == pow2(t) * z,
    ;
    assert(up * den == mb * z) by (nonlinear_arith)
        requires
            den == mb * pow2(xb),
            z == pow2(xb) * up,
    ;
    assert(z > 0) by (nonlinear_arith)
        requires
            z == pow2(xb) * up,
            pow2(xb) > 0,
            up > 0,
    ;
    assert(num * k == q * (mb * z) + rem * z) by (nonlinear_arith)
        requires
            num * k == (q * mb + rem) * z,
    ;
    assert((q + 1) * (mb * z) == q * (mb * z) + mb * z) by (nonlinear_arith);
    assert(rem * z < mb * z) by (nonlinear_arith)
        requires
            rem < mb,
            z > 0,
    ;
    assert(rem != 0 ==> rem * z > 0) by (nonlinear_arith)
        requires
            z > 0,
    ;
    assert(rem == 0 ==> rem * z == 0) by (nonlinear_arith);
}

/// The magnitude nearest to the sum or, where `subtract` is set, the difference.
fn combine_magnitudes(a: u64, b: u64, subtract: bool) -> (r: u64)
    requires
        b <= a < INFINITE,
        subtract ==> b < a,
    ensures
        r <= INFINITE,
        !subtract ==> r == nearest(units(a as nat) + units(b as nat), 1),
        subtract ==> units(a as nat) > units(b as nat) && r == nearest(
            (units(a as nat) - units(b as nat)) as nat,
            1,
        ),
{
    let (ma, xa) = decode(a);
    let (mb, xb) = decode(b);
    assert(xa >= xb);
    let d: u32 = xa - xb;
    let k: u32 = if d > 66 { d - 66 } else { 0 };
    let p: u128 = power_of_two(d - k);
    proof {
        lemma_pow2_values();
        lemma_pow2_adds(53, 66);
        lemma_pow2_adds(52, 66);
        lemma_pow2_adds(2, 64);
        lemma_pow2_adds(119, 1);
        if d - k < 66 {
            lemma_pow2_strictly_increases((d - k) as nat, 66);
        }
        lemma_pow2_pos((d - k) as nat);
        assert(0 <= ma * p <= 0x1f_ffff_ffff_ffff * 0x4_0000_0000_0000_0000) by (nonlinear_arith)
            requires
                0 <= ma <= 0x1f_ffff_ffff_ffff,
                0 < p <= 0x4_0000_0000_0000_0000,
        ;
    }
    let big: u128 = (ma as u128) * p;
    let floor: u64;
    let rem: u64;
    if k > 60 {
        floor = 0;
        rem = mb;
        proof {
            lemma_pow2_strictly_increases(53, k as nat);
            assert(0 * pow2(k as nat) == 0) by (nonlinear_arith);
        }
    } else {
        let pk: u128 = power_of_two(k);
        proof {
            lemma_pow2_pos(k as nat);
            vstd::arithmetic::div_mod::lemma_fundamental_div_mod(mb as int, pk as int);
            assert(mb == (mb as u128 / pk) * pk + mb as u128 % pk) by (nonlinear_arith)
                requires
                    mb as int == pk * (mb as int / pk as int) + mb as int % pk as int,
                    pk > 0,
            ;
            assert(0 <= (mb as u128 / pk) <= mb) by (nonlinear_arith)
                requires
                    mb == (mb as u128 / pk) * pk + mb as u128 % pk,
                    pk >= 1,
                    mb as u128 / pk >= 0,
                    mb as u128 % pk >= 0,
            ;
        }
        floor = ((mb as u128) / pk) as u64;
        rem = ((mb as u128) % pk) as u64;
    }
    assert(mb == floor * pow2(k as nat) + rem && rem < pow2(k as nat));
    assert(floor <= mb);
    let ghost ua = units(a as nat);
    let ghost ub = units(b as nat);
    let ghost scale = pow2((xb + k) as nat);
    proof {
        lemma_pow2_adds(xb as nat, k as nat);
        lemma_pow2_adds((xb + k) as nat, (d - k) as nat);
        lemma_pow2_pos(xb as nat);
        assert(ua == big * scale) by (nonlinear_arith)
            requires
                ua == ma * pow2(xa as nat),
                pow2(xa as nat) == scale * p,
                big == ma * p,
        ;
        assert(ub == floor * scale + rem * pow2(xb as nat)) by (nonlinear_arith)
            requires
                ub == mb * pow2(xb as nat),
                mb == floor * pow2(k as nat) + rem,
                scale == pow2(xb as nat) * pow2(k as nat),
        ;
        assert(rem * pow2(xb as nat) < scale) by (nonlinear_arith)
            requires
                scale == pow2(xb as nat) * pow2(k as nat),
                pow2(xb as nat) > 0,
                rem < pow2(k as nat),
        ;
        assert(rem > 0 ==> rem * pow2(xb as nat) > 0) by (nonlinear_arith)
            requires
                pow2(xb as nat) > 0,
        ;
        assert(rem == 0 ==> rem * pow2(xb as nat) == 0) by (nonlinear_arith);
        assert(k == 0 ==> rem == 0);
        if subtract {
            super::rounding::lemma_units_increase(b as nat, a as nat);
        }
        if k > 0 {
            assert(big >= 0x10_0000_0000_0000 * 0x4_0000_0000_0000_0000) by (nonlinear_arith)
                requires
                    big == ma * p,
                    ma >= 0x10_0000_0000_0000,
                    p == 0x4_0000_0000_0000_0000,
            ;
        }
    }
    let e: i32 = (xb as i32) + (k as i32);
    assert(scale * 1 == scale);
    if subtract {
        let small: u128 = (floor as u128) + (if rem != 0 { 1u128 } else { 0u128 });
        proof {
            assert(k == 0 ==> big > small) by {
                if k == 0 {
                    assert(big > floor) by (nonlinear_arith)
                        requires
                            big * scale > floor * scale,
                    ;
                }
            }
            assert((big - small) * scale == big * scale - small * scale) by (nonlinear_arith);
            assert(small * scale == floor * scale + (if rem != 0 { scale } else { 0 })) by (nonlinear_arith)
                requires
                    small == floor + (if rem != 0 { 1int } else { 0 }),
            ;
            assert((big - small + 1) * scale == (big - small) * scale + scale) by (nonlinear_arith);
        }
        let m: u128 = big - small;
        assert((ua - ub) * 1 == ua - ub);
        assert(represents((ua - ub) as nat, 1, m as nat, e as int, rem != 0));
        round_scaled(m, e, rem != 0, Ghost((ua - ub) as nat), Ghost(1))
    } else {
        let m: u128 = big + (floor as u128);
        proof {
            assert((big + floor) * scale == big * scale + floor * scale) by (nonlinear_arith);
            assert((big + floor + 1) * scale == (big + floor) * scale + scale) by (nonlinear_arith);
        }
        if m == 0 {
            proof {
                assert(0 * scale == 0) by (nonlinear_arith);
                lemma_nearest_zero(1);
            }
            return 0;
        }
        assert((ua + ub) * 1 == ua + ub);
        assert(represents(ua + ub, 1, m as nat, e as int, rem != 0));
        round_scaled(m, e, rem != 0, Ghost(ua + ub), Ghost(1))
    }
}

impl Binary64 {
    /// Magnitude and sign of the encoding.
    pub(crate) fn parts(self) -> (r: (bool, u64))
        ensures
            r.0 == self.negative(),
            r.1 == self.magnitude(),
            self == signed(r.0, r.1 as nat),
    {
        (self.bits >= SIGN, self.bits % SIGN)
    }

    pub fn is_nan(self) -> (r: bool)
        ensures
            r == self.nan(),
    {
        self.bits % SIGN > INFINITE
    }

    pub fn is_finite(self) -> (r: bool)
        ensures
            r == self.finite(),
    {
        self.bits % SIGN < INFINITE
    }

    /// `self < other`.
    pub fn lt(self, other: Binary64) -> (r: bool)
        ensures
            r == self.less(other),
    {
        let (na, a) = self.parts();
        let (nb, b) = other.parts();
        if a > INFINITE || b > INFINITE {
            false
        } else if na {
            if nb {
                b < a
            } else {
                a > 0 || b > 0
            }
        } else {
            !nb && a < b
        }
    }

    /// `self <= other`.
    pub fn le(self, other: Binary64) -> (r: bool)
        ensures
            r == self.at_most(other),
    {
        !self.is_nan() && !other.is_nan() && !other.lt(self)
    }

    pub fn neg(self) -> (r: Binary64)
        ensures
            r == self.negated(),
    {
        let (negative, magnitude) = self.parts();
        Binary64 { bits: if negative { magnitude } else { magnitude + SIGN } }
    }

    pub fn abs(self) -> (r: Binary64)
        ensures
            r == self.absolute(),
    {
        let (_, magnitude) = self.parts();
        Binary64 { bits: magnitude }
    }

    pub fn max(self, other: Binary64) -> (r: Binary64)
        ensures
            r == larger_of(self, other),
    {
        if self.is_nan() || self.lt(other) {
            other
        } else {
            self
        }
    }

    pub fn min(self, other: Binary64) -> (r: Binary64)
        ensures
            r == smaller_of(self, other),
    {
        if self.is_nan() || other.lt(self) {
            other
        } else {
            self
        }
    }

    pub fn clamp(self, low: Binary64, high: Binary64) -> (r: Binary64)
        requires
            low.at_most(high),
        ensures
            r == clamped(self, low, high),
    {
        if self.lt(low) {
            low
        } else if high.lt(self) {
            high
        } else {
            self
        }
    }

    pub fn plus(self, other: Binary64) -> (r: Binary64)
        ensures
            r == sum_of(self, other),
    {
        let (na, a) = self.parts();
        let (nb, b) = other.parts();
        if a > INFINITE || b > INFINITE || (a == INFINITE && b == INFINITE && na != nb) {
            Binary64 { bits: 0x7ff8_0000_0000_0000 }
        } else if a == INFINITE {
            self
        } else if b == INFINITE {
            other
        } else if na == nb {
            let r: u64 = if a >= b {
                combine_magnitudes(a, b, false)
            } else {
                combine_magnitudes(b, a, false)
            };
            proof {
                lemma_sum_of_zeros(a as nat, b as nat);
            }
            pack(na, r)
        } else if a == b {
            pack(false, 0)
        } else if a > b {
            let r: u64 = combine_magnitudes(a, b, true);
            pack(na, r)
        } else {
            let r: u64 = combine_magnitudes(b, a, true);
            pack(nb, r)
        }
    }

    pub fn minus(self, other: Binary64) -> (r: Binary64)
        ensures
            r == difference_of(self, other),
    {
        self.plus(other.neg())
    }

    pub fn times(self, other: Binary64) -> (r: Binary64)
        ensures
            r == product_of(self, other),
    {
        let (na, a) = self.parts();
        let (nb, b) = other.parts();
        if a > INFINITE || b > INFINITE || (a == INFINITE && b == 0) || (a == 0 && b == INFINITE) {
            Binary64 { bits: 0x7ff8_0000_0000_0000 }
        } else if a == INFINITE || b == INFINITE {
            pack(na != nb, INFINITE)
        } else {
            pack(na != nb, multiply_magnitudes(a, b))
        }
    }

    pub fn over(self, other: Binary64) -> (r: Binary64)
        ensures
            r == quotient_of(self, other),
    {
        let (na, a) = self.parts();
        let (nb, b) = other.parts();
        if a > INFINITE || b > INFINITE || (a == INFINITE && b == INFINITE) || (a == 0 && b == 0) {
            Binary64 { bits: 0x7ff8_0000_0000_0000 }
        } else if a == INFINITE || b == 0 {
            pack(na != nb, INFINITE)
        } else if b == INFINITE {
            pack(na != nb, 0)
        } else {
            pack(na != nb, divide_magnitudes(a, b))
        }
    }

    /// The double nearest to `value`.
    pub fn from_integer(value: i64) -> (r: Binary64)
        ensures
            r == of_integer(value as int),
    {
        let negative: bool = value < 0;
        let m: u128 = if negative { (-(value as i128)) as u128 } else { value as u128 };
        proof {
            lemma_pow2_pos(UNIT_BITS as nat);
            lemma_pow2_values();
            lemma_pow2_strictly_increases(64, 120);
        }
        if m == 0 {
            assert(value * pow2(UNIT_BITS as nat) == 0) by (nonlinear_arith)
                requires
                    value == 0,
            ;
            return pack(false, 0);
        }
        let ghost num = m as nat * pow2(UNIT_BITS as nat);
        proof {
            assert(value * pow2(UNIT_BITS as nat) == (if negative { -(num as int) } else { num as int }))
                by (nonlinear_arith)
                requires
                    num == m * pow2(UNIT_BITS as nat),
                    value == (if negative { -(m as int) } else { m as int }),
            ;
            assert(num > 0) by (nonlinear_arith)
                requires
                    num == m * pow2(UNIT_BITS as nat),
                    m > 0,
                    pow2(UNIT_BITS as nat) > 0,
            ;
            assert(num * 1 == num && pow2(UNIT_BITS as nat) * 1 == pow2(UNIT_BITS as nat));
        }
        let r: u64 = round_scaled(m, UNIT_BITS as i32, false, Ghost(num), Ghost(1));
        pack(negative, r)
    }

    /// The double nearest to the quotient of two small integers.
    pub fn from_ratio(num: i64, den: i64) -> (r: Binary64)
        ensures
            r == of_ratio(num as int, den as int),
    {
        Binary64::from_integer(num).over(Binary64::from_integer(den))
    }
}

/// The places of small integers are in the order of the integers.
pub proof fn lemma_integer_order(a: int, b: int)
    requires
        0 <= a < b <= 0x1000_0000,
    ensures
        of_integer(a).finite(),
        of_integer(b).finite(),
        !of_integer(a).negative(),
        !of_integer(b).negative(),
        of_integer(a).place() < of_integer(b).place(),
        of_integer(a).at_most(of_integer(b)),
        of_integer(a).less(of_integer(b)),
        a == 0 ==> of_integer(a).zero(),
{
    lemma_integer_exact(a as nat);
    lemma_integer_exact(b as nat);
    let ma = of_integer(a).magnitude();
    let mb = of_integer(b).magnitude();
    lemma_pow2_pos(UNIT_BITS as nat);
    assert(a * pow2(UNIT_BITS as nat) < b * pow2(UNIT_BITS as nat)) by (nonlinear_arith)
        requires
            a < b,
            pow2(UNIT_BITS as nat) > 0,
    ;
    if ma >= mb {
        if ma > mb {
            super::rounding::lemma_units_increase(mb, ma);
        }
    }
    if a == 0 {
        assert(0 * pow2(UNIT_BITS as nat) == 0) by (nonlinear_arith);
    }
}

/// A small integer is a double.
pub proof fn lemma_integer_exact(n: nat)
    requires
        n <= 0x1000_0000,
    ensures
        of_integer(n as int).finite(),
        !of_integer(n as int).negative(),
        units(of_integer(n as int).magnitude()) == n * pow2(UNIT_BITS as nat),
        of_integer(n as int).magnitude() < 1075 * BINADE,
{
    let p = pow2(UNIT_BITS as nat);
    lemma_pow2_pos(UNIT_BITS as nat);
    lemma_integer_value(n);
    let m = of_integer(n as int).magnitude();
    if m >= 1075 * BINADE {
        super::rounding::lemma_units_scaled(1074, BINADE as nat);
        let top = 1075 * BINADE as nat;
        assert(units(top) == (BINADE as nat) * p);
        if m > top {
            super::rounding::lemma_units_increase(top, m);
        }
        assert(n * p < (BINADE as nat) * p) by (nonlinear_arith)
            requires
                n < BINADE,
                p > 0,
        ;
    }
}

proof fn lemma_integer_value(n: nat)
    requires
        n <= 0x1000_0000,
    ensures
        of_integer(n as int).finite(),
        !of_integer(n as int).negative(),
        units(of_integer(n as int).magnitude()) == n * pow2(UNIT_BITS as nat),
{
    let p = pow2(UNIT_BITS as nat);
    lemma_pow2_pos(UNIT_BITS as nat);
    if n == 0 {
        assert(0 * p == 0) by (nonlinear_arith);
        assert(units(0) == 0);
    } else {
        lemma_pow2_values();
        assert(n * pow2(52) >= pow2(52)) by (nonlinear_arith)
            requires
                n >= 1,
        ;
        let (q, x) = lemma_normalise(n, 1022, 52);
        super::rounding::lemma_units_scaled(x, q);
        let m = x * (BINADE as nat) + q;
        assert(m < INFINITE) by (nonlinear_arith)
            requires
                m == x * 0x10_0000_0000_0000 + q,
                x <= 1074,
                q < 0x20_0000_0000_0000,
        ;
        lemma_nearest_exact(m);
        assert(n * p > 0) by (nonlinear_arith)
            requires
                n > 0,
                p > 0,
        ;
    }
}

/// Doubles the significand until it is as long as a double's.
proof fn lemma_normalise(n: nat, base: nat, bits: nat) -> (r: (nat, nat))
    requires
        0 < n < 0x20_0000_0000_0000,
        base >= 0,
        bits <= 52,
        n * pow2(bits) >= BINADE,
    ensures
        BINADE <= r.0 < 2 * BINADE,
        r.1 <= base + bits,
        r.0 * pow2(r.1) == n * pow2(base + bits),
    decreases bits,
{
    lemma_pow2_values();
    if n >= BINADE || bits == 0 {
        assert(n * 1 == n);
        (n, base + bits)
    } else {
        vstd::arithmetic::power2::lemma_pow2_unfold(bits);
        vstd::arithmetic::power2::lemma_pow2_unfold(base + bits);
        assert((2 * n) * pow2((bits - 1) as nat) == n * pow2(bits)) by (nonlinear_arith)
            requires
                pow2(bits) == 2 * pow2((bits - 1) as nat),
        ;
        assert((2 * n) * pow2((base + bits - 1) as nat) == n * pow2(base + bits)) by (nonlinear_arith)
            requires
                pow2(base + bits) == 2 * pow2((base + bits - 1) as nat),
        ;
        lemma_normalise(2 * n, base, (bits - 1) as nat)
    }
}

proof fn lemma_sum_of_zeros(a: nat, b: nat)
    ensures
        units(a) + units(b) == 0 ==> nearest(units(a) + units(b), 1) == 0,
{
    if units(a) + units(b) == 0 {
        lemma_nearest_zero(1);
    }
}

/// The order of finite doubles is the order of their values.
pub proof fn law_order_is_by_value(a: Binary64, b: Binary64)
    requires
        a.finite(),
        b.finite(),
    ensures
        a.less(b) <==> a.value() < b.value(),
        a.equal(b) <==> a.value() == b.value(),
{
    let ma = a.magnitude();
    let mb = b.magnitude();
    if ma < mb {
        super::rounding::lemma_units_increase(ma, mb);
    } else if mb < ma {
        super::rounding::lemma_units_increase(mb, ma);
    }
    assert(units(0) == 0);
    if ma > 0 {
        super::rounding::lemma_units_increase(0, ma);
    }
    if mb > 0 {
        super::rounding::lemma_units_increase(0, mb);
    }
}

proof fn lemma_signed(negative: bool, magnitude: nat)
    requires
        magnitude <= INFINITE,
    ensures
        signed(negative, magnitude).magnitude() == magnitude,
        signed(negative, magnitude).negative() == negative,
        !signed(negative, magnitude).nan(),
{
}

/// No double lies nearer to a sum than the one that is taken, whose sign is that of the sum.
pub proof fn law_sums_are_nearest(a: Binary64, b: Binary64)
    requires
        a.finite(),
        b.finite(),
        a.value() + b.value() != 0,
    ensures
        a.value() + b.value() > 0 ==> rounds_to((a.value() + b.value()) as nat, 1, sum_of(a, b).magnitude()),
        a.value() + b.value() < 0 ==> rounds_to((-(a.value() + b.value())) as nat, 1, sum_of(a, b).magnitude()),
        sum_of(a, b).negative() == (a.value() + b.value() < 0),
{
    let total = a.value() + b.value();
    let size = if total > 0 { total as nat } else { (-total) as nat };
    super::rounding::lemma_nearest_rounds(size, 1);
    lemma_signed(total < 0, nearest(size, 1));
}

/// No double lies nearer to a product than the one that is taken.
pub proof fn law_products_are_nearest(a: Binary64, b: Binary64)
    requires
        a.finite(),
        b.finite(),
    ensures
        rounds_to(
            units(a.magnitude()) * units(b.magnitude()),
            pow2(UNIT_BITS as nat),
            product_of(a, b).magnitude(),
        ),
        product_of(a, b).negative() == (a.negative() != b.negative()),
{
    lemma_pow2_pos(UNIT_BITS as nat);
    let size = units(a.magnitude()) * units(b.magnitude());
    super::rounding::lemma_nearest_rounds(size, pow2(UNIT_BITS as nat));
    lemma_signed(a.negative() != b.negative(), nearest(size, pow2(UNIT_BITS as nat)));
}

/// No double lies nearer to a quotient than the one that is taken.
pub proof fn law_quotients_are_nearest(a: Binary64, b: Binary64)
    requires
        a.finite(),
        b.finite(),
        !b.zero(),
    ensures
        rounds_to(
            units(a.magnitude()) * pow2(UNIT_BITS as nat),
            units(b.magnitude()),
            quotient_of(a, b).magnitude(),
        ),
        quotient_of(a, b).negative() == (a.negative() != b.negative()),
{
    assert(units(0) == 0);
    super::rounding::lemma_units_increase(0, b.magnitude());
    let size = units(a.magnitude()) * pow2(UNIT_BITS as nat);
    super::rounding::lemma_nearest_rounds(size, units(b.magnitude()));
    lemma_signed(a.negative() != b.negative(), nearest(size, units(b.magnitude())));
}

/// The part that lies between nothing and the whole, in hundredths of the whole, is a
/// percentage.
pub proof fn lemma_part_of_whole(part: Binary64, whole: Binary64)
    requires
        part.finite(),
        whole.finite(),
        of_integer(0).less(whole),
        of_integer(0).at_most(part),
        part.at_most(whole),
    ensures
        of_integer(0).at_most(product_of(quotient_of(part, whole), of_integer(100))),
        product_of(quotient_of(part, whole), of_integer(100)).at_most(of_integer(100)),
{
    let p = pow2(UNIT_BITS as nat);
    lemma_pow2_pos(UNIT_BITS as nat);
    lemma_integer_order(0, 100);
    lemma_integer_exact(1);
    lemma_integer_exact(100);
    assert(1 * p == p);
    let a = units(part.magnitude());
    let b = units(whole.magnitude());
    assert(!whole.negative() && whole.magnitude() > 0);
    assert(!part.negative() || part.zero());
    assert(a <= b) by {
        if part.magnitude() < whole.magnitude() {
            super::rounding::lemma_units_increase(part.magnitude(), whole.magnitude());
        }
    }
    law_quotients_are_nearest(part, whole);
    let ratio = quotient_of(part, whole);
    let one = of_integer(1).magnitude();
    assert(b > 0) by {
        assert(units(0) == 0);
        super::rounding::lemma_units_increase(0, whole.magnitude());
    }
    assert(ratio.magnitude() <= one) by {
        assert((a * p) * 1 <= p * b) by (nonlinear_arith)
            requires
                a <= b,
        ;
        super::rounding::lemma_nearest_monotone(a * p, b, p, 1);
        lemma_nearest_exact(one);
        lemma_nearest_unique(a * p, b, ratio.magnitude());
    }
    let r = units(ratio.magnitude());
    assert(r <= p) by {
        if ratio.magnitude() < one {
            super::rounding::lemma_units_increase(ratio.magnitude(), one);
        }
    }
    let hundred = of_integer(100).magnitude();
    law_products_are_nearest(ratio, of_integer(100));
    let share = product_of(ratio, of_integer(100));
    assert(share.magnitude() <= hundred) by {
        assert((r * (100 * p)) * 1 <= (100 * p) * p) by (nonlinear_arith)
            requires
                r <= p,
        ;
        super::rounding::lemma_nearest_monotone(r * (100 * p), p, 100 * p, 1);
        lemma_nearest_exact(hundred);
        lemma_nearest_unique(r * (100 * p), p, share.magnitude());
    }
    if part.negative() {
        assert(a == 0);
        assert(0 * p == 0);
        lemma_nearest_zero(b);
        lemma_nearest_unique(a * p, b, ratio.magnitude());
        assert(r == 0);
        assert(r * (100 * p) == 0) by (nonlinear_arith)
            requires
                r == 0,
        ;
        lemma_nearest_zero(p);
        lemma_nearest_unique(r * (100 * p), p, share.magnitude());
    }
}

/// A difference of finite doubles is a number, and so is one brought into a range.
pub proof fn lemma_clamped_difference(a: Binary64, b: Binary64, high: Binary64)
    requires
        a.finite(),
        b.finite(),
        high.finite(),
        of_integer(0).less(high),
    ensures
        clamped(difference_of(a, b), of_integer(0), high).finite(),
        of_integer(0).at_most(clamped(difference_of(a, b), of_integer(0), high)),
        clamped(difference_of(a, b), of_integer(0), high).at_most(high),
{
    lemma_integer_order(0, 1);
    lemma_negated(b);
    let total = a.value() - b.value();
    if total != 0 {
        law_sums_are_nearest(a, b.negated());
    } else {
        lemma_signed(a.negative() && b.negated().negative(), 0);
    }
    assert(!difference_of(a, b).nan());
}

proof fn lemma_negated(a: Binary64)
    requires
        a.finite(),
    ensures
        a.negated().finite(),
        a.negated().negative() == !a.negative(),
        a.negated().value() == -a.value(),
{
    let m = a.magnitude();
    assert(signed(!a.negative(), m).magnitude() == m);
}

/// Equal differences of finite doubles round to the same double.
pub proof fn lemma_same_difference(a: Binary64, b: Binary64, c: Binary64, d: Binary64)
    requires
        a.finite() && !a.negative() && b.finite(),
        c.finite() && !c.negative() && d.finite(),
        a.value() - c.value() == b.value() - d.value(),
    ensures
        difference_of(a, b) == difference_of(c, d),
{
    lemma_negated(b);
    lemma_negated(d);
}

/// What an amount exceeds another by is finite.
pub proof fn lemma_excess_is_finite(a: Binary64, b: Binary64)
    requires
        a.finite(),
        b.finite(),
        of_integer(0).at_most(a),
        of_integer(0).at_most(b),
    ensures
        larger_of(difference_of(a, b), of_integer(0)).finite(),
{
    lemma_integer_order(0, 1);
    lemma_negated(b);
    assert(units(0) == 0);
    assert(a.value() == units(a.magnitude()));
    assert(b.value() == units(b.magnitude()));
    let total = a.value() - b.value();
    if total > 0 {
        super::rounding::lemma_nearest_monotone(total as nat, 1, units(a.magnitude()), 1);
        lemma_nearest_exact(a.magnitude());
        lemma_signed(false, nearest(total as nat, 1));
    } else if total < 0 {
        law_sums_are_nearest(a, b.negated());
    } else {
        lemma_signed(a.negative() && b.negated().negative(), 0);
    }
}

/// Hundredths of an amount over a positive one, brought between 0 and 100, are a percentage.
pub proof fn lemma_clamped_share(a: Binary64, b: Binary64)
    requires
        !a.nan(),
        b.finite(),
        of_integer(0).less(b),
    ensures
        of_integer(0).at_most(
            clamped(product_of(quotient_of(a, b), of_integer(100)), of_integer(0), of_integer(100)),
        ),
        clamped(product_of(quotient_of(a, b), of_integer(100)), of_integer(0), of_integer(100)).at_most(
            of_integer(100),
        ),
{
    lemma_integer_order(0, 100);
    let ratio = quotient_of(a, b);
    assert(!ratio.nan()) by {
        if a.infinite() {
            lemma_signed(a.negative() != b.negative(), INFINITE as nat);
        } else {
            law_quotients_are_nearest(a, b);
        }
    }
    assert(!product_of(ratio, of_integer(100)).nan()) by {
        if ratio.infinite() {
            lemma_signed(ratio.negative() != of_integer(100).negative(), INFINITE as nat);
        } else {
            law_products_are_nearest(ratio, of_integer(100));
        }
    }
}

/// A double brought into a range lies in it, and one that lies in it stays.
pub proof fn law_ranges_hold_what_is_brought_into_them(x: Binary64, low: Binary64, high: Binary64)
    requires
        low.at_most(high),
        !x.nan(),
    ensures
        low.at_most(clamped(x, low, high)),
        clamped(x, low, high).at_most(high),
        low.at_most(x) && x.at_most(high) ==> clamped(x, low, high) == x,
        x.less(low) ==> clamped(x, low, high) == low,
        high.less(x) ==> clamped(x, low, high) == high,
{
}

/// The larger of two doubles is one of them and not below the other, and the smaller is one of
/// them and not above it.
pub proof fn law_the_larger_is_not_below(a: Binary64, b: Binary64)
    requires
        !a.nan() && !b.nan(),
    ensures
        larger_of(a, b) == a || larger_of(a, b) == b,
        a.at_most(larger_of(a, b)) && b.at_most(larger_of(a, b)),
        smaller_of(a, b) == a || smaller_of(a, b) == b,
        smaller_of(a, b).at_most(a) && smaller_of(a, b).at_most(b),
{
}

/// Small whole numbers are doubles: their value is theirs exactly.
pub proof fn law_small_integers_are_exact(n: nat)
    requires
        n <= 0x1000_0000,
    ensures
        of_integer(n as int).finite(),
        of_integer(n as int).value() == n * pow2(1074),
{
    lemma_integer_exact(n);
}

/// The opposite of a double has the opposite value, and its magnitude the same without a sign.
pub proof fn law_opposites_have_opposite_values(a: Binary64)
    requires
        a.finite(),
    ensures
        a.negated().value() == -a.value(),
        a.absolute().value() == (if a.value() < 0 { -a.value() } else { a.value() }),
        !a.absolute().negative(),
{
    lemma_negated(a);
    lemma_signed(false, a.magnitude());
}

} // verus!
