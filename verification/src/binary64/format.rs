//! Doubles as integers and as decimal text.
use super::arith::{decode, lemma_nearest_exact, lemma_nearest_zero, pack};
use super::natural::{padded, padded_of, pow10, Natural};
use super::rounding::{lemma_pow2_values, lemma_units_scaled, power_of_two};
use super::{difference_of, nearest, signed, units, Binary64, BINADE, INFINITE, UNIT_BITS};
use crate::text::{decimal, decimal_of};
use vstd::arithmetic::power2::{lemma_pow2_adds, lemma_pow2_pos, lemma_pow2_strictly_increases, lemma_pow2_unfold, pow2};
use vstd::prelude::*;
use vstd::string::*;

verus! {

/// `num / den` rounded to the nearest integer; a tie goes to the even one.
pub open spec fn half_even(num: nat, den: nat) -> nat {
    let q = num / den;
    let rem = num % den;
    if 2 * rem > den || (2 * rem == den && q % 2 == 1) {
        q + 1
    } else {
        q
    }
}

/// `num / den` rounded to the nearest integer; a tie goes up.
pub open spec fn half_up(num: nat, den: nat) -> nat {
    let q = num / den;
    if 2 * (num % den) >= den {
        q + 1
    } else {
        q
    }
}

/// A finite double in decimal with a fixed number of places after the point.
pub open spec fn fixed_digits(magnitude: nat, places: nat) -> Seq<char> {
    let scaled = half_even(units(magnitude) * pow10(places), pow2(UNIT_BITS as nat));
    if places == 0 {
        decimal(scaled)
    } else {
        decimal(scaled / pow10(places)) + "."@ + padded(scaled % pow10(places), places)
    }
}

/// A double in decimal with a fixed number of places after the point.
pub open spec fn fixed_text(x: Binary64, places: nat) -> Seq<char> {
    if x.nan() {
        "NaN"@
    } else {
        let digits = if x.infinite() {
            "inf"@
        } else {
            fixed_digits(x.magnitude(), places)
        };
        if x.negative() {
            "-"@ + digits
        } else {
            digits
        }
    }
}

/// The integer part of a magnitude, in units.
pub open spec fn whole_units(magnitude: nat) -> nat {
    (units(magnitude) / pow2(UNIT_BITS as nat)) * pow2(UNIT_BITS as nat)
}

/// The integer part of a double.
pub open spec fn truncated(x: Binary64) -> Binary64 {
    if x.finite() {
        signed(x.negative(), nearest(whole_units(x.magnitude()), 1))
    } else {
        x
    }
}

/// What is left of a double without its integer part.
pub open spec fn fraction_of(x: Binary64) -> Binary64 {
    difference_of(x, truncated(x))
}

/// A common factor changes neither quotient nor relative remainder.
proof fn lemma_divide_scaled(num: nat, den: nat, c: nat)
    requires
        den > 0,
        c > 0,
    ensures
        den * c > 0,
        (num * c) / (den * c) == num / den,
        (num * c) % (den * c) == (num % den) * c,
{
    let q = num / den;
    let rem = num % den;
    vstd::arithmetic::div_mod::lemma_fundamental_div_mod(num as int, den as int);
    assert(num * c == (den * c) * q + rem * c) by (nonlinear_arith)
        requires
            num == den * q + rem,
    ;
    assert(0 <= rem * c < den * c) by (nonlinear_arith)
        requires
            0 <= rem < den,
            c > 0,
    ;
    assert(den * c > 0) by (nonlinear_arith)
        requires
            den > 0,
            c > 0,
    ;
    assert(num * c == q * (den * c) + rem * c) by (nonlinear_arith)
        requires
            num * c == (den * c) * q + rem * c,
    ;
    vstd::arithmetic::div_mod::lemma_fundamental_div_mod_converse(
        (num * c) as int,
        (den * c) as int,
        q as int,
        (rem * c) as int,
    );
}

proof fn lemma_half_scaled(num: nat, den: nat, c: nat)
    requires
        den > 0,
        c > 0,
    ensures
        half_even(num * c, den * c) == half_even(num, den),
        half_up(num * c, den * c) == half_up(num, den),
{
    lemma_divide_scaled(num, den, c);
    let rem = num % den;
    assert(2 * (rem * c) > den * c <==> 2 * rem > den) by (nonlinear_arith)
        requires
            c > 0,
    ;
    assert(2 * (rem * c) >= den * c <==> 2 * rem >= den) by (nonlinear_arith)
        requires
            c > 0,
    ;
}

/// A whole number of units of the integer scale.
proof fn lemma_whole(k: nat, den: nat)
    requires
        den > 0,
    ensures
        half_even(k * den, den) == k,
        half_up(k * den, den) == k,
        (k * den) / den == k,
{
    vstd::arithmetic::div_mod::lemma_fundamental_div_mod_converse((k * den) as int, den as int, k as int, 0);
}

/// Rounds `m * 2^x / 2^1074` for a scale below that of the integers.
fn round_half_even(m: u128, x: u32) -> (r: u128)
    requires
        m < pow2(100),
        x < UNIT_BITS,
    ensures
        r == half_even(m as nat * pow2(x as nat), pow2(UNIT_BITS as nat)),
        r <= m + 1,
{
    let n: u32 = UNIT_BITS - x;
    proof {
        lemma_pow2_adds(n as nat, x as nat);
        lemma_pow2_pos(n as nat);
        lemma_pow2_pos(x as nat);
        lemma_half_scaled(m as nat, pow2(n as nat), pow2(x as nat));
    }
    if n > 110 {
        proof {
            lemma_pow2_strictly_increases(101, n as nat);
            lemma_pow2_unfold(101);
            vstd::arithmetic::div_mod::lemma_fundamental_div_mod_converse(
                m as int,
                pow2(n as nat) as int,
                0,
                m as int,
            );
        }
        return 0;
    }
    let p: u128 = power_of_two(n);
    let half: u128 = power_of_two(n - 1);
    proof {
        lemma_pow2_unfold(n as nat);
        lemma_quotient_small(m as nat, p as nat);
    }
    let q: u128 = m / p;
    let rem: u128 = m % p;
    if rem > half || (rem == half && q % 2 == 1) {
        q + 1
    } else {
        q
    }
}

proof fn lemma_quotient_small(m: nat, p: nat)
    requires
        p > 0,
        m < pow2(100),
    ensures
        m / p <= m,
        pow2(100) < u128::MAX,
{
    vstd::arithmetic::div_mod::lemma_div_is_ordered_by_denominator(m as int, 1, p as int);
    lemma_pow2_values();
    lemma_pow2_adds(64, 52);
    lemma_pow2_strictly_increases(100, 116);
}

/// `10^n` for few places.
fn power_of_ten(n: u32) -> (r: u32)
    requires
        n <= 9,
    ensures
        r == pow10(n as nat),
        1 <= r <= 1_000_000_000,
{
    let mut r: u32 = 1;
    let mut i: u32 = 0;
    while i < n
        invariant
            i <= n <= 9,
            r == pow10(i as nat),
            r >= 1,
        decreases n - i,
    {
        proof {
            reveal_with_fuel(pow10, 11);
        }
        r = 10 * r;
        i = i + 1;
    }
    proof {
        reveal_with_fuel(pow10, 11);
    }
    r
}

fn fixed_magnitude(magnitude: u64, places: u32) -> (r: String)
    requires
        magnitude < INFINITE,
        places <= 9,
    ensures
        r@ == fixed_digits(magnitude as nat, places as nat),
{
    let (m, x) = decode(magnitude);
    let ten: u32 = power_of_ten(places);
    let ghost den = pow2(UNIT_BITS as nat);
    proof {
        lemma_pow2_pos(UNIT_BITS as nat);
        lemma_pow2_values();
    }
    if x >= UNIT_BITS {
        let ghost k = m as nat * pow2((x - UNIT_BITS) as nat);
        proof {
            lemma_pow2_adds((x - UNIT_BITS) as nat, UNIT_BITS as nat);
            assert(units(magnitude as nat) * ten == (k * ten) * den) by (nonlinear_arith)
                requires
                    units(magnitude as nat) == m * pow2(x as nat),
                    pow2(x as nat) == pow2((x - UNIT_BITS) as nat) * den,
                    k == m * pow2((x - UNIT_BITS) as nat),
            ;
            lemma_whole(k * ten as nat, den);
            lemma_whole(k, ten as nat);
        }
        let mut r = Natural::from_u64(m).shifted(x - UNIT_BITS).to_decimal();
        if places > 0 {
            proof {
                vstd::arithmetic::div_mod::lemma_fundamental_div_mod_converse((k * ten) as int, ten as int, k as int, 0);
            }
            r.append(".");
            let zeros = padded_of(0, places);
            r.append(zeros.as_str());
        } else {
            assert(k * 1 == k);
        }
        r
    } else {
        proof {
            assert(0 <= m * ten < 0x20_0000_0000_0000 * 1_000_000_001) by (nonlinear_arith)
                requires
                    0 <= m < 0x20_0000_0000_0000,
                    0 <= ten <= 1_000_000_000,
            ;
            vstd::arithmetic::power2::lemma2_to64();
            lemma_pow2_adds(53, 30);
            lemma_pow2_strictly_increases(83, 100);
            assert((m * ten) * pow2(x as nat) == (m * pow2(x as nat)) * ten) by (nonlinear_arith);
        }
        let scaled: u128 = round_half_even((m as u128) * (ten as u128), x);
        if places == 0 {
            decimal_of(scaled)
        } else {
            let mut r = decimal_of(scaled / (ten as u128));
            r.append(".");
            let rest = padded_of((scaled % (ten as u128)) as u32, places);
            r.append(rest.as_str());
            r
        }
    }
}

impl Binary64 {
    /// The double in decimal with a fixed number of places after the point.
    pub fn to_fixed(self, places: u32) -> (r: String)
        requires
            places <= 9,
        ensures
            r@ == fixed_text(self, places as nat),
    {
        let (negative, magnitude) = self.parts();
        if magnitude > INFINITE {
            return "NaN".to_string();
        }
        let digits = if magnitude == INFINITE {
            "inf".to_string()
        } else {
            fixed_magnitude(magnitude, places)
        };
        if negative {
            crate::text::concat2("-", digits.as_str())
        } else {
            digits
        }
    }

    /// The integer part.
    pub fn trunc(self) -> (r: Binary64)
        ensures
            r == truncated(self),
    {
        let (negative, magnitude) = self.parts();
        if magnitude >= INFINITE {
            return self;
        }
        let exponent: u64 = magnitude / BINADE;
        proof {
            lemma_whole_units(magnitude as nat);
        }
        if exponent < 1023 {
            proof {
                lemma_nearest_zero(1);
            }
            pack(negative, 0)
        } else if exponent >= 1075 {
            proof {
                lemma_nearest_exact(magnitude as nat);
            }
            self
        } else {
            let p: u128 = power_of_two((1075 - exponent) as u32);
            proof {
                lemma_pow2_pos((1075 - exponent) as nat);
                vstd::arithmetic::div_mod::lemma_mod_decreases(magnitude as nat, p as nat);
            }
            let rest: u64 = ((magnitude as u128) % p) as u64;
            proof {
                assert(rest == magnitude as nat % p as nat);
                lemma_nearest_exact((magnitude - rest) as nat);
            }
            pack(negative, magnitude - rest)
        }
    }

    /// The part after the point.
    pub fn fract(self) -> (r: Binary64)
        ensures
            r == fraction_of(self),
    {
        self.minus(self.trunc())
    }

    /// The nearest integer, a tie going away from zero.
    pub fn round_to_integer(self) -> (r: u64)
        requires
            !self.negative(),
            self.magnitude() < 1075 * BINADE,
        ensures
            r == half_up(units(self.magnitude()), pow2(UNIT_BITS as nat)),
    {
        let (_, magnitude) = self.parts();
        let (m, x) = decode(magnitude);
        let n: u32 = UNIT_BITS - x;
        proof {
            lemma_pow2_adds(n as nat, x as nat);
            lemma_pow2_pos(n as nat);
            lemma_pow2_pos(x as nat);
            lemma_half_scaled(m as nat, pow2(n as nat), pow2(x as nat));
            lemma_pow2_values();
            if n > 60 {
                lemma_pow2_strictly_increases(54, n as nat);
                vstd::arithmetic::div_mod::lemma_fundamental_div_mod_converse(
                    m as int,
                    pow2(n as nat) as int,
                    0,
                    m as int,
                );
            }
        }
        if n > 60 {
            return 0;
        }
        let p: u128 = power_of_two(n);
        let half: u128 = power_of_two(n - 1);
        proof {
            lemma_pow2_unfold(n as nat);
            vstd::arithmetic::div_mod::lemma_div_is_ordered_by_denominator(m as int, 1, p as int);
        }
        let q: u128 = (m as u128) / p;
        if (m as u128) % p >= half {
            (q + 1) as u64
        } else {
            q as u64
        }
    }
}

/// Clearing the bits behind the point takes the integer part.
proof fn lemma_whole_units(magnitude: nat)
    requires
        magnitude < INFINITE,
    ensures
        magnitude / (BINADE as nat) < 1023 ==> whole_units(magnitude) == 0,
        magnitude / (BINADE as nat) >= 1075 ==> whole_units(magnitude) == units(magnitude),
        1023 <= magnitude / (BINADE as nat) < 1075 ==> whole_units(magnitude) == units(
            (magnitude - magnitude % pow2((1075 - magnitude / (BINADE as nat)) as nat)) as nat,
        ),
{
    let b = BINADE as nat;
    let e = magnitude / b;
    let f = magnitude % b;
    let den = pow2(UNIT_BITS as nat);
    lemma_pow2_pos(UNIT_BITS as nat);
    lemma_pow2_values();
    vstd::arithmetic::div_mod::lemma_fundamental_div_mod(magnitude as int, b as int);
    if e < 1023 {
        let u = units(magnitude);
        assert(u < den) by {
            if e == 0 {
                lemma_pow2_strictly_increases(52, UNIT_BITS as nat);
            } else {
                let x = (e - 1) as nat;
                lemma_pow2_adds(53, x);
                lemma_pow2_pos(x);
                assert((b + f) * pow2(x) < pow2(53) * pow2(x)) by (nonlinear_arith)
                    requires
                        b + f < pow2(53),
                        pow2(x) > 0,
                ;
                if x + 53 < UNIT_BITS {
                    lemma_pow2_strictly_increases((x + 53) as nat, UNIT_BITS as nat);
                }
            }
        }
        vstd::arithmetic::div_mod::lemma_fundamental_div_mod_converse(u as int, den as int, 0, u as int);
        assert(0 * den == 0) by (nonlinear_arith);
    } else if e >= 1075 {
        let x = (e - 1) as nat;
        lemma_pow2_adds((x - UNIT_BITS) as nat, UNIT_BITS as nat);
        let k = (b + f) * pow2((x - UNIT_BITS) as nat);
        assert(units(magnitude) == k * den) by (nonlinear_arith)
            requires
                units(magnitude) == (b + f) * pow2(x),
                pow2(x) == pow2((x - UNIT_BITS) as nat) * den,
                k == (b + f) * pow2((x - UNIT_BITS) as nat),
        ;
        lemma_whole(k, den);
    } else {
        let x = (e - 1) as nat;
        let n = (1075 - e) as nat;
        let p = pow2(n);
        let m = b + f;
        lemma_pow2_adds(n, x);
        lemma_pow2_pos(n);
        lemma_pow2_pos(x);
        lemma_divide_scaled(m, p, pow2(x));
        let q = m / p;
        vstd::arithmetic::div_mod::lemma_fundamental_div_mod(m as int, p as int);
        let kept = (m - m % p) as nat;
        let rem = m % p;
        assert(kept == q * p) by (nonlinear_arith)
            requires
                m == p * q + rem,
                kept == m - rem,
        ;
        assert(whole_units(magnitude) == kept * pow2(x)) by (nonlinear_arith)
            requires
                whole_units(magnitude) == q * den,
                den == p * pow2(x),
                kept == q * p,
        ;
        // The weight of the hidden bit is a multiple of the cleared part.
        lemma_pow2_adds((52 - n) as nat, n);
        let c = pow2((52 - n) as nat);
        assert(magnitude % p == m % p) by {
            assert(magnitude == m + x * b);
            let turns = q + x * c;
            assert(magnitude == turns * p + rem) by (nonlinear_arith)
                requires
                    magnitude == m + x * b,
                    m == p * q + rem,
                    b == c * p,
                    turns == q + x * c,
            ;
            vstd::arithmetic::div_mod::lemma_fundamental_div_mod_converse(
                magnitude as int,
                p as int,
                turns as int,
                rem as int,
            );
        }
        assert(kept >= b) by {
            vstd::arithmetic::div_mod::lemma_div_is_ordered(b as int, m as int, p as int);
            lemma_whole(c, p);
            assert(q * p >= c * p) by (nonlinear_arith)
                requires
                    q >= c,
            ;
        }
        lemma_units_scaled(x, kept);
        assert(x * b + kept == magnitude - magnitude % p);
    }
}

/// A small whole number is written as its digits, with as many zeros behind the point as there
/// are places.
pub proof fn law_whole_numbers_are_written_in_digits(n: nat)
    requires
        n <= 0x1000_0000,
    ensures
        fixed_text(super::of_integer(n as int), 0) == decimal(n),
        fixed_text(super::of_integer(n as int), 2) == decimal(n) + "."@ + padded(0, 2),
{
    let unit = pow2(UNIT_BITS as nat);
    vstd::arithmetic::power2::lemma_pow2_pos(UNIT_BITS as nat);
    super::arith::lemma_integer_exact(n);
    let x = super::of_integer(n as int);
    assert(pow10(0) == 1);
    assert(pow10(1) == 10 * pow10(0));
    assert(pow10(2) == 10 * pow10(1));
    assert(pow10(2) == 100);
    assert(units(x.magnitude()) * pow10(0) == n * unit);
    assert(units(x.magnitude()) * pow10(2) == (n * 100) * unit) by (nonlinear_arith)
        requires
            units(x.magnitude()) == n * unit,
            pow10(2) == 100,
    ;
    lemma_half_even_exact(n, unit);
    lemma_half_even_exact(n * 100, unit);
    assert((n * 100) / 100 == n);
    assert((n * 100) % 100 == 0);
}

proof fn lemma_half_even_exact(n: nat, den: nat)
    requires
        den > 0,
    ensures
        half_even(n * den, den) == n,
{
    vstd::arithmetic::div_mod::lemma_div_multiples_vanish(n as int, den as int);
    vstd::arithmetic::div_mod::lemma_mod_multiples_basic(n as int, den as int);
    assert(n * den == den * n) by (nonlinear_arith);
}

} // verus!
