//! IEEE 754 double precision on bit patterns.
//!
//! A [`Binary64`] is the 64-bit encoding of a double. Every finite double is a
//! whole multiple of the smallest subnormal, so the model of a magnitude is a
//! natural number of such *units*; ordering and rounding are stated over it.
pub mod arith;
pub mod format;
pub mod natural;
pub mod parse;
pub mod rounding;

use vstd::arithmetic::power2::pow2;
use vstd::prelude::*;

verus! {

/// Bit pattern of the magnitude of infinity; larger magnitudes are not numbers.
pub const INFINITE: u64 = 0x7ff0_0000_0000_0000;

/// Weight of the sign bit.
pub const SIGN: u64 = 0x8000_0000_0000_0000;

/// Number of encodings per binade (the weight of the lowest exponent bit).
pub const BINADE: u64 = 0x0010_0000_0000_0000;

/// The value of a magnitude in multiples of the smallest positive double.
///
/// Infinity is given the value of the first power of two beyond the largest
/// finite double, which is where rounding starts to overflow.
pub open spec fn units(magnitude: nat) -> nat {
    let exponent = magnitude / (BINADE as nat);
    let fraction = magnitude % (BINADE as nat);
    if exponent == 0 {
        fraction
    } else {
        ((BINADE as nat) + fraction) * pow2((exponent - 1) as nat)
    }
}

/// Twice the midpoint between a magnitude and its successor, in units.
pub open spec fn midpoint(magnitude: nat) -> nat {
    units(magnitude) + units(magnitude + 1)
}

/// `magnitude` is the double nearest to `num / den` units; a tie goes to the
/// even encoding, and what lies beyond the largest double goes to infinity.
pub open spec fn rounds_to(num: nat, den: nat, magnitude: nat) -> bool {
    &&& magnitude <= INFINITE
    &&& magnitude > 0 ==> {
        &&& midpoint((magnitude - 1) as nat) * den <= 2 * num
        &&& midpoint((magnitude - 1) as nat) * den == 2 * num ==> magnitude % 2 == 0
    }
    &&& magnitude < INFINITE ==> {
        &&& 2 * num <= midpoint(magnitude) * den
        &&& 2 * num == midpoint(magnitude) * den ==> magnitude % 2 == 0
    }
}

/// The magnitude of the double nearest to `num / den` units.
pub open spec fn nearest(num: nat, den: nat) -> nat {
    choose|magnitude: nat| rounds_to(num, den, magnitude)
}

/// Weight of the lowest integer bit in units, as a power of two.
pub const UNIT_BITS: u32 = 1074;

/// A double, as its IEEE 754 encoding.
#[derive(Clone, Copy, PartialEq, Eq, Structural, Debug)]
pub struct Binary64 {
    pub bits: u64,
}

impl Binary64 {
    /// The encoding without its sign.
    pub open spec fn magnitude(self) -> nat {
        (self.bits % SIGN) as nat
    }

    /// The sign bit is set.
    pub open spec fn negative(self) -> bool {
        self.bits >= SIGN
    }

    pub open spec fn nan(self) -> bool {
        self.magnitude() > INFINITE
    }

    pub open spec fn infinite(self) -> bool {
        self.magnitude() == INFINITE
    }

    pub open spec fn finite(self) -> bool {
        self.magnitude() < INFINITE
    }

    pub open spec fn zero(self) -> bool {
        self.magnitude() == 0
    }

    /// The value in units; meaningful for a finite double.
    pub open spec fn value(self) -> int {
        if self.negative() {
            -(units(self.magnitude()) as int)
        } else {
            units(self.magnitude()) as int
        }
    }

    /// The place among all numbers, infinities included, in increasing order;
    /// both zeros share a place.
    pub open spec fn place(self) -> int {
        if self.negative() {
            -(self.magnitude() as int)
        } else {
            self.magnitude() as int
        }
    }

    /// `self < other` in the sense of IEEE 754: false where either is not a number.
    pub open spec fn less(self, other: Binary64) -> bool {
        !self.nan() && !other.nan() && self.place() < other.place()
    }

    /// `self <= other` in the sense of IEEE 754.
    pub open spec fn at_most(self, other: Binary64) -> bool {
        !self.nan() && !other.nan() && self.place() <= other.place()
    }

    /// `self == other` in the sense of IEEE 754: both zeros are equal.
    pub open spec fn equal(self, other: Binary64) -> bool {
        !self.nan() && !other.nan() && self.place() == other.place()
    }

    pub open spec fn negated(self) -> Binary64 {
        signed(!self.negative(), self.magnitude())
    }

    pub open spec fn absolute(self) -> Binary64 {
        signed(false, self.magnitude())
    }
}

/// The double with the given sign and magnitude.
pub open spec fn signed(negative: bool, magnitude: nat) -> Binary64 {
    Binary64 { bits: if negative { (magnitude + SIGN) as u64 } else { magnitude as u64 } }
}

/// The double nearest to `value / den` units; an exact zero takes the given sign.
pub open spec fn nearest_signed(value: int, den: nat, zero_negative: bool) -> Binary64 {
    if value > 0 {
        signed(false, nearest(value as nat, den))
    } else if value < 0 {
        signed(true, nearest((-value) as nat, den))
    } else {
        signed(zero_negative, 0)
    }
}

/// The quiet value that stands for every invalid operation.
pub open spec fn not_a_number() -> Binary64 {
    Binary64 { bits: 0x7ff8_0000_0000_0000 }
}

/// The correctly rounded sum.
pub open spec fn sum_of(a: Binary64, b: Binary64) -> Binary64 {
    if a.nan() || b.nan() {
        not_a_number()
    } else if a.infinite() && b.infinite() && a.negative() != b.negative() {
        not_a_number()
    } else if a.infinite() {
        a
    } else if b.infinite() {
        b
    } else {
        nearest_signed(a.value() + b.value(), 1, a.negative() && b.negative())
    }
}

/// The correctly rounded difference.
pub open spec fn difference_of(a: Binary64, b: Binary64) -> Binary64 {
    sum_of(a, b.negated())
}

/// The correctly rounded product.
pub open spec fn product_of(a: Binary64, b: Binary64) -> Binary64 {
    let negative = a.negative() != b.negative();
    if a.nan() || b.nan() {
        not_a_number()
    } else if (a.infinite() && b.zero()) || (a.zero() && b.infinite()) {
        not_a_number()
    } else if a.infinite() || b.infinite() {
        signed(negative, INFINITE as nat)
    } else {
        signed(
            negative,
            nearest(units(a.magnitude()) * units(b.magnitude()), pow2(UNIT_BITS as nat)),
        )
    }
}

/// The correctly rounded quotient.
pub open spec fn quotient_of(a: Binary64, b: Binary64) -> Binary64 {
    let negative = a.negative() != b.negative();
    if a.nan() || b.nan() {
        not_a_number()
    } else if (a.infinite() && b.infinite()) || (a.zero() && b.zero()) {
        not_a_number()
    } else if a.infinite() || b.zero() {
        signed(negative, INFINITE as nat)
    } else if b.infinite() {
        signed(negative, 0)
    } else {
        signed(
            negative,
            nearest(units(a.magnitude()) * pow2(UNIT_BITS as nat), units(b.magnitude())),
        )
    }
}

/// The larger of two doubles; one that is not a number gives way to the other.
pub open spec fn larger_of(a: Binary64, b: Binary64) -> Binary64 {
    if a.nan() || a.less(b) {
        b
    } else {
        a
    }
}

/// The smaller of two doubles; one that is not a number gives way to the other.
pub open spec fn smaller_of(a: Binary64, b: Binary64) -> Binary64 {
    if a.nan() || b.less(a) {
        b
    } else {
        a
    }
}

/// `a` brought into the range from `low` to `high`; what is not a number stays.
pub open spec fn clamped(a: Binary64, low: Binary64, high: Binary64) -> Binary64 {
    if a.less(low) {
        low
    } else if high.less(a) {
        high
    } else {
        a
    }
}

/// The double nearest to an integer.
pub open spec fn of_integer(value: int) -> Binary64 {
    nearest_signed(value * pow2(UNIT_BITS as nat), 1, false)
}

/// The double nearest to the decimal fraction `num / den`.
pub open spec fn of_ratio(num: int, den: int) -> Binary64 {
    quotient_of(of_integer(num), of_integer(den))
}

} // verus!
