//! Natural numbers of any size, for exact decimal work.
use crate::text::{decimal, decimal_of, digit};
use vstd::arithmetic::power2::{lemma_pow2_adds, pow2};
use vstd::prelude::*;
use vstd::string::*;

verus! {

/// Numbers below which a limb stays.
pub const LIMB: u32 = 1_000_000_000;

/// A power of ten.
pub open spec fn pow10(n: nat) -> nat
    decreases n,
{
    if n == 0 {
        1
    } else {
        10 * pow10((n - 1) as nat)
    }
}

/// The `width` lowest decimal digits of `n`.
pub open spec fn padded(n: nat, width: nat) -> Seq<char>
    decreases width,
{
    if width == 0 {
        Seq::empty()
    } else {
        padded(n / 10, (width - 1) as nat).push(digit(n))
    }
}

/// The number that limbs denote, lowest first.
pub open spec fn limbs_value(limbs: Seq<u32>) -> nat
    decreases limbs.len(),
{
    if limbs.len() == 0 {
        0
    } else {
        limbs.first() as nat + LIMB as nat * limbs_value(limbs.drop_first())
    }
}

/// A power of the limb base.
pub open spec fn limb_power(n: nat) -> nat
    decreases n,
{
    if n == 0 {
        1
    } else {
        LIMB as nat * limb_power((n - 1) as nat)
    }
}

proof fn lemma_limb_power_pos(n: nat)
    ensures
        limb_power(n) > 0,
    decreases n,
{
    if n > 0 {
        lemma_limb_power_pos((n - 1) as nat);
    }
}

proof fn lemma_limbs_push(limbs: Seq<u32>, top: u32)
    ensures
        limbs_value(limbs.push(top)) == limbs_value(limbs) + top * limb_power(limbs.len()),
    decreases limbs.len(),
{
    if limbs.len() == 0 {
        assert(limbs.push(top).drop_first() =~= Seq::<u32>::empty());
        assert(limbs_value(Seq::<u32>::empty()) == 0);
        assert(limbs_value(limbs) == 0);
        assert(limbs_value(limbs.push(top)) == top);
        assert(top * 1 == top);
    } else {
        assert(limbs.push(top).drop_first() =~= limbs.drop_first().push(top));
        lemma_limbs_push(limbs.drop_first(), top);
        let rest = limbs_value(limbs.drop_first());
        let power = limb_power((limbs.len() - 1) as nat);
        assert(LIMB * (rest + top * power) == LIMB * rest + top * (LIMB * power)) by (nonlinear_arith);
    }
}

proof fn lemma_limbs_split(limbs: Seq<u32>)
    requires
        limbs.len() > 0,
    ensures
        limbs_value(limbs) == limbs_value(limbs.drop_last()) + limbs.last() * limb_power((limbs.len() - 1) as nat),
{
    assert(limbs =~= limbs.drop_last().push(limbs.last()));
    lemma_limbs_push(limbs.drop_last(), limbs.last());
}

proof fn lemma_limbs_bound(limbs: Seq<u32>)
    requires
        forall|i: int| 0 <= i < limbs.len() ==> limbs[i] < LIMB,
    ensures
        limbs_value(limbs) < limb_power(limbs.len()),
    decreases limbs.len(),
{
    if limbs.len() > 0 {
        let low = limbs.drop_last();
        lemma_limbs_bound(low);
        lemma_limbs_split(limbs);
        let power = limb_power(low.len());
        let top = limbs.last();
        assert(limbs_value(low) + top * power < LIMB * power) by (nonlinear_arith)
            requires
                limbs_value(low) < power,
                top + 1 <= LIMB,
        ;
    }
}

/// A natural number.
pub struct Natural {
    pub limbs: Vec<u32>,
}

/// How two numbers compare.
#[derive(Clone, Copy, PartialEq, Eq, Structural, Debug)]
pub enum Relation {
    Below,
    Same,
    Above,
}

pub open spec fn relation(a: nat, b: nat) -> Relation {
    if a < b {
        Relation::Below
    } else if a == b {
        Relation::Same
    } else {
        Relation::Above
    }
}

impl Natural {
    /// Every limb is a digit of the base, and the highest is not zero.
    pub open spec fn wf(self) -> bool {
        &&& forall|i: int| 0 <= i < self.limbs@.len() ==> self.limbs@[i] < LIMB
        &&& self.limbs@.len() > 0 ==> self.limbs@.last() != 0
    }

    pub open spec fn value(self) -> nat {
        limbs_value(self.limbs@)
    }

    pub fn zero() -> (r: Natural)
        ensures
            r.wf(),
            r.value() == 0,
    {
        Natural { limbs: Vec::new() }
    }

    /// `self * factor + addend`.
    pub fn scaled(self, factor: u32, addend: u32) -> (r: Natural)
        requires
            self.wf(),
            0 < factor <= 0x4000_0000,
            addend < LIMB,
        ensures
            r.wf(),
            r.value() == self.value() * factor + addend,
    {
        let n: usize = self.limbs.len();
        let mut limbs: Vec<u32> = Vec::new();
        let mut carry: u64 = addend as u64;
        let mut i: usize = 0;
        let ghost all = self.limbs@;
        proof {
            assert(all.take(0) =~= Seq::<u32>::empty());
            assert(limbs_value(all.take(0)) == 0 && limbs_value(limbs@) == 0);
            assert(limb_power(0) == 1);
            assert(0 * factor == 0);
            assert(carry * 1 == carry);
        }
        while i < n
            invariant
                i <= n == all.len(),
                all == self.limbs@,
                self.wf(),
                0 < factor <= 0x4000_0000,
                carry <= factor || (i == 0 && carry == addend),
                addend < LIMB,
                limbs@.len() == i,
                forall|k: int| 0 <= k < i ==> limbs@[k] < LIMB,
                limbs_value(limbs@) + carry * limb_power(i as nat) == limbs_value(all.take(i as int)) * factor
                    + addend,
                i > 0 && limbs@.last() == 0 && carry == 0 ==> all[i - 1] == 0,
            decreases n - i,
        {
            let limb: u32 = self.limbs[i];
            proof {
                assert(0 <= limb * factor <= (LIMB - 1) * factor) by (nonlinear_arith)
                    requires
                        0 <= limb <= LIMB - 1,
                        factor > 0,
                ;
                assert((LIMB - 1) * factor <= (LIMB - 1) * 0x4000_0000) by (nonlinear_arith)
                    requires
                        factor <= 0x4000_0000,
                ;
            }
            let t: u64 = (limb as u64) * (factor as u64) + carry;
            let low: u32 = (t % 1_000_000_000) as u32;
            let next: u64 = t / 1_000_000_000;
            proof {
                let power = limb_power(i as nat);
                let before = limbs_value(limbs@);
                let prefix = limbs_value(all.take(i as int));
                assert(all.take(i + 1) =~= all.take(i as int).push(limb));
                lemma_limbs_push(all.take(i as int), limb);
                lemma_limbs_push(limbs@, low);
                assert(limb_power((i + 1) as nat) == LIMB * power);
                assert(t == next * LIMB + low);
                assert(before + low * power + next * (LIMB * power) == (prefix + limb * power) * factor + addend)
                    by (nonlinear_arith)
                    requires
                        before + carry * power == prefix * factor + addend,
                        limb * factor + carry == next * LIMB + low,
                ;
                assert(next <= factor) by (nonlinear_arith)
                    requires
                        next * LIMB + low == limb * factor + carry,
                        limb <= LIMB - 1,
                        carry <= factor || carry < LIMB,
                        factor > 0,
                        low >= 0,
                        limb * factor <= (LIMB - 1) * factor,
                        LIMB == 1_000_000_000,
                ;
                if low == 0 && next == 0 {
                    assert(limb == 0) by (nonlinear_arith)
                        requires
                            limb * factor + carry == 0,
                            factor > 0,
                            limb >= 0,
                            carry >= 0,
                    ;
                }
            }
            limbs.push(low);
            carry = next;
            i = i + 1;
        }
        proof {
            assert(all.take(n as int) =~= all);
        }
        // The last carry may need two limbs.
        if carry > 0 {
            let low: u32 = (carry % 1_000_000_000) as u32;
            let high: u32 = (carry / 1_000_000_000) as u32;
            proof {
                lemma_limbs_push(limbs@, low);
                lemma_limbs_push(limbs@.push(low), high);
                let power = limb_power(n as nat);
                assert(limb_power((n + 1) as nat) == LIMB * power);
                assert(low * power + high * (LIMB * power) == carry * power) by (nonlinear_arith)
                    requires
                        carry == high * LIMB + low,
                ;
            }
            limbs.push(low);
            if high > 0 {
                limbs.push(high);
            } else {
                assert(high * limb_power((n + 1) as nat) == 0) by (nonlinear_arith)
                    requires
                        high == 0,
                ;
            }
        } else {
            assert(carry * limb_power(n as nat) == 0) by (nonlinear_arith)
                requires
                    carry == 0,
            ;
        }
        Natural { limbs }
    }

    pub fn from_u64(n: u64) -> (r: Natural)
        ensures
            r.wf(),
            r.value() == n,
    {
        let low: u32 = (n % 1_000_000_000) as u32;
        let mid: u32 = (n / 1_000_000_000 % 1_000_000_000) as u32;
        let high: u32 = (n / 1_000_000_000 / 1_000_000_000) as u32;
        Natural::zero().scaled(1, high).scaled(1_000_000_000, mid).scaled(1_000_000_000, low)
    }

    /// `self * 2^n`.
    pub fn shifted(self, n: u32) -> (r: Natural)
        requires
            self.wf(),
        ensures
            r.wf(),
            r.value() == self.value() * pow2(n as nat),
    {
        let mut left: u32 = n;
        let mut r = self;
        let ghost start = self.value();
        proof {
            super::rounding::lemma_pow2_values();
            vstd::arithmetic::power2::lemma2_to64();
            assert(start * 1 == start);
        }
        while left >= 29
            invariant
                left <= n,
                r.wf(),
                r.value() == start * pow2((n - left) as nat),
            decreases left,
        {
            let ghost done = pow2((n - left) as nat);
            proof {
                vstd::arithmetic::power2::lemma2_to64();
                lemma_pow2_adds((n - left) as nat, 29);
                assert((start * done) * 0x2000_0000 == start * (done * 0x2000_0000)) by (nonlinear_arith);
            }
            r = r.scaled(0x2000_0000, 0);
            left = left - 29;
        }
        while left > 0
            invariant
                left <= n,
                r.wf(),
                r.value() == start * pow2((n - left) as nat),
            decreases left,
        {
            let ghost done = pow2((n - left) as nat);
            proof {
                super::rounding::lemma_pow2_values();
                lemma_pow2_adds((n - left) as nat, 1);
                assert((start * done) * 2 == start * (done * 2)) by (nonlinear_arith);
            }
            r = r.scaled(2, 0);
            left = left - 1;
        }
        r
    }

    /// `self * 10^n`.
    pub fn scaled_by_ten(self, n: u128) -> (r: Natural)
        requires
            self.wf(),
        ensures
            r.wf(),
            r.value() == self.value() * pow10(n as nat),
    {
        let mut r = self;
        let mut i: u128 = 0;
        let ghost start = self.value();
        assert(start * 1 == start);
        while i < n
            invariant
                i <= n,
                r.wf(),
                r.value() == start * pow10(i as nat),
            decreases n - i,
        {
            proof {
                let done = pow10(i as nat);
                assert((start * done) * 10 == start * (10 * done)) by (nonlinear_arith);
            }
            r = r.scaled(10, 0);
            i = i + 1;
        }
        r
    }

    /// How the number compares with another.
    pub fn against(&self, other: &Natural) -> (r: Relation)
        requires
            self.wf(),
            other.wf(),
        ensures
            r == relation(self.value(), other.value()),
    {
        if self.limbs.len() < other.limbs.len() {
            proof {
                lemma_shorter_is_smaller(*self, *other);
            }
            return Relation::Below;
        }
        if self.limbs.len() > other.limbs.len() {
            proof {
                lemma_shorter_is_smaller(*other, *self);
            }
            return Relation::Above;
        }
        let n: usize = self.limbs.len();
        let mut i: usize = n;
        let ghost a = self.limbs@;
        let ghost b = other.limbs@;
        proof {
            assert(a.take(n as int) =~= a);
            assert(b.take(n as int) =~= b);
        }
        while i > 0
            invariant
                i <= n == a.len() == b.len(),
                a == self.limbs@,
                b == other.limbs@,
                self.wf(),
                other.wf(),
                relation(limbs_value(a), limbs_value(b)) == relation(
                    limbs_value(a.take(i as int)),
                    limbs_value(b.take(i as int)),
                ),
            decreases i,
        {
            proof {
                let k = (i - 1) as int;
                let power = limb_power(k as nat);
                assert(a.take(i as int).drop_last() =~= a.take(k));
                assert(b.take(i as int).drop_last() =~= b.take(k));
                lemma_limbs_split(a.take(i as int));
                lemma_limbs_split(b.take(i as int));
                lemma_limbs_bound(a.take(k));
                lemma_limbs_bound(b.take(k));
                lemma_top_decides(limbs_value(a.take(k)), limbs_value(b.take(k)), a[k], b[k], power);
                lemma_top_decides(limbs_value(b.take(k)), limbs_value(a.take(k)), b[k], a[k], power);
            }
            let x: u32 = self.limbs[i - 1];
            let y: u32 = other.limbs[i - 1];
            if x < y {
                return Relation::Below;
            }
            if x > y {
                return Relation::Above;
            }
            i = i - 1;
        }
        proof {
            assert(a.take(0) =~= b.take(0));
        }
        Relation::Same
    }

    /// The decimal digits of the number.
    pub fn to_decimal(&self) -> (r: String)
        requires
            self.wf(),
        ensures
            r@ == decimal(self.value()),
    {
        let n: usize = self.limbs.len();
        if n == 0 {
            return decimal_of(0);
        }
        let ghost all = self.limbs@;
        let mut r = decimal_of(self.limbs[n - 1] as u128);
        let mut i: usize = n - 1;
        proof {
            assert(all.skip(n - 1).drop_first() =~= Seq::<u32>::empty());
            assert(limbs_value(Seq::<u32>::empty()) == 0);
            assert(limbs_value(all.skip(n - 1)) == all[n - 1]);
        }
        while i > 0
            invariant
                0 <= i < n == all.len(),
                all == self.limbs@,
                self.wf(),
                limbs_value(all.skip(i as int)) > 0,
                r@ == decimal(limbs_value(all.skip(i as int))),
            decreases i,
        {
            let limb: u32 = self.limbs[i - 1];
            proof {
                let rest = limbs_value(all.skip(i as int));
                assert(all.skip(i - 1).drop_first() =~= all.skip(i as int));
                assert(pow10(9) == LIMB) by {
                    reveal_with_fuel(pow10, 10);
                }
                lemma_decimal_split(rest, limb as nat, 9);
                assert(rest * pow10(9) + limb == limb + LIMB * rest) by (nonlinear_arith)
                    requires
                        pow10(9) == LIMB,
                ;
            }
            let low = padded_of(limb, 9);
            r.append(low.as_str());
            i = i - 1;
        }
        proof {
            assert(all.skip(0) =~= all);
        }
        r
    }
}

proof fn lemma_top_decides(low_a: nat, low_b: nat, a: u32, b: u32, power: nat)
    requires
        low_a < power,
        low_b < power,
    ensures
        a < b ==> low_a + a * power < low_b + b * power,
{
    if a < b {
        assert(low_a + a * power < low_b + b * power) by (nonlinear_arith)
            requires
                low_a < power,
                a + 1 <= b,
                low_b >= 0,
        ;
    }
}

proof fn lemma_shorter_is_smaller(a: Natural, b: Natural)
    requires
        a.wf(),
        b.wf(),
        a.limbs@.len() < b.limbs@.len(),
    ensures
        a.value() < b.value(),
{
    let n = b.limbs@.len();
    lemma_limbs_bound(a.limbs@);
    lemma_limbs_split(b.limbs@);
    lemma_limb_power_monotone(a.limbs@.len(), (n - 1) as nat);
    let power = limb_power((n - 1) as nat);
    let top = b.limbs@.last();
    assert(top * power >= power) by (nonlinear_arith)
        requires
            top >= 1,
    ;
}

proof fn lemma_limb_power_monotone(a: nat, b: nat)
    requires
        a <= b,
    ensures
        limb_power(a) <= limb_power(b),
    decreases b,
{
    if a < b {
        lemma_limb_power_monotone(a, (b - 1) as nat);
        lemma_limb_power_pos((b - 1) as nat);
    }
}

/// The digits of `a * 10^k + b` are those of `a` followed by the `k` digits of `b`.
pub proof fn lemma_decimal_split(a: nat, b: nat, k: nat)
    requires
        a > 0,
        b < pow10(k),
    ensures
        decimal(a * pow10(k) + b) == decimal(a) + padded(b, k),
    decreases k,
{
    let n = a * pow10(k) + b;
    if k == 0 {
        assert(a * 1 == a);
        assert(decimal(a) + Seq::<char>::empty() =~= decimal(a));
    } else {
        let p = pow10((k - 1) as nat);
        lemma_decimal_split(a, b / 10, (k - 1) as nat);
        lemma_pow10_pos((k - 1) as nat);
        assert(n == 10 * (a * p) + b) by (nonlinear_arith)
            requires
                n == a * (10 * p) + b,
        ;
        assert(a * p >= 1) by (nonlinear_arith)
            requires
                a >= 1,
                p >= 1,
        ;
        assert(n / 10 == a * p + b / 10);
        assert(n % 10 == b % 10);
        assert(decimal(n) == decimal(n / 10).push(digit(n)));
        assert(decimal(a) + padded(b / 10, (k - 1) as nat).push(digit(b)) =~= (decimal(a) + padded(
            b / 10,
            (k - 1) as nat,
        )).push(digit(b)));
    }
}

pub proof fn lemma_pow10_pos(n: nat)
    ensures
        pow10(n) > 0,
    decreases n,
{
    if n > 0 {
        lemma_pow10_pos((n - 1) as nat);
    }
}

/// The `width` lowest decimal digits of `n`.
pub fn padded_of(n: u32, width: u32) -> (r: String)
    ensures
        r@ == padded(n as nat, width as nat),
    decreases width,
{
    if width == 0 {
        String::new()
    } else {
        let mut r = padded_of(n / 10, width - 1);
        r.push(((n % 10) as u8 + 48) as char);
        r
    }
}

} // verus!
