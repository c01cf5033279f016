//! Doubles from decimal text.
//!
//! The accepted texts are those of `f64::from_str` in the standard library: a sign,
//! then `inf`, `infinity`, `nan` in any case, or digits with an optional point and
//! an optional exponent. The value is the double nearest to the number that the
//! text spells.
use super::arith::{decode, lemma_nearest_zero, pack};
use super::natural::{lemma_pow10_pos, pow10, Natural, Relation};
use super::rounding::{
    lemma_midpoint_increase, lemma_nearest_unique, lemma_pow2_values, lemma_units_scaled,
};
use super::{midpoint, nearest, rounds_to, signed, units, Binary64, BINADE, INFINITE, UNIT_BITS};
use crate::text::{
    all_digits, ascii_lowered, chars_of, decimal, digits_value, index_of, only_digits, position_of, same_chars,
    sign_and_rest, slice_of, to_ascii_lowercase,
};
use vstd::arithmetic::power2::{lemma_pow2_adds, lemma_pow2_pos, lemma_pow2_strictly_increases, pow2};
use vstd::prelude::*;

verus! {

/// The power of ten that an exponent names, where it is well formed.
pub open spec fn exponent_of(s: Seq<char>) -> Option<int> {
    let (negative, digits) = sign_and_rest(s);
    if digits.len() > 0 && all_digits(digits) {
        Some(if negative { -(digits_value(digits) as int) } else { digits_value(digits) as int })
    } else {
        None
    }
}

/// The magnitude nearest to `digits * 10^exponent`.
pub open spec fn decimal_magnitude(digits: nat, exponent: int) -> nat {
    if exponent >= 0 {
        nearest(digits * pow10(exponent as nat) * pow2(UNIT_BITS as nat), 1)
    } else {
        nearest(digits * pow2(UNIT_BITS as nat), pow10((-exponent) as nat))
    }
}

/// The magnitude that an unsigned decimal number names, where it is well formed.
pub open spec fn number_magnitude(s: Seq<char>) -> Option<nat> {
    let e = index_of(s, 'e');
    let mantissa = s.take(e);
    let dot = index_of(mantissa, '.');
    let whole = mantissa.take(dot);
    let fraction = if dot < mantissa.len() { mantissa.skip(dot + 1) } else { Seq::empty() };
    let exponent = if e < s.len() { exponent_of(s.skip(e + 1)) } else { Some(0int) };
    let digits = whole + fraction;
    if digits.len() > 0 && all_digits(digits) && exponent is Some {
        Some(decimal_magnitude(digits_value(digits), exponent->0 - fraction.len()))
    } else {
        None
    }
}

/// The double that a text spells, where it is well formed.
pub open spec fn double_of_text(s: Seq<char>) -> Option<Binary64> {
    let (negative, rest) = sign_and_rest(s);
    let lower = ascii_lowered(rest);
    if lower == "inf"@ || lower == "infinity"@ {
        Some(signed(negative, INFINITE as nat))
    } else if lower == "nan"@ {
        Some(signed(negative, 0x7ff8_0000_0000_0000))
    } else {
        match number_magnitude(lower) {
            Some(magnitude) => Some(signed(negative, magnitude)),
            None => None,
        }
    }
}

/// Ten is more than eight.
proof fn lemma_pow10_lower(n: nat)
    ensures
        pow10(n) >= pow2(3 * n),
    decreases n,
{
    lemma_pow2_values();
    if n > 0 {
        lemma_pow10_lower((n - 1) as nat);
        lemma_pow2_adds((3 * (n - 1)) as nat, 3);
        vstd::arithmetic::power2::lemma2_to64();
        assert(3 * (n - 1) + 3 == 3 * n);
        assert(10 * pow10((n - 1) as nat) >= pow2((3 * (n - 1)) as nat) * 8) by (nonlinear_arith)
            requires
                pow10((n - 1) as nat) >= pow2((3 * (n - 1)) as nat),
        ;
    }
}

proof fn lemma_pow10_adds(a: nat, b: nat)
    ensures
        pow10(a + b) == pow10(a) * pow10(b),
    decreases a,
{
    if a == 0 {
        assert(1 * pow10(b) == pow10(b));
    } else {
        lemma_pow10_adds((a - 1) as nat, b);
        assert(10 * (pow10((a - 1) as nat) * pow10(b)) == (10 * pow10((a - 1) as nat)) * pow10(b)) by (nonlinear_arith);
    }
}

/// Bounds of the number that digits without leading zeros spell.
proof fn lemma_digits_bounds(s: Seq<char>)
    requires
        all_digits(s),
    ensures
        digits_value(s) < pow10(s.len()),
        s.len() > 0 && s.first() != '0' ==> digits_value(s) >= pow10((s.len() - 1) as nat),
    decreases s.len(),
{
    if s.len() > 0 {
        let t = s.drop_last();
        assert forall|i: int| 0 <= i < t.len() implies '0' <= #[trigger] t[i] <= '9' by {
            assert(t[i] == s[i]);
        }
        lemma_digits_bounds(t);
        assert('0' <= s[s.len() - 1] <= '9');
        if t.len() > 0 {
            assert(t.first() == s.first());
        } else {
            assert(digits_value(t) == 0);
        }
    }
}

/// A number of at least `10^400` is beyond every double.
proof fn lemma_overflow(num: nat, den: nat)
    requires
        den > 0,
        num >= pow10(400) * pow2(UNIT_BITS as nat) * den,
    ensures
        nearest(num, den) == INFINITE,
{
    let unit = pow2(UNIT_BITS as nat);
    lemma_pow2_pos(UNIT_BITS as nat);
    lemma_pow2_values();
    lemma_pow10_lower(400);
    lemma_units_scaled(2046, BINADE as nat);
    lemma_pow2_adds(52, 2046);
    lemma_pow2_adds(1024, 1074);
    lemma_pow2_strictly_increases(1024, 1200);
    let top = units(INFINITE as nat);
    assert(top == pow2(1024) * unit);
    assert(top * den <= num) by (nonlinear_arith)
        requires
            top == pow2(1024) * unit,
            pow2(1024) <= pow10(400),
            num >= pow10(400) * unit * den,
            unit > 0,
            den > 0,
    ;
    let m = INFINITE as nat;
    super::rounding::lemma_units_step((m - 1) as nat);
    assert(midpoint((m - 1) as nat) * den < 2 * num) by (nonlinear_arith)
        requires
            midpoint((m - 1) as nat) < 2 * top,
            top * den <= num,
            den > 0,
    ;
    assert(rounds_to(num, den, m));
    lemma_nearest_unique(num, den, m);
}

/// A number of at most `10^-400` is nearest to zero.
proof fn lemma_underflow(num: nat, den: nat, digits: nat)
    requires
        den > 0,
        num == digits * pow2(UNIT_BITS as nat),
        digits * pow10(400) <= den,
    ensures
        nearest(num, den) == 0,
{
    let unit = pow2(UNIT_BITS as nat);
    lemma_pow2_values();
    lemma_pow10_lower(400);
    lemma_pow2_adds(126, 1074);
    lemma_pow2_strictly_increases(2, 126);
    lemma_pow2_pos(UNIT_BITS as nat);
    assert(units(0) == 0 && units(1) == 1);
    assert(2 * num < den) by (nonlinear_arith)
        requires
            num == digits * unit,
            digits * pow10(400) <= den,
            pow10(400) >= pow2(126) * unit,
            pow2(126) > 4,
            unit > 0,
            den > 0,
    ;
    assert(midpoint(0) == 1);
    assert(1 * den == den);
    assert(rounds_to(num, den, 0));
    lemma_nearest_unique(num, den, 0);
}

/// Twice the midpoint above a magnitude, times a power of ten.
fn scaled_midpoint(magnitude: u64, tens: u128) -> (r: Natural)
    requires
        magnitude < INFINITE,
    ensures
        r.wf(),
        r.value() == midpoint(magnitude as nat) * pow10(tens as nat),
{
    let (m, x) = decode(magnitude);
    proof {
        let b = BINADE as nat;
        vstd::arithmetic::div_mod::lemma_fundamental_div_mod(magnitude as int, b as int);
        assert(magnitude == x * b + m) by {
            if magnitude / BINADE == 0 {
                assert(units(magnitude as nat) == magnitude);
                lemma_pow2_values();
                assert(m * 1 == m);
                assert(0 * b == 0);
            } else {
                lemma_pow2_pos(x as nat);
                assert(b + magnitude as nat % b == m) by (nonlinear_arith)
                    requires
                        (b + magnitude as nat % b) * pow2(x as nat) == m * pow2(x as nat),
                        pow2(x as nat) > 0,
                ;
                assert(x * b + b == (x + 1) * b) by (nonlinear_arith);
            }
        }
        lemma_units_scaled(x as nat, m as nat);
        lemma_units_scaled(x as nat, m as nat + 1);
        assert(midpoint(magnitude as nat) == (2 * m + 1) * pow2(x as nat)) by (nonlinear_arith)
            requires
                midpoint(magnitude as nat) == m * pow2(x as nat) + (m + 1) * pow2(x as nat),
        ;
    }
    Natural::from_u64(2 * m + 1).shifted(x).scaled_by_ten(tens)
}

/// The magnitude nearest to `twice / 2 / 10^tens` units.
fn search_nearest(twice: &Natural, tens: u128, num: Ghost<nat>) -> (r: u64)
    requires
        twice.wf(),
        twice.value() == 2 * num@,
    ensures
        r <= INFINITE,
        r == nearest(num@, pow10(tens as nat)),
{
    let ghost den = pow10(tens as nat);
    proof {
        lemma_pow10_pos(tens as nat);
    }
    let mut low: u64 = 0;
    let mut high: u64 = INFINITE;
    // The least magnitude whose upper midpoint is not below the value.
    while low < high
        invariant
            low <= high <= INFINITE,
            den == pow10(tens as nat),
            den > 0,
            twice.wf(),
            twice.value() == 2 * num@,
            low > 0 ==> midpoint((low - 1) as nat) * den < 2 * num@,
            high < INFINITE ==> 2 * num@ <= midpoint(high as nat) * den,
        decreases high - low,
    {
        let middle: u64 = low + (high - low) / 2;
        let bound = scaled_midpoint(middle, tens);
        match twice.against(&bound) {
            Relation::Above => {
                low = middle + 1;
            },
            _ => {
                high = middle;
            },
        }
    }
    let mut r: u64 = low;
    if low < INFINITE && low % 2 == 1 {
        let bound = scaled_midpoint(low, tens);
        match twice.against(&bound) {
            Relation::Same => {
                r = low + 1;
                proof {
                    lemma_midpoint_increase(low as nat, low as nat + 1);
                    assert(midpoint(low as nat) * den < midpoint(low as nat + 1) * den) by (nonlinear_arith)
                        requires
                            midpoint(low as nat) < midpoint(low as nat + 1),
                            den > 0,
                    ;
                }
            },
            _ => {},
        }
    }
    proof {
        assert(rounds_to(num@, den, r as nat));
        lemma_nearest_unique(num@, den, r as nat);
    }
    r
}

/// The number that digits spell.
fn natural_of_digits(v: &Vec<char>) -> (r: Natural)
    requires
        all_digits(v@),
    ensures
        r.wf(),
        r.value() == digits_value(v@),
{
    let mut r = Natural::zero();
    let mut i: usize = 0;
    proof {
        assert(v@.take(0) =~= Seq::<char>::empty());
    }
    while i < v.len()
        invariant
            i <= v@.len(),
            all_digits(v@),
            r.wf(),
            r.value() == digits_value(v@.take(i as int)),
        decreases v@.len() - i,
    {
        proof {
            assert(v@.take(i + 1).drop_last() =~= v@.take(i as int));
            assert('0' <= v@[i as int] <= '9');
        }
        r = r.scaled(10, v[i] as u32 - 48);
        i = i + 1;
    }
    proof {
        assert(v@.take(i as int) =~= v@);
    }
    r
}

/// Where an exponent no longer makes a difference.
spec fn cap() -> nat {
    0x100_0000_0000_0000_0000_0000_0000
}

/// The number that digits spell, or a bound that it reaches.
fn capped_digits(v: &Vec<char>, from: usize) -> (r: u128)
    requires
        from <= v@.len(),
        all_digits(v@.skip(from as int)),
    ensures
        r <= cap(),
        r < cap() ==> r == digits_value(v@.skip(from as int)),
        r == cap() ==> digits_value(v@.skip(from as int)) >= cap(),
{
    let mut r: u128 = 0;
    let mut i: usize = from;
    let ghost all = v@.skip(from as int);
    proof {
        assert(all.take(0) =~= Seq::<char>::empty());
    }
    while i < v.len()
        invariant
            from <= i <= v@.len(),
            all == v@.skip(from as int),
            all_digits(all),
            r <= cap(),
            r < cap() ==> r == digits_value(all.take(i - from)),
            r == cap() ==> digits_value(all.take(i - from)) >= cap(),
        decreases v@.len() - i,
    {
        proof {
            assert(all.take(i - from + 1).drop_last() =~= all.take(i - from));
            assert(all[i - from] == v@[i as int]);
            assert('0' <= all[i - from] <= '9');
        }
        let d: u128 = v[i] as u128 - 48;
        let next: u128 = r * 10 + d;
        r = if next < 0x100_0000_0000_0000_0000_0000_0000 {
            next
        } else {
            0x100_0000_0000_0000_0000_0000_0000
        };
        i = i + 1;
    }
    proof {
        assert(all.take(i - from) =~= all);
    }
    r
}

/// The magnitude nearest to `digits * 10^exponent`.
fn magnitude_of(v: &Vec<char>, exponent: i128, exact: Ghost<int>) -> (r: u64)
    requires
        all_digits(v@),
        v@.len() > 0,
        -0x200_0000_0000_0000_0000_0000_0000 < exponent < 0x200_0000_0000_0000_0000_0000_0000,
        exponent == exact@ || (exponent > 0x8000_0000_0000_0000_0000_0000 && exact@ >= exponent) || (exponent
            < -0x8000_0000_0000_0000_0000_0000 && exact@ <= exponent),
    ensures
        r <= INFINITE,
        r == decimal_magnitude(digits_value(v@), exact@),
{
    let total: usize = v.len();
    let ghost digits = digits_value(v@);
    // Leading zeros say nothing.
    let mut zeros: usize = 0;
    while zeros < total && v[zeros] == '0'
        invariant
            zeros <= total == v@.len(),
            forall|k: int| 0 <= k < zeros ==> v@[k] == '0',
        decreases total - zeros,
    {
        zeros = zeros + 1;
    }
    let ghost rest = v@.skip(zeros as int);
    proof {
        lemma_leading_zeros(v@, zeros as nat);
        assert forall|i: int| 0 <= i < rest.len() implies '0' <= #[trigger] rest[i] <= '9' by {
            assert('0' <= v@[i + zeros] <= '9');
        }
        lemma_digits_bounds(rest);
    }
    let ghost unit = pow2(UNIT_BITS as nat);
    proof {
        lemma_pow2_pos(UNIT_BITS as nat);
    }
    if zeros == total {
        proof {
            assert(digits == 0);
            assert(0 * unit == 0) by (nonlinear_arith);
            if exact@ >= 0 {
                assert(0 * pow10(exact@ as nat) == 0) by (nonlinear_arith);
                lemma_nearest_zero(1);
            } else {
                lemma_pow10_pos((-exact@) as nat);
                lemma_nearest_zero(pow10((-exact@) as nat));
            }
        }
        return 0;
    }
    let significant: i128 = (total - zeros) as i128;
    proof {
        assert(rest.first() == v@[zeros as int]);
    }
    if significant - 1 + exponent >= 400 {
        proof {
            lemma_large(digits, rest.len(), exact@);
        }
        return INFINITE;
    }
    if significant + exponent <= -400 {
        proof {
            lemma_small(digits, rest.len(), exact@);
        }
        return 0;
    }
    let d = natural_of_digits(v);
    if exponent >= 0 {
        let e: u128 = exponent as u128;
        let twice = d.scaled_by_ten(e).shifted(1075);
        let ghost num = digits * pow10(e as nat) * unit;
        proof {
            lemma_pow2_adds(1, 1074);
            lemma_pow2_values();
            assert(twice.value() == 2 * num) by (nonlinear_arith)
                requires
                    twice.value() == digits * pow10(e as nat) * pow2(1075),
                    pow2(1075) == 2 * unit,
                    num == digits * pow10(e as nat) * unit,
            ;
            assert(pow10(0) == 1);
        }
        search_nearest(&twice, 0, Ghost(num))
    } else {
        let e: u128 = (-exponent) as u128;
        let twice = d.shifted(1075);
        let ghost num = digits * unit;
        proof {
            lemma_pow2_adds(1, 1074);
            lemma_pow2_values();
            assert(twice.value() == 2 * num) by (nonlinear_arith)
                requires
                    twice.value() == digits * pow2(1075),
                    pow2(1075) == 2 * unit,
                    num == digits * unit,
            ;
        }
        search_nearest(&twice, e, Ghost(num))
    }
}

proof fn lemma_leading_zeros(s: Seq<char>, zeros: nat)
    requires
        zeros <= s.len(),
        forall|k: int| 0 <= k < zeros ==> s[k] == '0',
    ensures
        digits_value(s) == digits_value(s.skip(zeros as int)),
    decreases s.len(),
{
    if zeros == s.len() {
        assert(s.skip(zeros as int) =~= Seq::<char>::empty());
        if s.len() > 0 {
            lemma_leading_zeros(s.drop_last(), (s.len() - 1) as nat);
            assert(s.drop_last().skip(s.len() - 1) =~= Seq::<char>::empty());
        }
    } else {
        assert(s.skip(zeros as int).drop_last() =~= s.drop_last().skip(zeros as int));
        lemma_leading_zeros(s.drop_last(), zeros);
    }
}

proof fn lemma_large(digits: nat, len: nat, exponent: int)
    requires
        len > 0,
        digits >= pow10((len - 1) as nat),
        len - 1 + exponent >= 400,
    ensures
        decimal_magnitude(digits, exponent) == INFINITE,
{
    let unit = pow2(UNIT_BITS as nat);
    lemma_pow2_pos(UNIT_BITS as nat);
    if exponent >= 0 {
        let p = pow10(exponent as nat);
        lemma_pow10_adds((len - 1) as nat, exponent as nat);
        lemma_pow10_monotone(400, (len - 1 + exponent) as nat);
        let num = digits * p * unit;
        assert(num >= pow10(400) * unit * 1) by (nonlinear_arith)
            requires
                num == digits * p * unit,
                digits >= pow10((len - 1) as nat),
                pow10((len - 1) as nat) * p >= pow10(400),
                unit > 0,
                p >= 0,
        ;
        lemma_overflow(num, 1);
    } else {
        let den = pow10((-exponent) as nat);
        lemma_pow10_pos((-exponent) as nat);
        lemma_pow10_adds(400, (-exponent) as nat);
        lemma_pow10_monotone((400 - exponent) as nat, (len - 1) as nat);
        let num = digits * unit;
        assert(num >= pow10(400) * unit * den) by (nonlinear_arith)
            requires
                num == digits * unit,
                digits >= pow10(400) * den,
                unit > 0,
        ;
        lemma_overflow(num, den);
    }
}

proof fn lemma_small(digits: nat, len: nat, exponent: int)
    requires
        len > 0,
        digits < pow10(len),
        len + exponent <= -400,
    ensures
        decimal_magnitude(digits, exponent) == 0,
{
    let den = pow10((-exponent) as nat);
    lemma_pow10_pos((-exponent) as nat);
    lemma_pow10_adds(len, 400);
    lemma_pow10_monotone(len + 400, (-exponent) as nat);
    lemma_pow10_pos(400);
    assert(digits * pow10(400) <= den) by (nonlinear_arith)
        requires
            digits <= pow10(len),
            pow10(len) * pow10(400) <= den,
    ;
    lemma_underflow(digits * pow2(UNIT_BITS as nat), den, digits);
}

proof fn lemma_pow10_monotone(a: nat, b: nat)
    requires
        a <= b,
    ensures
        pow10(a) <= pow10(b),
    decreases b,
{
    if a < b {
        lemma_pow10_monotone(a, (b - 1) as nat);
        lemma_pow10_pos((b - 1) as nat);
    }
}

/// The exponent, capped where it no longer matters.
fn parse_exponent(v: &Vec<char>) -> (r: Option<i128>)
    ensures
        r is Some <==> exponent_of(v@) is Some,
        r is Some ==> {
            let exact = exponent_of(v@)->0;
            ||| r->0 == exact && -cap() < exact < cap()
            ||| r->0 == cap() && exact >= cap()
            ||| r->0 == -cap() && exact <= -cap()
        },
{
    let negative: bool = v.len() > 0 && v[0] == '-';
    let from: usize = if v.len() > 0 && (v[0] == '-' || v[0] == '+') { 1 } else { 0 };
    proof {
        if from == 1 {
            assert(v@.drop_first() =~= v@.skip(1));
        } else {
            assert(v@ =~= v@.skip(0));
        }
        assert(v@.skip(from as int) =~= v@.subrange(from as int, v@.len() as int));
    }
    if v.len() == from || !only_digits(v, from, v.len()) {
        return None;
    }
    let n: u128 = capped_digits(v, from);
    if negative {
        Some(-(n as i128))
    } else {
        Some(n as i128)
    }
}

/// The magnitude that an unsigned decimal number names.
fn parse_number(v: &Vec<char>) -> (r: Option<u64>)
    ensures
        match r {
            Some(magnitude) => magnitude <= INFINITE && number_magnitude(v@) == Some(magnitude as nat),
            None => number_magnitude(v@) is None,
        },
{
    let e: usize = position_of(v, 'e');
    let mantissa = slice_of(v, 0, e);
    let dot: usize = position_of(&mantissa, '.');
    let mut digits = slice_of(&mantissa, 0, dot);
    let ghost whole = digits@;
    let mut places: usize = 0;
    proof {
        assert(mantissa@ =~= v@.take(e as int));
        assert(whole =~= mantissa@.take(dot as int));
    }
    let ghost fraction = if dot < mantissa@.len() {
        mantissa@.skip(dot + 1)
    } else {
        Seq::empty()
    };
    if dot < mantissa.len() {
        let mut i: usize = dot + 1;
        proof {
            assert(digits@ =~= whole + fraction.take(0));
        }
        while i < mantissa.len()
            invariant
                dot + 1 <= i <= mantissa@.len(),
                fraction == mantissa@.skip(dot + 1),
                digits@ == whole + fraction.take(i - dot - 1),
            decreases mantissa@.len() - i,
        {
            digits.push(mantissa[i]);
            i = i + 1;
            proof {
                assert(digits@ =~= whole + fraction.take(i - dot - 1));
            }
        }
        places = mantissa.len() - dot - 1;
        proof {
            assert(fraction.take(i - dot - 1) =~= fraction);
        }
    } else {
        proof {
            assert(digits@ =~= whole + fraction);
        }
    }
    if digits.len() == 0 || !only_digits(&digits, 0, digits.len()) {
        return None;
    }
    let exponent: i128 = if e < v.len() {
        let tail = slice_of(v, e + 1, v.len());
        proof {
            assert(tail@ =~= v@.skip(e + 1));
        }
        match parse_exponent(&tail) {
            Some(n) => n,
            None => return None,
        }
    } else {
        0
    };
    let ghost exact = (if e < v@.len() { exponent_of(v@.skip(e + 1))->0 } else { 0int }) - fraction.len();
    Some(magnitude_of(&digits, exponent - places as i128, Ghost(exact)))
}

/// Reads a double.
pub fn parse_double(s: &str) -> (r: Option<Binary64>)
    ensures
        r == double_of_text(s@),
{
    let lower = to_ascii_lowercase(s);
    let v = chars_of(lower.as_str());
    let negative: bool = v.len() > 0 && v[0] == '-';
    let from: usize = if v.len() > 0 && (v[0] == '-' || v[0] == '+') { 1 } else { 0 };
    let rest = slice_of(&v, from, v.len());
    proof {
        lemma_sign_lowered(s@);
        assert(rest@ =~= ascii_lowered(sign_and_rest(s@).1));
    }
    let inf = chars_of("inf");
    let infinity = chars_of("infinity");
    let nan = chars_of("nan");
    if same_chars(&rest, &inf) || same_chars(&rest, &infinity) {
        return Some(pack(negative, INFINITE));
    }
    if same_chars(&rest, &nan) {
        return Some(Binary64 { bits: if negative { 0xfff8_0000_0000_0000 } else { 0x7ff8_0000_0000_0000 } });
    }
    match parse_number(&rest) {
        Some(magnitude) => Some(pack(negative, magnitude)),
        None => None,
    }
}

/// Making letters small does not touch a sign.
proof fn lemma_sign_lowered(s: Seq<char>)
    ensures
        sign_and_rest(ascii_lowered(s)) == (sign_and_rest(s).0, ascii_lowered(sign_and_rest(s).1)),
{
    let lower = ascii_lowered(s);
    if s.len() > 0 {
        assert(lower.first() == crate::text::ascii_lower(s.first()));
        assert(lower.drop_first() =~= ascii_lowered(s.drop_first()));
    }
}

/// Digits spell the double nearest to their number, and a sign before them gives it its sign.
pub proof fn law_digits_spell_doubles(n: nat)
    ensures
        double_of_text(decimal(n)) == Some(
            signed(false, nearest(n * pow2(UNIT_BITS as nat), 1)),
        ),
        double_of_text(seq!['-'] + decimal(n)) == Some(
            signed(true, nearest(n * pow2(UNIT_BITS as nat), 1)),
        ),
{
    let s = decimal(n);
    let t = seq!['-'] + s;
    crate::text::law_decimals_spell_their_number(n);
    assert('0' <= s[0] <= '9');
    assert(s.first() == s[0]);
    assert(t.first() == '-');
    assert(t.drop_first() =~= s);
    assert forall|i: int| 0 <= i < s.len() implies crate::text::ascii_lower(#[trigger] s[i]) == s[i] by {
        assert('0' <= s[i] <= '9');
    }
    assert(ascii_lowered(s) =~= s);
    reveal_strlit("inf");
    reveal_strlit("infinity");
    reveal_strlit("nan");
    assert("inf"@[0] == 'i' && "infinity"@[0] == 'i' && "nan"@[0] == 'n');
    assert forall|i: int| 0 <= i < s.len() implies s[i] != 'e' && s[i] != '.' by {
        assert('0' <= s[i] <= '9');
    }
    crate::text::lemma_index_of(s, 'e', s.len() as int);
    assert(s.take(s.len() as int) =~= s);
    crate::text::lemma_index_of(s, '.', s.len() as int);
    assert(s + Seq::<char>::empty() =~= s);
    assert(pow10(0) == 1);
    assert(n * pow10(0) * pow2(UNIT_BITS as nat) == n * pow2(UNIT_BITS as nat));
}

} // verus!
