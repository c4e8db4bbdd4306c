//! Single-precision numbers, held as their bit patterns.
use vstd::prelude::*;

verus! {

/// How many fractions there are for one exponent.
pub const FRACTIONS: u32 = 0x80_0000;

/// The bit pattern of the positive infinity; the patterns of greater magnitude are not numbers.
pub const INFINITY_BITS: u32 = 0x7f80_0000;

/// The sign bit.
pub const SIGN_BIT: u32 = 0x8000_0000;

/// An IEEE 754 binary32 number: the sign bit, eight bits of exponent, 23 bits of fraction.
#[derive(Clone, Copy, Debug)]
pub struct Single {
    pub bits: u32,
}

/// What a magnitude stands for, in units of the smallest positive number: the lowest exponent has
/// the bare fraction, each further one has a leading one before the fraction and doubles its weight.
pub open spec fn units(magnitude: int) -> int {
    let exponent = magnitude / (FRACTIONS as int);
    let fraction = magnitude % (FRACTIONS as int);
    if exponent == 0 {
        fraction
    } else {
        (FRACTIONS + fraction) * vstd::arithmetic::power2::pow2((exponent - 1) as nat)
    }
}

impl Single {
    /// The bits below the sign bit.
    pub open spec fn magnitude(self) -> int {
        if self.bits < SIGN_BIT {
            self.bits as int
        } else {
            self.bits - SIGN_BIT
        }
    }

    /// Whether the pattern stands for no number.
    pub open spec fn is_nan(self) -> bool {
        self.magnitude() > INFINITY_BITS
    }

    /// The place of the number in the order of all numbers; both zeros have the place 0.
    pub open spec fn rank(self) -> int {
        if self.bits < SIGN_BIT {
            self.magnitude()
        } else {
            -self.magnitude()
        }
    }

    /// The number itself in units of the smallest positive one, which is two to the power of -149.
    /// It is meant for numbers that are finite.
    pub open spec fn value(self) -> int {
        if self.bits < SIGN_BIT {
            units(self.magnitude())
        } else {
            -units(self.magnitude())
        }
    }

    /// Whether the pattern stands for a finite number.
    pub open spec fn is_finite(self) -> bool {
        self.magnitude() < INFINITY_BITS
    }

    /// `self <= other`, which never holds of what is not a number.
    pub open spec fn le(self, other: Single) -> bool {
        !self.is_nan() && !other.is_nan() && self.rank() <= other.rank()
    }

    /// `self < other`, which never holds of what is not a number.
    pub open spec fn lt(self, other: Single) -> bool {
        !self.is_nan() && !other.is_nan() && self.rank() < other.rank()
    }

    /// `self == other`, which never holds of what is not a number.
    pub open spec fn same(self, other: Single) -> bool {
        !self.is_nan() && !other.is_nan() && self.rank() == other.rank()
    }

    /// The number with the given bit pattern.
    pub fn from_bits(bits: u32) -> (number: Self)
        ensures
            number.bits == bits,
    {
        Single { bits }
    }

    /// The magnitude as a machine integer.
    fn abs_bits(self) -> (bits: u32)
        ensures
            bits == self.magnitude(),
    {
        if self.bits < SIGN_BIT {
            self.bits
        } else {
            self.bits - SIGN_BIT
        }
    }

    /// The rank, where there is one.
    fn ranked(self) -> (rank: Option<i64>)
        ensures
            rank is None <==> self.is_nan(),
            rank matches Some(rank) ==> rank == self.rank(),
    {
        let magnitude: u32 = self.abs_bits();
        if magnitude > INFINITY_BITS {
            None
        } else if self.bits < SIGN_BIT {
            Some(magnitude as i64)
        } else {
            Some(-(magnitude as i64))
        }
    }

    /// Whether this number is less than `other`.
    pub fn less_than(self, other: Single) -> (holds: bool)
        ensures
            holds == self.lt(other),
    {
        match (self.ranked(), other.ranked()) {
            (Some(a), Some(b)) => a < b,
            _ => false,
        }
    }

    /// Whether this number equals `other`.
    pub fn equals(self, other: Single) -> (holds: bool)
        ensures
            holds == self.same(other),
    {
        match (self.ranked(), other.ranked()) {
            (Some(a), Some(b)) => a == b,
            _ => false,
        }
    }
}

/// Each magnitude stands for more than the one before it.
proof fn lemma_units_step(magnitude: int)
    requires
        0 <= magnitude,
    ensures
        units(magnitude) < units(magnitude + 1),
{
    let per = FRACTIONS as int;
    let exponent = magnitude / per;
    let fraction = magnitude % per;
    if fraction + 1 < per {
        assert((magnitude + 1) / per == exponent && (magnitude + 1) % per == fraction + 1);
        if exponent > 0 {
            let weight = vstd::arithmetic::power2::pow2((exponent - 1) as nat);
            vstd::arithmetic::power2::lemma_pow2_pos((exponent - 1) as nat);
            assert((per + fraction) * weight < (per + fraction + 1) * weight) by (nonlinear_arith)
                requires
                    weight > 0,
            ;
        }
    } else {
        assert((magnitude + 1) / per == exponent + 1 && (magnitude + 1) % per == 0);
        vstd::arithmetic::power2::lemma_pow2_pos(exponent as nat);
        if exponent > 0 {
            let weight = vstd::arithmetic::power2::pow2((exponent - 1) as nat);
            vstd::arithmetic::power2::lemma_pow2_pos((exponent - 1) as nat);
            vstd::arithmetic::power2::lemma_pow2_unfold(exponent as nat);
            assert((per + per - 1) * weight < per * (2 * weight)) by (nonlinear_arith)
                requires
                    weight > 0,
            ;
        } else {
            let weight = vstd::arithmetic::power2::pow2(0);
            assert(per - 1 < per * weight) by (nonlinear_arith)
                requires
                    weight > 0,
                    per > 0,
            ;
        }
    }
}

/// A greater magnitude stands for more.
proof fn lemma_units_increase(less: int, more: int)
    requires
        0 <= less < more,
    ensures
        units(less) < units(more),
    decreases more - less,
{
    lemma_units_step(more - 1);
    if less < more - 1 {
        lemma_units_increase(less, more - 1);
    }
}

/// Of finite numbers, the order and the equality of the patterns are those of the numbers.
pub proof fn law_order_is_by_value(a: Single, b: Single)
    requires
        a.is_finite(),
        b.is_finite(),
    ensures
        a.le(b) <==> a.value() <= b.value(),
        a.lt(b) <==> a.value() < b.value(),
        a.same(b) <==> a.value() == b.value(),
{
    let (m, n) = (a.magnitude(), b.magnitude());
    assert(units(0) == 0);
    if m < n {
        lemma_units_increase(m, n);
    }
    if n < m {
        lemma_units_increase(n, m);
    }
    if 0 < m {
        lemma_units_increase(0, m);
    }
    if 0 < n {
        lemma_units_increase(0, n);
    }
}

/// The order and the equality of the patterns, by sign bit and bits alone. Patterns above that of
/// infinity are not numbers and stand in no relation. Of two numbers without the sign bit the
/// greater pattern is the greater number, of two with it the lesser one; one with it is less than
/// one without it, but for the two zeros, which are equal.
pub proof fn law_order_is_by_bits(a: Single, b: Single)
    ensures
        ({
            let a_bits = a.bits as int;
            let b_bits = b.bits as int;
            let sign: int = 0x8000_0000;
            let inf: int = 0x7f80_0000;
            &&& inf < a_bits < sign || sign + inf < a_bits || inf < b_bits < sign || sign + inf
                < b_bits ==> !a.lt(b) && !a.le(b) && !a.same(b)
            &&& a_bits <= inf && b_bits <= inf ==> {
                &&& a.lt(b) <==> a_bits < b_bits
                &&& a.same(b) <==> a_bits == b_bits
            }
            &&& sign <= a_bits <= sign + inf && sign <= b_bits <= sign + inf ==> {
                &&& a.lt(b) <==> b_bits < a_bits
                &&& a.same(b) <==> a_bits == b_bits
            }
            &&& sign <= a_bits <= sign + inf && b_bits <= inf ==> {
                &&& a.lt(b) <==> !(a_bits == sign && b_bits == 0)
                &&& a.same(b) <==> a_bits == sign && b_bits == 0
            }
            &&& a_bits <= inf && sign <= b_bits <= sign + inf ==> {
                &&& !a.lt(b)
                &&& a.same(b) <==> a_bits == 0 && b_bits == sign
            }
            &&& a.le(b) <==> a.lt(b) || a.same(b)
        }),
{
}

/// What the magnitudes stand for: up to twice the number of fractions they count the units
/// themselves, and with every further exponent the same fraction weighs twice as much.
pub proof fn law_weights_double(magnitude: int)
    requires
        0 <= magnitude,
    ensures
        magnitude <= 0x100_0000 ==> units(magnitude) == magnitude,
        0x80_0000 <= magnitude ==> units(magnitude + 0x80_0000) == 2 * units(magnitude),
{
    let per = FRACTIONS as int;
    let exponent = magnitude / per;
    let fraction = magnitude % per;
    assert(vstd::arithmetic::power2::pow2(0) == 1) by {
        vstd::arithmetic::power2::lemma2_to64();
    }
    assert(vstd::arithmetic::power2::pow2(1) == 2) by {
        vstd::arithmetic::power2::lemma2_to64();
    }
    if per <= magnitude {
        assert((magnitude + per) / per == exponent + 1 && (magnitude + per) % per == fraction);
        let weight = vstd::arithmetic::power2::pow2((exponent - 1) as nat);
        vstd::arithmetic::power2::lemma_pow2_unfold(exponent as nat);
        assert((per + fraction) * (2 * weight) == 2 * ((per + fraction) * weight))
            by (nonlinear_arith);
        if magnitude <= 2 * per {
            assert(exponent == 1 || (exponent == 2 && fraction == 0));
            assert(weight == exponent);
            assert((per + fraction) * weight == magnitude) by (nonlinear_arith)
                requires
                    weight == exponent,
                    magnitude == per * exponent + fraction,
                    exponent == 1 || (exponent == 2 && fraction == 0),
            ;
        }
    }
}

} // verus!
