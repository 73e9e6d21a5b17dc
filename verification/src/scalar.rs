//! Coordinates and lengths: exact fixed-point numbers extended with the two infinities.

use vstd::prelude::*;

verus! {

/// A coordinate or a length along one axis.
///
/// A finite scalar counts sub-units, [`Scalar::UNIT`] of them to one unit, so that half of a
/// whole unit is exact. Arithmetic on finite scalars is exact; a result too large for the
/// representation becomes the infinity on its side. An operation that has no value, such as
/// infinity minus infinity, gives `Nan`, and every operation on `Nan` gives `Nan` again.
///
/// Equality is structural: `Nan` equals `Nan`.
#[derive(Clone, Copy, Debug, PartialEq, Eq, Structural)]
pub enum Scalar {
    /// Not a number.
    Nan,
    /// Below every finite scalar.
    NegInfinity,
    /// The given number of sub-units.
    Finite(i64),
    /// Above every finite scalar.
    Infinity,
}

impl Scalar {
    /// The number of sub-units in one unit.
    pub const UNIT: i64 = 65536;

    /// Positive infinity.
    pub const INFINITY: Scalar = Scalar::Infinity;

    /// Negative infinity.
    pub const NEG_INFINITY: Scalar = Scalar::NegInfinity;

    /// Not a number.
    pub const NAN: Scalar = Scalar::Nan;

    /// The scalar for an exact count of sub-units: the count itself where it can be
    /// represented, otherwise the infinity on its side.
    pub open spec fn fit(raw: int) -> Scalar {
        if raw > i64::MAX {
            Scalar::Infinity
        } else if raw < i64::MIN {
            Scalar::NegInfinity
        } else {
            Scalar::Finite(raw as i64)
        }
    }

    /// Half of an exact count of sub-units, rounded toward zero.
    pub open spec fn half_toward_zero(raw: int) -> int {
        if raw >= 0 {
            raw / 2
        } else {
            -((-raw) / 2)
        }
    }

    /// The scalar for `n` whole units.
    pub open spec fn from_int_spec(n: i32) -> Scalar {
        Scalar::Finite((n * Scalar::UNIT) as i64)
    }

    /// The sum. Opposite infinities have no sum.
    pub open spec fn add_spec(self, rhs: Scalar) -> Scalar {
        match (self, rhs) {
            (Scalar::Nan, _) | (_, Scalar::Nan) => Scalar::Nan,
            (Scalar::Infinity, Scalar::NegInfinity) | (Scalar::NegInfinity, Scalar::Infinity) => {
                Scalar::Nan
            },
            (Scalar::Infinity, _) | (_, Scalar::Infinity) => Scalar::Infinity,
            (Scalar::NegInfinity, _) | (_, Scalar::NegInfinity) => Scalar::NegInfinity,
            (Scalar::Finite(a), Scalar::Finite(b)) => Scalar::fit(a + b),
        }
    }

    /// The difference. Equal infinities have no difference.
    pub open spec fn sub_spec(self, rhs: Scalar) -> Scalar {
        match (self, rhs) {
            (Scalar::Nan, _) | (_, Scalar::Nan) => Scalar::Nan,
            (Scalar::Infinity, Scalar::Infinity) | (Scalar::NegInfinity, Scalar::NegInfinity) => {
                Scalar::Nan
            },
            (Scalar::Infinity, _) | (_, Scalar::NegInfinity) => Scalar::Infinity,
            (Scalar::NegInfinity, _) | (_, Scalar::Infinity) => Scalar::NegInfinity,
            (Scalar::Finite(a), Scalar::Finite(b)) => Scalar::fit(a - b),
        }
    }

    /// Half of the scalar. Half of an odd count of sub-units is rounded toward zero; half of
    /// an infinity is that infinity.
    pub open spec fn half_spec(self) -> Scalar {
        match self {
            Scalar::Finite(a) => Scalar::Finite(Scalar::half_toward_zero(a as int) as i64),
            other => other,
        }
    }

    /// The order of the extended number line. `Nan` stands in no order to anything.
    pub open spec fn le(self, rhs: Scalar) -> bool {
        match (self, rhs) {
            (Scalar::Nan, _) | (_, Scalar::Nan) => false,
            (Scalar::NegInfinity, _) | (_, Scalar::Infinity) => true,
            (Scalar::Finite(a), Scalar::Finite(b)) => a <= b,
            _ => false,
        }
    }

    /// Whether `self + rhs` is the exact sum: neither is `Nan`, they are not opposite
    /// infinities, and a finite sum can be represented.
    pub open spec fn adds_exactly(self, rhs: Scalar) -> bool {
        match (self, rhs) {
            (Scalar::Finite(a), Scalar::Finite(b)) => i64::MIN <= a + b <= i64::MAX,
            _ => self.add_spec(rhs) !is Nan,
        }
    }

    /// The scalar for a count of sub-units: the count itself where it can be represented,
    /// otherwise the infinity on its side.
    pub fn from_subunits(raw: i128) -> (r: Scalar)
        ensures
            r == Scalar::fit(raw as int),
    {
        if raw > i64::MAX as i128 {
            Scalar::Infinity
        } else if raw < i64::MIN as i128 {
            Scalar::NegInfinity
        } else {
            Scalar::Finite(raw as i64)
        }
    }

    /// The scalar for `n` whole units.
    #[verifier::when_used_as_spec(from_int_spec)]
    pub fn from_int(n: i32) -> (r: Scalar)
        ensures
            r == Scalar::from_int_spec(n),
    {
        let wide: i64 = n as i64;
        Scalar::Finite(wide * Scalar::UNIT)
    }

    /// Adds two scalars.
    #[verifier::when_used_as_spec(add_spec)]
    pub fn add(self, rhs: Scalar) -> (r: Scalar)
        ensures
            r == self.add_spec(rhs),
    {
        match (self, rhs) {
            (Scalar::Nan, _) | (_, Scalar::Nan) => Scalar::Nan,
            (Scalar::Infinity, Scalar::NegInfinity) | (Scalar::NegInfinity, Scalar::Infinity) => {
                Scalar::Nan
            },
            (Scalar::Infinity, _) | (_, Scalar::Infinity) => Scalar::Infinity,
            (Scalar::NegInfinity, _) | (_, Scalar::NegInfinity) => Scalar::NegInfinity,
            (Scalar::Finite(a), Scalar::Finite(b)) => Scalar::from_subunits(a as i128 + b as i128),
        }
    }

    /// Subtracts `rhs` from `self`.
    #[verifier::when_used_as_spec(sub_spec)]
    pub fn sub(self, rhs: Scalar) -> (r: Scalar)
        ensures
            r == self.sub_spec(rhs),
    {
        match (self, rhs) {
            (Scalar::Nan, _) | (_, Scalar::Nan) => Scalar::Nan,
            (Scalar::Infinity, Scalar::Infinity) | (Scalar::NegInfinity, Scalar::NegInfinity) => {
                Scalar::Nan
            },
            (Scalar::Infinity, _) | (_, Scalar::NegInfinity) => Scalar::Infinity,
            (Scalar::NegInfinity, _) | (_, Scalar::Infinity) => Scalar::NegInfinity,
            (Scalar::Finite(a), Scalar::Finite(b)) => Scalar::from_subunits(a as i128 - b as i128),
        }
    }

    /// Halves a scalar.
    #[verifier::when_used_as_spec(half_spec)]
    pub fn half(self) -> (r: Scalar)
        ensures
            r == self.half_spec(),
    {
        match self {
            Scalar::Finite(a) => Scalar::Finite(a / 2),
            other => other,
        }
    }
}

} // verus!
