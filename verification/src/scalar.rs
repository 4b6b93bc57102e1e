//! Single-precision quantities as bit patterns, and the classification and
//! ordering of such patterns by integer reasoning alone.

use vstd::prelude::*;

verus! {

/// Bit that carries the sign of a pattern.
pub const SIGN_BIT: u32 = 0x8000_0000;

/// Pattern of positive infinity. A larger magnitude denotes no number.
pub const INFINITY_BITS: u32 = 0x7f80_0000;

/// A single-precision quantity, held as its IEEE 754 bit pattern.
#[derive(Clone, Copy, Debug, PartialEq, Eq, Structural)]
pub struct Scalar {
    pub bits: u32,
}

/// A point or direction in the plane of the simulation.
#[derive(Clone, Copy, Debug, PartialEq, Eq, Structural)]
pub struct Vec2 {
    pub x: Scalar,
    pub y: Scalar,
}

impl Scalar {
    /// The pattern with its sign cleared.
    pub open spec fn magnitude(self) -> int {
        if self.bits >= SIGN_BIT {
            self.bits - SIGN_BIT
        } else {
            self.bits as int
        }
    }

    /// The pattern has its sign set (this includes negative zero).
    pub open spec fn signed(self) -> bool {
        self.bits >= SIGN_BIT
    }

    /// The pattern denotes no number.
    pub open spec fn denotes_nan(self) -> bool {
        self.magnitude() > INFINITY_BITS
    }

    /// The pattern denotes positive or negative zero.
    pub open spec fn denotes_zero(self) -> bool {
        self.magnitude() == 0
    }

    /// The pattern denotes a number that is neither infinite nor missing.
    pub open spec fn denotes_finite(self) -> bool {
        self.magnitude() < INFINITY_BITS
    }

    /// The pattern denotes a finite number strictly above zero: the only
    /// quantities by which the physics may divide.
    pub open spec fn denotes_positive(self) -> bool {
        0 < self.bits < INFINITY_BITS
    }

    /// An integer that grows strictly with the denoted number. The two zeros
    /// share rank 0, and on patterns without a sign the rank is the pattern
    /// itself. It is meaningful only for patterns that denote a number.
    pub open spec fn rank(self) -> int {
        if self.signed() {
            -self.magnitude()
        } else {
            self.magnitude()
        }
    }

    /// Numeric equality of the denoted numbers: false whenever either side
    /// denotes no number, true for the two zeros.
    pub open spec fn same_number(self, other: Scalar) -> bool {
        &&& !self.denotes_nan()
        &&& !other.denotes_nan()
        &&& self.rank() == other.rank()
    }

    /// Positive zero.
    pub open spec fn zero_value() -> Scalar {
        Scalar { bits: 0 }
    }

    pub fn from_bits(bits: u32) -> (r: Scalar)
        ensures
            r.bits == bits,
    {
        Scalar { bits }
    }

    pub fn to_bits(self) -> (r: u32)
        ensures
            r == self.bits,
    {
        self.bits
    }

    pub fn zero() -> (r: Scalar)
        ensures
            r == Scalar::zero_value(),
    {
        Scalar { bits: 0 }
    }

    fn cleared(self) -> (r: u32)
        ensures
            r == self.magnitude(),
    {
        if self.bits >= SIGN_BIT {
            self.bits - SIGN_BIT
        } else {
            self.bits
        }
    }

    pub fn is_nan(self) -> (r: bool)
        ensures
            r == self.denotes_nan(),
    {
        self.cleared() > INFINITY_BITS
    }

    pub fn is_zero(self) -> (r: bool)
        ensures
            r == self.denotes_zero(),
    {
        self.cleared() == 0
    }

    pub fn is_finite(self) -> (r: bool)
        ensures
            r == self.denotes_finite(),
    {
        self.cleared() < INFINITY_BITS
    }

    pub fn is_positive(self) -> (r: bool)
        ensures
            r == self.denotes_positive(),
    {
        0 < self.bits && self.bits < INFINITY_BITS
    }

    /// Numeric equality, decided on the patterns.
    pub fn equals(self, other: Scalar) -> (r: bool)
        ensures
            r == self.same_number(other),
    {
        if self.is_nan() || other.is_nan() {
            false
        } else {
            let a: u32 = self.cleared();
            let b: u32 = other.cleared();
            if a == 0 && b == 0 {
                true
            } else {
                self.bits == other.bits
            }
        }
    }

    /// Numeric "at most", decided on the patterns: false whenever either
    /// side denotes no number.
    pub fn at_most(self, other: Scalar) -> (r: bool)
        ensures
            r == (!self.denotes_nan() && !other.denotes_nan() && self.rank() <= other.rank()),
    {
        if self.is_nan() || other.is_nan() {
            false
        } else {
            let a: u32 = self.cleared();
            let b: u32 = other.cleared();
            if self.bits >= SIGN_BIT {
                if other.bits >= SIGN_BIT {
                    b <= a
                } else {
                    true
                }
            } else {
                if other.bits >= SIGN_BIT {
                    a == 0 && b == 0
                } else {
                    a <= b
                }
            }
        }
    }
}

impl Vec2 {
    /// The origin.
    pub open spec fn zero_value() -> Vec2 {
        Vec2 { x: Scalar::zero_value(), y: Scalar::zero_value() }
    }

    /// Both coordinates denote the same numbers: the two points coincide and
    /// no direction leads from one to the other.
    pub open spec fn same_point(self, other: Vec2) -> bool {
        self.x.same_number(other.x) && self.y.same_number(other.y)
    }

    /// Both coordinates denote finite numbers.
    pub open spec fn denotes_finite(self) -> bool {
        self.x.denotes_finite() && self.y.denotes_finite()
    }

    pub fn new(x: Scalar, y: Scalar) -> (r: Vec2)
        ensures
            r.x == x,
            r.y == y,
    {
        Vec2 { x, y }
    }

    pub fn from_bits(x: u32, y: u32) -> (r: Vec2)
        ensures
            r.x.bits == x,
            r.y.bits == y,
    {
        Vec2 { x: Scalar { bits: x }, y: Scalar { bits: y } }
    }

    pub fn zero() -> (r: Vec2)
        ensures
            r == Vec2::zero_value(),
    {
        Vec2 { x: Scalar { bits: 0 }, y: Scalar { bits: 0 } }
    }

    pub fn is_finite(self) -> (r: bool)
        ensures
            r == self.denotes_finite(),
    {
        self.x.is_finite() && self.y.is_finite()
    }

    /// Whether two positions coincide, so that the pair must exchange no
    /// force.
    pub fn coincides(self, other: Vec2) -> (r: bool)
        ensures
            r == self.same_point(other),
    {
        self.x.equals(other.x) && self.y.equals(other.y)
    }
}

/// Numeric equality is reflexive on numbers and symmetric everywhere.
pub proof fn same_number_is_an_equivalence_on_numbers(a: Scalar, b: Scalar, c: Scalar)
    ensures
        !a.denotes_nan() ==> a.same_number(a),
        a.same_number(b) == b.same_number(a),
        a.same_number(b) && b.same_number(c) ==> a.same_number(c),
{
}

/// Two patterns that denote the same number are the same pattern, except for
/// the two zeros.
pub proof fn same_number_means_same_bits(a: Scalar, b: Scalar)
    requires
        a.same_number(b),
    ensures
        a.bits == b.bits || (a.denotes_zero() && b.denotes_zero()),
{
}

} // verus!
