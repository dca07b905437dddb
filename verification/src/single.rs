use vstd::prelude::*;

verus! {

/// Bit pattern of the sign of a single-precision number.
pub const SIGN_BIT: u32 = 0x8000_0000;

/// Bit pattern of positive infinity; every larger magnitude is not a number.
pub const INFINITY_BITS: u32 = 0x7f80_0000;

/// An IEEE-754 single-precision number, carried as its bit pattern.
///
/// The library never computes with such a number: it carries it through and
/// compares it. Equality is equality of bit patterns.
#[derive(Clone, Copy, Debug, PartialEq, Eq, Structural)]
pub struct Single {
    pub bits: u32,
}

impl Single {
    /// Whether the sign bit is set.
    pub open spec fn negative(self) -> bool {
        self.bits >= SIGN_BIT
    }

    /// The bit pattern without its sign.
    pub open spec fn magnitude(self) -> int {
        if self.bits >= SIGN_BIT {
            self.bits - SIGN_BIT
        } else {
            self.bits as int
        }
    }

    /// Whether the pattern encodes no number.
    pub open spec fn nan(self) -> bool {
        self.magnitude() > INFINITY_BITS
    }

    /// The place of a number on the line: for numbers `a` and `b`,
    /// `a <= b` exactly when `a.rank() <= b.rank()`. Both zeros have rank 0.
    pub open spec fn rank(self) -> int {
        if self.negative() {
            -self.magnitude()
        } else {
            self.magnitude()
        }
    }

    /// The IEEE-754 comparison `self <= other`, false when either is not a number.
    pub open spec fn le_spec(self, other: Single) -> bool {
        !self.nan() && !other.nan() && self.rank() <= other.rank()
    }

    /// Positive zero.
    pub open spec fn zero_spec() -> Single {
        Single { bits: 0 }
    }

    pub fn from_bits(bits: u32) -> (s: Single)
        ensures
            s.bits == bits,
    {
        Single { bits }
    }

    pub fn to_bits(&self) -> (bits: u32)
        ensures
            bits == self.bits,
    {
        self.bits
    }

    pub fn zero() -> (s: Single)
        ensures
            s == Single::zero_spec(),
    {
        Single { bits: 0 }
    }

    pub fn is_nan(&self) -> (b: bool)
        ensures
            b == self.nan(),
    {
        let magnitude: u32 = if self.bits >= SIGN_BIT {
            self.bits - SIGN_BIT
        } else {
            self.bits
        };
        magnitude > INFINITY_BITS
    }

    /// Compares two numbers as the hardware would.
    pub fn le(&self, other: &Single) -> (b: bool)
        ensures
            b == self.le_spec(*other),
    {
        if self.is_nan() || other.is_nan() {
            return false;
        }
        if self.bits >= SIGN_BIT {
            if other.bits >= SIGN_BIT {
                other.bits <= self.bits
            } else {
                true
            }
        } else {
            if other.bits >= SIGN_BIT {
                // Only the two zeros compare as equal across the signs.
                self.bits == 0 && other.bits == SIGN_BIT
            } else {
                self.bits <= other.bits
            }
        }
    }
}

/// The comparison orders the numbers: it is reflexive on numbers and transitive.
pub proof fn lemma_le_is_an_order(a: Single, b: Single, c: Single)
    ensures
        !a.nan() ==> a.le_spec(a),
        a.le_spec(b) && b.le_spec(c) ==> a.le_spec(c),
{
}

} // verus!
