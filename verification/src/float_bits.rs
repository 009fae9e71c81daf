use vstd::prelude::*;

verus! {

/// Bit of a binary32 pattern that holds the sign.
pub const SIGN_BIT: u32 = 0x8000_0000;

/// Bit pattern of positive infinity; every larger magnitude is a NaN.
pub const POSITIVE_INFINITY_BITS: u32 = 0x7F80_0000;

/// An IEEE-754 binary32 value carried by its exact bit pattern.
///
/// The rules never do arithmetic on such values: they compare them, negate them
/// and pass them on. Comparison and negation of a binary32 value are exact
/// operations on its bits, so they are carried out here on the pattern itself,
/// with the same results `<`, `<=` and unary `-` give on an `f32`.
#[derive(Debug, Clone, Copy, PartialEq, Eq, Structural)]
pub struct F32Bits {
    pub bits: u32,
}

impl F32Bits {
    /// The magnitude part of the pattern (all bits but the sign).
    pub open spec fn magnitude(self) -> int {
        (self.bits % SIGN_BIT) as int
    }

    /// Whether the sign bit is set.
    pub open spec fn sign_set(self) -> bool {
        self.bits >= SIGN_BIT
    }

    /// Exponent all ones and a non-zero fraction.
    pub open spec fn nan(self) -> bool {
        self.magnitude() > POSITIVE_INFINITY_BITS
    }

    /// Position of a non-NaN value on the number line: for the binary32
    /// encoding, magnitudes are ordered as their bit patterns, and the two zeros
    /// share the position 0.
    pub open spec fn ordinal(self) -> int {
        if self.sign_set() {
            -self.magnitude()
        } else {
            self.magnitude()
        }
    }

    /// `self < other` on the values the patterns encode.
    pub open spec fn less_than(self, other: F32Bits) -> bool {
        &&& !self.nan()
        &&& !other.nan()
        &&& self.ordinal() < other.ordinal()
    }

    /// `self <= other` on the values the patterns encode.
    pub open spec fn at_most(self, other: F32Bits) -> bool {
        &&& !self.nan()
        &&& !other.nan()
        &&& self.ordinal() <= other.ordinal()
    }

    /// `self == other` on the values the patterns encode: never for NaN, and
    /// the two zeros are equal.
    pub open spec fn same_value(self, other: F32Bits) -> bool {
        &&& !self.nan()
        &&& !other.nan()
        &&& self.ordinal() == other.ordinal()
    }

    /// The pattern of `-self`: the same magnitude with the sign flipped.
    pub open spec fn negated(self) -> F32Bits {
        if self.sign_set() {
            F32Bits { bits: (self.bits - SIGN_BIT) as u32 }
        } else {
            F32Bits { bits: (self.bits + SIGN_BIT) as u32 }
        }
    }

    pub fn from_bits(bits: u32) -> (r: F32Bits)
        ensures
            r.bits == bits,
    {
        F32Bits { bits }
    }

    pub fn is_nan(&self) -> (r: bool)
        ensures
            r == self.nan(),
    {
        self.bits % SIGN_BIT > POSITIVE_INFINITY_BITS
    }

    /// `self < other`, as on `f32`.
    pub fn lt(&self, other: &F32Bits) -> (r: bool)
        ensures
            r == self.less_than(*other),
    {
        if self.is_nan() || other.is_nan() {
            return false;
        }
        let self_negative = self.bits >= SIGN_BIT;
        let other_negative = other.bits >= SIGN_BIT;
        let self_magnitude = self.bits % SIGN_BIT;
        let other_magnitude = other.bits % SIGN_BIT;
        if !self_negative && !other_negative {
            self_magnitude < other_magnitude
        } else if self_negative && other_negative {
            other_magnitude < self_magnitude
        } else if self_negative {
            !(self_magnitude == 0 && other_magnitude == 0)
        } else {
            false
        }
    }

    /// `self <= other`, as on `f32`.
    pub fn le(&self, other: &F32Bits) -> (r: bool)
        ensures
            r == self.at_most(*other),
    {
        if self.is_nan() || other.is_nan() {
            return false;
        }
        !other.lt(self)
    }

    /// `self == other`, as on `f32`.
    pub fn eq_value(&self, other: &F32Bits) -> (r: bool)
        ensures
            r == self.same_value(*other),
    {
        if self.is_nan() || other.is_nan() {
            return false;
        }
        !self.lt(other) && !other.lt(self)
    }

    /// `-self`, as on `f32`.
    pub fn neg(&self) -> (r: F32Bits)
        ensures
            r == self.negated(),
    {
        if self.bits >= SIGN_BIT {
            F32Bits { bits: self.bits - SIGN_BIT }
        } else {
            F32Bits { bits: self.bits + SIGN_BIT }
        }
    }
}

/// Negating twice gives back the same pattern.
pub proof fn lemma_negated_twice(x: F32Bits)
    ensures
        x.negated().negated() == x,
{
}

/// Negation keeps NaN-ness and mirrors the position on the number line.
pub proof fn lemma_negated_ordinal(x: F32Bits)
    ensures
        x.negated().nan() == x.nan(),
        x.negated().ordinal() == -x.ordinal(),
{
}

/// Negation reverses the order: `-a < -b` exactly when `b < a`.
pub proof fn lemma_negation_reverses_order(a: F32Bits, b: F32Bits)
    ensures
        a.negated().less_than(b.negated()) == b.less_than(a),
{
    lemma_negated_ordinal(a);
    lemma_negated_ordinal(b);
}

/// `<` is irreflexive and transitive, and on non-NaN values any two are
/// comparable, as for `f32`.
pub proof fn lemma_order_properties(a: F32Bits, b: F32Bits, c: F32Bits)
    ensures
        !a.less_than(a),
        a.less_than(b) && b.less_than(c) ==> a.less_than(c),
        !a.nan() && !b.nan() ==> (a.less_than(b) || b.at_most(a)),
        a.less_than(b) ==> !b.at_most(a),
{
}

/// A point or vector of the world plane, each coordinate a binary32 value.
#[derive(Debug, Clone, Copy, PartialEq, Eq, Structural)]
pub struct Vec2Bits {
    pub x: F32Bits,
    pub y: F32Bits,
}

/// A point or vector of the world with its drawing layer, each coordinate a
/// binary32 value.
#[derive(Debug, Clone, Copy, PartialEq, Eq, Structural)]
pub struct Vec3Bits {
    pub x: F32Bits,
    pub y: F32Bits,
    pub z: F32Bits,
}

} // verus!
