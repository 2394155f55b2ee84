use vstd::prelude::*;

verus! {

/// Offset of the sign bit in a single-precision bit pattern.
pub const SIGN_BIT: u32 = 0x8000_0000;

/// Bit pattern of positive infinity; every magnitude above it is a NaN.
pub const INFINITY_BITS: u32 = 0x7f80_0000;

/// An IEEE-754 single-precision number held by its bit pattern.
///
/// Comparisons and negation are carried out on the pattern exactly as the
/// standard defines them; arithmetic and decimal rendering are left to the
/// host program.
#[derive(Clone, Copy, Debug)]
pub struct Float {
    pub bits: u32,
}

impl Float {
    /// Whether the sign bit is set.
    pub open spec fn sign(self) -> bool {
        self.bits >= SIGN_BIT
    }

    /// The pattern without its sign bit.
    pub open spec fn magnitude(self) -> int {
        if self.sign() { self.bits - SIGN_BIT } else { self.bits as int }
    }

    /// Not a number: all exponent bits set and a nonzero fraction.
    pub open spec fn nan(self) -> bool {
        self.magnitude() > INFINITY_BITS
    }

    /// For numbers (not NaN) the magnitude pattern grows with the absolute
    /// value, so this signed key orders them as the reals do, and maps both
    /// zeros to 0.
    pub open spec fn key(self) -> int {
        if self.sign() { -self.magnitude() } else { self.magnitude() }
    }

    pub open spec fn spec_lt(self, other: Float) -> bool {
        !self.nan() && !other.nan() && self.key() < other.key()
    }

    pub open spec fn spec_le(self, other: Float) -> bool {
        !self.nan() && !other.nan() && self.key() <= other.key()
    }

    /// IEEE equality: NaN equals nothing, and the two zeros are equal.
    pub open spec fn spec_eq(self, other: Float) -> bool {
        !self.nan() && !other.nan() && self.key() == other.key()
    }

    pub open spec fn spec_neg(self) -> Float {
        Float { bits: if self.sign() { (self.bits - SIGN_BIT) as u32 } else { (self.bits + SIGN_BIT) as u32 } }
    }

    pub open spec fn from_bits(bits: u32) -> Float {
        Float { bits }
    }

    pub fn new(bits: u32) -> (r: Float)
        ensures r.bits == bits,
    {
        Float { bits }
    }

    pub fn is_sign_negative(&self) -> (r: bool)
        ensures r == self.sign(),
    {
        self.bits >= SIGN_BIT
    }

    fn magnitude_bits(&self) -> (r: u32)
        ensures r == self.magnitude(),
    {
        if self.bits >= SIGN_BIT { self.bits - SIGN_BIT } else { self.bits }
    }

    pub fn is_nan(&self) -> (r: bool)
        ensures r == self.nan(),
    {
        self.magnitude_bits() > INFINITY_BITS
    }

    /// `self < other` as IEEE-754 defines it.
    pub fn less_than(&self, other: &Float) -> (r: bool)
        ensures r == self.spec_lt(*other),
    {
        if self.is_nan() || other.is_nan() {
            return false;
        }
        let a = self.magnitude_bits();
        let b = other.magnitude_bits();
        match (self.is_sign_negative(), other.is_sign_negative()) {
            (false, false) => a < b,
            (true, true) => b < a,
            (true, false) => !(a == 0 && b == 0),
            (false, true) => false,
        }
    }

    /// `self <= other` as IEEE-754 defines it.
    pub fn less_or_equal(&self, other: &Float) -> (r: bool)
        ensures r == self.spec_le(*other),
    {
        if self.is_nan() || other.is_nan() {
            return false;
        }
        !other.less_than(self)
    }

    /// `self == other` as IEEE-754 defines it.
    pub fn equals(&self, other: &Float) -> (r: bool)
        ensures r == self.spec_eq(*other),
    {
        self.less_or_equal(other) && other.less_or_equal(self)
    }

    /// The larger of two numbers, ignoring NaN: with one NaN the other is
    /// returned; of two equal numbers (the two zeros among them) `other`.
    pub open spec fn spec_max_num(self, other: Float) -> Float {
        if self.nan() { other } else if other.nan() { self } else if other.spec_lt(self) { self } else { other }
    }

    /// The smaller of two numbers, ignoring NaN: with one NaN the other is
    /// returned; of two equal numbers (the two zeros among them) `other`.
    pub open spec fn spec_min_num(self, other: Float) -> Float {
        if self.nan() { other } else if other.nan() { self } else if self.spec_lt(other) { self } else { other }
    }

    /// The larger of `self` and `other`, ignoring NaN (IEEE-754 maxNum).
    pub fn max(&self, other: &Float) -> (r: Float)
        ensures
            r == self.spec_max_num(*other),
    {
        if self.is_nan() {
            *other
        } else if other.is_nan() {
            *self
        } else if other.less_than(self) {
            *self
        } else {
            *other
        }
    }

    /// The smaller of `self` and `other`, ignoring NaN (IEEE-754 minNum).
    pub fn min(&self, other: &Float) -> (r: Float)
        ensures
            r == self.spec_min_num(*other),
    {
        if self.is_nan() {
            *other
        } else if other.is_nan() {
            *self
        } else if self.less_than(other) {
            *self
        } else {
            *other
        }
    }

    /// Unary minus: flips the sign bit, NaN included.
    pub fn neg(&self) -> (r: Float)
        ensures r == self.spec_neg(),
    {
        if self.bits >= SIGN_BIT {
            Float { bits: self.bits - SIGN_BIT }
        } else {
            Float { bits: self.bits + SIGN_BIT }
        }
    }
}

/// 0.0
pub open spec fn spec_zero() -> Float { Float { bits: 0 } }
/// 1.0
pub open spec fn spec_one() -> Float { Float { bits: 0x3f80_0000 } }
/// -1.0
pub open spec fn spec_minus_one() -> Float { Float { bits: 0xbf80_0000 } }

pub fn zero() -> (r: Float)
    ensures r == spec_zero(),
{
    Float { bits: 0 }
}

pub fn one() -> (r: Float)
    ensures r == spec_one(),
{
    Float { bits: 0x3f80_0000 }
}

pub fn minus_one() -> (r: Float)
    ensures r == spec_minus_one(),
{
    Float { bits: 0xbf80_0000 }
}


/// Negating twice gives back the same bit pattern.
pub proof fn lemma_neg_involutive(x: Float)
    ensures
        x.spec_neg().spec_neg() == x,
{
}

/// Negation reverses the order of numbers and keeps NaN a NaN.
pub proof fn lemma_neg_reverses_order(a: Float, b: Float)
    ensures
        a.spec_lt(b) == b.spec_neg().spec_lt(a.spec_neg()),
        a.nan() == a.spec_neg().nan(),
{
}

/// `<` is irreflexive and transitive; of two numbers that are not NaN, one is
/// below the other or they are equal; a NaN compares false with everything.
pub proof fn lemma_order(a: Float, b: Float, c: Float)
    ensures
        !a.spec_lt(a),
        a.spec_lt(b) && b.spec_lt(c) ==> a.spec_lt(c),
        !a.nan() && !b.nan() ==> (a.spec_lt(b) || b.spec_lt(a) || a.spec_eq(b)),
        a.nan() ==> !a.spec_lt(b) && !b.spec_lt(a) && !a.spec_eq(b) && !a.spec_le(b),
        a.spec_le(b) == (a.spec_lt(b) || a.spec_eq(b)),
        a.spec_eq(b) == b.spec_eq(a),
        !a.nan() ==> a.spec_eq(a),
{
}

/// The two zeros are equal, and a number equals zero exactly when its
/// pattern is one of them.
pub proof fn lemma_zeros(x: Float)
    ensures
        (Float { bits: 0x8000_0000 }).spec_eq(spec_zero()),
        x.spec_eq(spec_zero()) == (x.bits == 0 || x.bits == 0x8000_0000),
{
}


/// `max` gives one of its arguments, a number unless both are NaN, and
/// nothing smaller than either number; `min` likewise gives nothing larger.
pub proof fn lemma_max_min_num(a: Float, b: Float)
    ensures
        a.spec_max_num(b) == a || a.spec_max_num(b) == b,
        a.spec_min_num(b) == a || a.spec_min_num(b) == b,
        a.spec_max_num(b).nan() ==> a.nan() && b.nan(),
        a.spec_min_num(b).nan() ==> a.nan() && b.nan(),
        !a.nan() ==> a.spec_le(a.spec_max_num(b)) && a.spec_min_num(b).spec_le(a),
        !b.nan() ==> b.spec_le(a.spec_max_num(b)) && a.spec_min_num(b).spec_le(b),
{
}

} // verus!
