//! Single-precision numbers held as their IEEE-754 bit patterns.
//!
//! The tracer never does arithmetic on the numbers it is handed: it only
//! stores them, passes them on and orders them. A `Scalar` therefore keeps
//! the 32 bits of a binary32 value and compares two of them the way the
//! hardware compares the numbers they encode: a NaN is unordered with
//! everything, the two zeros are equal, and otherwise the sign and the
//! magnitude decide.
use vstd::prelude::*;

verus! {

/// The bit that carries the sign of a binary32 value.
pub const SIGN_BIT: u32 = 0x8000_0000;

/// The bit pattern of positive infinity; every larger magnitude is a NaN.
pub const INFINITY_BITS: u32 = 0x7f80_0000;

/// The bit pattern of 1.0.
pub const ONE_BITS: u32 = 0x3f80_0000;

/// A binary32 value, kept as its bit pattern.
#[derive(Clone, Copy, Debug, PartialEq, Eq, Structural)]
pub struct Scalar {
    pub bits: u32,
}

impl Scalar {
    /// The bit pattern without its sign bit.
    pub open spec fn magnitude(self) -> int {
        if self.bits >= SIGN_BIT {
            self.bits - SIGN_BIT
        } else {
            self.bits as int
        }
    }

    /// Whether the sign bit is set.
    pub open spec fn negative(self) -> bool {
        self.bits >= SIGN_BIT
    }

    /// Whether the pattern encodes a NaN: an all-ones exponent with a
    /// non-zero fraction.
    pub open spec fn nan(self) -> bool {
        self.magnitude() > INFINITY_BITS
    }

    /// The place of the encoded number on the number line: for patterns
    /// that are not NaN, `a` encodes a smaller number than `b` exactly when
    /// `a.rank() < b.rank()`, and the two zeros share rank 0.
    pub open spec fn rank(self) -> int {
        if self.negative() {
            -self.magnitude()
        } else {
            self.magnitude()
        }
    }

    /// The comparison `self < other` of the encoded numbers.
    pub open spec fn less(self, other: Scalar) -> bool {
        !self.nan() && !other.nan() && self.rank() < other.rank()
    }

    /// The comparison `self <= other` of the encoded numbers.
    pub open spec fn at_most(self, other: Scalar) -> bool {
        !self.nan() && !other.nan() && self.rank() <= other.rank()
    }

    /// Whether the encoded number lies strictly between `low` and `high`.
    pub open spec fn between(self, low: Scalar, high: Scalar) -> bool {
        low.less(self) && self.less(high)
    }

    /// The scalar with the given bit pattern.
    pub open spec fn of(bits: u32) -> Scalar {
        Scalar { bits }
    }

    /// Wraps a bit pattern.
    pub fn from_bits(bits: u32) -> (s: Scalar)
        ensures
            s == Scalar::of(bits),
    {
        Scalar { bits }
    }

    /// The bit pattern.
    pub fn to_bits(self) -> (bits: u32)
        ensures
            bits == self.bits,
    {
        self.bits
    }

    /// The number 0.0.
    pub fn zero() -> (s: Scalar)
        ensures
            s == Scalar::of(0),
    {
        Scalar { bits: 0 }
    }

    /// The number 1.0.
    pub fn one() -> (s: Scalar)
        ensures
            s == Scalar::of(ONE_BITS),
    {
        Scalar { bits: ONE_BITS }
    }

    /// Whether the pattern encodes a NaN.
    pub fn is_nan(self) -> (r: bool)
        ensures
            r == self.nan(),
    {
        let magnitude: u32 = if self.bits >= SIGN_BIT {
            self.bits - SIGN_BIT
        } else {
            self.bits
        };
        magnitude > INFINITY_BITS
    }

    /// The rank as a machine integer.
    pub fn key(self) -> (k: i64)
        ensures
            k == self.rank(),
    {
        if self.bits >= SIGN_BIT {
            let magnitude: u32 = self.bits - SIGN_BIT;
            0i64 - (magnitude as i64)
        } else {
            self.bits as i64
        }
    }

    /// `self < other`, false whenever either side is a NaN.
    pub fn lt(self, other: Scalar) -> (r: bool)
        ensures
            r == self.less(other),
    {
        !self.is_nan() && !other.is_nan() && self.key() < other.key()
    }

    /// `self > other`, false whenever either side is a NaN.
    pub fn gt(self, other: Scalar) -> (r: bool)
        ensures
            r == other.less(self),
    {
        other.lt(self)
    }

    /// `self <= other`, false whenever either side is a NaN.
    pub fn le(self, other: Scalar) -> (r: bool)
        ensures
            r == self.at_most(other),
    {
        !self.is_nan() && !other.is_nan() && self.key() <= other.key()
    }

    /// Whether `low < self < high`.
    pub fn within(self, low: Scalar, high: Scalar) -> (r: bool)
        ensures
            r == self.between(low, high),
    {
        low.lt(self) && self.lt(high)
    }
}

/// Three scalars: a point, a direction or an RGB colour.
#[derive(Clone, Copy, Debug, PartialEq, Eq, Structural)]
pub struct Vec3 {
    pub x: Scalar,
    pub y: Scalar,
    pub z: Scalar,
}

impl Vec3 {
    /// The vector with the given components.
    pub fn new(x: Scalar, y: Scalar, z: Scalar) -> (v: Vec3)
        ensures
            v == (Vec3 { x, y, z }),
    {
        Vec3 { x, y, z }
    }

    /// The vector whose components have the given bit patterns.
    pub open spec fn of_bits(x: u32, y: u32, z: u32) -> Vec3 {
        Vec3 { x: Scalar::of(x), y: Scalar::of(y), z: Scalar::of(z) }
    }

    /// The vector whose components have the given bit patterns.
    pub fn from_bits(x: u32, y: u32, z: u32) -> (v: Vec3)
        ensures
            v == Vec3::of_bits(x, y, z),
    {
        Vec3 { x: Scalar { bits: x }, y: Scalar { bits: y }, z: Scalar { bits: z } }
    }
}

} // verus!
