//! IEEE-754 binary64 values carried by their bit pattern.
//!
//! Prices, sizes and quantities of the telemetry contract are doubles. The
//! library never does arithmetic on them; it only compares them, and those
//! comparisons follow IEEE-754 exactly: every comparison with a NaN is
//! false, `-0.0` equals `+0.0`, and the infinities bound the finite values.

use vstd::prelude::*;

verus! {

/// The sign bit of a binary64 bit pattern.
pub const SIGN_BIT: u64 = 0x8000_0000_0000_0000;

/// The bit pattern of positive infinity; larger magnitudes are NaNs.
pub const INFINITY_BITS: u64 = 0x7FF0_0000_0000_0000;

/// A double, held as the 64 bits of its IEEE-754 encoding.
#[derive(Clone, Copy, Debug, PartialEq, Eq, Structural)]
pub struct Ieee64 {
    pub bits: u64,
}

impl Ieee64 {
    /// `+0.0`.
    pub open spec fn spec_zero() -> Ieee64 {
        Ieee64 { bits: 0 }
    }

    /// Whether the sign bit is set.
    pub open spec fn is_negative_spec(self) -> bool {
        self.bits >= SIGN_BIT
    }

    /// The encoding without its sign bit.
    pub open spec fn magnitude(self) -> int {
        if self.is_negative_spec() {
            self.bits - SIGN_BIT
        } else {
            self.bits as int
        }
    }

    /// A NaN has an all-ones exponent and a non-zero fraction.
    pub open spec fn is_nan_spec(self) -> bool {
        self.magnitude() > INFINITY_BITS
    }

    /// For values that are not NaN, the position on the extended real line:
    /// the order of these keys is the numeric order of the doubles, and
    /// `+0.0` and `-0.0` share the key 0.
    pub open spec fn order_key(self) -> int {
        if self.is_negative_spec() {
            -self.magnitude()
        } else {
            self.magnitude()
        }
    }

    /// IEEE `self < other`.
    pub open spec fn spec_lt(self, other: Ieee64) -> bool {
        !self.is_nan_spec() && !other.is_nan_spec() && self.order_key() < other.order_key()
    }

    /// IEEE `self <= other`.
    pub open spec fn spec_le(self, other: Ieee64) -> bool {
        !self.is_nan_spec() && !other.is_nan_spec() && self.order_key() <= other.order_key()
    }

    /// `+0.0`.
    pub fn zero() -> (z: Ieee64)
        ensures
            z == Ieee64::spec_zero(),
    {
        Ieee64 { bits: 0 }
    }

    /// The double whose encoding is `bits`.
    pub fn from_bits(bits: u64) -> (v: Ieee64)
        ensures
            v.bits == bits,
    {
        Ieee64 { bits }
    }

    /// Whether this double is a NaN.
    pub fn is_nan(&self) -> (r: bool)
        ensures
            r == self.is_nan_spec(),
    {
        let mag = if self.bits >= SIGN_BIT {
            self.bits - SIGN_BIT
        } else {
            self.bits
        };
        mag > INFINITY_BITS
    }

    /// IEEE `self < other`.
    pub fn less_than(&self, other: &Ieee64) -> (r: bool)
        ensures
            r == self.spec_lt(*other),
    {
        if self.is_nan() || other.is_nan() {
            return false;
        }
        let a_neg = self.bits >= SIGN_BIT;
        let b_neg = other.bits >= SIGN_BIT;
        let a_mag = if a_neg { self.bits - SIGN_BIT } else { self.bits };
        let b_mag = if b_neg { other.bits - SIGN_BIT } else { other.bits };
        if a_neg && b_neg {
            b_mag < a_mag
        } else if a_neg {
            // a <= -0, b >= +0: a < b unless both are zero
            a_mag != 0 || b_mag != 0
        } else if b_neg {
            false
        } else {
            a_mag < b_mag
        }
    }

    /// IEEE `self <= other`.
    pub fn at_most(&self, other: &Ieee64) -> (r: bool)
        ensures
            r == self.spec_le(*other),
    {
        if self.is_nan() || other.is_nan() {
            return false;
        }
        let a_neg = self.bits >= SIGN_BIT;
        let b_neg = other.bits >= SIGN_BIT;
        let a_mag = if a_neg { self.bits - SIGN_BIT } else { self.bits };
        let b_mag = if b_neg { other.bits - SIGN_BIT } else { other.bits };
        if a_neg && b_neg {
            b_mag <= a_mag
        } else if a_neg {
            true
        } else if b_neg {
            a_mag == 0 && b_mag == 0
        } else {
            a_mag <= b_mag
        }
    }
}

} // verus!
