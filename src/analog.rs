use vstd::prelude::*;

verus! {

/// The sign bit of an IEEE-754 binary64 value.
pub const SIGN_BIT: u64 = 0x8000_0000_0000_0000;

/// Bit pattern of positive infinity; a larger magnitude is a NaN.
pub const INFINITY_BITS: u64 = 0x7ff0_0000_0000_0000;

/// Bit pattern of 0.12: stick readings of smaller magnitude count as neutral.
pub const DEADZONE_BITS: u64 = 0x3fbe_b851_eb85_1eb8;

/// Bit pattern of 0.3: a stick beyond it in either direction counts as pushed.
pub const THRESHOLD_BITS: u64 = 0x3fd3_3333_3333_3333;

/// An analog reading, held as the bit pattern of an IEEE-754 binary64 value.
///
/// For values of one sign the order of magnitudes is the order of the bit
/// patterns with the sign bit cleared, which is what the comparisons below use.
#[derive(Clone, Copy, Debug, PartialEq, Eq)]
pub struct AxisValue {
    pub bits: u64,
}

impl AxisValue {
    /// The bit pattern of the absolute value.
    pub open spec fn magnitude(self) -> u64 {
        if self.bits >= SIGN_BIT {
            (self.bits - SIGN_BIT) as u64
        } else {
            self.bits
        }
    }

    pub open spec fn is_negative(self) -> bool {
        self.bits >= SIGN_BIT
    }

    pub open spec fn is_nan(self) -> bool {
        self.magnitude() > INFINITY_BITS
    }

    /// The value is greater than the non-negative number with bit pattern `t`.
    pub open spec fn greater_than(self, t: u64) -> bool {
        !self.is_negative() && t < self.magnitude() && !self.is_nan()
    }

    /// The value is less than the negation of the number with bit pattern `t`.
    pub open spec fn less_than_negated(self, t: u64) -> bool {
        self.is_negative() && t < self.magnitude() && !self.is_nan()
    }

    /// The absolute value is less than the number with bit pattern `t`.
    pub open spec fn magnitude_less_than(self, t: u64) -> bool {
        self.magnitude() < t
    }

    /// What the deadzone filter makes of a reading: zero when its magnitude is
    /// under 0.12, the reading itself otherwise.
    pub open spec fn filtered(self) -> AxisValue {
        if self.magnitude_less_than(DEADZONE_BITS) {
            AxisValue::zero()
        } else {
            self
        }
    }

    /// Positive zero.
    pub open spec fn zero() -> AxisValue {
        AxisValue { bits: 0 }
    }

    pub fn new_zero() -> (r: AxisValue)
        ensures
            r == AxisValue::zero(),
    {
        AxisValue { bits: 0 }
    }

    pub fn from_bits(bits: u64) -> (r: AxisValue)
        ensures
            r.bits == bits,
    {
        AxisValue { bits }
    }

    fn abs_bits(&self) -> (r: u64)
        ensures
            r == self.magnitude(),
    {
        if self.bits >= SIGN_BIT {
            self.bits - SIGN_BIT
        } else {
            self.bits
        }
    }

    /// Whether the value is greater than the number with bit pattern `t`.
    pub fn exceeds(&self, t: u64) -> (r: bool)
        ensures
            r == self.greater_than(t),
    {
        let m = self.abs_bits();
        self.bits < SIGN_BIT && t < m && m <= INFINITY_BITS
    }

    /// Whether the value is less than minus the number with bit pattern `t`.
    pub fn below_negated(&self, t: u64) -> (r: bool)
        ensures
            r == self.less_than_negated(t),
    {
        let m = self.abs_bits();
        self.bits >= SIGN_BIT && t < m && m <= INFINITY_BITS
    }

    /// Applies the deadzone: readings of magnitude under 0.12 become exactly
    /// zero, the others pass unchanged.
    pub fn deadzone(&self) -> (r: AxisValue)
        ensures
            r == self.filtered(),
    {
        if self.abs_bits() < DEADZONE_BITS {
            AxisValue { bits: 0 }
        } else {
            *self
        }
    }
}

} // verus!
