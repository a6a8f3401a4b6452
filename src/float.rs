use vstd::prelude::*;

verus! {

/// Largest magnitude (sign bit cleared) of a double that is not a NaN: the
/// bits of positive infinity.
pub const INFINITY_MAGNITUDE: u64 = 0x7ff0_0000_0000_0000;

/// The sign bit of an IEEE-754 binary64 value.
pub const SIGN_BIT: u64 = 0x8000_0000_0000_0000;

/// An IEEE-754 binary64 number, held as its bit pattern.
#[derive(Clone, Copy, Debug)]
pub struct Float {
    pub bits: u64,
}

/// The bits without the sign bit.
pub open spec fn magnitude(bits: u64) -> int {
    bits as int % (SIGN_BIT as int)
}

pub open spec fn is_negative(bits: u64) -> bool {
    bits as int >= SIGN_BIT as int
}

pub open spec fn is_nan(bits: u64) -> bool {
    magnitude(bits) > INFINITY_MAGNITUDE as int
}

/// Position of a non-NaN double on the number line. Among non-negative doubles
/// a larger magnitude is a larger number, negative doubles mirror them, and the
/// two zeros share position zero.
pub open spec fn ordinal(bits: u64) -> int {
    if is_negative(bits) {
        -magnitude(bits)
    } else {
        magnitude(bits)
    }
}

/// `a <= b` as IEEE-754 compares: false whenever either side is a NaN.
pub open spec fn float_le(a: u64, b: u64) -> bool {
    !is_nan(a) && !is_nan(b) && ordinal(a) <= ordinal(b)
}

/// `a < b` as IEEE-754 compares: false whenever either side is a NaN.
pub open spec fn float_lt(a: u64, b: u64) -> bool {
    !is_nan(a) && !is_nan(b) && ordinal(a) < ordinal(b)
}

impl Float {
    pub fn from_bits(bits: u64) -> (r: Float)
        ensures
            r.bits == bits,
    {
        Float { bits }
    }

    pub fn to_bits(&self) -> (r: u64)
        ensures
            r == self.bits,
    {
        self.bits
    }

    pub fn is_nan(&self) -> (r: bool)
        ensures
            r == is_nan(self.bits),
    {
        self.bits % SIGN_BIT > INFINITY_MAGNITUDE
    }

    fn ordinal(&self) -> (r: i64)
        ensures
            r == ordinal(self.bits),
    {
        let m: u64 = self.bits % SIGN_BIT;
        if self.bits >= SIGN_BIT {
            -(m as i64)
        } else {
            m as i64
        }
    }

    /// IEEE-754 `self <= other`.
    pub fn le(&self, other: &Float) -> (r: bool)
        ensures
            r == float_le(self.bits, other.bits),
    {
        !self.is_nan() && !other.is_nan() && self.ordinal() <= other.ordinal()
    }

    /// IEEE-754 `self < other`.
    pub fn lt(&self, other: &Float) -> (r: bool)
        ensures
            r == float_lt(self.bits, other.bits),
    {
        !self.is_nan() && !other.is_nan() && self.ordinal() < other.ordinal()
    }
}

} // verus!
