use vstd::prelude::*;

verus! {

/// Bit pattern of `+0.0`.
pub const ZERO_BITS: u32 = 0x0000_0000;

/// Bit pattern of `1.0`.
pub const ONE_BITS: u32 = 0x3f80_0000;

/// Bit pattern of `2.0`.
pub const TWO_BITS: u32 = 0x4000_0000;

/// Bit pattern of a positive infinity; larger magnitudes are NaNs.
pub const INFINITY_BITS: u32 = 0x7f80_0000;

/// The sign bit.
pub const SIGN_BIT: u32 = 0x8000_0000;

/// A single-precision number, held as its IEEE 754 bit pattern.
///
/// `==` compares bit patterns; numeric comparison is `lt`.
#[derive(Debug, Clone, Copy, PartialEq, Eq, Structural)]
pub struct Float32 {
    pub bits: u32,
}

/// The number with bit pattern `bits`.
pub open spec fn f32_of(bits: u32) -> Float32 {
    Float32 { bits }
}

impl Float32 {
    /// The magnitude: every bit but the sign.
    pub open spec fn magnitude(self) -> int {
        (self.bits % SIGN_BIT) as int
    }

    pub open spec fn is_negative_signed(self) -> bool {
        self.bits >= SIGN_BIT
    }

    pub open spec fn is_nan(self) -> bool {
        self.magnitude() > INFINITY_BITS
    }

    /// An integer that orders non-NaN values as the numbers they stand for:
    /// the magnitude, negated for a set sign bit (both zeros map to 0).
    pub open spec fn order_key(self) -> int {
        if self.is_negative_signed() {
            -self.magnitude()
        } else {
            self.magnitude()
        }
    }

    /// `self < other` as IEEE 754 numbers: false whenever a NaN takes part.
    pub open spec fn spec_lt(self, other: Float32) -> bool {
        !self.is_nan() && !other.is_nan() && self.order_key() < other.order_key()
    }

    /// `self` lies in `[lo, hi]`: it is no NaN and neither below `lo` nor
    /// above `hi`.
    pub open spec fn within(self, lo: Float32, hi: Float32) -> bool {
        !self.is_nan() && !self.spec_lt(lo) && !hi.spec_lt(self)
    }

    /// `self` limited to `[lo, hi]`: `lo` below it or for a NaN, `hi` above
    /// it, else itself.
    pub open spec fn clamp_spec(self, lo: Float32, hi: Float32) -> Float32 {
        if self.is_nan() || self.spec_lt(lo) {
            lo
        } else if hi.spec_lt(self) {
            hi
        } else {
            self
        }
    }

    pub fn from_bits(bits: u32) -> (r: Float32)
        ensures
            r.bits == bits,
    {
        Float32 { bits }
    }

    pub fn to_bits(&self) -> (r: u32)
        ensures
            r == self.bits,
    {
        self.bits
    }

    pub fn is_nan_exec(&self) -> (r: bool)
        ensures
            r == self.is_nan(),
    {
        self.bits % SIGN_BIT > INFINITY_BITS
    }

    fn order_key_exec(&self) -> (r: i64)
        ensures
            r == self.order_key(),
    {
        let m: u32 = self.bits % SIGN_BIT;
        if self.bits >= SIGN_BIT {
            -(m as i64)
        } else {
            m as i64
        }
    }

    /// Numeric `<`, as `f32`'s `<` decides it.
    pub fn lt(&self, other: &Float32) -> (r: bool)
        ensures
            r == self.spec_lt(*other),
    {
        !self.is_nan_exec() && !other.is_nan_exec() && self.order_key_exec()
            < other.order_key_exec()
    }

    /// `self` limited to `[lo, hi]`, as `clamp_spec` says; the result lies
    /// in the range.
    pub fn clamp_to(&self, lo: Float32, hi: Float32) -> (r: Float32)
        requires
            !lo.is_nan(),
            !hi.is_nan(),
            !hi.spec_lt(lo),
        ensures
            r == self.clamp_spec(lo, hi),
            r.within(lo, hi),
    {
        if self.is_nan_exec() || self.lt(&lo) {
            lo
        } else if hi.lt(self) {
            hi
        } else {
            *self
        }
    }
}

/// A double-precision number, held as its IEEE 754 bit pattern.
#[derive(Debug, Clone, Copy, PartialEq, Eq, Structural)]
pub struct Float64 {
    pub bits: u64,
}

impl Float64 {
    pub fn from_bits(bits: u64) -> (r: Float64)
        ensures
            r.bits == bits,
    {
        Float64 { bits }
    }

    pub fn to_bits(&self) -> (r: u64)
        ensures
            r == self.bits,
    {
        self.bits
    }
}

} // verus!
