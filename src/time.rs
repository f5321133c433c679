use vstd::prelude::*;

verus! {

/// A time in seconds, held as the bit pattern of an IEEE-754 single-precision
/// number, the form in which the service reports times.
///
/// Equality is equality of bit patterns; ordering follows the numbers that
/// the patterns denote, as the comparison operators on `f32` do.
#[derive(Clone, Copy, Debug, PartialEq, Eq, Structural)]
pub struct Seconds {
    pub bits: u32,
}

/// The pattern is one of the NaN encodings: all exponent bits set and a
/// non-zero fraction.
pub open spec fn is_nan_bits(b: u32) -> bool {
    (b & 0x7f80_0000u32) == 0x7f80_0000u32 && (b & 0x007f_ffffu32) != 0
}

/// For patterns that are not NaN, a key whose integer order is the order of
/// the numbers denoted: the magnitude bits, negated when the sign bit is set.
/// Both zeros get the key 0.
pub open spec fn order_key(b: u32) -> int {
    if (b & 0x8000_0000u32) != 0 {
        -((b & 0x7fff_ffffu32) as int)
    } else {
        (b & 0x7fff_ffffu32) as int
    }
}

fn key_of(b: u32) -> (r: i64)
    ensures
        r as int == order_key(b),
{
    let m: u32 = b & 0x7fff_ffffu32;
    assert(m <= 0x7fff_ffffu32) by (bit_vector)
        requires
            m == b & 0x7fff_ffffu32,
    ;
    if (b & 0x8000_0000u32) != 0 {
        -(m as i64)
    } else {
        m as i64
    }
}

impl Seconds {
    pub open spec fn is_nan(self) -> bool {
        is_nan_bits(self.bits)
    }

    /// `self < other` as `f32` compares: false whenever either is NaN.
    pub open spec fn spec_less_than(self, other: Seconds) -> bool {
        !self.is_nan() && !other.is_nan() && order_key(self.bits) < order_key(other.bits)
    }

    /// `self < 0.0` as `f32` compares (negative zero is not negative).
    pub open spec fn spec_is_negative(self) -> bool {
        !self.is_nan() && order_key(self.bits) < 0
    }

    pub fn from_bits(bits: u32) -> (r: Seconds)
        ensures
            r.bits == bits,
    {
        Seconds { bits }
    }

    pub fn to_bits(&self) -> (r: u32)
        ensures
            r == self.bits,
    {
        self.bits
    }

    pub fn is_nan_value(&self) -> (r: bool)
        ensures
            r == self.is_nan(),
    {
        (self.bits & 0x7f80_0000u32) == 0x7f80_0000u32 && (self.bits & 0x007f_ffffu32) != 0
    }

    pub fn less_than(&self, other: &Seconds) -> (r: bool)
        ensures
            r == self.spec_less_than(*other),
    {
        !self.is_nan_value() && !other.is_nan_value() && key_of(self.bits) < key_of(other.bits)
    }

    pub fn is_negative(&self) -> (r: bool)
        ensures
            r == self.spec_is_negative(),
    {
        !self.is_nan_value() && key_of(self.bits) < 0
    }
}

} // verus!
