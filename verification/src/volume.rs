//! Playback volume.
//!
//! A volume is a number between 0 and 1. It travels as the bit pattern of
//! an IEEE 754 binary32 number, so that the value a caller sent is the
//! value that is stored and reported, bit for bit. This module orders bit
//! patterns as the numbers they denote and clamps them to the unit
//! interval.

use vstd::prelude::*;

verus! {

/// The sign bit of a binary32 pattern; also the pattern of -0.0.
pub const SIGN_BIT: u32 = 0x8000_0000;

/// The pattern of 0.0.
pub const ZERO_BITS: u32 = 0;

/// The pattern of 1.0.
pub const ONE_BITS: u32 = 0x3F80_0000;

/// The pattern of positive infinity: the largest magnitude that is a number.
pub const INFINITY_BITS: u32 = 0x7F80_0000;

/// The pattern with its sign bit cleared.
pub open spec fn magnitude(bits: u32) -> int {
    if bits >= SIGN_BIT {
        bits - SIGN_BIT
    } else {
        bits as int
    }
}

/// Whether the sign bit of the pattern is set.
pub open spec fn is_negative(bits: u32) -> bool {
    bits >= SIGN_BIT
}

/// Whether the pattern denotes no number (a NaN): exponent all ones and a
/// mantissa that is not zero.
pub open spec fn is_nan(bits: u32) -> bool {
    magnitude(bits) > INFINITY_BITS
}

/// The place of a pattern in the order of the numbers: for patterns `a`
/// and `b` that are numbers, `a` denotes less than `b` exactly when
/// `rank(a) < rank(b)`, and they denote equal numbers exactly when the
/// ranks are equal. Both zeros have rank 0.
pub open spec fn rank(bits: u32) -> int {
    if is_negative(bits) {
        -magnitude(bits)
    } else {
        magnitude(bits)
    }
}

/// Whether the pattern denotes a number in the closed interval from 0 to 1.
pub open spec fn in_unit_interval(bits: u32) -> bool {
    !is_nan(bits) && 0 <= rank(bits) <= ONE_BITS
}

/// The pattern clamped to the unit interval: 0.0 for what is below 0, 1.0
/// for what is above 1, and the pattern itself for what lies between.
pub open spec fn clamped(bits: u32) -> u32 {
    if rank(bits) < 0 {
        ZERO_BITS
    } else if rank(bits) > ONE_BITS {
        ONE_BITS
    } else {
        bits
    }
}

/// A volume in the unit interval.
#[derive(Clone, Copy, Debug)]
pub struct Volume {
    bits: u32,
}

impl View for Volume {
    type V = u32;

    /// The binary32 pattern of the volume.
    closed spec fn view(&self) -> u32 {
        self.bits
    }
}

impl Volume {
    /// Every volume lies in the unit interval.
    #[verifier::type_invariant]
    pub open spec fn in_range(self) -> bool {
        in_unit_interval(self@)
    }

    /// The volume 1.0, at which a source plays unattenuated.
    pub fn full() -> (v: Volume)
        ensures
            v@ == ONE_BITS,
    {
        Volume { bits: ONE_BITS }
    }

    /// The volume nearest to the requested number: the request clamped to
    /// the unit interval. A request that is not a number has no nearest
    /// volume and gives `None`.
    pub fn clamp(bits: u32) -> (r: Option<Volume>)
        ensures
            r is None <==> is_nan(bits),
            r matches Some(v) ==> v@ == clamped(bits) && in_unit_interval(v@),
    {
        let negative: bool = bits >= SIGN_BIT;
        let size: u32 = if negative {
            bits - SIGN_BIT
        } else {
            bits
        };
        if size > INFINITY_BITS {
            None
        } else if negative && size > 0 {
            Some(Volume { bits: ZERO_BITS })
        } else if !negative && size > ONE_BITS {
            Some(Volume { bits: ONE_BITS })
        } else {
            Some(Volume { bits })
        }
    }

    /// The binary32 pattern of the volume.
    pub fn bits(&self) -> (b: u32)
        ensures
            b == self@,
            in_unit_interval(b),
    {
        proof {
            use_type_invariant(self);
        }
        self.bits
    }
}

/// Clamping puts every number into the unit interval, at the place that
/// the mathematical clamp of its rank names, and leaves what is already
/// inside untouched.
pub proof fn clamp_lands_in_unit_interval(bits: u32)
    requires
        !is_nan(bits),
    ensures
        in_unit_interval(clamped(bits)),
        rank(clamped(bits)) == if rank(bits) < 0 {
            0
        } else if rank(bits) > ONE_BITS {
            ONE_BITS as int
        } else {
            rank(bits)
        },
        in_unit_interval(bits) ==> clamped(bits) == bits,
        clamped(clamped(bits)) == clamped(bits),
{
}

} // verus!
