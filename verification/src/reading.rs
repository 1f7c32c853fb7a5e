use vstd::prelude::*;

verus! {

/// One sensor reading, carried as the bit pattern of the 64-bit value that
/// the hardware interface reports upward.
///
/// The adapter never computes on a reading: it only forwards it, so the
/// carrier is the exact IEEE-754 bit pattern and every contract can state
/// bit-for-bit equality between a driver sample and a response field. The
/// surrounding hardware code widens the driver's 32-bit sample to 64 bits
/// (an exact conversion) and takes its bits; the all-clear pattern is the
/// encoding of zero.
#[derive(Clone, Copy, Debug, PartialEq, Eq, Structural)]
pub struct Reading {
    pub bits: u64,
}

impl Reading {
    /// The reading that stands for zero: the all-clear bit pattern.
    pub open spec fn spec_zero() -> Reading {
        Reading { bits: 0 }
    }

    /// Builds the zero reading used for sensor axes the adapter does not wire up.
    pub fn zero() -> (r: Reading)
        ensures
            r == Self::spec_zero(),
    {
        Reading { bits: 0 }
    }
}

} // verus!
