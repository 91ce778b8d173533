//! The choice between the pin pairs of a peripheral.

use vstd::prelude::*;

verus! {

/// Remap register: the first I2C peripheral uses its second pin pair.
pub const MAPR_I2C1_REMAP: u32 = 0x0000_0002;

/// The remap register.
pub struct Mapr {
    /// The word that the register holds.
    pub bits: u32,
}

impl Mapr {
    /// The remap register after power-on: every peripheral on its first pins.
    pub fn power_on() -> (mapr: Mapr)
        ensures
            mapr.bits == 0,
    {
        Mapr { bits: 0 }
    }

    /// The word after the pin pair of the first I2C peripheral is chosen:
    /// the remap bit set for the second pair, clear for the first, every
    /// other bit kept.
    pub open spec fn with_i2c1_remap(bits: u32, remap: bool) -> u32 {
        if remap {
            bits | MAPR_I2C1_REMAP
        } else {
            bits & !MAPR_I2C1_REMAP
        }
    }

    /// Chooses the pin pair of the first I2C peripheral.
    pub fn set_i2c1_remap(&mut self, remap: bool)
        ensures
            final(self).bits == Self::with_i2c1_remap(old(self).bits, remap),
    {
        if remap {
            self.bits = self.bits | MAPR_I2C1_REMAP;
        } else {
            self.bits = self.bits & !MAPR_I2C1_REMAP;
        }
    }
}

} // verus!
