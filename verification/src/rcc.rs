//! The clock subsystem, as far as the bus peripherals need it.

use crate::time::Hertz;
use vstd::prelude::*;

verus! {

/// The clock control registers of the peripheral bus that the I2C peripherals
/// sit on. Each peripheral has one bit in either.
#[derive(Clone, Copy, Debug, PartialEq, Eq, Structural)]
pub enum ClockRegister {
    /// Clock gates: a peripheral is clocked while its bit is set.
    Apb1Enr,
    /// Reset lines: a peripheral is held in reset while its bit is set.
    Apb1Rstr,
}

/// One write to a clock control register, as the journal records it.
pub struct ClockWrite {
    /// The register written to.
    pub register: ClockRegister,
    /// The word written.
    pub value: u32,
}

/// The clock control registers, and the history of writes to them.
pub struct Rcc {
    apb1enr: u32,
    apb1rstr: u32,
    journal: Ghost<Seq<ClockWrite>>,
}

impl Rcc {
    /// The word of the clock gates.
    pub closed spec fn gates(&self) -> u32 {
        self.apb1enr
    }

    /// The word of the reset lines.
    pub closed spec fn resets(&self) -> u32 {
        self.apb1rstr
    }

    /// Every write made so far, oldest first.
    pub closed spec fn journal(&self) -> Seq<ClockWrite> {
        self.journal@
    }

    /// The writes of a pulse on the reset lines selected by `bits`, when the
    /// word of the reset lines is `resets` before: the lines are asserted,
    /// then let go.
    pub open spec fn pulse_writes(resets: u32, bits: u32) -> Seq<ClockWrite> {
        seq![
            ClockWrite { register: ClockRegister::Apb1Rstr, value: resets | bits },
            ClockWrite { register: ClockRegister::Apb1Rstr, value: resets & !bits },
        ]
    }

    /// The clock control registers after power-on: every gate closed, no
    /// peripheral held in reset, nothing written yet.
    pub fn power_on() -> (rcc: Rcc)
        ensures
            rcc.gates() == 0,
            rcc.resets() == 0,
            rcc.journal() == Seq::<ClockWrite>::empty(),
    {
        Rcc { apb1enr: 0, apb1rstr: 0, journal: Ghost(Seq::empty()) }
    }

    /// The word of the clock gates.
    pub fn apb1enr(&self) -> (word: u32)
        ensures
            word == self.gates(),
    {
        self.apb1enr
    }

    /// The word of the reset lines.
    pub fn apb1rstr(&self) -> (word: u32)
        ensures
            word == self.resets(),
    {
        self.apb1rstr
    }

    /// Opens the clock gates selected by `bits` and keeps the others.
    pub fn enable(&mut self, bits: u32)
        ensures
            final(self).gates() == old(self).gates() | bits,
            final(self).resets() == old(self).resets(),
            final(self).journal() == old(self).journal().push(
                ClockWrite { register: ClockRegister::Apb1Enr, value: old(self).gates() | bits },
            ),
    {
        let word: u32 = self.apb1enr | bits;
        self.apb1enr = word;
        proof {
            self.journal@ = self.journal@.push(
                ClockWrite { register: ClockRegister::Apb1Enr, value: word },
            );
        }
    }

    /// Asserts the reset lines selected by `bits` and keeps the others.
    pub fn assert_reset(&mut self, bits: u32)
        ensures
            final(self).resets() == old(self).resets() | bits,
            final(self).gates() == old(self).gates(),
            final(self).journal() == old(self).journal().push(
                ClockWrite { register: ClockRegister::Apb1Rstr, value: old(self).resets() | bits },
            ),
    {
        let word: u32 = self.apb1rstr | bits;
        self.apb1rstr = word;
        proof {
            self.journal@ = self.journal@.push(
                ClockWrite { register: ClockRegister::Apb1Rstr, value: word },
            );
        }
    }

    /// Lets the reset lines selected by `bits` go and keeps the others.
    pub fn release_reset(&mut self, bits: u32)
        ensures
            final(self).resets() == old(self).resets() & !bits,
            final(self).gates() == old(self).gates(),
            final(self).journal() == old(self).journal().push(
                ClockWrite {
                    register: ClockRegister::Apb1Rstr,
                    value: old(self).resets() & !bits,
                },
            ),
    {
        let word: u32 = self.apb1rstr & !bits;
        self.apb1rstr = word;
        proof {
            self.journal@ = self.journal@.push(
                ClockWrite { register: ClockRegister::Apb1Rstr, value: word },
            );
        }
    }

    /// Pulses the reset lines selected by `bits`: asserts them, then lets
    /// them go again.
    pub fn pulse_reset(&mut self, bits: u32)
        ensures
            final(self).resets() == old(self).resets() & !bits,
            final(self).gates() == old(self).gates(),
            final(self).journal() == old(self).journal() + Self::pulse_writes(
                old(self).resets(),
                bits,
            ),
    {
        let ghost before: u32 = self.apb1rstr;
        self.assert_reset(bits);
        self.release_reset(bits);
        assert((before | bits) & !bits == before & !bits) by (bit_vector);
    }
}

/// The frozen clock configuration.
#[derive(Clone, Copy, Debug, PartialEq, Eq, Structural)]
pub struct Clocks {
    /// The clock of the peripheral bus that the I2C peripherals sit on.
    pub pclk1: Hertz,
}

impl Clocks {
    /// A clock configuration in which the peripheral bus runs at `pclk1`.
    pub fn new(pclk1: Hertz) -> (clocks: Clocks)
        ensures
            clocks.pclk1 == pclk1,
    {
        Clocks { pclk1 }
    }

    /// The clock of the peripheral bus.
    pub fn pclk1(&self) -> (pclk1: Hertz)
        ensures
            pclk1 == self.pclk1,
    {
        self.pclk1
    }
}

} // verus!
