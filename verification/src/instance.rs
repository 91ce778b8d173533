//! What the driver asks of a peripheral instance.

use crate::rcc::{ClockRegister, ClockWrite, Clocks, Rcc};
use crate::registers::{RegisterBlock, RegisterFile, Write};
use crate::time::Hertz;
use vstd::prelude::*;

verus! {

/// A bus peripheral: its clock gate, its reset line, its input clock and its
/// register block.
pub trait Instance: Sized {
    /// The pin pairs that can serve this peripheral.
    type Pins;

    /// The bit of this peripheral in the clock control registers.
    spec fn clock_bit() -> u32;

    /// The register block of this peripheral.
    spec fn registers(&self) -> RegisterBlock;

    /// This peripheral with `registers` for its register block, and nothing
    /// else changed.
    spec fn with_registers(self, registers: RegisterBlock) -> Self;

    /// Replacing the register block replaces nothing else: the peripheral then
    /// has the new block, a block replaced twice is the second one, and a
    /// peripheral given its own block is unchanged.
    proof fn lemma_with_registers(self, first: RegisterBlock, second: RegisterBlock)
        ensures
            self.with_registers(first).registers() == first,
            self.with_registers(first).with_registers(second) == self.with_registers(second),
            self.with_registers(self.registers()) == self,
    ;

    /// Opens the clock gate of this peripheral.
    fn enable(rcc: &mut Rcc)
        ensures
            final(rcc).gates() == old(rcc).gates() | Self::clock_bit(),
            final(rcc).resets() == old(rcc).resets(),
            final(rcc).journal() == old(rcc).journal().push(
                ClockWrite {
                    register: ClockRegister::Apb1Enr,
                    value: old(rcc).gates() | Self::clock_bit(),
                },
            ),
    ;

    /// Pulses the reset line of this peripheral, which puts its registers back
    /// to their power-on words.
    fn reset(&mut self, rcc: &mut Rcc)
        ensures
            final(rcc).resets() == old(rcc).resets() & !Self::clock_bit(),
            final(rcc).gates() == old(rcc).gates(),
            final(rcc).journal() == old(rcc).journal() + Rcc::pulse_writes(
                old(rcc).resets(),
                Self::clock_bit(),
            ),
            final(self).registers()@ == RegisterFile::power_on(),
            final(self).registers().journal() == Seq::<Write>::empty(),
            *final(self) == old(self).with_registers(final(self).registers()),
    ;

    /// The input clock of this peripheral under the configuration `clocks`.
    fn clock(clocks: &Clocks) -> (pclk1: Hertz)
        ensures
            pclk1 == clocks.pclk1,
    ;

    /// The register block, to read.
    fn regs(&self) -> (regs: &RegisterBlock)
        ensures
            *regs == self.registers(),
    ;

    /// The register block, to write.
    fn regs_mut(&mut self) -> (regs: &mut RegisterBlock)
        ensures
            *regs == old(self).registers(),
            final(self).registers() == *final(regs),
            *final(self) == old(self).with_registers(*final(regs)),
    ;
}

/// The bit of the first I2C peripheral in the clock control registers.
pub const APB1_I2C1: u32 = 0x0020_0000;

/// The bit of the second I2C peripheral in the clock control registers.
pub const APB1_I2C2: u32 = 0x0040_0000;

/// The first I2C peripheral.
pub struct I2C1 {
    block: RegisterBlock,
}

impl I2C1 {
    /// The peripheral as it is after power-on.
    pub fn power_on() -> (i2c: I2C1)
        ensures
            i2c.registers()@ == RegisterFile::power_on(),
            i2c.registers().journal() == Seq::<Write>::empty(),
    {
        I2C1 { block: RegisterBlock::power_on() }
    }
}

impl Instance for I2C1 {
    type Pins = crate::i2c1::Pins;

    open spec fn clock_bit() -> u32 {
        APB1_I2C1
    }

    closed spec fn registers(&self) -> RegisterBlock {
        self.block
    }

    closed spec fn with_registers(self, registers: RegisterBlock) -> Self {
        I2C1 { block: registers }
    }

    proof fn lemma_with_registers(self, first: RegisterBlock, second: RegisterBlock) {
    }

    fn enable(rcc: &mut Rcc) {
        rcc.enable(APB1_I2C1);
    }

    fn reset(&mut self, rcc: &mut Rcc) {
        rcc.pulse_reset(APB1_I2C1);
        self.block.clear();
    }

    fn clock(clocks: &Clocks) -> (pclk1: Hertz) {
        clocks.pclk1()
    }

    fn regs(&self) -> (regs: &RegisterBlock) {
        &self.block
    }

    fn regs_mut(&mut self) -> (regs: &mut RegisterBlock) {
        &mut self.block
    }
}

/// The second I2C peripheral.
pub struct I2C2 {
    block: RegisterBlock,
}

impl I2C2 {
    /// The peripheral as it is after power-on.
    pub fn power_on() -> (i2c: I2C2)
        ensures
            i2c.registers()@ == RegisterFile::power_on(),
            i2c.registers().journal() == Seq::<Write>::empty(),
    {
        I2C2 { block: RegisterBlock::power_on() }
    }
}

impl Instance for I2C2 {
    type Pins = crate::i2c2::Pins;

    open spec fn clock_bit() -> u32 {
        APB1_I2C2
    }

    closed spec fn registers(&self) -> RegisterBlock {
        self.block
    }

    closed spec fn with_registers(self, registers: RegisterBlock) -> Self {
        I2C2 { block: registers }
    }

    proof fn lemma_with_registers(self, first: RegisterBlock, second: RegisterBlock) {
    }

    fn enable(rcc: &mut Rcc) {
        rcc.enable(APB1_I2C2);
    }

    fn reset(&mut self, rcc: &mut Rcc) {
        rcc.pulse_reset(APB1_I2C2);
        self.block.clear();
    }

    fn clock(clocks: &Clocks) -> (pclk1: Hertz) {
        clocks.pclk1()
    }

    fn regs(&self) -> (regs: &RegisterBlock) {
        &self.block
    }

    fn regs_mut(&mut self) -> (regs: &mut RegisterBlock) {
        &mut self.block
    }
}

} // verus!
