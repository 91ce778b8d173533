//! The driver: bringing a peripheral up, resetting it, and the three bus
//! primitives.

pub use crate::error::Error;
pub use crate::i2c1;
pub use crate::i2c2;
pub use crate::instance::Instance;
use crate::lifecycle::{armed, configured, init_writes, reset_writes};
pub use crate::mode::{DutyCycle, Mode};
use crate::rcc::{ClockRegister, ClockWrite, Clocks, Rcc};
use crate::registers::{
    Register, RegisterBlock, RegisterFile, Write, CR1_PE, CR1_START, CR1_STOP, CR1_SWRST,
};
use crate::time::Hertz;
use crate::timing::Timing;
use vstd::prelude::*;

verus! {

/// The byte of an address frame: the 7-bit address in bits 7 to 1, and bit 0
/// set for a read, clear for a write. Bit 7 of `addr` is shifted out.
pub open spec fn address_frame(addr: u8, read: bool) -> u8 {
    ((2 * addr as int) % 256 + (if read {
        1int
    } else {
        0int
    })) as u8
}

/// An I2C peripheral operating in master mode, together with the pins it is
/// bound to.
pub struct I2c<I2C: Instance> {
    i2c: I2C,
    pins: I2C::Pins,
    mode: Mode,
    pclk1: Hertz,
}

impl<I2C: Instance> I2c<I2C> {
    /// The peripheral that the driver owns.
    pub closed spec fn instance(&self) -> I2C {
        self.i2c
    }

    /// The pins that the driver owns.
    pub closed spec fn pins(&self) -> I2C::Pins {
        self.pins
    }

    /// The mode that the driver was made for.
    pub closed spec fn mode(&self) -> Mode {
        self.mode
    }

    /// The input clock that the driver was made for.
    pub closed spec fn pclk1(&self) -> Hertz {
        self.pclk1
    }

    /// The register block of the peripheral.
    pub open spec fn registers(&self) -> RegisterBlock {
        self.instance().registers()
    }

    /// What holds of a driver between any two operations: its mode is one that
    /// the peripheral can serve, and the peripheral is configured for it and
    /// enabled.
    pub open spec fn inv(&self) -> bool {
        &&& self.mode().supported()
        &&& configured(self.registers()@, self.pclk1(), self.mode())
    }

    /// Takes the peripheral and its pins, and brings the peripheral up.
    ///
    /// The clock gate of the peripheral is opened and its reset line pulsed,
    /// the input clock is read from `clocks`, and the peripheral is
    /// initialized for `mode`. The bit rate of `mode` must be one that the
    /// peripheral can generate.
    pub fn new(i2c: I2C, pins: I2C::Pins, mode: Mode, clocks: Clocks, rcc: &mut Rcc) -> (driver:
        Self)
        requires
            mode.supported(),
        ensures
            driver.inv(),
            driver.instance() == i2c.with_registers(driver.registers()),
            driver.pins() == pins,
            driver.mode() == mode,
            driver.pclk1() == clocks.pclk1,
            driver.registers()@ == armed(clocks.pclk1, mode),
            driver.registers().journal() == init_writes(
                false,
                Timing::spec_compute(clocks.pclk1, mode),
            ),
            final(rcc).gates() == old(rcc).gates() | I2C::clock_bit(),
            final(rcc).resets() == old(rcc).resets() & !I2C::clock_bit(),
            final(rcc).journal() == old(rcc).journal().push(
                ClockWrite {
                    register: ClockRegister::Apb1Enr,
                    value: old(rcc).gates() | I2C::clock_bit(),
                },
            ) + Rcc::pulse_writes(old(rcc).resets(), I2C::clock_bit()),
    {
        let ghost given = i2c;
        let mut i2c = i2c;
        I2C::enable(rcc);
        i2c.reset(rcc);
        let pclk1 = I2C::clock(&clocks);
        let mut driver = I2c { i2c, pins, mode, pclk1 };
        assert(0u16 & CR1_PE == 0) by (bit_vector);
        let ghost cleared = driver.registers();
        driver.init();
        proof {
            given.lemma_with_registers(cleared, driver.registers());
        }
        driver
    }

    /// Initializes the peripheral for the mode and the input clock of the
    /// driver, whatever its registers held before.
    ///
    /// The peripheral is disabled first and enabled last, so that it is
    /// disabled whenever a timing register is written.
    fn init(&mut self)
        requires
            old(self).mode().supported(),
        ensures
            final(self).inv(),
            final(self).registers()@ == (RegisterFile {
                dr: old(self).registers()@.dr,
                ..armed(old(self).pclk1(), old(self).mode())
            }),
            final(self).registers().journal() == old(self).registers().journal() + init_writes(
                old(self).registers()@.enabled(),
                Timing::spec_compute(old(self).pclk1(), old(self).mode()),
            ),
            final(self).instance() == old(self).instance().with_registers(
                final(self).registers(),
            ),
            final(self).pins() == old(self).pins(),
            final(self).mode() == old(self).mode(),
            final(self).pclk1() == old(self).pclk1(),
    {
        let timing = Timing::compute(self.pclk1, &self.mode);
        let cr2: u16 = timing.cr2_word();
        let trise: u16 = timing.trise_word();
        let ccr: u16 = timing.ccr_word();
        assert(0u16 & CR1_SWRST == 0 && 0u16 & CR1_PE == 0 && 0u16 | CR1_PE == CR1_PE && CR1_PE
            & CR1_SWRST == 0 && CR1_PE & CR1_PE != 0) by (bit_vector);
        let regs = self.i2c.regs_mut();
        regs.write(Register::Cr1, 0);
        regs.write(Register::Cr2, cr2);
        regs.write(Register::Trise, trise);
        regs.write(Register::Ccr, ccr);
        regs.set_bits(Register::Cr1, CR1_PE);
        assert(self.registers().journal() =~= old(self).registers().journal() + init_writes(
            old(self).registers()@.enabled(),
            timing,
        ));
    }

    /// Resets the peripheral by software and initializes it again.
    ///
    /// Afterwards the registers hold what they held when the driver was made:
    /// a second reset changes nothing more.
    pub fn reset(&mut self)
        requires
            old(self).inv(),
        ensures
            final(self).inv(),
            final(self).registers()@ == armed(old(self).pclk1(), old(self).mode()),
            final(self).registers().journal() == old(self).registers().journal() + reset_writes(
                Timing::spec_compute(old(self).pclk1(), old(self).mode()),
            ),
            final(self).instance() == old(self).instance().with_registers(
                final(self).registers(),
            ),
            final(self).pins() == old(self).pins(),
            final(self).mode() == old(self).mode(),
            final(self).pclk1() == old(self).pclk1(),
    {
        assert((CR1_PE | CR1_SWRST) & CR1_SWRST != 0 && (CR1_PE | CR1_SWRST) & CR1_PE != 0 && 0u16
            & CR1_SWRST == 0 && 0u16 & CR1_PE == 0) by (bit_vector);
        let regs = self.i2c.regs_mut();
        regs.write(Register::Cr1, CR1_PE | CR1_SWRST);
        regs.write(Register::Cr1, 0);
        let ghost cleared = self.registers();
        self.init();
        proof {
            old(self).instance().lemma_with_registers(cleared, self.registers());
        }
        assert(self.registers().journal() =~= old(self).registers().journal() + reset_writes(
            Timing::spec_compute(old(self).pclk1(), old(self).mode()),
        ));
    }

    /// Asks the peripheral to generate a start condition.
    pub fn send_start(&mut self)
        requires
            old(self).inv(),
        ensures
            final(self).inv(),
            final(self).registers()@ == (RegisterFile {
                cr1: old(self).registers()@.cr1 | CR1_START,
                ..old(self).registers()@
            }),
            final(self).registers()@.start_requested(),
            final(self).registers().journal() == old(self).registers().journal().push(
                Write {
                    register: Register::Cr1,
                    value: old(self).registers()@.cr1 | CR1_START,
                    enabled: true,
                },
            ),
            final(self).instance() == old(self).instance().with_registers(
                final(self).registers(),
            ),
            final(self).pins() == old(self).pins(),
            final(self).mode() == old(self).mode(),
            final(self).pclk1() == old(self).pclk1(),
    {
        let ghost cr1: u16 = self.registers()@.cr1;
        assert((cr1 | CR1_START) & CR1_SWRST == 0 && (cr1 | CR1_START) & CR1_PE != 0 && (cr1
            | CR1_START) & CR1_START != 0) by (bit_vector)
            requires
                cr1 & CR1_SWRST == 0,
                cr1 & CR1_PE != 0,
        ;
        self.i2c.regs_mut().set_bits(Register::Cr1, CR1_START);
    }

    /// Puts the address frame for the 7-bit address `addr` into the data
    /// register: a read of the addressed device if `read`, a write to it
    /// otherwise.
    pub fn send_addr(&mut self, addr: u8, read: bool)
        requires
            old(self).inv(),
        ensures
            final(self).inv(),
            final(self).registers()@ == (RegisterFile {
                dr: address_frame(addr, read) as u16,
                ..old(self).registers()@
            }),
            final(self).registers().journal() == old(self).registers().journal().push(
                Write {
                    register: Register::Dr,
                    value: address_frame(addr, read) as u16,
                    enabled: true,
                },
            ),
            final(self).instance() == old(self).instance().with_registers(
                final(self).registers(),
            ),
            final(self).pins() == old(self).pins(),
            final(self).mode() == old(self).mode(),
            final(self).pclk1() == old(self).pclk1(),
    {
        let direction: u8 = if read {
            1
        } else {
            0
        };
        let frame: u8 = (addr << 1) | direction;
        assert(((addr << 1) | direction) == (2 * addr) % 256 + direction) by (bit_vector)
            requires
                direction <= 1,
        ;
        self.i2c.regs_mut().write(Register::Dr, frame as u16);
    }

    /// Asks the peripheral to generate a stop condition.
    pub fn send_stop(&mut self)
        requires
            old(self).inv(),
        ensures
            final(self).inv(),
            final(self).registers()@ == (RegisterFile {
                cr1: old(self).registers()@.cr1 | CR1_STOP,
                ..old(self).registers()@
            }),
            final(self).registers()@.stop_requested(),
            final(self).registers().journal() == old(self).registers().journal().push(
                Write {
                    register: Register::Cr1,
                    value: old(self).registers()@.cr1 | CR1_STOP,
                    enabled: true,
                },
            ),
            final(self).instance() == old(self).instance().with_registers(
                final(self).registers(),
            ),
            final(self).pins() == old(self).pins(),
            final(self).mode() == old(self).mode(),
            final(self).pclk1() == old(self).pclk1(),
    {
        let ghost cr1: u16 = self.registers()@.cr1;
        assert((cr1 | CR1_STOP) & CR1_SWRST == 0 && (cr1 | CR1_STOP) & CR1_PE != 0 && (cr1
            | CR1_STOP) & CR1_STOP != 0) by (bit_vector)
            requires
                cr1 & CR1_SWRST == 0,
                cr1 & CR1_PE != 0,
        ;
        self.i2c.regs_mut().set_bits(Register::Cr1, CR1_STOP);
    }

    /// The register block of the peripheral, to read.
    pub fn regs(&self) -> (regs: &RegisterBlock)
        ensures
            *regs == self.registers(),
    {
        self.i2c.regs()
    }

    /// Gives the peripheral and the pins back. No register is touched.
    pub fn release(self) -> (parts: (I2C, I2C::Pins))
        ensures
            parts.0 == self.instance(),
            parts.1 == self.pins(),
    {
        (self.i2c, self.pins)
    }
}

} // verus!
