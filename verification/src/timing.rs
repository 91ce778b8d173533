//! From input clock and mode to the timing quantities of the peripheral.

use crate::mode::{DutyCycle, Mode, FAST_MODE_MAX, STANDARD_MODE_MAX};
use crate::registers::{CCR_CCR, CCR_DUTY, CCR_FS, CR2_FREQ, TRISE_TRISE};
use crate::time::Hertz;
use vstd::math::max;
use vstd::prelude::*;

verus! {

/// The smallest clock-control divisor that standard mode admits.
pub const STANDARD_DIVISOR_MIN: u32 = 4;

/// The smallest clock-control divisor that fast mode admits.
pub const FAST_DIVISOR_MIN: u32 = 1;

/// The timing quantities that the peripheral is programmed with.
#[derive(Clone, Copy, Debug, PartialEq, Eq, Structural)]
pub struct Timing {
    /// The input clock in whole megahertz.
    pub input_clock_mhz: u32,
    /// The longest rise time of a bus line, counted in input clock periods.
    pub rise_time: u32,
    /// The number of input clock periods in one phase unit of the bus clock.
    pub divisor: u32,
    /// Whether the 16:9 duty cycle is selected.
    pub duty: bool,
    /// Whether fast mode is selected.
    pub fast_mode: bool,
}

impl Timing {
    /// The input clock in whole megahertz.
    pub open spec fn spec_input_clock_mhz(pclk1: Hertz) -> int {
        pclk1.raw as int / 1_000_000
    }

    /// The rise time: one period more than a microsecond's worth of input
    /// clock in standard mode, one more than 300 ns worth in fast mode.
    pub open spec fn spec_rise_time(pclk1: Hertz, mode: Mode) -> int {
        match mode {
            Mode::Standard { .. } => Self::spec_input_clock_mhz(pclk1) + 1,
            Mode::Fast { .. } => Self::spec_input_clock_mhz(pclk1) * 300 / 1000 + 1,
        }
    }

    /// The clock-control divisor: the input clock divided by twice the bit
    /// rate in standard mode, by 3 times the bit rate with the 2:1 duty cycle,
    /// by 25 times the bit rate with the 16:9 duty cycle; rounded down, and no
    /// less than 4 in standard mode and 1 in fast mode.
    pub open spec fn spec_divisor(pclk1: Hertz, mode: Mode) -> int {
        match mode {
            Mode::Standard { frequency } => max(
                STANDARD_DIVISOR_MIN as int,
                pclk1.raw as int / (2 * frequency.raw as int),
            ),
            Mode::Fast { frequency, duty_cycle: DutyCycle::Ratio2to1 } => max(
                FAST_DIVISOR_MIN as int,
                pclk1.raw as int / (3 * frequency.raw as int),
            ),
            Mode::Fast { frequency, duty_cycle: DutyCycle::Ratio16to9 } => max(
                FAST_DIVISOR_MIN as int,
                pclk1.raw as int / (25 * frequency.raw as int),
            ),
        }
    }

    /// The timing quantities for an input clock and a mode.
    pub open spec fn spec_compute(pclk1: Hertz, mode: Mode) -> Timing {
        Timing {
            input_clock_mhz: Self::spec_input_clock_mhz(pclk1) as u32,
            rise_time: Self::spec_rise_time(pclk1, mode) as u32,
            divisor: Self::spec_divisor(pclk1, mode) as u32,
            duty: mode matches Mode::Fast { duty_cycle: DutyCycle::Ratio16to9, .. },
            fast_mode: mode is Fast,
        }
    }

    /// Computes the timing quantities for the input clock `pclk1` and `mode`.
    ///
    /// Every division rounds down. The result is exact: no quantity is cut to
    /// the width of a register field here. The bit rate of `mode` must not be
    /// zero.
    pub fn compute(pclk1: Hertz, mode: &Mode) -> (timing: Timing)
        requires
            mode.frequency().raw > 0,
        ensures
            timing == Self::spec_compute(pclk1, *mode),
            timing.input_clock_mhz == Self::spec_input_clock_mhz(pclk1),
            timing.rise_time == Self::spec_rise_time(pclk1, *mode),
            timing.divisor == Self::spec_divisor(pclk1, *mode),
    {
        let input_clock_mhz: u32 = pclk1.to_MHz();
        let frequency: u64 = mode.get_frequency().raw() as u64;
        let clock: u64 = pclk1.raw() as u64;
        match *mode {
            Mode::Standard { .. } => {
                let quotient: u32 = Self::quotient(clock, 2 * frequency);
                Timing {
                    input_clock_mhz,
                    rise_time: input_clock_mhz + 1,
                    divisor: if quotient < STANDARD_DIVISOR_MIN {
                        STANDARD_DIVISOR_MIN
                    } else {
                        quotient
                    },
                    duty: false,
                    fast_mode: false,
                }
            },
            Mode::Fast { duty_cycle, .. } => {
                let (quotient, duty): (u32, bool) = match duty_cycle {
                    DutyCycle::Ratio2to1 => (Self::quotient(clock, 3 * frequency), false),
                    DutyCycle::Ratio16to9 => (Self::quotient(clock, 25 * frequency), true),
                };
                Timing {
                    input_clock_mhz,
                    rise_time: input_clock_mhz * 300 / 1000 + 1,
                    divisor: if quotient < FAST_DIVISOR_MIN {
                        FAST_DIVISOR_MIN
                    } else {
                        quotient
                    },
                    duty,
                    fast_mode: true,
                }
            },
        }
    }

    /// `clock / by`, which is no more than `clock`.
    fn quotient(clock: u64, by: u64) -> (quotient: u32)
        requires
            clock <= u32::MAX,
            by > 0,
        ensures
            quotient == clock as int / by as int,
    {
        let quotient: u64 = clock / by;
        assert(quotient <= clock) by (nonlinear_arith)
            requires
                quotient == clock as int / by as int,
                by > 0,
        ;
        quotient as u32
    }

    /// The word for control register 2: the input clock in megahertz, cut to
    /// the low bits that its field holds.
    pub open spec fn spec_cr2_word(self) -> u16 {
        (self.input_clock_mhz as int % (CR2_FREQ as int + 1)) as u16
    }

    /// The word for the rise time register: the rise time, or the largest
    /// value that its field holds where the rise time is beyond it.
    pub open spec fn spec_trise_word(self) -> u16 {
        if self.rise_time > TRISE_TRISE as int {
            TRISE_TRISE
        } else {
            self.rise_time as u16
        }
    }

    /// The word for the clock control register: the divisor, cut to the low
    /// bits that its field holds, with the duty and the mode bit.
    pub open spec fn spec_ccr_word(self) -> u16 {
        (self.divisor as int % (CCR_CCR as int + 1) + (if self.duty {
            CCR_DUTY as int
        } else {
            0
        }) + (if self.fast_mode {
            CCR_FS as int
        } else {
            0
        })) as u16
    }

    /// The word for control register 2.
    pub fn cr2_word(&self) -> (word: u16)
        ensures
            word == self.spec_cr2_word(),
            word <= CR2_FREQ,
    {
        let mhz: u32 = self.input_clock_mhz;
        assert(mhz & 0x3f == mhz % 64 && mhz & 0x3f <= 0x3f) by (bit_vector);
        (mhz & 0x3f) as u16
    }

    /// The word for the rise time register.
    pub fn trise_word(&self) -> (word: u16)
        ensures
            word == self.spec_trise_word(),
            word <= TRISE_TRISE,
    {
        if self.rise_time > TRISE_TRISE as u32 {
            TRISE_TRISE
        } else {
            self.rise_time as u16
        }
    }

    /// The word for the clock control register.
    pub fn ccr_word(&self) -> (word: u16)
        ensures
            word == self.spec_ccr_word(),
    {
        let divisor: u32 = self.divisor;
        assert(divisor & 0xfff == divisor % 4096 && divisor & 0xfff <= 0xfff) by (bit_vector);
        let field: u16 = (divisor & 0xfff) as u16;
        let with_duty: u16 = if self.duty {
            field | CCR_DUTY
        } else {
            field
        };
        assert(field | 0x4000 == field + 0x4000) by (bit_vector)
            requires
                field <= 0xfff,
        ;
        let word: u16 = if self.fast_mode {
            with_duty | CCR_FS
        } else {
            with_duty
        };
        assert(with_duty | 0x8000 == with_duty + 0x8000) by (bit_vector)
            requires
                with_duty <= 0x4fff,
        ;
        word
    }
}

/// In standard mode, at any bit rate above zero and up to
/// [`STANDARD_MODE_MAX`] and for any input clock, the divisor is the larger of
/// 4 and the input clock divided by twice the bit rate, the rise time is the
/// input clock in whole megahertz plus one, and neither the duty nor the mode
/// flag is set.
pub proof fn lemma_standard_mode_timing(pclk1: Hertz, frequency: Hertz)
    requires
        0 < frequency.raw <= STANDARD_MODE_MAX,
    ensures
        ({
            let timing = Timing::spec_compute(pclk1, Mode::Standard { frequency });
            let quotient = pclk1.raw as int / (2 * frequency.raw as int);
            &&& timing.divisor == max(4, quotient)
            &&& timing.rise_time == pclk1.raw as int / 1_000_000 + 1
            &&& timing.input_clock_mhz == pclk1.raw as int / 1_000_000
            &&& !timing.duty
            &&& !timing.fast_mode
        }),
{
    let quotient = pclk1.raw as int / (2 * frequency.raw as int);
    assert(0 <= quotient <= pclk1.raw) by (nonlinear_arith)
        requires
            quotient == pclk1.raw as int / (2 * frequency.raw as int),
            0 < frequency.raw,
    ;
}

/// In fast mode, at any bit rate above [`STANDARD_MODE_MAX`] and up to
/// [`FAST_MODE_MAX`] and for any input clock, the mode flag is set; with the
/// 2:1 duty cycle the divisor is the larger of 1 and the input clock divided
/// by 3 times the bit rate and the duty flag is clear; with the 16:9 duty
/// cycle the divisor is the larger of 1 and the input clock divided by 25
/// times the bit rate and the duty flag is set. Either way the rise time is
/// three tenths of the input clock in whole megahertz, rounded down, plus one.
pub proof fn lemma_fast_mode_timing(pclk1: Hertz, frequency: Hertz, duty_cycle: DutyCycle)
    requires
        STANDARD_MODE_MAX < frequency.raw <= FAST_MODE_MAX,
    ensures
        ({
            let timing = Timing::spec_compute(pclk1, Mode::Fast { frequency, duty_cycle });
            &&& timing.fast_mode
            &&& duty_cycle == DutyCycle::Ratio2to1 ==> {
                &&& timing.divisor == max(1, pclk1.raw as int / (3 * frequency.raw as int))
                &&& !timing.duty
            }
            &&& duty_cycle == DutyCycle::Ratio16to9 ==> {
                &&& timing.divisor == max(1, pclk1.raw as int / (25 * frequency.raw as int))
                &&& timing.duty
            }
            &&& timing.rise_time == (pclk1.raw as int / 1_000_000) * 300 / 1000 + 1
            &&& timing.input_clock_mhz == pclk1.raw as int / 1_000_000
        }),
{
    let by_three = pclk1.raw as int / (3 * frequency.raw as int);
    assert(0 <= by_three <= pclk1.raw) by (nonlinear_arith)
        requires
            by_three == pclk1.raw as int / (3 * frequency.raw as int),
            0 < frequency.raw,
    ;
    let by_twenty_five = pclk1.raw as int / (25 * frequency.raw as int);
    assert(0 <= by_twenty_five <= pclk1.raw) by (nonlinear_arith)
        requires
            by_twenty_five == pclk1.raw as int / (25 * frequency.raw as int),
            0 < frequency.raw,
    ;
}

} // verus!
