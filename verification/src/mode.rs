//! Bus speed grades.

use crate::time::Hertz;
use vstd::prelude::*;
use vstd::std_specs::convert::FromSpecImpl;

verus! {

/// The highest bit rate, in hertz, that is served in standard mode.
pub const STANDARD_MODE_MAX: u32 = 100_000;

/// The highest bit rate, in hertz, that the peripheral can generate.
pub const FAST_MODE_MAX: u32 = 400_000;

/// Ratio of the low to the high phase of the clock in fast mode.
#[derive(Clone, Copy, Debug, PartialEq, Eq, Structural)]
pub enum DutyCycle {
    /// The low phase is twice as long as the high phase.
    Ratio2to1,
    /// The low phase is 16/9 of the high phase.
    Ratio16to9,
}

/// A speed grade together with the requested bit rate.
#[derive(Clone, Copy, Debug, PartialEq, Eq, Structural)]
pub enum Mode {
    /// Standard mode.
    Standard { frequency: Hertz },
    /// Fast mode.
    Fast { frequency: Hertz, duty_cycle: DutyCycle },
}

impl Mode {
    /// The requested bit rate.
    pub open spec fn frequency(self) -> Hertz {
        match self {
            Mode::Standard { frequency } => frequency,
            Mode::Fast { frequency, .. } => frequency,
        }
    }

    /// The mode that a bare bit rate stands for: standard mode up to
    /// [`STANDARD_MODE_MAX`], above it fast mode with the 2:1 duty cycle.
    pub open spec fn classify(frequency: Hertz) -> Mode {
        if frequency.raw <= STANDARD_MODE_MAX {
            Mode::Standard { frequency }
        } else {
            Mode::Fast { frequency, duty_cycle: DutyCycle::Ratio2to1 }
        }
    }

    /// Whether the peripheral can generate the requested bit rate: it is not
    /// zero and at most [`FAST_MODE_MAX`].
    pub open spec fn supported(self) -> bool {
        0 < self.frequency().raw <= FAST_MODE_MAX
    }

    /// Standard mode at `frequency`.
    pub fn standard(frequency: Hertz) -> (mode: Mode)
        ensures
            mode == (Mode::Standard { frequency }),
    {
        Mode::Standard { frequency }
    }

    /// Fast mode at `frequency` with the given duty cycle.
    pub fn fast(frequency: Hertz, duty_cycle: DutyCycle) -> (mode: Mode)
        ensures
            mode == (Mode::Fast { frequency, duty_cycle }),
    {
        Mode::Fast { frequency, duty_cycle }
    }

    /// The requested bit rate, whatever the speed grade.
    pub fn get_frequency(&self) -> (frequency: Hertz)
        ensures
            frequency == self.frequency(),
    {
        match *self {
            Mode::Standard { frequency } => frequency,
            Mode::Fast { frequency, .. } => frequency,
        }
    }

    /// Tells at run time whether the mode is [`supported`](Mode::supported).
    pub fn is_supported(&self) -> (ok: bool)
        ensures
            ok == self.supported(),
    {
        let raw: u32 = self.get_frequency().raw();
        0 < raw && raw <= FAST_MODE_MAX
    }
}

impl From<Hertz> for Mode {
    /// Classifies a bare bit rate as [`Mode::classify`] says.
    fn from(frequency: Hertz) -> (mode: Mode)
        ensures
            mode == Mode::classify(frequency),
            mode.frequency() == frequency,
            mode is Standard <==> frequency.raw <= STANDARD_MODE_MAX,
    {
        if frequency.raw() <= STANDARD_MODE_MAX {
            Mode::Standard { frequency }
        } else {
            Mode::Fast { frequency, duty_cycle: DutyCycle::Ratio2to1 }
        }
    }
}

impl FromSpecImpl<Hertz> for Mode {
    open spec fn obeys_from_spec() -> bool {
        true
    }

    open spec fn from_spec(frequency: Hertz) -> Mode {
        Mode::classify(frequency)
    }
}

} // verus!
