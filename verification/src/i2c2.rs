//! The pins of the second I2C peripheral.

use crate::gpio::{Alternate, Configuration, OpenDrain, PB10, PB11};
use vstd::prelude::*;
use vstd::std_specs::convert::FromSpecImpl;

verus! {

/// A pin pair bound to the second I2C peripheral: the clock line and the data
/// line, both in the alternate open-drain mode.
pub enum Pins {
    /// The only pair.
    No { scl: PB10<Alternate<OpenDrain>>, sda: PB11<Alternate<OpenDrain>> },
}

impl Pins {
    /// Whether both pins of the pair are configured as outputs that the
    /// peripheral drives through an open-drain stage.
    pub open spec fn open_drain(self) -> bool {
        match self {
            Pins::No { scl, sda } => {
                &&& scl.electrical() == Configuration::AlternateOpenDrain
                &&& sda.electrical() == Configuration::AlternateOpenDrain
            },
        }
    }
}

impl From<(PB10<Alternate<OpenDrain>>, PB11<Alternate<OpenDrain>>)> for Pins {
    /// Binds the only pin pair, given in the alternate open-drain mode.
    fn from(p: (PB10<Alternate<OpenDrain>>, PB11<Alternate<OpenDrain>>)) -> (pins: Pins)
        ensures
            pins == (Pins::No { scl: p.0, sda: p.1 }),
            pins.open_drain(),
    {
        let scl = p.0;
        let sda = p.1;
        proof {
            use_type_invariant(&scl);
            use_type_invariant(&sda);
        }
        Pins::No { scl, sda }
    }
}

impl FromSpecImpl<(PB10<Alternate<OpenDrain>>, PB11<Alternate<OpenDrain>>)> for Pins {
    open spec fn obeys_from_spec() -> bool {
        true
    }

    open spec fn from_spec(p: (PB10<Alternate<OpenDrain>>, PB11<Alternate<OpenDrain>>)) -> Pins {
        Pins::No { scl: p.0, sda: p.1 }
    }
}

impl From<(PB10, PB11)> for Pins {
    /// Binds the only pin pair, given in the mode the pins have after power-on:
    /// they are put into the alternate open-drain mode.
    fn from(p: (PB10, PB11)) -> (pins: Pins)
        ensures
            pins == (Pins::No { scl: p.0.alternate_open_drain(), sda: p.1.alternate_open_drain() }),
            pins.open_drain(),
    {
        let scl = p.0.into_alternate_open_drain();
        let sda = p.1.into_alternate_open_drain();
        Pins::No { scl, sda }
    }
}

impl FromSpecImpl<(PB10, PB11)> for Pins {
    open spec fn obeys_from_spec() -> bool {
        true
    }

    open spec fn from_spec(p: (PB10, PB11)) -> Pins {
        Pins::No { scl: p.0.alternate_open_drain(), sda: p.1.alternate_open_drain() }
    }
}

} // verus!
