//! The pins of the first I2C peripheral.

use crate::afio::Mapr;
use crate::gpio::{Alternate, Configuration, OpenDrain, PB6, PB7, PB8, PB9};
use vstd::prelude::*;
use vstd::std_specs::convert::FromSpecImpl;

verus! {

/// A pin pair bound to the first I2C peripheral: the clock line and the data
/// line, both in the alternate open-drain mode.
#[allow(inconsistent_fields)]
pub enum Pins {
    /// The first pair: no remap.
    No { scl: PB6<Alternate<OpenDrain>>, sda: PB7<Alternate<OpenDrain>> },
    /// The second pair: remapped.
    Remap { scl: PB8<Alternate<OpenDrain>>, sda: PB9<Alternate<OpenDrain>> },
}

impl Pins {
    /// Whether both pins of the pair are configured as outputs that the
    /// peripheral drives through an open-drain stage.
    pub open spec fn open_drain(self) -> bool {
        match self {
            Pins::No { scl, sda } => {
                &&& scl.electrical() == Configuration::AlternateOpenDrain
                &&& sda.electrical() == Configuration::AlternateOpenDrain
            },
            Pins::Remap { scl, sda } => {
                &&& scl.electrical() == Configuration::AlternateOpenDrain
                &&& sda.electrical() == Configuration::AlternateOpenDrain
            },
        }
    }
}

impl<'a> From<(
    PB6<Alternate<OpenDrain>>,
    PB7<Alternate<OpenDrain>>,
    &'a mut Mapr,
)> for Pins {
    /// Binds the first pin pair, given in the alternate open-drain mode.
    /// The remap bit is cleared.
    fn from(p: (PB6<Alternate<OpenDrain>>, PB7<Alternate<OpenDrain>>, &'a mut Mapr)) -> (pins: Pins)
        ensures
            pins == (Pins::No { scl: p.0, sda: p.1 }),
            final(p.2).bits == Mapr::with_i2c1_remap(old(p.2).bits, false),
            pins.open_drain(),
    {
        let scl = p.0;
        let sda = p.1;
        proof {
            use_type_invariant(&scl);
            use_type_invariant(&sda);
        }
        p.2.set_i2c1_remap(false);
        Pins::No { scl, sda }
    }
}

impl<'a> FromSpecImpl<(
    PB6<Alternate<OpenDrain>>,
    PB7<Alternate<OpenDrain>>,
    &'a mut Mapr,
)> for Pins {
    open spec fn obeys_from_spec() -> bool {
        true
    }

    open spec fn from_spec(
        p: (PB6<Alternate<OpenDrain>>, PB7<Alternate<OpenDrain>>, &'a mut Mapr),
    ) -> Pins {
        Pins::No { scl: p.0, sda: p.1 }
    }
}

impl<'a> From<(PB6, PB7, &'a mut Mapr)> for Pins {
    /// Binds the first pin pair, given in the mode the pins have after power-on:
    /// they are put into the alternate open-drain mode.
    /// The remap bit is cleared.
    fn from(p: (PB6, PB7, &'a mut Mapr)) -> (pins: Pins)
        ensures
            pins == (Pins::No { scl: p.0.alternate_open_drain(), sda: p.1.alternate_open_drain() }),
            final(p.2).bits == Mapr::with_i2c1_remap(old(p.2).bits, false),
            pins.open_drain(),
    {
        let scl = p.0.into_alternate_open_drain();
        let sda = p.1.into_alternate_open_drain();
        p.2.set_i2c1_remap(false);
        Pins::No { scl, sda }
    }
}

impl<'a> FromSpecImpl<(PB6, PB7, &'a mut Mapr)> for Pins {
    open spec fn obeys_from_spec() -> bool {
        true
    }

    open spec fn from_spec(p: (PB6, PB7, &'a mut Mapr)) -> Pins {
        Pins::No { scl: p.0.alternate_open_drain(), sda: p.1.alternate_open_drain() }
    }
}

impl<'a> From<(
    PB8<Alternate<OpenDrain>>,
    PB9<Alternate<OpenDrain>>,
    &'a mut Mapr,
)> for Pins {
    /// Binds the second pin pair, given in the alternate open-drain mode.
    /// The remap bit is set.
    fn from(p: (PB8<Alternate<OpenDrain>>, PB9<Alternate<OpenDrain>>, &'a mut Mapr)) -> (pins: Pins)
        ensures
            pins == (Pins::Remap { scl: p.0, sda: p.1 }),
            final(p.2).bits == Mapr::with_i2c1_remap(old(p.2).bits, true),
            pins.open_drain(),
    {
        let scl = p.0;
        let sda = p.1;
        proof {
            use_type_invariant(&scl);
            use_type_invariant(&sda);
        }
        p.2.set_i2c1_remap(true);
        Pins::Remap { scl, sda }
    }
}

impl<'a> FromSpecImpl<(
    PB8<Alternate<OpenDrain>>,
    PB9<Alternate<OpenDrain>>,
    &'a mut Mapr,
)> for Pins {
    open spec fn obeys_from_spec() -> bool {
        true
    }

    open spec fn from_spec(
        p: (PB8<Alternate<OpenDrain>>, PB9<Alternate<OpenDrain>>, &'a mut Mapr),
    ) -> Pins {
        Pins::Remap { scl: p.0, sda: p.1 }
    }
}

impl<'a> From<(PB8, PB9, &'a mut Mapr)> for Pins {
    /// Binds the second pin pair, given in the mode the pins have after power-on:
    /// they are put into the alternate open-drain mode.
    /// The remap bit is set.
    fn from(p: (PB8, PB9, &'a mut Mapr)) -> (pins: Pins)
        ensures
            pins == (Pins::Remap {
                scl: p.0.alternate_open_drain(),
                sda: p.1.alternate_open_drain(),
            }),
            final(p.2).bits == Mapr::with_i2c1_remap(old(p.2).bits, true),
            pins.open_drain(),
    {
        let scl = p.0.into_alternate_open_drain();
        let sda = p.1.into_alternate_open_drain();
        p.2.set_i2c1_remap(true);
        Pins::Remap { scl, sda }
    }
}

impl<'a> FromSpecImpl<(PB8, PB9, &'a mut Mapr)> for Pins {
    open spec fn obeys_from_spec() -> bool {
        true
    }

    open spec fn from_spec(p: (PB8, PB9, &'a mut Mapr)) -> Pins {
        Pins::Remap { scl: p.0.alternate_open_drain(), sda: p.1.alternate_open_drain() }
    }
}

} // verus!
