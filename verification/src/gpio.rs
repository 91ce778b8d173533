//! The pins of port B that can carry a bus, and their electrical modes.
//!
//! A pin tells its mode twice: in its type, so that only pins in the right
//! mode can be bound to a peripheral, and in the electrical configuration that
//! it holds, which is what the pin's share of the port's configuration is set
//! to. The two always agree.

use core::marker::PhantomData;
use vstd::prelude::*;

verus! {

/// The electrical configurations of a pin that a bus meets.
#[derive(Clone, Copy, Debug, PartialEq, Eq, Structural)]
pub enum Configuration {
    /// An input without a pull: what every pin is after power-on.
    FloatingInput,
    /// An output that a peripheral drives through an open-drain stage.
    AlternateOpenDrain,
}

/// A mode of a pin, as the pin's type tells it.
pub trait PinMode {
    /// The electrical configuration of a pin in this mode.
    spec fn configuration() -> Configuration;
}

/// Pull of an input: none.
pub struct Floating;

/// Output stage: open drain.
pub struct OpenDrain;

/// Mode of a pin: input.
pub struct Input<PULL> {
    _pull: PhantomData<PULL>,
}

/// Mode of a pin: driven by a peripheral.
pub struct Alternate<OTYPE> {
    _otype: PhantomData<OTYPE>,
}

impl PinMode for Input<Floating> {
    open spec fn configuration() -> Configuration {
        Configuration::FloatingInput
    }
}

impl PinMode for Alternate<OpenDrain> {
    open spec fn configuration() -> Configuration {
        Configuration::AlternateOpenDrain
    }
}

/// Pin `N` of port B in the mode `MODE`.
pub struct PB<const N: u8, MODE: PinMode = Input<Floating>> {
    configuration: Configuration,
    _mode: PhantomData<MODE>,
}

pub type PB6<MODE = Input<Floating>> = PB<6, MODE>;

pub type PB7<MODE = Input<Floating>> = PB<7, MODE>;

pub type PB8<MODE = Input<Floating>> = PB<8, MODE>;

pub type PB9<MODE = Input<Floating>> = PB<9, MODE>;

pub type PB10<MODE = Input<Floating>> = PB<10, MODE>;

pub type PB11<MODE = Input<Floating>> = PB<11, MODE>;

impl<const N: u8> PB<N, Input<Floating>> {
    /// The pin as it is after power-on: a floating input.
    pub fn power_on() -> (pin: Self)
        ensures
            pin.electrical() == Configuration::FloatingInput,
    {
        PB { configuration: Configuration::FloatingInput, _mode: PhantomData }
    }
}

impl<const N: u8, MODE: PinMode> PB<N, MODE> {
    /// The electrical configuration that the pin holds.
    pub closed spec fn electrical(self) -> Configuration {
        self.configuration
    }

    /// What holds of every pin: it is configured as its type tells.
    #[verifier::type_invariant]
    pub open spec fn configured_as_typed(self) -> bool {
        self.electrical() == MODE::configuration()
    }

    /// The pin, handed to a peripheral with an open-drain output stage.
    pub closed spec fn alternate_open_drain(self) -> PB<N, Alternate<OpenDrain>> {
        PB { configuration: Configuration::AlternateOpenDrain, _mode: PhantomData }
    }

    /// The electrical configuration that the pin holds. It is the one that
    /// the pin's type tells.
    pub fn configuration(&self) -> (configuration: Configuration)
        ensures
            configuration == self.electrical(),
            configuration == MODE::configuration(),
    {
        proof {
            use_type_invariant(self);
        }
        self.configuration
    }

    /// Hands the pin to a peripheral, with an open-drain output stage,
    /// whatever its configuration was before.
    pub fn into_alternate_open_drain(self) -> (pin: PB<N, Alternate<OpenDrain>>)
        ensures
            pin == self.alternate_open_drain(),
            pin.electrical() == Configuration::AlternateOpenDrain,
    {
        PB { configuration: Configuration::AlternateOpenDrain, _mode: PhantomData }
    }
}

} // verus!
