//! Frequencies.

use vstd::prelude::*;

verus! {

/// A frequency in hertz.
#[derive(Clone, Copy, Debug, PartialEq, Eq, Structural)]
pub struct Hertz {
    /// The number of cycles per second.
    pub raw: u32,
}

impl Hertz {
    /// The frequency of `raw` hertz.
    pub fn from_raw(raw: u32) -> (f: Hertz)
        ensures
            f.raw == raw,
    {
        Hertz { raw }
    }

    /// The number of hertz.
    pub fn raw(&self) -> (raw: u32)
        ensures
            raw == self.raw,
    {
        self.raw
    }

    /// The frequency in whole megahertz; the remainder is dropped.
    #[allow(non_snake_case)]
    pub fn to_MHz(&self) -> (mhz: u32)
        ensures
            mhz == self.raw / 1_000_000,
    {
        self.raw / 1_000_000
    }
}

/// The frequency of `val` hertz.
#[allow(non_snake_case)]
pub fn Hz(val: u32) -> (f: Hertz)
    ensures
        f.raw == val,
{
    Hertz { raw: val }
}

/// The frequency of `val` kilohertz.
#[allow(non_snake_case)]
pub fn kHz(val: u32) -> (f: Hertz)
    requires
        val * 1_000 <= u32::MAX,
    ensures
        f.raw == val * 1_000,
{
    Hertz { raw: val * 1_000 }
}

/// The frequency of `val` megahertz.
#[allow(non_snake_case)]
pub fn MHz(val: u32) -> (f: Hertz)
    requires
        val * 1_000_000 <= u32::MAX,
    ensures
        f.raw == val * 1_000_000,
{
    Hertz { raw: val * 1_000_000 }
}

} // verus!
