//! Timer configuration.

use vstd::prelude::*;

verus! {

/// Requested timer configuration: the prescaler applied to the source
/// clock, and whether the crystal oscillator feeds the counter instead of
/// the peripheral bus clock.
#[derive(Clone, Copy, Debug, PartialEq, Eq, Structural)]
pub struct Config {
    pub divider: u32,
    pub xtal: bool,
}

impl Config {
    /// A configuration with the default prescaler, driven by the
    /// peripheral bus clock.
    pub fn new() -> (c: Config)
        ensures
            c == Config::spec_default(),
    {
        Config { divider: 80, xtal: false }
    }

    /// The default configuration value.
    pub open spec fn spec_default() -> Config {
        Config { divider: 80, xtal: false }
    }

    /// The same configuration with the given prescaler.
    #[must_use]
    pub fn divider(self, divider: u32) -> (c: Config)
        ensures
            c == (Config { divider, ..self }),
    {
        Config { divider, ..self }
    }

    /// The same configuration with the clock source switched between the
    /// crystal oscillator and the peripheral bus clock.
    #[must_use]
    pub fn xtal(self, xtal: bool) -> (c: Config)
        ensures
            c == (Config { xtal, ..self }),
    {
        Config { xtal, ..self }
    }
}

impl Default for Config {
    /// The default prescaler of 80 divides the usual 80 MHz bus clock down
    /// to one count per microsecond.
    fn default() -> (c: Config)
        ensures
            c == Config::spec_default(),
    {
        Config { divider: 80, xtal: false }
    }
}

} // verus!
