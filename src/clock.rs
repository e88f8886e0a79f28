//! Frozen clock frequencies.
use vstd::prelude::*;

use crate::time::Hertz;

verus! {

/// The frequencies of the clock domains at one moment, as the clock system
/// was configured. A timer copies it when it is bound and does not see later
/// changes of the clock system until it is given a new one.
#[derive(Clone, Copy, Debug, PartialEq, Eq, Structural)]
pub struct Clocks {
    /// Auxiliary clock.
    pub aclk: Hertz,
    /// Master clock.
    pub mclk: Hertz,
    /// Subsystem master clock.
    pub hsmclk: Hertz,
    /// Low-speed subsystem master clock.
    pub smclk: Hertz,
    /// Low-speed backup domain clock.
    pub bclk: Hertz,
}

impl Clocks {
    /// A snapshot with the given frequencies.
    pub fn new(aclk: Hertz, mclk: Hertz, hsmclk: Hertz, smclk: Hertz, bclk: Hertz) -> (r: Clocks)
        ensures
            r == (Clocks { aclk, mclk, hsmclk, smclk, bclk }),
    {
        Clocks { aclk, mclk, hsmclk, smclk, bclk }
    }

    /// The auxiliary clock frequency.
    pub fn aclk(&self) -> (r: Hertz)
        ensures
            r == self.aclk,
    {
        self.aclk
    }

    /// The master clock frequency.
    pub fn mclk(&self) -> (r: Hertz)
        ensures
            r == self.mclk,
    {
        self.mclk
    }

    /// The subsystem master clock frequency.
    pub fn hsmclk(&self) -> (r: Hertz)
        ensures
            r == self.hsmclk,
    {
        self.hsmclk
    }

    /// The low-speed subsystem master clock frequency.
    pub fn smclk(&self) -> (r: Hertz)
        ensures
            r == self.smclk,
    {
        self.smclk
    }

    /// The low-speed backup domain clock frequency.
    pub fn bclk(&self) -> (r: Hertz)
        ensures
            r == self.bclk,
    {
        self.bclk
    }

    /// The auxiliary clock frequency, as [`Clocks::aclk`].
    pub fn aux_clock(&self) -> (r: Hertz)
        ensures
            r == self.aclk,
    {
        self.aclk
    }

    /// The master clock frequency, as [`Clocks::mclk`].
    pub fn master_clock(&self) -> (r: Hertz)
        ensures
            r == self.mclk,
    {
        self.mclk
    }

    /// The subsystem master clock frequency, as [`Clocks::hsmclk`].
    pub fn subsystem_master_clock(&self) -> (r: Hertz)
        ensures
            r == self.hsmclk,
    {
        self.hsmclk
    }

    /// The low-speed subsystem master clock frequency, as [`Clocks::smclk`].
    pub fn low_frequency_subsystem_master_clock(&self) -> (r: Hertz)
        ensures
            r == self.smclk,
    {
        self.smclk
    }

    /// The low-speed backup domain clock frequency, as [`Clocks::bclk`].
    pub fn backup_clock(&self) -> (r: Hertz)
        ensures
            r == self.bclk,
    {
        self.bclk
    }
}

} // verus!
