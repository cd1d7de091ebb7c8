//! Pad function and I/O configuration.
//!
//! The pad-configuration unit routes each physical pad to one of its
//! alternate functions (the `fmux` selector registers) and holds each pad's
//! electrical configuration. Only the pads of the SD0 group are enumerated so
//! far; registers for other pads are not yet laid out, so accessors are
//! restricted to the pad numbers whose registers exist.

use vstd::prelude::*;

verus! {

/// Per-pad analog/digital pad settings (pull-up/pull-down/floating).
///
/// Field codecs for the individual settings are not implemented yet; the
/// value is carried through unchanged by every operation of this crate.
#[derive(Clone, Copy, Debug, PartialEq, Eq, Structural, Hash)]
pub struct PadConfig(pub u32);

/// Pad-configuration registers, held as plain values.
///
/// Raw volatile access to a memory-mapped instance is the platform layer's
/// concern; this crate describes and updates the register state itself.
pub struct RegisterBlock {
    /// Function multiplexer selector for pad 3 (SD0 clock).
    pub fmux_sd0_clk: u32,
    /// Function multiplexer selector for pad 4 (SD0 command).
    pub fmux_sd0_cmd: u32,
    /// Electrical pad configuration for pad 3 (SD0 clock).
    pub io_g10_sd0_clk: PadConfig,
    /// Electrical pad configuration for pad 4 (SD0 command).
    pub io_g10_sd0_cmd: PadConfig,
}

impl RegisterBlock {
    /// The function multiplexer selector register of pad `n`, as a value.
    pub open spec fn spec_fmux(self, n: int) -> u32 {
        if n == 3 {
            self.fmux_sd0_clk
        } else {
            self.fmux_sd0_cmd
        }
    }

    /// The pad-configuration register of pad `n`, as a value.
    pub open spec fn spec_pad_config(self, n: int) -> PadConfig {
        if n == 3 {
            self.io_g10_sd0_clk
        } else {
            self.io_g10_sd0_cmd
        }
    }

    /// The function multiplexer selector register of pad `N`.
    ///
    /// Only pads 3 and 4 have their registers laid out so far.
    pub fn fmux<const N: usize>(&self) -> (r: &u32)
        requires
            N == 3 || N == 4,
        ensures
            *r == self.spec_fmux(N as int),
    {
        if N == 3 {
            &self.fmux_sd0_clk
        } else {
            &self.fmux_sd0_cmd
        }
    }

    /// The pad-configuration register of pad `N`.
    ///
    /// Only pads 3 and 4 have their registers laid out so far.
    pub fn pad_config<const N: usize>(&self) -> (r: &PadConfig)
        requires
            N == 3 || N == 4,
        ensures
            *r == self.spec_pad_config(N as int),
    {
        if N == 3 {
            &self.io_g10_sd0_clk
        } else {
            &self.io_g10_sd0_cmd
        }
    }

    /// Write `value` into the function multiplexer selector register of pad
    /// `N`, leaving every other register unchanged.
    pub fn write_fmux<const N: usize>(&mut self, value: u32)
        requires
            N == 3 || N == 4,
        ensures
            final(self).spec_fmux(N as int) == value,
            forall|k: int|
                (k == 3 || k == 4) && k != N ==> final(self).spec_fmux(k) == old(self).spec_fmux(k),
            final(self).io_g10_sd0_clk == old(self).io_g10_sd0_clk,
            final(self).io_g10_sd0_cmd == old(self).io_g10_sd0_cmd,
    {
        if N == 3 {
            self.fmux_sd0_clk = value;
        } else {
            self.fmux_sd0_cmd = value;
        }
    }
}

} // verus!
