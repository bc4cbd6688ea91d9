//! Housekeeping registers: GPIO pin routing and the digital loopback.

use vstd::prelude::*;

verus! {

/// Raw words of the management register block.
#[derive(Clone, Copy, Debug, PartialEq, Eq, Structural)]
pub struct MgmtRegs {
    /// GPIO mode: bit clear routes the pin to the processing system's
    /// GPIO controller, bit set to the logic generator.
    pub cfg_iom: u32,
    /// Digital loopback enables, one bit per generator/oscilloscope
    /// pair (for debugging).
    pub cfg_loop: u32,
}

/// Software model of the management register block.
#[derive(Clone, Copy, Debug, PartialEq, Eq, Structural)]
pub struct Management {
    /// The register words.
    pub regs: MgmtRegs,
}

impl Management {
    /// A model in the hardware's power-up state: everything routed to
    /// the GPIO controller, loopback off.
    pub fn new() -> (r: Management)
        ensures
            r.regs == (MgmtRegs { cfg_iom: 0, cfg_loop: 0 }),
    {
        Management { regs: MgmtRegs { cfg_iom: 0, cfg_loop: 0 } }
    }

    /// Get the GPIO mode word.
    pub fn gpio_mode(&self) -> (r: u32)
        ensures
            r == self.regs.cfg_iom,
    {
        self.regs.cfg_iom
    }

    /// Set the GPIO mode word.
    pub fn set_gpio_mode(&mut self, mode: u32)
        ensures
            final(self).regs == (MgmtRegs { cfg_iom: mode, ..old(self).regs }),
    {
        self.regs.cfg_iom = mode;
    }

    /// Get the digital loopback word.
    pub fn gen_osc_loop(&self) -> (r: u32)
        ensures
            r == self.regs.cfg_loop,
    {
        self.regs.cfg_loop
    }

    /// Set the digital loopback word.
    pub fn set_gen_osc_loop(&mut self, value: u32)
        ensures
            final(self).regs == (MgmtRegs { cfg_loop: value, ..old(self).regs }),
    {
        self.regs.cfg_loop = value;
    }

    /// Write both registers back to their power-up values.
    pub fn set_defaults(&mut self)
        ensures
            final(self).regs == (MgmtRegs { cfg_iom: 0, cfg_loop: 0 }),
    {
        self.regs.cfg_iom = 0;
        self.regs.cfg_loop = 0;
    }
}

} // verus!
