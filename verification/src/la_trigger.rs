//! Trigger comparator and edge-detection registers of the logic analyzer.

use vstd::prelude::*;

verus! {

/// Software model of the trigger register block.
#[derive(Clone, Copy, Debug, PartialEq, Eq, Structural)]
pub struct LaTriggerRegs {
    /// Comparator mask: which input bits take part in the comparison.
    pub cfg_cmp_mask: u32,
    /// Comparator value the masked inputs are compared against.
    pub cfg_cmp_value: u32,
    /// Positive edge detection mask.
    pub cfg_edge_pos: u32,
    /// Negative edge detection mask.
    pub cfg_edge_neg: u32,
}

impl LaTriggerRegs {
    /// Power-up state: everything zero.
    pub fn new() -> (r: LaTriggerRegs)
        ensures
            r == (LaTriggerRegs {
                cfg_cmp_mask: 0,
                cfg_cmp_value: 0,
                cfg_edge_pos: 0,
                cfg_edge_neg: 0,
            }),
    {
        LaTriggerRegs { cfg_cmp_mask: 0, cfg_cmp_value: 0, cfg_edge_pos: 0, cfg_edge_neg: 0 }
    }
}

/// Operations of the trigger register block.
pub trait LaTriggerRegsAPI {
    /// Model of the trigger register block.
    spec fn trigger_state(&self) -> LaTriggerRegs;

    /// Get the trigger comparator mask.
    fn trigger_mask(&self) -> (r: u32)
        ensures
            r == self.trigger_state().cfg_cmp_mask,
    ;

    /// Set the trigger comparator mask.
    fn set_trigger_mask(&mut self, mask: u32)
        ensures
            final(self).trigger_state() == (LaTriggerRegs {
                cfg_cmp_mask: mask,
                ..old(self).trigger_state()
            }),
    ;

    /// Get the trigger comparator value.
    fn trigger_value(&self) -> (r: u32)
        ensures
            r == self.trigger_state().cfg_cmp_value,
    ;

    /// Set the trigger comparator value.
    fn set_trigger_value(&mut self, value: u32)
        ensures
            final(self).trigger_state() == (LaTriggerRegs {
                cfg_cmp_value: value,
                ..old(self).trigger_state()
            }),
    ;

    /// Get the positive trigger edge detection mask.
    fn pos_edge_trigger_mask(&self) -> (r: u32)
        ensures
            r == self.trigger_state().cfg_edge_pos,
    ;

    /// Set the positive trigger edge detection mask.
    fn set_pos_edge_trigger_mask(&mut self, mask: u32)
        ensures
            final(self).trigger_state() == (LaTriggerRegs {
                cfg_edge_pos: mask,
                ..old(self).trigger_state()
            }),
    ;

    /// Get the negative trigger edge detection mask.
    fn neg_edge_trigger_mask(&self) -> (r: u32)
        ensures
            r == self.trigger_state().cfg_edge_neg,
    ;

    /// Set the negative trigger edge detection mask.
    fn set_neg_edge_trigger_mask(&mut self, mask: u32)
        ensures
            final(self).trigger_state() == (LaTriggerRegs {
                cfg_edge_neg: mask,
                ..old(self).trigger_state()
            }),
    ;
}

impl LaTriggerRegsAPI for LaTriggerRegs {
    open spec fn trigger_state(&self) -> LaTriggerRegs {
        *self
    }

    fn trigger_mask(&self) -> (r: u32) {
        self.cfg_cmp_mask
    }

    fn set_trigger_mask(&mut self, mask: u32) {
        self.cfg_cmp_mask = mask;
    }

    fn trigger_value(&self) -> (r: u32) {
        self.cfg_cmp_value
    }

    fn set_trigger_value(&mut self, value: u32) {
        self.cfg_cmp_value = value;
    }

    fn pos_edge_trigger_mask(&self) -> (r: u32) {
        self.cfg_edge_pos
    }

    fn set_pos_edge_trigger_mask(&mut self, mask: u32) {
        self.cfg_edge_pos = mask;
    }

    fn neg_edge_trigger_mask(&self) -> (r: u32) {
        self.cfg_edge_neg
    }

    fn set_neg_edge_trigger_mask(&mut self, mask: u32) {
        self.cfg_edge_neg = mask;
    }
}

} // verus!
