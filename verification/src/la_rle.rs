//! Run-length-encoding mode register and stream length counters.
//!
//! When RLE mode is on, each buffer slot holds a (value, run-length)
//! pair instead of a single sample, and the status counters report
//! encoded-record counts.  Readers of the capture buffer must know which
//! interpretation is active, so the mode flag travels with every
//! extracted window.

use vstd::prelude::*;

verus! {

/// Software model of the RLE register block.
#[derive(Clone, Copy, Debug, PartialEq, Eq, Structural)]
pub struct LaRleRegs {
    /// RLE mode flag.
    pub cfg_rle: bool,
    /// Current data stream length counter (read-only).
    pub status_current: u32,
    /// Last data stream length counter (read-only).
    pub status_last: u32,
}

impl LaRleRegs {
    /// Power-up state: RLE off, counters clear.
    pub fn new() -> (r: LaRleRegs)
        ensures
            r == (LaRleRegs { cfg_rle: false, status_current: 0, status_last: 0 }),
    {
        LaRleRegs { cfg_rle: false, status_current: 0, status_last: 0 }
    }

    /// Record the stream length counters observed on the hardware.
    pub fn record_counters(&mut self, current: u32, last: u32)
        ensures
            final(self).rle_state() == (LaRleRegs {
                status_current: current,
                status_last: last,
                ..old(self).rle_state()
            }),
    {
        self.status_current = current;
        self.status_last = last;
    }
}

/// Operations of the RLE register block.
pub trait LaRleRegsAPI {
    /// Model of the RLE register block.
    spec fn rle_state(&self) -> LaRleRegs;

    /// Get the RLE mode flag.
    fn rle(&self) -> (r: bool)
        ensures
            r == self.rle_state().cfg_rle,
    ;

    /// Set the RLE mode flag.
    fn set_rle(&mut self, rle: bool)
        ensures
            final(self).rle_state() == (LaRleRegs { cfg_rle: rle, ..old(self).rle_state() }),
    ;

    /// Current data stream length counter.
    fn counter_current(&self) -> (r: u32)
        ensures
            r == self.rle_state().status_current,
    ;

    /// Last data stream length counter.
    fn counter_last(&self) -> (r: u32)
        ensures
            r == self.rle_state().status_last,
    ;
}

impl LaRleRegsAPI for LaRleRegs {
    open spec fn rle_state(&self) -> LaRleRegs {
        *self
    }

    fn rle(&self) -> (r: bool) {
        self.cfg_rle
    }

    fn set_rle(&mut self, rle: bool) {
        self.cfg_rle = rle;
    }

    fn counter_current(&self) -> (r: u32) {
        self.status_current
    }

    fn counter_last(&self) -> (r: u32) {
        self.status_last
    }
}

} // verus!
