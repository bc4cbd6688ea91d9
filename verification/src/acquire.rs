//! Pre/post-trigger depth configuration and status counters.
//!
//! The configuration registers say how many samples to keep before a
//! trigger is accepted and how many to store after it.  The status
//! counters report how many were actually written in the last cycle;
//! they can differ from the configured depths when the trigger never
//! fired or the post window was cut short.

use vstd::prelude::*;

verus! {

/// Software model of the acquire register block.
#[derive(Clone, Copy, Debug, PartialEq, Eq, Structural)]
pub struct AcquireRegs {
    /// Configured pre-trigger depth.
    pub cfg_pre: u32,
    /// Configured post-trigger depth.
    pub cfg_post: u32,
    /// Pre-trigger samples actually written (read-only counter).
    pub status_pre: u32,
    /// Post-trigger samples actually written (read-only counter).
    pub status_post: u32,
}

impl AcquireRegs {
    /// Power-up state: both depths zero, counters clear.
    pub fn new() -> (r: AcquireRegs)
        ensures
            r == (AcquireRegs { cfg_pre: 0, cfg_post: 0, status_pre: 0, status_post: 0 }),
    {
        AcquireRegs { cfg_pre: 0, cfg_post: 0, status_pre: 0, status_post: 0 }
    }

    /// Record the status counters observed on the hardware after a
    /// capture cycle.
    pub fn record_status(&mut self, pre: u32, post: u32)
        ensures
            final(self).acquire_state() == (AcquireRegs {
                status_pre: pre,
                status_post: post,
                ..old(self).acquire_state()
            }),
    {
        self.status_pre = pre;
        self.status_post = post;
    }
}

/// Operations of the acquire register block.
pub trait AcquireRegsAPI {
    /// Model of the acquire register block.
    spec fn acquire_state(&self) -> AcquireRegs;

    /// Get the pre-trigger depth: samples stored after a start pulse
    /// before a trigger event is accepted.
    fn trigger_pre(&self) -> (r: u32)
        ensures
            r == self.acquire_state().cfg_pre,
    ;

    /// Set the pre-trigger depth.
    fn set_trigger_pre(&mut self, delay: u32)
        ensures
            final(self).acquire_state() == (AcquireRegs {
                cfg_pre: delay,
                ..old(self).acquire_state()
            }),
    ;

    /// Get the post-trigger depth: samples stored after a trigger before
    /// writing stops automatically.
    fn trigger_post(&self) -> (r: u32)
        ensures
            r == self.acquire_state().cfg_post,
    ;

    /// Set the post-trigger depth.
    fn set_trigger_post(&mut self, delay: u32)
        ensures
            final(self).acquire_state() == (AcquireRegs {
                cfg_post: delay,
                ..old(self).acquire_state()
            }),
    ;

    /// Pre-trigger sample counter status.
    fn trigger_pre_status(&self) -> (r: u32)
        ensures
            r == self.acquire_state().status_pre,
    ;

    /// Post-trigger sample counter status.
    fn trigger_post_status(&self) -> (r: u32)
        ensures
            r == self.acquire_state().status_post,
    ;
}

impl AcquireRegsAPI for AcquireRegs {
    open spec fn acquire_state(&self) -> AcquireRegs {
        *self
    }

    fn trigger_pre(&self) -> (r: u32) {
        self.cfg_pre
    }

    fn set_trigger_pre(&mut self, delay: u32) {
        self.cfg_pre = delay;
    }

    fn trigger_post(&self) -> (r: u32) {
        self.cfg_post
    }

    fn set_trigger_post(&mut self, delay: u32) {
        self.cfg_post = delay;
    }

    fn trigger_pre_status(&self) -> (r: u32) {
        self.status_pre
    }

    fn trigger_post_status(&self) -> (r: u32) {
        self.status_post
    }
}

} // verus!
