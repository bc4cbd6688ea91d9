//! Interface to the hardware interrupt line.
//!
//! Waiting for the capture-complete interrupt is the alternative to
//! busy-polling the run bit: it yields to the scheduler instead of
//! spinning.  The wait blocks on the device and its outcome depends on
//! the hardware alone, so nothing can be promised of it; callers treat
//! the returned interrupt count as an observation and re-read the
//! status registers afterwards.

use vstd::prelude::*;

verus! {

/// Capability to enable, disable and await the device interrupt.
/// Implemented outside the library over the device's interrupt
/// facility.
pub trait IrqAPI {
    /// Enable the interrupt.
    fn enable_irq(&mut self);

    /// Disable the interrupt.
    fn disable_irq(&mut self);

    /// Block until the interrupt fires; returns the interrupt count.
    fn wait_irq(&mut self) -> u32;
}

} // verus!
