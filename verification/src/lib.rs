//! Driver core for a memory-mapped logic-analyzer capture engine.
//!
//! The hardware is reached through fixed-offset control/status registers and
//! a fixed-capacity circular sample buffer.  This crate holds the verified
//! logic: a software model of the register file, the acquisition state
//! machine, configuration encoding, extraction of the valid sample window
//! from the circular buffer, and the streaming command protocol.  The raw
//! device access (mapped memory, interrupt waits, sockets) lives outside the
//! library and drives it with plain values.

use vstd::prelude::*;

pub mod acquire;
pub mod config;
pub mod event;
pub mod hwid;
pub mod irq;
pub mod la;
pub mod la_mask;
pub mod la_rle;
pub mod la_trigger;
pub mod management;
pub mod prelude;
pub mod protocol;
pub mod session;
pub mod window;

verus! {

/// Capacity of the hardware capture buffer, in samples.
pub const BUFFER_SIZE: u32 = 0x4000;

/// Base sampling clock of the capture engine, in hertz.
pub const SAMPLING_FREQUENCY: u32 = 125_000_000;

} // verus!
