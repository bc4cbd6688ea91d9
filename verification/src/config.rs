//! Validated bundle of capture parameters.
//!
//! A configuration is checked before any register is written: a
//! decimation factor of zero has no hardware encoding, and pre- plus
//! post-trigger depths beyond the buffer capacity would make the capture
//! window overwrite itself.  The hardware itself accepts such values
//! silently, so the rejection happens here.

use vstd::prelude::*;

use crate::event::SyncSource;

verus! {

/// Error returned when a capture configuration is rejected before any
/// register is written.
#[derive(Clone, Copy, Debug, PartialEq, Eq, Structural)]
pub enum ConfigError {
    /// A decimation factor of zero has no hardware encoding.
    DecimationZero,
    /// The pre- and post-trigger depths together exceed the capture
    /// buffer capacity, so the window would overwrite itself.
    DepthOverflow,
}

/// Capture parameters applied to the register file in one step.
#[derive(Clone, Copy, Debug, PartialEq, Eq, Structural)]
pub struct AcquisitionConfig {
    /// Sample rate divisor; must be at least one.
    pub decimation: u32,
    /// Input signal bit mask.
    pub input_mask: u32,
    /// Input signal bit polarity.
    pub input_polarity: u32,
    /// Trigger comparator mask.
    pub trigger_compare_mask: u32,
    /// Trigger comparator value.
    pub trigger_compare_value: u32,
    /// Positive edge detection mask.
    pub pos_edge_mask: u32,
    /// Negative edge detection mask.
    pub neg_edge_mask: u32,
    /// Samples to keep before the trigger.
    pub pre_trigger_depth: u32,
    /// Samples to store after the trigger.
    pub post_trigger_depth: u32,
    /// Synchronisation source selector (exactly one source).
    pub sync_source: SyncSource,
    /// Trigger source bit mask (several sources may be OR-ed).
    pub trigger_source_mask: u32,
}

impl AcquisitionConfig {
    /// A configuration the hardware can execute unambiguously: the
    /// decimation factor has an encoding and the capture window fits in
    /// the buffer.
    pub open spec fn wf(self) -> bool {
        &&& self.decimation >= 1
        &&& self.pre_trigger_depth + self.post_trigger_depth <= crate::BUFFER_SIZE
    }

    /// Check the configuration, reporting exactly why it is rejected.
    pub fn validate(&self) -> (r: Result<(), ConfigError>)
        ensures
            r is Ok <==> self.wf(),
            self.decimation == 0 ==> r == Result::<(), ConfigError>::Err(
                ConfigError::DecimationZero,
            ),
            self.decimation >= 1 && !self.wf() ==> r == Result::<(), ConfigError>::Err(
                ConfigError::DepthOverflow,
            ),
    {
        if self.decimation == 0 {
            Err(ConfigError::DecimationZero)
        } else if self.pre_trigger_depth as u64 + self.post_trigger_depth as u64
            > crate::BUFFER_SIZE as u64 {
            Err(ConfigError::DepthOverflow)
        } else {
            Ok(())
        }
    }
}

} // verus!
