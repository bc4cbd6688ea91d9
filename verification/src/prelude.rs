//! The items most users of the library want in scope.

pub use crate::acquire::AcquireRegsAPI;
pub use crate::event::{AcquisitionState, EventRegsAPI, SyncSource, TriggerSource};
pub use crate::hwid::HwId;
pub use crate::irq::IrqAPI;
pub use crate::la::LogicAnalyzer;
pub use crate::la_mask::LaMaskRegsAPI;
pub use crate::la_rle::LaRleRegsAPI;
pub use crate::la_trigger::LaTriggerRegsAPI;
pub use crate::management::Management;
