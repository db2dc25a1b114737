//! Peak resident-set-size monitoring: unit scaling, sample bookkeeping and
//! human-readable formatting, with every function verified.

pub mod clock;
pub mod decimal;
pub mod monitor;
pub mod scale;
pub mod unit;

pub use clock::Timestamp;
pub use monitor::{MemoryMonitor, ResourceSample};
pub use unit::Unit;
