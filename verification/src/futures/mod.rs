//! Utilities for work that is polled to completion.
//!
//! - [`ElapsedFuture`]: keeps the total and the busy time of such work.

pub mod elapsed;

pub use elapsed::ElapsedFuture;
pub use elapsed::ElapsedReport;
pub use elapsed::ElapsedView;
