//! String utilities for range queries.

pub mod order;
pub mod prefix_right_bound;
pub mod prefix_to_range;

pub use prefix_right_bound::prefix_right_bound;
pub use prefix_to_range::prefix_to_range;
