//! Building blocks for long-running services.
//!
//! - [`counter`]: keep the count of the active instances of a type.
//! - [`drop_guard`]: a closure that runs once when the work it guards is over.
//! - [`futures`]: the total and the busy time of polled work.
//! - [`non_empty`]: string types that are never empty.
//! - [`shutdown`]: two-phase (graceful, then forced) shutdown of a group of services.
//! - [`string_util`]: the range of all strings with a given prefix.
//! - [`uniq_id`]: sequential and random identifiers.
//! - [`std_specs`]: what is taken for granted of the standard library.

pub mod counter;
pub mod drop_guard;
pub mod futures;
pub mod non_empty;
pub mod shutdown;
pub mod std_specs;
pub mod string_util;
pub mod uniq_id;
