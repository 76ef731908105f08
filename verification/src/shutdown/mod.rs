//! Coordinated shutdown of a group of services.
//!
//! - [`Graceful`]: what a service has to offer to be shut down.
//! - [`ShutdownGroup`]: the registry of the services, which starts the shutdown
//!   of all of them at most once.
//! - [`ForceSignal`] and [`ForceHandle`]: the one-shot signal that turns a
//!   graceful shutdown into a forced one, and what a service sees of it.
//! - [`CompositeOperation`]: one shutdown of all services, which is resolved
//!   when each of them has answered.
//! - [`Termination`]: the two-phase shutdown that termination signals drive.
//!
//! The coordinator waits for nothing itself. It starts the services, keeps the
//! state of the shutdown and says what each signal and each answer leads to;
//! whoever runs it listens for the signals and sees the services through.

pub mod signal;
pub mod composite;
pub mod graceful;
pub mod shutdown_group;
pub mod termination;
pub mod laws;

pub use signal::ForceHandle;
pub use signal::ForceSignal;
pub use signal::SignalState;
pub use composite::CompositeOperation;
pub use composite::CompositeView;
pub use composite::ServiceStatus;
pub use graceful::Graceful;
pub use shutdown_group::GroupView;
pub use shutdown_group::ShutdownError;
pub use shutdown_group::ShutdownGroup;
pub use termination::interrupt_exit_code;
pub use termination::Phase;
pub use termination::Reaction;
pub use termination::Termination;
pub use termination::TerminationView;
pub use termination::SIGNAL_CHANNEL_CAPACITY;
