use vstd::prelude::*;

use crate::shutdown::signal::ForceHandle;

verus! {

/// A service that can be shut down gracefully.
///
/// The shutdown may take its time: `shutdown` starts it and hands back what
/// stands for it while it runs. Whoever holds that sees the shutdown through
/// and reports its end to the operation that the service takes part in.
pub trait Graceful: Sized {
    /// The shutdown of the service while it runs. It comes to an end, with
    /// success or with an error of the service's own.
    type Stopping;

    /// Starts the shutdown of the service.
    ///
    /// With `force`, the caller may ask later to give up graceful work: once
    /// the handle shows the force signal fired, the service is to stop as fast
    /// as it can. A service is free to ignore the signal.
    fn shutdown(self, force: Option<ForceHandle>) -> Self::Stopping;
}

} // verus!
