use vstd::prelude::*;

use crate::shutdown::signal::ForceHandle;
use crate::shutdown::signal::ForceSignal;
use crate::shutdown::signal::SignalState;

verus! {

/// How far the shutdown of one service has come.
#[derive(Clone, Copy, Debug, PartialEq, Eq, Structural)]
pub enum ServiceStatus {
    /// The service was asked to stop and has not answered yet.
    Stopping,
    /// The service has stopped and reported success.
    Stopped,
    /// The service has stopped and reported an error.
    Failed,
}

/// The state that handles observe of the signal that a shutdown was started with.
pub open spec fn signal_state(force: Option<ForceSignal>) -> SignalState {
    match force {
        None => SignalState::Unset,
        Some(signal) => signal.state(),
    }
}

/// The mathematical content of a [`CompositeOperation`].
pub struct CompositeView {
    /// The force signal as every handle observes it.
    pub force: SignalState,
    /// The status of each service, in registration order.
    pub services: Seq<ServiceStatus>,
}

impl CompositeView {
    /// The operation right after `n` services were asked to stop.
    pub open spec fn started(n: nat, force: SignalState) -> CompositeView {
        CompositeView { force, services: Seq::new(n, |i: int| ServiceStatus::Stopping) }
    }

    /// Whether `service` is the position of a service that has not answered yet.
    pub open spec fn is_stopping(self, service: int) -> bool {
        0 <= service < self.services.len() && self.services[service] == ServiceStatus::Stopping
    }

    /// The operation is resolved once no service is left that has not answered.
    pub open spec fn is_resolved(self) -> bool {
        forall|i: int| !self.is_stopping(i)
    }

    /// The operation after the force signal was fired. Without a signal there is
    /// nothing to fire.
    pub open spec fn fire(self) -> CompositeView {
        if self.force == SignalState::Pending {
            CompositeView { force: SignalState::Fired, services: self.services }
        } else {
            self
        }
    }

    /// The operation after `service` answered. Only the first answer of a service
    /// that was asked counts.
    pub open spec fn resolve(self, service: int, ok: bool) -> CompositeView {
        if self.is_stopping(service) {
            CompositeView {
                force: self.force,
                services: self.services.update(
                    service,
                    if ok {
                        ServiceStatus::Stopped
                    } else {
                        ServiceStatus::Failed
                    },
                ),
            }
        } else {
            self
        }
    }

    /// The handle that the service at position `service` was given.
    pub open spec fn handle(self, service: int) -> Option<ForceHandle> {
        if 0 <= service < self.services.len() && self.force != SignalState::Unset {
            Some(ForceHandle::new_spec(service as nat))
        } else {
            None
        }
    }

    /// Whether the holder of `handle` sees the force signal as fired.
    pub open spec fn observes_fired(self, handle: ForceHandle) -> bool {
        handle.service_spec() < self.services.len() && self.force == SignalState::Fired
    }
}

impl CompositeView {
    /// Firing the force signal changes no status, so it neither resolves an
    /// operation nor takes a resolution back.
    pub proof fn lemma_fire_keeps_statuses(self)
        ensures
            self.fire().services == self.services,
            self.fire().is_resolved() == self.is_resolved(),
    {
        if self.is_resolved() {
            assert forall|i: int| !self.fire().is_stopping(i) by {
                assert(!self.is_stopping(i));
            }
        }
        if self.fire().is_resolved() {
            assert forall|i: int| !self.is_stopping(i) by {
                assert(!self.fire().is_stopping(i));
            }
        }
    }
}

/// One shutdown of a group of services: every service was asked to stop, and the
/// operation is resolved when each of them has answered.
pub struct CompositeOperation {
    force: Option<ForceSignal>,
    services: Vec<ServiceStatus>,
}

impl View for CompositeOperation {
    type V = CompositeView;

    closed spec fn view(&self) -> CompositeView {
        CompositeView { force: signal_state(self.force), services: self.services@ }
    }
}

impl CompositeOperation {
    /// Starts the shutdown of `n` services, each of which is handed a handle to
    /// `force` where one is supplied, and nothing otherwise.
    pub fn start(n: usize, force: Option<ForceSignal>) -> (op: Self)
        ensures
            op@ == CompositeView::started(n as nat, signal_state(force)),
    {
        let mut services: Vec<ServiceStatus> = Vec::new();
        let mut i: usize = 0;
        while i < n
            invariant
                i <= n,
                services@ == Seq::new(i as nat, |k: int| ServiceStatus::Stopping),
            decreases n - i,
        {
            services.push(ServiceStatus::Stopping);
            i += 1;
            assert(services@ =~= Seq::new(i as nat, |k: int| ServiceStatus::Stopping));
        }
        CompositeOperation { force, services }
    }

    /// The number of services that were asked to stop.
    pub fn len(&self) -> (n: usize)
        ensures
            n == self@.services.len(),
    {
        self.services.len()
    }

    /// The force signal as every handle observes it.
    pub fn force_state(&self) -> (state: SignalState)
        ensures
            state == self@.force,
    {
        match &self.force {
            None => SignalState::Unset,
            Some(signal) => if signal.is_fired() {
                SignalState::Fired
            } else {
                SignalState::Pending
            },
        }
    }

    /// The handle that the service at position `service` is given: one to the
    /// shared force signal if the shutdown was started with one, none otherwise.
    pub fn handle(&self, service: usize) -> (handle: Option<ForceHandle>)
        ensures
            handle == self@.handle(service as int),
    {
        if service < self.services.len() && self.force.is_some() {
            Some(ForceHandle::new(service))
        } else {
            None
        }
    }

    /// Fires the force signal of this shutdown. Returns `true` for the one call
    /// that makes it fire; every other call changes nothing.
    pub fn fire_force(&mut self) -> (first: bool)
        ensures
            final(self)@ == old(self)@.fire(),
            first == (old(self)@.force == SignalState::Pending),
    {
        match &mut self.force {
            None => false,
            Some(signal) => signal.fire(),
        }
    }

    /// Whether the holder of `handle` sees the force signal as fired.
    pub fn observes_fired(&self, handle: &ForceHandle) -> (fired: bool)
        ensures
            fired == self@.observes_fired(*handle),
    {
        handle.service() < self.services.len() && match &self.force {
            None => false,
            Some(signal) => signal.is_fired(),
        }
    }

    /// The status of the service at position `service`, if there is one.
    pub fn status(&self, service: usize) -> (status: Option<ServiceStatus>)
        ensures
            status == if service < self@.services.len() {
                Some(self@.services[service as int])
            } else {
                None
            },
    {
        if service < self.services.len() {
            Some(self.services[service])
        } else {
            None
        }
    }

    /// Records that the service at position `service` has answered, with success
    /// if `ok`. Returns whether the answer was recorded: it is not if there is no
    /// such service or if it has answered before.
    pub fn resolve(&mut self, service: usize, ok: bool) -> (recorded: bool)
        ensures
            final(self)@ == old(self)@.resolve(service as int, ok),
            recorded == old(self)@.is_stopping(service as int),
    {
        if service < self.services.len() && self.services[service] == ServiceStatus::Stopping {
            let status = if ok {
                ServiceStatus::Stopped
            } else {
                ServiceStatus::Failed
            };
            self.services.set(service, status);
            true
        } else {
            false
        }
    }

    /// Whether every service has answered.
    pub fn is_resolved(&self) -> (resolved: bool)
        ensures
            resolved == self@.is_resolved(),
    {
        let mut i: usize = 0;
        while i < self.services.len()
            invariant
                i <= self.services@.len(),
                forall|k: int| 0 <= k < i ==> !self@.is_stopping(k),
            decreases self.services@.len() - i,
        {
            if self.services[i] == ServiceStatus::Stopping {
                assert(self@.is_stopping(i as int));
                return false;
            }
            i += 1;
        }
        true
    }
}

} // verus!
