use vstd::prelude::*;

verus! {

/// What can be known of a force signal at one moment.
#[derive(Clone, Copy, Debug, PartialEq, Eq, Structural)]
pub enum SignalState {
    /// Nobody asked for a forced shutdown: there is no signal to wait for.
    Unset,
    /// A forced shutdown can still be requested; it has not been so far.
    Pending,
    /// The forced shutdown was requested. This state is never left.
    Fired,
}

/// A one-shot notification that asks services to give up graceful work.
///
/// It fires at most once and stays fired. Any number of handles may look at it;
/// all of them see the same state.
#[derive(Debug, PartialEq, Eq, Structural)]
pub struct ForceSignal {
    fired: bool,
}

/// The handle through which one service looks at the force signal of the
/// shutdown it takes part in.
#[derive(Clone, Copy, Debug, PartialEq, Eq, Structural)]
pub struct ForceHandle {
    service: usize,
}

impl ForceSignal {
    /// Whether the signal has fired.
    pub closed spec fn is_fired_spec(&self) -> bool {
        self.fired
    }

    /// The state that handles of this signal observe.
    pub open spec fn state(&self) -> SignalState {
        if self.is_fired_spec() {
            SignalState::Fired
        } else {
            SignalState::Pending
        }
    }

    /// A signal that has not fired yet.
    pub fn pending() -> (s: Self)
        ensures
            !s.is_fired_spec(),
    {
        ForceSignal { fired: false }
    }

    /// A signal that has fired already: whoever waits for it goes on at once.
    pub fn fired() -> (s: Self)
        ensures
            s.is_fired_spec(),
    {
        ForceSignal { fired: true }
    }

    /// Whether the signal has fired.
    #[verifier::when_used_as_spec(is_fired_spec)]
    pub fn is_fired(&self) -> (b: bool)
        ensures
            b == self.is_fired_spec(),
    {
        self.fired
    }

    /// Fires the signal. Returns `true` for the one call that makes it fire and
    /// `false` for every later one, which changes nothing.
    pub fn fire(&mut self) -> (first: bool)
        ensures
            final(self).is_fired_spec(),
            first == !old(self).is_fired_spec(),
    {
        let first = !self.fired;
        self.fired = true;
        first
    }
}

impl ForceHandle {
    /// The position, in registration order, of the service that holds this handle.
    pub closed spec fn service_spec(&self) -> nat {
        self.service as nat
    }

    /// The handle of the service at position `service`.
    pub closed spec fn new_spec(service: nat) -> ForceHandle {
        ForceHandle { service: service as usize }
    }

    /// The handle made for a position names that position.
    pub proof fn lemma_new_spec(service: nat)
        requires
            service <= usize::MAX,
        ensures
            Self::new_spec(service).service_spec() == service,
    {
    }

    /// A handle for the service at position `service`.
    pub fn new(service: usize) -> (h: Self)
        ensures
            h == Self::new_spec(service as nat),
            h.service_spec() == service,
    {
        ForceHandle { service }
    }

    /// The position, in registration order, of the service that holds this handle.
    pub fn service(&self) -> (i: usize)
        ensures
            i == self.service_spec(),
    {
        self.service
    }
}

} // verus!
