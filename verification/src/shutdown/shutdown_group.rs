use vstd::prelude::*;

use crate::shutdown::composite::signal_state;
use crate::shutdown::composite::CompositeOperation;
use crate::shutdown::composite::CompositeView;
use crate::shutdown::graceful::Graceful;
use crate::shutdown::signal::ForceHandle;
use crate::shutdown::signal::ForceSignal;
use crate::shutdown::signal::SignalState;

verus! {

/// Error returned when a shutdown cannot be started.
#[derive(Clone, Copy, Debug, PartialEq, Eq, Structural)]
pub enum ShutdownError {
    /// A shutdown was started on this group before.
    AlreadyShuttingDown,
}

impl ShutdownError {
    /// The text that describes the error.
    pub fn message(&self) -> (text: String)
        ensures
            text@ == "ShutdownGroup is already shutting down"@,
    {
        match self {
            ShutdownError::AlreadyShuttingDown => "ShutdownGroup is already shutting down".to_owned(),
        }
    }
}

/// The mathematical content of what starting a shutdown answers.
pub open spec fn result_view<P>(res: Result<(CompositeOperation, Vec<P>), ShutdownError>) -> Result<
    CompositeView,
    ShutdownError,
> {
    match res {
        Ok(started) => Ok(started.0@),
        Err(e) => Err(e),
    }
}

/// The mathematical content of an operation that may not have been started.
pub open spec fn operation_view(op: Option<CompositeOperation>) -> Option<CompositeView> {
    match op {
        Some(op) => Some(op@),
        None => None,
    }
}

/// The mathematical content of a shutdown that may not have been started.
pub open spec fn started_view<P>(res: Option<(CompositeOperation, Vec<P>)>) -> Option<
    CompositeView,
> {
    match res {
        Some(started) => Some(started.0@),
        None => None,
    }
}

/// Whether `pending` holds, for every service and in registration order, what
/// one call of `start` handed back for that service and the handle that `op`
/// gives it.
pub open spec fn each_started<S, P, C: Fn(S, Option<ForceHandle>) -> P>(
    start: C,
    services: Seq<S>,
    op: CompositeView,
    pending: Seq<P>,
) -> bool {
    &&& pending.len() == services.len()
    &&& forall|i: int|
        0 <= i < services.len() ==> call_ensures(
            start,
            (services[i], op.handle(i)),
            #[trigger] pending[i],
        )
}

/// Whether a shutdown that was started holds, for every service, what one call
/// of `start` handed back for it.
pub open spec fn all_started<S, P, C: Fn(S, Option<ForceHandle>) -> P>(
    start: C,
    services: Seq<S>,
    started: (CompositeOperation, Vec<P>),
) -> bool {
    each_started(start, services, started.0@, started.1@)
}

/// Whether `start` can be called with every service and every handle.
pub open spec fn starts_any<S, P, C: Fn(S, Option<ForceHandle>) -> P>(start: C) -> bool {
    forall|service: S, force: Option<ForceHandle>| call_requires(start, (service, force))
}

/// The mathematical content of a [`ShutdownGroup`].
pub struct GroupView<S> {
    /// Whether a shutdown has been started. Once `true` it stays so.
    pub shutting_down: bool,
    /// The registered services, in registration order.
    pub services: Seq<S>,
}

impl<S> GroupView<S> {
    /// The views that a group can have: its services can be counted by a
    /// machine integer.
    pub open spec fn wf(self) -> bool {
        self.services.len() <= usize::MAX
    }

    /// What starting a shutdown answers: an error if one was started before,
    /// else an operation in which every registered service is asked to stop.
    pub open spec fn shutdown_all_result(self, force: Option<ForceSignal>) -> Result<
        CompositeView,
        ShutdownError,
    > {
        if self.shutting_down {
            Err(ShutdownError::AlreadyShuttingDown)
        } else {
            Ok(CompositeView::started(self.services.len(), signal_state(force)))
        }
    }

    /// What giving up the group answers: nothing if a shutdown was started
    /// before, else an operation in which every registered service is asked to
    /// stop under a force signal that has fired already.
    pub open spec fn shutdown_on_drop_result(self) -> Option<CompositeView> {
        if self.shutting_down {
            None
        } else {
            Some(CompositeView::started(self.services.len(), SignalState::Fired))
        }
    }

    /// The group after a shutdown was asked for: one that is shutting down. The
    /// first request hands the services over to their shutdown.
    pub open spec fn shutdown_all_next(self) -> GroupView<S> {
        if self.shutting_down {
            self
        } else {
            GroupView { shutting_down: true, services: Seq::empty() }
        }
    }
}

/// Manages the shutdown of a group of services.
///
/// Services are registered with [`push`](ShutdownGroup::push) while the group is
/// set up. A shutdown is started at most once. It asks every service to stop at
/// the same time and hands each of them a handle to one shared force signal, if
/// the caller supplies one.
///
/// A service that is [`Graceful`] is asked through its own `shutdown`. For any
/// other kind of service the caller supplies the function that starts the
/// shutdown of one service and hands back whatever stands for it while it
/// runs. Either way the services go over to their shutdown: the group holds
/// none of them afterwards.
///
/// `push` is meant for the time before the shutdown. The group does not guard
/// against a later one: a service registered after the shutdown has started is
/// never asked to stop.
pub struct ShutdownGroup<S> {
    shutting_down: bool,
    services: Vec<S>,
}

impl<S> View for ShutdownGroup<S> {
    type V = GroupView<S>;

    closed spec fn view(&self) -> GroupView<S> {
        GroupView { shutting_down: self.shutting_down, services: self.services@ }
    }
}

impl<S> ShutdownGroup<S> {
    /// The view of every group is one that a group can have.
    pub proof fn lemma_view_wf(&self)
        ensures
            self@.wf(),
    {
        assert(self.services@.len() == self.services.len());
    }

    /// An idle group without services.
    pub fn new() -> (group: Self)
        ensures
            !group@.shutting_down,
            group@.services == Seq::<S>::empty(),
    {
        ShutdownGroup { shutting_down: false, services: Vec::new() }
    }

    /// Registers `s` behind the services registered so far.
    pub fn push(&mut self, s: S)
        ensures
            final(self)@.shutting_down == old(self)@.shutting_down,
            final(self)@.services == old(self)@.services.push(s),
    {
        self.services.push(s);
    }

    /// The number of registered services.
    pub fn len(&self) -> (n: usize)
        ensures
            n == self@.services.len(),
    {
        self.services.len()
    }

    /// Whether a shutdown has been started.
    pub fn is_shutting_down(&self) -> (b: bool)
        ensures
            b == self@.shutting_down,
    {
        self.shutting_down
    }

    /// The registered services, in registration order.
    pub fn services(&self) -> (services: &Vec<S>)
        ensures
            services@ == self@.services,
    {
        &self.services
    }

    /// Starts the shutdown of every registered service, in the way of the
    /// caller's choice.
    ///
    /// The first call moves the group from idle to shutting down. It hands
    /// every service to `start`, once and in registration order, together with
    /// a handle to the one shared force signal if `force` is supplied, and with
    /// nothing otherwise. All services are started before the call returns. It
    /// answers with the operation that is resolved once every service has
    /// answered, and with what `start` handed back for each service.
    ///
    /// Every later call fails with [`ShutdownError::AlreadyShuttingDown`] and
    /// starts nothing. The group is borrowed exclusively, so testing and
    /// setting the state is one step to every caller.
    #[must_use]
    pub fn shutdown_all_with<P, C: Fn(S, Option<ForceHandle>) -> P>(
        &mut self,
        force: Option<ForceSignal>,
        start: C,
    ) -> (res: Result<(CompositeOperation, Vec<P>), ShutdownError>)
        requires
            starts_any(start),
        ensures
            final(self)@ == old(self)@.shutdown_all_next(),
            result_view(res) == old(self)@.shutdown_all_result(force),
            res is Ok ==> all_started(start, old(self)@.services, res->Ok_0),
    {
        if self.shutting_down {
            return Err(ShutdownError::AlreadyShuttingDown);
        }
        self.shutting_down = true;

        let mut services: Vec<S> = Vec::new();
        std::mem::swap(&mut self.services, &mut services);
        let op = CompositeOperation::start(services.len(), force);

        let ghost all = services@;
        let mut pending: Vec<P> = Vec::new();
        for service in remaining: services
            invariant
                starts_any(start),
                remaining.seq() == all,
                op@.services.len() == all.len(),
                pending@.len() == remaining.index(),
                forall|i: int|
                    0 <= i < remaining.index() ==> call_ensures(
                        start,
                        (all[i], op@.handle(i)),
                        #[trigger] pending@[i],
                    ),
        {
            let handle = op.handle(pending.len());
            pending.push(start(service, handle));
        }
        assert(self@.services =~= Seq::<S>::empty());
        Ok((op, pending))
    }

    /// The shutdown that runs when a group is given up without having been shut
    /// down: it is started with a force signal that has fired already, so that
    /// every service takes its fast path. Answers as
    /// [`shutdown_all_with`](ShutdownGroup::shutdown_all_with) does where that
    /// succeeds: the caller has to see the operation resolved before the group
    /// goes away. Answers with nothing if a shutdown was started before.
    pub fn shutdown_on_drop_with<P, C: Fn(S, Option<ForceHandle>) -> P>(
        &mut self,
        start: C,
    ) -> (res: Option<(CompositeOperation, Vec<P>)>)
        requires
            starts_any(start),
        ensures
            final(self)@ == old(self)@.shutdown_all_next(),
            started_view(res) == old(self)@.shutdown_on_drop_result(),
            res is Some ==> all_started(start, old(self)@.services, res->0),
    {
        match self.shutdown_all_with(Some(ForceSignal::fired()), start) {
            Ok(started) => Some(started),
            Err(_) => None,
        }
    }
}

impl<S: Graceful> ShutdownGroup<S> {
    /// Starts the shutdown of every registered service.
    ///
    /// The first call moves the group from idle to shutting down. It calls
    /// [`shutdown`](Graceful::shutdown) on every service, once and in
    /// registration order, with a handle to the one shared force signal if
    /// `force` is supplied, and with nothing otherwise. All services are
    /// started before the call returns. It answers with the operation that is
    /// resolved once every service has answered, and with the shutdown of each
    /// service.
    ///
    /// Every later call fails with [`ShutdownError::AlreadyShuttingDown`] and
    /// calls no service.
    #[must_use]
    pub fn shutdown_all(&mut self, force: Option<ForceSignal>) -> (res: Result<
        (CompositeOperation, Vec<S::Stopping>),
        ShutdownError,
    >)
        ensures
            final(self)@ == old(self)@.shutdown_all_next(),
            result_view(res) == old(self)@.shutdown_all_result(force),
            res is Ok ==> all_started(S::shutdown, old(self)@.services, res->Ok_0),
    {
        self.shutdown_all_with(force, S::shutdown)
    }

    /// The shutdown that runs when a group is given up without having been shut
    /// down: every service is called with a handle to a force signal that has
    /// fired already. Answers with nothing if a shutdown was started before.
    pub fn shutdown_on_drop(&mut self) -> (res: Option<(CompositeOperation, Vec<S::Stopping>)>)
        ensures
            final(self)@ == old(self)@.shutdown_all_next(),
            started_view(res) == old(self)@.shutdown_on_drop_result(),
            res is Some ==> all_started(S::shutdown, old(self)@.services, res->0),
    {
        self.shutdown_on_drop_with(S::shutdown)
    }
}

impl<S> Default for ShutdownGroup<S> {
    fn default() -> (group: Self)
        ensures
            !group@.shutting_down,
            group@.services == Seq::<S>::empty(),
    {
        Self::new()
    }
}

} // verus!
