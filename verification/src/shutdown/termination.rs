use vstd::prelude::*;

use crate::shutdown::composite::CompositeOperation;
use crate::shutdown::composite::CompositeView;
use crate::shutdown::graceful::Graceful;
use crate::shutdown::shutdown_group::each_started;
use crate::shutdown::shutdown_group::operation_view;
use crate::shutdown::shutdown_group::starts_any;
use crate::shutdown::shutdown_group::GroupView;
use crate::shutdown::shutdown_group::ShutdownGroup;
use crate::shutdown::signal::ForceHandle;
use crate::shutdown::signal::ForceSignal;
use crate::shutdown::signal::SignalState;

verus! {

/// How many notifications the channel between the interrupt handler and the
/// waiting groups holds.
pub const SIGNAL_CHANNEL_CAPACITY: usize = 16;

/// What the interrupt handler does after it tried to publish a notification:
/// nothing more if the notification went out, and otherwise the status with
/// which the process has to end at once, because a handler has no other way to
/// report that its channel is unusable.
pub fn interrupt_exit_code(published: bool) -> (code: Option<i32>)
    ensures
        code == if published {
            None::<i32>
        } else {
            Some(1i32)
        },
{
    if published {
        None
    } else {
        Some(1)
    }
}

/// Where a two-phase shutdown stands.
#[derive(Clone, Copy, Debug, PartialEq, Eq, Structural)]
pub enum Phase {
    /// No termination signal has arrived yet.
    AwaitingSignal,
    /// The services were asked to stop and at least one has not answered.
    ShuttingDown,
    /// Nothing is left to wait for.
    Finished,
}

/// What a termination signal led to.
#[derive(Clone, Copy, Debug, PartialEq, Eq, Structural)]
pub enum Reaction {
    /// The first signal: the shutdown was started, and every service is to be
    /// asked to stop with a handle to the force signal.
    Started,
    /// The first signal, but the group was shutting down already. This is worth
    /// a log line and nothing else.
    AlreadyShuttingDown,
    /// The second signal: the force signal has fired.
    Forced,
    /// Any other signal: nothing changed.
    Ignored,
}

/// The mathematical content of a [`Termination`].
pub struct TerminationView<S> {
    /// Where the shutdown stands.
    pub phase: Phase,
    /// The group that is shut down.
    pub group: GroupView<S>,
    /// The shutdown, once it has been started.
    pub operation: Option<CompositeView>,
}

impl<S> TerminationView<S> {
    /// The state in which a group waits for its first termination signal.
    pub open spec fn waiting(group: GroupView<S>) -> TerminationView<S> {
        TerminationView { phase: Phase::AwaitingSignal, group, operation: None }
    }

    /// The states that can be reached.
    pub open spec fn wf(self) -> bool {
        match self.phase {
            Phase::AwaitingSignal => self.operation is None,
            Phase::ShuttingDown => {
                &&& self.group.shutting_down
                &&& self.operation is Some
                &&& !self.operation->0.is_resolved()
                &&& self.operation->0.force != SignalState::Unset
            },
            Phase::Finished => {
                &&& self.group.shutting_down
                &&& self.operation is Some ==> self.operation->0.is_resolved()
            },
        }
    }

    /// What a termination signal leads to in this state.
    pub open spec fn reaction(self) -> Reaction {
        match self.phase {
            Phase::AwaitingSignal => if self.group.shutting_down {
                Reaction::AlreadyShuttingDown
            } else {
                Reaction::Started
            },
            Phase::ShuttingDown => if self.operation->0.force == SignalState::Pending {
                Reaction::Forced
            } else {
                Reaction::Ignored
            },
            Phase::Finished => Reaction::Ignored,
        }
    }

    /// The state after a termination signal.
    pub open spec fn on_signal(self) -> TerminationView<S> {
        match self.reaction() {
            Reaction::Started => {
                let op = CompositeView::started(self.group.services.len(), SignalState::Pending);
                TerminationView {
                    phase: if op.is_resolved() {
                        Phase::Finished
                    } else {
                        Phase::ShuttingDown
                    },
                    group: self.group.shutdown_all_next(),
                    operation: Some(op),
                }
            },
            Reaction::AlreadyShuttingDown => TerminationView {
                phase: Phase::Finished,
                group: self.group,
                operation: None,
            },
            Reaction::Forced => TerminationView {
                phase: self.phase,
                group: self.group,
                operation: Some(self.operation->0.fire()),
            },
            Reaction::Ignored => self,
        }
    }

    /// The state after the service at position `service` answered.
    pub open spec fn on_resolved(self, service: int, ok: bool) -> TerminationView<S> {
        if self.phase == Phase::ShuttingDown {
            let op = self.operation->0.resolve(service, ok);
            TerminationView {
                phase: if op.is_resolved() {
                    Phase::Finished
                } else {
                    Phase::ShuttingDown
                },
                group: self.group,
                operation: Some(op),
            }
        } else {
            self
        }
    }
}

/// A group that waits for termination signals and shuts down in two phases:
/// the first signal asks every service to stop, the second one fires the force
/// signal that each of them was handed.
///
/// Signals and answers are fed in by whoever listens for them; the state says
/// what is to be done.
pub struct Termination<S> {
    phase: Phase,
    group: ShutdownGroup<S>,
    operation: Option<CompositeOperation>,
}

impl<S> View for Termination<S> {
    type V = TerminationView<S>;

    closed spec fn view(&self) -> TerminationView<S> {
        TerminationView {
            phase: self.phase,
            group: self.group@,
            operation: operation_view(self.operation),
        }
    }
}

impl<S> Termination<S> {
    #[verifier::type_invariant]
    spec fn reachable(self) -> bool {
        self@.wf()
    }

    /// Takes over `group`, which from now on waits for its first signal.
    pub fn new(group: ShutdownGroup<S>) -> (t: Self)
        ensures
            t@ == TerminationView::waiting(group@),
            t@.wf(),
    {
        Termination { phase: Phase::AwaitingSignal, group, operation: None }
    }

    /// Where the shutdown stands.
    pub fn phase(&self) -> (phase: Phase)
        ensures
            phase == self@.phase,
    {
        self.phase
    }

    /// Whether nothing is left to wait for.
    pub fn is_finished(&self) -> (finished: bool)
        ensures
            finished == (self@.phase == Phase::Finished),
    {
        self.phase == Phase::Finished
    }

    /// The group that is shut down.
    pub fn group(&self) -> (group: &ShutdownGroup<S>)
        ensures
            group@ == self@.group,
    {
        &self.group
    }

    /// The shutdown, once it has been started.
    pub fn operation(&self) -> (op: &Option<CompositeOperation>)
        ensures
            operation_view(*op) == self@.operation,
    {
        &self.operation
    }

    /// Takes in one termination signal and says what it led to.
    ///
    /// The first signal starts the shutdown with a force signal that is still
    /// pending and that the next termination signal fires: every service is
    /// handed to `start`, as [`ShutdownGroup::shutdown_all_with`] does it, and
    /// what `start` handed back comes with the answer. Where the group was
    /// shutting down already, the first signal ends the waiting instead. No
    /// other signal starts anything.
    pub fn on_signal_with<P, C: Fn(S, Option<ForceHandle>) -> P>(&mut self, start: C) -> (res: (
        Reaction,
        Vec<P>,
    ))
        requires
            starts_any(start),
        ensures
            old(self)@.wf(),
            final(self)@.wf(),
            res.0 == old(self)@.reaction(),
            final(self)@ == old(self)@.on_signal(),
            res.0 == Reaction::Started ==> each_started(
                start,
                old(self)@.group.services,
                final(self)@.operation->0,
                res.1@,
            ),
            res.0 != Reaction::Started ==> res.1@.len() == 0,
    {
        let mut taken = Termination::new(ShutdownGroup::new());
        std::mem::swap(self, &mut taken);
        proof {
            use_type_invariant(&taken);
        }
        let Termination { phase, mut group, operation } = taken;
        match phase {
            Phase::AwaitingSignal => {
                match group.shutdown_all_with(Some(ForceSignal::pending()), start) {
                    Ok((op, pending)) => {
                        let phase = if op.is_resolved() {
                            Phase::Finished
                        } else {
                            Phase::ShuttingDown
                        };
                        *self = Termination { phase, group, operation: Some(op) };
                        (Reaction::Started, pending)
                    },
                    Err(_) => {
                        *self = Termination { phase: Phase::Finished, group, operation };
                        (Reaction::AlreadyShuttingDown, Vec::new())
                    },
                }
            },
            Phase::ShuttingDown => {
                match operation {
                    Some(mut op) => {
                        proof {
                            op@.lemma_fire_keeps_statuses();
                        }
                        let first = op.fire_force();
                        *self = Termination { phase, group, operation: Some(op) };
                        if first {
                            (Reaction::Forced, Vec::new())
                        } else {
                            (Reaction::Ignored, Vec::new())
                        }
                    },
                    None => {
                        *self = Termination { phase, group, operation: None };
                        (Reaction::Ignored, Vec::new())
                    },
                }
            },
            Phase::Finished => {
                *self = Termination { phase, group, operation };
                (Reaction::Ignored, Vec::new())
            },
        }
    }

    /// Takes in the answer of the service at position `service`, with success
    /// if `ok`, and says whether the shutdown is finished.
    pub fn on_resolved(&mut self, service: usize, ok: bool) -> (finished: bool)
        ensures
            old(self)@.wf(),
            final(self)@.wf(),
            final(self)@ == old(self)@.on_resolved(service as int, ok),
            finished == (final(self)@.phase == Phase::Finished),
    {
        let mut taken = Termination::new(ShutdownGroup::new());
        std::mem::swap(self, &mut taken);
        proof {
            use_type_invariant(&taken);
        }
        let Termination { phase, group, operation } = taken;
        match (phase, operation) {
            (Phase::ShuttingDown, Some(mut op)) => {
                op.resolve(service, ok);
                let phase = if op.is_resolved() {
                    Phase::Finished
                } else {
                    Phase::ShuttingDown
                };
                *self = Termination { phase, group, operation: Some(op) };
            },
            (phase, operation) => {
                *self = Termination { phase, group, operation };
            },
        }
        self.phase == Phase::Finished
    }
}

impl<S: Graceful> Termination<S> {
    /// Takes in one termination signal and says what it led to.
    ///
    /// The first signal starts the shutdown with a force signal that is still
    /// pending and that the next termination signal fires: every service is
    /// called as [`ShutdownGroup::shutdown_all`] does it, and the shutdown of
    /// each service comes with the answer. Where the group was shutting down
    /// already, the first signal ends the waiting instead. No other signal
    /// calls a service.
    pub fn on_signal(&mut self) -> (res: (Reaction, Vec<S::Stopping>))
        ensures
            old(self)@.wf(),
            final(self)@.wf(),
            res.0 == old(self)@.reaction(),
            final(self)@ == old(self)@.on_signal(),
            res.0 == Reaction::Started ==> each_started(
                S::shutdown,
                old(self)@.group.services,
                final(self)@.operation->0,
                res.1@,
            ),
            res.0 != Reaction::Started ==> res.1@.len() == 0,
    {
        self.on_signal_with(S::shutdown)
    }
}

impl<S> ShutdownGroup<S> {
    /// Gives the group over to a two-phase shutdown that termination signals
    /// drive.
    pub fn wait_to_terminate(self) -> (t: Termination<S>)
        ensures
            t@ == TerminationView::waiting(self@),
            t@.wf(),
    {
        Termination::new(self)
    }
}

} // verus!
