//! What holds of every shutdown, whatever the services do and in whatever
//! order signals and answers arrive.

use vstd::prelude::*;

use crate::shutdown::composite::signal_state;
use crate::shutdown::composite::CompositeView;
use crate::shutdown::shutdown_group::GroupView;
use crate::shutdown::shutdown_group::ShutdownError;
use crate::shutdown::signal::ForceHandle;
use crate::shutdown::signal::ForceSignal;
use crate::shutdown::signal::SignalState;
use crate::shutdown::termination::Phase;
use crate::shutdown::termination::Reaction;
use crate::shutdown::termination::TerminationView;

verus! {

/// Something that happens to a shutdown after it was started.
pub enum Event {
    /// The force signal is fired.
    Fire,
    /// The service at the given position answers, with success or not.
    Resolve(int, bool),
}

/// The operation after one event.
pub open spec fn step(op: CompositeView, event: Event) -> CompositeView {
    match event {
        Event::Fire => op.fire(),
        Event::Resolve(service, ok) => op.resolve(service, ok),
    }
}

/// The operation after a run of events, taken in order.
pub open spec fn run(op: CompositeView, events: Seq<Event>) -> CompositeView
    decreases events.len(),
{
    if events.len() == 0 {
        op
    } else {
        step(run(op, events.drop_last()), events.last())
    }
}

/// Whether the service at position `service` answers somewhere in `events`.
pub open spec fn answers(events: Seq<Event>, service: int) -> bool {
    exists|k: int, ok: bool| 0 <= k < events.len() && events[k] == Event::Resolve(service, ok)
}

/// Whether the force signal is fired somewhere in `events`.
pub open spec fn fires(events: Seq<Event>) -> bool {
    exists|k: int| 0 <= k < events.len() && events[k] == Event::Fire
}

/// A run of events neither adds nor removes a service, and a service is still
/// stopping after it exactly if it has not answered in it.
pub proof fn lemma_run_statuses(n: nat, force: SignalState, events: Seq<Event>, service: int)
    ensures
        run(CompositeView::started(n, force), events).services.len() == n,
        run(CompositeView::started(n, force), events).is_stopping(service) <==> 0 <= service < n
            && !answers(events, service),
    decreases events.len(),
{
    let start = CompositeView::started(n, force);
    if events.len() == 0 {
    } else {
        let before = events.drop_last();
        lemma_run_statuses(n, force, before, service);
        let mid = run(start, before);
        let end = run(start, events);
        assert(end == step(mid, events.last()));
        if answers(before, service) {
            let (k, ok) = choose|k: int, ok: bool|
                0 <= k < before.len() && before[k] == Event::Resolve(service, ok);
            assert(events[k] == Event::Resolve(service, ok));
        }
        if answers(events, service) && !answers(before, service) {
            let (k, ok) = choose|k: int, ok: bool|
                0 <= k < events.len() && events[k] == Event::Resolve(service, ok);
            if k < before.len() {
                assert(before[k] == Event::Resolve(service, ok));
            }
            assert(events.last() == Event::Resolve(service, ok));
        }
        match events.last() {
            Event::Fire => {},
            Event::Resolve(s, ok) => {
                if s == service {
                    assert(events[events.len() - 1] == Event::Resolve(service, ok));
                }
            },
        }
    }
}

/// A run of events leaves the force signal fired if it was fired before or is
/// fired in the run, unset if there was none, and pending otherwise.
pub proof fn lemma_run_force(op: CompositeView, events: Seq<Event>)
    ensures
        run(op, events).force == if op.force == SignalState::Pending && fires(events) {
            SignalState::Fired
        } else {
            op.force
        },
    decreases events.len(),
{
    if events.len() == 0 {
    } else {
        let before = events.drop_last();
        lemma_run_force(op, before);
        if fires(before) {
            let k = choose|k: int| 0 <= k < before.len() && before[k] == Event::Fire;
            assert(events[k] == Event::Fire);
        }
        if fires(events) && !fires(before) {
            let k = choose|k: int| 0 <= k < events.len() && events[k] == Event::Fire;
            if k < before.len() {
                assert(before[k] == Event::Fire);
            }
            assert(events.last() == Event::Fire);
        }
        if events.last() == Event::Fire {
            assert(events[events.len() - 1] == Event::Fire);
        }
    }
}

/// On an idle group with any number of services, starting a shutdown succeeds
/// and asks each registered service to stop exactly once: the operation holds
/// one entry for each of them, in registration order. Whatever happens after
/// that, the operation is resolved exactly when every one of these services
/// has answered, and so never before the last of them has.
pub proof fn law_shutdown_resolves_after_all_services<S>(
    group: GroupView<S>,
    force: Option<ForceSignal>,
    events: Seq<Event>,
)
    requires
        !group.shutting_down,
    ensures
        group.shutdown_all_result(force) is Ok,
        group.shutdown_all_result(force)->Ok_0.services.len() == group.services.len(),
        forall|i: int|
            0 <= i < group.services.len() ==> group.shutdown_all_result(force)->Ok_0.is_stopping(i),
        run(group.shutdown_all_result(force)->Ok_0, events).is_resolved() <==> forall|i: int|
            0 <= i < group.services.len() ==> answers(events, i),
{
    let n = group.services.len();
    let start = CompositeView::started(n, signal_state(force));
    let end = run(start, events);
    assert forall|i: int| end.is_stopping(i) <==> 0 <= i < n && !answers(events, i) by {
        lemma_run_statuses(n, signal_state(force), events, i);
    }
    if end.is_resolved() {
        assert forall|i: int| 0 <= i < n implies answers(events, i) by {
            assert(!end.is_stopping(i));
        }
    }
}

/// Once a shutdown was asked for, every further request is refused with
/// `AlreadyShuttingDown`. It starts no operation, so no service is asked to stop
/// a second time, and it leaves the group as it was.
pub proof fn law_second_shutdown_is_refused<S>(
    group: GroupView<S>,
    first: Option<ForceSignal>,
    second: Option<ForceSignal>,
)
    ensures
        group.shutdown_all_next().shutdown_all_result(second) == Err::<
            CompositeView,
            ShutdownError,
        >(ShutdownError::AlreadyShuttingDown),
        group.shutdown_all_next().shutdown_all_next() == group.shutdown_all_next(),
        group.shutdown_all_next().shutdown_on_drop_result() is None,
{
}

/// A shutdown that is started without a force signal hands no service a handle,
/// and no run of events gives it a signal: there is never one to observe. Which
/// services have answered after a run of events does not depend on the force
/// signal, so each service resolves on its own.
pub proof fn law_without_force_no_handle<S>(
    group: GroupView<S>,
    other: SignalState,
    events: Seq<Event>,
    handle: ForceHandle,
)
    requires
        !group.shutting_down,
    ensures
        forall|i: int| group.shutdown_all_result(None)->Ok_0.handle(i) is None,
        forall|i: int| run(group.shutdown_all_result(None)->Ok_0, events).handle(i) is None,
        run(group.shutdown_all_result(None)->Ok_0, events).force == SignalState::Unset,
        !run(group.shutdown_all_result(None)->Ok_0, events).observes_fired(handle),
        forall|i: int|
            run(group.shutdown_all_result(None)->Ok_0, events).is_stopping(i) == run(
                CompositeView::started(group.services.len(), other),
                events,
            ).is_stopping(i),
{
    let n = group.services.len();
    let start = CompositeView::started(n, SignalState::Unset);
    lemma_run_force(start, events);
    assert forall|i: int|
        run(start, events).is_stopping(i) == run(
            CompositeView::started(n, other),
            events,
        ).is_stopping(i) by {
        lemma_run_statuses(n, SignalState::Unset, events, i);
        lemma_run_statuses(n, other, events, i);
    }
}

/// A shutdown that is started with a force signal hands every service a handle.
/// All handles observe the same thing at every moment: the signal is fired to
/// them exactly if it had fired when the shutdown started or was fired since.
/// So nobody sees it fired before it is, everybody sees it fired once it is, and
/// a service that waits for its handle to show the firing answers only after
/// the signal was fired.
pub proof fn law_force_reaches_every_handle<S>(
    group: GroupView<S>,
    force: ForceSignal,
    events: Seq<Event>,
    service: int,
)
    requires
        group.wf(),
        !group.shutting_down,
        0 <= service < group.services.len(),
    ensures
        group.shutdown_all_result(Some(force))->Ok_0.handle(service) is Some,
        run(group.shutdown_all_result(Some(force))->Ok_0, events).handle(service)
            == group.shutdown_all_result(Some(force))->Ok_0.handle(service),
        run(group.shutdown_all_result(Some(force))->Ok_0, events).observes_fired(
            group.shutdown_all_result(Some(force))->Ok_0.handle(service)->0,
        ) <==> force.is_fired_spec() || fires(events),
{
    let n = group.services.len();
    let start = CompositeView::started(n, signal_state(Some(force)));
    lemma_run_force(start, events);
    lemma_run_statuses(n, signal_state(Some(force)), events, service);
    ForceHandle::lemma_new_spec(service as nat);
}

/// Once a handle has seen the force signal fired, it sees it fired after every
/// further run of events.
pub proof fn law_fired_stays_fired(op: CompositeView, events: Seq<Event>, handle: ForceHandle)
    requires
        op.observes_fired(handle),
    ensures
        run(op, events).observes_fired(handle),
    decreases events.len(),
{
    if events.len() > 0 {
        law_fired_stays_fired(op, events.drop_last(), handle);
    }
}

/// Giving up a group that was never shut down starts the shutdown of every
/// registered service under a force signal that has fired already: each service
/// is asked to stop once, each handle shows the firing from the start, and the
/// operation that the caller has to wait for is resolved exactly when every
/// service has answered.
pub proof fn law_drop_forces_every_service<S>(group: GroupView<S>, events: Seq<Event>)
    requires
        group.wf(),
        !group.shutting_down,
    ensures
        group.shutdown_on_drop_result() is Some,
        group.shutdown_on_drop_result()->0.services.len() == group.services.len(),
        forall|i: int|
            0 <= i < group.services.len() ==> {
                &&& (#[trigger] group.shutdown_on_drop_result()->0.is_stopping(i))
                &&& group.shutdown_on_drop_result()->0.handle(i) is Some
                &&& group.shutdown_on_drop_result()->0.observes_fired(
                    group.shutdown_on_drop_result()->0.handle(i)->0,
                )
            },
        run(group.shutdown_on_drop_result()->0, events).is_resolved() <==> forall|i: int|
            0 <= i < group.services.len() ==> answers(events, i),
{
    let n = group.services.len();
    let start = CompositeView::started(n, SignalState::Fired);
    let end = run(start, events);
    assert forall|i: int| 0 <= i < n implies start.observes_fired(start.handle(i)->0) by {
        ForceHandle::lemma_new_spec(i as nat);
    }
    assert forall|i: int| end.is_stopping(i) <==> 0 <= i < n && !answers(events, i) by {
        lemma_run_statuses(n, SignalState::Fired, events, i);
    }
    if end.is_resolved() {
        assert forall|i: int| 0 <= i < n implies answers(events, i) by {
            assert(!end.is_stopping(i));
        }
    }
}

/// A group that waits with at least one service shuts down in two phases. The
/// first termination signal starts the shutdown: every service is asked to
/// stop and handed a handle to a force signal that is still pending. The
/// second one fires that signal. No later one changes anything. Neither signal
/// finishes the shutdown: that takes the answers of the services.
pub proof fn law_two_phase_shutdown<S>(group: GroupView<S>)
    requires
        !group.shutting_down,
        group.services.len() > 0,
    ensures
        TerminationView::waiting(group).wf(),
        TerminationView::waiting(group).reaction() == Reaction::Started,
        TerminationView::waiting(group).on_signal().wf(),
        TerminationView::waiting(group).on_signal().phase == Phase::ShuttingDown,
        TerminationView::waiting(group).on_signal().operation == Some(
            CompositeView::started(group.services.len(), SignalState::Pending),
        ),
        TerminationView::waiting(group).on_signal().reaction() == Reaction::Forced,
        TerminationView::waiting(group).on_signal().on_signal().wf(),
        TerminationView::waiting(group).on_signal().on_signal().phase == Phase::ShuttingDown,
        TerminationView::waiting(group).on_signal().on_signal().operation == Some(
            CompositeView::started(group.services.len(), SignalState::Fired),
        ),
        TerminationView::waiting(group).on_signal().on_signal().reaction() == Reaction::Ignored,
{
    let n = group.services.len();
    let op = CompositeView::started(n, SignalState::Pending);
    assert(op.is_stopping(0));
    op.lemma_fire_keeps_statuses();
    assert(op.fire() == CompositeView::started(n, SignalState::Fired));
}

/// Whatever signals and answers come in, the state stays one that can be
/// reached, a group that was shutting down stays so, and a shutdown that is
/// finished stays finished.
pub proof fn law_termination_steps<S>(state: TerminationView<S>, service: int, ok: bool)
    requires
        state.wf(),
    ensures
        state.on_signal().wf(),
        state.on_resolved(service, ok).wf(),
        state.group.shutting_down ==> state.on_signal().group.shutting_down,
        state.phase == Phase::Finished ==> state.on_signal().phase == Phase::Finished
            && state.on_resolved(service, ok).phase == Phase::Finished,
        state.on_resolved(service, ok).phase == Phase::Finished <==> state.phase == Phase::Finished
            || (state.phase == Phase::ShuttingDown && state.operation->0.resolve(
            service,
            ok,
        ).is_resolved()),
{
    if state.phase == Phase::ShuttingDown {
        state.operation->0.lemma_fire_keeps_statuses();
    }
    if state.phase == Phase::AwaitingSignal && !state.group.shutting_down {
        let op = CompositeView::started(state.group.services.len(), SignalState::Pending);
        assert(state.on_signal().operation == Some(op));
    }
}

} // verus!
