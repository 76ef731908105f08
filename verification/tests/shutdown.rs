use std::cell::RefCell;

use databend_base::shutdown::interrupt_exit_code;
use databend_base::shutdown::CompositeOperation;
use databend_base::shutdown::ForceHandle;
use databend_base::shutdown::ForceSignal;
use databend_base::shutdown::Graceful;
use databend_base::shutdown::Phase;
use databend_base::shutdown::Reaction;
use databend_base::shutdown::ServiceStatus;
use databend_base::shutdown::ShutdownError;
use databend_base::shutdown::ShutdownGroup;
use databend_base::shutdown::SignalState;
use databend_base::shutdown::SIGNAL_CHANNEL_CAPACITY;

/// A service that blocks until the force signal fires.
struct SlowService {
    name: &'static str,
}

/// The shutdown of a [`SlowService`] while it runs.
struct SlowStopping {
    name: &'static str,
    force: Option<ForceHandle>,
}

impl Graceful for SlowService {
    type Stopping = SlowStopping;

    fn shutdown(self, force: Option<ForceHandle>) -> SlowStopping {
        SlowStopping { name: self.name, force }
    }
}

impl SlowStopping {
    /// Lets the service look at the operation; answers whether it is done.
    fn poll(&self, op: &CompositeOperation) -> bool {
        match &self.force {
            Some(handle) => op.observes_fired(handle),
            None => true,
        }
    }
}

fn slow(name: &'static str) -> SlowService {
    SlowService { name }
}

/// A service that stops at once and never looks at the force signal.
struct FastService;

impl Graceful for FastService {
    type Stopping = Result<(), String>;

    fn shutdown(self, _force: Option<ForceHandle>) -> Result<(), String> {
        Ok(())
    }
}

#[test]
fn test_graceful() {
    // A service that waits for the force signal answers only after it fired.
    let mut group = ShutdownGroup::new();
    group.push(slow("svc"));
    let (mut op, mut pending) = group.shutdown_all(Some(ForceSignal::pending())).unwrap();
    let svc = pending.pop().unwrap();

    assert!(!svc.poll(&op));
    assert!(!op.is_resolved());

    assert!(op.fire_force());

    assert!(svc.poll(&op));
    assert!(op.resolve(0, true));
    assert!(op.is_resolved());
}

#[test]
fn test_shutdown_group() {
    // Two services in a group. The first signal asks both to stop, the second
    // one fires the force signal.
    let mut group = ShutdownGroup::new();
    group.push(slow("svc1"));
    group.push(slow("svc2"));

    let mut waiting = group.wait_to_terminate();
    assert_eq!(waiting.phase(), Phase::AwaitingSignal);
    assert!(waiting.operation().is_none());
    assert_eq!(waiting.group().len(), 2);

    // The first signal.
    let (reaction, services) = waiting.on_signal();
    assert_eq!(reaction, Reaction::Started);
    assert_eq!(waiting.phase(), Phase::ShuttingDown);
    assert_eq!(services.len(), 2);
    assert_eq!(services[0].name, "svc1");
    assert_eq!(services[1].name, "svc2");
    {
        let op = waiting.operation().as_ref().unwrap();
        assert_eq!(op.len(), 2);
        assert_eq!(op.force_state(), SignalState::Pending);
        for (i, svc) in services.iter().enumerate() {
            assert_eq!(svc.force, op.handle(i));
            assert!(svc.force.is_some());
            // Nothing has fired: both stay blocked.
            assert!(!svc.poll(op));
        }
        assert!(!op.is_resolved());
    }
    assert!(!waiting.is_finished());

    // The second signal.
    let (reaction, started) = waiting.on_signal();
    assert_eq!(reaction, Reaction::Forced);
    assert!(started.is_empty());
    {
        let op = waiting.operation().as_ref().unwrap();
        assert_eq!(op.force_state(), SignalState::Fired);
        assert!(services.iter().all(|svc| svc.poll(op)));
    }
    assert!(!waiting.on_resolved(0, true));
    assert!(!waiting.is_finished());
    assert!(waiting.on_resolved(1, true));
    assert!(waiting.is_finished());
    assert_eq!(waiting.phase(), Phase::Finished);

    // Further signals change nothing and call nobody.
    let (reaction, started) = waiting.on_signal();
    assert_eq!(reaction, Reaction::Ignored);
    assert!(started.is_empty());
    assert!(waiting.is_finished());
}

#[test]
fn test_shutdown_group_drop() {
    // Giving up the group forces the shutdown: nobody is left blocked.
    let mut group = ShutdownGroup::new();
    group.push(slow("svc"));

    let (mut op, services) = group.shutdown_on_drop().unwrap();
    assert_eq!(op.len(), 1);
    assert_eq!(op.force_state(), SignalState::Fired);
    assert_eq!(services.len(), 1);
    assert!(services[0].poll(&op));
    assert!(op.resolve(0, true));
    assert!(op.is_resolved());

    // A second one finds nothing to do.
    assert!(group.shutdown_on_drop().is_none());
}

#[test]
fn test_shutdown_all_without_services_resolves_immediately() {
    let mut group: ShutdownGroup<SlowService> = ShutdownGroup::new();
    let (op, services) = group.shutdown_all(None).unwrap();
    assert_eq!(op.len(), 0);
    assert!(services.is_empty());
    assert!(op.is_resolved());
    assert!(group.is_shutting_down());
}

#[test]
fn test_drop_with_service_that_ignores_force() {
    let mut group = ShutdownGroup::new();
    group.push(FastService);
    // The service returns at once, without a look at its handle.
    let (mut op, answers) = group.shutdown_on_drop().unwrap();
    assert_eq!(answers, vec![Ok(())]);
    assert!(!op.is_resolved());
    assert!(op.resolve(0, answers[0].is_ok()));
    assert!(op.is_resolved());
}

#[test]
fn test_second_shutdown_is_refused() {
    let calls = RefCell::new(0);
    let count = |name: &'static str, _force: Option<ForceHandle>| {
        *calls.borrow_mut() += 1;
        name
    };
    let mut group = ShutdownGroup::new();
    group.push("a");
    group.push("b");
    assert!(!group.is_shutting_down());
    assert_eq!(group.services(), &vec!["a", "b"]);

    let (op, started) = group.shutdown_all_with(Some(ForceSignal::pending()), &count).unwrap();
    assert_eq!(op.len(), 2);
    assert_eq!(started, vec!["a", "b"]);
    assert_eq!(*calls.borrow(), 2);
    assert!(group.is_shutting_down());
    // The services have gone over to their shutdown.
    assert_eq!(group.len(), 0);

    assert_eq!(group.shutdown_all_with(None, &count).err(), Some(ShutdownError::AlreadyShuttingDown));
    assert_eq!(
        group.shutdown_all_with(Some(ForceSignal::fired()), &count).err(),
        Some(ShutdownError::AlreadyShuttingDown)
    );
    assert!(group.shutdown_on_drop_with(&count).is_none());
    assert_eq!(*calls.borrow(), 2);
    assert!(group.is_shutting_down());
}

#[test]
fn test_every_service_is_started_once_and_in_order() {
    for n in [0usize, 1, 2, 7, 100] {
        let mut group = ShutdownGroup::new();
        for i in 0..n {
            group.push(i);
        }
        let (mut op, started) = group
            .shutdown_all_with(Some(ForceSignal::pending()), |i, force: Option<ForceHandle>| {
                (i, force)
            })
            .unwrap();
        assert_eq!(op.len(), n);
        assert_eq!(started.len(), n);
        for (i, (service, force)) in started.iter().enumerate() {
            assert_eq!(*service, i);
            assert_eq!(force.unwrap().service(), i);
        }
        // The operation is resolved with the last answer, not before.
        for i in 0..n {
            assert!(!op.is_resolved());
            assert!(op.resolve(i, true));
        }
        assert!(op.is_resolved());
    }
}

#[test]
fn test_without_force_no_service_gets_a_handle() {
    let mut group = ShutdownGroup::new();
    group.push(1);
    group.push(2);
    group.push(3);
    let (mut op, forces) = group.shutdown_all_with(None, |_service, force| force).unwrap();
    assert_eq!(forces, vec![None, None, None]);
    assert_eq!(op.force_state(), SignalState::Unset);
    for i in 0..3 {
        assert_eq!(op.handle(i), None);
        assert_eq!(op.status(i), Some(ServiceStatus::Stopping));
    }
    assert_eq!(op.status(3), None);
    // There is nothing to fire.
    assert!(!op.fire_force());
    assert_eq!(op.force_state(), SignalState::Unset);

    // Each service resolves on its own.
    assert!(op.resolve(1, true));
    assert!(!op.is_resolved());
    assert!(op.resolve(0, false));
    assert!(op.resolve(2, true));
    assert!(op.is_resolved());
    assert_eq!(op.status(0), Some(ServiceStatus::Failed));
    assert_eq!(op.status(1), Some(ServiceStatus::Stopped));
}

#[test]
fn test_force_is_seen_by_every_handle_once_fired() {
    let mut group = ShutdownGroup::new();
    for name in ["a", "b", "c", "d"] {
        group.push(name);
    }
    let (mut op, handles) = group
        .shutdown_all_with(Some(ForceSignal::pending()), |_name, force| force.unwrap())
        .unwrap();
    assert_eq!(op.handle(4), None);
    for (i, h) in handles.iter().enumerate() {
        assert_eq!(h.service(), i);
        assert_eq!(Some(*h), op.handle(i));
        assert!(!op.observes_fired(h));
    }
    // Answers do not fire the signal.
    assert!(op.resolve(2, true));
    assert!(handles.iter().all(|h| !op.observes_fired(h)));

    // The signal fires once.
    assert!(op.fire_force());
    assert!(!op.fire_force());
    assert!(handles.iter().all(|h| op.observes_fired(h)));
    assert!(op.resolve(0, true));
    assert!(handles.iter().all(|h| op.observes_fired(h)));
}

#[test]
fn test_answers_count_once() {
    let mut op = CompositeOperation::start(2, None);
    assert!(op.resolve(0, false));
    // A second answer of the same service and one of an unknown service are
    // not recorded.
    assert!(!op.resolve(0, true));
    assert!(!op.resolve(7, true));
    assert_eq!(op.status(0), Some(ServiceStatus::Failed));
    assert!(!op.is_resolved());
    assert!(op.resolve(1, true));
    assert!(op.is_resolved());
}

#[test]
fn test_force_signal_fires_once() {
    let mut signal = ForceSignal::pending();
    assert!(!signal.is_fired());
    assert!(signal.fire());
    assert!(signal.is_fired());
    assert!(!signal.fire());
    assert!(signal.is_fired());
    assert!(ForceSignal::fired().is_fired());
}

#[test]
fn test_wait_to_terminate_on_group_that_is_shutting_down() {
    let mut group = ShutdownGroup::new();
    group.push(slow("a"));
    let _started = group.shutdown_all(None).unwrap();

    let mut waiting = group.wait_to_terminate();
    let (reaction, started) = waiting.on_signal();
    assert_eq!(reaction, Reaction::AlreadyShuttingDown);
    assert!(started.is_empty());
    assert!(waiting.is_finished());
    assert!(waiting.operation().is_none());
    assert_eq!(waiting.on_signal().0, Reaction::Ignored);
    assert!(waiting.group().is_shutting_down());
}

#[test]
fn test_wait_to_terminate_without_services() {
    let group: ShutdownGroup<SlowService> = ShutdownGroup::default();
    let mut waiting = group.wait_to_terminate();
    assert_eq!(waiting.on_signal().0, Reaction::Started);
    assert!(waiting.is_finished());
    assert!(waiting.operation().as_ref().unwrap().is_resolved());
}

#[test]
fn test_answers_before_first_signal_are_ignored() {
    let mut group = ShutdownGroup::new();
    group.push(slow("a"));
    let mut waiting = group.wait_to_terminate();
    assert!(!waiting.on_resolved(0, true));
    assert_eq!(waiting.phase(), Phase::AwaitingSignal);
    assert_eq!(waiting.on_signal().0, Reaction::Started);
    assert!(waiting.on_resolved(0, false));
}

#[test]
fn test_on_signal_with_calls_the_given_function() {
    let calls = RefCell::new(Vec::new());
    let record = |name: &'static str, force: Option<ForceHandle>| {
        calls.borrow_mut().push(name);
        force
    };
    let mut group = ShutdownGroup::new();
    group.push("a");
    group.push("b");
    let mut waiting = group.wait_to_terminate();
    assert!(calls.borrow().is_empty());

    let (reaction, handles) = waiting.on_signal_with(&record);
    assert_eq!(reaction, Reaction::Started);
    assert_eq!(*calls.borrow(), vec!["a", "b"]);
    assert_eq!(handles.len(), 2);
    assert!(handles.iter().all(|h| h.is_some()));

    let (reaction, handles) = waiting.on_signal_with(&record);
    assert_eq!(reaction, Reaction::Forced);
    assert!(handles.is_empty());
    assert_eq!(calls.borrow().len(), 2);
}

#[test]
fn test_error_message() {
    assert_eq!(
        ShutdownError::AlreadyShuttingDown.message(),
        "ShutdownGroup is already shutting down"
    );
}

#[test]
fn test_interrupt_exit_code() {
    assert_eq!(interrupt_exit_code(true), None);
    assert_eq!(interrupt_exit_code(false), Some(1));
    assert_eq!(SIGNAL_CHANNEL_CAPACITY, 16);
}
