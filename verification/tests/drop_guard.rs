use std::sync::atomic::AtomicBool;
use std::sync::atomic::AtomicUsize;
use std::sync::atomic::Ordering;
use std::sync::Arc;

use databend_base::drop_guard::DropGuard;

#[test]
fn test_executes_on_drop() {
    let called = Arc::new(AtomicBool::new(false));
    let called_clone = called.clone();
    {
        let mut guard = DropGuard::new(move || {
            called_clone.store(true, Ordering::SeqCst);
        });
        assert!(!called.load(Ordering::SeqCst));
        // The guard is run where it goes out of use.
        guard.run();
    }
    assert!(called.load(Ordering::SeqCst));
}

#[test]
fn test_executes_exactly_once() {
    let count = Arc::new(AtomicUsize::new(0));
    let count_clone = count.clone();
    {
        let mut guard = DropGuard::new(move || {
            count_clone.fetch_add(1, Ordering::SeqCst);
        });
        guard.run();
    }
    assert_eq!(count.load(Ordering::SeqCst), 1);
}

#[test]
fn test_cancel_prevents_execution() {
    let called = Arc::new(AtomicBool::new(false));
    let called_clone = called.clone();
    {
        let mut guard = DropGuard::new(move || {
            called_clone.store(true, Ordering::SeqCst);
        });
        assert!(guard.is_active());
        guard.cancel();
        assert!(!guard.is_active());
        guard.run();
    }
    assert!(!called.load(Ordering::SeqCst));
}

#[test]
fn test_run_executes_once() {
    let count = Arc::new(AtomicUsize::new(0));
    let count_clone = count.clone();
    let mut guard = DropGuard::new(move || {
        count_clone.fetch_add(1, Ordering::SeqCst);
    });
    assert!(guard.is_active());
    guard.run();
    assert!(!guard.is_active());
    guard.run();
    assert_eq!(count.load(Ordering::SeqCst), 1);
}

#[test]
fn test_run_after_cancel_does_nothing() {
    let called = Arc::new(AtomicBool::new(false));
    let called_clone = called.clone();
    let mut guard = DropGuard::new(move || {
        called_clone.store(true, Ordering::SeqCst);
    });
    guard.cancel();
    guard.run();
    assert!(!called.load(Ordering::SeqCst));
}
