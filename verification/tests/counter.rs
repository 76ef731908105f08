use std::sync::atomic::AtomicI64;
use std::sync::atomic::Ordering;
use std::sync::Arc;

use databend_base::counter::Counted;
use databend_base::counter::Counter;

struct Foo {}

struct TestCounter {
    n: Arc<AtomicI64>,
}

impl Counter for TestCounter {
    fn incr(&mut self, n: i64) {
        self.n.fetch_add(n, Ordering::Relaxed);
    }
}

/// Counts through a closure.
struct FnCounter<F: FnMut(i64)>(F);

impl<F: FnMut(i64)> Counter for FnCounter<F> {
    fn incr(&mut self, n: i64) {
        (self.0)(n)
    }
}

#[test]
fn test_counted() {
    let count = Arc::new(AtomicI64::new(0));
    assert_eq!(0, count.load(Ordering::Relaxed));

    {
        let a = Counted::new(Foo {}, TestCounter { n: count.clone() });
        assert_eq!(1, count.load(Ordering::Relaxed));
        {
            let b = Counted::new(Foo {}, TestCounter { n: count.clone() });
            assert_eq!(2, count.load(Ordering::Relaxed));
            // The value is released where it goes out of use.
            b.into_inner();
        }
        assert_eq!(1, count.load(Ordering::Relaxed));
        a.into_inner();
    }
    assert_eq!(0, count.load(Ordering::Relaxed));
}

#[test]
fn test_counted_guard() {
    let count = Arc::new(AtomicI64::new(0));
    assert_eq!(0, count.load(Ordering::Relaxed));

    {
        let a = Counted::counted_guard(FnCounter(|i: i64| {
            count.fetch_add(i, Ordering::Relaxed);
        }));
        assert_eq!(1, count.load(Ordering::Relaxed));
        {
            let b = Counted::counted_guard(FnCounter(|i: i64| {
                count.fetch_add(i * 2, Ordering::Relaxed);
            }));
            assert_eq!(3, count.load(Ordering::Relaxed));
            b.into_inner();
        }
        assert_eq!(1, count.load(Ordering::Relaxed));
        a.into_inner();
    }
    assert_eq!(0, count.load(Ordering::Relaxed));
}

#[test]
fn test_counter_mut() {
    let count = Arc::new(AtomicI64::new(0));
    let mut guarded = Counted::new((), TestCounter { n: count.clone() });
    assert_eq!(1, count.load(Ordering::Relaxed));

    // Raise the count by hand through counter_mut.
    guarded.counter_mut().incr(5);
    assert_eq!(6, count.load(Ordering::Relaxed));

    guarded.into_inner();
    assert_eq!(5, count.load(Ordering::Relaxed)); // the release lowers by 1
}

#[test]
fn test_replace() {
    let count = Arc::new(AtomicI64::new(0));
    let mut guarded = Counted::new(10_i32, TestCounter { n: count.clone() });
    assert_eq!(1, count.load(Ordering::Relaxed));
    assert_eq!(10, *guarded);

    let old = guarded.replace(20);
    assert_eq!(10, old);
    assert_eq!(20, *guarded);
    assert_eq!(1, count.load(Ordering::Relaxed)); // count unchanged

    assert_eq!(20, guarded.into_inner());
    assert_eq!(0, count.load(Ordering::Relaxed));
}

#[test]
fn test_as_ref_as_mut() {
    let count = Arc::new(AtomicI64::new(0));
    let mut guarded = Counted::new(vec![1, 2, 3], TestCounter { n: count.clone() });

    // AsRef
    let slice: &Vec<i32> = guarded.as_ref();
    assert_eq!(&[1, 2, 3], slice.as_slice());

    // AsMut
    let vec_mut: &mut Vec<i32> = guarded.as_mut();
    vec_mut.push(4);
    assert_eq!(&[1, 2, 3, 4], guarded.as_ref().as_slice());
}

#[test]
fn test_into_inner() {
    let count = Arc::new(AtomicI64::new(0));
    let guarded = Counted::new(42_i32, TestCounter { n: count.clone() });
    assert_eq!(1, count.load(Ordering::Relaxed));

    let value = guarded.into_inner();
    assert_eq!(42, value);
    assert_eq!(0, count.load(Ordering::Relaxed)); // lowered by into_inner
}

#[test]
fn test_new_raises_count_once() {
    let count = Arc::new(AtomicI64::new(0));
    let a = Counted::new((), TestCounter { n: count.clone() });
    assert_eq!(1, count.load(Ordering::Relaxed));
    let b = Counted::counted_guard(TestCounter { n: count.clone() });
    assert_eq!(2, count.load(Ordering::Relaxed));
    b.into_inner();
    assert_eq!(1, count.load(Ordering::Relaxed));
    a.into_inner();
    assert_eq!(0, count.load(Ordering::Relaxed));
}

#[test]
fn test_counter_mut_and_replace_keep_count() {
    let count = Arc::new(AtomicI64::new(0));
    let mut guarded = Counted::new(10_i32, TestCounter { n: count.clone() });
    assert_eq!(10, *guarded);

    guarded.counter_mut().incr(5);
    assert_eq!(6, count.load(Ordering::Relaxed));

    let old = guarded.replace(20);
    assert_eq!(10, old);
    assert_eq!(20, *guarded);
    assert_eq!(6, count.load(Ordering::Relaxed));
    assert_eq!(6, guarded.counter().n.load(Ordering::Relaxed));
}

#[derive(Default)]
struct LocalCounter {
    total: i64,
    calls: usize,
}

impl Counter for LocalCounter {
    fn incr(&mut self, n: i64) {
        self.total += n;
        self.calls += 1;
    }
}

#[test]
fn test_guard_starts_from_default_counter() {
    let guard: Counted<LocalCounter, ()> = Counted::guard();
    assert_eq!(guard.counter().total, 1);
    assert_eq!(guard.counter().calls, 1);
}
