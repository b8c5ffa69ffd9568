use std::sync::atomic::{AtomicUsize, Ordering};
use std::sync::Arc;
use std::task::{Wake, Waker};

use waker_registration::registration::{register_step, RegisterStep};
use waker_registration::WakerRegistration;

/// A task whose wakeups are counted.
struct CountingTask {
    wakes: AtomicUsize,
}

impl Wake for CountingTask {
    fn wake(self: Arc<Self>) {
        self.wakes.fetch_add(1, Ordering::SeqCst);
    }
}

fn task() -> Arc<CountingTask> {
    Arc::new(CountingTask { wakes: AtomicUsize::new(0) })
}

fn waker_of(t: &Arc<CountingTask>) -> Waker {
    Waker::from(t.clone())
}

fn wakes(t: &Arc<CountingTask>) -> usize {
    t.wakes.load(Ordering::SeqCst)
}

#[test]
fn fresh_registration_is_empty() {
    let mut reg = WakerRegistration::new();
    assert!(!reg.occupied());
    reg.wake();
    assert!(!reg.occupied());
}

#[test]
fn default_registration_is_empty() {
    let reg = WakerRegistration::default();
    assert!(!reg.occupied());
}

#[test]
fn register_then_wake_invokes_once() {
    let t = task();
    let h = waker_of(&t);
    let mut reg = WakerRegistration::new();
    reg.register(&h);
    assert!(reg.occupied());
    assert_eq!(wakes(&t), 0);
    reg.wake();
    assert_eq!(wakes(&t), 1);
    assert!(!reg.occupied());
}

#[test]
fn same_task_registration_keeps_handle() {
    let t = task();
    let h1 = waker_of(&t);
    let h2 = h1.clone();
    assert!(h1.will_wake(&h2));
    let mut reg = WakerRegistration::new();
    reg.register(&h1);
    reg.register(&h2);
    assert_eq!(wakes(&t), 0);
    assert!(reg.occupied());
    reg.wake();
    assert_eq!(wakes(&t), 1);
    assert!(!reg.occupied());
}

#[test]
fn same_task_registration_clones_nothing() {
    let t = task();
    let h = waker_of(&t);
    let mut reg = WakerRegistration::new();
    reg.register(&h);
    let held = Arc::strong_count(&t);
    reg.register(&h);
    reg.register(&h);
    assert_eq!(Arc::strong_count(&t), held);
    assert_eq!(wakes(&t), 0);
}

#[test]
fn displacement_rewakes_evicted_task() {
    let t1 = task();
    let t2 = task();
    let h1 = waker_of(&t1);
    let h2 = waker_of(&t2);
    let mut reg = WakerRegistration::new();
    reg.register(&h1);
    reg.register(&h2);
    assert_eq!(wakes(&t1), 1);
    assert_eq!(wakes(&t2), 0);
    assert!(reg.occupied());
    reg.wake();
    assert_eq!(wakes(&t1), 1);
    assert_eq!(wakes(&t2), 1);
    assert!(!reg.occupied());
}

#[test]
fn two_tasks_alternating_wake_each_other() {
    let t1 = task();
    let t2 = task();
    let h1 = waker_of(&t1);
    let h2 = waker_of(&t2);
    let mut reg = WakerRegistration::new();
    reg.register(&h1);
    reg.register(&h2);
    reg.register(&h1);
    reg.register(&h2);
    assert_eq!(wakes(&t1), 2);
    assert_eq!(wakes(&t2), 1);
    reg.wake();
    assert_eq!(wakes(&t2), 2);
}

#[test]
fn wake_twice_invokes_once() {
    let t = task();
    let h = waker_of(&t);
    let mut reg = WakerRegistration::new();
    reg.register(&h);
    reg.wake();
    reg.wake();
    assert_eq!(wakes(&t), 1);
    assert!(!reg.occupied());
}

#[test]
fn drop_without_wake_invokes_nothing() {
    let t = task();
    let h = waker_of(&t);
    let base = Arc::strong_count(&t);
    {
        let mut reg = WakerRegistration::new();
        reg.register(&h);
        assert_eq!(Arc::strong_count(&t), base + 1);
    }
    assert_eq!(wakes(&t), 0);
    assert_eq!(Arc::strong_count(&t), base);
}

#[test]
fn wake_releases_held_handle() {
    let t = task();
    let h = waker_of(&t);
    let base = Arc::strong_count(&t);
    let mut reg = WakerRegistration::new();
    reg.register(&h);
    reg.wake();
    assert_eq!(Arc::strong_count(&t), base);
}

#[test]
fn reuse_across_cycles() {
    let t1 = task();
    let t2 = task();
    let h1 = waker_of(&t1);
    let h2 = waker_of(&t2);
    let mut reg = WakerRegistration::new();
    assert!(!reg.occupied());
    reg.register(&h1);
    assert!(reg.occupied());
    assert_eq!(wakes(&t1), 0);
    reg.wake();
    assert!(!reg.occupied());
    assert_eq!(wakes(&t1), 1);
    reg.register(&h2);
    assert!(reg.occupied());
    assert_eq!(wakes(&t1), 1);
    assert_eq!(wakes(&t2), 0);
    reg.wake();
    assert!(!reg.occupied());
    assert_eq!(wakes(&t1), 1);
    assert_eq!(wakes(&t2), 1);
}

#[test]
fn register_step_decisions() {
    assert_eq!(register_step(false, false), RegisterStep::Store);
    assert_eq!(register_step(false, true), RegisterStep::Store);
    assert_eq!(register_step(true, true), RegisterStep::Keep);
    assert_eq!(register_step(true, false), RegisterStep::Displace);
}
