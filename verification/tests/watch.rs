//! The watcher state machine: liveness, transient tolerance, fatal
//! termination and clean shutdown.

use navx::protocol::{Failure, FatalReason, Request};
use navx::watch::{worker_step, CacheEntry, Watcher, WorkerAction};

/// An adapter that replays a scripted sequence of outcomes, repeating the
/// last one forever.
struct Scripted {
    script: Vec<Result<u32, Failure>>,
    calls: usize,
    marker: u32,
}

impl Scripted {
    fn new(script: Vec<Result<u32, Failure>>) -> Self {
        Scripted { script, calls: 0, marker: 7 }
    }
}

impl Request<u32> for Scripted {
    fn read(&mut self) -> Result<u32, Failure> {
        let idx = self.calls.min(self.script.len() - 1);
        self.calls += 1;
        self.script[idx]
    }
}

#[test]
fn worker_step_success_replaces_the_entry() {
    let (entry, action) = worker_step(CacheEntry::<u32>::NotReady, Ok(11));
    assert!(matches!(entry, CacheEntry::Value(11)));
    assert_eq!(action, WorkerAction::Continue);
    let (entry, action) = worker_step(CacheEntry::Value(11u32), Ok(12));
    assert!(matches!(entry, CacheEntry::Value(12)));
    assert_eq!(action, WorkerAction::Continue);
}

#[test]
fn worker_step_soft_failures_keep_the_entry() {
    for failure in [Failure::Transient, Failure::Invalid] {
        let (entry, action) = worker_step(CacheEntry::Value(11u32), Err(failure));
        assert!(matches!(entry, CacheEntry::Value(11)));
        assert_eq!(action, WorkerAction::Continue);
        let (entry, action) = worker_step(CacheEntry::<u32>::NotReady, Err(failure));
        assert!(matches!(entry, CacheEntry::NotReady));
        assert_eq!(action, WorkerAction::Continue);
    }
}

#[test]
fn worker_step_fatal_failure_halts() {
    let (entry, action) =
        worker_step(CacheEntry::Value(11u32), Err(Failure::Fatal(FatalReason::Device(5))));
    assert!(matches!(entry, CacheEntry::Failed(FatalReason::Device(5))));
    assert_eq!(action, WorkerAction::Stop);
}

#[test]
fn before_the_first_success_the_reader_sees_not_ready() {
    let watcher: Watcher<u32, Scripted> = Watcher::new(Scripted::new(vec![Ok(1)]));
    assert_eq!(watcher.get(), Err(Failure::Transient));
    assert!(!watcher.is_ready());
    assert!(!watcher.is_stopped());
}

#[test]
fn an_always_succeeding_adapter_eventually_serves_a_record() {
    let mut watcher: Watcher<u32, Scripted> = Watcher::new(Scripted::new(vec![Ok(41), Ok(42)]));
    watcher.poll_once();
    assert_eq!(watcher.get(), Ok(41));
    assert!(watcher.is_ready());
    watcher.poll_once();
    assert_eq!(watcher.get(), Ok(42));
    // Once a newer record is cached, repeated reads never regress.
    assert_eq!(watcher.get(), Ok(42));
    assert!(!watcher.is_stopped());
}

#[test]
fn alternating_transient_and_success_never_halts_and_yields_a_record() {
    let script = vec![Err(Failure::Transient), Ok(1), Err(Failure::Transient), Ok(2)];
    let mut watcher: Watcher<u32, Scripted> = Watcher::new(Scripted::new(script));
    watcher.poll_once();
    assert_eq!(watcher.get(), Err(Failure::Transient));
    watcher.poll_once();
    assert_eq!(watcher.get(), Ok(1));
    watcher.poll_once();
    assert_eq!(watcher.get(), Ok(1));
    watcher.poll_once();
    assert_eq!(watcher.get(), Ok(2));
    assert!(!watcher.is_stopped());
}

#[test]
fn invalid_attempts_are_absorbed_like_transient_ones() {
    let script = vec![Ok(9), Err(Failure::Invalid), Err(Failure::Invalid)];
    let mut watcher: Watcher<u32, Scripted> = Watcher::new(Scripted::new(script));
    for _ in 0..5 {
        watcher.poll_once();
    }
    assert_eq!(watcher.get(), Ok(9));
    assert!(!watcher.is_stopped());
}

#[test]
fn one_fatal_failure_halts_and_persists() {
    let script = vec![Ok(3), Err(Failure::Fatal(FatalReason::Device(17))), Ok(4)];
    let mut watcher: Watcher<u32, Scripted> = Watcher::new(Scripted::new(script));
    watcher.poll_once();
    assert_eq!(watcher.get(), Ok(3));
    watcher.poll_once();
    assert!(watcher.is_stopped());
    assert_eq!(watcher.get(), Err(Failure::Fatal(FatalReason::Device(17))));
    // Later polls are iteration-boundary checks: the worker is halted, no
    // further cache write happens, the failure persists.
    watcher.poll_once();
    watcher.poll_once();
    assert_eq!(watcher.get(), Err(Failure::Fatal(FatalReason::Device(17))));
    assert!(watcher.is_ready());
    // Tearing down surfaces the failure, not the adapter.
    assert!(matches!(
        watcher.stop(),
        Err(Failure::Fatal(FatalReason::Device(17)))
    ));
}

#[test]
fn clean_shutdown_returns_the_original_adapter() {
    let mut watcher: Watcher<u32, Scripted> = Watcher::new(Scripted::new(vec![Ok(1)]));
    watcher.poll_once();
    watcher.request_stop();
    assert!(watcher.is_stopped());
    // The stop request is honoured at the iteration boundary: a further poll
    // leaves the cache untouched.
    watcher.poll_once();
    assert_eq!(watcher.get(), Ok(1));
    let adapter = watcher.stop().expect("a healthy watcher hands the adapter back");
    assert_eq!(adapter.marker, 7);
    assert_eq!(adapter.calls, 1);
}

#[test]
fn shutdown_before_any_success_still_returns_the_adapter() {
    let mut watcher: Watcher<u32, Scripted> = Watcher::new(Scripted::new(vec![Ok(1)]));
    watcher.request_stop();
    let adapter = watcher.stop().expect("a never-polled watcher hands the adapter back");
    assert_eq!(adapter.calls, 0);
}
