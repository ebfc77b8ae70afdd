use async_test::driver::{Action, Driver, Event, Phase};
use async_test::guard::{ReentrantUse, ReuseGuard};
use async_test::sample::{Step, Yield};
use async_test::signal::{WaitOutcome, WakeSignal};
use async_test::workload::{run_countdown, run_countdown_guarded, run_countdown_on, RunStats};

fn stats(n: usize) -> RunStats {
    RunStats { completed: true, polls: n + 1, wakes: n, waits: n, blocked: 0 }
}

#[test]
fn yield_counts_down_then_ready() {
    let mut t = Yield::new(2);
    assert_eq!(t.poll_step(), Step::PendingWoken);
    assert_eq!(t.remaining(), 1);
    assert_eq!(t.poll_step(), Step::PendingWoken);
    assert_eq!(t.remaining(), 0);
    assert_eq!(t.poll_step(), Step::Ready);
    assert_eq!(t.poll_step(), Step::Ready);
    assert_eq!(t.remaining(), 0);
}

#[test]
fn signal_before_wait_is_not_lost() {
    let mut s = WakeSignal::new();
    assert!(!s.is_notified());
    s.signal();
    assert_eq!(s.wait(), WaitOutcome::Immediate);
    assert!(!s.is_notified());
}

#[test]
fn signals_coalesce_into_one_wake() {
    let mut s = WakeSignal::new();
    s.signal();
    s.signal();
    s.signal();
    assert_eq!(s.wait(), WaitOutcome::Immediate);
    assert_eq!(s.wait(), WaitOutcome::Blocks);
}

#[test]
fn wait_without_signal_blocks() {
    let mut s = WakeSignal::new();
    assert_eq!(s.wait(), WaitOutcome::Blocks);
}

#[test]
fn driver_cycle() {
    let mut d = Driver::new();
    assert_eq!(d.step(Event::Pending), Action::Park);
    assert_eq!(d.phase, Phase::Parked);
    assert_eq!(d.step(Event::Woken), Action::Poll);
    assert_eq!(d.step(Event::Ready), Action::Return);
    assert!(d.is_done());
    assert_eq!(d.polls, 2);
    assert_eq!(d.waits, 1);
}

#[test]
fn driver_ready_at_once_never_parks() {
    let mut d = Driver::new();
    assert_eq!(d.step(Event::Ready), Action::Return);
    assert_eq!(d.waits, 0);
    assert_eq!(d.polls, 1);
}

#[test]
fn driver_ignores_wakes_after_done() {
    let mut d = Driver::new();
    d.step(Event::Ready);
    assert_eq!(d.step(Event::Woken), Action::Ignore);
    assert_eq!(d.step(Event::Woken), Action::Ignore);
    assert_eq!(d.phase, Phase::Done);
    assert_eq!(d.polls, 1);
}

#[test]
fn driver_ignores_wake_while_polling() {
    let mut d = Driver::new();
    assert_eq!(d.step(Event::Woken), Action::Ignore);
    assert_eq!(d.phase, Phase::Polling);
    assert_eq!(d.polls, 0);
}

#[test]
fn countdown_three_takes_four_polls() {
    assert_eq!(run_countdown(3), stats(3));
    assert_eq!(run_countdown(3).polls, 4);
}

#[test]
fn countdown_zero_never_waits() {
    let r = run_countdown(0);
    assert_eq!(r.polls, 1);
    assert_eq!(r.waits, 0);
    assert_eq!(r.wakes, 0);
    assert!(r.completed);
}

#[test]
fn countdown_ten_thousand() {
    assert_eq!(run_countdown(10000), stats(10000));
}

#[test]
fn reused_signal_with_stale_wake() {
    let mut s = WakeSignal::new();
    s.signal();
    assert_eq!(run_countdown_on(&mut s, 0), stats(0));
    assert!(s.is_notified());
    assert_eq!(run_countdown_on(&mut s, 5), stats(5));
    assert!(!s.is_notified());
    assert_eq!(run_countdown_on(&mut s, 5), stats(5));
}

#[test]
fn guard_rejects_nested_checkout() {
    let mut g = ReuseGuard::new();
    assert_eq!(g.try_acquire(), Ok(()));
    assert_eq!(g.try_acquire(), Err(ReentrantUse));
    assert!(g.is_held());
    g.release();
    assert!(!g.is_held());
    assert_eq!(g.try_acquire(), Ok(()));
}

#[test]
fn guarded_run_fails_while_held() {
    let mut g = ReuseGuard::new();
    let mut s = WakeSignal::new();
    assert_eq!(run_countdown_guarded(&mut g, &mut s, 3), Ok(stats(3)));
    assert!(!g.is_held());
    g.try_acquire().unwrap();
    s.signal();
    assert_eq!(run_countdown_guarded(&mut g, &mut s, 3), Err(ReentrantUse));
    assert!(g.is_held());
    assert!(s.is_notified());
}

#[test]
fn reentrant_use_message() {
    assert_eq!(ReentrantUse.message(), "recursive block_on is forbidden");
}
