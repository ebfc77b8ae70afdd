use vstd::prelude::*;
use crate::guard::{ReentrantUse, ReuseGuard};
use crate::driver::{Action, Driver, Event, Phase};
use crate::sample::{Step, Yield};
use crate::signal::{WaitOutcome, WakeSignal};

verus! {

/// What one blocking run of a countdown task did.
#[derive(Clone, Copy, Debug, PartialEq, Eq, Structural)]
pub struct RunStats {
    /// Whether the output was handed back.
    pub completed: bool,
    /// Polls made on the task.
    pub polls: usize,
    /// Wake callbacks the task invoked.
    pub wakes: usize,
    /// Waits begun on the signal.
    pub waits: usize,
    /// Waits that found no pending signal and would have blocked.
    pub blocked: usize,
}

/// Drive `Yield(n)` to completion on one thread with a fresh signal, the
/// task waking the signal from inside its own poll. Every wait finds its
/// signal pending, so the run completes after `n + 1` polls, `n` wakes and
/// `n` waits, and never blocks.
pub fn run_countdown(n: usize) -> (r: RunStats)
    requires
        n < usize::MAX,
    ensures
        r == countdown_stats(n),
{
    let mut signal = WakeSignal::new();
    run_countdown_on(&mut signal, n)
}

/// The counts of a run of `Yield(n)`.
pub open spec fn countdown_stats(n: usize) -> RunStats {
    RunStats { completed: true, polls: (n + 1) as usize, wakes: n, waits: n, blocked: 0 }
}

/// Drive `Yield(n)` to completion with a signal that may have served earlier
/// runs, and may even hold a wake that came after one of them returned. The
/// counts are those of a fresh signal; the signal is left clear, unless the
/// task never waited, which leaves it as it was.
pub fn run_countdown_on(signal: &mut WakeSignal, n: usize) -> (r: RunStats)
    requires
        n < usize::MAX,
    ensures
        r == countdown_stats(n),
        final(signal)@ == (n == 0 && old(signal)@),
{
    let mut task = Yield::new(n);
    let mut driver = Driver::new();
    let mut wakes: usize = 0;
    loop
        invariant
            driver.phase == Phase::Polling,
            n < usize::MAX,
            task.0 <= n,
            driver.polls == n - task.0,
            driver.waits == driver.polls,
            wakes == driver.polls,
            driver.polls > 0 ==> !signal@,
            driver.polls == 0 ==> signal@ == old(signal)@,
        decreases task.0,
    {
        let step = task.poll_step();
        let event = match step {
            Step::Ready => Event::Ready,
            Step::PendingWoken => {
                signal.signal();
                wakes = wakes + 1;
                Event::Pending
            },
        };
        let action = driver.step(event);
        match action {
            Action::Park => {
                match signal.wait() {
                    WaitOutcome::Immediate => {},
                    WaitOutcome::Blocks => {
                        return RunStats {
                            completed: false,
                            polls: driver.polls,
                            wakes,
                            waits: driver.waits,
                            blocked: 1,
                        };
                    },
                }
                driver.step(Event::Woken);
            },
            _ => {
                return RunStats {
                    completed: driver.is_done(),
                    polls: driver.polls,
                    wakes,
                    waits: driver.waits,
                    blocked: 0,
                };
            },
        }
    }
}

/// Drive `Yield(n)` with the thread's cached signal, checked out through its
/// guard for the length of the run. A run begun while another run holds the
/// guard fails with `ReentrantUse` and touches neither the guard nor the
/// signal; otherwise it gives the counts of a fresh run and frees the guard.
pub fn run_countdown_guarded(guard: &mut ReuseGuard, signal: &mut WakeSignal, n: usize) -> (r:
    Result<RunStats, ReentrantUse>)
    requires
        n < usize::MAX,
    ensures
        old(guard)@ ==> r == Err::<RunStats, ReentrantUse>(ReentrantUse) && final(guard)@
            && final(signal)@ == old(signal)@,
        !old(guard)@ ==> r == Ok::<RunStats, ReentrantUse>(countdown_stats(n)) && !final(guard)@
            && final(signal)@ == (n == 0 && old(signal)@),
{
    match guard.try_acquire() {
        Err(e) => Err(e),
        Ok(()) => {
            let stats = run_countdown_on(signal, n);
            guard.release();
            Ok(stats)
        },
    }
}

} // verus!
