use vstd::prelude::*;

verus! {

/// How a wait on the signal ends.
#[derive(Clone, Copy, Debug, PartialEq, Eq, Structural)]
pub enum WaitOutcome {
    /// A signal was pending: it is consumed and the wait returns at once.
    Immediate,
    /// Nothing was pending: the waiting side blocks until the next signal.
    Blocks,
}

/// The shared flag of a park/unpark pair. Signals raised before a wait are
/// kept, and several of them coalesce into one wake.
#[derive(Clone, Copy, Debug, PartialEq, Eq, Structural)]
pub struct WakeSignal {
    pub notified: bool,
}

/// The flag after a signal: set, whatever it was.
pub open spec fn signaled(flag: bool) -> bool {
    true
}

/// What a wait does on a flag: it returns at once exactly when the flag is
/// set, and in every case leaves the flag clear.
pub open spec fn waited(flag: bool) -> (bool, WaitOutcome) {
    if flag {
        (false, WaitOutcome::Immediate)
    } else {
        (false, WaitOutcome::Blocks)
    }
}

impl View for WakeSignal {
    type V = bool;

    open spec fn view(&self) -> bool {
        self.notified
    }
}

impl WakeSignal {
    /// A fresh signal with nothing pending.
    pub fn new() -> (r: WakeSignal)
        ensures
            !r@,
    {
        WakeSignal { notified: false }
    }

    /// Whether a signal is pending.
    pub fn is_notified(&self) -> (r: bool)
        ensures
            r == self@,
    {
        self.notified
    }

    /// Raise the signal. Safe to call any number of times.
    pub fn signal(&mut self)
        ensures
            final(self)@ == signaled(old(self)@),
    {
        self.notified = true;
    }

    /// Begin a wait: consume a pending signal and return at once, or report
    /// that the waiting side has to block.
    pub fn wait(&mut self) -> (r: WaitOutcome)
        ensures
            (final(self)@, r) == waited(old(self)@),
    {
        if self.notified {
            self.notified = false;
            WaitOutcome::Immediate
        } else {
            WaitOutcome::Blocks
        }
    }
}

/// Signals coalesce: raising the signal twice leaves the same state as
/// raising it once.
pub proof fn lemma_signal_idempotent(flag: bool)
    ensures
        signaled(signaled(flag)) == signaled(flag),
{
}

/// No lost wake-ups: a wait that begins after a signal, with no wait in
/// between, returns at once, however many signals came before it.
pub proof fn lemma_no_lost_wakeup(flag: bool)
    ensures
        waited(signaled(flag)).1 == WaitOutcome::Immediate,
        waited(signaled(signaled(flag))).1 == WaitOutcome::Immediate,
{
}

} // verus!
