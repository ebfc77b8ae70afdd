use vstd::prelude::*;

verus! {

/// Outcome of one resumption step of a future, as seen by the driver.
#[derive(Clone, Copy, Debug, PartialEq, Eq, Structural)]
pub enum Step {
    /// The future completed; its output is ready.
    Ready,
    /// The future is not done and has requested exactly one wake-up.
    PendingWoken,
}

/// A countdown task: it asks to be woken `n` times before it completes.
#[derive(Clone, Copy, Debug, PartialEq, Eq, Structural)]
pub struct Yield(pub usize);

impl Yield {
    pub fn new(n: usize) -> (r: Yield)
        ensures
            r.0 == n,
    {
        Yield(n)
    }

    /// Number of wake-ups the task will still request before it is ready.
    pub fn remaining(&self) -> (r: usize)
        ensures
            r == self.0,
    {
        self.0
    }

    /// One resumption step: ready once the count is zero, otherwise count
    /// down and request a wake-up.
    pub fn poll_step(&mut self) -> (r: Step)
        ensures
            old(self).0 == 0 ==> r == Step::Ready && final(self).0 == 0,
            old(self).0 > 0 ==> r == Step::PendingWoken && final(self).0 == old(self).0 - 1,
    {
        if self.0 == 0 {
            Step::Ready
        } else {
            self.0 = self.0 - 1;
            Step::PendingWoken
        }
    }
}

} // verus!
