use vstd::prelude::*;

verus! {

/// A blocking call tried to check out the thread's cached pair while an
/// enclosing call on the same thread still held it.
#[derive(Clone, Copy, Debug, PartialEq, Eq, Structural)]
pub struct ReentrantUse;

impl ReentrantUse {
    /// A short description of the error.
    pub fn message(&self) -> (r: &'static str)
        ensures
            r@ == "recursive block_on is forbidden"@,
    {
        "recursive block_on is forbidden"
    }
}

/// Exclusive checkout of a per-thread cached signal pair.
#[derive(Clone, Copy, Debug, PartialEq, Eq, Structural)]
pub struct ReuseGuard {
    pub held: bool,
}

/// A checkout attempt on a guard that is held or free: it fails, unchanged,
/// exactly when the guard is already held.
pub open spec fn checked_out(held: bool) -> (bool, Result<(), ReentrantUse>) {
    if held {
        (true, Err(ReentrantUse))
    } else {
        (true, Ok(()))
    }
}

impl View for ReuseGuard {
    type V = bool;

    open spec fn view(&self) -> bool {
        self.held
    }
}

impl ReuseGuard {
    /// A guard that nobody holds.
    pub fn new() -> (r: ReuseGuard)
        ensures
            !r@,
    {
        ReuseGuard { held: false }
    }

    /// Whether a call holds the pair.
    pub fn is_held(&self) -> (r: bool)
        ensures
            r == self@,
    {
        self.held
    }

    /// Check the pair out for one blocking call.
    pub fn try_acquire(&mut self) -> (r: Result<(), ReentrantUse>)
        ensures
            (final(self)@, r) == checked_out(old(self)@),
    {
        if self.held {
            Err(ReentrantUse)
        } else {
            self.held = true;
            Ok(())
        }
    }

    /// Give the pair back when the blocking call ends.
    pub fn release(&mut self)
        ensures
            !final(self)@,
    {
        self.held = false;
    }
}

/// A nested checkout while an outer one holds the pair fails with
/// `ReentrantUse` and leaves the guard as the outer call left it; once the
/// outer call releases it, a new checkout succeeds.
pub proof fn lemma_nested_checkout_fails(held: bool)
    ensures
        checked_out(held).1 is Ok ==> checked_out(checked_out(held).0) == (
        checked_out(held).0,
        Err::<(), ReentrantUse>(ReentrantUse),
        ),
        checked_out(false).1 is Ok,
{
}

} // verus!
