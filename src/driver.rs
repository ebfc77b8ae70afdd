use vstd::prelude::*;

verus! {

/// Where the blocking loop stands.
#[derive(Clone, Copy, Debug, PartialEq, Eq, Structural)]
pub enum Phase {
    /// The future is being polled, or is about to be.
    Polling,
    /// The future reported "not ready"; the thread waits on the signal.
    Parked,
    /// The future completed and its output was handed back.
    Done,
}

/// What happened since the last decision.
#[derive(Clone, Copy, Debug, PartialEq, Eq, Structural)]
pub enum Event {
    /// A poll returned the output.
    Ready,
    /// A poll returned "not ready".
    Pending,
    /// The wait on the signal returned.
    Woken,
}

/// What the loop has to do next.
#[derive(Clone, Copy, Debug, PartialEq, Eq, Structural)]
pub enum Action {
    /// Poll the future again with the same context.
    Poll,
    /// Wait on the signal until it is raised.
    Park,
    /// Hand the output back to the caller.
    Return,
    /// Nothing: the event does not concern the current phase.
    Ignore,
}

/// The decision rule of the blocking loop.
pub open spec fn next(p: Phase, e: Event) -> (Phase, Action) {
    match (p, e) {
        (Phase::Polling, Event::Ready) => (Phase::Done, Action::Return),
        (Phase::Polling, Event::Pending) => (Phase::Parked, Action::Park),
        (Phase::Parked, Event::Woken) => (Phase::Polling, Action::Poll),
        _ => (p, Action::Ignore),
    }
}

/// The phase after a run of events.
pub open spec fn run(p: Phase, es: Seq<Event>) -> Phase
    decreases es.len(),
{
    if es.len() == 0 {
        p
    } else {
        run(next(p, es[0]).0, es.drop_first())
    }
}

/// The state of one blocking call: its phase, and how many polls and waits
/// it has made.
#[derive(Clone, Copy, Debug, PartialEq, Eq, Structural)]
pub struct Driver {
    pub phase: Phase,
    pub polls: usize,
    pub waits: usize,
}

impl Driver {
    /// A driver about to make its first poll.
    pub fn new() -> (r: Driver)
        ensures
            r.phase == Phase::Polling,
            r.polls == 0,
            r.waits == 0,
    {
        Driver { phase: Phase::Polling, polls: 0, waits: 0 }
    }

    /// Whether the output has been handed back.
    pub fn is_done(&self) -> (r: bool)
        ensures
            r == (self.phase == Phase::Done),
    {
        match self.phase {
            Phase::Done => true,
            _ => false,
        }
    }

    /// Take one event and decide what to do. A poll result counts as a poll,
    /// a `Park` decision as a wait.
    pub fn step(&mut self, e: Event) -> (r: Action)
        requires
            old(self).polls < usize::MAX,
            old(self).waits < usize::MAX,
        ensures
            (final(self).phase, r) == next(old(self).phase, e),
            final(self).polls == old(self).polls + (if old(self).phase == Phase::Polling && e
                != Event::Woken { 1int } else { 0int }),
            final(self).waits == old(self).waits + (if r == Action::Park { 1int } else { 0int }),
    {
        match (self.phase, e) {
            (Phase::Polling, Event::Ready) => {
                self.polls = self.polls + 1;
                self.phase = Phase::Done;
                Action::Return
            },
            (Phase::Polling, Event::Pending) => {
                self.polls = self.polls + 1;
                self.waits = self.waits + 1;
                self.phase = Phase::Parked;
                Action::Park
            },
            (Phase::Parked, Event::Woken) => {
                self.phase = Phase::Polling;
                Action::Poll
            },
            _ => Action::Ignore,
        }
    }
}

/// A wake that arrives after the call returned has no effect: the driver
/// stays done and asks for nothing, however many events follow.
pub proof fn lemma_done_is_final(es: Seq<Event>)
    ensures
        run(Phase::Done, es) == Phase::Done,
        forall|e: Event| next(Phase::Done, e) == (Phase::Done, Action::Ignore),
    decreases es.len(),
{
    if es.len() > 0 {
        lemma_done_is_final(es.drop_first());
    }
}

/// A future that is ready at its first poll is handed back without any wait:
/// the first decision is `Return`, and no event after it leads to a wait.
pub proof fn lemma_ready_at_once_never_parks(es: Seq<Event>)
    ensures
        next(Phase::Polling, Event::Ready) == (Phase::Done, Action::Return),
        run(Phase::Polling, seq![Event::Ready] + es) == Phase::Done,
{
    lemma_done_is_final(es);
    assert((seq![Event::Ready] + es).drop_first() =~= es);
}

} // verus!
