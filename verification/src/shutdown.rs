//! Waiting, at exit, for withdraws still on their way to the daemon.
//!
//! Only the D-Bus backend withdraws from a background thread, so the count
//! of withdraws signalled but not yet sent may be non-zero when the program
//! quits. The wait is bounded, so a count left dangling by a rare
//! cancel/dismiss race cannot hang quit.
use vstd::prelude::*;

verus! {

/// How many times the count is checked before giving up.
pub const MAX_POLLS: u32 = 50;

/// How long to sleep between two checks, in milliseconds.
pub const POLL_INTERVAL_MS: u64 = 10;

/// What to do next while waiting.
#[derive(Clone, Copy, Debug, PartialEq, Eq, Structural)]
pub enum ShutdownStep {
    /// Stop waiting.
    Done,
    /// Sleep this many milliseconds, then check again.
    Sleep(u64),
}

/// The decision after `sleeps` sleeps, given the current count of
/// withdraws in flight: stop once nothing is in flight or the checks are
/// used up, else sleep once more.
pub open spec fn wait_next(sleeps: u32, in_flight: usize) -> (u32, ShutdownStep) {
    if sleeps >= MAX_POLLS || in_flight == 0 {
        (sleeps, ShutdownStep::Done)
    } else {
        ((sleeps + 1) as u32, ShutdownStep::Sleep(POLL_INTERVAL_MS))
    }
}

/// The sleeps taken, and the decisions made, over successive counts.
pub open spec fn wait_run(sleeps: u32, counts: Seq<usize>) -> (u32, Seq<ShutdownStep>)
    decreases counts.len(),
{
    if counts.len() == 0 {
        (sleeps, seq![])
    } else {
        let (mid, steps) = wait_run(sleeps, counts.drop_last());
        let (after, step) = wait_next(mid, counts.last());
        (after, steps.push(step))
    }
}

/// How many of `steps` are sleeps.
pub open spec fn sleeps_in(steps: Seq<ShutdownStep>) -> nat
    decreases steps.len(),
{
    if steps.len() == 0 {
        0
    } else {
        sleeps_in(steps.drop_last()) + if steps.last() is Sleep { 1nat } else { 0nat }
    }
}

/// A wait in progress: how many times it has slept.
pub struct ShutdownWait {
    sleeps: u32,
}

impl View for ShutdownWait {
    type V = u32;

    closed spec fn view(&self) -> u32 {
        self.sleeps
    }
}

impl ShutdownWait {
    #[verifier::type_invariant]
    spec fn within_bound(self) -> bool {
        self.sleeps <= MAX_POLLS
    }

    /// A wait that has not slept yet.
    pub fn new() -> (wait: ShutdownWait)
        ensures
            wait@ == 0,
    {
        ShutdownWait { sleeps: 0 }
    }

    /// The decision given that `in_flight` withdraws are in flight now.
    pub fn decide(&mut self, in_flight: usize) -> (step: ShutdownStep)
        ensures
            (final(self)@, step) == wait_next(old(self)@, in_flight),
    {
        proof {
            use_type_invariant(&*self);
        }
        if self.sleeps >= MAX_POLLS || in_flight == 0 {
            ShutdownStep::Done
        } else {
            self.sleeps = self.sleeps + 1;
            ShutdownStep::Sleep(POLL_INTERVAL_MS)
        }
    }

    /// Checks the count of withdraws in flight, unless the checks are used
    /// up, and decides. The count is kept by other threads, so the
    /// decision is stated for whatever count was read.
    pub fn poll(&mut self, in_flight: &std::sync::atomic::AtomicUsize) -> (step: ShutdownStep)
        ensures
            exists|count: usize| (final(self)@, step) == wait_next(old(self)@, count),
            old(self)@ >= MAX_POLLS ==> step == ShutdownStep::Done,
    {
        if self.sleeps >= MAX_POLLS {
            assert((self@, ShutdownStep::Done) == wait_next(self@, 0));
            return ShutdownStep::Done;
        }
        let count = in_flight.load(std::sync::atomic::Ordering::Relaxed);
        self.decide(count)
    }
}

/// The wait is bounded: whatever the counts read, it sleeps at most
/// `MAX_POLLS` times in all, `POLL_INTERVAL_MS` each.
pub proof fn law_wait_is_bounded(sleeps: u32, counts: Seq<usize>)
    requires
        sleeps <= MAX_POLLS,
    ensures
        wait_run(sleeps, counts).0 <= MAX_POLLS,
        wait_run(sleeps, counts).0 == sleeps + sleeps_in(wait_run(sleeps, counts).1),
        sleeps_in(wait_run(sleeps, counts).1) <= MAX_POLLS - sleeps,
    decreases counts.len(),
{
    if counts.len() > 0 {
        law_wait_is_bounded(sleeps, counts.drop_last());
        let (mid, steps) = wait_run(sleeps, counts.drop_last());
        let (after, step) = wait_next(mid, counts.last());
        assert(steps.push(step).drop_last() =~= steps);
    }
}

/// The wait ends as soon as nothing is in flight.
pub proof fn law_wait_ends_when_idle(sleeps: u32)
    ensures
        wait_next(sleeps, 0) == (sleeps, ShutdownStep::Done),
{
}

/// While withdraws are in flight the wait goes on, sleeping 10 ms at a
/// time, for at most 50 sleeps; it stops as soon as nothing is in flight
/// or the 50 sleeps are used up, and then sleeps no more.
pub proof fn law_wait_goes_on_while_in_flight(sleeps: u32, in_flight: usize)
    ensures
        sleeps < 50 && in_flight > 0 ==> wait_next(sleeps, in_flight) == (
            (sleeps + 1) as u32,
            ShutdownStep::Sleep(10),
        ),
        sleeps >= 50 || in_flight == 0 ==> wait_next(sleeps, in_flight) == (
            sleeps,
            ShutdownStep::Done,
        ),
{
}

} // verus!
