//! The spawn-once guard of an activity: at most one queued instance at a time.
use vstd::prelude::*;

verus! {

/// What became of a spawn request.
#[derive(PartialEq, Eq, Structural, Clone, Copy, Debug)]
pub enum SpawnOutcome {
    /// No instance was pending: one is queued now.
    Queued,
    /// An instance was already pending: the request is rejected, nothing is queued.
    AlreadyPending,
}

/// The outcome of a spawn request made while the pending flag is `pending`.
pub open spec fn outcome_of(pending: bool) -> SpawnOutcome {
    if pending {
        SpawnOutcome::AlreadyPending
    } else {
        SpawnOutcome::Queued
    }
}

/// Pending flag of one activity: set on a spawn request, cleared when the
/// queued instance begins to run.
#[derive(PartialEq, Eq, Structural, Clone, Copy, Debug)]
pub struct SpawnFlag {
    pub pending: bool,
}

impl SpawnFlag {
    /// A flag with no instance pending.
    pub fn new() -> (r: SpawnFlag)
        ensures
            !r.pending,
    {
        SpawnFlag { pending: false }
    }

    /// Asks for an instance to be queued. Never blocks: a request made while
    /// one is pending is rejected and leaves the flag as it was.
    pub fn request(&mut self) -> (r: SpawnOutcome)
        ensures
            r == outcome_of(old(self).pending),
            final(self).pending,
    {
        if self.pending {
            SpawnOutcome::AlreadyPending
        } else {
            self.pending = true;
            SpawnOutcome::Queued
        }
    }

    /// The queued instance begins to run: the flag is cleared, and the result
    /// says whether an instance was pending at all.
    pub fn begin(&mut self) -> (r: bool)
        ensures
            r == old(self).pending,
            !final(self).pending,
    {
        let was = self.pending;
        self.pending = false;
        was
    }
}

/// Number of requests queued among `n` requests in a row, made with no
/// instance starting in between, from a flag that is `pending`.
pub open spec fn queued_among(pending: bool, n: nat) -> nat
    decreases n,
{
    if n == 0 {
        0
    } else {
        (if outcome_of(pending) == SpawnOutcome::Queued { 1nat } else { 0nat })
            + queued_among(true, (n - 1) as nat)
    }
}

/// However many spawn requests come in a row, at most one is queued, and
/// none when an instance is already pending: every other request is rejected.
pub proof fn lemma_at_most_one_queued(pending: bool, n: nat)
    ensures
        queued_among(pending, n) <= 1,
        pending ==> queued_among(pending, n) == 0,
        !pending && n > 0 ==> queued_among(pending, n) == 1,
    decreases n,
{
    if n > 0 {
        lemma_at_most_one_queued(true, (n - 1) as nat);
    }
}

} // verus!
