//! Waiting for a cancelled job to end: ask, wait, force, and in the end go on regardless.

use vstd::prelude::*;

verus! {

/// How long one wait lasts, in milliseconds.
pub const POLL_INTERVAL_MILLIS: u64 = 1;

/// After this many waits a job that has not ended is aborted by force.
pub const ABORT_AFTER_POLLS: u32 = 50;

/// After this many waits the job is no longer waited for, whatever its state.
pub const GIVE_UP_AFTER_POLLS: u32 = 100;

/// What to do next about a job that is being stopped.
#[derive(Debug, Clone, Copy, PartialEq, Eq, Structural)]
pub enum SettleStep {
    /// The job has ended: nothing is left to do.
    Settled,
    /// Ask the job to stop, then wait one interval and look again.
    Cancel,
    /// Wait one interval and look again.
    Wait,
    /// Abort the job by force, then wait one interval and look again.
    Abort,
    /// Stop waiting and go on, though the job may still be running.
    GiveUp,
}

impl SettleStep {
    /// The step is followed by a wait.
    pub open spec fn waits(self) -> bool {
        self == SettleStep::Cancel || self == SettleStep::Wait || self == SettleStep::Abort
    }
}

/// The next step for a job that has been waited for `polls` times and is, or is not,
/// finished now.
pub open spec fn settle_step(polls: nat, finished: bool) -> SettleStep {
    if finished {
        SettleStep::Settled
    } else if polls >= GIVE_UP_AFTER_POLLS {
        SettleStep::GiveUp
    } else if polls >= ABORT_AFTER_POLLS {
        SettleStep::Abort
    } else if polls == 0 {
        SettleStep::Cancel
    } else {
        SettleStep::Wait
    }
}

/// The number of waits that follow, for a job that has been waited for `polls` times and
/// of which `finished(n)` says whether it is found finished after `n` waits.
pub open spec fn waits_left(finished: spec_fn(nat) -> bool, polls: nat) -> nat
    decreases GIVE_UP_AFTER_POLLS - polls,
{
    if settle_step(polls, finished(polls)).waits() {
        1 + waits_left(finished, polls + 1)
    } else {
        0
    }
}

/// The next step for a job that has been waited for `polls` times.
pub fn next_settle_step(polls: u32, finished: bool) -> (r: SettleStep)
    ensures
        r == settle_step(polls as nat, finished),
{
    if finished {
        SettleStep::Settled
    } else if polls >= GIVE_UP_AFTER_POLLS {
        SettleStep::GiveUp
    } else if polls >= ABORT_AFTER_POLLS {
        SettleStep::Abort
    } else if polls == 0 {
        SettleStep::Cancel
    } else {
        SettleStep::Wait
    }
}

/// Whatever the job does, it is waited for at most `GIVE_UP_AFTER_POLLS` times in all.
pub proof fn lemma_waits_bounded(finished: spec_fn(nat) -> bool, polls: nat)
    requires
        polls <= GIVE_UP_AFTER_POLLS,
    ensures
        polls + waits_left(finished, polls) <= GIVE_UP_AFTER_POLLS,
    decreases GIVE_UP_AFTER_POLLS - polls,
{
    if settle_step(polls, finished(polls)).waits() {
        lemma_waits_bounded(finished, polls + 1);
    }
}

/// A job that never finishes is asked to stop at once, aborted by force from the
/// `ABORT_AFTER_POLLS`-th wait on, and given up after the `GIVE_UP_AFTER_POLLS`-th.
pub proof fn lemma_never_finishing(polls: nat)
    ensures
        polls == 0 ==> settle_step(polls, false) == SettleStep::Cancel,
        0 < polls < ABORT_AFTER_POLLS ==> settle_step(polls, false) == SettleStep::Wait,
        ABORT_AFTER_POLLS <= polls < GIVE_UP_AFTER_POLLS ==> settle_step(polls, false)
            == SettleStep::Abort,
        polls >= GIVE_UP_AFTER_POLLS ==> settle_step(polls, false) == SettleStep::GiveUp,
{
}

/// A job that never finishes is waited for exactly `GIVE_UP_AFTER_POLLS` times.
pub proof fn lemma_never_finishing_waits(polls: nat)
    requires
        polls <= GIVE_UP_AFTER_POLLS,
    ensures
        waits_left(|n: nat| false, polls) == GIVE_UP_AFTER_POLLS - polls,
    decreases GIVE_UP_AFTER_POLLS - polls,
{
    if polls < GIVE_UP_AFTER_POLLS {
        lemma_never_finishing_waits(polls + 1);
    }
}

} // verus!
