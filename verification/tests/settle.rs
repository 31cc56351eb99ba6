use scruters::settle::{
    next_settle_step, SettleStep, ABORT_AFTER_POLLS, GIVE_UP_AFTER_POLLS, POLL_INTERVAL_MILLIS,
};

fn settle(finishes_after: Option<u32>) -> (u32, Option<u32>, Option<u32>, SettleStep) {
    let mut polls = 0;
    let mut cancelled_at = None;
    let mut first_abort_at = None;
    loop {
        let finished = finishes_after.map_or(false, |n| polls >= n);
        let step = next_settle_step(polls, finished);
        match step {
            SettleStep::Settled | SettleStep::GiveUp => {
                return (polls, cancelled_at, first_abort_at, step);
            }
            SettleStep::Cancel => cancelled_at = cancelled_at.or(Some(polls)),
            SettleStep::Abort => first_abort_at = first_abort_at.or(Some(polls)),
            SettleStep::Wait => {}
        }
        polls += 1;
    }
}

#[test]
fn the_thresholds_are_fifty_and_a_hundred_polls_of_a_millisecond() {
    assert_eq!(POLL_INTERVAL_MILLIS, 1);
    assert_eq!(ABORT_AFTER_POLLS, 50);
    assert_eq!(GIVE_UP_AFTER_POLLS, 100);
}

#[test]
fn a_job_that_never_finishes_is_aborted_and_then_given_up() {
    let (polls, cancelled_at, first_abort_at, last) = settle(None);
    assert_eq!(cancelled_at, Some(0));
    assert_eq!(first_abort_at, Some(50));
    assert_eq!(polls, 100);
    assert_eq!(last, SettleStep::GiveUp);
}

#[test]
fn a_finished_job_needs_nothing() {
    assert_eq!(settle(Some(0)), (0, None, None, SettleStep::Settled));
    assert_eq!(next_settle_step(0, true), SettleStep::Settled);
    assert_eq!(next_settle_step(75, true), SettleStep::Settled);
    assert_eq!(next_settle_step(1000, true), SettleStep::Settled);
}

#[test]
fn a_job_that_stops_when_asked_is_not_aborted() {
    assert_eq!(settle(Some(3)), (3, Some(0), None, SettleStep::Settled));
    assert_eq!(settle(Some(50)), (50, Some(0), None, SettleStep::Settled));
}

#[test]
fn a_job_that_stops_when_aborted_is_not_given_up() {
    assert_eq!(settle(Some(51)), (51, Some(0), Some(50), SettleStep::Settled));
    assert_eq!(settle(Some(100)), (100, Some(0), Some(50), SettleStep::Settled));
}

#[test]
fn each_step_follows_from_the_number_of_polls() {
    assert_eq!(next_settle_step(0, false), SettleStep::Cancel);
    assert_eq!(next_settle_step(1, false), SettleStep::Wait);
    assert_eq!(next_settle_step(49, false), SettleStep::Wait);
    assert_eq!(next_settle_step(50, false), SettleStep::Abort);
    assert_eq!(next_settle_step(99, false), SettleStep::Abort);
    assert_eq!(next_settle_step(100, false), SettleStep::GiveUp);
    assert_eq!(next_settle_step(u32::MAX, false), SettleStep::GiveUp);
}
