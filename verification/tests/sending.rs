use index_watch::idle::{idle_step, IdleStep, IDLE_STEP_MILLIS};
use index_watch::sender::{SendStep, Sending, SEND_ATTEMPTS};

type Outcome = Result<(), &'static str>;

/// Feeds outcomes until the send is decided. Gives the attempts made, the time
/// waited between them and the verdict, if any.
fn run(retry_delay_millis: u64, outcomes: &[Outcome]) -> (usize, u64, Option<Outcome>) {
    let mut sending = Sending::new(retry_delay_millis);
    let mut waited = 0;
    for (made, outcome) in outcomes.iter().enumerate() {
        match sending.attempt(*outcome) {
            SendStep::Delivered => return (made + 1, waited, Some(Ok(()))),
            SendStep::GiveUp(e) => return (made + 1, waited, Some(Err(e))),
            SendStep::Retry { wait_millis, next } => {
                waited += wait_millis;
                sending = next;
            }
        }
    }
    (outcomes.len(), waited, None)
}

fn after(failed: u32) -> Sending {
    Sending { failed, retry_delay_millis: 700 }
}

#[test]
fn five_attempts_are_made() {
    assert_eq!(SEND_ATTEMPTS, 5);
    assert_eq!(Sending::new(700), Sending { failed: 0, retry_delay_millis: 700 });
}

#[test]
fn a_first_success_delivers() {
    assert_eq!(Sending::new(700).attempt::<u8>(Ok(())), SendStep::Delivered);
    assert_eq!(run(700, &[Ok(()), Err("never tried")]), (1, 0, Some(Ok(()))));
}

#[test]
fn a_failure_within_the_budget_is_retried_after_the_delay() {
    assert_eq!(
        Sending::new(700).attempt(Err("busy")),
        SendStep::Retry { wait_millis: 700, next: after(1) }
    );
    assert_eq!(after(1).attempt(Err("busy")), SendStep::Retry { wait_millis: 700, next: after(2) });
    assert_eq!(after(3).attempt(Err("busy")), SendStep::Retry { wait_millis: 700, next: after(4) });
    assert_eq!(
        Sending::new(0).attempt(Err("busy")),
        SendStep::Retry { wait_millis: 0, next: Sending { failed: 1, retry_delay_millis: 0 } }
    );
}

#[test]
fn the_fifth_failure_gives_up_with_its_error() {
    assert_eq!(after(4).attempt(Err("gone")), SendStep::GiveUp("gone"));
    assert_eq!(after(4).attempt::<u8>(Ok(())), SendStep::Delivered);
    assert_eq!(
        run(700, &[Err("e1"), Err("e2"), Err("e3"), Err("e4"), Err("e5"), Ok(())]),
        (5, 2800, Some(Err("e5")))
    );
}

#[test]
fn a_count_beyond_the_budget_gives_up() {
    assert_eq!(after(5).attempt(Err("gone")), SendStep::GiveUp("gone"));
    assert_eq!(after(u32::MAX).attempt(Err("gone")), SendStep::GiveUp("gone"));
}

#[test]
fn a_late_success_delivers_without_an_error() {
    for failures in 0..5 {
        let mut outcomes = vec![Err("flaky"); failures];
        outcomes.push(Ok(()));
        assert_eq!(run(700, &outcomes), (failures + 1, 700 * failures as u64, Some(Ok(()))));
    }
}

#[test]
fn fewer_failures_than_attempts_decide_nothing() {
    for failures in 0..5 {
        assert_eq!(run(700, &vec![Err("flaky"); failures]), (failures, 700 * failures as u64, None));
    }
}

#[test]
fn the_pause_is_slept_in_steps_of_five_seconds() {
    assert_eq!(IDLE_STEP_MILLIS, 5000);
    assert_eq!(idle_step(300_000, false), IdleStep::Sleep { millis: 5000, remaining: 295_000 });
    assert_eq!(idle_step(5001, false), IdleStep::Sleep { millis: 5000, remaining: 1 });
    assert_eq!(idle_step(5000, false), IdleStep::Sleep { millis: 5000, remaining: 0 });
    assert_eq!(idle_step(1, false), IdleStep::Sleep { millis: 5000, remaining: 0 });
    assert_eq!(idle_step(u64::MAX, false), IdleStep::Sleep { millis: 5000, remaining: u64::MAX - 5000 });
}

#[test]
fn a_pause_that_is_over_resumes() {
    assert_eq!(idle_step(0, false), IdleStep::Resume);
    assert_eq!(idle_step(0, true), IdleStep::Resume);
}

#[test]
fn shutdown_ends_a_pause() {
    assert_eq!(idle_step(1, true), IdleStep::Stop);
    assert_eq!(idle_step(300_000, true), IdleStep::Stop);
}

#[test]
fn an_undisturbed_pause_sleeps_long_enough() {
    for total in [0u64, 1, 4999, 5000, 5001, 12_345, 300_000] {
        let mut remaining = total;
        let mut slept = 0u64;
        while let IdleStep::Sleep { millis, remaining: left } = idle_step(remaining, false) {
            slept += millis;
            remaining = left;
        }
        assert_eq!(idle_step(remaining, false), IdleStep::Resume);
        assert!(slept >= total);
        assert!(slept < total + 5000);
    }
}
