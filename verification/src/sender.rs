//! Sending one message to one destination, with a bounded number of tries.
//!
//! The transport is outside this library. The driver makes each attempt and
//! reports how it went; the functions here decide whether to try again, and
//! after how long.

use vstd::prelude::*;

verus! {

/// The number of attempts made before a send is given up.
pub const SEND_ATTEMPTS: u32 = 5;

/// How a message is to be delivered.
#[derive(Debug, Clone, Copy, PartialEq, Eq, Structural)]
pub struct SendOptions {
    /// Deliver without notifying the recipient.
    pub silent: bool,
    /// Do not show a preview of the links in the message.
    pub disable_preview: bool,
}

/// One message on its way to one destination.
#[derive(Debug, Clone, Copy, PartialEq, Eq, Structural)]
pub struct Sending {
    /// The attempts that have failed so far.
    pub failed: u32,
    /// The time to let pass between two attempts, in milliseconds.
    pub retry_delay_millis: u64,
}

/// What to do after an attempt.
#[derive(Debug, PartialEq, Eq)]
pub enum SendStep<E> {
    /// The message is delivered.
    Delivered,
    /// Wait, then try again.
    Retry { wait_millis: u64, next: Sending },
    /// Every attempt failed; this is the error of the last one.
    GiveUp(E),
}

/// The decision after an attempt: a delivered message is done with; a
/// failure is retried after the delay as long as attempts are left, and
/// given up with its error when none is.
pub open spec fn decide<E>(sending: Sending, outcome: Result<(), E>) -> SendStep<E> {
    match outcome {
        Ok(_) => SendStep::Delivered,
        Err(e) => if sending.failed + 1 < SEND_ATTEMPTS {
            SendStep::Retry {
                wait_millis: sending.retry_delay_millis,
                next: Sending { failed: (sending.failed + 1) as u32, ..sending },
            }
        } else {
            SendStep::GiveUp(e)
        },
    }
}

impl Sending {
    /// A send of which no attempt has been made.
    pub fn new(retry_delay_millis: u64) -> (r: Sending)
        ensures
            r == (Sending { failed: 0, retry_delay_millis }),
    {
        Sending { failed: 0, retry_delay_millis }
    }

    /// Takes the outcome of an attempt and decides how to go on.
    pub fn attempt<E>(self, outcome: Result<(), E>) -> (r: SendStep<E>)
        ensures
            r == decide(self, outcome),
    {
        match outcome {
            Ok(_) => SendStep::Delivered,
            Err(e) => if self.failed < SEND_ATTEMPTS - 1 {
                SendStep::Retry {
                    wait_millis: self.retry_delay_millis,
                    next: Sending {
                        failed: self.failed + 1,
                        retry_delay_millis: self.retry_delay_millis,
                    },
                }
            } else {
                SendStep::GiveUp(e)
            },
        }
    }
}

/// What a run of attempts comes to: `None` as long as the send is neither
/// delivered nor given up. Attempts after the deciding one are not made, so
/// their outcomes do not count.
pub open spec fn verdict<E>(sending: Sending, outcomes: Seq<Result<(), E>>) -> Option<
    Result<(), E>,
>
    decreases outcomes.len(),
{
    if outcomes.len() == 0 {
        None
    } else {
        match decide(sending, outcomes[0]) {
            SendStep::Delivered => Some(Ok(())),
            SendStep::GiveUp(e) => Some(Err(e)),
            SendStep::Retry { next, .. } => verdict(next, outcomes.drop_first()),
        }
    }
}

/// The time spent waiting between the attempts of a run, in milliseconds.
pub open spec fn waited<E>(sending: Sending, outcomes: Seq<Result<(), E>>) -> nat
    decreases outcomes.len(),
{
    if outcomes.len() == 0 {
        0
    } else {
        match decide(sending, outcomes[0]) {
            SendStep::Retry { wait_millis, next } => wait_millis as nat + waited(
                next,
                outcomes.drop_first(),
            ),
            _ => 0,
        }
    }
}

/// A destination that fails fewer times than there are attempts and then
/// accepts the message gets it, and no error comes up. Each failure costs
/// one delay.
pub proof fn lemma_late_success_delivers<E>(
    retry_delay_millis: u64,
    outcomes: Seq<Result<(), E>>,
    failures: nat,
)
    requires
        failures < SEND_ATTEMPTS,
        failures < outcomes.len(),
        forall|i: int| 0 <= i < failures ==> (#[trigger] outcomes[i]) is Err,
        outcomes[failures as int] is Ok,
    ensures
        verdict(Sending { failed: 0, retry_delay_millis }, outcomes) == Some(Ok::<(), E>(())),
        waited(Sending { failed: 0, retry_delay_millis }, outcomes) == failures
            * retry_delay_millis,
{
    let start = Sending { failed: 0, retry_delay_millis };
    lemma_run_after_failures(start, outcomes, failures);
    assert(failures * retry_delay_millis + 0 == failures * retry_delay_millis);
}

/// A destination that fails at every attempt is given up after exactly
/// `SEND_ATTEMPTS` of them, with the error of the last, and not before.
pub proof fn lemma_exhausted_gives_up<E>(retry_delay_millis: u64, outcomes: Seq<Result<(), E>>)
    requires
        outcomes.len() >= SEND_ATTEMPTS,
        forall|i: int| 0 <= i < SEND_ATTEMPTS ==> (#[trigger] outcomes[i]) is Err,
    ensures
        verdict(Sending { failed: 0, retry_delay_millis }, outcomes) == Some(
            Err::<(), E>(outcomes[SEND_ATTEMPTS - 1]->Err_0),
        ),
        forall|n: int|
            0 <= n < SEND_ATTEMPTS ==> verdict(
                Sending { failed: 0, retry_delay_millis },
                #[trigger] outcomes.take(n),
            ) == None::<Result<(), E>>,
        waited(Sending { failed: 0, retry_delay_millis }, outcomes) == (SEND_ATTEMPTS - 1)
            * retry_delay_millis,
{
    let start = Sending { failed: 0, retry_delay_millis };
    lemma_run_after_failures(start, outcomes, (SEND_ATTEMPTS - 1) as nat);
    assert forall|n: int| 0 <= n < SEND_ATTEMPTS implies verdict(
        start,
        #[trigger] outcomes.take(n),
    ) == None::<Result<(), E>> by {
        lemma_verdict_open(start, outcomes.take(n));
    }
}

proof fn lemma_run_after_failures<E>(
    sending: Sending,
    outcomes: Seq<Result<(), E>>,
    failures: nat,
)
    requires
        sending.failed + failures < SEND_ATTEMPTS,
        failures < outcomes.len(),
        forall|i: int| 0 <= i < failures ==> (#[trigger] outcomes[i]) is Err,
    ensures
        ({
            let later = Sending { failed: (sending.failed + failures) as u32, ..sending };
            let rest = outcomes.skip(failures as int);
            &&& verdict(sending, outcomes) == verdict(later, rest)
            &&& waited(sending, outcomes) == failures * sending.retry_delay_millis + waited(
                later,
                rest,
            )
        }),
    decreases failures,
{
    if failures == 0 {
        assert(outcomes.skip(0) =~= outcomes);
        assert(0 * sending.retry_delay_millis == 0);
    } else {
        assert(outcomes[0] is Err);
        let next = Sending { failed: (sending.failed + 1) as u32, ..sending };
        let rest = outcomes.drop_first();
        assert forall|i: int| 0 <= i < failures - 1 implies (#[trigger] rest[i]) is Err by {
            assert(outcomes[i + 1] is Err);
        }
        lemma_run_after_failures(next, rest, (failures - 1) as nat);
        assert(rest.skip(failures - 1) =~= outcomes.skip(failures as int));
        assert(failures * sending.retry_delay_millis == sending.retry_delay_millis + (failures
            - 1) * sending.retry_delay_millis) by (nonlinear_arith);
    }
}

proof fn lemma_verdict_open<E>(sending: Sending, outcomes: Seq<Result<(), E>>)
    requires
        sending.failed + outcomes.len() < SEND_ATTEMPTS,
        forall|i: int| 0 <= i < outcomes.len() ==> (#[trigger] outcomes[i]) is Err,
    ensures
        verdict(sending, outcomes) == None::<Result<(), E>>,
    decreases outcomes.len(),
{
    if outcomes.len() > 0 {
        assert(outcomes[0] is Err);
        let rest = outcomes.drop_first();
        assert forall|i: int| 0 <= i < rest.len() implies (#[trigger] rest[i]) is Err by {
            assert(outcomes[i + 1] is Err);
        }
        lemma_verdict_open(Sending { failed: (sending.failed + 1) as u32, ..sending }, rest);
    }
}

} // verus!
