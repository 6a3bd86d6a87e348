//! The per-task retry state machine: send, classify, and decide whether to
//! retry with backoff, abandon, or invalidate the recipient.

use vstd::prelude::*;
use crate::delivery::Classification;
use crate::delivery::DeliveryError;
use crate::delivery::classify_spec;
use crate::delivery::classify;

verus! {

/// Index of the last permitted attempt: attempts are numbered 0 through 5,
/// six in all.
pub const LAST_ATTEMPT: u8 = 5;

/// Milliseconds of backoff per attempt index: attempt `i` waits `i * 1500`
/// milliseconds before firing, a linear (not exponential) schedule.
pub const BACKOFF_STEP_MS: u64 = 1500;

/// Where one task stands in its delivery attempt sequence.
#[derive(Debug, Clone, Copy, PartialEq, Eq, Structural)]
pub enum ExecutorState {
    /// No attempt has been issued yet.
    Pending,
    /// Attempt number `attempt` (0-based) is in flight.
    Attempting { attempt: u8 },
    /// The provider accepted the message; the task is complete.
    Delivered,
    /// The provider reported the recipient stale (status 400 or 404); the
    /// token must be surfaced to the invalidation path. Retrying a recipient
    /// the provider has rejected cannot succeed, so this ends the run.
    Invalidating,
    /// A non-retryable error ended the run: any other provider status, or an
    /// unclassified failure, logged and abandoned.
    PermanentlyFailed,
    /// All six attempts were spent without a terminal outcome; the task is
    /// silently abandoned.
    Exhausted,
}

/// What the runtime must do after a transition.
#[derive(Debug, Clone, Copy, PartialEq, Eq, Structural)]
pub enum Action {
    /// Suspend for `delay_ms` milliseconds, then call the provider's send.
    Send { delay_ms: u64 },
    /// Surface the recipient to the token-invalidation path, then stop.
    InvalidateToken,
    /// Log the failure at error level, then stop.
    ReportError,
    /// The run is over; the task needs nothing further.
    Finish,
}

impl ExecutorState {
    /// States after which no further delivery attempt occurs.
    pub open spec fn is_terminal(self) -> bool {
        match self {
            ExecutorState::Pending => false,
            ExecutorState::Attempting { .. } => false,
            ExecutorState::Delivered => true,
            ExecutorState::Invalidating => true,
            ExecutorState::PermanentlyFailed => true,
            ExecutorState::Exhausted => true,
        }
    }

    /// An attempt index never exceeds the cap.
    pub open spec fn wf(self) -> bool {
        self matches ExecutorState::Attempting { attempt } ==> attempt <= LAST_ATTEMPT
    }
}

/// The state reached from attempt `attempt` on an outcome of class `c`.
pub open spec fn next_state(attempt: u8, c: Classification) -> ExecutorState {
    match c {
        Classification::TerminalSuccess => ExecutorState::Delivered,
        Classification::StaleRecipient => ExecutorState::Invalidating,
        Classification::PermanentClientError => ExecutorState::PermanentlyFailed,
        Classification::Unclassified => ExecutorState::PermanentlyFailed,
        Classification::TransientServer | Classification::TransientTimeout => {
            if attempt < LAST_ATTEMPT {
                ExecutorState::Attempting { attempt: (attempt + 1) as u8 }
            } else {
                ExecutorState::Exhausted
            }
        },
    }
}

/// The action owed after leaving attempt `attempt` on an outcome of class
/// `c`: a retry carries the linear backoff delay of the next attempt.
pub open spec fn next_action(attempt: u8, c: Classification) -> Action {
    match c {
        Classification::TerminalSuccess => Action::Finish,
        Classification::StaleRecipient => Action::InvalidateToken,
        Classification::PermanentClientError => Action::ReportError,
        Classification::Unclassified => Action::ReportError,
        Classification::TransientServer | Classification::TransientTimeout => {
            if attempt < LAST_ATTEMPT {
                Action::Send { delay_ms: ((attempt + 1) as u64 * BACKOFF_STEP_MS) as u64 }
            } else {
                Action::Finish
            }
        },
    }
}

/// The state before any attempt is issued.
pub fn initial_state() -> (s: ExecutorState)
    ensures
        s == ExecutorState::Pending,
{
    ExecutorState::Pending
}

/// Issues the first attempt: attempt 0 fires immediately, with no backoff.
pub fn launch(s: ExecutorState) -> (r: (ExecutorState, Action))
    requires
        s is Pending,
    ensures
        r.0 == (ExecutorState::Attempting { attempt: 0u8 }),
        r.1 == (Action::Send { delay_ms: 0u64 }),
{
    (ExecutorState::Attempting { attempt: 0 }, Action::Send { delay_ms: 0 })
}

/// The backoff delay before attempt `attempt` fires, in milliseconds:
/// 1500, 3000, 4500, 6000, 7500 for attempts 1 through 5.
pub fn backoff_ms(attempt: u8) -> (d: u64)
    requires
        1 <= attempt <= LAST_ATTEMPT,
    ensures
        d == attempt as u64 * BACKOFF_STEP_MS,
{
    attempt as u64 * BACKOFF_STEP_MS
}

/// Consumes the outcome of the attempt in flight and decides what follows:
/// success, a stale recipient, and non-retryable errors end the run; a
/// transient fault retries after linear backoff until the attempt cap, after
/// which the task is abandoned.
pub fn on_outcome(s: ExecutorState, outcome: &Result<(), DeliveryError>) -> (r: (
    ExecutorState,
    Action,
))
    requires
        s is Attempting,
        s.wf(),
    ensures
        r.0 == next_state(s->attempt, classify_spec(*outcome)),
        r.1 == next_action(s->attempt, classify_spec(*outcome)),
        r.0 == step_spec(s, *outcome),
        r.0.wf(),
        r.0.is_terminal() <==> !(r.1 is Send),
{
    let attempt: u8 = match s {
        ExecutorState::Attempting { attempt } => attempt,
        _ => 0,
    };
    match classify(outcome) {
        Classification::TerminalSuccess => (ExecutorState::Delivered, Action::Finish),
        Classification::StaleRecipient => (ExecutorState::Invalidating, Action::InvalidateToken),
        Classification::PermanentClientError => (
            ExecutorState::PermanentlyFailed,
            Action::ReportError,
        ),
        Classification::Unclassified => (ExecutorState::PermanentlyFailed, Action::ReportError),
        Classification::TransientServer | Classification::TransientTimeout => {
            if attempt < LAST_ATTEMPT {
                (
                    ExecutorState::Attempting { attempt: attempt + 1 },
                    Action::Send { delay_ms: (attempt as u64 + 1) * BACKOFF_STEP_MS },
                )
            } else {
                (ExecutorState::Exhausted, Action::Finish)
            }
        },
    }
}

/// One spec-level transition of the machine: an in-flight attempt consumes
/// its outcome; every other state stands still.
pub open spec fn step_spec(s: ExecutorState, outcome: Result<(), DeliveryError>) -> ExecutorState {
    match s {
        ExecutorState::Attempting { attempt } => next_state(attempt, classify_spec(outcome)),
        _ => s,
    }
}

/// The state after consuming a whole sequence of outcomes, first one first.
pub open spec fn run_spec(s: ExecutorState, outcomes: Seq<Result<(), DeliveryError>>) -> ExecutorState
    decreases outcomes.len(),
{
    if outcomes.len() == 0 {
        s
    } else {
        run_spec(step_spec(s, outcomes[0]), outcomes.drop_first())
    }
}

/// How many delivery attempts a run spends: one per outcome consumed while
/// an attempt was in flight.
pub open spec fn attempts_used(s: ExecutorState, outcomes: Seq<Result<(), DeliveryError>>) -> nat
    decreases outcomes.len(),
{
    if outcomes.len() == 0 {
        0
    } else {
        (if s is Attempting {
            1nat
        } else {
            0nat
        }) + attempts_used(step_spec(s, outcomes[0]), outcomes.drop_first())
    }
}

/// The backoff delay an action carries: only a retry suspends.
pub open spec fn action_delay_ms(a: Action) -> int {
    match a {
        Action::Send { delay_ms } => delay_ms as int,
        _ => 0,
    }
}

/// Milliseconds of backoff a run can still owe once it stands at attempt
/// `a`: the linear delays of the attempts that may yet fire.
pub open spec fn remaining_backoff_ms(a: u8) -> int {
    if a == 0 {
        22500
    } else if a == 1 {
        21000
    } else if a == 2 {
        18000
    } else if a == 3 {
        13500
    } else if a == 4 {
        7500
    } else {
        0
    }
}

/// The backoff a run spends consuming a sequence of outcomes: the delay of
/// each retry it decides on.
pub open spec fn backoff_spent_ms(s: ExecutorState, outcomes: Seq<Result<(), DeliveryError>>) -> int
    decreases outcomes.len(),
{
    if outcomes.len() == 0 {
        0
    } else {
        let d = match s {
            ExecutorState::Attempting { attempt } => action_delay_ms(
                next_action(attempt, classify_spec(outcomes[0])),
            ),
            _ => 0,
        };
        d + backoff_spent_ms(step_spec(s, outcomes[0]), outcomes.drop_first())
    }
}

/// A single transition keeps the attempt index under the cap.
pub proof fn lemma_step_preserves_wf(s: ExecutorState, outcome: Result<(), DeliveryError>)
    requires
        s.wf(),
    ensures
        step_spec(s, outcome).wf(),
{
}

/// A terminal state absorbs every further outcome: once a task is
/// delivered, invalidating, permanently failed or exhausted, no sequence of
/// outcomes moves it.
pub proof fn lemma_terminal_absorbs(s: ExecutorState, outcomes: Seq<Result<(), DeliveryError>>)
    requires
        s.is_terminal(),
    ensures
        run_spec(s, outcomes) == s,
        attempts_used(s, outcomes) == 0,
    decreases outcomes.len(),
{
    if outcomes.len() > 0 {
        lemma_terminal_absorbs(s, outcomes.drop_first());
    }
}

/// The attempt cap: a run that stands at attempt `attempt` spends at most
/// `6 - attempt` further attempts, whatever outcomes arrive — so a task
/// launched at attempt 0 is attempted at most six times in all.
pub proof fn lemma_attempt_cap(s: ExecutorState, outcomes: Seq<Result<(), DeliveryError>>)
    requires
        s.wf(),
    ensures
        s matches ExecutorState::Attempting { attempt } ==> attempts_used(s, outcomes) <= 6
            - attempt,
        !(s is Attempting) ==> attempts_used(s, outcomes) == 0,
        attempts_used(s, outcomes) <= 6,
    decreases outcomes.len(),
{
    if outcomes.len() > 0 {
        lemma_step_preserves_wf(s, outcomes[0]);
        lemma_attempt_cap(step_spec(s, outcomes[0]), outcomes.drop_first());
    }
}

/// The backoff cap: whatever outcomes arrive, a run launched at attempt 0
/// suspends for at most 1500 + 3000 + 4500 + 6000 + 7500 = 22500
/// milliseconds of backoff in all, so the backoff sleeps bound each task's
/// wall-clock time at roughly 22.5 seconds plus the send calls themselves.
pub proof fn lemma_backoff_cap(s: ExecutorState, outcomes: Seq<Result<(), DeliveryError>>)
    requires
        s.wf(),
    ensures
        s matches ExecutorState::Attempting { attempt } ==> backoff_spent_ms(s, outcomes)
            <= remaining_backoff_ms(attempt),
        !(s is Attempting) ==> backoff_spent_ms(s, outcomes) == 0,
        backoff_spent_ms(s, outcomes) <= 22500,
    decreases outcomes.len(),
{
    if outcomes.len() > 0 {
        lemma_step_preserves_wf(s, outcomes[0]);
        lemma_backoff_cap(step_spec(s, outcomes[0]), outcomes.drop_first());
    }
}

/// The retry loop always ends: a run standing at attempt `attempt` reaches
/// a terminal state within `6 - attempt` outcomes, since every outcome
/// either ends the run or moves it one attempt closer to exhaustion.
pub proof fn lemma_run_terminates(s: ExecutorState, outcomes: Seq<Result<(), DeliveryError>>)
    requires
        s.wf(),
        s is Attempting,
        outcomes.len() >= 6 - s->attempt,
    ensures
        run_spec(s, outcomes).is_terminal(),
    decreases outcomes.len(),
{
    let next = step_spec(s, outcomes[0]);
    if next.is_terminal() {
        lemma_terminal_absorbs(next, outcomes.drop_first());
    } else {
        lemma_step_preserves_wf(s, outcomes[0]);
        lemma_run_terminates(next, outcomes.drop_first());
    }
}

/// Success stops the run at any attempt: an in-flight attempt whose outcome
/// is `Ok` goes straight to `Delivered`, and stays there.
pub proof fn lemma_success_stops(
    s: ExecutorState,
    outcome: Result<(), DeliveryError>,
    rest: Seq<Result<(), DeliveryError>>,
)
    requires
        s is Attempting,
        outcome is Ok,
    ensures
        step_spec(s, outcome) == ExecutorState::Delivered,
        run_spec(step_spec(s, outcome), rest) == ExecutorState::Delivered,
{
    lemma_terminal_absorbs(ExecutorState::Delivered, rest);
}

} // verus!
