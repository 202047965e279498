//! The executor state machine: one submitted task's walk from an optional
//! scheduled wait through bounded retried purchase attempts to exactly one
//! terminal state.
//!
//! The machine is a pure step function from phase and observed event to
//! next phase and requested action. A driver owns the clock, the network
//! and the captcha resolver: it performs each requested action, feeds the
//! observation back in, and records phase changes in the task registry.
//! Every property of the walk is therefore proved for every possible
//! observation, including every order of transient failures.

use vstd::prelude::*;
use crate::taskmanager::{TaskStatus, is_terminal_spec, status_step_ok};
use crate::text::dec_rep;

verus! {

/// The retry policy: how many attempts the budget allows, and the bounds
/// of the exponential backoff between them.
#[derive(Clone, Copy, PartialEq, Eq, Structural, Debug)]
pub struct RetryPolicy {
    pub max_attempts: u32,
    pub base_delay_ms: u64,
    pub max_delay_ms: u64,
}

/// A usable policy: at least one attempt, and a backoff window whose base
/// does not exceed its cap.
pub open spec fn policy_wf(p: RetryPolicy) -> bool {
    &&& p.max_attempts >= 1
    &&& p.base_delay_ms >= 1
    &&& p.base_delay_ms <= p.max_delay_ms
}

/// Powers of two.
pub open spec fn pow2(k: nat) -> nat
    decreases k,
{
    if k == 0 {
        1
    } else {
        2 * pow2((k - 1) as nat)
    }
}

/// The exponential delay before the next attempt, capped at the policy's
/// maximum.
pub open spec fn capped_delay(p: RetryPolicy, attempts_made: nat) -> nat {
    let raw = p.base_delay_ms as nat * pow2(attempts_made);
    if raw > p.max_delay_ms as nat {
        p.max_delay_ms as nat
    } else {
        raw
    }
}

/// The delay with jitter applied: the jitter subtracts at most half of the
/// capped delay.
pub open spec fn backoff_of(p: RetryPolicy, attempts_made: nat, jitter: u64) -> nat {
    let capped = capped_delay(p, attempts_made);
    (capped - (jitter as nat % (capped / 2 + 1))) as nat
}

/// Computes the backoff delay before the next attempt: bounded
/// exponential in the number of attempts already made, capped at the
/// policy maximum, with the caller-supplied jitter subtracting at most
/// half.
pub fn backoff_delay(p: &RetryPolicy, attempts_made: u32, jitter: u64) -> (r: u64)
    requires
        policy_wf(*p),
    ensures
        r as nat == backoff_of(*p, attempts_made as nat, jitter),
        r <= p.max_delay_ms,
        r as nat >= capped_delay(*p, attempts_made as nat) / 2,
{
    let mut d: u64 = p.base_delay_ms;
    let mut i: u32 = 0;
    proof {
        assert(pow2(0) == 1);
        assert(p.base_delay_ms as nat * 1 == p.base_delay_ms as nat);
    }
    while i < attempts_made
        invariant
            policy_wf(*p),
            i <= attempts_made,
            d as nat == capped_delay(*p, i as nat),
            1 <= d <= p.max_delay_ms,
        decreases attempts_made - i,
    {
        proof {
            assert(pow2((i + 1) as nat) == 2 * pow2(i as nat));
            assert(p.base_delay_ms as nat * (2 * pow2(i as nat)) == 2 * (p.base_delay_ms as nat
                * pow2(i as nat))) by (nonlinear_arith);
            assert(pow2(i as nat) >= 1) by {
                lemma_pow2_pos(i as nat);
            }
            assert(p.base_delay_ms as nat * pow2(i as nat) >= p.base_delay_ms as nat * 1)
                by (nonlinear_arith)
                requires
                    pow2(i as nat) >= 1,
                    p.base_delay_ms >= 1,
            ;
        }
        if d > p.max_delay_ms / 2 {
            d = p.max_delay_ms;
        } else {
            d = d * 2;
        }
        i = i + 1;
    }
    let half = d / 2;
    let j = jitter % (half + 1);
    d - j
}

/// Powers of two are positive.
proof fn lemma_pow2_pos(k: nat)
    ensures
        pow2(k) >= 1,
    decreases k,
{
    if k > 0 {
        lemma_pow2_pos((k - 1) as nat);
    }
}

/// The phase an executor is in.
pub enum ExecPhase {
    /// Suspended until the task's scheduled start instant.
    Waiting { until: u64 },
    /// Performing purchase attempts; counts the attempts already made.
    Attempting { attempts_made: u32 },
    /// Reached a terminal status, with the recorded result message.
    Finished { status: TaskStatus, message: String },
}

/// What one purchase attempt came to. A captcha resolver failure or
/// timeout counts as a transient failure, like a network timeout, a rate
/// limit, a risk-control challenge or a temporarily stale session; sold
/// out, a rejected buyer or a permanently invalid session are permanent.
pub enum AttemptOutcome {
    /// The server confirmed the order.
    Confirmed,
    /// A failure worth retrying, with its description.
    Transient { reason: String },
    /// A failure no retry can mend, with its description.
    Permanent { reason: String },
}

/// What the driver observed since the last step.
pub enum ExecEvent {
    /// The clock reads `now`.
    TimeCheck { now: u64 },
    /// The task's cooperative cancellation flag was found set.
    CancelObserved,
    /// A purchase attempt completed.
    AttemptDone { outcome: AttemptOutcome },
}

/// What the driver must do next.
#[derive(Clone, Copy, PartialEq, Eq, Structural, Debug)]
pub enum ExecAction {
    /// Suspend until the given instant, then report a time check.
    SleepUntil { deadline: u64 },
    /// Perform one purchase attempt and report its outcome.
    AttemptPurchase,
    /// Wait the given backoff delay, then perform the next attempt.
    RetryAfter { delay_ms: u64 },
    /// The task ended in success or failure: dispatch notifications,
    /// unless they are globally disabled.
    Notify,
    /// Nothing to do.
    Idle,
}

/// A phase the machine can actually be in under a policy: the attempt
/// count never reaches the budget while attempts continue, and a finished
/// phase carries a terminal status and a non-empty result message.
pub open spec fn phase_wf(p: RetryPolicy, phase: ExecPhase) -> bool {
    match phase {
        ExecPhase::Waiting { .. } => true,
        ExecPhase::Attempting { attempts_made } => attempts_made < p.max_attempts,
        ExecPhase::Finished { status, message } => is_terminal_spec(status) && message@.len() > 0,
    }
}

/// The registry status that corresponds to a phase: a waiting executor's
/// task is still `Pending`, an attempting executor's task is `Running`,
/// and a finished executor's task carries the terminal status.
pub open spec fn phase_status(phase: ExecPhase) -> TaskStatus {
    match phase {
        ExecPhase::Waiting { .. } => TaskStatus::Pending,
        ExecPhase::Attempting { .. } => TaskStatus::Running,
        ExecPhase::Finished { status, .. } => status,
    }
}

/// How many attempts of the budget remain open in a phase.
pub open spec fn attempts_left(p: RetryPolicy, phase: ExecPhase) -> nat {
    match phase {
        ExecPhase::Attempting { attempts_made } => if attempts_made < p.max_attempts {
            (p.max_attempts - attempts_made) as nat
        } else {
            0
        },
        ExecPhase::Waiting { .. } => p.max_attempts as nat,
        ExecPhase::Finished { .. } => 0,
    }
}

/// The result message of a cancellation observed during the scheduled
/// wait.
pub open spec fn cancelled_waiting_msg() -> Seq<char> {
    "cancelled before start"@
}

/// The result message of a cancellation observed between attempts.
pub open spec fn cancelled_attempting_msg() -> Seq<char> {
    "cancelled before next attempt"@
}

/// The result message of a confirmed purchase.
pub open spec fn success_msg() -> Seq<char> {
    "ticket secured"@
}

/// The result message of a permanent failure: it carries the reason.
pub open spec fn permanent_fail_msg(reason: Seq<char>) -> Seq<char> {
    "purchase failed: "@ + reason
}

/// The result message of an exhausted retry budget: it carries the
/// attempt count and the last transient reason.
pub open spec fn budget_exhausted_msg(max_attempts: nat, reason: Seq<char>) -> Seq<char> {
    "retry budget exhausted after "@ + dec_rep(max_attempts) + " attempts: "@ + reason
}

/// Starts an executor: a task with a scheduled start still in the future
/// waits for it and issues no purchase attempt; any other task attempts
/// at once.
pub fn exec_init(start_time: Option<u64>, now: u64) -> (r: (ExecPhase, ExecAction))
    ensures
        start_time matches Some(t) ==> ({
            &&& t > now ==> r.0 == (ExecPhase::Waiting { until: t }) && r.1
                == (ExecAction::SleepUntil { deadline: t })
            &&& t <= now ==> r.0 == (ExecPhase::Attempting { attempts_made: 0 }) && r.1
                == ExecAction::AttemptPurchase
        }),
        start_time is None ==> r.0 == (ExecPhase::Attempting { attempts_made: 0 }) && r.1
            == ExecAction::AttemptPurchase,
        forall|p: RetryPolicy| policy_wf(p) ==> phase_wf(p, r.0),
{
    match start_time {
        Some(t) => {
            if t > now {
                (ExecPhase::Waiting { until: t }, ExecAction::SleepUntil { deadline: t })
            } else {
                (ExecPhase::Attempting { attempts_made: 0 }, ExecAction::AttemptPurchase)
            }
        },
        None => (ExecPhase::Attempting { attempts_made: 0 }, ExecAction::AttemptPurchase),
    }
}

/// One step of the executor: consumes the phase and the observed event,
/// gives the next phase and the driver's next action.
///
/// A purchase attempt is requested only by a time check at or past the
/// scheduled start instant: a waiting task never reaches the network
/// early, and a cancellation observed while waiting ends the task as
/// `Cancelled` with no attempt made. Between attempts, a transient
/// failure either consumes one unit of the retry budget or, when the
/// budget is exhausted, ends the task as `Failed`; the count of attempts
/// never exceeds the policy's maximum. A finished phase absorbs every
/// further event.
pub fn exec_step(p: &RetryPolicy, phase: ExecPhase, event: ExecEvent, jitter: u64) -> (r: (
    ExecPhase,
    ExecAction,
))
    requires
        policy_wf(*p),
        phase_wf(*p, phase),
    ensures
        phase_wf(*p, r.0),
        phase_status(r.0) == phase_status(phase) || status_step_ok(
            phase_status(phase),
            phase_status(r.0),
        ),
        r.1 == ExecAction::AttemptPurchase ==> (phase matches ExecPhase::Waiting { until }
            && (event matches ExecEvent::TimeCheck { now } && now >= until)),
        phase matches ExecPhase::Waiting { until } ==> ({
            &&& event == ExecEvent::CancelObserved ==> (r.0 matches ExecPhase::Finished {
                status,
                message,
            } && status == TaskStatus::Cancelled && message@ == cancelled_waiting_msg()) && r.1
                == ExecAction::Idle
            &&& (event matches ExecEvent::TimeCheck { now } && now < until) ==> r.0 == phase && r.1
                == (ExecAction::SleepUntil { deadline: until })
            &&& (event matches ExecEvent::TimeCheck { now } && now >= until) ==> r.0
                == (ExecPhase::Attempting { attempts_made: 0 }) && r.1
                == ExecAction::AttemptPurchase
            &&& (event is AttemptDone) ==> r.0 == phase && r.1 == (ExecAction::SleepUntil {
                deadline: until,
            })
        }),
        phase matches ExecPhase::Attempting { attempts_made } ==> ({
            &&& event == ExecEvent::CancelObserved ==> (r.0 matches ExecPhase::Finished {
                status,
                message,
            } && status == TaskStatus::Cancelled && message@ == cancelled_attempting_msg()) && r.1
                == ExecAction::Idle
            &&& (event is TimeCheck) ==> r.0 == phase && r.1 == ExecAction::Idle
            &&& (event matches ExecEvent::AttemptDone { outcome: AttemptOutcome::Confirmed }) ==> (
            r.0 matches ExecPhase::Finished { status, message } && status == TaskStatus::Succeeded
                && message@ == success_msg()) && r.1 == ExecAction::Notify
            &&& event matches ExecEvent::AttemptDone {
                outcome: AttemptOutcome::Permanent { reason },
            } ==> ((r.0 matches ExecPhase::Finished { status, message } && status
                == TaskStatus::Failed && message@ == permanent_fail_msg(reason@)) && r.1
                == ExecAction::Notify)
            &&& event matches ExecEvent::AttemptDone {
                outcome: AttemptOutcome::Transient { reason },
            } ==> ({
                &&& attempts_made + 1 >= p.max_attempts ==> ((r.0 matches ExecPhase::Finished {
                    status,
                    message,
                } && status == TaskStatus::Failed && message@ == budget_exhausted_msg(
                    p.max_attempts as nat,
                    reason@,
                )) && r.1 == ExecAction::Notify)
                &&& attempts_made + 1 < p.max_attempts ==> (r.0 == (ExecPhase::Attempting {
                    attempts_made: (attempts_made + 1) as u32,
                }) && r.1 == (ExecAction::RetryAfter {
                    delay_ms: backoff_of(*p, (attempts_made + 1) as nat, jitter) as u64,
                }))
            })
            &&& (event is AttemptDone) ==> (r.0 is Finished || attempts_left(*p, r.0)
                < attempts_left(*p, phase))
        }),
        phase matches ExecPhase::Finished { status, message } ==> (r.0
            matches ExecPhase::Finished { status: s2, message: m2 } && s2 == status && m2@
            == message@ && r.1 == ExecAction::Idle),
{
    match phase {
        ExecPhase::Waiting { until } => {
            match event {
                ExecEvent::CancelObserved => {
                    proof {
                        reveal_strlit("cancelled before start");
                    }
                    (
                        ExecPhase::Finished {
                            status: TaskStatus::Cancelled,
                            message: String::from_str("cancelled before start"),
                        },
                        ExecAction::Idle,
                    )
                },
                ExecEvent::TimeCheck { now } => {
                    if now < until {
                        (
                            ExecPhase::Waiting { until },
                            ExecAction::SleepUntil { deadline: until },
                        )
                    } else {
                        (
                            ExecPhase::Attempting { attempts_made: 0 },
                            ExecAction::AttemptPurchase,
                        )
                    }
                },
                ExecEvent::AttemptDone { .. } => {
                    (ExecPhase::Waiting { until }, ExecAction::SleepUntil { deadline: until })
                },
            }
        },
        ExecPhase::Attempting { attempts_made } => {
            match event {
                ExecEvent::CancelObserved => {
                    proof {
                        reveal_strlit("cancelled before next attempt");
                    }
                    (
                        ExecPhase::Finished {
                            status: TaskStatus::Cancelled,
                            message: String::from_str("cancelled before next attempt"),
                        },
                        ExecAction::Idle,
                    )
                },
                ExecEvent::TimeCheck { .. } => {
                    (ExecPhase::Attempting { attempts_made }, ExecAction::Idle)
                },
                ExecEvent::AttemptDone { outcome } => {
                    match outcome {
                        AttemptOutcome::Confirmed => {
                            proof {
                                reveal_strlit("ticket secured");
                            }
                            (
                                ExecPhase::Finished {
                                    status: TaskStatus::Succeeded,
                                    message: String::from_str("ticket secured"),
                                },
                                ExecAction::Notify,
                            )
                        },
                        AttemptOutcome::Permanent { reason } => {
                            proof {
                                reveal_strlit("purchase failed: ");
                            }
                            let mut m = String::from_str("purchase failed: ");
                            m.append(reason.as_str());
                            (
                                ExecPhase::Finished { status: TaskStatus::Failed, message: m },
                                ExecAction::Notify,
                            )
                        },
                        AttemptOutcome::Transient { reason } => {
                            if attempts_made >= p.max_attempts - 1 {
                                proof {
                                    reveal_strlit("retry budget exhausted after ");
                                }
                                let mut m = String::from_str("retry budget exhausted after ");
                                let digits = crate::text::fmt_u64(p.max_attempts as u64);
                                m.append(digits.as_str());
                                m.append(" attempts: ");
                                m.append(reason.as_str());
                                assert(m@ =~= budget_exhausted_msg(
                                    p.max_attempts as nat,
                                    reason@,
                                ));
                                assert(m@.len() > 0);
                                (
                                    ExecPhase::Finished { status: TaskStatus::Failed, message: m },
                                    ExecAction::Notify,
                                )
                            } else {
                                let delay = backoff_delay(p, attempts_made + 1, jitter);
                                (
                                    ExecPhase::Attempting { attempts_made: attempts_made + 1 },
                                    ExecAction::RetryAfter { delay_ms: delay },
                                )
                            }
                        },
                    }
                },
            }
        },
        ExecPhase::Finished { status, message } => {
            (ExecPhase::Finished { status, message }, ExecAction::Idle)
        },
    }
}

} // verus!
