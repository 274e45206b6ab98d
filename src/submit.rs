use vstd::prelude::*;

verus! {

/// What the ledger or the network reported about the current attempt.
#[derive(PartialEq, Eq, Structural, Clone, Copy, Debug)]
pub enum SubmitEvent {
    /// The signature is confirmed.
    Landed,
    /// The broadcast was refused because the signature had already landed.
    AlreadyProcessed,
    /// Not confirmed yet; the blockhash is still valid.
    NotYetLanded,
    /// The blockhash's validity window elapsed without confirmation.
    BlockhashExpired,
    /// The ledger does not know the blockhash.
    BlockhashNotFound,
    /// A timeout or a reset connection.
    NetworkTimeout,
    /// The ledger rejected the instructions.
    SimulationRejected,
    /// The fee payer cannot pay.
    InsufficientFunds,
    /// The process is shutting down.
    Cancelled,
}

/// The kind of failure that ended a submission without landing.
#[derive(PartialEq, Eq, Structural, Clone, Copy, Debug)]
pub enum SubmitError {
    SimulationRejected,
    InsufficientFunds,
    RetryBudgetExhausted,
    Cancelled,
}

/// A submission that ended without landing: why, how many re-signings and
/// re-broadcasts it had made, and the last report that decided it.
#[derive(PartialEq, Eq, Structural, Clone, Copy, Debug)]
pub struct SubmitFailure {
    pub kind: SubmitError,
    pub resigns: u32,
    pub rebroadcasts: u32,
    pub cause: SubmitEvent,
}

/// What the caller does next.
#[derive(PartialEq, Eq, Structural, Clone, Copy, Debug)]
pub enum SubmitAction {
    /// Wait one interval and poll the signature status.
    Poll,
    /// Send the same signed transaction again.
    Rebroadcast,
    /// Fetch a fresh blockhash, sign the same instructions again and broadcast.
    Resign,
    /// The transaction landed.
    Succeed,
    /// Give up.
    Fail(SubmitFailure),
}

/// Whether an event is retried rather than ending the submission.
pub open spec fn retryable(e: SubmitEvent) -> bool {
    match e {
        SubmitEvent::NotYetLanded | SubmitEvent::BlockhashExpired | SubmitEvent::BlockhashNotFound
        | SubmitEvent::NetworkTimeout => true,
        _ => false,
    }
}

/// Progress of one transaction submission.
#[derive(PartialEq, Eq, Structural, Clone, Copy, Debug)]
pub struct Submission {
    /// Re-signings done after blockhash expiry.
    pub resigns: u32,
    /// Re-broadcasts done after network failures.
    pub rebroadcasts: u32,
    /// Polls done under the current blockhash.
    pub polls: u32,
    /// Most re-signings, and most re-broadcasts, allowed.
    pub max_attempts: u32,
    /// Most polls under one blockhash before it counts as expired.
    pub max_polls: u32,
    /// The submission has succeeded or failed.
    pub done: bool,
}

impl Submission {
    /// Every counter lies within its bound.
    pub open spec fn wf(&self) -> bool {
        &&& self.resigns <= self.max_attempts
        &&& self.rebroadcasts <= self.max_attempts
        &&& self.polls <= self.max_polls
    }

    /// What is left of the retry budget; every step that does not end the
    /// submission makes it smaller.
    pub open spec fn budget_left(&self) -> nat {
        ((self.max_attempts - self.resigns) * (self.max_polls + 1) + (self.max_polls - self.polls)
            + (self.max_attempts - self.rebroadcasts)) as nat
    }
}

/// The submission ends with a failure of the given kind, caused by `e`.
pub open spec fn fail_spec(s: Submission, kind: SubmitError, e: SubmitEvent) -> (
    Submission,
    SubmitAction,
) {
    (
        Submission { done: true, ..s },
        SubmitAction::Fail(
            SubmitFailure { kind, resigns: s.resigns, rebroadcasts: s.rebroadcasts, cause: e },
        ),
    )
}

/// A fresh blockhash and signature where the budget allows, else exhaustion.
pub open spec fn resign_spec(s: Submission, e: SubmitEvent) -> (Submission, SubmitAction) {
    if s.resigns < s.max_attempts {
        (Submission { resigns: (s.resigns + 1) as u32, polls: 0, ..s }, SubmitAction::Resign)
    } else {
        fail_spec(s, SubmitError::RetryBudgetExhausted, e)
    }
}

/// The state after `e`, and the action it calls for.
pub open spec fn step_spec(s: Submission, e: SubmitEvent) -> (Submission, SubmitAction) {
    match e {
        SubmitEvent::Landed | SubmitEvent::AlreadyProcessed => (
            Submission { done: true, ..s },
            SubmitAction::Succeed,
        ),
        SubmitEvent::NotYetLanded => if s.polls < s.max_polls {
            (Submission { polls: (s.polls + 1) as u32, ..s }, SubmitAction::Poll)
        } else {
            resign_spec(s, e)
        },
        SubmitEvent::BlockhashExpired | SubmitEvent::BlockhashNotFound => resign_spec(s, e),
        SubmitEvent::NetworkTimeout => if s.rebroadcasts < s.max_attempts {
            (Submission { rebroadcasts: (s.rebroadcasts + 1) as u32, ..s }, SubmitAction::Rebroadcast)
        } else {
            fail_spec(s, SubmitError::RetryBudgetExhausted, e)
        },
        SubmitEvent::SimulationRejected => fail_spec(s, SubmitError::SimulationRejected, e),
        SubmitEvent::InsufficientFunds => fail_spec(s, SubmitError::InsufficientFunds, e),
        SubmitEvent::Cancelled => fail_spec(s, SubmitError::Cancelled, e),
    }
}

impl Submission {
    /// A submission before its first broadcast.
    pub fn new(max_attempts: u32, max_polls: u32) -> (r: Submission)
        ensures
            r == (Submission {
                resigns: 0,
                rebroadcasts: 0,
                polls: 0,
                max_attempts,
                max_polls,
                done: false,
            }),
    {
        Submission { resigns: 0, rebroadcasts: 0, polls: 0, max_attempts, max_polls, done: false }
    }

    fn fail(&mut self, kind: SubmitError, e: SubmitEvent) -> (a: SubmitAction)
        ensures
            (*final(self), a) == fail_spec(*old(self), kind, e),
    {
        self.done = true;
        SubmitAction::Fail(
            SubmitFailure { kind, resigns: self.resigns, rebroadcasts: self.rebroadcasts, cause: e },
        )
    }

    fn resign(&mut self, e: SubmitEvent) -> (a: SubmitAction)
        ensures
            (*final(self), a) == resign_spec(*old(self), e),
    {
        if self.resigns < self.max_attempts {
            self.resigns = self.resigns + 1;
            self.polls = 0;
            SubmitAction::Resign
        } else {
            self.fail(SubmitError::RetryBudgetExhausted, e)
        }
    }

    /// Takes in what the ledger reported and decides the next action.
    /// Confirmation, also of a signature that had already landed, succeeds;
    /// a pending signature is polled at most `max_polls` times per blockhash,
    /// after which it counts as expired; blockhash expiry re-signs and a
    /// network failure re-broadcasts, each at most `max_attempts` times; a
    /// rejection, lack of funds or cancellation ends the submission at once
    /// without using the retry budget.
    pub fn step(&mut self, e: SubmitEvent) -> (a: SubmitAction)
        requires
            !old(self).done,
            old(self).wf(),
        ensures
            (*final(self), a) == step_spec(*old(self), e),
            final(self).wf(),
    {
        match e {
            SubmitEvent::Landed | SubmitEvent::AlreadyProcessed => {
                self.done = true;
                SubmitAction::Succeed
            },
            SubmitEvent::NotYetLanded => {
                if self.polls < self.max_polls {
                    self.polls = self.polls + 1;
                    SubmitAction::Poll
                } else {
                    self.resign(e)
                }
            },
            SubmitEvent::BlockhashExpired | SubmitEvent::BlockhashNotFound => self.resign(e),
            SubmitEvent::NetworkTimeout => {
                if self.rebroadcasts < self.max_attempts {
                    self.rebroadcasts = self.rebroadcasts + 1;
                    SubmitAction::Rebroadcast
                } else {
                    self.fail(SubmitError::RetryBudgetExhausted, e)
                }
            },
            SubmitEvent::SimulationRejected => self.fail(SubmitError::SimulationRejected, e),
            SubmitEvent::InsufficientFunds => self.fail(SubmitError::InsufficientFunds, e),
            SubmitEvent::Cancelled => self.fail(SubmitError::Cancelled, e),
        }
    }
}

/// Every step either ends the submission or uses up part of its budget, so
/// whatever the ledger reports a submission ends after at most
/// `budget_left()` further steps.
pub proof fn lemma_step_progress(s: Submission, e: SubmitEvent)
    requires
        s.wf(),
    ensures
        step_spec(s, e).0.wf(),
        step_spec(s, e).0.done || step_spec(s, e).0.budget_left() < s.budget_left(),
{
    let t = step_spec(s, e).0;
    if !t.done && t.resigns == s.resigns + 1 {
        let a = s.max_attempts as int;
        let r = s.resigns as int;
        let p = s.max_polls as int;
        assert((a - r - 1) * (p + 1) == (a - r) * (p + 1) - (p + 1)) by (nonlinear_arith);
        assert((a - r - 1) * (p + 1) >= 0) by (nonlinear_arith) requires r < a, p >= 0;
    }
}

/// The actions answering `k` blockhash expiries in a row, starting from `s`.
pub open spec fn expiry_actions(s: Submission, k: nat) -> Seq<SubmitAction>
    decreases k,
{
    if k == 0 {
        seq![]
    } else {
        let (t, a) = step_spec(s, SubmitEvent::BlockhashExpired);
        seq![a] + expiry_actions(t, (k - 1) as nat)
    }
}

/// The failure that ends a submission whose re-signing budget ran out.
pub open spec fn exhausted(s: Submission) -> SubmitAction {
    SubmitAction::Fail(
        SubmitFailure {
            kind: SubmitError::RetryBudgetExhausted,
            resigns: s.max_attempts,
            rebroadcasts: s.rebroadcasts,
            cause: SubmitEvent::BlockhashExpired,
        },
    )
}

proof fn lemma_expiry_actions(s: Submission, k: nat)
    requires
        s.resigns <= s.max_attempts,
        k == s.max_attempts - s.resigns + 1,
    ensures
        expiry_actions(s, k).len() == k,
        forall|i: int| 0 <= i < k - 1 ==> #[trigger] expiry_actions(s, k)[i] == SubmitAction::Resign,
        expiry_actions(s, k)[k - 1] == exhausted(s),
    decreases k,
{
    let (t, a) = step_spec(s, SubmitEvent::BlockhashExpired);
    if s.resigns < s.max_attempts {
        lemma_expiry_actions(t, (k - 1) as nat);
        let rest = expiry_actions(t, (k - 1) as nat);
        assert(expiry_actions(s, k) == seq![a] + rest);
        assert(exhausted(t) == exhausted(s));
        assert forall|i: int| 0 <= i < k - 1 implies #[trigger] expiry_actions(s, k)[i]
            == SubmitAction::Resign by {
            if i > 0 {
                assert(expiry_actions(s, k)[i] == rest[i - 1]);
            }
        }
    } else {
        assert(expiry_actions(t, 0) == Seq::<SubmitAction>::empty());
        assert(expiry_actions(s, k) =~= seq![a]);
    }
}

/// Under blockhash expiry that never ends, a fresh submission re-signs exactly
/// `max_attempts` times and then fails with `RetryBudgetExhausted`, reporting
/// those re-signings and the expiry that decided it.
pub proof fn lemma_bounded_retry(max_attempts: u32, max_polls: u32)
    ensures
        ({
            let s = Submission {
                resigns: 0,
                rebroadcasts: 0,
                polls: 0,
                max_attempts,
                max_polls,
                done: false,
            };
            let acts = expiry_actions(s, (max_attempts + 1) as nat);
            &&& acts.len() == max_attempts + 1
            &&& forall|i: int| 0 <= i < max_attempts ==> #[trigger] acts[i] == SubmitAction::Resign
            &&& acts[max_attempts as int] == SubmitAction::Fail(
                SubmitFailure {
                    kind: SubmitError::RetryBudgetExhausted,
                    resigns: max_attempts,
                    rebroadcasts: 0,
                    cause: SubmitEvent::BlockhashExpired,
                },
            )
        }),
{
    let s = Submission { resigns: 0, rebroadcasts: 0, polls: 0, max_attempts, max_polls, done: false };
    lemma_expiry_actions(s, (max_attempts + 1) as nat);
}

/// Confirming a signature that has already landed, reported either as landed
/// or as a refused duplicate broadcast, succeeds whatever the retry state.
pub proof fn lemma_idempotent_confirmation(s: Submission)
    ensures
        step_spec(s, SubmitEvent::AlreadyProcessed).1 == SubmitAction::Succeed,
        step_spec(s, SubmitEvent::Landed).1 == SubmitAction::Succeed,
{
}

/// A terminal error ends the submission at once and leaves the retry budget untouched.
pub proof fn lemma_terminal_uses_no_budget(s: Submission, e: SubmitEvent)
    requires
        !retryable(e),
    ensures
        step_spec(s, e).0.done,
        step_spec(s, e).0.resigns == s.resigns,
        step_spec(s, e).0.rebroadcasts == s.rebroadcasts,
{
}

} // verus!
