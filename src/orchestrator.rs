use vstd::prelude::*;
use crate::submit::SubmitError;

verus! {

/// Where a mining cycle stands.
#[derive(PartialEq, Eq, Structural, Clone, Copy, Debug)]
pub enum Phase {
    Idle,
    Searching,
    Submitting,
    Confirming,
    Terminated,
}

/// What happened since the last transition.
#[derive(PartialEq, Eq, Structural, Clone, Copy, Debug)]
pub enum CycleEvent {
    /// A challenge is in hand.
    ChallengeReady,
    /// The search returned, at the target or at the deadline.
    SearchDone,
    /// The transaction was broadcast.
    Broadcasted,
    /// The transaction landed.
    Landed,
    /// The submission failed in a way the submitter retries.
    RetryableFailure,
    /// The submission failed for good, or its retry budget ran out.
    CycleFailed,
    /// The submission failed in a way that ends the whole operation.
    FatalFailure,
    /// The process-wide shutdown signal.
    Cancel,
}

/// The phase after `e`. Cancellation and fatal failures end everything; a
/// landed or failed submission returns to `Idle`; events that do not apply leave the phase as is.
pub open spec fn next_phase_spec(p: Phase, e: CycleEvent) -> Phase {
    match (p, e) {
        (Phase::Terminated, _) => Phase::Terminated,
        (_, CycleEvent::Cancel) | (_, CycleEvent::FatalFailure) => Phase::Terminated,
        (Phase::Idle, CycleEvent::ChallengeReady) => Phase::Searching,
        (Phase::Searching, CycleEvent::SearchDone) => Phase::Submitting,
        (Phase::Submitting, CycleEvent::Broadcasted) => Phase::Confirming,
        (Phase::Submitting, CycleEvent::CycleFailed) => Phase::Idle,
        (Phase::Confirming, CycleEvent::Landed) => Phase::Idle,
        (Phase::Confirming, CycleEvent::RetryableFailure) => Phase::Submitting,
        (Phase::Confirming, CycleEvent::CycleFailed) => Phase::Idle,
        _ => p,
    }
}

/// The orchestrator's transition function.
pub fn next_phase(p: Phase, e: CycleEvent) -> (r: Phase)
    ensures
        r == next_phase_spec(p, e),
{
    match (p, e) {
        (Phase::Terminated, _) => Phase::Terminated,
        (_, CycleEvent::Cancel) | (_, CycleEvent::FatalFailure) => Phase::Terminated,
        (Phase::Idle, CycleEvent::ChallengeReady) => Phase::Searching,
        (Phase::Searching, CycleEvent::SearchDone) => Phase::Submitting,
        (Phase::Submitting, CycleEvent::Broadcasted) => Phase::Confirming,
        (Phase::Submitting, CycleEvent::CycleFailed) => Phase::Idle,
        (Phase::Confirming, CycleEvent::Landed) => Phase::Idle,
        (Phase::Confirming, CycleEvent::RetryableFailure) => Phase::Submitting,
        (Phase::Confirming, CycleEvent::CycleFailed) => Phase::Idle,
        _ => p,
    }
}

/// Cancellation reaches `Terminated` from every phase, and nothing leaves it.
pub proof fn lemma_cancel_terminates(p: Phase, e: CycleEvent)
    ensures
        next_phase_spec(p, CycleEvent::Cancel) == Phase::Terminated,
        next_phase_spec(Phase::Terminated, e) == Phase::Terminated,
{
}

/// A new search starts only from `Idle`, so no cycle begins while a
/// submission is still unresolved.
pub proof fn lemma_one_active_cycle(p: Phase, e: CycleEvent)
    ensures
        next_phase_spec(p, e) == Phase::Searching ==> p == Phase::Idle || p == Phase::Searching,
        p == Phase::Submitting || p == Phase::Confirming ==> next_phase_spec(p, e)
            != Phase::Searching,
{
}

/// The cycle event for a submission that failed: lack of funds ends the
/// operation, cancellation is the shutdown signal, and a rejection or an
/// exhausted retry budget ends only this cycle.
pub open spec fn failure_event_spec(kind: SubmitError) -> CycleEvent {
    match kind {
        SubmitError::InsufficientFunds => CycleEvent::FatalFailure,
        SubmitError::Cancelled => CycleEvent::Cancel,
        SubmitError::SimulationRejected | SubmitError::RetryBudgetExhausted => CycleEvent::CycleFailed,
    }
}

/// Classifies a failed submission for the orchestrator.
pub fn failure_event(kind: SubmitError) -> (r: CycleEvent)
    ensures
        r == failure_event_spec(kind),
{
    match kind {
        SubmitError::InsufficientFunds => CycleEvent::FatalFailure,
        SubmitError::Cancelled => CycleEvent::Cancel,
        SubmitError::SimulationRejected | SubmitError::RetryBudgetExhausted => CycleEvent::CycleFailed,
    }
}

/// A fee payer without funds stops mining for good, from whatever phase;
/// a rejection or an exhausted budget during submission starts a new cycle.
pub proof fn lemma_failure_handling(p: Phase)
    ensures
        next_phase_spec(p, failure_event_spec(SubmitError::InsufficientFunds)) == Phase::Terminated,
        next_phase_spec(p, failure_event_spec(SubmitError::Cancelled)) == Phase::Terminated,
        p == Phase::Submitting || p == Phase::Confirming ==> next_phase_spec(
            p,
            failure_event_spec(SubmitError::RetryBudgetExhausted),
        ) == Phase::Idle,
{
}

/// A challenge held from an earlier cycle.
#[derive(PartialEq, Eq, Structural, Clone, Copy, Debug)]
pub struct HeldChallenge {
    /// The time from which the challenge is stale.
    pub valid_until: u64,
    /// A solution for it has been submitted.
    pub submitted: bool,
}

/// Whether the held challenge is used again instead of a freshly fetched one:
/// only while it is still valid and nothing was submitted for it.
pub fn reuse_challenge(held: Option<HeldChallenge>, now: u64) -> (r: bool)
    ensures
        r == match held {
            Some(h) => now < h.valid_until && !h.submitted,
            None => false,
        },
{
    match held {
        Some(h) => now < h.valid_until && !h.submitted,
        None => false,
    }
}

/// The deadline for a search: the end of the challenge's validity less a
/// safety buffer. `None` where that moment is not after `now`: the challenge is
/// stale and has to be fetched again.
pub fn search_deadline(now: u64, valid_until: u64, buffer: u64) -> (r: Option<u64>)
    ensures
        r == if valid_until - buffer > now {
            Some((valid_until - buffer) as u64)
        } else {
            None::<u64>
        },
{
    if valid_until >= buffer && valid_until - buffer > now {
        Some(valid_until - buffer)
    } else {
        None
    }
}

} // verus!
