use ore_miner::budget::{plan, prefix_instructions, BudgetInstruction, MAX_COMPUTE_UNITS};
use ore_miner::config::MinerConfig;
use ore_miner::error::ConfigError;
use ore_miner::fee::{parse_fee_estimate, parse_strategy, quote, quote_from_answer, FeeConfig, FeeQuote, FeeStrategy};
use ore_miner::orchestrator::{failure_event, next_phase, reuse_challenge, search_deadline, CycleEvent, HeldChallenge, Phase};
use ore_miner::submit::{SubmitAction, SubmitError, SubmitEvent, SubmitFailure, Submission};

fn static_quote(fee: u64) -> FeeQuote {
    FeeQuote { micro_lamports: fee, source: FeeStrategy::Static, fetched_at: 0 }
}

#[test]
fn strategy_names_parse() {
    assert_eq!(parse_strategy(true, "helius"), Ok(FeeStrategy::Helius));
    assert_eq!(parse_strategy(true, "triton"), Ok(FeeStrategy::Triton));
    assert_eq!(parse_strategy(true, "alchemy"), Ok(FeeStrategy::Alchemy));
    assert_eq!(parse_strategy(false, "nonsense"), Ok(FeeStrategy::Static));
    assert_eq!(parse_strategy(true, "Helius"), Err(ConfigError::InvalidFeeStrategy));
    assert_eq!(parse_strategy(true, ""), Err(ConfigError::InvalidFeeStrategy));
}

#[test]
fn provider_failure_falls_back_to_static_fee() {
    let cfg = FeeConfig { strategy: FeeStrategy::Helius, static_fee: 5000, max_fee: 500_000 };
    let q = quote(&cfg, None, 77);
    assert_eq!(q, FeeQuote { micro_lamports: 5000, source: FeeStrategy::Static, fetched_at: 77 });
}

#[test]
fn estimate_above_ceiling_is_the_ceiling() {
    let cfg = FeeConfig { strategy: FeeStrategy::Alchemy, static_fee: 0, max_fee: 500_000 };
    assert_eq!(quote(&cfg, Some(900_000), 1).micro_lamports, 500_000);
    assert_eq!(quote(&cfg, Some(500_000), 1).micro_lamports, 500_000);
    assert_eq!(quote(&cfg, Some(12_345), 1).micro_lamports, 12_345);
    assert_eq!(quote(&cfg, Some(12_345), 1).source, FeeStrategy::Alchemy);
    let st = FeeConfig { strategy: FeeStrategy::Static, static_fee: 9, max_fee: 4 };
    assert_eq!(quote(&st, Some(1), 1).micro_lamports, 4);
}

#[test]
fn budget_of_three_instructions() {
    let b = plan(&vec![200, 150, 100], 20, &static_quote(1000));
    assert_eq!(b.unit_limit, 540);
    assert_eq!(b.unit_price, 1000);
}

#[test]
fn budget_rounds_up_and_caps() {
    assert_eq!(plan(&vec![1], 20, &static_quote(0)).unit_limit, 2);
    assert_eq!(plan(&vec![], 20, &static_quote(0)).unit_limit, 0);
    assert_eq!(plan(&vec![1_300_000], 20, &static_quote(0)).unit_limit as u64, MAX_COMPUTE_UNITS);
    assert_eq!(plan(&vec![u64::MAX, 5], 0, &static_quote(0)).unit_limit as u64, MAX_COMPUTE_UNITS);
}

#[test]
fn budget_instructions_come_limit_first() {
    let b = plan(&vec![200, 150, 100], 20, &static_quote(7));
    assert_eq!(
        prefix_instructions(&b),
        vec![BudgetInstruction::SetComputeUnitLimit(540), BudgetInstruction::SetComputeUnitPrice(7)]
    );
}

#[test]
fn already_landed_signature_confirms() {
    let mut s = Submission::new(3, 10);
    assert_eq!(s.step(SubmitEvent::AlreadyProcessed), SubmitAction::Succeed);
    let mut t = Submission::new(3, 10);
    assert_eq!(t.step(SubmitEvent::NotYetLanded), SubmitAction::Poll);
    assert_eq!(t.step(SubmitEvent::Landed), SubmitAction::Succeed);
    assert!(t.done);
}

#[test]
fn perpetual_expiry_exhausts_retry_budget() {
    let mut s = Submission::new(3, 10);
    let mut resigns = 0;
    loop {
        match s.step(SubmitEvent::BlockhashExpired) {
            SubmitAction::Resign => resigns += 1,
            other => {
                assert_eq!(
                    other,
                    SubmitAction::Fail(SubmitFailure {
                        kind: SubmitError::RetryBudgetExhausted,
                        resigns: 3,
                        rebroadcasts: 0,
                        cause: SubmitEvent::BlockhashExpired,
                    })
                );
                break;
            }
        }
    }
    assert_eq!(resigns, 3);
}

#[test]
fn terminal_errors_abort_at_once() {
    let mut s = Submission::new(2, 10);
    assert_eq!(s.step(SubmitEvent::BlockhashNotFound), SubmitAction::Resign);
    assert_eq!(
        s.step(SubmitEvent::SimulationRejected),
        SubmitAction::Fail(SubmitFailure {
            kind: SubmitError::SimulationRejected,
            resigns: 1,
            rebroadcasts: 0,
            cause: SubmitEvent::SimulationRejected,
        })
    );
    assert_eq!(s.resigns, 1);
    let mut f = Submission::new(2, 10);
    assert!(matches!(
        f.step(SubmitEvent::InsufficientFunds),
        SubmitAction::Fail(SubmitFailure { kind: SubmitError::InsufficientFunds, .. })
    ));
    let mut c = Submission::new(2, 10);
    assert!(matches!(
        c.step(SubmitEvent::Cancelled),
        SubmitAction::Fail(SubmitFailure { kind: SubmitError::Cancelled, .. })
    ));
}

#[test]
fn network_timeouts_rebroadcast_within_budget() {
    let mut s = Submission::new(1, 10);
    assert_eq!(s.step(SubmitEvent::NetworkTimeout), SubmitAction::Rebroadcast);
    assert_eq!(
        s.step(SubmitEvent::NetworkTimeout),
        SubmitAction::Fail(SubmitFailure {
            kind: SubmitError::RetryBudgetExhausted,
            resigns: 0,
            rebroadcasts: 1,
            cause: SubmitEvent::NetworkTimeout,
        })
    );
}

#[test]
fn cycle_phases_follow_the_state_machine() {
    let mut p = Phase::Idle;
    for (e, want) in [
        (CycleEvent::SearchDone, Phase::Idle),
        (CycleEvent::ChallengeReady, Phase::Searching),
        (CycleEvent::SearchDone, Phase::Submitting),
        (CycleEvent::Broadcasted, Phase::Confirming),
        (CycleEvent::RetryableFailure, Phase::Submitting),
        (CycleEvent::Broadcasted, Phase::Confirming),
        (CycleEvent::Landed, Phase::Idle),
        (CycleEvent::Cancel, Phase::Terminated),
        (CycleEvent::ChallengeReady, Phase::Terminated),
    ] {
        p = next_phase(p, e);
        assert_eq!(p, want);
    }
    assert_eq!(next_phase(Phase::Confirming, CycleEvent::CycleFailed), Phase::Idle);
    assert_eq!(next_phase(Phase::Searching, CycleEvent::Cancel), Phase::Terminated);
}

#[test]
fn challenge_reuse_and_deadline() {
    assert!(reuse_challenge(Some(HeldChallenge { valid_until: 100, submitted: false }), 50));
    assert!(!reuse_challenge(Some(HeldChallenge { valid_until: 100, submitted: true }), 50));
    assert!(!reuse_challenge(Some(HeldChallenge { valid_until: 100, submitted: false }), 100));
    assert!(!reuse_challenge(None, 0));
    assert_eq!(search_deadline(50, 100, 10), Some(90));
    assert_eq!(search_deadline(95, 100, 10), None);
    assert_eq!(search_deadline(0, 5, 10), None);
}

#[test]
fn configuration_is_checked_before_mining() {
    let cfg = MinerConfig::new(Some(10), None, None, None, None, None);
    assert_eq!(cfg.identity().err(), Some(ConfigError::MissingSigner));
    let cfg = MinerConfig::new(Some(10), Some("id.json".to_string()), None, None, None, None);
    assert_eq!(cfg.identity().err(), Some(ConfigError::MissingSigner));
    let cfg = MinerConfig::new(Some(10), None, None, None, None, Some("payer.json".to_string()));
    assert_eq!(cfg.identity().err(), Some(ConfigError::MissingSigner));
    let cfg = MinerConfig::new(
        Some(10),
        Some("id.json".to_string()),
        None,
        None,
        None,
        Some("id.json".to_string()),
    );
    let id = cfg.identity().ok().unwrap();
    assert_eq!(id.signer_path, "id.json");
    assert_eq!(id.fee_payer_path, "id.json");
    let cfg = MinerConfig::new(None, Some("a".to_string()), None, None, None, Some("b".to_string()));
    assert_eq!(cfg.identity().ok().unwrap().fee_payer_path, "b");
    assert_eq!(
        cfg.fee_config(),
        Ok(FeeConfig { strategy: FeeStrategy::Static, static_fee: 0, max_fee: u64::MAX })
    );
    let dynamic = MinerConfig::new(
        Some(3),
        None,
        Some("http://fees".to_string()),
        Some("triton".to_string()),
        Some(500_000),
        None,
    );
    assert_eq!(
        dynamic.fee_config(),
        Ok(FeeConfig { strategy: FeeStrategy::Triton, static_fee: 3, max_fee: 500_000 })
    );
    let bad = MinerConfig::new(None, None, Some("u".to_string()), Some("other".to_string()), None, None);
    assert_eq!(bad.fee_config(), Err(ConfigError::InvalidFeeStrategy));
}

#[test]
fn provider_answers_parse_to_whole_micro_lamports() {
    assert_eq!(parse_fee_estimate(b"12345"), Some(12345));
    assert_eq!(parse_fee_estimate(b"12345.987"), Some(12345));
    assert_eq!(parse_fee_estimate(b"7."), Some(7));
    assert_eq!(parse_fee_estimate(b"18446744073709551615"), Some(u64::MAX));
    assert_eq!(parse_fee_estimate(b"18446744073709551616"), None);
    assert_eq!(parse_fee_estimate(b""), None);
    assert_eq!(parse_fee_estimate(b".5"), None);
    assert_eq!(parse_fee_estimate(b"1.2.3"), None);
    assert_eq!(parse_fee_estimate(b"-4"), None);
    assert_eq!(parse_fee_estimate(b"12a"), None);
}

#[test]
fn unparseable_answer_falls_back_to_static_fee() {
    let cfg = FeeConfig { strategy: FeeStrategy::Triton, static_fee: 250, max_fee: 1000 };
    assert_eq!(quote_from_answer(&cfg, Some(b"oops"), 3).micro_lamports, 250);
    assert_eq!(quote_from_answer(&cfg, None, 3).source, FeeStrategy::Static);
    assert_eq!(quote_from_answer(&cfg, Some(b"600.5"), 3), FeeQuote { micro_lamports: 600, source: FeeStrategy::Triton, fetched_at: 3 });
    assert_eq!(quote_from_answer(&cfg, Some(b"5000"), 3).micro_lamports, 1000);
}

#[test]
fn polling_is_bounded_per_blockhash() {
    let mut s = Submission::new(1, 2);
    assert_eq!(s.step(SubmitEvent::NotYetLanded), SubmitAction::Poll);
    assert_eq!(s.step(SubmitEvent::NotYetLanded), SubmitAction::Poll);
    assert_eq!(s.step(SubmitEvent::NotYetLanded), SubmitAction::Resign);
    assert_eq!(s.polls, 0);
    assert_eq!(s.step(SubmitEvent::NotYetLanded), SubmitAction::Poll);
    assert_eq!(s.step(SubmitEvent::NotYetLanded), SubmitAction::Poll);
    assert_eq!(
        s.step(SubmitEvent::NotYetLanded),
        SubmitAction::Fail(SubmitFailure {
            kind: SubmitError::RetryBudgetExhausted,
            resigns: 1,
            rebroadcasts: 0,
            cause: SubmitEvent::NotYetLanded,
        })
    );
}

#[test]
fn every_report_sequence_ends() {
    let events = [
        SubmitEvent::NotYetLanded,
        SubmitEvent::NetworkTimeout,
        SubmitEvent::BlockhashNotFound,
        SubmitEvent::NotYetLanded,
    ];
    let mut s = Submission::new(3, 4);
    let mut steps = 0;
    while !s.done {
        s.step(events[steps % events.len()]);
        steps += 1;
        assert!(steps <= 3 * 5 + 4 + 3 + 1);
    }
}

#[test]
fn lack_of_funds_stops_mining() {
    let e = failure_event(SubmitError::InsufficientFunds);
    assert_eq!(e, CycleEvent::FatalFailure);
    assert_eq!(next_phase(Phase::Confirming, e), Phase::Terminated);
    assert_eq!(next_phase(Phase::Submitting, e), Phase::Terminated);
    assert_eq!(failure_event(SubmitError::Cancelled), CycleEvent::Cancel);
    assert_eq!(failure_event(SubmitError::RetryBudgetExhausted), CycleEvent::CycleFailed);
    assert_eq!(next_phase(Phase::Confirming, failure_event(SubmitError::SimulationRejected)), Phase::Idle);
}
