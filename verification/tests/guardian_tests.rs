//! Guardian: the six checks, in order, against the agent's credit line.

use std::collections::HashMap;

use openclaw_aibank::guardian::Guardian;
use openclaw_aibank::types::{
    ApprovedConditions, CreditLine, CreditStatus, DashboardEvent, PolicyConfig, TradeProposal, TradeSide,
};

const USD: u64 = 1_000_000;
const HOUR_MS: i64 = 3_600_000;

fn now_ms() -> i64 {
    chrono::Utc::now().timestamp_millis()
}

fn fresh_id() -> u128 {
    uuid::Uuid::new_v4().as_u128()
}

fn make_credit_line(agent_id: u128) -> CreditLine {
    let now = now_ms();
    CreditLine {
        id: fresh_id(),
        proposal_id: fresh_id(),
        agent_id,
        approved_usd: 5 * USD,
        spent_usd: 0,
        remaining_usd: 5 * USD,
        status: CreditStatus::Active,
        approved_at: now,
        expires_at: now + 24 * HOUR_MS,
        conditions: ApprovedConditions {
            allowed_pairs: vec!["BTC-USDT".to_string(), "ETH-USDT".to_string()],
            max_single_trade_usd: USD,
            max_loss_usd: 3 * USD,
            window_end: now + 24 * HOUR_MS,
        },
        reputation_at_approval: 50,
    }
}

fn make_proposal(agent_id: u128, reasoning: &str) -> TradeProposal {
    TradeProposal {
        id: fresh_id(),
        agent_id,
        submitted_at: now_ms(),
        pair: "BTC-USDT".to_string(),
        side: TradeSide::Buy,
        amount_usd: USD / 2,
        confidence: 7500,
        reasoning: reasoning.to_string(),
        contract_address: None,
        contract_method: None,
    }
}

fn lines_with(line: CreditLine) -> HashMap<u128, CreditLine> {
    let mut lines = HashMap::new();
    lines.insert(line.agent_id, line);
    lines
}

#[test]
fn test_good_proposal_passes_all_checks() {
    let agent_id = fresh_id();
    let lines = lines_with(make_credit_line(agent_id));
    let mut guardian = Guardian::new(PolicyConfig::default());
    let proposal = make_proposal(agent_id, "RSI oversold on 4h timeframe");
    let result = guardian.verify(&lines, &proposal);

    assert!(result.approved);
    assert_eq!(result.checks.len(), 6);
    assert!(result.checks.iter().all(|c| c.passed));
}

#[test]
fn test_no_credit_line_rejected() {
    let agent_id = fresh_id();
    let lines = HashMap::new();
    let mut guardian = Guardian::new(PolicyConfig::default());
    let proposal = make_proposal(agent_id, "RSI oversold on 4h timeframe");
    let result = guardian.verify(&lines, &proposal);

    assert!(!result.approved);
    assert!(!result.checks[0].passed);
    assert_eq!(result.checks[0].name, "check_credit_line");
}

#[test]
fn test_low_confidence_rejected() {
    let agent_id = fresh_id();
    let lines = lines_with(make_credit_line(agent_id));
    let mut guardian = Guardian::new(PolicyConfig::default());
    let mut proposal = make_proposal(agent_id, "RSI oversold on 4h timeframe");
    proposal.confidence = 2000;

    let result = guardian.verify(&lines, &proposal);
    assert!(!result.approved);
    assert!(!result.checks[2].passed);
}

#[test]
fn test_disallowed_pair_rejected() {
    let agent_id = fresh_id();
    let lines = lines_with(make_credit_line(agent_id));
    let mut guardian = Guardian::new(PolicyConfig::default());
    let mut proposal = make_proposal(agent_id, "RSI oversold on 4h timeframe");
    proposal.pair = "DOGE-USDT".to_string();

    let result = guardian.verify(&lines, &proposal);
    assert!(!result.approved);
}

#[test]
fn test_exceeds_budget_rejected() {
    let agent_id = fresh_id();
    let mut line = make_credit_line(agent_id);
    line.remaining_usd = 300_000;
    let lines = lines_with(line);
    let mut guardian = Guardian::new(PolicyConfig::default());
    let mut proposal = make_proposal(agent_id, "RSI oversold on 4h timeframe");
    proposal.amount_usd = 500_000;

    let result = guardian.verify(&lines, &proposal);
    assert!(!result.approved);
    assert!(!result.checks[0].passed);
}

#[test]
fn guardian_approves_valid_proposal() {
    let agent_id = fresh_id();
    let lines = lines_with(make_credit_line(agent_id));
    let mut guardian = Guardian::new(PolicyConfig::default());
    let result = guardian.verify(&lines, &make_proposal(agent_id, "RSI oversold"));

    assert!(result.approved);
    assert_eq!(result.checks.len(), 6);
    assert!(result.checks.iter().all(|c| c.passed));
}

#[test]
fn guardian_rejects_without_credit_line() {
    let agent_id = fresh_id();
    let lines = HashMap::new();
    let mut guardian = Guardian::new(PolicyConfig::default());
    let result = guardian.verify(&lines, &make_proposal(agent_id, "RSI oversold"));

    assert!(!result.approved);
    assert_eq!(result.checks[0].name, "check_credit_line");
    assert!(!result.checks[0].passed);
}

#[test]
fn guardian_rejects_expired_credit_line() {
    let agent_id = fresh_id();
    let mut line = make_credit_line(agent_id);
    line.expires_at = now_ms() - HOUR_MS;
    let lines = lines_with(line);
    let mut guardian = Guardian::new(PolicyConfig::default());
    let result = guardian.verify(&lines, &make_proposal(agent_id, "RSI oversold"));

    assert!(!result.approved);
    assert!(!result.checks[0].passed);
}

#[test]
fn guardian_rejects_disallowed_pair() {
    let agent_id = fresh_id();
    let lines = lines_with(make_credit_line(agent_id));
    let mut guardian = Guardian::new(PolicyConfig::default());
    let mut proposal = make_proposal(agent_id, "RSI oversold");
    proposal.pair = "DOGE-USDT".to_string();

    let result = guardian.verify(&lines, &proposal);
    assert!(!result.approved);
}

#[test]
fn guardian_rejects_low_confidence() {
    let agent_id = fresh_id();
    let lines = lines_with(make_credit_line(agent_id));
    let mut guardian = Guardian::new(PolicyConfig::default());
    let mut proposal = make_proposal(agent_id, "RSI oversold");
    proposal.confidence = 1000;

    let result = guardian.verify(&lines, &proposal);
    assert!(!result.approved);
    assert!(!result.checks[2].passed);
}

#[test]
fn guardian_rejects_over_budget() {
    let agent_id = fresh_id();
    let mut line = make_credit_line(agent_id);
    line.remaining_usd = 200_000;
    let lines = lines_with(line);
    let mut guardian = Guardian::new(PolicyConfig::default());
    let proposal = make_proposal(agent_id, "RSI oversold");

    let result = guardian.verify(&lines, &proposal);
    assert!(!result.approved);
    assert!(!result.checks[0].passed);
}

#[test]
fn guardian_credit_line_check_is_always_first() {
    let agent_id = fresh_id();
    let lines = HashMap::new();
    let mut guardian = Guardian::new(PolicyConfig::default());
    let result = guardian.verify(&lines, &make_proposal(agent_id, "RSI oversold"));
    assert_eq!(result.checks[0].name, "check_credit_line");
}

#[test]
fn checks_run_in_fixed_order_with_details() {
    let agent_id = fresh_id();
    let lines = lines_with(make_credit_line(agent_id));
    let mut guardian = Guardian::new(PolicyConfig::default());
    let now = now_ms();
    let result = guardian.verify_at(&lines, &make_proposal(agent_id, "RSI"), now);
    let names: Vec<&str> = result.checks.iter().map(|c| c.name.as_str()).collect();
    assert_eq!(
        names,
        vec![
            "check_credit_line",
            "check_policy",
            "check_confidence",
            "check_rate_limit",
            "check_contract_safety",
            "check_anomaly"
        ]
    );
    assert_eq!(result.checks[0].detail, "OK \u{2014} $5.00 remaining of $5.00 approved");
    assert_eq!(result.checks[1].detail, "OK \u{2014} within global policy");
    assert_eq!(result.checks[2].detail, "OK \u{2014} confidence 75.0%");
    assert_eq!(result.checks[3].detail, "OK \u{2014} first trade");
    assert_eq!(result.checks[4].detail, "OK \u{2014} CEX trade, no contract check needed");
    assert_eq!(result.checks[5].detail, "OK \u{2014} no anomalies detected");
    assert_eq!(result.risk_score, 0);
}

#[test]
fn risk_score_adds_failed_weights() {
    // No line (10), confidence too low (3): composite 13.
    let agent_id = fresh_id();
    let lines = HashMap::new();
    let mut guardian = Guardian::new(PolicyConfig::default());
    let mut proposal = make_proposal(agent_id, "RSI");
    proposal.confidence = 1000;
    let result = guardian.verify(&lines, &proposal);
    assert_eq!(result.risk_score, 13);
    assert_eq!(result.checks[0].detail, "No credit line found for agent");
    assert_eq!(result.checks[2].detail, "Confidence 10.0% below minimum 40.0%");
}

#[test]
fn sells_are_not_held_to_remaining_budget() {
    let agent_id = fresh_id();
    let mut line = make_credit_line(agent_id);
    line.remaining_usd = 0;
    line.spent_usd = 5 * USD;
    let lines = lines_with(line);
    let mut guardian = Guardian::new(PolicyConfig::default());
    let mut proposal = make_proposal(agent_id, "take profit");
    proposal.side = TradeSide::Sell;
    let result = guardian.verify(&lines, &proposal);
    assert!(result.checks[0].passed);
    proposal.side = TradeSide::Buy;
    let result = guardian.verify(&lines, &proposal);
    assert!(!result.checks[0].passed);
    assert_eq!(result.checks[0].detail, "Trade $0.50 exceeds remaining budget $0.00");
}

#[test]
fn rate_limit_counts_the_last_hour() {
    let agent_id = fresh_id();
    let lines = lines_with(make_credit_line(agent_id));
    let policy = PolicyConfig { max_trades_per_hour: 2, max_proposals_per_minute: 100, ..PolicyConfig::default() };
    let mut guardian = Guardian::new(policy);
    let now = now_ms();
    let r1 = guardian.verify_at(&lines, &make_proposal(agent_id, "a"), now);
    assert!(r1.checks[3].passed);
    let r2 = guardian.verify_at(&lines, &make_proposal(agent_id, "b"), now + 1);
    assert_eq!(r2.checks[3].detail, "OK \u{2014} 1/2 trades in last hour");
    let r3 = guardian.verify_at(&lines, &make_proposal(agent_id, "c"), now + 2);
    assert!(!r3.checks[3].passed);
    assert_eq!(r3.checks[3].detail, "2 trades in last hour, limit is 2");
    // Two hours later the window is empty again.
    let r4 = guardian.verify_at(&lines, &make_proposal(agent_id, "d"), now + 2 * HOUR_MS);
    assert!(r4.checks[3].passed);
}

#[test]
fn contract_checks_apply_to_defi_trades() {
    let agent_id = fresh_id();
    let lines = lines_with(make_credit_line(agent_id));
    let mut proposal = make_proposal(agent_id, "swap");
    proposal.contract_address = Some("0xRouter".to_string());
    proposal.contract_method = Some("swap".to_string());
    // The default whitelist is empty: no contract is whitelisted.
    let mut guardian = Guardian::new(PolicyConfig::default());
    let result = guardian.verify(&lines, &proposal);
    assert!(!result.checks[4].passed);
    assert_eq!(result.checks[4].detail, "Contract 0xRouter not in whitelist");

    let mut policy = PolicyConfig::default();
    policy.whitelisted_contracts = vec!["0xRouter".to_string()];
    let mut guardian = Guardian::new(policy);
    proposal.contract_method = Some("drain".to_string());
    let result = guardian.verify(&lines, &proposal);
    assert!(!result.checks[4].passed);
    assert_eq!(result.checks[4].detail, "Method drain not in safe methods list");
    proposal.contract_method = Some("swap".to_string());
    let result = guardian.verify(&lines, &proposal);
    assert!(result.checks[4].passed);
    assert_eq!(result.checks[4].detail, "OK \u{2014} contract and method whitelisted");
    proposal.contract_method = None;
    let result = guardian.verify(&lines, &proposal);
    assert!(result.checks[4].passed);
    proposal.contract_address = Some("0xOther".to_string());
    let result = guardian.verify(&lines, &proposal);
    assert!(!result.checks[4].passed);
}

#[test]
fn verdicts_are_announced() {
    let agent_id = fresh_id();
    let lines = lines_with(make_credit_line(agent_id));
    let mut guardian = Guardian::new(PolicyConfig::default());
    let proposal = make_proposal(agent_id, "RSI");
    let result = guardian.verify(&lines, &proposal);
    let events = guardian.take_events();
    assert_eq!(events.len(), 1);
    match &events[0] {
        DashboardEvent::GuardianVerdict { result: r } => {
            assert_eq!(r.proposal_id, proposal.id);
            assert_eq!(r.approved, result.approved);
        }
        other => panic!("unexpected {:?}", other),
    }
    assert!(guardian.take_events().is_empty());
}

#[test]
fn burst_of_proposals_is_refused() {
    let agent_id = fresh_id();
    let other_id = fresh_id();
    let mut lines = lines_with(make_credit_line(agent_id));
    let other = make_credit_line(other_id);
    lines.insert(other_id, other);
    let mut guardian = Guardian::new(PolicyConfig::default());
    let now = now_ms();
    for i in 0..10 {
        let r = guardian.verify_at(&lines, &make_proposal(agent_id, "burst"), now + i);
        assert!(r.checks[5].passed);
        // Another agent's proposals in between do not count against this one.
        let o = guardian.verify_at(&lines, &make_proposal(other_id, "other"), now + i);
        assert!(o.approved);
    }
    let r = guardian.verify_at(&lines, &make_proposal(agent_id, "burst"), now + 10);
    assert_eq!(r.checks[5].name, "check_anomaly");
    assert!(!r.checks[5].passed);
    assert_eq!(r.checks[5].detail, "Proposal burst: 10 in last minute (limit 10)");
    assert!(!r.approved);
    // A minute after the burst the agent may trade again.
    let later = guardian.verify_at(&lines, &make_proposal(agent_id, "later"), now + 70_000);
    assert!(later.checks[5].passed);
}

#[test]
fn rising_cumulative_risk_is_refused() {
    // No credit line: each verification fails the credit check (risk 10), and
    // the rolling score 0.9 * score + 10 passes 50 on the seventh.
    let agent_id = fresh_id();
    let lines: HashMap<u128, CreditLine> = HashMap::new();
    let mut guardian = Guardian::new(PolicyConfig::default());
    let now = now_ms();
    for i in 0..7 {
        let r = guardian.verify_at(&lines, &make_proposal(agent_id, "risky"), now + i * 61_000);
        assert!(r.checks[5].passed);
        assert_eq!(r.risk_score, 10);
    }
    let r = guardian.verify_at(&lines, &make_proposal(agent_id, "risky"), now + 7 * 61_000);
    assert!(!r.checks[5].passed);
    assert_eq!(r.checks[5].detail, "Cumulative risk score 52.2 exceeds threshold 50.0");
    assert!(!r.approved);
    assert_eq!(r.risk_score, 16);
}
