//! x402 payment screening and the Banker's queue of payments held for a human.

use openclaw_aibank::banker::Banker;
use openclaw_aibank::execution::x402::{classify_risk, intercept_x402};
use openclaw_aibank::types::{
    ApprovedConditions, Collateral, CreditLine, CreditProposal, CreditStatus, DashboardEvent, PolicyConfig,
    RepaymentTrigger, X402PaymentRequest, X402RiskLevel,
};

const USD: u64 = 1_000_000;
const HOUR_MS: i64 = 3_600_000;

fn now_ms() -> i64 {
    chrono::Utc::now().timestamp_millis()
}

fn fresh_id() -> u128 {
    uuid::Uuid::new_v4().as_u128()
}

fn policy_with(allowed: &str, blocked: &str) -> PolicyConfig {
    PolicyConfig {
        x402_allowed_recipients: vec![allowed.to_string()],
        x402_blocked_recipients: vec![blocked.to_string()],
        x402_max_payment_usd: USD,
        ..PolicyConfig::default()
    }
}

fn test_policy() -> PolicyConfig {
    policy_with("0xKnownGood", "0xBadActor")
}

fn make_policy() -> PolicyConfig {
    policy_with("0xTrustedAPI", "0xScamDrain")
}

fn line_with(agent_id: u128, spent: u64, remaining: u64, pairs: Vec<String>) -> CreditLine {
    let now = now_ms();
    CreditLine {
        id: fresh_id(),
        proposal_id: fresh_id(),
        agent_id,
        approved_usd: spent + remaining,
        spent_usd: spent,
        remaining_usd: remaining,
        status: CreditStatus::Active,
        approved_at: now,
        expires_at: now + 24 * HOUR_MS,
        conditions: ApprovedConditions {
            allowed_pairs: pairs,
            max_single_trade_usd: USD,
            max_loss_usd: 3 * USD,
            window_end: now + 24 * HOUR_MS,
        },
        reputation_at_approval: 70,
    }
}

fn test_credit_line() -> CreditLine {
    line_with(fresh_id(), 0, 5 * USD, vec!["BTC-USDT".to_string()])
}

fn make_payment(agent_id: u128, recipient: &str, amount: u64) -> X402PaymentRequest {
    X402PaymentRequest {
        id: fresh_id(),
        agent_id,
        recipient: recipient.to_string(),
        amount_usd: amount,
        currency: "USDC".to_string(),
        service_url: "https://api.example.com/data".to_string(),
        purpose: "Market data feed".to_string(),
        submitted_at: now_ms(),
    }
}

fn test_payment(recipient: &str, amount: u64) -> X402PaymentRequest {
    make_payment(fresh_id(), recipient, amount)
}

fn good_proposal(agent_id: u128) -> CreditProposal {
    let now = now_ms();
    CreditProposal {
        id: fresh_id(),
        agent_id,
        submitted_at: now,
        requested_usd: 5_000 * USD,
        max_loss_usd: 500 * USD,
        target_return_pct: 1500,
        window_start: now,
        window_end: now + 48 * HOUR_MS,
        strategy: "Mean reversion strategy on BTC-USDT using RSI and Bollinger Bands on the 4h timeframe. Enter on RSI < 30 with price at lower band, exit at middle band or RSI > 70. Tight stop at 10% of capital.".to_string(),
        allowed_pairs: vec!["BTC-USDT".to_string(), "ETH-USDT".to_string()],
        max_single_trade_usd: 2_500 * USD,
        repayment_trigger: RepaymentTrigger::ProfitTarget { pct: 1500 },
        collateral: Some(Collateral { asset: "USDT".to_string(), amount: 2_500 * USD, locked_at: now }),
    }
}

#[test]
fn test_known_recipient_low_risk() {
    let line = test_credit_line();
    let (risk, _reason) = classify_risk(&test_payment("0xKnownGood", USD / 2), Some(&line), &test_policy());
    assert_eq!(risk, X402RiskLevel::Low);
}

#[test]
fn test_blocklisted_recipient_high_risk() {
    let line = test_credit_line();
    let (risk, _reason) = classify_risk(&test_payment("0xBadActor", USD / 2), Some(&line), &test_policy());
    assert_eq!(risk, X402RiskLevel::High);
}

#[test]
fn test_exceeds_cap_high_risk() {
    let line = test_credit_line();
    let (risk, _reason) = classify_risk(&test_payment("0xKnownGood", 5 * USD), Some(&line), &test_policy());
    assert_eq!(risk, X402RiskLevel::High);
}

#[test]
fn test_no_credit_line_high_risk() {
    let (risk, _reason) = classify_risk(&test_payment("0xKnownGood", USD / 2), None, &test_policy());
    assert_eq!(risk, X402RiskLevel::High);
}

#[test]
fn test_unknown_recipient_medium_risk() {
    let line = test_credit_line();
    let (risk, _reason) = classify_risk(&test_payment("0xNewRecipient", USD / 2), Some(&line), &test_policy());
    assert_eq!(risk, X402RiskLevel::Medium);
}

#[test]
fn test_large_budget_share_medium_risk() {
    let mut line = test_credit_line();
    line.remaining_usd = USD;
    let (risk, _reason) = classify_risk(&test_payment("0xKnownGood", 800_000), Some(&line), &test_policy());
    assert_eq!(risk, X402RiskLevel::Medium);
}

#[test]
fn test_intercept_auto_approve() {
    let line = test_credit_line();
    let verdict = intercept_x402(&test_payment("0xKnownGood", USD / 2), Some(&line), &test_policy()).expect("verdict");
    assert!(verdict.approved);
    assert_eq!(verdict.risk_level, X402RiskLevel::Low);
    assert!(!verdict.needs_human_review);
}

#[test]
fn test_intercept_flags_unknown() {
    let line = test_credit_line();
    let verdict = intercept_x402(&test_payment("0xNewRecipient", USD / 2), Some(&line), &test_policy()).expect("verdict");
    assert!(!verdict.approved);
    assert_eq!(verdict.risk_level, X402RiskLevel::Medium);
    assert!(verdict.needs_human_review);
}

#[test]
fn test_intercept_auto_blocks() {
    let line = test_credit_line();
    let verdict = intercept_x402(&test_payment("0xBadActor", USD / 2), Some(&line), &test_policy()).expect("verdict");
    assert!(!verdict.approved);
    assert_eq!(verdict.risk_level, X402RiskLevel::High);
    assert!(!verdict.needs_human_review);
}

#[test]
fn x402_blocklisted_is_case_insensitive() {
    let line = line_with(fresh_id(), 0, 5 * USD, vec!["BTC-USDT".to_string()]);
    let payment = make_payment(line.agent_id, "0xSCAMDRAIN", USD / 2);
    let (risk, _) = classify_risk(&payment, Some(&line), &make_policy());
    assert_eq!(risk, X402RiskLevel::High);
}

#[test]
fn x402_allowlist_is_case_insensitive() {
    let line = line_with(fresh_id(), 0, 5 * USD, vec!["BTC-USDT".to_string()]);
    let payment = make_payment(line.agent_id, "0xTRUSTEDAPI", USD / 4);
    let (risk, _) = classify_risk(&payment, Some(&line), &make_policy());
    assert_eq!(risk, X402RiskLevel::Low);
}

#[test]
fn x402_exceeds_remaining_budget_high_risk() {
    let line = line_with(fresh_id(), 4_800_000, 200_000, vec!["BTC-USDT".to_string()]);
    let payment = make_payment(line.agent_id, "0xTrustedAPI", USD / 2);
    let (risk, reason) = classify_risk(&payment, Some(&line), &make_policy());
    assert_eq!(risk, X402RiskLevel::High);
    assert!(reason.contains("exceeds remaining budget"));
}

#[test]
fn x402_intercept_low_risk_auto_approves() {
    let line = line_with(fresh_id(), 0, 5 * USD, vec!["BTC-USDT".to_string()]);
    let payment = make_payment(line.agent_id, "0xTrustedAPI", USD / 4);
    let verdict = intercept_x402(&payment, Some(&line), &make_policy()).expect("verdict");
    assert!(verdict.approved);
    assert_eq!(verdict.risk_level, X402RiskLevel::Low);
    assert!(!verdict.needs_human_review);
}

#[test]
fn x402_intercept_medium_needs_review() {
    let line = line_with(fresh_id(), 0, 5 * USD, vec!["BTC-USDT".to_string()]);
    let payment = make_payment(line.agent_id, "0xUnknownAddr", USD / 2);
    let verdict = intercept_x402(&payment, Some(&line), &make_policy()).expect("verdict");
    assert!(!verdict.approved);
    assert_eq!(verdict.risk_level, X402RiskLevel::Medium);
    assert!(verdict.needs_human_review);
}

#[test]
fn banker_x402_store_and_approve() {
    let mut banker = Banker::new();
    let agent = banker.register_agent("x402-agent".to_string(), None);
    let proposal = good_proposal(agent.id);
    banker.evaluate(&proposal);
    banker.approve_proposal(proposal.id, None).expect("approve credit");

    let payment = make_payment(agent.id, "0xSomeAPI", USD / 4);
    let payment_id = payment.id;
    banker.store_pending_x402(payment.clone(), X402RiskLevel::Medium, "Unknown recipient".to_string());

    let pending = banker.get_pending_x402();
    assert_eq!(pending.len(), 1);
    assert_eq!(pending[0].payment.id, payment_id);

    banker.approve_x402(payment_id).expect("approve x402");
    assert!(banker.get_pending_x402().is_empty());

    let line = banker.get_active_line(agent.id).expect("line");
    assert_eq!(line.spent_usd, USD / 4);
}

#[test]
fn banker_x402_store_and_block() {
    let mut banker = Banker::new();
    let agent = banker.register_agent("x402-block-agent".to_string(), None);
    let proposal = good_proposal(agent.id);
    banker.evaluate(&proposal);
    banker.approve_proposal(proposal.id, None).expect("approve credit");

    let payment = make_payment(agent.id, "0xSuspicious", USD / 2);
    let payment_id = payment.id;
    banker.store_pending_x402(payment, X402RiskLevel::Medium, "Suspicious recipient".to_string());

    banker.block_x402(payment_id, "Rejected by operator".to_string()).expect("block x402");
    assert!(banker.get_pending_x402().is_empty());

    let line = banker.get_active_line(agent.id).expect("line");
    assert_eq!(line.spent_usd, 0);
}

#[test]
fn banker_x402_approve_nonexistent_fails() {
    let mut banker = Banker::new();
    assert!(banker.approve_x402(fresh_id()).is_err());
}

#[test]
fn banker_x402_block_nonexistent_fails() {
    let mut banker = Banker::new();
    assert!(banker.block_x402(fresh_id(), "test".to_string()).is_err());
}

#[test]
fn x402_reasons_are_exact() {
    let line = line_with(fresh_id(), 0, 5 * USD, vec![]);
    let policy = test_policy();
    let (_, r) = classify_risk(&test_payment("0xBadActor", USD / 2), Some(&line), &policy);
    assert_eq!(r, "Recipient 0xBadActor is blocklisted");
    let (_, r) = classify_risk(&test_payment("0xKnownGood", 5 * USD), Some(&line), &policy);
    assert_eq!(r, "Amount $5.00 exceeds x402 cap $1.00");
    let (_, r) = classify_risk(&test_payment("0xKnownGood", USD / 2), None, &policy);
    assert_eq!(r, "No active credit line for agent");
    let (_, r) = classify_risk(&test_payment("0xNew", USD / 2), Some(&line), &policy);
    assert_eq!(r, "First-time recipient 0xNew \u{2014} requires human review");
    let (_, r) = classify_risk(&test_payment("0xKnownGood", USD / 2), Some(&line), &policy);
    assert_eq!(r, "Known recipient, $0.50 within budget \u{2014} auto-approved");
}

#[test]
fn approving_held_payment_without_budget_fails_and_keeps_it() {
    let mut banker = Banker::new();
    let agent = banker.register_agent("thin".to_string(), None);
    let proposal = good_proposal(agent.id);
    banker.evaluate(&proposal);
    banker.approve_proposal(proposal.id, Some(USD / 10)).expect("approve credit");
    let payment = make_payment(agent.id, "0xSomeAPI", USD / 2);
    let payment_id = payment.id;
    banker.store_pending_x402(payment, X402RiskLevel::Medium, "Unknown recipient".to_string());
    assert!(banker.approve_x402(payment_id).is_err());
    assert_eq!(banker.get_pending_x402().len(), 1);
    let events = banker.take_events();
    assert!(matches!(events.last(), Some(DashboardEvent::X402PaymentPending { .. })));
}
