//! Banker: registration, scoring, the human approval queue, spending and
//! repayment. Money in micro-dollars, percentages in basis points.

use openclaw_aibank::banker::Banker;
use openclaw_aibank::guardian::Guardian;
use openclaw_aibank::types::{
    AppError, Collateral, CreditProposal, CreditStatus, DashboardEvent, PolicyConfig, RepaymentTrigger,
    TradeProposal, TradeSide,
};

const USD: u64 = 1_000_000;
const HOUR_MS: i64 = 3_600_000;

fn now_ms() -> i64 {
    chrono::Utc::now().timestamp_millis()
}

fn fresh_id() -> u128 {
    uuid::Uuid::new_v4().as_u128()
}

fn good_proposal(agent_id: u128) -> CreditProposal {
    let now = now_ms();
    CreditProposal {
        id: fresh_id(),
        agent_id,
        submitted_at: now,
        requested_usd: 5_000 * USD,
        max_loss_usd: 500 * USD,
        target_return_pct: 1500,
        window_start: now,
        window_end: now + 48 * HOUR_MS,
        strategy: "Mean reversion strategy on BTC-USDT using RSI and Bollinger Bands on the 4h timeframe. Enter on RSI < 30 with price at lower band, exit at middle band or RSI > 70. Tight stop at 10% of capital.".to_string(),
        allowed_pairs: vec!["BTC-USDT".to_string(), "ETH-USDT".to_string()],
        max_single_trade_usd: 2_500 * USD,
        repayment_trigger: RepaymentTrigger::ProfitTarget { pct: 1500 },
        collateral: Some(Collateral { asset: "USDT".to_string(), amount: 2_500 * USD, locked_at: now }),
    }
}

fn bad_proposal(agent_id: u128) -> CreditProposal {
    let now = now_ms();
    CreditProposal {
        id: fresh_id(),
        agent_id,
        submitted_at: now,
        requested_usd: 100_000 * USD,
        max_loss_usd: 80_000 * USD,
        target_return_pct: 50_000,
        window_start: now,
        window_end: now + HOUR_MS,
        strategy: "yolo".to_string(),
        allowed_pairs: vec![],
        max_single_trade_usd: 0,
        repayment_trigger: RepaymentTrigger::Manual,
        collateral: None,
    }
}

#[test]
fn test_register_agent() {
    let mut banker = Banker::new();
    let agent = banker.register_agent("test-agent".to_string(), None);
    assert!(banker.is_registered(agent.id));
}

#[test]
fn test_good_proposal_approved() {
    let mut banker = Banker::new();
    let agent = banker.register_agent("good-agent".to_string(), None);
    let proposal = good_proposal(agent.id);
    let decision = banker.evaluate(&proposal);
    assert!(decision.approved);
    assert!(decision.approved_usd.is_some());
    assert!(decision.score >= 6000);
}

#[test]
fn test_bad_proposal_rejected() {
    let mut banker = Banker::new();
    let agent = banker.register_agent("bad-agent".to_string(), None);
    let proposal = bad_proposal(agent.id);
    let decision = banker.evaluate(&proposal);
    assert!(!decision.approved);
    assert!(decision.rejection_reason.is_some());
    assert!(decision.score < 6000);
}

#[test]
fn test_deduct_and_repay() {
    let mut banker = Banker::new();
    let agent = banker.register_agent("deduct-agent".to_string(), None);
    let proposal = good_proposal(agent.id);
    let decision = banker.evaluate(&proposal);
    assert!(decision.approved);
    banker.approve_proposal(proposal.id, None).expect("approve credit");

    let approved = decision.approved_usd.expect("approved");
    banker.deduct(agent.id, approved / 2).expect("deduct");

    let line = banker.get_active_line(agent.id).expect("line");
    assert!(line.spent_usd > 0);

    banker.repay(agent.id).expect("repay");
    assert!(banker.get_active_line(agent.id).is_none());
}

#[test]
fn test_recall() {
    let mut banker = Banker::new();
    let agent = banker.register_agent("recall-agent".to_string(), None);
    let proposal = good_proposal(agent.id);
    banker.evaluate(&proposal);
    banker.approve_proposal(proposal.id, None).expect("approve credit");

    banker.recall(agent.id, "max loss exceeded".to_string()).expect("recall");

    assert!(banker.get_active_line(agent.id).is_none());

    let rep = banker.reputation(agent.id);
    assert_eq!(rep.lines_recalled, 1);
    assert!(rep.score < 50);
}

#[test]
fn banker_register_and_check() {
    let mut banker = Banker::new();
    let agent = banker.register_agent("integration-test".to_string(), None);
    assert!(banker.is_registered(agent.id));
    assert!(!banker.is_registered(fresh_id()));
}

#[test]
fn banker_reject_bad_proposal() {
    let mut banker = Banker::new();
    let agent = banker.register_agent("risky".to_string(), None);
    let now = now_ms();
    let proposal = CreditProposal {
        id: fresh_id(),
        agent_id: agent.id,
        submitted_at: now,
        requested_usd: 1_000_000 * USD,
        max_loss_usd: 900_000 * USD,
        target_return_pct: 100_000,
        window_start: now,
        window_end: now + 5 * 60_000,
        strategy: "yolo".to_string(),
        allowed_pairs: vec![],
        max_single_trade_usd: 0,
        repayment_trigger: RepaymentTrigger::Manual,
        collateral: None,
    };
    let decision = banker.evaluate(&proposal);
    assert!(!decision.approved);
    assert!(decision.score < 6000);
    assert!(decision.rejection_reason.is_some());
}

#[test]
fn banker_deduct_insufficient_credit() {
    let mut banker = Banker::new();
    let agent = banker.register_agent("deduct-test".to_string(), None);
    let proposal = good_proposal(agent.id);
    let decision = banker.evaluate(&proposal);
    assert!(decision.approved);
    banker.approve_proposal(proposal.id, None).expect("approve credit");

    let approved = decision.approved_usd.unwrap();
    let result = banker.deduct(agent.id, approved + 1);
    assert!(matches!(result, Err(AppError::InsufficientCredit { .. })));
}

#[test]
fn banker_recall_updates_reputation() {
    let mut banker = Banker::new();
    let agent = banker.register_agent("recall-rep-test".to_string(), None);
    let proposal = good_proposal(agent.id);
    banker.evaluate(&proposal);
    banker.approve_proposal(proposal.id, None).expect("approve credit");

    let rep_before = banker.reputation(agent.id);
    banker.recall(agent.id, "test recall".to_string()).unwrap();
    let rep_after = banker.reputation(agent.id);

    assert_eq!(rep_after.lines_recalled, rep_before.lines_recalled + 1);
    assert!(rep_after.score < rep_before.score);
}

#[test]
fn banker_repay_updates_reputation_positively() {
    let mut banker = Banker::new();
    let agent = banker.register_agent("repay-test".to_string(), None);
    let proposal = good_proposal(agent.id);
    let decision = banker.evaluate(&proposal);
    assert!(decision.approved);
    banker.approve_proposal(proposal.id, None).expect("approve credit");

    let rep_before = banker.reputation(agent.id);
    banker.repay(agent.id).unwrap();
    let rep_after = banker.reputation(agent.id);

    assert_eq!(rep_after.lines_repaid_cleanly, rep_before.lines_repaid_cleanly + 1);
    assert!(rep_after.score >= rep_before.score);
}

#[test]
fn banker_no_active_line_for_unregistered() {
    let mut banker = Banker::new();
    assert!(banker.get_active_line(fresh_id()).is_none());
}

#[test]
fn evaluate_queues_for_human_approval() {
    let mut banker = Banker::new();
    let agent = banker.register_agent("queued".to_string(), None);
    let proposal = good_proposal(agent.id);
    let decision = banker.evaluate(&proposal);
    assert!(decision.approved);
    assert!(decision.credit_line.is_none());
    // No line until a human approves.
    assert!(banker.get_active_line(agent.id).is_none());
    let pending = banker.get_pending_proposals();
    assert_eq!(pending.len(), 1);
    assert_eq!(pending[0].proposal.id, proposal.id);
    assert_eq!(Some(pending[0].recommended_usd), decision.approved_usd);

    let line = banker.approve_proposal(proposal.id, None).expect("approve");
    assert_eq!(line.approved_usd, decision.approved_usd.unwrap());
    assert_eq!(line.remaining_usd, line.approved_usd);
    assert_eq!(line.spent_usd, 0);
    assert_eq!(line.status, CreditStatus::Active);
    assert!(banker.get_pending_proposals().is_empty());
    assert_eq!(banker.reputation(agent.id).lines_approved, 1);
}

#[test]
fn approve_with_override_amount() {
    let mut banker = Banker::new();
    let agent = banker.register_agent("override".to_string(), None);
    let proposal = good_proposal(agent.id);
    banker.evaluate(&proposal);
    let line = banker.approve_proposal(proposal.id, Some(3 * USD)).expect("approve");
    assert_eq!(line.approved_usd, 3 * USD);
    assert_eq!(line.remaining_usd, 3 * USD);
}

#[test]
fn approve_and_reject_unknown_proposal_fail() {
    let mut banker = Banker::new();
    let id = fresh_id();
    match banker.approve_proposal(id, None) {
        Err(AppError::ProposalNotFound(x)) => assert_eq!(x, id),
        other => panic!("unexpected {:?}", other),
    }
    match banker.reject_proposal(id) {
        Err(AppError::ProposalNotFound(x)) => assert_eq!(x, id),
        other => panic!("unexpected {:?}", other),
    }
}

#[test]
fn reject_removes_from_queue() {
    let mut banker = Banker::new();
    let agent = banker.register_agent("rejected".to_string(), None);
    let proposal = good_proposal(agent.id);
    banker.evaluate(&proposal);
    banker.take_events();
    banker.reject_proposal(proposal.id).expect("reject");
    assert!(banker.get_pending_proposals().is_empty());
    assert!(banker.get_active_line(agent.id).is_none());
    let events = banker.take_events();
    assert_eq!(events.len(), 1);
    match &events[0] {
        DashboardEvent::CreditRejectedByHuman { proposal_id, agent_id } => {
            assert_eq!(*proposal_id, proposal.id);
            assert_eq!(*agent_id, agent.id);
        }
        other => panic!("unexpected {:?}", other),
    }
}

#[test]
fn refund_undoes_deduct() {
    let mut banker = Banker::new();
    let agent = banker.register_agent("refund".to_string(), None);
    let proposal = good_proposal(agent.id);
    banker.evaluate(&proposal);
    let before = banker.approve_proposal(proposal.id, Some(5 * USD)).expect("approve");
    banker.deduct(agent.id, 2 * USD).expect("deduct");
    let mid = banker.get_active_line(agent.id).expect("line");
    assert_eq!(mid.spent_usd, 2 * USD);
    assert_eq!(mid.remaining_usd, 3 * USD);
    banker.refund(agent.id, 2 * USD).expect("refund");
    let after = banker.get_active_line(agent.id).expect("line");
    assert_eq!(after.spent_usd, before.spent_usd);
    assert_eq!(after.remaining_usd, before.remaining_usd);
    // More than was spent cannot be refunded.
    match banker.refund(agent.id, 1) {
        Err(AppError::Internal(m)) => assert_eq!(m, "refund exceeds the amount spent"),
        other => panic!("unexpected {:?}", other),
    }
}

#[test]
fn deduct_errors_name_the_cause() {
    let mut banker = Banker::new();
    let agent = banker.register_agent("errors".to_string(), None);
    match banker.deduct(agent.id, 1) {
        Err(AppError::NoCreditLine(x)) => assert_eq!(x, agent.id),
        other => panic!("unexpected {:?}", other),
    }
    let proposal = good_proposal(agent.id);
    banker.evaluate(&proposal);
    banker.approve_proposal(proposal.id, Some(USD)).expect("approve");
    match banker.deduct(agent.id, 2 * USD) {
        Err(e) => {
            assert!(matches!(e, AppError::InsufficientCredit { requested, remaining } if requested == 2 * USD && remaining == USD));
            assert_eq!(e.message(), "Insufficient credit: requested 2 but only 1 remaining");
        }
        other => panic!("unexpected {:?}", other),
    }
}

#[test]
fn repay_moves_line_to_repaid() {
    let mut banker = Banker::new();
    let agent = banker.register_agent("repaid".to_string(), None);
    assert!(matches!(banker.repay(agent.id), Err(AppError::NoCreditLine(_))));
    let proposal = good_proposal(agent.id);
    banker.evaluate(&proposal);
    banker.approve_proposal(proposal.id, Some(4 * USD)).expect("approve");
    banker.deduct(agent.id, USD).expect("deduct");
    banker.repay(agent.id).expect("repay");
    let lines = banker.get_active_lines();
    assert!(lines.is_empty());
    let rep = banker.reputation(agent.id);
    assert_eq!(rep.lines_repaid_cleanly, 1);
    // 25% utilization recorded.
    assert_eq!(rep.avg_utilization_pct, 2500);
}

#[test]
fn treasury_address_is_id_hex() {
    let mut banker = Banker::new();
    let with_wallet = banker.register_agent("w".to_string(), Some("0xAbC".to_string()));
    let without = banker.register_agent("n".to_string(), None);
    let expected = format!("0x{}", uuid::Uuid::from_u128(with_wallet.id).simple());
    assert_eq!(banker.treasury_address(with_wallet.id), expected);
    let expected = format!("0x{}", uuid::Uuid::from_u128(without.id).simple());
    assert_eq!(banker.treasury_address(without.id), expected);
}

#[test]
fn unknown_agent_has_neutral_reputation() {
    let banker = Banker::new();
    let id = fresh_id();
    let rep = banker.reputation(id);
    assert_eq!(rep.agent_id, id);
    assert_eq!(rep.score, 50);
    assert_eq!(rep.lines_approved, 0);
}

#[test]
fn recall_blocks_trading_until_new_line() {
    let mut banker = Banker::new();
    let agent = banker.register_agent("recall-block".to_string(), None);
    let proposal = good_proposal(agent.id);
    banker.evaluate(&proposal);
    banker.approve_proposal(proposal.id, None).expect("approve credit");
    assert!(banker.get_active_line(agent.id).is_some());

    banker.recall(agent.id, "max loss reached".to_string()).expect("recall");
    assert!(matches!(banker.deduct(agent.id, 1), Err(AppError::NoCreditLine(id)) if id == agent.id));
    assert!(banker.get_active_line(agent.id).is_none());
    assert!(banker.get_active_lines().iter().all(|l| l.agent_id != agent.id));

    let mut guardian = Guardian::new(PolicyConfig::default());
    let trade = TradeProposal {
        id: fresh_id(),
        agent_id: agent.id,
        submitted_at: now_ms(),
        pair: "BTC-USDT".to_string(),
        side: TradeSide::Buy,
        amount_usd: USD / 2,
        confidence: 7500,
        reasoning: "after recall".to_string(),
        contract_address: None,
        contract_method: None,
    };
    let verdict = guardian.verify(banker.credit_lines_read(), &trade);
    assert!(!verdict.approved);
    assert!(!verdict.checks[0].passed);
    assert_eq!(verdict.checks[0].detail, "Credit line status is Recalled, not Active");

    // A newly approved line lifts the block.
    let again = good_proposal(agent.id);
    banker.evaluate(&again);
    banker.approve_proposal(again.id, None).expect("approve credit");
    assert!(banker.get_active_line(agent.id).is_some());
    assert!(banker.deduct(agent.id, 1).is_ok());
}

#[test]
fn active_lines_list_each_line_once() {
    let mut banker = Banker::new();
    let mut ids = Vec::new();
    for name in ["a", "b", "c"] {
        let agent = banker.register_agent(name.to_string(), None);
        let proposal = good_proposal(agent.id);
        banker.evaluate(&proposal);
        banker.approve_proposal(proposal.id, None).expect("approve credit");
        ids.push(agent.id);
    }
    banker.recall(ids[1], "test".to_string()).expect("recall");
    let mut active: Vec<u128> = banker.get_active_lines().iter().map(|l| l.agent_id).collect();
    active.sort();
    let mut expected = vec![ids[0], ids[2]];
    expected.sort();
    assert_eq!(active, expected);
}
