//! Dashboard decisions: human approvals and wallet-signature registration.

use alloy::signers::local::PrivateKeySigner;
use alloy::signers::SignerSync;
use openclaw_aibank::banker::Banker;
use openclaw_aibank::dashboard::{
    approve_from_dashboard, approve_x402_from_dashboard, block_x402_from_dashboard, reject_from_dashboard,
    wallet_register,
};
use openclaw_aibank::types::{Collateral, CreditProposal, DashboardEvent, RepaymentTrigger, X402PaymentRequest, X402RiskLevel};

const USD: u64 = 1_000_000;
const KEY: &str = "59c6995e998f97a5a0044966f0945389dc9e86dae88c7a8412f4603b6b78690d";

fn signer() -> PrivateKeySigner {
    KEY.parse().unwrap()
}

fn sign(text: &str) -> String {
    let sig = signer().sign_message_sync(text.as_bytes()).unwrap();
    format!("0x{}", hex::encode(sig.as_bytes()))
}

fn id_text(id: u128) -> String {
    uuid::Uuid::from_u128(id).to_string()
}

fn proposal(agent_id: u128) -> CreditProposal {
    let now = chrono::Utc::now().timestamp_millis();
    CreditProposal {
        id: uuid::Uuid::new_v4().as_u128(),
        agent_id,
        submitted_at: now,
        requested_usd: 5_000 * USD,
        max_loss_usd: 500 * USD,
        target_return_pct: 1500,
        window_start: now,
        window_end: now + 48 * 3_600_000,
        strategy: "Mean reversion strategy on BTC-USDT using RSI and Bollinger Bands on the 4h timeframe. Enter on RSI < 30 with price at lower band, exit at middle band or RSI > 70. Tight stop at 10% of capital.".to_string(),
        allowed_pairs: vec!["BTC-USDT".to_string()],
        max_single_trade_usd: 2_500 * USD,
        repayment_trigger: RepaymentTrigger::Manual,
        collateral: Some(Collateral { asset: "USDT".to_string(), amount: 2_500 * USD, locked_at: now }),
    }
}

#[test]
fn wallet_registration_with_valid_signature() {
    let mut banker = Banker::new();
    let address = signer().address().to_string();
    let sig = sign("Register as OpenClaw agent: alpha");
    let agent = wallet_register(&mut banker, Some("  alpha ".to_string()), Some(address.clone()), Some(sig)).unwrap();
    assert_eq!(agent.name, "alpha");
    assert_eq!(agent.evm_address, Some(address));
    assert!(banker.is_registered(agent.id));
}

#[test]
fn wallet_registration_refusals() {
    let mut banker = Banker::new();
    let address = signer().address().to_string();
    let good_sig = sign("Register as OpenClaw agent: alpha");
    let cases: Vec<(Option<&str>, Option<String>, Option<String>, &str)> = vec![
        (None, Some(address.clone()), Some(good_sig.clone()), "Missing or empty 'name'"),
        (Some("   "), Some(address.clone()), Some(good_sig.clone()), "Missing or empty 'name'"),
        (Some("alpha"), None, Some(good_sig.clone()), "Missing 'evm_address'"),
        (Some("alpha"), Some(address.clone()), None, "Missing 'signature'"),
        (Some("alpha"), Some("0x1234".to_string()), Some(good_sig.clone()), "Invalid EVM address format"),
        (Some("alpha"), Some(address.clone()), Some("0xabcd".to_string()), "Invalid signature (expected 65-byte hex)"),
        (Some("alpha"), Some(address.clone()), Some("zz".to_string()), "Invalid signature (expected 65-byte hex)"),
        (Some("alpha"), Some(address.clone()), Some(format!("{}05", &good_sig[..good_sig.len() - 2])), "Malformed ECDSA signature"),
        (Some("beta"), Some(address.clone()), Some(good_sig.clone()), "Signature does not match claimed address"),
        (
            Some("alpha"),
            Some("0x0000000000000000000000000000000000000001".to_string()),
            Some(good_sig.clone()),
            "Signature does not match claimed address",
        ),
    ];
    for (name, addr, sig, expected) in cases {
        let r = wallet_register(&mut banker, name.map(|n| n.to_string()), addr, sig);
        assert_eq!(r.unwrap_err(), expected);
    }
    assert!(banker.get_agents().is_empty());
}

#[test]
fn signature_without_prefix_is_accepted() {
    let mut banker = Banker::new();
    let address = signer().address().to_string();
    let sig = sign("Register as OpenClaw agent: gamma");
    let r = wallet_register(&mut banker, Some("gamma".to_string()), Some(address), Some(sig[2..].to_string()));
    assert!(r.is_ok());
}

#[test]
fn dashboard_approval_flow() {
    let mut banker = Banker::new();
    let agent = banker.register_agent("human".to_string(), None);
    assert_eq!(approve_from_dashboard(&mut banker, "not-a-uuid").unwrap_err(), "Invalid proposal ID");
    assert_eq!(reject_from_dashboard(&mut banker, "x").unwrap_err(), "Invalid proposal ID");
    let missing = uuid::Uuid::new_v4();
    assert_eq!(
        approve_from_dashboard(&mut banker, &missing.to_string()).unwrap_err(),
        format!("Pending proposal not found: {}", missing)
    );
    let p = proposal(agent.id);
    banker.evaluate(&p);
    let line = approve_from_dashboard(&mut banker, &id_text(p.id)).unwrap();
    assert_eq!(line.agent_id, agent.id);
    assert_eq!(line.proposal_id, p.id);

    let q = proposal(agent.id);
    banker.evaluate(&q);
    reject_from_dashboard(&mut banker, &id_text(q.id)).unwrap();
    assert!(banker.get_pending_proposals().is_empty());
}

#[test]
fn dashboard_x402_decisions() {
    let mut banker = Banker::new();
    let agent = banker.register_agent("payer".to_string(), None);
    let p = proposal(agent.id);
    banker.evaluate(&p);
    banker.approve_proposal(p.id, Some(5 * USD)).unwrap();
    let make = |amount: u64| X402PaymentRequest {
        id: uuid::Uuid::new_v4().as_u128(),
        agent_id: agent.id,
        recipient: "0xNew".to_string(),
        amount_usd: amount,
        currency: "USDC".to_string(),
        service_url: "https://api.example.com".to_string(),
        purpose: "data".to_string(),
        submitted_at: 0,
    };
    assert_eq!(approve_x402_from_dashboard(&mut banker, "bad").unwrap_err(), "Invalid payment ID");
    assert_eq!(block_x402_from_dashboard(&mut banker, "bad").unwrap_err(), "Invalid payment ID");

    let first = make(USD);
    let first_id = first.id;
    banker.store_pending_x402(first, X402RiskLevel::Medium, "First-time recipient".to_string());
    approve_x402_from_dashboard(&mut banker, &id_text(first_id)).unwrap();
    assert_eq!(banker.get_active_line(agent.id).unwrap().spent_usd, USD);

    let second = make(USD);
    let second_id = second.id;
    banker.store_pending_x402(second, X402RiskLevel::Medium, "First-time recipient".to_string());
    banker.take_events();
    block_x402_from_dashboard(&mut banker, &id_text(second_id)).unwrap();
    let events = banker.take_events();
    match events.last() {
        Some(DashboardEvent::X402PaymentBlocked { payment_id, reason, .. }) => {
            assert_eq!(*payment_id, second_id);
            assert_eq!(reason, "Blocked by human via dashboard");
        }
        other => panic!("unexpected {:?}", other),
    }
    assert_eq!(banker.get_active_line(agent.id).unwrap().spent_usd, USD);
}
