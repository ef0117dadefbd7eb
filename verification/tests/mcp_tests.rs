//! The MCP skill: manifest, routing, JSON-RPC envelopes and the tool handlers.

use openclaw_aibank::banker::Banker;
use openclaw_aibank::guardian::Guardian;
use openclaw_aibank::mcp::skill::{
    agent_register, build_manifest, get_credit_line_at, get_risk_score, list_proposals, parse_uuid_arg,
    propose_trade_at, repay_credit, request_credit, request_credit_at, route, submit_x402_at, trade_executed,
    trade_failed, CreditRequestArgs, LineReply, Route, Tool, TradeArgs, TradeStep, X402Args, INVALID_PARAMS,
    METHOD_NOT_FOUND, SERVER_ERROR,
};
use openclaw_aibank::monitor::Monitor;
use openclaw_aibank::types::{
    CreditStatus, DashboardEvent, JsonRpcResponse, PolicyConfig, RepaymentTrigger, TradeSide, X402RiskLevel,
};

const USD: u64 = 1_000_000;
const HOUR_MS: i64 = 3_600_000;
const STRATEGY: &str = "Mean reversion strategy on BTC-USDT using RSI and Bollinger Bands on the 4h timeframe. Enter on RSI < 30 with price at lower band, exit at middle band or RSI > 70. Tight stop at 10% of capital.";

fn now_ms() -> i64 {
    chrono::Utc::now().timestamp_millis()
}

fn fresh_id() -> u128 {
    uuid::Uuid::new_v4().as_u128()
}

fn id_text(id: u128) -> String {
    uuid::Uuid::from_u128(id).to_string()
}

fn credit_args(agent_id: u128) -> CreditRequestArgs {
    CreditRequestArgs {
        agent_id: Some(id_text(agent_id)),
        requested_usd: Some(5_000 * USD),
        max_loss_usd: Some(500 * USD),
        target_return_pct: Some(1500),
        window_start: None,
        window_end: Some("2099-01-01T00:00:00Z".to_string()),
        strategy: Some(STRATEGY.to_string()),
        allowed_pairs: Some(vec!["BTC-USDT".to_string(), "ETH-USDT".to_string()]),
        max_single_trade_usd: Some(2_500 * USD),
        repayment_trigger: Some("profit_target".to_string()),
        collateral_asset: Some("USDT".to_string()),
        collateral_amount: Some(2_500 * USD),
    }
}

fn trade_args(agent_id: u128, side: &str, amount: u64) -> TradeArgs {
    TradeArgs {
        agent_id: Some(id_text(agent_id)),
        pair: Some("BTC-USDT".to_string()),
        side: Some(side.to_string()),
        amount_usd: Some(amount),
        confidence: Some(7500),
        reasoning: Some("RSI oversold".to_string()),
        contract_address: None,
        contract_method: None,
    }
}

/// A registered agent with an approved line of `ceiling`.
fn funded_agent(banker: &mut Banker, ceiling: u64) -> u128 {
    let agent = agent_register(banker, Some("trader".to_string()), None).unwrap();
    let decision = request_credit(banker, credit_args(agent.id)).unwrap();
    assert!(decision.approved);
    banker.approve_proposal(decision.proposal_id, Some(ceiling)).unwrap();
    agent.id
}

#[test]
fn manifest_has_all_9_tools() {
    let manifest = build_manifest();
    assert_eq!(manifest.tools.len(), 9);
    let names: Vec<&str> = manifest.tools.iter().map(|t| t.name.as_str()).collect();
    assert!(names.contains(&"agent_register"));
    assert!(names.contains(&"request_credit"));
    assert!(names.contains(&"propose_trade"));
    assert!(names.contains(&"repay_credit"));
    assert!(names.contains(&"get_portfolio"));
    assert!(names.contains(&"list_proposals"));
    assert!(names.contains(&"get_risk_score"));
    assert!(names.contains(&"get_credit_line"));
    assert!(names.contains(&"submit_x402_payment"));
}

#[test]
fn manifest_name_and_version() {
    let manifest = build_manifest();
    assert_eq!(manifest.name, "openclaw-aibank");
    assert_eq!(manifest.version, "0.1.0");
}

#[test]
fn jsonrpc_response_success() {
    let result: serde_json::Value = serde_json::from_str(r#"{"ok": true}"#).unwrap();
    let resp = JsonRpcResponse::success(serde_json::Value::from(1), result);
    assert!(resp.error.is_none());
    assert!(resp.result.is_some());
    assert_eq!(resp.jsonrpc, "2.0");
}

#[test]
fn jsonrpc_response_error() {
    let resp = JsonRpcResponse::error(serde_json::Value::from(1), -32600, "Invalid request".to_string());
    assert!(resp.result.is_none());
    assert!(resp.error.is_some());
    assert_eq!(resp.error.unwrap().code, -32600);
}

#[test]
fn each_tool_has_parameters() {
    let manifest = build_manifest();
    for tool in &manifest.tools {
        let schema: serde_json::Value = serde_json::from_str(&tool.parameters).unwrap();
        assert!(schema.is_object(), "Tool {} should have object parameters", tool.name);
    }
}

#[test]
fn manifest_tools_route_to_themselves() {
    let manifest = build_manifest();
    let order = [
        Tool::AgentRegister,
        Tool::RequestCredit,
        Tool::ProposeTrade,
        Tool::RepayCredit,
        Tool::GetPortfolio,
        Tool::ListProposals,
        Tool::GetRiskScore,
        Tool::GetCreditLine,
        Tool::SubmitX402Payment,
    ];
    for (tool, expected) in manifest.tools.iter().zip(order.iter()) {
        match route("tools/call", Some(tool.name.as_str())) {
            Route::Call(t) => assert_eq!(t, *expected),
            other => panic!("unexpected {:?}", other),
        }
    }
}

#[test]
fn routing_refusals() {
    assert!(matches!(route("initialize", None), Route::Manifest));
    assert!(matches!(route("tools/list", Some("x")), Route::Manifest));
    match route("tools/call", None) {
        Route::Refused(e) => {
            assert_eq!(e.code, INVALID_PARAMS);
            assert_eq!(e.message, "Missing tool name in params");
        }
        other => panic!("unexpected {:?}", other),
    }
    match route("tools/call", Some("launch_rocket")) {
        Route::Refused(e) => {
            assert_eq!(e.code, METHOD_NOT_FOUND);
            assert_eq!(e.message, "Unknown tool: launch_rocket");
        }
        other => panic!("unexpected {:?}", other),
    }
    match route("resources/list", None) {
        Route::Refused(e) => {
            assert_eq!(e.code, -32601);
            assert_eq!(e.message, "Method not found: resources/list");
        }
        other => panic!("unexpected {:?}", other),
    }
}

#[test]
fn uuid_arguments() {
    let id = fresh_id();
    assert_eq!(parse_uuid_arg(&Some(id_text(id)), "agent_id"), Ok(id));
    assert_eq!(parse_uuid_arg(&None, "agent_id"), Err("Missing required parameter: agent_id".to_string()));
    let err = parse_uuid_arg(&Some("nope".to_string()), "agent_id").unwrap_err();
    let expected = format!("Invalid UUID for agent_id: {}", uuid::Uuid::parse_str("nope").unwrap_err());
    assert_eq!(err, expected);
}

#[test]
fn register_needs_a_name() {
    let mut banker = Banker::new();
    let e = agent_register(&mut banker, None, None).unwrap_err();
    assert_eq!(e.code, INVALID_PARAMS);
    assert_eq!(e.message, "Missing required parameter: name");
    let agent = agent_register(&mut banker, Some("bot".to_string()), Some("0xabc".to_string())).unwrap();
    assert_eq!(agent.name, "bot");
    assert_eq!(agent.evm_address, Some("0xabc".to_string()));
    assert!(banker.is_registered(agent.id));
}

#[test]
fn request_credit_checks_agent_and_window() {
    let mut banker = Banker::new();
    let stranger = fresh_id();
    let e = request_credit(&mut banker, credit_args(stranger)).unwrap_err();
    assert_eq!(e.code, INVALID_PARAMS);
    assert_eq!(e.message, format!("Agent {} is not registered", id_text(stranger)));

    let agent = agent_register(&mut banker, Some("bot".to_string()), None).unwrap();
    let mut args = credit_args(agent.id);
    args.window_end = Some("next tuesday".to_string());
    let e = request_credit(&mut banker, args).unwrap_err();
    assert_eq!(e.message, "Missing or invalid window_end");
    assert!(banker.get_pending_proposals().is_empty());
}

#[test]
fn request_credit_builds_the_proposal() {
    let mut banker = Banker::new();
    let agent = agent_register(&mut banker, Some("bot".to_string()), None).unwrap();
    let id = fresh_id();
    let now = now_ms();
    let mut args = credit_args(agent.id);
    args.window_start = Some("2024-01-01T00:00:00Z".to_string());
    let decision = request_credit_at(&mut banker, args, id, now).unwrap();
    assert_eq!(decision.proposal_id, id);
    assert!(decision.approved);
    let pending = banker.get_pending_proposals();
    assert_eq!(pending.len(), 1);
    let p = &pending[0].proposal;
    assert_eq!(p.id, id);
    assert_eq!(p.agent_id, agent.id);
    assert_eq!(p.submitted_at, now);
    assert_eq!(p.window_start, 1_704_067_200_000);
    assert_eq!(p.window_end, 4_070_908_800_000);
    assert_eq!(p.requested_usd, 5_000 * USD);
    assert!(matches!(p.repayment_trigger, RepaymentTrigger::ProfitTarget { pct: 1500 }));
    let c = p.collateral.as_ref().unwrap();
    assert_eq!(c.asset, "USDT");
    assert_eq!(c.locked_at, now);
}

#[test]
fn trade_without_credit_line_is_rejected() {
    let mut banker = Banker::new();
    let mut guardian = Guardian::new(PolicyConfig::default());
    let mut monitor = Monitor::new();
    let agent = agent_register(&mut banker, Some("bot".to_string()), None).unwrap();
    banker.take_events();
    let step = propose_trade_at(&mut banker, &mut guardian, &mut monitor, trade_args(agent.id, "buy", USD / 2), fresh_id(), now_ms())
        .unwrap();
    match step {
        TradeStep::Rejected { result, reasons, .. } => {
            assert!(!result.approved);
            assert_eq!(reasons, vec!["check_credit_line: No credit line found for agent".to_string()]);
        }
        other => panic!("unexpected {:?}", other),
    }
    // One ordered log: the proposal, the Guardian's verdict, the rejection.
    let events = banker.take_events();
    assert_eq!(events.len(), 3);
    assert!(matches!(events[0], DashboardEvent::ProposalSubmitted { .. }));
    assert!(matches!(&events[1], DashboardEvent::GuardianVerdict { result } if !result.approved));
    assert!(guardian.take_events().is_empty());
    match &events[2] {
        DashboardEvent::TradeRejected { reason, agent_id, .. } => {
            assert_eq!(*agent_id, agent.id);
            assert_eq!(reason, "check_credit_line: No credit line found for agent");
        }
        other => panic!("unexpected {:?}", other),
    }
    let (proposals, results) = list_proposals(&monitor);
    assert_eq!(proposals.len(), 1);
    assert_eq!(results.len(), 1);
}

#[test]
fn approved_buy_is_charged_and_capped() {
    let mut banker = Banker::new();
    let mut guardian = Guardian::new(PolicyConfig::default());
    let mut monitor = Monitor::new();
    let agent_id = funded_agent(&mut banker, 5 * USD);
    // Asking for $3 trades $1 at most.
    let step = propose_trade_at(&mut banker, &mut guardian, &mut monitor, trade_args(agent_id, "buy", 3 * USD), fresh_id(), now_ms())
        .unwrap();
    let proposal = match step {
        TradeStep::Execute { proposal, result } => {
            assert!(result.approved);
            proposal
        }
        other => panic!("unexpected {:?}", other),
    };
    assert_eq!(proposal.amount_usd, USD);
    assert_eq!(proposal.side, TradeSide::Buy);
    let line = banker.get_active_line(agent_id).unwrap();
    assert_eq!(line.spent_usd, USD);
    assert_eq!(line.remaining_usd, 4 * USD);

    // A failed execution gives the money back.
    trade_failed(&mut banker, &proposal).unwrap();
    let line = banker.get_active_line(agent_id).unwrap();
    assert_eq!(line.spent_usd, 0);

    trade_executed(&mut banker, &proposal);
    let events = banker.take_events();
    assert!(matches!(events.last(), Some(DashboardEvent::TradeExecuted { amount_usd, .. }) if *amount_usd == USD));
}

#[test]
fn approved_sell_spends_nothing() {
    let mut banker = Banker::new();
    let mut guardian = Guardian::new(PolicyConfig::default());
    let mut monitor = Monitor::new();
    let agent_id = funded_agent(&mut banker, 5 * USD);
    let step = propose_trade_at(&mut banker, &mut guardian, &mut monitor, trade_args(agent_id, "sell", USD / 2), fresh_id(), now_ms())
        .unwrap();
    let proposal = match step {
        TradeStep::Execute { proposal, .. } => proposal,
        other => panic!("unexpected {:?}", other),
    };
    assert_eq!(banker.get_active_line(agent_id).unwrap().spent_usd, 0);
    trade_failed(&mut banker, &proposal).unwrap();
    assert_eq!(banker.get_active_line(agent_id).unwrap().remaining_usd, 5 * USD);
}

#[test]
fn trade_side_must_be_buy_or_sell() {
    let mut banker = Banker::new();
    let mut guardian = Guardian::new(PolicyConfig::default());
    let mut monitor = Monitor::new();
    let agent_id = funded_agent(&mut banker, 5 * USD);
    let e = propose_trade_at(&mut banker, &mut guardian, &mut monitor, trade_args(agent_id, "short", USD), fresh_id(), now_ms())
        .unwrap_err();
    assert_eq!(e.code, INVALID_PARAMS);
    assert_eq!(e.message, "Invalid or missing side (must be 'buy' or 'sell')");
    assert!(list_proposals(&monitor).0.is_empty());
}

#[test]
fn buy_beyond_remaining_budget_is_rejected_by_guardian() {
    let mut banker = Banker::new();
    let mut guardian = Guardian::new(PolicyConfig::default());
    let mut monitor = Monitor::new();
    let agent_id = funded_agent(&mut banker, USD / 4);
    let step = propose_trade_at(&mut banker, &mut guardian, &mut monitor, trade_args(agent_id, "buy", USD / 2), fresh_id(), now_ms())
        .unwrap();
    match step {
        TradeStep::Rejected { reasons, .. } => {
            assert_eq!(reasons, vec!["check_credit_line: Trade $0.50 exceeds remaining budget $0.25".to_string()]);
        }
        other => panic!("unexpected {:?}", other),
    }
    assert_eq!(banker.get_active_line(agent_id).unwrap().spent_usd, 0);
}

#[test]
fn x402_through_the_skill() {
    let mut banker = Banker::new();
    let agent_id = funded_agent(&mut banker, 5 * USD);
    let args = |recipient: &str| X402Args {
        agent_id: Some(id_text(agent_id)),
        recipient: Some(recipient.to_string()),
        amount_usd: Some(2 * USD),
        currency: None,
        service_url: Some("https://api.example.com".to_string()),
        purpose: Some("data".to_string()),
    };
    let policy = PolicyConfig {
        x402_allowed_recipients: vec!["0xTrusted".to_string()],
        x402_blocked_recipients: vec!["0xScam".to_string()],
        ..PolicyConfig::default()
    };
    // Capped at $1 then auto-approved and charged.
    let v = submit_x402_at(&mut banker, args("0xtrusted"), &policy, fresh_id(), now_ms()).unwrap();
    assert!(v.approved);
    assert_eq!(banker.get_active_line(agent_id).unwrap().spent_usd, USD);
    // Unknown recipient waits for a human.
    let pid = fresh_id();
    let v = submit_x402_at(&mut banker, args("0xNew"), &policy, pid, now_ms()).unwrap();
    assert!(v.needs_human_review);
    assert_eq!(v.risk_level, X402RiskLevel::Medium);
    let pending = banker.get_pending_x402();
    assert_eq!(pending.len(), 1);
    assert_eq!(pending[0].payment.id, pid);
    assert_eq!(pending[0].payment.currency, "USDC");
    assert_eq!(pending[0].payment.amount_usd, USD);
    // Blocklisted is blocked and announced.
    let v = submit_x402_at(&mut banker, args("0xSCAM"), &policy, fresh_id(), now_ms()).unwrap();
    assert_eq!(v.risk_level, X402RiskLevel::High);
    let events = banker.take_events();
    assert!(matches!(events.last(), Some(DashboardEvent::X402PaymentBlocked { .. })));
    assert_eq!(banker.get_active_line(agent_id).unwrap().spent_usd, USD);
}

#[test]
fn x402_refuses_unregistered_agents() {
    let mut banker = Banker::new();
    let stranger = fresh_id();
    let args = X402Args {
        agent_id: Some(id_text(stranger)),
        recipient: None,
        amount_usd: None,
        currency: None,
        service_url: None,
        purpose: None,
    };
    let e = submit_x402_at(&mut banker, args, &PolicyConfig::default(), fresh_id(), now_ms()).unwrap_err();
    assert_eq!(e.code, INVALID_PARAMS);
    assert_eq!(e.message, format!("Agent {} is not registered", id_text(stranger)));
}

#[test]
fn repay_and_line_queries() {
    let mut banker = Banker::new();
    let agent_id = funded_agent(&mut banker, 5 * USD);
    match get_credit_line_at(&mut banker, Some(id_text(agent_id)), now_ms()).unwrap() {
        LineReply::Active(line) => assert_eq!(line.approved_usd, 5 * USD),
        other => panic!("unexpected {:?}", other),
    }
    let done = repay_credit(&mut banker, Some(id_text(agent_id))).unwrap();
    assert_eq!(done, format!("Credit line repaid for agent {}", id_text(agent_id)));
    match get_credit_line_at(&mut banker, Some(id_text(agent_id)), now_ms()).unwrap() {
        LineReply::Missing(t) => assert_eq!(t, format!("No active credit line for agent {}", id_text(agent_id))),
        other => panic!("unexpected {:?}", other),
    }
    let stranger = fresh_id();
    let e = repay_credit(&mut banker, Some(id_text(stranger))).unwrap_err();
    assert_eq!(e.code, SERVER_ERROR);
    assert_eq!(e.message, format!("Repay failed: No active credit line for agent: {}", id_text(stranger)));
    let rep = get_risk_score(&banker, Some(id_text(agent_id))).unwrap();
    assert_eq!(rep.lines_repaid_cleanly, 1);
    assert!(get_risk_score(&banker, None).is_err());
}

#[test]
fn expired_line_is_not_served() {
    let mut banker = Banker::new();
    let agent_id = funded_agent(&mut banker, 5 * USD);
    let far_future = 4_070_908_800_001;
    assert!(matches!(get_credit_line_at(&mut banker, Some(id_text(agent_id)), far_future).unwrap(), LineReply::Missing(_)));
    let lines = banker.credit_lines_read();
    assert_eq!(lines.get(&agent_id).unwrap().status, CreditStatus::Expired);
    let _ = HOUR_MS;
}
