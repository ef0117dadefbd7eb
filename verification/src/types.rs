//! Domain types shared by the banker, guardian, x402 screening, monitor and
//! MCP layers.
//!
//! Units: money in micro-dollars (`u64`, 1 USD = 1_000_000), confidences and
//! percentages in basis points (`u64`, 100% = 10_000), times in milliseconds
//! since the Unix epoch (`i64`), identifiers as the 128-bit value of a UUID.

use vstd::prelude::*;
use crate::bridge::{uuid_text, uuid_to_text};

verus! {

/// Copies a list of strings element by element.
pub fn copy_strings(v: &Vec<String>) -> (r: Vec<String>)
    ensures
        r@ == v@,
{
    let mut r: Vec<String> = Vec::new();
    let mut i: usize = 0;
    while i < v.len()
        invariant
            i <= v.len(),
            r@ == v@.take(i as int),
        decreases v.len() - i,
    {
        r.push(v[i].clone());
        i = i + 1;
        assert(r@ =~= v@.take(i as int));
    }
    assert(v@.take(v.len() as int) =~= v@);
    r
}

/// Copies an optional string.
pub fn copy_opt_string(v: &Option<String>) -> (r: Option<String>)
    ensures
        r == *v,
{
    match v {
        Some(s) => Some(s.clone()),
        None => None,
    }
}

/// Status of a credit line through its lifecycle.
#[derive(Debug, Clone, Copy, PartialEq, Eq, Structural)]
pub enum CreditStatus {
    Active,
    Suspended,
    Recalled,
    Expired,
    Repaid,
}

/// Buy or sell.
#[derive(Debug, Clone, Copy, PartialEq, Eq, Structural)]
pub enum TradeSide {
    Buy,
    Sell,
}

/// Risk classification for an x402 payment.
#[derive(Debug, Clone, Copy, PartialEq, Eq, Structural)]
pub enum X402RiskLevel {
    /// Known recipient, small amount: auto-approve.
    Low,
    /// First-time recipient or a large share of the budget: human review.
    Medium,
    /// Blocklisted recipient, over a cap or without a credit line: auto-block.
    High,
}

/// An agent that has registered with the system.
#[derive(Debug)]
pub struct Agent {
    pub id: u128,
    pub name: String,
    /// EVM address proven by a wallet signature, when the agent registered with one.
    pub evm_address: Option<String>,
    pub registered_at: i64,
}

impl Clone for Agent {
    fn clone(&self) -> (r: Self)
        ensures
            r == *self,
    {
        Agent {
            id: self.id,
            name: self.name.clone(),
            evm_address: copy_opt_string(&self.evm_address),
            registered_at: self.registered_at,
        }
    }
}

/// When the borrowed funds should be returned.
#[derive(Debug)]
pub enum RepaymentTrigger {
    /// Target return, in basis points.
    ProfitTarget { pct: u64 },
    /// Stop-loss, in micro-dollars.
    StopLoss { loss_usd: u64 },
    TimeExpiry,
    Manual,
}

impl Clone for RepaymentTrigger {
    fn clone(&self) -> (r: Self)
        ensures
            r == *self,
    {
        match self {
            RepaymentTrigger::ProfitTarget { pct } => RepaymentTrigger::ProfitTarget { pct: *pct },
            RepaymentTrigger::StopLoss { loss_usd } => RepaymentTrigger::StopLoss { loss_usd: *loss_usd },
            RepaymentTrigger::TimeExpiry => RepaymentTrigger::TimeExpiry,
            RepaymentTrigger::Manual => RepaymentTrigger::Manual,
        }
    }
}

/// Collateral staked by an agent to back a credit request.
#[derive(Debug)]
pub struct Collateral {
    pub asset: String,
    /// Amount in micro-dollars.
    pub amount: u64,
    pub locked_at: i64,
}

impl Clone for Collateral {
    fn clone(&self) -> (r: Self)
        ensures
            r == *self,
    {
        Collateral { asset: self.asset.clone(), amount: self.amount, locked_at: self.locked_at }
    }
}

/// Copies an optional collateral.
pub fn copy_opt_collateral(c: &Option<Collateral>) -> (r: Option<Collateral>)
    ensures
        r == *c,
{
    match c {
        Some(c) => Some(c.clone()),
        None => None,
    }
}

/// A proposal submitted by an agent requesting a credit line.
#[derive(Debug)]
pub struct CreditProposal {
    pub id: u128,
    pub agent_id: u128,
    pub submitted_at: i64,
    /// Amount to borrow, micro-dollars.
    pub requested_usd: u64,
    /// Stop-loss the agent accepts, micro-dollars.
    pub max_loss_usd: u64,
    /// Expected return, basis points (1500 = 15%).
    pub target_return_pct: u64,
    pub window_start: i64,
    pub window_end: i64,
    pub strategy: String,
    pub allowed_pairs: Vec<String>,
    /// Self-declared per-trade limit, micro-dollars.
    pub max_single_trade_usd: u64,
    pub repayment_trigger: RepaymentTrigger,
    pub collateral: Option<Collateral>,
}

/// The value of a [`CreditProposal`], with its list of pairs as a sequence.
pub struct CreditProposalView {
    pub id: u128,
    pub agent_id: u128,
    pub submitted_at: i64,
    pub requested_usd: u64,
    pub max_loss_usd: u64,
    pub target_return_pct: u64,
    pub window_start: i64,
    pub window_end: i64,
    pub strategy: Seq<char>,
    pub allowed_pairs: Seq<String>,
    pub max_single_trade_usd: u64,
    pub repayment_trigger: RepaymentTrigger,
    pub collateral: Option<Collateral>,
}

impl View for CreditProposal {
    type V = CreditProposalView;

    open spec fn view(&self) -> CreditProposalView {
        CreditProposalView {
            id: self.id,
            agent_id: self.agent_id,
            submitted_at: self.submitted_at,
            requested_usd: self.requested_usd,
            max_loss_usd: self.max_loss_usd,
            target_return_pct: self.target_return_pct,
            window_start: self.window_start,
            window_end: self.window_end,
            strategy: self.strategy@,
            allowed_pairs: self.allowed_pairs@,
            max_single_trade_usd: self.max_single_trade_usd,
            repayment_trigger: self.repayment_trigger,
            collateral: self.collateral,
        }
    }
}

impl Clone for CreditProposal {
    fn clone(&self) -> (r: Self)
        ensures
            r@ == self@,
    {
        CreditProposal {
            id: self.id,
            agent_id: self.agent_id,
            submitted_at: self.submitted_at,
            requested_usd: self.requested_usd,
            max_loss_usd: self.max_loss_usd,
            target_return_pct: self.target_return_pct,
            window_start: self.window_start,
            window_end: self.window_end,
            strategy: self.strategy.clone(),
            allowed_pairs: copy_strings(&self.allowed_pairs),
            max_single_trade_usd: self.max_single_trade_usd,
            repayment_trigger: self.repayment_trigger.clone(),
            collateral: copy_opt_collateral(&self.collateral),
        }
    }
}

/// Conditions attached to an approved credit line.
#[derive(Debug)]
pub struct ApprovedConditions {
    pub allowed_pairs: Vec<String>,
    /// Per-trade limit, micro-dollars.
    pub max_single_trade_usd: u64,
    /// Loss at which the line is recalled, micro-dollars.
    pub max_loss_usd: u64,
    pub window_end: i64,
}

/// The value of [`ApprovedConditions`].
pub struct ApprovedConditionsView {
    pub allowed_pairs: Seq<String>,
    pub max_single_trade_usd: u64,
    pub max_loss_usd: u64,
    pub window_end: i64,
}

impl View for ApprovedConditions {
    type V = ApprovedConditionsView;

    open spec fn view(&self) -> ApprovedConditionsView {
        ApprovedConditionsView {
            allowed_pairs: self.allowed_pairs@,
            max_single_trade_usd: self.max_single_trade_usd,
            max_loss_usd: self.max_loss_usd,
            window_end: self.window_end,
        }
    }
}

impl Clone for ApprovedConditions {
    fn clone(&self) -> (r: Self)
        ensures
            r@ == self@,
    {
        ApprovedConditions {
            allowed_pairs: copy_strings(&self.allowed_pairs),
            max_single_trade_usd: self.max_single_trade_usd,
            max_loss_usd: self.max_loss_usd,
            window_end: self.window_end,
        }
    }
}

/// A credit line granted by the Banker.
#[derive(Debug)]
pub struct CreditLine {
    pub id: u128,
    pub proposal_id: u128,
    pub agent_id: u128,
    /// Ceiling, micro-dollars.
    pub approved_usd: u64,
    /// Spent so far, micro-dollars.
    pub spent_usd: u64,
    /// Still available, micro-dollars.
    pub remaining_usd: u64,
    pub status: CreditStatus,
    pub approved_at: i64,
    pub expires_at: i64,
    pub conditions: ApprovedConditions,
    /// Reputation score when approved, tenths of a point (50 = 5.0).
    pub reputation_at_approval: u64,
}

/// The value of a [`CreditLine`].
pub struct CreditLineView {
    pub id: u128,
    pub proposal_id: u128,
    pub agent_id: u128,
    pub approved_usd: u64,
    pub spent_usd: u64,
    pub remaining_usd: u64,
    pub status: CreditStatus,
    pub approved_at: i64,
    pub expires_at: i64,
    pub conditions: ApprovedConditionsView,
    pub reputation_at_approval: u64,
}

impl View for CreditLine {
    type V = CreditLineView;

    open spec fn view(&self) -> CreditLineView {
        CreditLineView {
            id: self.id,
            proposal_id: self.proposal_id,
            agent_id: self.agent_id,
            approved_usd: self.approved_usd,
            spent_usd: self.spent_usd,
            remaining_usd: self.remaining_usd,
            status: self.status,
            approved_at: self.approved_at,
            expires_at: self.expires_at,
            conditions: self.conditions@,
            reputation_at_approval: self.reputation_at_approval,
        }
    }
}

impl Clone for CreditLine {
    fn clone(&self) -> (r: Self)
        ensures
            r@ == self@,
    {
        CreditLine {
            id: self.id,
            proposal_id: self.proposal_id,
            agent_id: self.agent_id,
            approved_usd: self.approved_usd,
            spent_usd: self.spent_usd,
            remaining_usd: self.remaining_usd,
            status: self.status,
            approved_at: self.approved_at,
            expires_at: self.expires_at,
            conditions: self.conditions.clone(),
            reputation_at_approval: self.reputation_at_approval,
        }
    }
}

/// The Banker's decision on a credit proposal.
#[derive(Debug)]
pub struct CreditDecision {
    pub proposal_id: u128,
    /// Whether the score reached the approval threshold.
    pub approved: bool,
    /// Amount recommended for approval, micro-dollars.
    pub approved_usd: Option<u64>,
    pub rejection_reason: Option<String>,
    /// Score, thousandths of a point (6000 = 6.0).
    pub score: u64,
    /// The credit line, where one was granted with the decision.
    pub credit_line: Option<CreditLine>,
}

/// An agent's cumulative reputation across credit lines.
#[derive(Debug)]
pub struct AgentReputation {
    pub agent_id: u128,
    /// Score, tenths of a point between 0 and 100 (50 = 5.0, neutral).
    pub score: u64,
    pub lines_approved: u32,
    pub lines_repaid_cleanly: u32,
    pub lines_recalled: u32,
    /// Rolling average utilization of repaid lines, basis points.
    pub avg_utilization_pct: u64,
    /// Rolling average return, basis points.
    pub avg_return_pct: u64,
}

impl Clone for AgentReputation {
    fn clone(&self) -> (r: Self)
        ensures
            r == *self,
    {
        AgentReputation { ..*self }
    }
}

/// The reputation of an agent with no history: neutral score 5.0.
pub open spec fn neutral_reputation(agent_id: u128) -> AgentReputation {
    AgentReputation {
        agent_id,
        score: 50,
        lines_approved: 0,
        lines_repaid_cleanly: 0,
        lines_recalled: 0,
        avg_utilization_pct: 0,
        avg_return_pct: 0,
    }
}

impl Default for AgentReputation {
    fn default() -> (r: Self)
        ensures
            r == neutral_reputation(0),
    {
        AgentReputation {
            agent_id: 0,
            score: 50,
            lines_approved: 0,
            lines_repaid_cleanly: 0,
            lines_recalled: 0,
            avg_utilization_pct: 0,
            avg_return_pct: 0,
        }
    }
}

/// A trade proposal submitted by an agent for guardian review.
#[derive(Debug)]
pub struct TradeProposal {
    pub id: u128,
    pub agent_id: u128,
    pub submitted_at: i64,
    pub pair: String,
    pub side: TradeSide,
    /// Trade size, micro-dollars.
    pub amount_usd: u64,
    /// Agent confidence, basis points (7500 = 75%).
    pub confidence: u64,
    pub reasoning: String,
    /// For DeFi trades: the target contract address.
    pub contract_address: Option<String>,
    /// For DeFi trades: the method being called.
    pub contract_method: Option<String>,
}

impl Clone for TradeProposal {
    fn clone(&self) -> (r: Self)
        ensures
            r == *self,
    {
        TradeProposal {
            id: self.id,
            agent_id: self.agent_id,
            submitted_at: self.submitted_at,
            pair: self.pair.clone(),
            side: self.side,
            amount_usd: self.amount_usd,
            confidence: self.confidence,
            reasoning: self.reasoning.clone(),
            contract_address: copy_opt_string(&self.contract_address),
            contract_method: copy_opt_string(&self.contract_method),
        }
    }
}

/// Result of a single guardian check.
#[derive(Debug)]
pub struct CheckResult {
    pub name: String,
    pub passed: bool,
    pub detail: String,
}

impl Clone for CheckResult {
    fn clone(&self) -> (r: Self)
        ensures
            r == *self,
    {
        CheckResult { name: self.name.clone(), passed: self.passed, detail: self.detail.clone() }
    }
}

/// Result of all guardian checks on a proposal.
#[derive(Debug)]
pub struct GuardianResult {
    pub proposal_id: u128,
    pub approved: bool,
    /// Sum of the weights of the failed checks.
    pub risk_score: u64,
    pub checks: Vec<CheckResult>,
}

/// The value of a [`GuardianResult`].
pub struct GuardianResultView {
    pub proposal_id: u128,
    pub approved: bool,
    pub risk_score: u64,
    pub checks: Seq<CheckResult>,
}

impl View for GuardianResult {
    type V = GuardianResultView;

    open spec fn view(&self) -> GuardianResultView {
        GuardianResultView {
            proposal_id: self.proposal_id,
            approved: self.approved,
            risk_score: self.risk_score,
            checks: self.checks@,
        }
    }
}

impl Clone for GuardianResult {
    fn clone(&self) -> (r: Self)
        ensures
            r@ == self@,
    {
        let mut checks: Vec<CheckResult> = Vec::new();
        let mut i: usize = 0;
        while i < self.checks.len()
            invariant
                i <= self.checks.len(),
                checks@ == self.checks@.take(i as int),
            decreases self.checks.len() - i,
        {
            checks.push(self.checks[i].clone());
            i = i + 1;
            assert(checks@ =~= self.checks@.take(i as int));
        }
        assert(self.checks@.take(self.checks.len() as int) =~= self.checks@);
        GuardianResult {
            proposal_id: self.proposal_id,
            approved: self.approved,
            risk_score: self.risk_score,
            checks,
        }
    }
}

/// An x402 payment request intercepted from an agent's HTTP 402 flow.
#[derive(Debug)]
pub struct X402PaymentRequest {
    pub id: u128,
    pub agent_id: u128,
    pub recipient: String,
    /// Amount, micro-dollars.
    pub amount_usd: u64,
    pub currency: String,
    pub service_url: String,
    pub purpose: String,
    pub submitted_at: i64,
}

impl Clone for X402PaymentRequest {
    fn clone(&self) -> (r: Self)
        ensures
            r == *self,
    {
        X402PaymentRequest {
            id: self.id,
            agent_id: self.agent_id,
            recipient: self.recipient.clone(),
            amount_usd: self.amount_usd,
            currency: self.currency.clone(),
            service_url: self.service_url.clone(),
            purpose: self.purpose.clone(),
            submitted_at: self.submitted_at,
        }
    }
}

/// Guardian's verdict on an x402 payment.
#[derive(Debug)]
pub struct X402Verdict {
    pub payment_id: u128,
    pub approved: bool,
    pub risk_level: X402RiskLevel,
    pub reason: String,
    pub needs_human_review: bool,
}

/// A pending x402 payment awaiting human review on the dashboard.
#[derive(Debug)]
pub struct PendingX402Payment {
    pub payment: X402PaymentRequest,
    pub risk_level: X402RiskLevel,
    pub reason: String,
}

impl Clone for PendingX402Payment {
    fn clone(&self) -> (r: Self)
        ensures
            r == *self,
    {
        PendingX402Payment {
            payment: self.payment.clone(),
            risk_level: self.risk_level,
            reason: self.reason.clone(),
        }
    }
}

/// A credit proposal that passed scoring and awaits a human decision.
#[derive(Debug)]
pub struct PendingProposalInfo {
    pub proposal: CreditProposal,
    /// Score, thousandths of a point.
    pub score: u64,
    /// Amount the Banker recommends, micro-dollars.
    pub recommended_usd: u64,
    pub submitted_at: i64,
}

/// The value of a [`PendingProposalInfo`].
pub struct PendingProposalView {
    pub proposal: CreditProposalView,
    pub score: u64,
    pub recommended_usd: u64,
    pub submitted_at: i64,
}

impl View for PendingProposalInfo {
    type V = PendingProposalView;

    open spec fn view(&self) -> PendingProposalView {
        PendingProposalView {
            proposal: self.proposal@,
            score: self.score,
            recommended_usd: self.recommended_usd,
            submitted_at: self.submitted_at,
        }
    }
}

impl Clone for PendingProposalInfo {
    fn clone(&self) -> (r: Self)
        ensures
            r@ == self@,
    {
        PendingProposalInfo {
            proposal: self.proposal.clone(),
            score: self.score,
            recommended_usd: self.recommended_usd,
            submitted_at: self.submitted_at,
        }
    }
}

/// Events broadcast to the live dashboard. (Portfolio balance updates, which
/// carry floating-point balances, are emitted by the application itself.)
#[derive(Debug)]
#[allow(inconsistent_fields)]
pub enum DashboardEvent {
    AgentRegistered { agent: Agent },
    ProposalSubmitted { proposal: TradeProposal },
    GuardianVerdict { result: GuardianResult },
    TradeExecuted { proposal_id: u128, agent_id: u128, pair: String, side: TradeSide, amount_usd: u64 },
    TradeRejected { proposal_id: u128, agent_id: u128, reason: String },
    CreditProposalPending { proposal: CreditProposal, score: u64, recommended_usd: u64 },
    CreditApproved { credit_line: CreditLine },
    CreditRejectedByHuman { proposal_id: u128, agent_id: u128 },
    CreditRecalled { agent_id: u128, reason: String },
    CreditRepaid { agent_id: u128 },
    BudgetUpdate { agent_id: u128, spent_usd: u64, remaining_usd: u64 },
    X402PaymentPending { payment: X402PaymentRequest, risk: X402RiskLevel, reason: String },
    X402PaymentApproved { payment_id: u128, agent_id: u128 },
    X402PaymentBlocked { payment_id: u128, agent_id: u128, reason: String },
    Error { message: String },
}

/// State for the dashboard snapshot (the portfolio, held as floating-point
/// balances, is attached by the application).
#[derive(Debug)]
pub struct DashboardSnapshot {
    pub agents: Vec<Agent>,
    pub pending_proposals: Vec<PendingProposalInfo>,
    pub pending_x402_payments: Vec<PendingX402Payment>,
    pub active_credit_lines: Vec<CreditLine>,
    pub recent_proposals: Vec<TradeProposal>,
    pub recent_guardian_results: Vec<GuardianResult>,
    pub reputations: Vec<AgentReputation>,
    pub timestamp: i64,
}

/// A JSON-RPC 2.0 request.
#[derive(Debug)]
pub struct JsonRpcRequest {
    pub jsonrpc: String,
    pub id: serde_json::Value,
    pub method: String,
    pub params: serde_json::Value,
}

/// A JSON-RPC 2.0 error.
#[derive(Debug)]
pub struct JsonRpcError {
    pub code: i64,
    pub message: String,
    pub data: Option<serde_json::Value>,
}

/// A JSON-RPC 2.0 response.
#[derive(Debug)]
pub struct JsonRpcResponse {
    pub jsonrpc: String,
    pub id: serde_json::Value,
    pub result: Option<serde_json::Value>,
    pub error: Option<JsonRpcError>,
}

impl JsonRpcResponse {
    /// A success response carrying `result`.
    pub fn success(id: serde_json::Value, result: serde_json::Value) -> (r: Self)
        ensures
            r.jsonrpc@ == "2.0"@,
            r.id == id,
            r.result == Some(result),
            r.error is None,
    {
        JsonRpcResponse { jsonrpc: String::from_str("2.0"), id, result: Some(result), error: None }
    }

    /// An error response with `code` and `message` and no data.
    pub fn error(id: serde_json::Value, code: i64, message: String) -> (r: Self)
        ensures
            r.jsonrpc@ == "2.0"@,
            r.id == id,
            r.result is None,
            r.error matches Some(e) && e.code == code && e.message == message && e.data is None,
    {
        JsonRpcResponse {
            jsonrpc: String::from_str("2.0"),
            id,
            result: None,
            error: Some(JsonRpcError { code, message, data: None }),
        }
    }
}

/// MCP tool manifest for capability advertisement.
#[derive(Debug)]
pub struct McpManifest {
    pub name: String,
    pub version: String,
    pub description: String,
    pub tools: Vec<McpTool>,
}

/// A single MCP tool definition.
#[derive(Debug)]
pub struct McpTool {
    pub name: String,
    pub description: String,
    /// JSON schema of the tool's arguments, as JSON text.
    pub parameters: String,
}

/// Global policy configuration for the guardian and x402 screening.
#[derive(Debug)]
pub struct PolicyConfig {
    /// Pairs allowed globally (if empty, all pairs are allowed).
    pub allowed_pairs: Vec<String>,
    /// Maximum per single trade across all agents, micro-dollars.
    pub max_single_trade_usd: u64,
    /// Minimum agent confidence to proceed, basis points.
    pub min_confidence: u64,
    /// Maximum trades per agent per hour.
    pub max_trades_per_hour: u32,
    /// Whitelisted DeFi contract addresses; a DeFi trade must name one.
    pub whitelisted_contracts: Vec<String>,
    /// DeFi contract methods considered safe; a named method must be one.
    pub safe_methods: Vec<String>,
    /// Anomaly detection: max proposals per agent per minute.
    pub max_proposals_per_minute: u32,
    /// Anomaly detection: max cumulative risk score, millionths of a point.
    pub max_cumulative_risk_score: u64,
    /// x402: known-good recipient addresses.
    pub x402_allowed_recipients: Vec<String>,
    /// x402: blocklisted recipient addresses.
    pub x402_blocked_recipients: Vec<String>,
    /// x402: max per single payment, micro-dollars.
    pub x402_max_payment_usd: u64,
}

/// The default policy: BTC, ETH and SOL against USDT, a $1 cap per trade and
/// per x402 payment, 40% minimum confidence, 20 trades an hour, 10 proposals a
/// minute, a cumulative risk threshold of 50, and swap/transfer/approve as the
/// safe contract methods.
pub open spec fn is_default_policy(p: PolicyConfig) -> bool {
    &&& p.allowed_pairs@.len() == 3
    &&& p.allowed_pairs@[0]@ == "BTC-USDT"@
    &&& p.allowed_pairs@[1]@ == "ETH-USDT"@
    &&& p.allowed_pairs@[2]@ == "SOL-USDT"@
    &&& p.max_single_trade_usd == 1_000_000
    &&& p.min_confidence == 4000
    &&& p.max_trades_per_hour == 20
    &&& p.whitelisted_contracts@.len() == 0
    &&& p.safe_methods@.len() == 3
    &&& p.safe_methods@[0]@ == "swap"@
    &&& p.safe_methods@[1]@ == "transfer"@
    &&& p.safe_methods@[2]@ == "approve"@
    &&& p.max_proposals_per_minute == 10
    &&& p.max_cumulative_risk_score == 50_000_000
    &&& p.x402_allowed_recipients@.len() == 0
    &&& p.x402_blocked_recipients@.len() == 0
    &&& p.x402_max_payment_usd == 1_000_000
}

impl Default for PolicyConfig {
    fn default() -> (r: Self)
        ensures
            is_default_policy(r),
    {
        PolicyConfig {
            allowed_pairs: vec![
                String::from_str("BTC-USDT"),
                String::from_str("ETH-USDT"),
                String::from_str("SOL-USDT"),
            ],
            max_single_trade_usd: 1_000_000,
            min_confidence: 4000,
            max_trades_per_hour: 20,
            whitelisted_contracts: Vec::new(),
            safe_methods: vec![
                String::from_str("swap"),
                String::from_str("transfer"),
                String::from_str("approve"),
            ],
            max_proposals_per_minute: 10,
            max_cumulative_risk_score: 50_000_000,
            x402_allowed_recipients: Vec::new(),
            x402_blocked_recipients: Vec::new(),
            x402_max_payment_usd: 1_000_000,
        }
    }
}

/// Unified error type.
#[derive(Debug)]
pub enum AppError {
    AgentNotRegistered(u128),
    NoCreditLine(u128),
    CreditLineExpired(u128),
    /// Requested and remaining amounts, micro-dollars.
    InsufficientCredit { requested: u64, remaining: u64 },
    GuardianRejected(String),
    ExecutionFailed(String),
    OkxError(String),
    SerdeError(String),
    IoError(String),
    Internal(String),
    X402Blocked(String),
    X402PendingReview(String),
    ProposalNotFound(u128),
    PaymentNotFound(u128),
}

/// The message of an error, as its `Display` would render it.
pub open spec fn error_text(e: AppError) -> Seq<char> {
    match e {
        AppError::AgentNotRegistered(id) => "Agent not registered: "@ + uuid_text(id),
        AppError::NoCreditLine(id) => "No active credit line for agent: "@ + uuid_text(id),
        AppError::CreditLineExpired(id) => "Credit line expired for agent: "@ + uuid_text(id),
        AppError::InsufficientCredit { requested, remaining } =>
            "Insufficient credit: requested "@ + crate::text::amount_text(requested as nat)
                + " but only "@ + crate::text::amount_text(remaining as nat) + " remaining"@,
        AppError::GuardianRejected(m) => "Guardian rejected proposal: "@ + m@,
        AppError::ExecutionFailed(m) => "Trade execution failed: "@ + m@,
        AppError::OkxError(m) => "OKX API error: "@ + m@,
        AppError::SerdeError(m) => "JSON serialization error: "@ + m@,
        AppError::IoError(m) => "IO error: "@ + m@,
        AppError::Internal(m) => "Internal error: "@ + m@,
        AppError::X402Blocked(m) => "x402 payment blocked: "@ + m@,
        AppError::X402PendingReview(m) => "x402 payment pending human review: "@ + m@,
        AppError::ProposalNotFound(id) => "Pending proposal not found: "@ + uuid_text(id),
        AppError::PaymentNotFound(id) => "Pending x402 payment not found: "@ + uuid_text(id),
    }
}

fn text_with(prefix: &str, tail: &str) -> (r: String)
    ensures
        r@ == prefix@ + tail@,
{
    let mut s = String::from_str(prefix);
    s.append(tail);
    s
}

impl AppError {
    /// The error's message.
    pub fn message(&self) -> (r: String)
        ensures
            r@ == error_text(*self),
    {
        match self {
            AppError::AgentNotRegistered(id) => text_with("Agent not registered: ", uuid_to_text(*id).as_str()),
            AppError::NoCreditLine(id) => text_with("No active credit line for agent: ", uuid_to_text(*id).as_str()),
            AppError::CreditLineExpired(id) => text_with("Credit line expired for agent: ", uuid_to_text(*id).as_str()),
            AppError::InsufficientCredit { requested, remaining } => {
                let mut s = String::from_str("Insufficient credit: requested ");
                crate::text::push_amount(&mut s, *requested);
                s.append(" but only ");
                crate::text::push_amount(&mut s, *remaining);
                s.append(" remaining");
                s
            },
            AppError::GuardianRejected(m) => text_with("Guardian rejected proposal: ", m.as_str()),
            AppError::ExecutionFailed(m) => text_with("Trade execution failed: ", m.as_str()),
            AppError::OkxError(m) => text_with("OKX API error: ", m.as_str()),
            AppError::SerdeError(m) => text_with("JSON serialization error: ", m.as_str()),
            AppError::IoError(m) => text_with("IO error: ", m.as_str()),
            AppError::Internal(m) => text_with("Internal error: ", m.as_str()),
            AppError::X402Blocked(m) => text_with("x402 payment blocked: ", m.as_str()),
            AppError::X402PendingReview(m) => text_with("x402 payment pending human review: ", m.as_str()),
            AppError::ProposalNotFound(id) => text_with("Pending proposal not found: ", uuid_to_text(*id).as_str()),
            AppError::PaymentNotFound(id) => text_with("Pending x402 payment not found: ", uuid_to_text(*id).as_str()),
        }
    }
}

} // verus!
