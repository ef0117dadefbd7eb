//! The MCP skill: the tool manifest, JSON-RPC routing, and what each tool
//! decides.
//!
//! The application reads JSON-RPC requests line by line, hands the tool
//! arguments over as plain values, executes approved trades and writes the
//! responses; every decision about a request is made here.

use vstd::prelude::*;
use crate::banker::{
    Banker, appended, deduct_refusal, deducted, evaluated, join_reasons, refund_done, registered, repay_done,
    with_status,
};
use crate::guardian::{Guardian, all_passed, audit_matches, check_outcomes, composite_risk, line_for, recorded_activity};
use crate::monitor::{Monitor, last_n, lemma_recent_window, recent_capacity};
use crate::bridge::{
    new_uuid, now_millis, parse_uuid_text, parse_utc_datetime, utc_datetime_millis, uuid_parse, uuid_text,
    uuid_to_text,
};
use crate::execution::x402::{intercept_x402, x402_risk};
use crate::types::{
    Agent, AgentReputation, AppError, CheckResult, Collateral, CreditDecision, CreditLine, CreditLineView, CreditProposal,
    CreditProposalView, CreditStatus, DashboardEvent, GuardianResult, McpManifest, McpTool,
    PolicyConfig, RepaymentTrigger, TradeProposal, TradeSide, X402PaymentRequest, X402RiskLevel, X402Verdict,
    error_text, is_default_policy,
};

verus! {

/// The tools the skill offers, in manifest order.
#[derive(Debug, Clone, Copy, PartialEq, Eq, Structural)]
pub enum Tool {
    AgentRegister,
    RequestCredit,
    ProposeTrade,
    RepayCredit,
    GetPortfolio,
    ListProposals,
    GetRiskScore,
    GetCreditLine,
    SubmitX402Payment,
}

/// The name under which a tool is called.
pub open spec fn tool_name(t: Tool) -> Seq<char> {
    match t {
        Tool::AgentRegister => "agent_register"@,
        Tool::RequestCredit => "request_credit"@,
        Tool::ProposeTrade => "propose_trade"@,
        Tool::RepayCredit => "repay_credit"@,
        Tool::GetPortfolio => "get_portfolio"@,
        Tool::ListProposals => "list_proposals"@,
        Tool::GetRiskScore => "get_risk_score"@,
        Tool::GetCreditLine => "get_credit_line"@,
        Tool::SubmitX402Payment => "submit_x402_payment"@,
    }
}

/// The tool a name calls, if any.
pub open spec fn tool_named(name: Seq<char>) -> Option<Tool> {
    if name == "agent_register"@ {
        Some(Tool::AgentRegister)
    } else if name == "request_credit"@ {
        Some(Tool::RequestCredit)
    } else if name == "propose_trade"@ {
        Some(Tool::ProposeTrade)
    } else if name == "repay_credit"@ {
        Some(Tool::RepayCredit)
    } else if name == "get_portfolio"@ {
        Some(Tool::GetPortfolio)
    } else if name == "list_proposals"@ {
        Some(Tool::ListProposals)
    } else if name == "get_risk_score"@ {
        Some(Tool::GetRiskScore)
    } else if name == "get_credit_line"@ {
        Some(Tool::GetCreditLine)
    } else if name == "submit_x402_payment"@ {
        Some(Tool::SubmitX402Payment)
    } else {
        None
    }
}

/// The tools of the manifest, in order.
pub open spec fn manifest_tools() -> Seq<Tool> {
    seq![
        Tool::AgentRegister,
        Tool::RequestCredit,
        Tool::ProposeTrade,
        Tool::RepayCredit,
        Tool::GetPortfolio,
        Tool::ListProposals,
        Tool::GetRiskScore,
        Tool::GetCreditLine,
        Tool::SubmitX402Payment,
    ]
}

/// The description a tool is advertised with.
pub open spec fn tool_description(t: Tool) -> Seq<char> {
    match t {
        Tool::AgentRegister => "Register an agent. No trades possible without registration."@,
        Tool::RequestCredit => "Submit a CreditProposal to the Banker for scoring and approval."@,
        Tool::ProposeTrade => "Submit a trade proposal. Runs through Guardian before execution."@,
        Tool::RepayCredit => "Signal repayment. Closes the active credit line."@,
        Tool::GetPortfolio => "Read current portfolio balances."@,
        Tool::ListProposals => "List recent trade proposals with guardian results."@,
        Tool::GetRiskScore => "Get the current rolling risk score for an agent."@,
        Tool::GetCreditLine => "Read the active credit line state for an agent."@,
        Tool::SubmitX402Payment =>
            "Submit an x402 payment for guardian review. Suspicious payments require human approval."@,
    }
}

/// The JSON schema of a tool's arguments.
pub open spec fn tool_schema(t: Tool) -> Seq<char> {
    match t {
        Tool::AgentRegister => AGENT_REGISTER_SCHEMA@,
        Tool::RequestCredit => REQUEST_CREDIT_SCHEMA@,
        Tool::ProposeTrade => PROPOSE_TRADE_SCHEMA@,
        Tool::RepayCredit => AGENT_ID_SCHEMA@,
        Tool::GetPortfolio => EMPTY_SCHEMA@,
        Tool::ListProposals => LIST_PROPOSALS_SCHEMA@,
        Tool::GetRiskScore => AGENT_ID_SCHEMA@,
        Tool::GetCreditLine => AGENT_ID_SCHEMA@,
        Tool::SubmitX402Payment => SUBMIT_X402_SCHEMA@,
    }
}

/// Arguments of `agent_register`.
pub const AGENT_REGISTER_SCHEMA: &'static str = "{\"type\":\"object\",\"properties\":{\"name\":{\"type\":\"string\",\"description\":\"Agent display name\"},\"evm_address\":{\"type\":\"string\",\"description\":\"Optional EVM address (0x-prefixed) for on-chain treasury credit grants\"}},\"required\":[\"name\"]}";

/// Arguments of `request_credit`.
pub const REQUEST_CREDIT_SCHEMA: &'static str = "{\"type\":\"object\",\"properties\":{\"agent_id\":{\"type\":\"string\",\"description\":\"UUID of registered agent\"},\"requested_usd\":{\"type\":\"number\"},\"max_loss_usd\":{\"type\":\"number\"},\"target_return_pct\":{\"type\":\"number\"},\"window_start\":{\"type\":\"string\",\"format\":\"date-time\"},\"window_end\":{\"type\":\"string\",\"format\":\"date-time\"},\"strategy\":{\"type\":\"string\"},\"allowed_pairs\":{\"type\":\"array\",\"items\":{\"type\":\"string\"}},\"max_single_trade_usd\":{\"type\":\"number\"},\"repayment_trigger\":{\"type\":\"string\",\"enum\":[\"profit_target\",\"stop_loss\",\"time_expiry\",\"manual\"]},\"collateral_asset\":{\"type\":\"string\"},\"collateral_amount\":{\"type\":\"number\"}},\"required\":[\"agent_id\",\"requested_usd\",\"max_loss_usd\",\"target_return_pct\",\"window_end\",\"strategy\",\"allowed_pairs\",\"max_single_trade_usd\"]}";

/// Arguments of `propose_trade`.
pub const PROPOSE_TRADE_SCHEMA: &'static str = "{\"type\":\"object\",\"properties\":{\"agent_id\":{\"type\":\"string\"},\"pair\":{\"type\":\"string\"},\"side\":{\"type\":\"string\",\"enum\":[\"buy\",\"sell\"]},\"amount_usd\":{\"type\":\"number\"},\"confidence\":{\"type\":\"number\"},\"reasoning\":{\"type\":\"string\"},\"contract_address\":{\"type\":\"string\"},\"contract_method\":{\"type\":\"string\"}},\"required\":[\"agent_id\",\"pair\",\"side\",\"amount_usd\",\"confidence\",\"reasoning\"]}";

/// Arguments of the tools that take only an agent.
pub const AGENT_ID_SCHEMA: &'static str = "{\"type\":\"object\",\"properties\":{\"agent_id\":{\"type\":\"string\"}},\"required\":[\"agent_id\"]}";

/// Arguments of `get_portfolio`: none.
pub const EMPTY_SCHEMA: &'static str = "{\"type\":\"object\",\"properties\":{}}";

/// Arguments of `list_proposals`.
pub const LIST_PROPOSALS_SCHEMA: &'static str = "{\"type\":\"object\",\"properties\":{\"limit\":{\"type\":\"integer\",\"default\":20}}}";

/// Arguments of `submit_x402_payment`.
pub const SUBMIT_X402_SCHEMA: &'static str = "{\"type\":\"object\",\"properties\":{\"agent_id\":{\"type\":\"string\"},\"recipient\":{\"type\":\"string\",\"description\":\"Recipient address (0x...)\"},\"amount_usd\":{\"type\":\"number\"},\"currency\":{\"type\":\"string\",\"default\":\"USDC\"},\"service_url\":{\"type\":\"string\",\"description\":\"URL of the service requesting payment\"},\"purpose\":{\"type\":\"string\",\"description\":\"What the payment is for\"}},\"required\":[\"agent_id\",\"recipient\",\"amount_usd\",\"service_url\",\"purpose\"]}";

/// JSON-RPC code of a malformed request line.
pub const PARSE_ERROR: i64 = -32700;

/// JSON-RPC code of an unknown method or tool.
pub const METHOD_NOT_FOUND: i64 = -32601;

/// JSON-RPC code of missing or invalid arguments.
pub const INVALID_PARAMS: i64 = -32602;

/// JSON-RPC code of a failure while serving a valid request.
pub const SERVER_ERROR: i64 = -32000;

/// A refusal, answered as a JSON-RPC error.
#[derive(Debug)]
pub struct ToolError {
    pub code: i64,
    pub message: String,
}

/// Whether `r` is the refusal with `code` and `message`.
pub open spec fn refused<T>(r: Result<T, ToolError>, code: i64, message: Seq<char>) -> bool {
    r matches Err(e) && e.code == code && e.message@ == message
}

/// Where a JSON-RPC request goes.
#[derive(Debug)]
pub enum Route {
    /// Capability discovery: answer with the manifest.
    Manifest,
    /// Call a tool.
    Call(Tool),
    /// Answer with an error.
    Refused(ToolError),
}

fn tool_error(code: i64, message: &str) -> (r: ToolError)
    ensures
        r.code == code,
        r.message@ == message@,
{
    ToolError { code, message: String::from_str(message) }
}

fn tool_error_with(code: i64, prefix: &str, tail: &str) -> (r: ToolError)
    ensures
        r.code == code,
        r.message@ == prefix@ + tail@,
{
    let mut message = String::from_str(prefix);
    message.append(tail);
    ToolError { code, message }
}

/// Whether two texts are equal.
fn same_text(a: &str, b: &str) -> (r: bool)
    ensures
        r == (a@ == b@),
{
    String::from_str(a) == String::from_str(b)
}

fn tool_entry(t: Tool) -> (r: McpTool)
    ensures
        r.name@ == tool_name(t),
        r.description@ == tool_description(t),
        r.parameters@ == tool_schema(t),
{
    let (name, description, parameters) = match t {
        Tool::AgentRegister => (
            "agent_register",
            "Register an agent. No trades possible without registration.",
            AGENT_REGISTER_SCHEMA,
        ),
        Tool::RequestCredit => (
            "request_credit",
            "Submit a CreditProposal to the Banker for scoring and approval.",
            REQUEST_CREDIT_SCHEMA,
        ),
        Tool::ProposeTrade => (
            "propose_trade",
            "Submit a trade proposal. Runs through Guardian before execution.",
            PROPOSE_TRADE_SCHEMA,
        ),
        Tool::RepayCredit => ("repay_credit", "Signal repayment. Closes the active credit line.", AGENT_ID_SCHEMA),
        Tool::GetPortfolio => ("get_portfolio", "Read current portfolio balances.", EMPTY_SCHEMA),
        Tool::ListProposals => (
            "list_proposals",
            "List recent trade proposals with guardian results.",
            LIST_PROPOSALS_SCHEMA,
        ),
        Tool::GetRiskScore => ("get_risk_score", "Get the current rolling risk score for an agent.", AGENT_ID_SCHEMA),
        Tool::GetCreditLine => (
            "get_credit_line",
            "Read the active credit line state for an agent.",
            AGENT_ID_SCHEMA,
        ),
        Tool::SubmitX402Payment => (
            "submit_x402_payment",
            "Submit an x402 payment for guardian review. Suspicious payments require human approval.",
            SUBMIT_X402_SCHEMA,
        ),
    };
    McpTool {
        name: String::from_str(name),
        description: String::from_str(description),
        parameters: String::from_str(parameters),
    }
}

/// The manifest advertising the nine tools, in order, each with its
/// description and argument schema.
pub fn build_manifest() -> (r: McpManifest)
    ensures
        r.name@ == "openclaw-aibank"@,
        r.version@ == "0.1.0"@,
        r.description@ == "Supervised agentic trading \u{2014} borrow, trade, repay"@,
        r.tools@.len() == manifest_tools().len(),
        forall|i: int| 0 <= i < manifest_tools().len() ==> {
            &&& (#[trigger] r.tools@[i]).name@ == tool_name(manifest_tools()[i])
            &&& r.tools@[i].description@ == tool_description(manifest_tools()[i])
            &&& r.tools@[i].parameters@ == tool_schema(manifest_tools()[i])
        },
{
    let tools = vec![
        tool_entry(Tool::AgentRegister),
        tool_entry(Tool::RequestCredit),
        tool_entry(Tool::ProposeTrade),
        tool_entry(Tool::RepayCredit),
        tool_entry(Tool::GetPortfolio),
        tool_entry(Tool::ListProposals),
        tool_entry(Tool::GetRiskScore),
        tool_entry(Tool::GetCreditLine),
        tool_entry(Tool::SubmitX402Payment),
    ];
    McpManifest {
        name: String::from_str("openclaw-aibank"),
        version: String::from_str("0.1.0"),
        description: String::from_str("Supervised agentic trading \u{2014} borrow, trade, repay"),
        tools,
    }
}

/// The tool a name calls (see [`tool_named`]).
fn tool_from_name(name: &str) -> (r: Option<Tool>)
    ensures
        r == tool_named(name@),
{
    if same_text(name, "agent_register") {
        Some(Tool::AgentRegister)
    } else if same_text(name, "request_credit") {
        Some(Tool::RequestCredit)
    } else if same_text(name, "propose_trade") {
        Some(Tool::ProposeTrade)
    } else if same_text(name, "repay_credit") {
        Some(Tool::RepayCredit)
    } else if same_text(name, "get_portfolio") {
        Some(Tool::GetPortfolio)
    } else if same_text(name, "list_proposals") {
        Some(Tool::ListProposals)
    } else if same_text(name, "get_risk_score") {
        Some(Tool::GetRiskScore)
    } else if same_text(name, "get_credit_line") {
        Some(Tool::GetCreditLine)
    } else if same_text(name, "submit_x402_payment") {
        Some(Tool::SubmitX402Payment)
    } else {
        None
    }
}

/// Route a JSON-RPC request by its method and, for `tools/call`, the tool
/// name in its parameters: `initialize` and `tools/list` answer with the
/// manifest; `tools/call` calls the named tool, refusing a missing name
/// (-32602) or an unknown one (-32601); any other method is not found
/// (-32601).
pub fn route(method: &str, tool_name: Option<&str>) -> (r: Route)
    ensures
        method@ == "initialize"@ || method@ == "tools/list"@ ==> r is Manifest,
        method@ != "initialize"@ && method@ != "tools/list"@ && method@ == "tools/call"@ ==> match tool_name {
            None => r matches Route::Refused(e) && e.code == INVALID_PARAMS
                && e.message@ == "Missing tool name in params"@,
            Some(n) => match tool_named(n@) {
                Some(t) => r matches Route::Call(u) && u == t,
                None => r matches Route::Refused(e) && e.code == METHOD_NOT_FOUND
                    && e.message@ == "Unknown tool: "@ + n@,
            },
        },
        method@ != "initialize"@ && method@ != "tools/list"@ && method@ != "tools/call"@ ==> (r matches Route::Refused(e)
            && e.code == METHOD_NOT_FOUND && e.message@ == "Method not found: "@ + method@),
{
    if same_text(method, "initialize") || same_text(method, "tools/list") {
        Route::Manifest
    } else if same_text(method, "tools/call") {
        match tool_name {
            None => Route::Refused(tool_error(INVALID_PARAMS, "Missing tool name in params")),
            Some(n) => match tool_from_name(n) {
                Some(t) => Route::Call(t),
                None => Route::Refused(tool_error_with(METHOD_NOT_FOUND, "Unknown tool: ", n)),
            },
        }
    } else {
        Route::Refused(tool_error_with(METHOD_NOT_FOUND, "Method not found: ", method))
    }
}

/// The agent id an argument gives: the UUID it holds, or why there is none.
pub open spec fn uuid_arg(value: Option<String>, field: Seq<char>) -> Result<u128, Seq<char>> {
    match value {
        None => Err("Missing required parameter: "@ + field),
        Some(v) => match uuid_parse(v@) {
            Ok(id) => Ok(id),
            Err(e) => Err("Invalid UUID for "@ + field + ": "@ + e),
        },
    }
}

/// Read a UUID argument (see [`uuid_arg`]).
pub fn parse_uuid_arg(value: &Option<String>, field: &str) -> (r: Result<u128, String>)
    ensures
        match uuid_arg(*value, field@) {
            Ok(id) => r matches Ok(x) && x == id,
            Err(m) => r matches Err(e) && e@ == m,
        },
{
    match value {
        None => {
            let mut m = String::from_str("Missing required parameter: ");
            m.append(field);
            Err(m)
        },
        Some(v) => match parse_uuid_text(v.as_str()) {
            Ok(id) => Ok(id),
            Err(e) => {
                let mut m = String::from_str("Invalid UUID for ");
                m.append(field);
                m.append(": ");
                m.append(e.as_str());
                Err(m)
            },
        },
    }
}

/// Read the `agent_id` argument of a tool call, refusing (-32602) one that is
/// missing or not a UUID.
fn agent_id_arg(value: &Option<String>) -> (r: Result<u128, ToolError>)
    ensures
        match uuid_arg(*value, "agent_id"@) {
            Ok(id) => r matches Ok(x) && x == id,
            Err(m) => refused(r, INVALID_PARAMS, m),
        },
{
    match parse_uuid_arg(value, "agent_id") {
        Ok(id) => Ok(id),
        Err(message) => Err(ToolError { code: INVALID_PARAMS, message }),
    }
}

/// `agent_register`: register an agent under `name`, with the EVM address it
/// gave, if any. Refused (-32602) without a name, with nothing changed.
pub fn agent_register(banker: &mut Banker, name: Option<String>, evm_address: Option<String>) -> (r: Result<Agent, ToolError>)
    requires
        old(banker).wf(),
    ensures
        final(banker).wf(),
        name is None ==> refused(r, INVALID_PARAMS, "Missing required parameter: name"@)
            && *final(banker) == *old(banker),
        name matches Some(n) ==> (r matches Ok(agent) && registered(*old(banker), *final(banker), n, evm_address, agent)),
{
    match name {
        None => Err(tool_error(INVALID_PARAMS, "Missing required parameter: name")),
        Some(n) => Ok(banker.register_agent(n, evm_address)),
    }
}

/// An optional amount, zero when absent.
pub open spec fn or_zero(v: Option<u64>) -> u64 {
    match v {
        Some(x) => x,
        None => 0,
    }
}

/// An optional text, empty when absent.
pub open spec fn or_empty(v: Option<String>) -> Seq<char> {
    match v {
        Some(s) => s@,
        None => Seq::empty(),
    }
}

/// The instant an optional date-time text gives, if it is one.
pub open spec fn instant_of(v: Option<String>) -> Option<i64> {
    match v {
        Some(t) => utc_datetime_millis(t@),
        None => None,
    }
}

fn amount_or_zero(v: Option<u64>) -> (r: u64)
    ensures
        r == or_zero(v),
{
    match v {
        Some(x) => x,
        None => 0,
    }
}

fn text_or_empty(v: Option<String>) -> (r: String)
    ensures
        r@ == or_empty(v),
{
    match v {
        Some(s) => s,
        None => String::new(),
    }
}

fn instant_arg(v: &Option<String>) -> (r: Option<i64>)
    ensures
        r == instant_of(*v),
{
    match v {
        Some(t) => parse_utc_datetime(t.as_str()),
        None => None,
    }
}

/// Arguments of `request_credit`, as read from the call: amounts in
/// micro-dollars, the target return in basis points, dates as RFC 3339 text.
#[derive(Debug)]
pub struct CreditRequestArgs {
    pub agent_id: Option<String>,
    pub requested_usd: Option<u64>,
    pub max_loss_usd: Option<u64>,
    pub target_return_pct: Option<u64>,
    pub window_start: Option<String>,
    pub window_end: Option<String>,
    pub strategy: Option<String>,
    pub allowed_pairs: Option<Vec<String>>,
    pub max_single_trade_usd: Option<u64>,
    pub repayment_trigger: Option<String>,
    pub collateral_asset: Option<String>,
    pub collateral_amount: Option<u64>,
}

/// Why a `request_credit` call is refused, if it is: an agent id that is
/// missing or not a UUID, an agent that is not registered, or a missing or
/// unreadable end of the window; all with code -32602.
pub open spec fn credit_request_refusal(agents: Map<u128, Agent>, args: CreditRequestArgs) -> Option<Seq<char>> {
    match uuid_arg(args.agent_id, "agent_id"@) {
        Err(m) => Some(m),
        Ok(id) => if !agents.contains_key(id) {
            Some("Agent "@ + uuid_text(id) + " is not registered"@)
        } else if instant_of(args.window_end) is None {
            Some("Missing or invalid window_end"@)
        } else {
            None
        },
    }
}

/// The repayment trigger a call names (`manual` when it names none or an
/// unknown one); the profit target and stop-loss carry the call's target
/// return and maximum loss.
pub open spec fn trigger_of(args: CreditRequestArgs) -> RepaymentTrigger {
    let name = match args.repayment_trigger {
        Some(t) => t@,
        None => "manual"@,
    };
    if name == "profit_target"@ {
        RepaymentTrigger::ProfitTarget { pct: or_zero(args.target_return_pct) }
    } else if name == "stop_loss"@ {
        RepaymentTrigger::StopLoss { loss_usd: or_zero(args.max_loss_usd) }
    } else if name == "time_expiry"@ {
        RepaymentTrigger::TimeExpiry
    } else {
        RepaymentTrigger::Manual
    }
}

/// The credit proposal a `request_credit` call makes, submitted at `now`
/// under `id`: absent amounts are zero, an absent or unreadable window start
/// is `now`, absent texts and lists are empty, and collateral is staked at
/// `now` when an asset is named.
pub open spec fn credit_proposal_of(args: CreditRequestArgs, agent_id: u128, id: u128, now: i64) -> CreditProposalView {
    CreditProposalView {
        id,
        agent_id,
        submitted_at: now,
        requested_usd: or_zero(args.requested_usd),
        max_loss_usd: or_zero(args.max_loss_usd),
        target_return_pct: or_zero(args.target_return_pct),
        window_start: match instant_of(args.window_start) {
            Some(t) => t,
            None => now,
        },
        window_end: instant_of(args.window_end)->0,
        strategy: or_empty(args.strategy),
        allowed_pairs: match args.allowed_pairs {
            Some(v) => v@,
            None => Seq::empty(),
        },
        max_single_trade_usd: or_zero(args.max_single_trade_usd),
        repayment_trigger: trigger_of(args),
        collateral: match args.collateral_asset {
            Some(asset) => Some(Collateral { asset, amount: or_zero(args.collateral_amount), locked_at: now }),
            None => None,
        },
    }
}

/// The proposal `request_credit` builds carries what the call gives: its id,
/// agent and submission time; each amount, the strategy and the allowed pairs
/// as given (zero or empty when absent); the window as given (its start `now`
/// when absent or unreadable); collateral in the named asset, locked at
/// `now`; and the named repayment trigger with the call's own target or
/// stop-loss (manual when none or an unknown one is named).
pub proof fn lemma_credit_proposal_carries_args(args: CreditRequestArgs, agent_id: u128, id: u128, now: i64)
    ensures
        ({
            let p = credit_proposal_of(args, agent_id, id, now);
            &&& p.id == id && p.agent_id == agent_id && p.submitted_at == now
            &&& args.allowed_pairs matches Some(v) ==> p.allowed_pairs == v@
            &&& args.allowed_pairs is None ==> p.allowed_pairs.len() == 0
            &&& args.strategy matches Some(t) ==> p.strategy == t@
            &&& args.strategy is None ==> p.strategy.len() == 0
            &&& args.requested_usd matches Some(a) ==> p.requested_usd == a
            &&& args.requested_usd is None ==> p.requested_usd == 0
            &&& args.max_loss_usd matches Some(a) ==> p.max_loss_usd == a
            &&& args.max_loss_usd is None ==> p.max_loss_usd == 0
            &&& args.target_return_pct matches Some(a) ==> p.target_return_pct == a
            &&& args.target_return_pct is None ==> p.target_return_pct == 0
            &&& args.max_single_trade_usd matches Some(a) ==> p.max_single_trade_usd == a
            &&& args.max_single_trade_usd is None ==> p.max_single_trade_usd == 0
            &&& (args.window_end is Some && utc_datetime_millis(args.window_end->0@) is Some) ==> p.window_end == utc_datetime_millis(args.window_end->0@)->0
            &&& (args.window_start is Some && utc_datetime_millis(args.window_start->0@) is Some) ==> p.window_start == utc_datetime_millis(args.window_start->0@)->0
            &&& (args.window_start is None || utc_datetime_millis(args.window_start->0@) is None) ==> p.window_start == now
            &&& args.collateral_asset is None ==> p.collateral is None
            &&& args.collateral_asset matches Some(a) ==> (p.collateral matches Some(c) && c.asset == a && c.locked_at == now
                && (args.collateral_amount matches Some(n) ==> c.amount == n)
                && (args.collateral_amount is None ==> c.amount == 0))
            &&& (args.repayment_trigger matches Some(t) && t@ == "profit_target"@)
                ==> p.repayment_trigger == RepaymentTrigger::ProfitTarget { pct: p.target_return_pct }
            &&& (args.repayment_trigger matches Some(t) && t@ == "stop_loss"@)
                ==> p.repayment_trigger == RepaymentTrigger::StopLoss { loss_usd: p.max_loss_usd }
            &&& (args.repayment_trigger matches Some(t) && t@ == "time_expiry"@)
                ==> p.repayment_trigger == RepaymentTrigger::TimeExpiry
            &&& (args.repayment_trigger is None || (args.repayment_trigger matches Some(t) && t@ != "profit_target"@
                && t@ != "stop_loss"@ && t@ != "time_expiry"@)) ==> p.repayment_trigger == RepaymentTrigger::Manual
        }),
{
    reveal_strlit("profit_target");
    reveal_strlit("stop_loss");
    reveal_strlit("time_expiry");
    reveal_strlit("manual");
    assert("stop_loss"@ != "profit_target"@) by { assert("stop_loss"@[0] != "profit_target"@[0]); }
    assert("time_expiry"@ != "profit_target"@) by { assert("time_expiry"@[0] != "profit_target"@[0]); }
    assert("time_expiry"@ != "stop_loss"@) by { assert("time_expiry"@[0] != "stop_loss"@[0]); }
    assert("manual"@ != "profit_target"@) by { assert("manual"@[0] != "profit_target"@[0]); }
    assert("manual"@ != "stop_loss"@) by { assert("manual"@[0] != "stop_loss"@[0]); }
    assert("manual"@ != "time_expiry"@) by { assert("manual"@[0] != "time_expiry"@[0]); }
}

/// A credit request that scores high enough is queued for a human with the
/// pairs the call named: a line approved from it allows those pairs and no
/// others.
pub proof fn lemma_request_credit_queues_given_pairs(
    b0: Banker,
    b1: Banker,
    args: CreditRequestArgs,
    agent_id: u128,
    id: u128,
    now: i64,
    d: CreditDecision,
)
    requires
        evaluated(b0, b1, credit_proposal_of(args, agent_id, id, now), d),
        d.approved,
    ensures
        b1.pending().contains_key(id),
        args.allowed_pairs matches Some(v) ==> b1.pending()[id].proposal.allowed_pairs == v@,
        args.allowed_pairs is None ==> b1.pending()[id].proposal.allowed_pairs.len() == 0,
{
    lemma_credit_proposal_carries_args(args, agent_id, id, now);
}

fn repayment_trigger_arg(name: &Option<String>, target_return_pct: u64, max_loss_usd: u64) -> (r: RepaymentTrigger)
    ensures
        ({
            let n = match *name { Some(t) => t@, None => "manual"@ };
            r == if n == "profit_target"@ {
                RepaymentTrigger::ProfitTarget { pct: target_return_pct }
            } else if n == "stop_loss"@ {
                RepaymentTrigger::StopLoss { loss_usd: max_loss_usd }
            } else if n == "time_expiry"@ {
                RepaymentTrigger::TimeExpiry
            } else {
                RepaymentTrigger::Manual
            }
        }),
{
    let n: &str = match name {
        Some(t) => t.as_str(),
        None => "manual",
    };
    if same_text(n, "profit_target") {
        RepaymentTrigger::ProfitTarget { pct: target_return_pct }
    } else if same_text(n, "stop_loss") {
        RepaymentTrigger::StopLoss { loss_usd: max_loss_usd }
    } else if same_text(n, "time_expiry") {
        RepaymentTrigger::TimeExpiry
    } else {
        RepaymentTrigger::Manual
    }
}

fn credit_proposal_from(args: CreditRequestArgs, agent_id: u128, window_end: i64, id: u128, now: i64) -> (p: CreditProposal)
    requires
        instant_of(args.window_end) == Some(window_end),
    ensures
        p@ == credit_proposal_of(args, agent_id, id, now),
{
    let ghost a = args;
    let requested_usd = amount_or_zero(args.requested_usd);
    let max_loss_usd = amount_or_zero(args.max_loss_usd);
    let target_return_pct = amount_or_zero(args.target_return_pct);
    let window_start = match instant_arg(&args.window_start) {
        Some(t) => t,
        None => now,
    };
    let repayment_trigger = repayment_trigger_arg(&args.repayment_trigger, target_return_pct, max_loss_usd);
    let allowed_pairs = match args.allowed_pairs {
        Some(v) => v,
        None => Vec::new(),
    };
    let collateral = match args.collateral_asset {
        Some(asset) => Some(Collateral { asset, amount: amount_or_zero(args.collateral_amount), locked_at: now }),
        None => None,
    };
    let p = CreditProposal {
        id,
        agent_id,
        submitted_at: now,
        requested_usd,
        max_loss_usd,
        target_return_pct,
        window_start,
        window_end,
        strategy: text_or_empty(args.strategy),
        allowed_pairs,
        max_single_trade_usd: amount_or_zero(args.max_single_trade_usd),
        repayment_trigger,
        collateral,
    };
    assert(p@ =~= credit_proposal_of(a, agent_id, id, now));
    p
}

fn not_registered(agent_id: u128) -> (r: ToolError)
    ensures
        r.code == INVALID_PARAMS,
        r.message@ == "Agent "@ + uuid_text(agent_id) + " is not registered"@,
{
    let mut message = String::from_str("Agent ");
    message.append(uuid_to_text(agent_id).as_str());
    message.append(" is not registered");
    ToolError { code: INVALID_PARAMS, message }
}

/// `request_credit` at time `now`, the proposal taking id `proposal_id`:
/// refused with nothing changed as [`credit_request_refusal`] says;
/// otherwise the proposal of [`credit_proposal_of`] is scored and queued or
/// rejected as [`Banker::evaluate`] does.
pub fn request_credit_at(banker: &mut Banker, args: CreditRequestArgs, proposal_id: u128, now: i64) -> (r: Result<CreditDecision, ToolError>)
    requires
        old(banker).wf(),
    ensures
        final(banker).wf(),
        credit_request_refusal(old(banker).agents(), args) matches Some(m) ==> refused(r, INVALID_PARAMS, m)
            && *final(banker) == *old(banker),
        credit_request_refusal(old(banker).agents(), args) is None ==> (r matches Ok(d) && evaluated(
            *old(banker),
            *final(banker),
            credit_proposal_of(args, uuid_arg(args.agent_id, "agent_id"@)->Ok_0, proposal_id, now),
            d,
        )),
{
    let agent_id = match agent_id_arg(&args.agent_id) {
        Ok(id) => id,
        Err(e) => {
            return Err(e);
        },
    };
    if !banker.is_registered(agent_id) {
        return Err(not_registered(agent_id));
    }
    let window_end = match instant_arg(&args.window_end) {
        Some(t) => t,
        None => {
            return Err(tool_error(INVALID_PARAMS, "Missing or invalid window_end"));
        },
    };
    let proposal = credit_proposal_from(args, agent_id, window_end, proposal_id, now);
    Ok(banker.evaluate(&proposal))
}

/// `request_credit` now, under a fresh proposal id (see
/// [`request_credit_at`]).
pub fn request_credit(banker: &mut Banker, args: CreditRequestArgs) -> (r: Result<CreditDecision, ToolError>)
    requires
        old(banker).wf(),
    ensures
        final(banker).wf(),
        credit_request_refusal(old(banker).agents(), args) matches Some(m) ==> refused(r, INVALID_PARAMS, m)
            && *final(banker) == *old(banker),
        credit_request_refusal(old(banker).agents(), args) is None ==> (r matches Ok(d) && exists|id: u128, now: i64|
            evaluated(
                *old(banker),
                *final(banker),
                #[trigger] credit_proposal_of(args, uuid_arg(args.agent_id, "agent_id"@)->Ok_0, id, now),
                d,
            )),
{
    let id = new_uuid();
    let now = now_millis();
    request_credit_at(banker, args, id, now)
}

/// The hard cap on a single trade or x402 payment, in micro-dollars: one
/// dollar, whatever the agent asks for.
pub const HARD_CAP_USD: u64 = 1_000_000;

/// An optional amount, zero when absent, held to the hard cap.
pub open spec fn capped(v: Option<u64>) -> u64 {
    if or_zero(v) > HARD_CAP_USD { HARD_CAP_USD } else { or_zero(v) }
}

fn capped_amount(v: Option<u64>) -> (r: u64)
    ensures
        r == capped(v),
{
    let a = amount_or_zero(v);
    if a > HARD_CAP_USD { HARD_CAP_USD } else { a }
}

/// Arguments of `propose_trade`, as read from the call: the amount in
/// micro-dollars, the confidence in basis points.
#[derive(Debug)]
pub struct TradeArgs {
    pub agent_id: Option<String>,
    pub pair: Option<String>,
    pub side: Option<String>,
    pub amount_usd: Option<u64>,
    pub confidence: Option<u64>,
    pub reasoning: Option<String>,
    pub contract_address: Option<String>,
    pub contract_method: Option<String>,
}

/// The side a call names: `buy` or `sell`.
pub open spec fn side_of(side: Option<String>) -> Option<TradeSide> {
    match side {
        Some(s) => if s@ == "buy"@ {
            Some(TradeSide::Buy)
        } else if s@ == "sell"@ {
            Some(TradeSide::Sell)
        } else {
            None
        },
        None => None,
    }
}

/// Why a `propose_trade` call is refused before any check runs, if it is: an
/// agent id that is missing or not a UUID, an agent that is not registered,
/// or a side other than `buy` and `sell`; all with code -32602.
pub open spec fn trade_refusal(agents: Map<u128, Agent>, args: TradeArgs) -> Option<Seq<char>> {
    match uuid_arg(args.agent_id, "agent_id"@) {
        Err(m) => Some(m),
        Ok(id) => if !agents.contains_key(id) {
            Some("Agent "@ + uuid_text(id) + " is not registered"@)
        } else if side_of(args.side) is None {
            Some("Invalid or missing side (must be 'buy' or 'sell')"@)
        } else {
            None
        },
    }
}

/// Whether `p` is the trade proposal a `propose_trade` call makes, submitted
/// at `now` under `id`: absent texts are empty, an absent amount or
/// confidence is zero, and the amount is held to the hard cap.
pub open spec fn trade_matches(p: TradeProposal, args: TradeArgs, agent_id: u128, id: u128, now: i64) -> bool {
    &&& p.id == id
    &&& p.agent_id == agent_id
    &&& p.submitted_at == now
    &&& p.pair@ == or_empty(args.pair)
    &&& side_of(args.side) == Some(p.side)
    &&& p.amount_usd == capped(args.amount_usd)
    &&& p.confidence == or_zero(args.confidence)
    &&& p.reasoning@ == or_empty(args.reasoning)
    &&& p.contract_address == args.contract_address
    &&& p.contract_method == args.contract_method
}

/// The reasons of the failed checks, `name: detail`, in order.
pub open spec fn failed_checks_text(checks: Seq<CheckResult>) -> Seq<Seq<char>>
    decreases checks.len(),
{
    if checks.len() == 0 {
        Seq::empty()
    } else {
        let rest = failed_checks_text(checks.drop_last());
        let c = checks.last();
        if c.passed { rest } else { rest.push(c.name@ + ": "@ + c.detail@) }
    }
}

/// The texts of a list of strings.
pub open spec fn texts(v: Seq<String>) -> Seq<Seq<char>> {
    v.map_values(|x: String| x@)
}

/// What happens to a trade.
#[derive(Debug)]
pub enum TradeStep {
    /// The Guardian rejected it; `reasons` lists the failed checks.
    Rejected { proposal: TradeProposal, result: GuardianResult, reasons: Vec<String> },
    /// Approved and, for a buy, paid for from the credit line: execute it.
    Execute { proposal: TradeProposal, result: GuardianResult },
}

/// What screening the trade proposal `p` at `now` does. The proposal and the
/// Guardian's verdict are recorded and the Guardian's activity for the agent
/// is updated. The events come out in one order: `ProposalSubmitted`, then
/// the events the Guardian held, ending with its `GuardianVerdict`, then
/// what follows from the verdict. A rejected trade is
/// answered with the failed checks and a `TradeRejected` event; an approved
/// sell goes to execution; an approved buy is first charged to the credit
/// line, and refused (-32000) with nothing charged where the line cannot pay.
pub open spec fn screened(
    ob: Banker,
    nb: Banker,
    og: Guardian,
    ng: Guardian,
    om: Monitor,
    nm: Monitor,
    p: TradeProposal,
    now: i64,
    r: Result<TradeStep, ToolError>,
) -> bool {
    let agent_id = p.agent_id;
    let outs = check_outcomes(og.policy(), ob.line_table(), og.activity_of(agent_id), p, now as int);
    let heard = ob.events().push(DashboardEvent::ProposalSubmitted { proposal: p }) + og.events();
    let submitted = heard.push(nb.events()[heard.len() as int]);
    &&& nm.proposals() == last_n(om.proposals().push(p), recent_capacity())
    &&& ng.policy() == og.policy()
    &&& ng.activity() == og.activity().insert(
        agent_id,
        recorded_activity(og.activity_of(agent_id), now, composite_risk(outs)),
    )
    &&& ng.events().len() == 0
    &&& nb.events().len() > heard.len()
    &&& nb.events()[heard.len() as int] matches DashboardEvent::GuardianVerdict { result }
    &&& result.proposal_id == p.id
    &&& audit_matches(result@, outs)
    &&& nm.results() == last_n(om.results().push(result@), recent_capacity())
    &&& !all_passed(outs) ==> {
        &&& r matches Ok(TradeStep::Rejected { proposal, result: v, reasons })
        &&& proposal == p
        &&& v@ == result@
        &&& texts(reasons@) == failed_checks_text(result@.checks)
        &&& nb.same_books(&ob)
        &&& nb.events().len() == submitted.len() + 1
        &&& nb.events().drop_last() == submitted
        &&& nb.events().last() matches DashboardEvent::TradeRejected { proposal_id, agent_id: a, reason }
        &&& proposal_id == p.id
        &&& a == agent_id
        &&& reason@ == join_reasons(failed_checks_text(result@.checks))
    }
    &&& all_passed(outs) && p.side == TradeSide::Sell ==> {
        &&& r matches Ok(TradeStep::Execute { proposal, result: v }) && proposal == p && v@ == result@
        &&& nb.same_books(&ob)
        &&& nb.events() == submitted
    }
    &&& all_passed(outs) && p.side == TradeSide::Buy ==> match deduct_refusal(ob.lines(), agent_id, p.amount_usd) {
        Some(e) => {
            &&& refused(r, SERVER_ERROR, "Credit deduction failed: "@ + error_text(e))
            &&& nb.same_books(&ob)
            &&& nb.events() == submitted
        },
        None => {
            let line = deducted(ob.lines()[agent_id], p.amount_usd);
            &&& r matches Ok(TradeStep::Execute { proposal, result: v }) && proposal == p && v@ == result@
            &&& nb.lines() == ob.lines().insert(agent_id, line)
            &&& nb.reputations() == ob.reputations()
            &&& nb.agents() == ob.agents()
            &&& nb.pending() == ob.pending()
            &&& nb.pending_payments() == ob.pending_payments()
            &&& nb.events() == submitted.push(DashboardEvent::BudgetUpdate {
                agent_id,
                spent_usd: line.spent_usd,
                remaining_usd: line.remaining_usd,
            })
        },
    }
}

fn side_arg(side: &Option<String>) -> (r: Option<TradeSide>)
    ensures
        r == side_of(*side),
{
    match side {
        Some(s) => if same_text(s.as_str(), "buy") {
            Some(TradeSide::Buy)
        } else if same_text(s.as_str(), "sell") {
            Some(TradeSide::Sell)
        } else {
            None
        },
        None => None,
    }
}

fn trade_proposal_from(args: TradeArgs, agent_id: u128, side: TradeSide, id: u128, now: i64) -> (p: TradeProposal)
    requires
        side_of(args.side) == Some(side),
    ensures
        trade_matches(p, args, agent_id, id, now),
{
    TradeProposal {
        id,
        agent_id,
        submitted_at: now,
        pair: text_or_empty(args.pair),
        side,
        amount_usd: capped_amount(args.amount_usd),
        confidence: amount_or_zero(args.confidence),
        reasoning: text_or_empty(args.reasoning),
        contract_address: args.contract_address,
        contract_method: args.contract_method,
    }
}

/// The reasons of the failed checks of a verdict, `name: detail`, in order.
pub fn failed_reasons(result: &GuardianResult) -> (r: Vec<String>)
    ensures
        texts(r@) == failed_checks_text(result@.checks),
{
    let mut r: Vec<String> = Vec::new();
    let mut i: usize = 0;
    while i < result.checks.len()
        invariant
            i <= result.checks@.len(),
            texts(r@) == failed_checks_text(result.checks@.take(i as int)),
        decreases result.checks@.len() - i,
    {
        let c = &result.checks[i];
        assert(result.checks@.take(i + 1).drop_last() =~= result.checks@.take(i as int));
        if !c.passed {
            let mut t = c.name.clone();
            t.append(": ");
            t.append(c.detail.as_str());
            r.push(t);
        }
        i = i + 1;
        assert(texts(r@) =~= failed_checks_text(result.checks@.take(i as int)));
    }
    assert(result.checks@.take(i as int) =~= result.checks@);
    r
}

/// The texts of a list joined with `; `.
pub fn join_texts(list: &Vec<String>) -> (r: String)
    ensures
        r@ == join_reasons(texts(list@)),
{
    let mut s = String::new();
    let mut i: usize = 0;
    while i < list.len()
        invariant
            i <= list@.len(),
            s@ == join_reasons(texts(list@).take(i as int)),
        decreases list@.len() - i,
    {
        assert(texts(list@).take(i + 1).drop_last() =~= texts(list@).take(i as int));
        if i > 0 {
            s.append("; ");
        }
        s.append(list[i].as_str());
        i = i + 1;
        assert(s@ =~= join_reasons(texts(list@).take(i as int)));
    }
    assert(texts(list@).take(i as int) =~= texts(list@));
    s
}

/// Screen a built trade proposal at `now` (see [`screened`]).
pub fn screen_trade(
    banker: &mut Banker,
    guardian: &mut Guardian,
    monitor: &mut Monitor,
    proposal: TradeProposal,
    now: i64,
) -> (r: Result<TradeStep, ToolError>)
    requires
        old(banker).wf(),
        old(guardian).wf(),
        old(monitor).wf(),
    ensures
        final(banker).wf(),
        final(guardian).wf(),
        final(monitor).wf(),
        screened(*old(banker), *final(banker), *old(guardian), *final(guardian), *old(monitor), *final(monitor), proposal, now, r),
{
    let agent_id = proposal.agent_id;
    let ghost p = proposal;
    let ghost outs = check_outcomes(
        old(guardian).policy(),
        old(banker).line_table(),
        old(guardian).activity_of(agent_id),
        p,
        now as int,
    );
    let ghost heard = old(banker).events().push(DashboardEvent::ProposalSubmitted { proposal: p }) + old(guardian).events();
    banker.emit(DashboardEvent::ProposalSubmitted { proposal: proposal.clone() });
    proof {
        assert(banker.lines() == old(banker).lines());
        assert(line_for(banker.line_table(), agent_id) == line_for(old(banker).line_table(), agent_id)) by {
            if old(banker).line_table().contains_key(agent_id) {
                assert(old(banker).lines().contains_key(agent_id));
                assert(banker.line_table()[agent_id]@ == banker.lines()[agent_id]);
            } else {
                assert(!old(banker).lines().contains_key(agent_id));
                assert(!banker.lines().contains_key(agent_id));
            }
        }
        assert(check_outcomes(old(guardian).policy(), banker.line_table(), old(guardian).activity_of(agent_id), p, now as int)
            =~= outs);
    }
    let result = guardian.verify_at(banker.credit_lines_read(), &proposal, now);
    let verdicts = guardian.take_events();
    banker.emit_all(verdicts);
    let ghost submitted = banker.events();
    monitor.record_proposal(proposal.clone());
    monitor.record_guardian_result(result.clone());
    proof {
        assert(banker.events() =~= heard.push(banker.events()[heard.len() as int]));
        assert(audit_matches(result@, outs));
        assert(result.approved == all_passed(outs));
    }
    if !result.approved {
        let reasons = failed_reasons(&result);
        let reason = join_texts(&reasons);
        banker.emit(DashboardEvent::TradeRejected { proposal_id: proposal.id, agent_id, reason });
        proof {
            assert(banker.events().drop_last() =~= submitted);
            assert(banker.same_books(old(banker)));
        }
        return Ok(TradeStep::Rejected { proposal, result, reasons });
    }
    if proposal.side == TradeSide::Buy {
        let ghost mid = *banker;
        assert(mid.lines() == old(banker).lines());
        match banker.deduct(agent_id, proposal.amount_usd) {
            Err(e) => {
                return Err(tool_error_with(SERVER_ERROR, "Credit deduction failed: ", e.message().as_str()));
            },
            Ok(()) => {
                proof {
                    assert(banker.events() =~= submitted.push(banker.events().last()));
                }
            },
        }
    }
    Ok(TradeStep::Execute { proposal, result })
}

/// `propose_trade` at time `now`, the proposal taking id `proposal_id`:
/// refused with nothing changed as [`trade_refusal`] says; otherwise the
/// proposal of [`trade_matches`] is screened as [`screened`] says.
pub fn propose_trade_at(
    banker: &mut Banker,
    guardian: &mut Guardian,
    monitor: &mut Monitor,
    args: TradeArgs,
    proposal_id: u128,
    now: i64,
) -> (r: Result<TradeStep, ToolError>)
    requires
        old(banker).wf(),
        old(guardian).wf(),
        old(monitor).wf(),
    ensures
        final(banker).wf(),
        final(guardian).wf(),
        final(monitor).wf(),
        trade_refusal(old(banker).agents(), args) matches Some(m) ==> {
            &&& refused(r, INVALID_PARAMS, m)
            &&& *final(banker) == *old(banker)
            &&& *final(guardian) == *old(guardian)
            &&& *final(monitor) == *old(monitor)
        },
        trade_refusal(old(banker).agents(), args) is None ==> {
            let p = final(monitor).proposals().last();
            &&& trade_matches(p, args, uuid_arg(args.agent_id, "agent_id"@)->Ok_0, proposal_id, now)
            &&& screened(*old(banker), *final(banker), *old(guardian), *final(guardian), *old(monitor), *final(monitor), p, now, r)
        },
{
    let agent_id = match agent_id_arg(&args.agent_id) {
        Ok(id) => id,
        Err(e) => {
            return Err(e);
        },
    };
    if !banker.is_registered(agent_id) {
        return Err(not_registered(agent_id));
    }
    let side = match side_arg(&args.side) {
        Some(s) => s,
        None => {
            return Err(tool_error(INVALID_PARAMS, "Invalid or missing side (must be 'buy' or 'sell')"));
        },
    };
    let proposal = trade_proposal_from(args, agent_id, side, proposal_id, now);
    let ghost p = proposal;
    proof { lemma_recent_window(old(monitor).proposals(), p); }
    screen_trade(banker, guardian, monitor, proposal, now)
}

/// `propose_trade` now, under a fresh proposal id (see
/// [`propose_trade_at`]).
pub fn propose_trade(
    banker: &mut Banker,
    guardian: &mut Guardian,
    monitor: &mut Monitor,
    args: TradeArgs,
) -> (r: Result<TradeStep, ToolError>)
    requires
        old(banker).wf(),
        old(guardian).wf(),
        old(monitor).wf(),
    ensures
        final(banker).wf(),
        final(guardian).wf(),
        final(monitor).wf(),
        trade_refusal(old(banker).agents(), args) matches Some(m) ==> {
            &&& refused(r, INVALID_PARAMS, m)
            &&& *final(banker) == *old(banker)
            &&& *final(guardian) == *old(guardian)
            &&& *final(monitor) == *old(monitor)
        },
        trade_refusal(old(banker).agents(), args) is None ==> exists|id: u128, now: i64| {
            &&& #[trigger] trade_matches(final(monitor).proposals().last(), args, uuid_arg(args.agent_id, "agent_id"@)->Ok_0, id, now)
            &&& screened(
                *old(banker),
                *final(banker),
                *old(guardian),
                *final(guardian),
                *old(monitor),
                *final(monitor),
                final(monitor).proposals().last(),
                now,
                r,
            )
        },
{
    let id = new_uuid();
    let now = now_millis();
    propose_trade_at(banker, guardian, monitor, args, id, now)
}

/// After an approved trade executed: a `TradeExecuted` event reports it.
pub fn trade_executed(banker: &mut Banker, proposal: &TradeProposal)
    requires
        old(banker).wf(),
    ensures
        final(banker).wf(),
        final(banker).same_books(old(banker)),
        appended(old(banker).events(), final(banker).events()),
        final(banker).events().last() matches DashboardEvent::TradeExecuted { proposal_id, agent_id, pair, side, amount_usd }
            && proposal_id == proposal.id && agent_id == proposal.agent_id && pair == proposal.pair
            && side == proposal.side && amount_usd == proposal.amount_usd,
{
    banker.emit(DashboardEvent::TradeExecuted {
        proposal_id: proposal.id,
        agent_id: proposal.agent_id,
        pair: proposal.pair.clone(),
        side: proposal.side,
        amount_usd: proposal.amount_usd,
    });
}

/// After an approved trade failed to execute: a buy's amount is returned to
/// the credit line (as [`Banker::refund`] does, whose result is given back);
/// a sell spent nothing and changes nothing.
pub fn trade_failed(banker: &mut Banker, proposal: &TradeProposal) -> (r: Result<(), AppError>)
    requires
        old(banker).wf(),
    ensures
        final(banker).wf(),
        proposal.side == TradeSide::Buy ==> refund_done(*old(banker), *final(banker), proposal.agent_id, proposal.amount_usd, r),
        proposal.side == TradeSide::Sell ==> r is Ok && *final(banker) == *old(banker),
{
    if proposal.side == TradeSide::Buy {
        banker.refund(proposal.agent_id, proposal.amount_usd)
    } else {
        Ok(())
    }
}

/// Arguments of `submit_x402_payment`, as read from the call: the amount in
/// micro-dollars.
#[derive(Debug)]
pub struct X402Args {
    pub agent_id: Option<String>,
    pub recipient: Option<String>,
    pub amount_usd: Option<u64>,
    pub currency: Option<String>,
    pub service_url: Option<String>,
    pub purpose: Option<String>,
}

/// Why a `submit_x402_payment` call is refused before screening, if it is: an
/// agent id that is missing or not a UUID, or an agent that is not
/// registered; both with code -32602.
pub open spec fn x402_refusal(agents: Map<u128, Agent>, args: X402Args) -> Option<Seq<char>> {
    match uuid_arg(args.agent_id, "agent_id"@) {
        Err(m) => Some(m),
        Ok(id) => if !agents.contains_key(id) {
            Some("Agent "@ + uuid_text(id) + " is not registered"@)
        } else {
            None
        },
    }
}

/// Whether `p` is the payment a `submit_x402_payment` call makes, submitted
/// at `now` under `id`: absent texts are empty, the currency is USDC unless
/// named, and the amount is held to the hard cap.
pub open spec fn payment_matches(p: X402PaymentRequest, args: X402Args, agent_id: u128, id: u128, now: i64) -> bool {
    &&& p.id == id
    &&& p.agent_id == agent_id
    &&& p.recipient@ == or_empty(args.recipient)
    &&& p.amount_usd == capped(args.amount_usd)
    &&& p.currency@ == match args.currency { Some(c) => c@, None => "USDC"@ }
    &&& p.service_url@ == or_empty(args.service_url)
    &&& p.purpose@ == or_empty(args.purpose)
    &&& p.submitted_at == now
}

/// The agent's line if it is active and unexpired at `now`.
pub open spec fn active_line_at(lines: Map<u128, CreditLineView>, agent_id: u128, now: int) -> Option<CreditLineView> {
    if lines.contains_key(agent_id) && lines[agent_id].status == CreditStatus::Active && now <= lines[agent_id].expires_at {
        Some(lines[agent_id])
    } else {
        None
    }
}

/// The lines after looking up the agent's active line at `now`: an active
/// line past its expiry is marked `Expired`.
pub open spec fn lines_after_lookup(lines: Map<u128, CreditLineView>, agent_id: u128, now: int) -> Map<u128, CreditLineView> {
    if lines.contains_key(agent_id) && lines[agent_id].status == CreditStatus::Active && now > lines[agent_id].expires_at {
        lines.insert(agent_id, with_status(lines[agent_id], CreditStatus::Expired))
    } else {
        lines
    }
}

/// What screening the x402 payment `p` at `now` under `policy` does. The
/// agent's active line is looked up (an expired one is marked so) and the
/// payment classified by [`x402_risk`]; the verdict carries that level and
/// reason. Low risk is charged to the line and announced approved, and
/// refused (-32000) with nothing charged where the line cannot pay; medium
/// risk is held for a human; high risk is announced blocked.
pub open spec fn x402_screened(
    ob: Banker,
    nb: Banker,
    p: X402PaymentRequest,
    policy: PolicyConfig,
    now: i64,
    r: Result<X402Verdict, ToolError>,
) -> bool {
    let agent_id = p.agent_id;
    let risk = x402_risk(p, active_line_at(ob.lines(), agent_id, now as int), policy);
    let mid = lines_after_lookup(ob.lines(), agent_id, now as int);
    &&& nb.reputations() == ob.reputations()
    &&& nb.agents() == ob.agents()
    &&& nb.pending() == ob.pending()
    &&& r matches Ok(v) ==> {
        &&& v.payment_id == p.id
        &&& v.risk_level == risk.0
        &&& v.reason@ == risk.1
        &&& v.approved == (risk.0 == X402RiskLevel::Low)
        &&& v.needs_human_review == (risk.0 == X402RiskLevel::Medium)
    }
    &&& risk.0 == X402RiskLevel::Low ==> match deduct_refusal(mid, agent_id, p.amount_usd) {
        Some(e) => {
            &&& refused(r, SERVER_ERROR, "x402 budget deduction failed: "@ + error_text(e))
            &&& nb.lines() == mid
            &&& nb.pending_payments() == ob.pending_payments()
            &&& nb.events() == ob.events()
        },
        None => {
            let line = deducted(mid[agent_id], p.amount_usd);
            &&& r is Ok
            &&& nb.lines() == mid.insert(agent_id, line)
            &&& nb.pending_payments() == ob.pending_payments()
            &&& nb.events() == ob.events().push(DashboardEvent::BudgetUpdate {
                agent_id,
                spent_usd: line.spent_usd,
                remaining_usd: line.remaining_usd,
            }).push(DashboardEvent::X402PaymentApproved { payment_id: p.id, agent_id })
        },
    }
    &&& risk.0 == X402RiskLevel::Medium ==> {
        &&& r is Ok
        &&& nb.lines() == mid
        &&& nb.pending_payments().contains_key(p.id)
        &&& nb.pending_payments() == ob.pending_payments().insert(p.id, nb.pending_payments()[p.id])
        &&& nb.pending_payments()[p.id].payment == p
        &&& nb.pending_payments()[p.id].risk_level == X402RiskLevel::Medium
        &&& nb.pending_payments()[p.id].reason@ == risk.1
        &&& appended(ob.events(), nb.events())
        &&& nb.events().last() matches DashboardEvent::X402PaymentPending { payment, risk: level, reason }
        &&& payment == p
        &&& level == X402RiskLevel::Medium
        &&& reason@ == risk.1
    }
    &&& risk.0 == X402RiskLevel::High ==> {
        &&& r is Ok
        &&& nb.lines() == mid
        &&& nb.pending_payments() == ob.pending_payments()
        &&& appended(ob.events(), nb.events())
        &&& nb.events().last() matches DashboardEvent::X402PaymentBlocked { payment_id, agent_id: a, reason }
        &&& payment_id == p.id
        &&& a == agent_id
        &&& reason@ == risk.1
    }
}

fn payment_from(args: X402Args, agent_id: u128, id: u128, now: i64) -> (p: X402PaymentRequest)
    ensures
        payment_matches(p, args, agent_id, id, now),
{
    let currency = match args.currency {
        Some(c) => c,
        None => String::from_str("USDC"),
    };
    X402PaymentRequest {
        id,
        agent_id,
        recipient: text_or_empty(args.recipient),
        amount_usd: capped_amount(args.amount_usd),
        currency,
        service_url: text_or_empty(args.service_url),
        purpose: text_or_empty(args.purpose),
        submitted_at: now,
    }
}

/// Screen a built x402 payment at `now` under `policy` (see [`x402_screened`]).
pub fn screen_x402(banker: &mut Banker, payment: X402PaymentRequest, policy: &PolicyConfig, now: i64) -> (r: Result<X402Verdict, ToolError>)
    requires
        old(banker).wf(),
    ensures
        final(banker).wf(),
        x402_screened(*old(banker), *final(banker), payment, *policy, now, r),
{
    let agent_id = payment.agent_id;
    let line = banker.get_active_line_at(agent_id, now);
    let ghost line_view = match &line { Some(l) => Some(l@), None => None::<CreditLineView> };
    assert(line_view == active_line_at(old(banker).lines(), agent_id, now as int));
    assert(banker.lines() == lines_after_lookup(old(banker).lines(), agent_id, now as int));
    let verdict = match intercept_x402(&payment, line.as_ref(), policy) {
        Ok(v) => v,
        Err(e) => {
            return Err(tool_error_with(SERVER_ERROR, "x402 interception error: ", e.message().as_str()));
        },
    };
    if verdict.approved {
        match banker.deduct(agent_id, payment.amount_usd) {
            Err(e) => {
                return Err(tool_error_with(SERVER_ERROR, "x402 budget deduction failed: ", e.message().as_str()));
            },
            Ok(()) => {},
        }
        let ghost charged = banker.events();
        banker.emit(DashboardEvent::X402PaymentApproved { payment_id: payment.id, agent_id });
        proof {
            assert(banker.events() =~= charged.push(DashboardEvent::X402PaymentApproved { payment_id: payment.id, agent_id }));
            assert(charged =~= old(banker).events().push(charged.last()));
        }
        Ok(verdict)
    } else if verdict.needs_human_review {
        banker.store_pending_x402(payment, verdict.risk_level, verdict.reason.clone());
        Ok(verdict)
    } else {
        banker.emit(DashboardEvent::X402PaymentBlocked {
            payment_id: payment.id,
            agent_id,
            reason: verdict.reason.clone(),
        });
        Ok(verdict)
    }
}

/// `submit_x402_payment` at time `now` under `policy`, the payment taking id
/// `payment_id`: refused with nothing changed as [`x402_refusal`] says;
/// otherwise the payment of [`payment_matches`] is screened as
/// [`x402_screened`] says.
pub fn submit_x402_at(
    banker: &mut Banker,
    args: X402Args,
    policy: &PolicyConfig,
    payment_id: u128,
    now: i64,
) -> (r: Result<X402Verdict, ToolError>)
    requires
        old(banker).wf(),
    ensures
        final(banker).wf(),
        x402_refusal(old(banker).agents(), args) matches Some(m) ==> refused(r, INVALID_PARAMS, m)
            && *final(banker) == *old(banker),
        x402_refusal(old(banker).agents(), args) is None ==> exists|p: X402PaymentRequest| {
            &&& #[trigger] payment_matches(p, args, uuid_arg(args.agent_id, "agent_id"@)->Ok_0, payment_id, now)
            &&& x402_screened(*old(banker), *final(banker), p, *policy, now, r)
        },
{
    let agent_id = match agent_id_arg(&args.agent_id) {
        Ok(id) => id,
        Err(e) => {
            return Err(e);
        },
    };
    if !banker.is_registered(agent_id) {
        return Err(not_registered(agent_id));
    }
    let payment = payment_from(args, agent_id, payment_id, now);
    let ghost p = payment;
    let r = screen_x402(banker, payment, policy, now);
    assert(payment_matches(p, args, agent_id, payment_id, now));
    r
}

/// `submit_x402_payment` now, under a fresh payment id and the default
/// policy (see [`submit_x402_at`]).
pub fn submit_x402(banker: &mut Banker, args: X402Args) -> (r: Result<X402Verdict, ToolError>)
    requires
        old(banker).wf(),
    ensures
        final(banker).wf(),
        x402_refusal(old(banker).agents(), args) matches Some(m) ==> refused(r, INVALID_PARAMS, m)
            && *final(banker) == *old(banker),
        x402_refusal(old(banker).agents(), args) is None ==> exists|p: X402PaymentRequest, policy: PolicyConfig, id: u128, now: i64| {
            &&& #[trigger] is_default_policy(policy)
            &&& #[trigger] payment_matches(p, args, uuid_arg(args.agent_id, "agent_id"@)->Ok_0, id, now)
            &&& x402_screened(*old(banker), *final(banker), p, policy, now, r)
        },
{
    let policy = PolicyConfig::default();
    let id = new_uuid();
    let now = now_millis();
    submit_x402_at(banker, args, &policy, id, now)
}

/// `repay_credit`: repay the agent's line as [`Banker::repay`] does, answered
/// with `Credit line repaid for agent <id>`. Refused (-32602) for an agent id
/// that is missing or not a UUID, and (-32000, `Repay failed: ` and the
/// error) where the agent has no line; both with nothing changed.
pub fn repay_credit(banker: &mut Banker, agent_id: Option<String>) -> (r: Result<String, ToolError>)
    requires
        old(banker).wf(),
    ensures
        final(banker).wf(),
        match uuid_arg(agent_id, "agent_id"@) {
            Err(m) => refused(r, INVALID_PARAMS, m) && *final(banker) == *old(banker),
            Ok(id) => {
                &&& repay_done(*old(banker), *final(banker), id, match r { Ok(_) => Ok(()), Err(_) => Err(AppError::NoCreditLine(id)) })
                &&& old(banker).lines().contains_key(id) ==> (r matches Ok(t) && t@ == "Credit line repaid for agent "@ + uuid_text(id))
                &&& !old(banker).lines().contains_key(id) ==> refused(r, SERVER_ERROR, "Repay failed: "@ + error_text(AppError::NoCreditLine(id)))
            },
        },
{
    let id = match agent_id_arg(&agent_id) {
        Ok(id) => id,
        Err(e) => {
            return Err(e);
        },
    };
    match banker.repay(id) {
        Ok(()) => {
            let mut t = String::from_str("Credit line repaid for agent ");
            t.append(uuid_to_text(id).as_str());
            Ok(t)
        },
        Err(e) => Err(tool_error_with(SERVER_ERROR, "Repay failed: ", e.message().as_str())),
    }
}

/// `get_risk_score`: the agent's reputation (a neutral one for an unknown
/// agent). Refused (-32602) for an agent id that is missing or not a UUID.
pub fn get_risk_score(banker: &Banker, agent_id: Option<String>) -> (r: Result<AgentReputation, ToolError>)
    requires
        banker.wf(),
    ensures
        match uuid_arg(agent_id, "agent_id"@) {
            Err(m) => refused(r, INVALID_PARAMS, m),
            Ok(id) => r == Ok::<AgentReputation, ToolError>(banker.reputation_of(id)),
        },
{
    let id = match agent_id_arg(&agent_id) {
        Ok(id) => id,
        Err(e) => {
            return Err(e);
        },
    };
    Ok(banker.reputation(id))
}

/// The answer to `get_credit_line`.
#[derive(Debug)]
pub enum LineReply {
    /// The agent's active line.
    Active(CreditLine),
    /// No active line: `No active credit line for agent <id>`.
    Missing(String),
}

/// `get_credit_line` at time `now`: the agent's active, unexpired line, or a
/// note that there is none (an active line past its expiry is marked
/// `Expired` on the way, as [`Banker::get_active_line_at`] does). Refused
/// (-32602) for an agent id that is missing or not a UUID, with nothing
/// changed.
pub fn get_credit_line_at(banker: &mut Banker, agent_id: Option<String>, now: i64) -> (r: Result<LineReply, ToolError>)
    requires
        old(banker).wf(),
    ensures
        final(banker).wf(),
        match uuid_arg(agent_id, "agent_id"@) {
            Err(m) => refused(r, INVALID_PARAMS, m) && *final(banker) == *old(banker),
            Ok(id) => {
                &&& final(banker).lines() == lines_after_lookup(old(banker).lines(), id, now as int)
                &&& final(banker).same_books_but_lines(old(banker))
                &&& final(banker).events() == old(banker).events()
                &&& match active_line_at(old(banker).lines(), id, now as int) {
                    Some(l) => r matches Ok(LineReply::Active(x)) && x@ == l,
                    None => r matches Ok(LineReply::Missing(t)) && t@ == "No active credit line for agent "@ + uuid_text(id),
                }
            },
        },
{
    let id = match agent_id_arg(&agent_id) {
        Ok(id) => id,
        Err(e) => {
            return Err(e);
        },
    };
    match banker.get_active_line_at(id, now) {
        Some(line) => Ok(LineReply::Active(line)),
        None => {
            let mut t = String::from_str("No active credit line for agent ");
            t.append(uuid_to_text(id).as_str());
            Ok(LineReply::Missing(t))
        },
    }
}

/// `get_credit_line` now (see [`get_credit_line_at`]).
pub fn get_credit_line(banker: &mut Banker, agent_id: Option<String>) -> (r: Result<LineReply, ToolError>)
    requires
        old(banker).wf(),
    ensures
        final(banker).wf(),
        match uuid_arg(agent_id, "agent_id"@) {
            Err(m) => refused(r, INVALID_PARAMS, m) && *final(banker) == *old(banker),
            Ok(id) => exists|now: int| {
                &&& final(banker).lines() == #[trigger] lines_after_lookup(old(banker).lines(), id, now)
                &&& final(banker).same_books_but_lines(old(banker))
                &&& final(banker).events() == old(banker).events()
                &&& match active_line_at(old(banker).lines(), id, now) {
                    Some(l) => r matches Ok(LineReply::Active(x)) && x@ == l,
                    None => r matches Ok(LineReply::Missing(t)) && t@ == "No active credit line for agent "@ + uuid_text(id),
                }
            },
        },
{
    let now = now_millis();
    get_credit_line_at(banker, agent_id, now)
}

/// `list_proposals`: the recent proposals and guardian verdicts, oldest
/// first.
pub fn list_proposals(monitor: &Monitor) -> (r: (Vec<TradeProposal>, Vec<GuardianResult>))
    ensures
        r.0@ == monitor.proposals(),
        r.1@.map_values(|x: GuardianResult| x@) == monitor.results(),
{
    (monitor.recent_proposals(), monitor.recent_results())
}

/// Every tool of the manifest is called by its advertised name.
pub proof fn lemma_manifest_names_route()
    ensures
        forall|i: int| 0 <= i < manifest_tools().len() ==> tool_named(tool_name(#[trigger] manifest_tools()[i]))
            == Some(manifest_tools()[i]),
{
    reveal_strlit("agent_register");
    reveal_strlit("request_credit");
    reveal_strlit("propose_trade");
    reveal_strlit("repay_credit");
    reveal_strlit("get_portfolio");
    reveal_strlit("list_proposals");
    reveal_strlit("get_risk_score");
    reveal_strlit("get_credit_line");
    reveal_strlit("submit_x402_payment");
    let names = seq![
        "agent_register"@,
        "request_credit"@,
        "propose_trade"@,
        "repay_credit"@,
        "get_portfolio"@,
        "list_proposals"@,
        "get_risk_score"@,
        "get_credit_line"@,
        "submit_x402_payment"@,
    ];
    assert(names[0].len() == 14 && names[0][0] == 'a');
    assert(names[1].len() == 14 && names[1][0] == 'r');
    assert(names[2].len() == 13 && names[2][0] == 'p');
    assert(names[3].len() == 12 && names[3][0] == 'r');
    assert(names[4].len() == 13 && names[4][0] == 'g');
    assert(names[5].len() == 14 && names[5][0] == 'l');
    assert(names[6].len() == 14 && names[6][0] == 'g');
    assert(names[7].len() == 15 && names[7][0] == 'g');
    assert(names[8].len() == 19 && names[8][0] == 's');
    assert forall|i: int| 0 <= i < manifest_tools().len() implies tool_named(tool_name(#[trigger] manifest_tools()[i]))
        == Some(manifest_tools()[i]) by {
        assert(tool_name(manifest_tools()[i]) == names[i]);
        assert forall|j: int| 0 <= j < i implies names[i] != names[j] by {
            assert(names[i].len() != names[j].len() || names[i][0] != names[j][0]);
        }
    }
}

/// No trade or x402 payment made through the skill exceeds the one-dollar
/// hard cap, whatever amount the agent asks for.
pub proof fn lemma_hard_cap(amount: Option<u64>)
    ensures
        capped(amount) <= HARD_CAP_USD,
        or_zero(amount) <= HARD_CAP_USD ==> capped(amount) == or_zero(amount),
{
}

/// Sells spend no credit: screening a sell never changes the credit lines.
pub proof fn lemma_sell_spends_nothing(
    ob: Banker,
    nb: Banker,
    og: Guardian,
    ng: Guardian,
    om: Monitor,
    nm: Monitor,
    p: TradeProposal,
    now: i64,
    r: Result<TradeStep, ToolError>,
)
    requires
        screened(ob, nb, og, ng, om, nm, p, now, r),
        p.side == TradeSide::Sell,
    ensures
        nb.lines() == ob.lines(),
{
}

/// A trade reaches execution only when the Guardian approved it, and a trade
/// changes the credit lines only when it is an approved buy, charged exactly
/// its amount.
pub proof fn lemma_execution_needs_approval(
    ob: Banker,
    nb: Banker,
    og: Guardian,
    ng: Guardian,
    om: Monitor,
    nm: Monitor,
    p: TradeProposal,
    now: i64,
    r: Result<TradeStep, ToolError>,
)
    requires
        screened(ob, nb, og, ng, om, nm, p, now, r),
    ensures
        ({
            let outs = check_outcomes(og.policy(), ob.line_table(), og.activity_of(p.agent_id), p, now as int);
            &&& r matches Ok(TradeStep::Execute { .. }) ==> all_passed(outs)
            &&& nb.lines() != ob.lines() ==> {
                &&& all_passed(outs)
                &&& p.side == TradeSide::Buy
                &&& nb.lines() == ob.lines().insert(p.agent_id, deducted(ob.lines()[p.agent_id], p.amount_usd))
            }
        }),
{
}

} // verus!
