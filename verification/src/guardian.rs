//! Six-check risk verification, run before every trade execution.
//!
//! Check order (never reordered): credit line, global policy, confidence,
//! rate limit, contract safety, anomaly. All six always run, so that the
//! result is a complete audit log; a proposal is approved only when every
//! check passes. The Guardian only reads credit lines.

use vstd::prelude::*;
use std::collections::HashMap;
use crate::bridge::now_millis;
use crate::text::{fixed1_text, usd_text, decimal_digits, push_decimal, push_fixed1, push_usd};
use crate::types::{
    CheckResult, CreditLine, CreditLineView, CreditStatus, DashboardEvent, GuardianResult,
    GuardianResultView, PolicyConfig, TradeProposal, TradeSide,
};

verus! {

/// One hour, in milliseconds.
pub open spec fn hour_ms() -> int {
    3_600_000
}

/// One minute, in milliseconds.
pub open spec fn minute_ms() -> int {
    60_000
}

/// The timestamps of `s` that fall within `window` before `now` (strictly
/// later than `now - window`), in order.
pub open spec fn recent(s: Seq<i64>, now: int, window: int) -> Seq<i64>
    decreases s.len(),
{
    if s.len() == 0 {
        Seq::empty()
    } else {
        let rest = recent(s.drop_last(), now, window);
        if s.last() + window > now { rest.push(s.last()) } else { rest }
    }
}

/// Whether a list of texts holds `x`.
pub open spec fn holds_text(list: Seq<String>, x: Seq<char>) -> bool {
    exists|i: int| 0 <= i < list.len() && list[i]@ == x
}

/// The `Debug` name of a credit status.
pub open spec fn status_name(s: CreditStatus) -> Seq<char> {
    match s {
        CreditStatus::Active => "Active"@,
        CreditStatus::Suspended => "Suspended"@,
        CreditStatus::Recalled => "Recalled"@,
        CreditStatus::Expired => "Expired"@,
        CreditStatus::Repaid => "Repaid"@,
    }
}

/// Basis points as a percentage rounded half up to tenths.
pub open spec fn percent_tenths(bp: nat) -> nat {
    (bp + 5) / 10
}

/// Millionths of a point rounded half up to tenths.
pub open spec fn risk_tenths(millionths: nat) -> nat {
    (millionths + 50_000) / 100_000
}

/// Check 1: an active, unexpired line that allows the pair, within the line's
/// per-trade limit and, for buys, within the remaining budget (sells return
/// capital and spend nothing).
pub open spec fn credit_check(line: Option<CreditLineView>, p: TradeProposal, now: int) -> (bool, Seq<char>) {
    match line {
        None => (false, "No credit line found for agent"@),
        Some(l) => {
            if l.status != CreditStatus::Active {
                (false, "Credit line status is "@ + status_name(l.status) + ", not Active"@)
            } else if now > l.expires_at {
                (false, "Credit line has expired"@)
            } else if l.conditions.allowed_pairs.len() > 0 && !holds_text(l.conditions.allowed_pairs, p.pair@) {
                (false, "Pair "@ + p.pair@ + " not in allowed pairs"@)
            } else if p.amount_usd > l.conditions.max_single_trade_usd {
                (false, "Trade "@ + usd_text(p.amount_usd as nat) + " exceeds single trade limit "@
                    + usd_text(l.conditions.max_single_trade_usd as nat))
            } else if p.side != TradeSide::Sell && p.amount_usd > l.remaining_usd {
                (false, "Trade "@ + usd_text(p.amount_usd as nat) + " exceeds remaining budget "@
                    + usd_text(l.remaining_usd as nat))
            } else {
                (true, "OK \u{2014} "@ + usd_text(l.remaining_usd as nat) + " remaining of "@
                    + usd_text(l.approved_usd as nat) + " approved"@)
            }
        },
    }
}

/// Check 2: the global pair whitelist (empty allows all) and per-trade limit.
pub open spec fn policy_check(policy: PolicyConfig, p: TradeProposal) -> (bool, Seq<char>) {
    if policy.allowed_pairs@.len() > 0 && !holds_text(policy.allowed_pairs@, p.pair@) {
        (false, "Pair "@ + p.pair@ + " not in global whitelist"@)
    } else if p.amount_usd > policy.max_single_trade_usd {
        (false, "Trade "@ + usd_text(p.amount_usd as nat) + " exceeds global limit "@
            + usd_text(policy.max_single_trade_usd as nat))
    } else {
        (true, "OK \u{2014} within global policy"@)
    }
}

/// Check 3: the agent's confidence reaches the minimum.
pub open spec fn confidence_check(policy: PolicyConfig, p: TradeProposal) -> (bool, Seq<char>) {
    if p.confidence < policy.min_confidence {
        (false, "Confidence "@ + fixed1_text(percent_tenths(p.confidence as nat)) + "% below minimum "@
            + fixed1_text(percent_tenths(policy.min_confidence as nat)) + "%"@)
    } else {
        (true, "OK \u{2014} confidence "@ + fixed1_text(percent_tenths(p.confidence as nat)) + "%"@)
    }
}

/// Check 4: fewer proposals in the last hour than the hourly limit.
pub open spec fn rate_check(policy: PolicyConfig, activity: Option<ActivityView>, now: int) -> (bool, Seq<char>) {
    match activity {
        None => (true, "OK \u{2014} first trade"@),
        Some(a) => {
            let count = recent(a.recent_proposals, now, hour_ms()).len();
            if count >= policy.max_trades_per_hour {
                (false, decimal_digits(count) + " trades in last hour, limit is "@
                    + decimal_digits(policy.max_trades_per_hour as nat))
            } else {
                (true, "OK \u{2014} "@ + decimal_digits(count) + "/"@ + decimal_digits(policy.max_trades_per_hour as nat)
                    + " trades in last hour"@)
            }
        },
    }
}

/// Check 5: for DeFi trades, the contract must be on the whitelist and the
/// method, if one is named, on the safe methods list; CEX trades pass.
pub open spec fn contract_check(policy: PolicyConfig, p: TradeProposal) -> (bool, Seq<char>) {
    match p.contract_address {
        None => (true, "OK \u{2014} CEX trade, no contract check needed"@),
        Some(c) => {
            if !holds_text(policy.whitelisted_contracts@, c@) {
                (false, "Contract "@ + c@ + " not in whitelist"@)
            } else if p.contract_method matches Some(m) && !holds_text(policy.safe_methods@, m@) {
                (false, "Method "@ + p.contract_method->0@ + " not in safe methods list"@)
            } else {
                (true, "OK \u{2014} contract and method whitelisted"@)
            }
        },
    }
}

/// Check 6: no burst of proposals in the last minute and a cumulative risk
/// score within the threshold.
pub open spec fn anomaly_check(policy: PolicyConfig, activity: Option<ActivityView>, now: int) -> (bool, Seq<char>) {
    match activity {
        None => (true, "OK \u{2014} no anomalies detected"@),
        Some(a) => {
            let burst = recent(a.recent_proposals, now, minute_ms()).len();
            if burst >= policy.max_proposals_per_minute {
                (false, "Proposal burst: "@ + decimal_digits(burst) + " in last minute (limit "@
                    + decimal_digits(policy.max_proposals_per_minute as nat) + ")"@)
            } else if a.cumulative_risk_score > policy.max_cumulative_risk_score {
                (false, "Cumulative risk score "@ + fixed1_text(risk_tenths(a.cumulative_risk_score as nat))
                    + " exceeds threshold "@ + fixed1_text(risk_tenths(policy.max_cumulative_risk_score as nat)))
            } else {
                (true, "OK \u{2014} no anomalies detected"@)
            }
        },
    }
}

/// Per-agent activity: timestamps of recent proposals and a rolling risk score.
#[derive(Debug)]
pub struct AgentActivity {
    pub recent_proposals: Vec<i64>,
    /// Rolling cumulative risk score, millionths of a point.
    pub cumulative_risk_score: u64,
}

/// The value of an [`AgentActivity`].
pub struct ActivityView {
    pub recent_proposals: Seq<i64>,
    pub cumulative_risk_score: u64,
}

impl View for AgentActivity {
    type V = ActivityView;

    open spec fn view(&self) -> ActivityView {
        ActivityView { recent_proposals: self.recent_proposals@, cumulative_risk_score: self.cumulative_risk_score }
    }
}

/// The credit line stored for an agent, as a value.
pub open spec fn line_for(table: Map<u128, CreditLine>, agent_id: u128) -> Option<CreditLineView> {
    if table.contains_key(agent_id) { Some(table[agent_id]@) } else { None }
}

/// The weight a failed check adds to the composite risk.
pub open spec fn weight(passed: bool, w: nat) -> nat {
    if passed { 0 } else { w }
}

/// Whether `r` is the audit of the six checks with the given outcomes, in order.
pub open spec fn audit_matches(r: GuardianResultView, outcomes: Seq<(bool, Seq<char>)>) -> bool {
    let names = seq![
        "check_credit_line"@,
        "check_policy"@,
        "check_confidence"@,
        "check_rate_limit"@,
        "check_contract_safety"@,
        "check_anomaly"@,
    ];
    &&& outcomes.len() == 6
    &&& r.checks.len() == 6
    &&& forall|i: int| 0 <= i < 6 ==> {
        &&& (#[trigger] r.checks[i]).name@ == names[i]
        &&& r.checks[i].passed == outcomes[i].0
        &&& r.checks[i].detail@ == outcomes[i].1
    }
    &&& r.risk_score == composite_risk(outcomes)
    &&& r.approved == all_passed(outcomes)
}

/// The composite risk of six check outcomes: 10, 5, 3, 4, 8 and 6 for the
/// failed checks in order.
pub open spec fn composite_risk(outcomes: Seq<(bool, Seq<char>)>) -> nat {
    weight(outcomes[0].0, 10) + weight(outcomes[1].0, 5) + weight(outcomes[2].0, 3)
        + weight(outcomes[3].0, 4) + weight(outcomes[4].0, 8) + weight(outcomes[5].0, 6)
}

/// Whether all six checks passed.
pub open spec fn all_passed(outcomes: Seq<(bool, Seq<char>)>) -> bool {
    outcomes[0].0 && outcomes[1].0 && outcomes[2].0 && outcomes[3].0 && outcomes[4].0 && outcomes[5].0
}

/// The outcomes of the six checks for a proposal, in order.
pub open spec fn check_outcomes(
    policy: PolicyConfig,
    table: Map<u128, CreditLine>,
    activity: Option<ActivityView>,
    p: TradeProposal,
    now: int,
) -> Seq<(bool, Seq<char>)> {
    seq![
        credit_check(line_for(table, p.agent_id), p, now),
        policy_check(policy, p),
        confidence_check(policy, p),
        rate_check(policy, activity, now),
        contract_check(policy, p),
        anomaly_check(policy, activity, now),
    ]
}

/// Activity after recording a proposal at `now` with composite risk `risk`:
/// timestamps older than an hour are dropped, `now` is added, and the rolling
/// score decays by 10% (rounded down) before the new risk is added.
pub open spec fn recorded_activity(a: Option<ActivityView>, now: i64, risk: nat) -> ActivityView {
    let (times, score) = match a {
        Some(a) => (a.recent_proposals, a.cumulative_risk_score as nat),
        None => (Seq::<i64>::empty(), 0nat),
    };
    ActivityView {
        recent_proposals: recent(times, now as int, hour_ms()).push(now),
        cumulative_risk_score: (score * 9 / 10 + risk * 1_000_000) as u64,
    }
}

/// Whether a list of strings holds `x`.
pub fn contains_text(list: &Vec<String>, x: &String) -> (r: bool)
    ensures
        r == holds_text(list@, x@),
{
    let mut i: usize = 0;
    while i < list.len()
        invariant
            i <= list@.len(),
            forall|j: int| 0 <= j < i ==> list@[j]@ != x@,
        decreases list@.len() - i,
    {
        if list[i] == *x {
            return true;
        }
        i = i + 1;
    }
    false
}

/// The timestamps of `s` within `window` milliseconds before `now`.
pub fn recent_times(s: &Vec<i64>, now: i64, window: i64) -> (r: Vec<i64>)
    ensures
        r@ == recent(s@, now as int, window as int),
{
    let mut r: Vec<i64> = Vec::new();
    let mut i: usize = 0;
    while i < s.len()
        invariant
            i <= s@.len(),
            r@ == recent(s@.take(i as int), now as int, window as int),
        decreases s@.len() - i,
    {
        assert(s@.take(i as int + 1).drop_last() =~= s@.take(i as int));
        if (s[i] as i128) + (window as i128) > now as i128 {
            r.push(s[i]);
        }
        i = i + 1;
    }
    assert(s@.take(s@.len() as int) =~= s@);
    r
}

fn check(name: &str, passed: bool, detail: String) -> (r: CheckResult)
    ensures
        r.name@ == name@,
        r.passed == passed,
        r.detail == detail,
{
    CheckResult { name: String::from_str(name), passed, detail }
}

fn text_of(parts: &str) -> (r: String)
    ensures
        r@ == parts@,
{
    String::from_str(parts)
}

fn status_text(s: CreditStatus) -> (r: &'static str)
    ensures
        r@ == status_name(s),
{
    match s {
        CreditStatus::Active => "Active",
        CreditStatus::Suspended => "Suspended",
        CreditStatus::Recalled => "Recalled",
        CreditStatus::Expired => "Expired",
        CreditStatus::Repaid => "Repaid",
    }
}

fn check_credit_line(line: Option<&CreditLine>, p: &TradeProposal, now: i64) -> (r: CheckResult)
    ensures
        r.name@ == "check_credit_line"@,
        (r.passed, r.detail@) == credit_check(
            match line { Some(l) => Some(l@), None => None },
            *p,
            now as int,
        ),
{
    let l = match line {
        None => {
            return check("check_credit_line", false, text_of("No credit line found for agent"));
        },
        Some(l) => l,
    };
    if l.status != CreditStatus::Active {
        let mut d = String::from_str("Credit line status is ");
        d.append(status_text(l.status));
        d.append(", not Active");
        return check("check_credit_line", false, d);
    }
    if now > l.expires_at {
        return check("check_credit_line", false, text_of("Credit line has expired"));
    }
    if l.conditions.allowed_pairs.len() > 0 && !contains_text(&l.conditions.allowed_pairs, &p.pair) {
        let mut d = String::from_str("Pair ");
        d.append(p.pair.as_str());
        d.append(" not in allowed pairs");
        return check("check_credit_line", false, d);
    }
    if p.amount_usd > l.conditions.max_single_trade_usd {
        let mut d = String::from_str("Trade ");
        push_usd(&mut d, p.amount_usd);
        d.append(" exceeds single trade limit ");
        push_usd(&mut d, l.conditions.max_single_trade_usd);
        return check("check_credit_line", false, d);
    }
    if p.side != TradeSide::Sell && p.amount_usd > l.remaining_usd {
        let mut d = String::from_str("Trade ");
        push_usd(&mut d, p.amount_usd);
        d.append(" exceeds remaining budget ");
        push_usd(&mut d, l.remaining_usd);
        return check("check_credit_line", false, d);
    }
    let mut d = String::from_str("OK \u{2014} ");
    push_usd(&mut d, l.remaining_usd);
    d.append(" remaining of ");
    push_usd(&mut d, l.approved_usd);
    d.append(" approved");
    check("check_credit_line", true, d)
}

fn check_policy(policy: &PolicyConfig, p: &TradeProposal) -> (r: CheckResult)
    ensures
        r.name@ == "check_policy"@,
        (r.passed, r.detail@) == policy_check(*policy, *p),
{
    if policy.allowed_pairs.len() > 0 && !contains_text(&policy.allowed_pairs, &p.pair) {
        let mut d = String::from_str("Pair ");
        d.append(p.pair.as_str());
        d.append(" not in global whitelist");
        return check("check_policy", false, d);
    }
    if p.amount_usd > policy.max_single_trade_usd {
        let mut d = String::from_str("Trade ");
        push_usd(&mut d, p.amount_usd);
        d.append(" exceeds global limit ");
        push_usd(&mut d, policy.max_single_trade_usd);
        return check("check_policy", false, d);
    }
    check("check_policy", true, text_of("OK \u{2014} within global policy"))
}

fn tenths_of_bp(bp: u64) -> (r: u64)
    ensures
        r as nat == percent_tenths(bp as nat),
{
    bp / 10 + if bp % 10 >= 5 { 1 } else { 0 }
}

fn tenths_of_millionths(m: u64) -> (r: u64)
    ensures
        r as nat == risk_tenths(m as nat),
{
    m / 100_000 + if m % 100_000 >= 50_000 { 1 } else { 0 }
}

fn check_confidence(policy: &PolicyConfig, p: &TradeProposal) -> (r: CheckResult)
    ensures
        r.name@ == "check_confidence"@,
        (r.passed, r.detail@) == confidence_check(*policy, *p),
{
    if p.confidence < policy.min_confidence {
        let mut d = String::from_str("Confidence ");
        push_fixed1(&mut d, tenths_of_bp(p.confidence));
        d.append("% below minimum ");
        push_fixed1(&mut d, tenths_of_bp(policy.min_confidence));
        d.append("%");
        return check("check_confidence", false, d);
    }
    let mut d = String::from_str("OK \u{2014} confidence ");
    push_fixed1(&mut d, tenths_of_bp(p.confidence));
    d.append("%");
    check("check_confidence", true, d)
}

fn check_rate_limit(policy: &PolicyConfig, activity: Option<&AgentActivity>, now: i64) -> (r: CheckResult)
    ensures
        r.name@ == "check_rate_limit"@,
        (r.passed, r.detail@) == rate_check(
            *policy,
            match activity { Some(a) => Some(a@), None => None },
            now as int,
        ),
{
    match activity {
        None => check("check_rate_limit", true, text_of("OK \u{2014} first trade")),
        Some(a) => {
            let count = recent_times(&a.recent_proposals, now, 3_600_000).len() as u64;
            let limit = policy.max_trades_per_hour as u64;
            if count >= limit {
                let mut d = String::new();
                push_decimal(&mut d, count);
                d.append(" trades in last hour, limit is ");
                push_decimal(&mut d, limit);
                check("check_rate_limit", false, d)
            } else {
                let mut d = String::from_str("OK \u{2014} ");
                push_decimal(&mut d, count);
                d.append("/");
                push_decimal(&mut d, limit);
                d.append(" trades in last hour");
                check("check_rate_limit", true, d)
            }
        },
    }
}

fn check_contract_safety(policy: &PolicyConfig, p: &TradeProposal) -> (r: CheckResult)
    ensures
        r.name@ == "check_contract_safety"@,
        (r.passed, r.detail@) == contract_check(*policy, *p),
{
    let contract = match &p.contract_address {
        None => {
            return check("check_contract_safety", true, text_of("OK \u{2014} CEX trade, no contract check needed"));
        },
        Some(c) => c,
    };
    if !contains_text(&policy.whitelisted_contracts, contract) {
        let mut d = String::from_str("Contract ");
        d.append(contract.as_str());
        d.append(" not in whitelist");
        return check("check_contract_safety", false, d);
    }
    match &p.contract_method {
        Some(m) => {
            if !contains_text(&policy.safe_methods, m) {
                let mut d = String::from_str("Method ");
                d.append(m.as_str());
                d.append(" not in safe methods list");
                return check("check_contract_safety", false, d);
            }
        },
        None => {},
    }
    check("check_contract_safety", true, text_of("OK \u{2014} contract and method whitelisted"))
}

fn check_anomaly(policy: &PolicyConfig, activity: Option<&AgentActivity>, now: i64) -> (r: CheckResult)
    ensures
        r.name@ == "check_anomaly"@,
        (r.passed, r.detail@) == anomaly_check(
            *policy,
            match activity { Some(a) => Some(a@), None => None },
            now as int,
        ),
{
    match activity {
        None => check("check_anomaly", true, text_of("OK \u{2014} no anomalies detected")),
        Some(a) => {
            let burst = recent_times(&a.recent_proposals, now, 60_000).len() as u64;
            let limit = policy.max_proposals_per_minute as u64;
            if burst >= limit {
                let mut d = String::from_str("Proposal burst: ");
                push_decimal(&mut d, burst);
                d.append(" in last minute (limit ");
                push_decimal(&mut d, limit);
                d.append(")");
                return check("check_anomaly", false, d);
            }
            if a.cumulative_risk_score > policy.max_cumulative_risk_score {
                let mut d = String::from_str("Cumulative risk score ");
                push_fixed1(&mut d, tenths_of_millionths(a.cumulative_risk_score));
                d.append(" exceeds threshold ");
                push_fixed1(&mut d, tenths_of_millionths(policy.max_cumulative_risk_score));
                return check("check_anomaly", false, d);
            }
            check("check_anomaly", true, text_of("OK \u{2014} no anomalies detected"))
        },
    }
}

fn audit(
    policy: &PolicyConfig,
    line: Option<&CreditLine>,
    activity: Option<&AgentActivity>,
    proposal: &TradeProposal,
    now: i64,
) -> (r: GuardianResult)
    ensures
        r.proposal_id == proposal.id,
        r.risk_score <= 36,
        audit_matches(r@, seq![
            credit_check(match line { Some(l) => Some(l@), None => None }, *proposal, now as int),
            policy_check(*policy, *proposal),
            confidence_check(*policy, *proposal),
            rate_check(*policy, match activity { Some(a) => Some(a@), None => None }, now as int),
            contract_check(*policy, *proposal),
            anomaly_check(*policy, match activity { Some(a) => Some(a@), None => None }, now as int),
        ]),
{
    let c1 = check_credit_line(line, proposal, now);
    let c2 = check_policy(policy, proposal);
    let c3 = check_confidence(policy, proposal);
    let c4 = check_rate_limit(policy, activity, now);
    let c5 = check_contract_safety(policy, proposal);
    let c6 = check_anomaly(policy, activity, now);
    let mut risk: u64 = 0;
    if !c1.passed { risk = risk + 10; }
    if !c2.passed { risk = risk + 5; }
    if !c3.passed { risk = risk + 3; }
    if !c4.passed { risk = risk + 4; }
    if !c5.passed { risk = risk + 8; }
    if !c6.passed { risk = risk + 6; }
    let approved = c1.passed && c2.passed && c3.passed && c4.passed && c5.passed && c6.passed;
    let checks = vec![c1, c2, c3, c4, c5, c6];
    GuardianResult { proposal_id: proposal.id, approved, risk_score: risk, checks }
}

/// The largest rolling risk score: with at most 36 points added per proposal
/// and a 10% decay, the score never exceeds 360 points.
pub open spec fn max_rolling_risk() -> nat {
    360_000_000
}

/// The Guardian verifies every trade proposal against six checks.
pub struct Guardian {
    policy: PolicyConfig,
    activity: HashMap<u128, AgentActivity>,
    events: Vec<DashboardEvent>,
}

impl Guardian {
    /// The global policy.
    pub closed spec fn policy(&self) -> PolicyConfig {
        self.policy
    }

    /// Per-agent activity, as values.
    pub closed spec fn activity(&self) -> Map<u128, ActivityView> {
        self.activity@.map_values(|a: AgentActivity| a@)
    }

    /// Events not yet taken for broadcast, oldest first.
    pub closed spec fn events(&self) -> Seq<DashboardEvent> {
        self.events@
    }

    /// The activity recorded for an agent, if any.
    pub open spec fn activity_of(&self, agent_id: u128) -> Option<ActivityView> {
        if self.activity().contains_key(agent_id) { Some(self.activity()[agent_id]) } else { None }
    }

    /// Rolling risk scores stay within their bound.
    pub open spec fn wf(&self) -> bool {
        forall|k: u128| #[trigger] self.activity().contains_key(k)
            ==> self.activity()[k].cumulative_risk_score <= max_rolling_risk()
    }

    /// A Guardian enforcing `policy`, with no recorded activity.
    pub fn new(policy: PolicyConfig) -> (r: Guardian)
        ensures
            r.wf(),
            r.policy() == policy,
            r.activity().is_empty(),
            r.events().len() == 0,
    {
        let r = Guardian { policy, activity: HashMap::new(), events: Vec::new() };
        assert(r.activity() =~= Map::empty());
        r
    }

    /// Run all six checks on a proposal at time `now`, against the agent's
    /// credit line in `lines`, then record the proposal in the agent's activity.
    /// The result lists the checks in order with their details; it is approved
    /// only if all pass, and its risk score adds 10, 5, 3, 4, 8 and 6 for the
    /// failed checks in that order.
    pub fn verify_at(&mut self, lines: &HashMap<u128, CreditLine>, proposal: &TradeProposal, now: i64) -> (r: GuardianResult)
        requires
            old(self).wf(),
        ensures
            final(self).wf(),
            r.proposal_id == proposal.id,
            verified(*old(self), *final(self), lines@, *proposal, now, r@),
    {
        let line = lines.get(&proposal.agent_id);
        let activity = self.activity.get(&proposal.agent_id);
        let ghost act = old(self).activity_of(proposal.agent_id);
        assert(match activity { Some(a) => Some(a@), None => None::<ActivityView> } == act) by {
            if activity is Some {
                assert(self.activity().contains_key(proposal.agent_id));
            }
        }
        assert(line_for(lines@, proposal.agent_id) == match line { Some(l) => Some(l@), None => None::<CreditLineView> });
        let result = audit(&self.policy, line, activity, proposal, now);
        let risk = result.risk_score;
        let (times, score) = match self.activity.remove(&proposal.agent_id) {
            Some(a) => (a.recent_proposals, a.cumulative_risk_score),
            None => (Vec::new(), 0),
        };
        let mut kept = recent_times(&times, now, 3_600_000);
        kept.push(now);
        proof {
            if old(self).activity().contains_key(proposal.agent_id) {
                assert(score <= max_rolling_risk());
            }
            assert(score as nat * 9 / 10 + risk as nat * 1_000_000 <= max_rolling_risk()) by (nonlinear_arith)
                requires score <= 360_000_000, risk <= 36;
        }
        let new_score = score / 10 * 9 + (score % 10) * 9 / 10 + risk * 1_000_000;
        assert(new_score as nat == score as nat * 9 / 10 + risk as nat * 1_000_000) by (nonlinear_arith)
            requires new_score == score / 10 * 9 + (score % 10) * 9 / 10 + risk * 1_000_000;
        self.activity.insert(proposal.agent_id, AgentActivity { recent_proposals: kept, cumulative_risk_score: new_score });
        self.events.push(DashboardEvent::GuardianVerdict { result: result.clone() });
        proof {
            assert(self.events@.drop_last() =~= old(self).events@);
            let rec = recorded_activity(act, now, risk as nat);
            assert(self.activity() =~= old(self).activity().insert(proposal.agent_id, rec));
            assert forall|k: u128| #[trigger] self.activity().contains_key(k)
                implies self.activity()[k].cumulative_risk_score <= max_rolling_risk() by {
                if k != proposal.agent_id {
                    assert(old(self).activity().contains_key(k));
                }
            }
        }
        result
    }

    /// Run all six checks on a proposal now (see [`Guardian::verify_at`]); the
    /// time is read from the clock.
    pub fn verify(&mut self, lines: &HashMap<u128, CreditLine>, proposal: &TradeProposal) -> (r: GuardianResult)
        requires
            old(self).wf(),
        ensures
            final(self).wf(),
            r.proposal_id == proposal.id,
            exists|now: i64| verified(*old(self), *final(self), lines@, *proposal, now, r@),
    {
        let now = now_millis();
        self.verify_at(lines, proposal, now)
    }

    /// Takes the events not yet broadcast, oldest first.
    pub fn take_events(&mut self) -> (r: Vec<DashboardEvent>)
        requires
            old(self).wf(),
        ensures
            final(self).wf(),
            r@ == old(self).events(),
            final(self).events().len() == 0,
            final(self).policy() == old(self).policy(),
            final(self).activity() == old(self).activity(),
    {
        let mut out: Vec<DashboardEvent> = Vec::new();
        std::mem::swap(&mut out, &mut self.events);
        assert(self.activity() == old(self).activity());
        out
    }
}

/// Verifying `p` at `now` against the lines in `table`: `r` is the audit of the
/// six checks against the agent's recorded activity, the proposal is recorded
/// in that activity with `r`'s risk score, the policy stays, and a
/// `GuardianVerdict` event announces `r`.
pub open spec fn verified(
    old: Guardian,
    new: Guardian,
    table: Map<u128, CreditLine>,
    p: TradeProposal,
    now: i64,
    r: GuardianResultView,
) -> bool {
    &&& new.policy() == old.policy()
    &&& audit_matches(r, check_outcomes(old.policy(), table, old.activity_of(p.agent_id), p, now as int))
    &&& new.activity() == old.activity().insert(
        p.agent_id,
        recorded_activity(old.activity_of(p.agent_id), now, r.risk_score as nat),
    )
    &&& appended_event(old.events(), new.events())
    &&& new.events().last() matches DashboardEvent::GuardianVerdict { result } && result@ == r
}

/// A verdict approves a trade only when the agent holds an active, unexpired
/// credit line whose per-trade limit covers the amount, the pair is one the
/// line allows (where it names any) and one the policy allows (where it names
/// any), the amount is within the global per-trade limit, the confidence
/// reaches the minimum, a buy fits in the remaining budget, a DeFi contract is
/// whitelisted and a named method safe, and the agent is within its hourly and
/// per-minute limits and its risk threshold.
pub proof fn lemma_approval_requires_line(
    r: GuardianResultView,
    policy: PolicyConfig,
    table: Map<u128, CreditLine>,
    activity: Option<ActivityView>,
    p: TradeProposal,
    now: int,
)
    requires
        audit_matches(r, check_outcomes(policy, table, activity, p, now)),
        r.approved,
    ensures
        table.contains_key(p.agent_id),
        table[p.agent_id].status == CreditStatus::Active,
        now <= table[p.agent_id].expires_at,
        p.amount_usd <= table[p.agent_id].conditions.max_single_trade_usd,
        p.side == TradeSide::Buy ==> p.amount_usd <= table[p.agent_id].remaining_usd,
        p.amount_usd <= policy.max_single_trade_usd,
        p.confidence >= policy.min_confidence,
        table[p.agent_id].conditions.allowed_pairs@.len() > 0 ==> exists|i: int|
            0 <= i < table[p.agent_id].conditions.allowed_pairs@.len()
                && #[trigger] table[p.agent_id].conditions.allowed_pairs@[i]@ == p.pair@,
        policy.allowed_pairs@.len() > 0 ==> exists|i: int|
            0 <= i < policy.allowed_pairs@.len() && #[trigger] policy.allowed_pairs@[i]@ == p.pair@,
        p.contract_address matches Some(c) ==> exists|i: int|
            0 <= i < policy.whitelisted_contracts@.len() && #[trigger] policy.whitelisted_contracts@[i]@ == c@,
        p.contract_address is Some && p.contract_method is Some ==> exists|i: int|
            0 <= i < policy.safe_methods@.len() && #[trigger] policy.safe_methods@[i]@ == p.contract_method->0@,
        activity matches Some(a) ==> {
            &&& recent(a.recent_proposals, now, hour_ms()).len() < policy.max_trades_per_hour
            &&& recent(a.recent_proposals, now, minute_ms()).len() < policy.max_proposals_per_minute
            &&& a.cumulative_risk_score <= policy.max_cumulative_risk_score
        },
{
    let outs = check_outcomes(policy, table, activity, p, now);
    assert(outs[0].0 && outs[1].0 && outs[2].0 && outs[3].0 && outs[4].0 && outs[5].0);
}

/// And conversely: where all of those hold, the verdict approves the trade
/// with a risk score of zero.
pub proof fn lemma_approval_when_all_hold(
    r: GuardianResultView,
    policy: PolicyConfig,
    table: Map<u128, CreditLine>,
    activity: Option<ActivityView>,
    p: TradeProposal,
    now: int,
)
    requires
        audit_matches(r, check_outcomes(policy, table, activity, p, now)),
        table.contains_key(p.agent_id),
        table[p.agent_id].status == CreditStatus::Active,
        now <= table[p.agent_id].expires_at,
        p.amount_usd <= table[p.agent_id].conditions.max_single_trade_usd,
        p.side == TradeSide::Buy ==> p.amount_usd <= table[p.agent_id].remaining_usd,
        p.amount_usd <= policy.max_single_trade_usd,
        p.confidence >= policy.min_confidence,
        table[p.agent_id].conditions.allowed_pairs@.len() > 0 ==> exists|i: int|
            0 <= i < table[p.agent_id].conditions.allowed_pairs@.len()
                && #[trigger] table[p.agent_id].conditions.allowed_pairs@[i]@ == p.pair@,
        policy.allowed_pairs@.len() > 0 ==> exists|i: int|
            0 <= i < policy.allowed_pairs@.len() && #[trigger] policy.allowed_pairs@[i]@ == p.pair@,
        p.contract_address matches Some(c) ==> exists|i: int|
            0 <= i < policy.whitelisted_contracts@.len() && #[trigger] policy.whitelisted_contracts@[i]@ == c@,
        p.contract_address is Some && p.contract_method is Some ==> exists|i: int|
            0 <= i < policy.safe_methods@.len() && #[trigger] policy.safe_methods@[i]@ == p.contract_method->0@,
        activity matches Some(a) ==> {
            &&& recent(a.recent_proposals, now, hour_ms()).len() < policy.max_trades_per_hour
            &&& recent(a.recent_proposals, now, minute_ms()).len() < policy.max_proposals_per_minute
            &&& a.cumulative_risk_score <= policy.max_cumulative_risk_score
        },
    ensures
        r.approved,
        r.risk_score == 0,
{
    let outs = check_outcomes(policy, table, activity, p, now);
    assert(outs[0].0 && outs[1].0 && outs[2].0 && outs[3].0 && outs[4].0 && outs[5].0);
}

/// The risk score adds 10, 5, 3, 4, 8 and 6 for a failed credit-line, policy,
/// confidence, rate-limit, contract and anomaly check, in that order, and the
/// verdict approves exactly when all six pass.
pub proof fn lemma_risk_is_weighted_failures(
    r: GuardianResultView,
    policy: PolicyConfig,
    table: Map<u128, CreditLine>,
    activity: Option<ActivityView>,
    p: TradeProposal,
    now: int,
)
    requires
        audit_matches(r, check_outcomes(policy, table, activity, p, now)),
    ensures
        r.checks.len() == 6,
        r.risk_score == (if r.checks[0].passed { 0int } else { 10int }) + (if r.checks[1].passed { 0int } else { 5int })
            + (if r.checks[2].passed { 0int } else { 3int }) + (if r.checks[3].passed { 0int } else { 4int })
            + (if r.checks[4].passed { 0int } else { 8int }) + (if r.checks[5].passed { 0int } else { 6int }),
        r.approved <==> (r.checks[0].passed && r.checks[1].passed && r.checks[2].passed && r.checks[3].passed
            && r.checks[4].passed && r.checks[5].passed),
{
    assert(r.checks[0].passed == check_outcomes(policy, table, activity, p, now)[0].0);
    assert(r.checks[1].passed == check_outcomes(policy, table, activity, p, now)[1].0);
    assert(r.checks[2].passed == check_outcomes(policy, table, activity, p, now)[2].0);
    assert(r.checks[3].passed == check_outcomes(policy, table, activity, p, now)[3].0);
    assert(r.checks[4].passed == check_outcomes(policy, table, activity, p, now)[4].0);
    assert(r.checks[5].passed == check_outcomes(policy, table, activity, p, now)[5].0);
}

/// A proposal from an agent without a credit line is rejected, and the failed
/// credit check alone adds 10 to its risk score.
pub proof fn lemma_no_line_rejected(
    r: GuardianResultView,
    policy: PolicyConfig,
    table: Map<u128, CreditLine>,
    activity: Option<ActivityView>,
    p: TradeProposal,
    now: int,
)
    requires
        audit_matches(r, check_outcomes(policy, table, activity, p, now)),
        !table.contains_key(p.agent_id),
    ensures
        !r.approved,
        r.risk_score >= 10,
        !r.checks[0].passed,
        r.checks[0].detail@ == "No credit line found for agent"@,
{
}

/// A verdict is approved exactly when its risk score is zero, and the score
/// never exceeds 36, the sum of all six weights.
pub proof fn lemma_risk_score_bounds(
    r: GuardianResultView,
    policy: PolicyConfig,
    table: Map<u128, CreditLine>,
    activity: Option<ActivityView>,
    p: TradeProposal,
    now: int,
)
    requires
        audit_matches(r, check_outcomes(policy, table, activity, p, now)),
    ensures
        r.risk_score <= 36,
        r.approved <==> r.risk_score == 0,
{
}

/// Sells spend no budget: the credit check of a sell comes out the same
/// whatever the line's remaining budget.
pub proof fn lemma_sell_ignores_remaining(l: CreditLineView, remaining: u64, p: TradeProposal, now: int)
    requires
        p.side == TradeSide::Sell,
    ensures
        credit_check(Some(l), p, now).0 == credit_check(Some(CreditLineView { remaining_usd: remaining, ..l }), p, now).0,
{
}

/// Buys are held to the remaining budget: a buy above it fails the credit
/// check whatever else holds.
pub proof fn lemma_buy_over_budget_fails(l: CreditLineView, p: TradeProposal, now: int)
    requires
        p.side == TradeSide::Buy,
        p.amount_usd > l.remaining_usd,
    ensures
        !credit_check(Some(l), p, now).0,
{
}

/// A recalled, expired, suspended or repaid line blocks every trade: the
/// credit check fails until a new line is approved.
pub proof fn lemma_inactive_line_blocks_trades(l: CreditLineView, p: TradeProposal, now: int)
    requires
        l.status != CreditStatus::Active,
    ensures
        !credit_check(Some(l), p, now).0,
        credit_check(Some(l), p, now).1 == "Credit line status is "@ + status_name(l.status) + ", not Active"@,
{
}

/// One call of the Guardian: the lines it was given, the proposal, the time
/// and the verdict.
pub type VerifyCall = (Map<u128, CreditLine>, TradeProposal, i64, GuardianResultView);

/// The agent's activity after `calls`, starting from `a0`: each call of the
/// agent records its proposal with the verdict's risk score; calls of other
/// agents leave it as it was.
pub open spec fn activity_after(a0: Option<ActivityView>, calls: Seq<VerifyCall>, agent_id: u128) -> Option<ActivityView>
    decreases calls.len(),
{
    if calls.len() == 0 {
        a0
    } else {
        let prev = activity_after(a0, calls.drop_last(), agent_id);
        let c = calls.last();
        if c.1.agent_id == agent_id { Some(recorded_activity(prev, c.2, c.3.risk_score as nat)) } else { prev }
    }
}

/// The times of the agent's calls among `calls`, in order.
pub open spec fn call_times(calls: Seq<VerifyCall>, agent_id: u128) -> Seq<i64>
    decreases calls.len(),
{
    if calls.len() == 0 {
        Seq::empty()
    } else {
        let prev = call_times(calls.drop_last(), agent_id);
        let c = calls.last();
        if c.1.agent_id == agent_id { prev.push(c.2) } else { prev }
    }
}

/// The rate and burst windows: a proposal counts against the hourly limit
/// while it is less than an hour (3,600,000 ms) old, and against the
/// per-minute limit while it is less than a minute (60,000 ms) old.
pub proof fn lemma_windows(s: Seq<i64>, t: i64, now: int)
    ensures
        t + 3_600_000 > now ==> recent(s.push(t), now, hour_ms()) == recent(s, now, hour_ms()).push(t),
        t + 3_600_000 <= now ==> recent(s.push(t), now, hour_ms()) == recent(s, now, hour_ms()),
        t + 60_000 > now ==> recent(s.push(t), now, minute_ms()) == recent(s, now, minute_ms()).push(t),
        t + 60_000 <= now ==> recent(s.push(t), now, minute_ms()) == recent(s, now, minute_ms()),
{
    assert(s.push(t).drop_last() =~= s);
}

/// Timestamps all later than `now - window` survive the window unchanged
/// behind whatever precedes them.
pub proof fn lemma_recent_keeps_suffix(s1: Seq<i64>, s2: Seq<i64>, now: int, window: int)
    requires
        forall|i: int| 0 <= i < s2.len() ==> #[trigger] s2[i] + window > now,
    ensures
        recent(s1 + s2, now, window) == recent(s1, now, window) + s2,
    decreases s2.len(),
{
    if s2.len() == 0 {
        assert(s1 + s2 =~= s1);
        assert(recent(s1, now, window) + s2 =~= recent(s1, now, window));
    } else {
        let s = s2.drop_last();
        assert forall|i: int| 0 <= i < s.len() implies #[trigger] s[i] + window > now by {
            assert(s[i] == s2[i]);
        }
        lemma_recent_keeps_suffix(s1, s, now, window);
        assert((s1 + s2).drop_last() =~= s1 + s);
        assert((s1 + s2).last() == s2.last());
        assert(s2[s2.len() - 1] + window > now);
        assert(recent(s1, now, window) + s2 =~= (recent(s1, now, window) + s).push(s2.last()));
    }
}

/// Calls of an agent all within the minute before `now` end its recorded
/// timestamps, in order.
proof fn lemma_calls_end_activity(a0: Option<ActivityView>, calls: Seq<VerifyCall>, agent_id: u128, now: int)
    requires
        forall|k: int| 0 <= k < calls.len() && (#[trigger] calls[k]).1.agent_id == agent_id
            ==> now - minute_ms() < calls[k].2 <= now,
    ensures
        forall|i: int| 0 <= i < call_times(calls, agent_id).len()
            ==> now - minute_ms() < #[trigger] call_times(calls, agent_id)[i] <= now,
        call_times(calls, agent_id).len() > 0 ==> (activity_after(a0, calls, agent_id) matches Some(a) && {
            let t = call_times(calls, agent_id);
            &&& t.len() <= a.recent_proposals.len()
            &&& a.recent_proposals.subrange(a.recent_proposals.len() - t.len(), a.recent_proposals.len() as int) == t
        }),
    decreases calls.len(),
{
    if calls.len() > 0 {
        let rest = calls.drop_last();
        assert forall|k: int| 0 <= k < rest.len() && (#[trigger] rest[k]).1.agent_id == agent_id
            implies now - minute_ms() < rest[k].2 <= now by {
            assert(rest[k] == calls[k]);
        }
        lemma_calls_end_activity(a0, rest, agent_id, now);
        let c = calls.last();
        let prev_t = call_times(rest, agent_id);
        let t = call_times(calls, agent_id);
        if c.1.agent_id == agent_id {
            assert(calls[calls.len() - 1] == c);
            assert(now - minute_ms() < c.2 <= now);
            assert(t == prev_t.push(c.2));
            assert forall|i: int| 0 <= i < t.len() implies now - minute_ms() < #[trigger] t[i] <= now by {
                if i < prev_t.len() {
                    assert(t[i] == prev_t[i]);
                }
            }
            let prev = activity_after(a0, rest, agent_id);
            let times = match prev { Some(a) => a.recent_proposals, None => Seq::<i64>::empty() };
            let a = recorded_activity(prev, c.2, c.3.risk_score as nat);
            assert(activity_after(a0, calls, agent_id) == Some(a));
            if prev_t.len() == 0 {
                assert(a.recent_proposals.subrange(a.recent_proposals.len() - 1, a.recent_proposals.len() as int) =~= t);
            } else {
                let pa = prev->0;
                let n = pa.recent_proposals.len();
                let y = pa.recent_proposals.subrange(0, n - prev_t.len());
                assert(pa.recent_proposals =~= y + prev_t);
                assert forall|i: int| 0 <= i < prev_t.len() implies #[trigger] prev_t[i] + hour_ms() > c.2 by {
                    assert(now - minute_ms() < prev_t[i]);
                }
                lemma_recent_keeps_suffix(y, prev_t, c.2 as int, hour_ms());
                let kept = recent(y, c.2 as int, hour_ms());
                assert(a.recent_proposals =~= kept + t);
                assert(a.recent_proposals.subrange(a.recent_proposals.len() - t.len(), a.recent_proposals.len() as int) =~= t);
            }
        } else {
            assert(t == prev_t);
            assert(activity_after(a0, calls, agent_id) == activity_after(a0, rest, agent_id));
        }
    }
}

/// Through a run of calls, the Guardian keeps its policy and an agent's
/// activity is what [`activity_after`] says.
proof fn lemma_run_activity(gs: Seq<Guardian>, calls: Seq<VerifyCall>, agent_id: u128, k: int)
    requires
        gs.len() == calls.len() + 1,
        forall|j: int| 0 <= j < calls.len()
            ==> verified(gs[j], gs[j + 1], (#[trigger] calls[j]).0, calls[j].1, calls[j].2, calls[j].3),
        0 <= k < gs.len(),
    ensures
        gs[k].policy() == gs[0].policy(),
        gs[k].activity_of(agent_id) == activity_after(gs[0].activity_of(agent_id), calls.take(k), agent_id),
    decreases k,
{
    if k > 0 {
        lemma_run_activity(gs, calls, agent_id, k - 1);
        let c = calls[k - 1];
        assert(verified(gs[k - 1], gs[k], c.0, c.1, c.2, c.3));
        assert(calls.take(k).drop_last() =~= calls.take(k - 1));
        assert(calls.take(k).last() == c);
        if c.1.agent_id == agent_id {
            assert(gs[k].activity().contains_key(agent_id));
        } else {
            assert(gs[k].activity_of(agent_id) == gs[k - 1].activity_of(agent_id)) by {
                assert(gs[k].activity().contains_key(agent_id) == gs[k - 1].activity().contains_key(agent_id));
            }
        }
    }
}

/// A burst of proposals is refused: once an agent has been verified at least
/// `max_proposals_per_minute` times within the minute before `now` (whatever
/// other agents did in between), its next proposal at `now` fails the anomaly
/// check and is rejected.
pub proof fn lemma_burst_blocks_next_trade(
    gs: Seq<Guardian>,
    calls: Seq<VerifyCall>,
    agent_id: u128,
    table: Map<u128, CreditLine>,
    p: TradeProposal,
    now: i64,
    verdict: GuardianResultView,
)
    requires
        gs.len() == calls.len() + 1,
        forall|j: int| 0 <= j < calls.len()
            ==> verified(gs[j], gs[j + 1], (#[trigger] calls[j]).0, calls[j].1, calls[j].2, calls[j].3),
        forall|k: int| 0 <= k < calls.len() && (#[trigger] calls[k]).1.agent_id == agent_id
            ==> now - minute_ms() < calls[k].2 <= now,
        call_times(calls, agent_id).len() > 0,
        call_times(calls, agent_id).len() >= gs[0].policy().max_proposals_per_minute,
        p.agent_id == agent_id,
        audit_matches(verdict, check_outcomes(gs.last().policy(), table, gs.last().activity_of(agent_id), p, now as int)),
    ensures
        !anomaly_check(gs.last().policy(), gs.last().activity_of(agent_id), now as int).0,
        verdict.checks[5].name@ == "check_anomaly"@,
        !verdict.checks[5].passed,
        !verdict.approved,
{
    let n = calls.len() as int;
    lemma_run_activity(gs, calls, agent_id, n);
    assert(calls.take(n) =~= calls);
    assert(gs.last() == gs[n]);
    let a0 = gs[0].activity_of(agent_id);
    lemma_calls_end_activity(a0, calls, agent_id, now as int);
    let t = call_times(calls, agent_id);
    let a = activity_after(a0, calls, agent_id)->0;
    let m = a.recent_proposals.len();
    let y = a.recent_proposals.subrange(0, m - t.len());
    assert(a.recent_proposals =~= y + t);
    assert forall|i: int| 0 <= i < t.len() implies #[trigger] t[i] + minute_ms() > now by {
        assert(now - minute_ms() < t[i]);
    }
    lemma_recent_keeps_suffix(y, t, now as int, minute_ms());
    assert(recent(a.recent_proposals, now as int, minute_ms()).len() >= t.len());
    assert(verdict.checks[5].passed == check_outcomes(gs.last().policy(), table, gs.last().activity_of(agent_id), p, now as int)[5].0);
}

/// A high rolling risk score blocks trading: while an agent's cumulative risk
/// score exceeds the threshold, every proposal of it fails the anomaly check
/// and is rejected.
pub proof fn lemma_high_risk_blocks_trade(
    g: Guardian,
    table: Map<u128, CreditLine>,
    p: TradeProposal,
    now: int,
    verdict: GuardianResultView,
)
    requires
        g.activity_of(p.agent_id) matches Some(a) && a.cumulative_risk_score > g.policy().max_cumulative_risk_score,
        audit_matches(verdict, check_outcomes(g.policy(), table, g.activity_of(p.agent_id), p, now)),
    ensures
        !verdict.checks[5].passed,
        !verdict.approved,
{
    assert(verdict.checks[5].passed == check_outcomes(g.policy(), table, g.activity_of(p.agent_id), p, now)[5].0);
}

/// `new` is `old` with one event appended.
pub open spec fn appended_event(old: Seq<DashboardEvent>, new: Seq<DashboardEvent>) -> bool {
    new.len() == old.len() + 1 && new.drop_last() == old
}

} // verus!
