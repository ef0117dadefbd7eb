//! Credit line registry, deterministic scoring, human approval queue,
//! force-recall, reputation tracking and the queue of x402 payments awaiting
//! review.
//!
//! The Banker is the only component that writes credit lines; the Guardian
//! reads them through [`Banker::credit_lines_read`].

use vstd::prelude::*;
use vstd::std_specs::iter::IteratorSpec;
use std::collections::HashMap;
use crate::bridge::{new_uuid, now_millis, uuid_to_simple_text, uuid_simple_text};
use crate::guardian::{audit_matches, check_outcomes, credit_check, line_for, ActivityView};
use crate::text::{fixed2_text, push_fixed2};
use crate::types::{
    neutral_reputation, Agent, AgentReputation, ApprovedConditions, Collateral,
    ApprovedConditionsView, AppError, CreditDecision, CreditLine, CreditLineView, CreditProposal,
    CreditProposalView, CreditStatus, DashboardEvent, GuardianResultView, PendingProposalInfo,
    PendingProposalView, PendingX402Payment, PolicyConfig, TradeProposal, X402PaymentRequest, X402RiskLevel,
};

verus! {

// ---------------------------------------------------------------------------
// Scoring (all component scores in tenths of a point, weights in hundredths,
// the total in thousandths of a point)
// ---------------------------------------------------------------------------

/// Points for the length of the strategy text, in bytes.
pub open spec fn strategy_length_points(len: nat) -> nat {
    if len > 200 { 40 } else if len > 100 { 30 } else if len > 50 { 20 } else { 10 }
}

/// Length of a text in UTF-8 bytes, as `str::len` gives it.
pub open spec fn text_byte_len(text: Seq<char>) -> nat {
    (vstd::utf8::encode_utf8(text).len() as usize) as nat
}

/// Strategy clarity (0 to 100 tenths): longer, more specific strategies score
/// higher; naming pairs and declaring both limits add 3 points each.
pub open spec fn clarity_score(p: CreditProposalView) -> nat {
    let total = strategy_length_points(text_byte_len(p.strategy))
        + (if p.allowed_pairs.len() > 0 { 30nat } else { 0nat })
        + (if p.max_single_trade_usd > 0 && p.max_loss_usd > 0 { 30nat } else { 0nat });
    if total > 100 { 100 } else { total }
}

/// Stop-loss points: tighter stop-losses relative to the request score higher.
pub open spec fn loss_points(max_loss: nat, requested: nat) -> nat {
    if 10 * max_loss < requested { 90 }
    else if 5 * max_loss < requested { 70 }
    else if 2 * max_loss < requested { 50 }
    else { 30 }
}

/// Return points: unrealistic targets (50% and more) score low.
pub open spec fn return_points(target_bp: nat) -> nat {
    if target_bp < 1000 { 80 } else if target_bp < 2500 { 70 } else if target_bp < 5000 { 50 } else { 20 }
}

/// Risk/return score (tenths): 1.0 without a stop-loss or a target, else the
/// mean of the stop-loss and return points.
pub open spec fn risk_return_score(p: CreditProposalView) -> nat {
    if p.max_loss_usd == 0 || p.target_return_pct == 0 {
        10
    } else {
        (loss_points(p.max_loss_usd as nat, p.requested_usd as nat) + return_points(p.target_return_pct as nat)) / 2
    }
}

/// Collateral score (tenths): by coverage of the request; 2.0 without collateral.
pub open spec fn collateral_score(p: CreditProposalView) -> nat {
    match p.collateral {
        Some(c) if c.amount > 0 => {
            if c.amount >= p.requested_usd { 100 }
            else if 2 * c.amount >= p.requested_usd { 70 }
            else if 4 * c.amount >= p.requested_usd { 50 }
            else { 30 }
        },
        _ => 20,
    }
}

/// The weighted score in thousandths:
/// clarity 30%, risk/return 25%, reputation 30%, collateral 15%.
pub open spec fn proposal_score(p: CreditProposalView, reputation_score: nat) -> nat {
    clarity_score(p) * 30 + risk_return_score(p) * 25 + reputation_score * 30 + collateral_score(p) * 15
}

/// The score below which a proposal is rejected (6.0).
pub open spec fn approval_threshold() -> nat {
    6000
}

/// The amount recommended for an approved score: 75% below 7.0, 90% below
/// 8.0, the full request otherwise (rounded down to a micro-dollar).
pub open spec fn recommended_amount(requested: nat, score: nat) -> nat {
    if score < 7000 { requested * 3 / 4 } else if score < 8000 { requested * 9 / 10 } else { requested }
}

/// The reasons listed when a proposal is rejected, in order.
pub open spec fn rejection_reasons(p: CreditProposalView, rep: AgentReputation) -> Seq<Seq<char>> {
    (if clarity_score(p) < 50 { seq!["strategy lacks clarity or specificity"@] } else { Seq::empty() })
        + (if risk_return_score(p) < 50 { seq!["risk/return ratio is unfavorable"@] } else { Seq::empty() })
        + (if rep.score < 50 { seq!["agent reputation is below threshold"@] } else { Seq::empty() })
        + (if rep.lines_recalled > 0 { seq!["agent has prior credit recalls"@] } else { Seq::empty() })
        + (if collateral_score(p) < 30 { seq!["insufficient or no collateral"@] } else { Seq::empty() })
}

/// Texts joined with `"; "`.
pub open spec fn join_reasons(list: Seq<Seq<char>>) -> Seq<char>
    decreases list.len(),
{
    if list.len() == 0 {
        Seq::empty()
    } else if list.len() == 1 {
        list[0]
    } else {
        join_reasons(list.drop_last()) + "; "@ + list.last()
    }
}

/// A score in thousandths rounded half up to hundredths.
pub open spec fn score_hundredths(score: nat) -> nat {
    (score + 5) / 10
}

/// The human-readable rejection reason.
pub open spec fn rejection_text(p: CreditProposalView, score: nat, rep: AgentReputation) -> Seq<char> {
    let reasons = rejection_reasons(p, rep);
    if reasons.len() == 0 {
        "Overall score "@ + fixed2_text(score_hundredths(score)) + " below threshold 6.0"@
    } else {
        "Score "@ + fixed2_text(score_hundredths(score)) + "/10.0 \u{2014} "@ + join_reasons(reasons)
    }
}

fn score_strategy_clarity(p: &CreditProposal) -> (r: u64)
    ensures
        r as nat == clarity_score(p@),
{
    let len = p.strategy.as_str().len();
    let mut score: u64 = if len > 200 { 40 } else if len > 100 { 30 } else if len > 50 { 20 } else { 10 };
    if p.allowed_pairs.len() > 0 {
        score = score + 30;
    }
    if p.max_single_trade_usd > 0 && p.max_loss_usd > 0 {
        score = score + 30;
    }
    if score > 100 { 100 } else { score }
}

fn score_risk_return(p: &CreditProposal) -> (r: u64)
    ensures
        r as nat == risk_return_score(p@),
{
    if p.max_loss_usd == 0 || p.target_return_pct == 0 {
        return 10;
    }
    let max_loss = p.max_loss_usd as u128;
    let requested = p.requested_usd as u128;
    let loss: u64 = if 10 * max_loss < requested {
        90
    } else if 5 * max_loss < requested {
        70
    } else if 2 * max_loss < requested {
        50
    } else {
        30
    };
    let target = p.target_return_pct;
    let ret: u64 = if target < 1000 { 80 } else if target < 2500 { 70 } else if target < 5000 { 50 } else { 20 };
    (loss + ret) / 2
}

fn score_collateral(p: &CreditProposal) -> (r: u64)
    ensures
        r as nat == collateral_score(p@),
{
    match &p.collateral {
        Some(c) if c.amount > 0 => {
            let amount = c.amount as u128;
            let requested = p.requested_usd as u128;
            if amount >= requested {
                100
            } else if 2 * amount >= requested {
                70
            } else if 4 * amount >= requested {
                50
            } else {
                30
            }
        },
        _ => 20,
    }
}

fn compute_score(p: &CreditProposal, reputation_score: u64) -> (r: u64)
    requires
        reputation_score <= 100,
    ensures
        r as nat == proposal_score(p@, reputation_score as nat),
        r <= 10000,
{
    score_strategy_clarity(p) * 30 + score_risk_return(p) * 25 + reputation_score * 30 + score_collateral(p) * 15
}

fn recommend(requested: u64, score: u64) -> (r: u64)
    ensures
        r as nat == recommended_amount(requested as nat, score as nat),
{
    let req = requested as u128;
    if score < 7000 {
        (req * 3 / 4) as u64
    } else if score < 8000 {
        (req * 9 / 10) as u64
    } else {
        requested
    }
}

fn push_reason(s: &mut String, count: &mut u64, reason: &str, Ghost(list): Ghost<Seq<Seq<char>>>)
    requires
        old(s)@ == join_reasons(list),
        *old(count) == list.len(),
        list.len() < 10,
    ensures
        final(s)@ == join_reasons(list.push(reason@)),
        *final(count) == list.len() + 1,
{
    if *count > 0 {
        s.append("; ");
    }
    s.append(reason);
    *count = *count + 1;
    assert(list.push(reason@).drop_last() =~= list);
    assert(s@ =~= join_reasons(list.push(reason@)));
}

fn rejection_reason(p: &CreditProposal, score: u64, rep: &AgentReputation) -> (r: String)
    ensures
        r@ == rejection_text(p@, score as nat, *rep),
{
    let ghost all = rejection_reasons(p@, *rep);
    let mut joined = String::new();
    let mut count: u64 = 0;
    let ghost mut list: Seq<Seq<char>> = Seq::empty();
    proof {
        assert(joined@ =~= join_reasons(list));
    }
    if score_strategy_clarity(p) < 50 {
        push_reason(&mut joined, &mut count, "strategy lacks clarity or specificity", Ghost(list));
        proof { list = list.push("strategy lacks clarity or specificity"@); }
    }
    if score_risk_return(p) < 50 {
        push_reason(&mut joined, &mut count, "risk/return ratio is unfavorable", Ghost(list));
        proof { list = list.push("risk/return ratio is unfavorable"@); }
    }
    if rep.score < 50 {
        push_reason(&mut joined, &mut count, "agent reputation is below threshold", Ghost(list));
        proof { list = list.push("agent reputation is below threshold"@); }
    }
    if rep.lines_recalled > 0 {
        push_reason(&mut joined, &mut count, "agent has prior credit recalls", Ghost(list));
        proof { list = list.push("agent has prior credit recalls"@); }
    }
    if score_collateral(p) < 30 {
        push_reason(&mut joined, &mut count, "insufficient or no collateral", Ghost(list));
        proof { list = list.push("insufficient or no collateral"@); }
    }
    assert(list =~= all);
    let hundredths = (score / 10) + if score % 10 >= 5 { 1 } else { 0 };
    assert(hundredths as nat == score_hundredths(score as nat));
    if count == 0 {
        let mut s = String::from_str("Overall score ");
        push_fixed2(&mut s, hundredths);
        s.append(" below threshold 6.0");
        s
    } else {
        let mut s = String::from_str("Score ");
        push_fixed2(&mut s, hundredths);
        s.append("/10.0 \u{2014} ");
        s.append(joined.as_str());
        s
    }
}

// ---------------------------------------------------------------------------
// The Banker
// ---------------------------------------------------------------------------

/// One more, stopping at the largest `u32`.
pub open spec fn bump(n: u32) -> u32 {
    if n < u32::MAX { (n + 1) as u32 } else { n }
}

/// A line after `amount` more is spent.
pub open spec fn deducted(line: CreditLineView, amount: u64) -> CreditLineView {
    CreditLineView {
        spent_usd: (line.spent_usd + amount) as u64,
        remaining_usd: (line.remaining_usd - amount) as u64,
        ..line
    }
}

/// A line after `amount` of its spending is returned.
pub open spec fn refunded(line: CreditLineView, amount: u64) -> CreditLineView {
    CreditLineView {
        spent_usd: (line.spent_usd - amount) as u64,
        remaining_usd: (line.remaining_usd + amount) as u64,
        ..line
    }
}

/// A line with another status.
pub open spec fn with_status(line: CreditLineView, status: CreditStatus) -> CreditLineView {
    CreditLineView { status, ..line }
}

/// Why a deduction of `amount` from the agent's line is refused, if it is:
/// no line, a line that is not active, or an amount above what remains.
pub open spec fn deduct_refusal(lines: Map<u128, CreditLineView>, agent_id: u128, amount: u64) -> Option<AppError> {
    if !lines.contains_key(agent_id) || lines[agent_id].status != CreditStatus::Active {
        Some(AppError::NoCreditLine(agent_id))
    } else if amount > lines[agent_id].remaining_usd {
        Some(AppError::InsufficientCredit { requested: amount, remaining: lines[agent_id].remaining_usd })
    } else {
        None
    }
}

/// Reputation after a recall: one more recall, score down 1.5 but not below 0.
pub open spec fn recalled_reputation(rep: AgentReputation) -> AgentReputation {
    AgentReputation {
        lines_recalled: bump(rep.lines_recalled),
        score: if rep.score >= 15 { (rep.score - 15) as u64 } else { 0 },
        ..rep
    }
}

/// Utilization of a line in basis points (0 for a zero ceiling).
pub open spec fn utilization_bp(line: CreditLineView) -> nat {
    if line.approved_usd > 0 { (line.spent_usd as nat) * 10000 / (line.approved_usd as nat) } else { 0 }
}

/// Reputation after a clean repayment: one more repaid line, score up 0.5 but
/// not above 10.0, and the utilization folded into the rolling average.
pub open spec fn repaid_reputation(rep: AgentReputation, utilization: nat) -> AgentReputation {
    let total = bump(rep.lines_repaid_cleanly);
    AgentReputation {
        lines_repaid_cleanly: total,
        score: if rep.score + 5 <= 100 { (rep.score + 5) as u64 } else { 100 },
        avg_utilization_pct: ((rep.avg_utilization_pct as nat * (total - 1) as nat + utilization) / (total as nat)) as u64,
        ..rep
    }
}

/// `new` is `old` with one event appended.
pub open spec fn appended(old: Seq<DashboardEvent>, new: Seq<DashboardEvent>) -> bool {
    new.len() == old.len() + 1 && new.drop_last() == old
}

/// Registering an agent: it is stored under its fresh id with a neutral
/// reputation, and an `AgentRegistered` event announces it.
pub open spec fn registered(old: Banker, new: Banker, name: String, evm_address: Option<String>, agent: Agent) -> bool {
    &&& agent.name == name
    &&& agent.evm_address == evm_address
    &&& new.agents() == old.agents().insert(agent.id, agent)
    &&& new.reputations() == old.reputations().insert(agent.id, neutral_reputation(agent.id))
    &&& new.lines() == old.lines()
    &&& new.pending() == old.pending()
    &&& new.pending_payments() == old.pending_payments()
    &&& appended(old.events(), new.events())
    &&& new.events().last() == (DashboardEvent::AgentRegistered { agent })
}

/// Looking up the agent's active line at `now`: an active, unexpired line is
/// returned; an active line past its expiry is marked `Expired` and nothing
/// is returned; otherwise nothing changes and nothing is returned.
pub open spec fn active_line_looked_up(old: Banker, new: Banker, agent_id: u128, now: int, r: Option<CreditLine>) -> bool {
    &&& new.events() == old.events()
    &&& new.reputations() == old.reputations()
    &&& new.agents() == old.agents()
    &&& new.pending() == old.pending()
    &&& new.pending_payments() == old.pending_payments()
    &&& !old.lines().contains_key(agent_id) || old.lines()[agent_id].status != CreditStatus::Active ==> {
        &&& r is None
        &&& new.lines() == old.lines()
    }
    &&& old.lines().contains_key(agent_id) && old.lines()[agent_id].status == CreditStatus::Active ==> {
        &&& now > old.lines()[agent_id].expires_at ==> {
            &&& r is None
            &&& new.lines() == old.lines().insert(agent_id, with_status(old.lines()[agent_id], CreditStatus::Expired))
        }
        &&& now <= old.lines()[agent_id].expires_at ==> {
            &&& r matches Some(l) && l@ == old.lines()[agent_id]
            &&& new.lines() == old.lines()
        }
    }
}

/// Spending `amount` from the agent's active line: refused, with nothing
/// changed, as [`deduct_refusal`] says; otherwise the line is charged and a
/// `BudgetUpdate` event reports it.
pub open spec fn deduct_done(old: Banker, new: Banker, agent_id: u128, amount: u64, r: Result<(), AppError>) -> bool {
    &&& deduct_refusal(old.lines(), agent_id, amount) matches Some(e) ==> {
        &&& r == Err::<(), AppError>(e)
        &&& new.same_books(&old)
        &&& new.events() == old.events()
    }
    &&& deduct_refusal(old.lines(), agent_id, amount) is None ==> {
        let line = deducted(old.lines()[agent_id], amount);
        &&& r is Ok
        &&& new.lines() == old.lines().insert(agent_id, line)
        &&& new.reputations() == old.reputations()
        &&& new.agents() == old.agents()
        &&& new.pending() == old.pending()
        &&& new.pending_payments() == old.pending_payments()
        &&& appended(old.events(), new.events())
        &&& new.events().last() == (DashboardEvent::BudgetUpdate {
            agent_id,
            spent_usd: line.spent_usd,
            remaining_usd: line.remaining_usd,
        })
    }
}

/// Force-recalling the agent's line, whatever its status: refused without a
/// line (`NoCreditLine`), with nothing changed; otherwise the line becomes
/// `Recalled`, the agent's reputation record (if any) counts the recall, and a
/// `CreditRecalled` event announces it.
pub open spec fn recall_done(old: Banker, new: Banker, agent_id: u128, reason: String, r: Result<(), AppError>) -> bool {
    &&& !old.lines().contains_key(agent_id) ==> {
        &&& r == Err::<(), AppError>(AppError::NoCreditLine(agent_id))
        &&& new.same_books(&old)
        &&& new.events() == old.events()
    }
    &&& old.lines().contains_key(agent_id) ==> {
        &&& r is Ok
        &&& new.lines() == old.lines().insert(agent_id, with_status(old.lines()[agent_id], CreditStatus::Recalled))
        &&& new.reputations() == if old.reputations().contains_key(agent_id) {
            old.reputations().insert(agent_id, recalled_reputation(old.reputations()[agent_id]))
        } else {
            old.reputations()
        }
        &&& new.agents() == old.agents()
        &&& new.pending() == old.pending()
        &&& new.pending_payments() == old.pending_payments()
        &&& appended(old.events(), new.events())
        &&& new.events().last() == (DashboardEvent::CreditRecalled { agent_id, reason })
    }
}

/// Returning `amount` of the agent's spending to its line: refused without a
/// line (`NoCreditLine`) or above what was spent (`Internal`), with nothing
/// changed; otherwise the line is credited and a `BudgetUpdate` event
/// reports it.
pub open spec fn refund_done(old: Banker, new: Banker, agent_id: u128, amount: u64, r: Result<(), AppError>) -> bool {
    &&& !old.lines().contains_key(agent_id) ==> {
        &&& r == Err::<(), AppError>(AppError::NoCreditLine(agent_id))
        &&& new.same_books(&old)
        &&& new.events() == old.events()
    }
    &&& old.lines().contains_key(agent_id) && amount > old.lines()[agent_id].spent_usd ==> {
        &&& r matches Err(AppError::Internal(m)) && m@ == "refund exceeds the amount spent"@
        &&& new.same_books(&old)
        &&& new.events() == old.events()
    }
    &&& old.lines().contains_key(agent_id) && amount <= old.lines()[agent_id].spent_usd ==> {
        let line = refunded(old.lines()[agent_id], amount);
        &&& r is Ok
        &&& new.lines() == old.lines().insert(agent_id, line)
        &&& new.reputations() == old.reputations()
        &&& new.agents() == old.agents()
        &&& new.pending() == old.pending()
        &&& new.pending_payments() == old.pending_payments()
        &&& appended(old.events(), new.events())
        &&& new.events().last() == (DashboardEvent::BudgetUpdate {
            agent_id,
            spent_usd: line.spent_usd,
            remaining_usd: line.remaining_usd,
        })
    }
}

/// Repaying the agent's line: refused without a line (`NoCreditLine`), with
/// nothing changed; otherwise the line becomes `Repaid`, the reputation
/// records a clean repayment, and a `CreditRepaid` event announces it.
pub open spec fn repay_done(old: Banker, new: Banker, agent_id: u128, r: Result<(), AppError>) -> bool {
    &&& !old.lines().contains_key(agent_id) ==> {
        &&& r == Err::<(), AppError>(AppError::NoCreditLine(agent_id))
        &&& new.same_books(&old)
        &&& new.events() == old.events()
    }
    &&& old.lines().contains_key(agent_id) ==> {
        &&& r is Ok
        &&& new.lines() == old.lines().insert(agent_id, with_status(old.lines()[agent_id], CreditStatus::Repaid))
        &&& new.reputations() == if old.reputations().contains_key(agent_id) {
            old.reputations().insert(
                agent_id,
                repaid_reputation(old.reputations()[agent_id], utilization_bp(old.lines()[agent_id])),
            )
        } else {
            old.reputations()
        }
        &&& new.agents() == old.agents()
        &&& new.pending() == old.pending()
        &&& new.pending_payments() == old.pending_payments()
        &&& appended(old.events(), new.events())
        &&& new.events().last() == (DashboardEvent::CreditRepaid { agent_id })
    }
}

/// Holding an x402 payment for a human decision: it is queued under its id
/// and an `X402PaymentPending` event announces it.
pub open spec fn payment_held(old: Banker, new: Banker, payment: X402PaymentRequest, risk_level: X402RiskLevel, reason: String) -> bool {
    &&& new.pending_payments() == old.pending_payments().insert(
        payment.id,
        PendingX402Payment { payment, risk_level, reason },
    )
    &&& new.lines() == old.lines()
    &&& new.reputations() == old.reputations()
    &&& new.agents() == old.agents()
    &&& new.pending() == old.pending()
    &&& appended(old.events(), new.events())
    &&& new.events().last() == (DashboardEvent::X402PaymentPending { payment, risk: risk_level, reason })
}

/// Recording an event: the books stay as they are.
pub open spec fn emitted(old: Banker, new: Banker, event: DashboardEvent) -> bool {
    &&& new.same_books(&old)
    &&& appended(old.events(), new.events())
    &&& new.events().last() == event
}

/// Approving a pending proposal: refused (`ProposalNotFound`) with nothing
/// changed when no such proposal waits; otherwise a fresh active line for the
/// overriding or recommended amount replaces any line the agent held, the
/// proposal leaves the queue, the reputation counts one more approval, and a
/// `CreditApproved` event announces the line.
pub open spec fn proposal_approved(old: Banker, new: Banker, proposal_id: u128, override_usd: Option<u64>, r: Result<CreditLine, AppError>) -> bool {
    &&& !old.pending().contains_key(proposal_id) ==> {
        &&& r == Err::<CreditLine, AppError>(AppError::ProposalNotFound(proposal_id))
        &&& new.same_books(&old)
        &&& new.events() == old.events()
    }
    &&& old.pending().contains_key(proposal_id) ==> ({
        let info = old.pending()[proposal_id];
        let agent = info.proposal.agent_id;
        let amount = match override_usd { Some(a) => a, None => info.recommended_usd };
        &&& r matches Ok(line) && {
            &&& line@.proposal_id == proposal_id
            &&& line@.agent_id == agent
            &&& line@.approved_usd == amount
            &&& line@.spent_usd == 0
            &&& line@.remaining_usd == amount
            &&& line@.status == CreditStatus::Active
            &&& line@.expires_at == info.proposal.window_end
            &&& line@.conditions == (ApprovedConditionsView {
                allowed_pairs: info.proposal.allowed_pairs,
                max_single_trade_usd: info.proposal.max_single_trade_usd,
                max_loss_usd: info.proposal.max_loss_usd,
                window_end: info.proposal.window_end,
            })
            &&& line@.reputation_at_approval == old.reputation_of(agent).score
            &&& new.lines() == old.lines().insert(agent, line@)
            &&& new.events().last() matches DashboardEvent::CreditApproved { credit_line: l } && l@ == line@
        }
        &&& new.pending() == old.pending().remove(proposal_id)
        &&& new.reputations() == if old.reputations().contains_key(agent) {
            old.reputations().insert(agent, AgentReputation {
                lines_approved: bump(old.reputations()[agent].lines_approved),
                ..old.reputations()[agent]
            })
        } else {
            old.reputations()
        }
        &&& new.agents() == old.agents()
        &&& new.pending_payments() == old.pending_payments()
        &&& appended(old.events(), new.events())
    })
}

/// Rejecting a pending proposal: refused (`ProposalNotFound`) with nothing
/// changed when no such proposal waits; otherwise it leaves the queue and a
/// `CreditRejectedByHuman` event announces it.
pub open spec fn proposal_rejected(old: Banker, new: Banker, proposal_id: u128, r: Result<(), AppError>) -> bool {
    &&& !old.pending().contains_key(proposal_id) ==> {
        &&& r == Err::<(), AppError>(AppError::ProposalNotFound(proposal_id))
        &&& new.same_books(&old)
        &&& new.events() == old.events()
    }
    &&& old.pending().contains_key(proposal_id) ==> {
        &&& r is Ok
        &&& new.pending() == old.pending().remove(proposal_id)
        &&& new.lines() == old.lines()
        &&& new.reputations() == old.reputations()
        &&& new.agents() == old.agents()
        &&& new.pending_payments() == old.pending_payments()
        &&& appended(old.events(), new.events())
        &&& new.events().last() == (DashboardEvent::CreditRejectedByHuman {
            proposal_id,
            agent_id: old.pending()[proposal_id].proposal.agent_id,
        })
    }
}

/// Approving a held x402 payment: refused (`PaymentNotFound`) when no such
/// payment waits, or as [`deduct_refusal`] says when the line cannot pay,
/// with nothing changed; otherwise the line is charged, the payment leaves
/// the queue, and `BudgetUpdate` and `X402PaymentApproved` events follow.
pub open spec fn payment_approved(old: Banker, new: Banker, payment_id: u128, r: Result<(), AppError>) -> bool {
    &&& !old.pending_payments().contains_key(payment_id) ==> {
        &&& r == Err::<(), AppError>(AppError::PaymentNotFound(payment_id))
        &&& new.same_books(&old)
        &&& new.events() == old.events()
    }
    &&& old.pending_payments().contains_key(payment_id) ==> ({
        let p = old.pending_payments()[payment_id].payment;
        &&& deduct_refusal(old.lines(), p.agent_id, p.amount_usd) matches Some(e) ==> {
            &&& r == Err::<(), AppError>(e)
            &&& new.same_books(&old)
            &&& new.events() == old.events()
        }
        &&& deduct_refusal(old.lines(), p.agent_id, p.amount_usd) is None ==> {
            let line = deducted(old.lines()[p.agent_id], p.amount_usd);
            &&& r is Ok
            &&& new.lines() == old.lines().insert(p.agent_id, line)
            &&& new.pending_payments() == old.pending_payments().remove(payment_id)
            &&& new.reputations() == old.reputations()
            &&& new.agents() == old.agents()
            &&& new.pending() == old.pending()
            &&& new.events().len() == old.events().len() + 2
            &&& new.events().take(old.events().len() as int) == old.events()
            &&& new.events()[old.events().len() as int] == (DashboardEvent::BudgetUpdate {
                agent_id: p.agent_id,
                spent_usd: line.spent_usd,
                remaining_usd: line.remaining_usd,
            })
            &&& new.events().last() == (DashboardEvent::X402PaymentApproved {
                payment_id,
                agent_id: p.agent_id,
            })
        }
    })
}

/// Blocking a held x402 payment: refused (`PaymentNotFound`) with nothing
/// changed when no such payment waits; otherwise it leaves the queue and an
/// `X402PaymentBlocked` event carries the reason.
pub open spec fn payment_blocked(old: Banker, new: Banker, payment_id: u128, reason: String, r: Result<(), AppError>) -> bool {
    &&& !old.pending_payments().contains_key(payment_id) ==> {
        &&& r == Err::<(), AppError>(AppError::PaymentNotFound(payment_id))
        &&& new.same_books(&old)
        &&& new.events() == old.events()
    }
    &&& old.pending_payments().contains_key(payment_id) ==> {
        &&& r is Ok
        &&& new.pending_payments() == old.pending_payments().remove(payment_id)
        &&& new.lines() == old.lines()
        &&& new.reputations() == old.reputations()
        &&& new.agents() == old.agents()
        &&& new.pending() == old.pending()
        &&& appended(old.events(), new.events())
        &&& new.events().last() == (DashboardEvent::X402PaymentBlocked {
            payment_id,
            agent_id: old.pending_payments()[payment_id].payment.agent_id,
            reason,
        })
    }
}

/// What scoring a credit proposal `p` does: a score below the threshold
/// rejects it with the reasons and changes nothing; otherwise the proposal
/// waits for a human decision with the recommended amount, announced by a
/// `CreditProposalPending` event, and the decision carries that amount.
pub open spec fn evaluated(old: Banker, new: Banker, p: CreditProposalView, d: CreditDecision) -> bool {
    let rep = old.reputation_of(p.agent_id);
    let score = proposal_score(p, rep.score as nat);
    &&& d.proposal_id == p.id
    &&& d.score == score
    &&& d.credit_line is None
    &&& score < approval_threshold() ==> {
        &&& !d.approved
        &&& d.approved_usd is None
        &&& d.rejection_reason matches Some(t) && t@ == rejection_text(p, score, rep)
        &&& new.same_books(&old)
        &&& new.events() == old.events()
    }
    &&& score >= approval_threshold() ==> {
        let amount = recommended_amount(p.requested_usd as nat, score);
        &&& d.approved
        &&& d.approved_usd == Some(amount as u64)
        &&& d.rejection_reason is None
        &&& new.pending().contains_key(p.id)
        &&& new.pending() == old.pending().insert(p.id, new.pending()[p.id])
        &&& new.pending()[p.id].proposal == p
        &&& new.pending()[p.id].score == score
        &&& new.pending()[p.id].recommended_usd == amount
        &&& new.lines() == old.lines()
        &&& new.reputations() == old.reputations()
        &&& new.agents() == old.agents()
        &&& new.pending_payments() == old.pending_payments()
        &&& appended(old.events(), new.events())
        &&& new.events().last() matches DashboardEvent::CreditProposalPending { proposal: q, score: s, recommended_usd: a }
            && q@ == p && s == score && a == amount
    }
}

/// The Banker manages credit lines, scores proposals, and tracks agent reputation.
pub struct Banker {
    credit_lines: HashMap<u128, CreditLine>,
    reputations: HashMap<u128, AgentReputation>,
    agents: HashMap<u128, Agent>,
    pending_proposals: HashMap<u128, PendingProposalInfo>,
    pending_x402: HashMap<u128, PendingX402Payment>,
    events: Vec<DashboardEvent>,
}

impl Banker {
    /// Credit lines keyed by agent.
    pub closed spec fn line_table(&self) -> Map<u128, CreditLine> {
        self.credit_lines@
    }

    /// Credit lines keyed by agent, as values.
    pub open spec fn lines(&self) -> Map<u128, CreditLineView> {
        self.line_table().map_values(|l: CreditLine| l@)
    }

    /// Reputation records keyed by agent.
    pub closed spec fn reputations(&self) -> Map<u128, AgentReputation> {
        self.reputations@
    }

    /// Registered agents keyed by id.
    pub closed spec fn agents(&self) -> Map<u128, Agent> {
        self.agents@
    }

    /// Proposals awaiting a human decision, keyed by proposal id.
    pub closed spec fn pending_table(&self) -> Map<u128, PendingProposalInfo> {
        self.pending_proposals@
    }

    /// Proposals awaiting a human decision, as values.
    pub open spec fn pending(&self) -> Map<u128, PendingProposalView> {
        self.pending_table().map_values(|p: PendingProposalInfo| p@)
    }

    /// x402 payments awaiting a human decision, keyed by payment id.
    pub closed spec fn pending_payments(&self) -> Map<u128, PendingX402Payment> {
        self.pending_x402@
    }

    /// Events not yet taken for broadcast, oldest first.
    pub closed spec fn events(&self) -> Seq<DashboardEvent> {
        self.events@
    }

    /// The reputation the Banker uses for an agent: its record, or a neutral one.
    pub open spec fn reputation_of(&self, agent_id: u128) -> AgentReputation {
        if self.reputations().contains_key(agent_id) {
            self.reputations()[agent_id]
        } else {
            neutral_reputation(agent_id)
        }
    }

    /// What every operation keeps: lines are keyed by their agent and what is
    /// spent plus what remains is the ceiling; reputations are keyed by their
    /// agent, scores stay within 0..=10.0 and average utilization within 100%;
    /// agents and pending entries are keyed by their own ids.
    pub open spec fn wf(&self) -> bool {
        &&& forall|k: u128| #[trigger] self.lines().contains_key(k) ==> {
            &&& self.lines()[k].agent_id == k
            &&& self.lines()[k].spent_usd + self.lines()[k].remaining_usd == self.lines()[k].approved_usd
        }
        &&& forall|k: u128| #[trigger] self.reputations().contains_key(k) ==> {
            &&& self.reputations()[k].agent_id == k
            &&& self.reputations()[k].score <= 100
            &&& self.reputations()[k].avg_utilization_pct <= 10000
        }
        &&& forall|k: u128| #[trigger] self.agents().contains_key(k) ==> self.agents()[k].id == k
        &&& forall|k: u128| #[trigger] self.pending().contains_key(k) ==> self.pending()[k].proposal.id == k
        &&& forall|k: u128| #[trigger] self.pending_payments().contains_key(k) ==> self.pending_payments()[k].payment.id == k
    }

    /// Same state except possibly the lines and the events.
    pub open spec fn same_books_but_lines(&self, other: &Banker) -> bool {
        &&& self.reputations() == other.reputations()
        &&& self.agents() == other.agents()
        &&& self.pending() == other.pending()
        &&& self.pending_payments() == other.pending_payments()
    }

    /// Same state except possibly the events.
    pub open spec fn same_books(&self, other: &Banker) -> bool {
        &&& self.lines() == other.lines()
        &&& self.reputations() == other.reputations()
        &&& self.agents() == other.agents()
        &&& self.pending() == other.pending()
        &&& self.pending_payments() == other.pending_payments()
    }

    proof fn lemma_wf_same_books(a: &Banker, b: &Banker)
        requires
            a.wf(),
            b.same_books(a),
        ensures
            b.wf(),
    {
        assert forall|k: u128| #[trigger] b.lines().contains_key(k) implies b.lines()[k].agent_id == k
            && b.lines()[k].spent_usd + b.lines()[k].remaining_usd == b.lines()[k].approved_usd by {
            assert(a.lines().contains_key(k));
        }
        assert forall|k: u128| #[trigger] b.reputations().contains_key(k) implies b.reputations()[k].agent_id == k
            && b.reputations()[k].score <= 100 && b.reputations()[k].avg_utilization_pct <= 10000 by {
            assert(a.reputations().contains_key(k));
        }
        assert forall|k: u128| #[trigger] b.agents().contains_key(k) implies b.agents()[k].id == k by {
            assert(a.agents().contains_key(k));
        }
        assert forall|k: u128| #[trigger] b.pending().contains_key(k) implies b.pending()[k].proposal.id == k by {
            assert(a.pending().contains_key(k));
        }
        assert forall|k: u128| #[trigger] b.pending_payments().contains_key(k) implies b.pending_payments()[k].payment.id == k by {
            assert(a.pending_payments().contains_key(k));
        }
    }

    proof fn lemma_wf_line_set(a: &Banker, b: &Banker, k: u128, v: CreditLineView)
        requires
            a.wf(),
            b.lines() == a.lines().insert(k, v),
            v.agent_id == k,
            v.spent_usd + v.remaining_usd == v.approved_usd,
            b.reputations() == a.reputations(),
            b.agents() == a.agents(),
            b.pending() == a.pending(),
            b.pending_payments() == a.pending_payments(),
        ensures
            b.wf(),
    {
        assert forall|j: u128| #[trigger] b.lines().contains_key(j) implies b.lines()[j].agent_id == j
            && b.lines()[j].spent_usd + b.lines()[j].remaining_usd == b.lines()[j].approved_usd by {
            if j != k {
                assert(a.lines().contains_key(j));
            }
        }
        assert forall|j: u128| #[trigger] b.reputations().contains_key(j) implies b.reputations()[j].agent_id == j
            && b.reputations()[j].score <= 100 && b.reputations()[j].avg_utilization_pct <= 10000 by {
            assert(a.reputations().contains_key(j));
        }
        assert forall|j: u128| #[trigger] b.agents().contains_key(j) implies b.agents()[j].id == j by {
            assert(a.agents().contains_key(j));
        }
        assert forall|j: u128| #[trigger] b.pending().contains_key(j) implies b.pending()[j].proposal.id == j by {
            assert(a.pending().contains_key(j));
        }
        assert forall|j: u128| #[trigger] b.pending_payments().contains_key(j) implies b.pending_payments()[j].payment.id == j by {
            assert(a.pending_payments().contains_key(j));
        }
    }

    proof fn lemma_wf_line_and_rep_set(a: &Banker, b: &Banker, k: u128, v: CreditLineView, rep: AgentReputation)
        requires
            a.wf(),
            b.lines() == a.lines().insert(k, v),
            v.agent_id == k,
            v.spent_usd + v.remaining_usd == v.approved_usd,
            a.reputations().contains_key(k),
            b.reputations() == a.reputations().insert(k, rep),
            rep.agent_id == k,
            rep.score <= 100,
            rep.avg_utilization_pct <= 10000,
            b.agents() == a.agents(),
            b.pending() == a.pending(),
            b.pending_payments() == a.pending_payments(),
        ensures
            b.wf(),
    {
        assert forall|j: u128| #[trigger] b.lines().contains_key(j) implies b.lines()[j].agent_id == j
            && b.lines()[j].spent_usd + b.lines()[j].remaining_usd == b.lines()[j].approved_usd by {
            if j != k {
                assert(a.lines().contains_key(j));
            }
        }
        assert forall|j: u128| #[trigger] b.reputations().contains_key(j) implies b.reputations()[j].agent_id == j
            && b.reputations()[j].score <= 100 && b.reputations()[j].avg_utilization_pct <= 10000 by {
            if j != k {
                assert(a.reputations().contains_key(j));
            }
        }
        assert forall|j: u128| #[trigger] b.agents().contains_key(j) implies b.agents()[j].id == j by {
            assert(a.agents().contains_key(j));
        }
        assert forall|j: u128| #[trigger] b.pending().contains_key(j) implies b.pending()[j].proposal.id == j by {
            assert(a.pending().contains_key(j));
        }
        assert forall|j: u128| #[trigger] b.pending_payments().contains_key(j) implies b.pending_payments()[j].payment.id == j by {
            assert(a.pending_payments().contains_key(j));
        }
    }

    proof fn lemma_wf_payments_changed(a: &Banker, b: &Banker)
        requires
            a.wf(),
            b.lines() == a.lines(),
            b.reputations() == a.reputations(),
            b.agents() == a.agents(),
            b.pending() == a.pending(),
            forall|k: u128| #[trigger] b.pending_payments().contains_key(k) ==> b.pending_payments()[k].payment.id == k,
        ensures
            b.wf(),
    {
        assert forall|j: u128| #[trigger] b.lines().contains_key(j) implies b.lines()[j].agent_id == j
            && b.lines()[j].spent_usd + b.lines()[j].remaining_usd == b.lines()[j].approved_usd by {
            assert(a.lines().contains_key(j));
        }
        assert forall|j: u128| #[trigger] b.reputations().contains_key(j) implies b.reputations()[j].agent_id == j
            && b.reputations()[j].score <= 100 && b.reputations()[j].avg_utilization_pct <= 10000 by {
            assert(a.reputations().contains_key(j));
        }
        assert forall|j: u128| #[trigger] b.agents().contains_key(j) implies b.agents()[j].id == j by {
            assert(a.agents().contains_key(j));
        }
        assert forall|j: u128| #[trigger] b.pending().contains_key(j) implies b.pending()[j].proposal.id == j by {
            assert(a.pending().contains_key(j));
        }
    }

    /// Create a new Banker with no agents, lines or pending items.
    pub fn new() -> (r: Banker)
        ensures
            r.wf(),
            r.lines().is_empty(),
            r.reputations().is_empty(),
            r.agents().is_empty(),
            r.pending().is_empty(),
            r.pending_payments().is_empty(),
            r.events().len() == 0,
    {
        let r = Banker {
            credit_lines: HashMap::new(),
            reputations: HashMap::new(),
            agents: HashMap::new(),
            pending_proposals: HashMap::new(),
            pending_x402: HashMap::new(),
            events: Vec::new(),
        };
        assert(r.lines() =~= Map::empty());
        assert(r.pending() =~= Map::empty());
        r
    }
    /// Register an agent under a fresh id, with a neutral reputation. No
    /// trades are possible without registration.
    pub fn register_agent(&mut self, name: String, evm_address: Option<String>) -> (agent: Agent)
        requires
            old(self).wf(),
        ensures
            final(self).wf(),
            registered(*old(self), *final(self), name, evm_address, agent),
    {
        let agent = Agent { id: new_uuid(), name, evm_address, registered_at: now_millis() };
        self.agents.insert(agent.id, agent.clone());
        let rep = AgentReputation {
            agent_id: agent.id,
            score: 50,
            lines_approved: 0,
            lines_repaid_cleanly: 0,
            lines_recalled: 0,
            avg_utilization_pct: 0,
            avg_return_pct: 0,
        };
        self.reputations.insert(agent.id, rep);
        self.events.push(DashboardEvent::AgentRegistered { agent: agent.clone() });
        assert(self.events@.drop_last() =~= old(self).events@);
        assert(self.lines() =~= old(self).lines());
        assert(self.pending() =~= old(self).pending());
        assert forall|k: u128| #[trigger] self.reputations().contains_key(k) implies self.reputations()[k].agent_id == k
            && self.reputations()[k].score <= 100 && self.reputations()[k].avg_utilization_pct <= 10000 by {
            if k != agent.id {
                assert(old(self).reputations().contains_key(k));
            } else {
                assert(self.reputations()[k] == rep);
            }
        }
        agent
    }

    /// Whether an agent is registered.
    pub fn is_registered(&self, agent_id: u128) -> (r: bool)
        ensures
            r == self.agents().contains_key(agent_id),
    {
        self.agents.contains_key(&agent_id)
    }

    /// The reputation for an agent: its record, or a neutral one for unknown agents.
    pub fn reputation(&self, agent_id: u128) -> (r: AgentReputation)
        requires
            self.wf(),
        ensures
            r == self.reputation_of(agent_id),
            r.score <= 100,
    {
        match self.reputations.get(&agent_id) {
            Some(rep) => rep.clone(),
            None => AgentReputation {
                agent_id,
                score: 50,
                lines_approved: 0,
                lines_repaid_cleanly: 0,
                lines_recalled: 0,
                avg_utilization_pct: 0,
                avg_return_pct: 0,
            },
        }
    }

    /// Score a credit proposal deterministically. A score below 6.0 rejects it
    /// with the reasons; otherwise it is queued for a human decision with a
    /// recommended amount, and the decision carries that amount.
    pub fn evaluate(&mut self, proposal: &CreditProposal) -> (d: CreditDecision)
        requires
            old(self).wf(),
        ensures
            final(self).wf(),
            evaluated(*old(self), *final(self), proposal@, d),
    {
        let rep = self.reputation(proposal.agent_id);
        let score = compute_score(proposal, rep.score);
        if score < 6000 {
            let reason = rejection_reason(proposal, score, &rep);
            return CreditDecision {
                proposal_id: proposal.id,
                approved: false,
                approved_usd: None,
                rejection_reason: Some(reason),
                score,
                credit_line: None,
            };
        }
        let recommended_usd = recommend(proposal.requested_usd, score);
        let info = PendingProposalInfo {
            proposal: proposal.clone(),
            score,
            recommended_usd,
            submitted_at: now_millis(),
        };
        self.pending_proposals.insert(proposal.id, info);
        self.events.push(DashboardEvent::CreditProposalPending {
            proposal: proposal.clone(),
            score,
            recommended_usd,
        });
        proof {
            assert(self.events@.drop_last() =~= old(self).events@);
            assert(self.pending() =~= old(self).pending().insert(proposal.id, self.pending()[proposal.id]));
        }
        CreditDecision {
            proposal_id: proposal.id,
            approved: true,
            approved_usd: Some(recommended_usd),
            rejection_reason: None,
            score,
            credit_line: None,
        }
    }
    /// Approve a pending proposal: grant a credit line for `override_usd`, or
    /// the recommended amount, replacing any line the agent held. Fails with
    /// `ProposalNotFound` when no such proposal is pending.
    pub fn approve_proposal(&mut self, proposal_id: u128, override_usd: Option<u64>) -> (r: Result<CreditLine, AppError>)
        requires
            old(self).wf(),
        ensures
            final(self).wf(),
            proposal_approved(*old(self), *final(self), proposal_id, override_usd, r),
    {
        let agent = match self.pending_proposals.get(&proposal_id) {
            Some(info) => info.proposal.agent_id,
            None => {
                return Err(AppError::ProposalNotFound(proposal_id));
            },
        };
        let rep = self.reputation(agent);
        let info = match self.pending_proposals.remove(&proposal_id) {
            Some(info) => info,
            None => {
                assert(self.pending_proposals@ =~= old(self).pending_proposals@);
                assert(self.pending() =~= old(self).pending());
                return Err(AppError::ProposalNotFound(proposal_id));
            },
        };
        let amount = match override_usd {
            Some(a) => a,
            None => info.recommended_usd,
        };
        let line = CreditLine {
            id: new_uuid(),
            proposal_id,
            agent_id: agent,
            approved_usd: amount,
            spent_usd: 0,
            remaining_usd: amount,
            status: CreditStatus::Active,
            approved_at: now_millis(),
            expires_at: info.proposal.window_end,
            conditions: ApprovedConditions {
                allowed_pairs: info.proposal.allowed_pairs,
                max_single_trade_usd: info.proposal.max_single_trade_usd,
                max_loss_usd: info.proposal.max_loss_usd,
                window_end: info.proposal.window_end,
            },
            reputation_at_approval: rep.score,
        };
        self.credit_lines.insert(agent, line.clone());
        match self.reputations.remove(&agent) {
            Some(mut r) => {
                r.lines_approved = if r.lines_approved < u32::MAX { r.lines_approved + 1 } else { r.lines_approved };
                self.reputations.insert(agent, r);
            },
            None => {},
        }
        self.events.push(DashboardEvent::CreditApproved { credit_line: line.clone() });
        proof {
            assert(self.events@.drop_last() =~= old(self).events@);
            assert(self.lines() =~= old(self).lines().insert(agent, line@));
            assert(self.pending() =~= old(self).pending().remove(proposal_id));
            if old(self).reputations().contains_key(agent) {
                assert(self.reputations() =~= old(self).reputations().insert(agent, AgentReputation {
                    lines_approved: bump(old(self).reputations()[agent].lines_approved),
                    ..old(self).reputations()[agent]
                }));
            } else {
                assert(self.reputations() =~= old(self).reputations());
            }
            assert forall|k: u128| #[trigger] self.reputations().contains_key(k) implies self.reputations()[k].agent_id == k
                && self.reputations()[k].score <= 100 && self.reputations()[k].avg_utilization_pct <= 10000 by {
                assert(old(self).reputations().contains_key(k));
            }
            assert forall|k: u128| #[trigger] self.lines().contains_key(k) implies self.lines()[k].agent_id == k
                && self.lines()[k].spent_usd + self.lines()[k].remaining_usd == self.lines()[k].approved_usd by {
                if k != agent {
                    assert(old(self).lines().contains_key(k));
                }
            }
            assert forall|k: u128| #[trigger] self.pending().contains_key(k) implies self.pending()[k].proposal.id == k by {
                assert(old(self).pending().contains_key(k));
            }
        }
        Ok(line)
    }

    /// Reject a pending proposal. Fails with `ProposalNotFound` when no such
    /// proposal is pending.
    pub fn reject_proposal(&mut self, proposal_id: u128) -> (r: Result<(), AppError>)
        requires
            old(self).wf(),
        ensures
            final(self).wf(),
            proposal_rejected(*old(self), *final(self), proposal_id, r),
    {
        match self.pending_proposals.remove(&proposal_id) {
            Some(info) => {
                self.events.push(DashboardEvent::CreditRejectedByHuman {
                    proposal_id,
                    agent_id: info.proposal.agent_id,
                });
                proof {
                    assert(self.events@.drop_last() =~= old(self).events@);
                    assert(self.pending() =~= old(self).pending().remove(proposal_id));
                    assert forall|k: u128| #[trigger] self.pending().contains_key(k) implies self.pending()[k].proposal.id == k by {
                        assert(old(self).pending().contains_key(k));
                    }
                    assert(self.lines() == old(self).lines());
                    assert(self.reputations() == old(self).reputations());
                    assert(self.agents() == old(self).agents());
                    assert(self.pending_payments() == old(self).pending_payments());
                }
                Ok(())
            },
            None => {
                assert(self.pending_proposals@ =~= old(self).pending_proposals@);
                assert(self.pending() =~= old(self).pending());
                proof { Banker::lemma_wf_same_books(old(self), self); }
                Err(AppError::ProposalNotFound(proposal_id))
            },
        }
    }
    /// The agent's active line at time `now`, if any. A line whose expiry has
    /// passed is marked `Expired` on the way, so that it is skipped from then on.
    pub fn get_active_line_at(&mut self, agent_id: u128, now: i64) -> (r: Option<CreditLine>)
        requires
            old(self).wf(),
        ensures
            final(self).wf(),
            active_line_looked_up(*old(self), *final(self), agent_id, now as int, r),
    {
        match self.credit_lines.get(&agent_id) {
            None => {
                return None;
            },
            Some(line) => {
                if line.status != CreditStatus::Active {
                    return None;
                }
                if now <= line.expires_at {
                    return Some(line.clone());
                }
            },
        }
        match self.credit_lines.remove(&agent_id) {
            Some(mut line) => {
                line.status = CreditStatus::Expired;
                self.credit_lines.insert(agent_id, line);
                proof {
                    assert(self.lines() =~= old(self).lines().insert(
                        agent_id,
                        with_status(old(self).lines()[agent_id], CreditStatus::Expired),
                    ));
                    Banker::lemma_wf_line_set(old(self), self, agent_id, with_status(old(self).lines()[agent_id], CreditStatus::Expired));
                }
            },
            None => {},
        }
        None
    }

    /// The agent's active line now (see [`Banker::get_active_line_at`]); the
    /// time is read from the clock.
    pub fn get_active_line(&mut self, agent_id: u128) -> (r: Option<CreditLine>)
        requires
            old(self).wf(),
        ensures
            final(self).wf(),
            final(self).events() == old(self).events(),
            final(self).reputations() == old(self).reputations(),
            final(self).agents() == old(self).agents(),
            final(self).pending() == old(self).pending(),
            final(self).pending_payments() == old(self).pending_payments(),
            r matches Some(l) ==> {
                &&& old(self).lines().contains_key(agent_id)
                &&& l@ == old(self).lines()[agent_id]
                &&& l@.status == CreditStatus::Active
                &&& final(self).lines() == old(self).lines()
            },
            r is None ==> {
                ||| final(self).lines() == old(self).lines() && (!old(self).lines().contains_key(agent_id)
                    || old(self).lines()[agent_id].status != CreditStatus::Active)
                ||| old(self).lines().contains_key(agent_id) && old(self).lines()[agent_id].status == CreditStatus::Active
                    && final(self).lines() == old(self).lines().insert(
                        agent_id,
                        with_status(old(self).lines()[agent_id], CreditStatus::Expired),
                    )
            },
    {
        let now = now_millis();
        self.get_active_line_at(agent_id, now)
    }

    /// Spend `amount` from the agent's active line. Refused, with nothing
    /// changed, as [`deduct_refusal`] says: without an active line
    /// (`NoCreditLine`) or above what remains (`InsufficientCredit`).
    pub fn deduct(&mut self, agent_id: u128, amount: u64) -> (r: Result<(), AppError>)
        requires
            old(self).wf(),
        ensures
            final(self).wf(),
            deduct_done(*old(self), *final(self), agent_id, amount, r),
    {
        match self.credit_lines.get(&agent_id) {
            None => {
                return Err(AppError::NoCreditLine(agent_id));
            },
            Some(line) => {
                if line.status != CreditStatus::Active {
                    return Err(AppError::NoCreditLine(agent_id));
                }
                if amount > line.remaining_usd {
                    return Err(AppError::InsufficientCredit { requested: amount, remaining: line.remaining_usd });
                }
            },
        }
        match self.credit_lines.remove(&agent_id) {
            Some(mut line) => {
                line.spent_usd = line.spent_usd + amount;
                line.remaining_usd = line.remaining_usd - amount;
                let spent_usd = line.spent_usd;
                let remaining_usd = line.remaining_usd;
                self.credit_lines.insert(agent_id, line);
                self.events.push(DashboardEvent::BudgetUpdate { agent_id, spent_usd, remaining_usd });
                proof {
                    let v = deducted(old(self).lines()[agent_id], amount);
                    assert(self.events@.drop_last() =~= old(self).events@);
                    assert(self.lines() =~= old(self).lines().insert(agent_id, v));
                    Banker::lemma_wf_line_set(old(self), self, agent_id, v);
                }
            },
            None => {},
        }
        Ok(())
    }

    /// Return `amount` of the agent's spending to its line (after a failed
    /// execution). Refused without a line (`NoCreditLine`) or when `amount` is
    /// more than was spent (`Internal`), with nothing changed.
    pub fn refund(&mut self, agent_id: u128, amount: u64) -> (r: Result<(), AppError>)
        requires
            old(self).wf(),
        ensures
            final(self).wf(),
            refund_done(*old(self), *final(self), agent_id, amount, r),
    {
        match self.credit_lines.get(&agent_id) {
            None => {
                return Err(AppError::NoCreditLine(agent_id));
            },
            Some(line) => {
                if amount > line.spent_usd {
                    return Err(AppError::Internal(String::from_str("refund exceeds the amount spent")));
                }
            },
        }
        assert(old(self).lines().contains_key(agent_id));
        match self.credit_lines.remove(&agent_id) {
            Some(mut line) => {
                assert(line@ == old(self).lines()[agent_id]);
                line.spent_usd = line.spent_usd - amount;
                line.remaining_usd = line.remaining_usd + amount;
                let spent_usd = line.spent_usd;
                let remaining_usd = line.remaining_usd;
                self.credit_lines.insert(agent_id, line);
                self.events.push(DashboardEvent::BudgetUpdate { agent_id, spent_usd, remaining_usd });
                proof {
                    let v = refunded(old(self).lines()[agent_id], amount);
                    assert(self.events@.drop_last() =~= old(self).events@);
                    assert(self.lines() =~= old(self).lines().insert(agent_id, v));
                    Banker::lemma_wf_line_set(old(self), self, agent_id, v);
                }
            },
            None => {},
        }
        Ok(())
    }
    /// Force-recall the agent's line, whatever its status: it becomes
    /// `Recalled`, which blocks further trades until a new line is approved,
    /// and the agent's reputation records the recall. Refused without a line
    /// (`NoCreditLine`), with nothing changed.
    pub fn recall(&mut self, agent_id: u128, reason: String) -> (r: Result<(), AppError>)
        requires
            old(self).wf(),
        ensures
            final(self).wf(),
            recall_done(*old(self), *final(self), agent_id, reason, r),
    {
        match self.credit_lines.remove(&agent_id) {
            None => {
                assert(self.credit_lines@ =~= old(self).credit_lines@);
                proof { Banker::lemma_wf_same_books(old(self), self); }
                return Err(AppError::NoCreditLine(agent_id));
            },
            Some(mut line) => {
                assert(old(self).lines().contains_key(agent_id));
                assert(old(self).lines()[agent_id].agent_id == agent_id);
                line.status = CreditStatus::Recalled;
                self.credit_lines.insert(agent_id, line);
            },
        }
        let ghost v = with_status(old(self).lines()[agent_id], CreditStatus::Recalled);
        assert(self.lines() =~= old(self).lines().insert(agent_id, v));
        match self.reputations.remove(&agent_id) {
            Some(mut rep) => {
                assert(old(self).reputations().contains_key(agent_id));
                rep.lines_recalled = if rep.lines_recalled < u32::MAX { rep.lines_recalled + 1 } else { rep.lines_recalled };
                rep.score = if rep.score >= 15 { rep.score - 15 } else { 0 };
                self.reputations.insert(agent_id, rep);
                proof {
                    let nr = recalled_reputation(old(self).reputations()[agent_id]);
                    assert(self.reputations() =~= old(self).reputations().insert(agent_id, nr));
                    Banker::lemma_wf_line_and_rep_set(old(self), self, agent_id, v, nr);
                }
            },
            None => {
                proof {
                    assert(self.reputations() =~= old(self).reputations());
                    Banker::lemma_wf_line_set(old(self), self, agent_id, v);
                }
            },
        }
        self.events.push(DashboardEvent::CreditRecalled { agent_id, reason });
        assert(self.events@.drop_last() =~= old(self).events@);
        Ok(())
    }

    /// Mark the agent's line repaid, whatever its status, and credit the
    /// agent's reputation: one more clean repayment, score up 0.5 (at most
    /// 10.0) and the line's utilization folded into the rolling average.
    /// Refused without a line (`NoCreditLine`), with nothing changed.
    pub fn repay(&mut self, agent_id: u128) -> (r: Result<(), AppError>)
        requires
            old(self).wf(),
        ensures
            final(self).wf(),
            repay_done(*old(self), *final(self), agent_id, r),
    {
        let utilization: u64;
        match self.credit_lines.remove(&agent_id) {
            None => {
                assert(self.credit_lines@ =~= old(self).credit_lines@);
                proof { Banker::lemma_wf_same_books(old(self), self); }
                return Err(AppError::NoCreditLine(agent_id));
            },
            Some(mut line) => {
                assert(old(self).lines().contains_key(agent_id));
                assert(line@ == old(self).lines()[agent_id]);
                assert(line.spent_usd + line.remaining_usd == line.approved_usd);
                utilization = if line.approved_usd > 0 {
                    proof {
                        assert((line.spent_usd as nat) * 10000 / (line.approved_usd as nat) <= 10000) by (nonlinear_arith)
                            requires line.spent_usd <= line.approved_usd, line.approved_usd > 0;
                    }
                    ((line.spent_usd as u128) * 10000 / (line.approved_usd as u128)) as u64
                } else {
                    0
                };
                line.status = CreditStatus::Repaid;
                self.credit_lines.insert(agent_id, line);
            },
        }
        assert(utilization as nat == utilization_bp(old(self).lines()[agent_id]));
        assert(utilization <= 10000);
        let ghost v = with_status(old(self).lines()[agent_id], CreditStatus::Repaid);
        assert(self.lines() =~= old(self).lines().insert(agent_id, v));
        match self.reputations.remove(&agent_id) {
            Some(mut rep) => {
                assert(old(self).reputations().contains_key(agent_id));
                assert(rep == old(self).reputations()[agent_id]);
                assert(rep.score <= 100 && rep.avg_utilization_pct <= 10000);
                let total: u32 = if rep.lines_repaid_cleanly < u32::MAX { rep.lines_repaid_cleanly + 1 } else { rep.lines_repaid_cleanly };
                rep.lines_repaid_cleanly = total;
                rep.score = if rep.score + 5 <= 100 { rep.score + 5 } else { 100 };
                let old_avg = rep.avg_utilization_pct;
                proof {
                    assert(total >= 1);
                    assert((old_avg as nat * (total - 1) as nat + utilization as nat) / (total as nat) <= 10000) by (nonlinear_arith)
                        requires old_avg <= 10000, utilization <= 10000, total >= 1;
                }
                assert(old_avg as u128 * (total - 1) as u128 <= 10000 * 0xFFFF_FFFFu128) by (nonlinear_arith)
                    requires old_avg <= 10000, total >= 1;
                rep.avg_utilization_pct = ((old_avg as u128 * (total - 1) as u128 + utilization as u128) / (total as u128)) as u64;
                self.reputations.insert(agent_id, rep);
                proof {
                    let nr = repaid_reputation(old(self).reputations()[agent_id], utilization as nat);
                    assert(self.reputations() =~= old(self).reputations().insert(agent_id, nr));
                    Banker::lemma_wf_line_and_rep_set(old(self), self, agent_id, v, nr);
                }
            },
            None => {
                proof {
                    assert(self.reputations() =~= old(self).reputations());
                    Banker::lemma_wf_line_set(old(self), self, agent_id, v);
                }
            },
        }
        self.events.push(DashboardEvent::CreditRepaid { agent_id });
        assert(self.events@.drop_last() =~= old(self).events@);
        Ok(())
    }
    /// Queue an x402 payment for human review.
    pub fn store_pending_x402(&mut self, payment: X402PaymentRequest, risk_level: X402RiskLevel, reason: String)
        requires
            old(self).wf(),
        ensures
            final(self).wf(),
            payment_held(*old(self), *final(self), payment, risk_level, reason),
    {
        let event = DashboardEvent::X402PaymentPending {
            payment: payment.clone(),
            risk: risk_level,
            reason: reason.clone(),
        };
        self.pending_x402.insert(payment.id, PendingX402Payment { payment, risk_level, reason });
        self.events.push(event);
        assert(self.events@.drop_last() =~= old(self).events@);
        proof {
            assert forall|k: u128| #[trigger] self.pending_payments().contains_key(k) implies self.pending_payments()[k].payment.id == k by {
                if k != payment.id {
                    assert(old(self).pending_payments().contains_key(k));
                }
            }
            Banker::lemma_wf_payments_changed(old(self), self);
        }
    }

    /// Approve a pending x402 payment: its amount is deducted from the
    /// agent's line as [`Banker::deduct`] does, and only then is it taken off
    /// the queue. Fails with `PaymentNotFound` when no such payment is pending,
    /// and with the deduction's error when that is refused (the payment stays
    /// pending); nothing changes on failure.
    pub fn approve_x402(&mut self, payment_id: u128) -> (r: Result<(), AppError>)
        requires
            old(self).wf(),
        ensures
            final(self).wf(),
            payment_approved(*old(self), *final(self), payment_id, r),
    {
        let (agent_id, amount) = match self.pending_x402.get(&payment_id) {
            Some(p) => (p.payment.agent_id, p.payment.amount_usd),
            None => {
                return Err(AppError::PaymentNotFound(payment_id));
            },
        };
        let ghost before = *self;
        match self.deduct(agent_id, amount) {
            Err(e) => {
                return Err(e);
            },
            Ok(()) => {},
        }
        let ghost mid = *self;
        self.pending_x402.remove(&payment_id);
        self.events.push(DashboardEvent::X402PaymentApproved { payment_id, agent_id });
        proof {
            assert(self.events@.drop_last() =~= mid.events@);
            assert(self.events@.take(old(self).events().len() as int) =~= old(self).events@);
            assert forall|k: u128| #[trigger] self.pending_payments().contains_key(k) implies self.pending_payments()[k].payment.id == k by {
                assert(mid.pending_payments().contains_key(k));
            }
            assert forall|k: u128| #[trigger] self.pending().contains_key(k) implies self.pending()[k].proposal.id == k by {
                assert(mid.pending().contains_key(k));
            }
        }
        Ok(())
    }

    /// Block a pending x402 payment: it leaves the queue and nothing is
    /// deducted. Fails with `PaymentNotFound` when no such payment is pending.
    pub fn block_x402(&mut self, payment_id: u128, reason: String) -> (r: Result<(), AppError>)
        requires
            old(self).wf(),
        ensures
            final(self).wf(),
            payment_blocked(*old(self), *final(self), payment_id, reason, r),
    {
        match self.pending_x402.remove(&payment_id) {
            None => {
                assert(self.pending_x402@ =~= old(self).pending_x402@);
                proof { Banker::lemma_wf_same_books(old(self), self); }
                Err(AppError::PaymentNotFound(payment_id))
            },
            Some(p) => {
                self.events.push(DashboardEvent::X402PaymentBlocked {
                    payment_id,
                    agent_id: p.payment.agent_id,
                    reason,
                });
                proof {
                    assert(self.events@.drop_last() =~= old(self).events@);
                    assert forall|k: u128| #[trigger] self.pending_payments().contains_key(k) implies self.pending_payments()[k].payment.id == k by {
                        assert(old(self).pending_payments().contains_key(k));
                    }
                    Banker::lemma_wf_payments_changed(old(self), self);
                }
                Ok(())
            },
        }
    }

    /// All pending x402 payments, in no particular order.
    pub fn get_pending_x402(&self) -> (r: Vec<PendingX402Payment>)
        ensures
            r@.len() == self.pending_payments().len(),
            r@.to_set() == self.pending_payments().values(),
    {
        let ghost all = vstd::std_specs::hash::spec_values_iter(&self.pending_x402).remaining();
        let mut r: Vec<PendingX402Payment> = Vec::new();
        for p in it: self.pending_x402.values()
            invariant
                it.seq() == all,
                r@ == all.take(it.index()).map_values(|x: &PendingX402Payment| *x),
        {
            assert(p == all[it.index()]);
            r.push(p.clone());
            assert(all.take(it.index() + 1) =~= all.take(it.index()).push(all[it.index()]));
            assert(r@ =~= all.take(it.index() + 1).map_values(|x: &PendingX402Payment| *x));
        }
        assert(all.take(all.len() as int) =~= all);
        assert(all.map_values(|x: &PendingX402Payment| *x) =~= all.unref());
        r
    }

    /// All registered agents, in no particular order.
    pub fn get_agents(&self) -> (r: Vec<Agent>)
        ensures
            r@.len() == self.agents().len(),
            r@.to_set() == self.agents().values(),
    {
        let ghost all = vstd::std_specs::hash::spec_values_iter(&self.agents).remaining();
        let mut r: Vec<Agent> = Vec::new();
        for a in it: self.agents.values()
            invariant
                it.seq() == all,
                r@ == all.take(it.index()).map_values(|x: &Agent| *x),
        {
            assert(a == all[it.index()]);
            r.push(a.clone());
            assert(all.take(it.index() + 1) =~= all.take(it.index()).push(all[it.index()]));
            assert(r@ =~= all.take(it.index() + 1).map_values(|x: &Agent| *x));
        }
        assert(all.take(all.len() as int) =~= all);
        assert(all.map_values(|x: &Agent| *x) =~= all.unref());
        r
    }

    /// All reputation records, in no particular order.
    pub fn get_reputations(&self) -> (r: Vec<AgentReputation>)
        ensures
            r@.len() == self.reputations().len(),
            r@.to_set() == self.reputations().values(),
    {
        let ghost all = vstd::std_specs::hash::spec_values_iter(&self.reputations).remaining();
        let mut r: Vec<AgentReputation> = Vec::new();
        for a in it: self.reputations.values()
            invariant
                it.seq() == all,
                r@ == all.take(it.index()).map_values(|x: &AgentReputation| *x),
        {
            assert(a == all[it.index()]);
            r.push(a.clone());
            assert(all.take(it.index() + 1) =~= all.take(it.index()).push(all[it.index()]));
            assert(r@ =~= all.take(it.index() + 1).map_values(|x: &AgentReputation| *x));
        }
        assert(all.take(all.len() as int) =~= all);
        assert(all.map_values(|x: &AgentReputation| *x) =~= all.unref());
        r
    }

    /// Read-only handle on the credit lines (for the Guardian).
    pub fn credit_lines_read(&self) -> (r: &HashMap<u128, CreditLine>)
        ensures
            r@ == self.line_table(),
    {
        &self.credit_lines
    }

    /// Takes the events not yet broadcast, oldest first.
    pub fn take_events(&mut self) -> (r: Vec<DashboardEvent>)
        requires
            old(self).wf(),
        ensures
            final(self).wf(),
            r@ == old(self).events(),
            final(self).events().len() == 0,
            final(self).same_books(old(self)),
    {
        let mut out: Vec<DashboardEvent> = Vec::new();
        std::mem::swap(&mut out, &mut self.events);
        proof { Banker::lemma_wf_same_books(old(self), self); }
        out
    }

    /// Records an event for broadcast.
    pub fn emit(&mut self, event: DashboardEvent)
        requires
            old(self).wf(),
        ensures
            final(self).wf(),
            emitted(*old(self), *final(self), event),
    {
        self.events.push(event);
        assert(self.events@.drop_last() =~= old(self).events@);
        proof { Banker::lemma_wf_same_books(old(self), self); }
    }

    /// Records events for broadcast, in order, after those already recorded.
    pub fn emit_all(&mut self, events: Vec<DashboardEvent>)
        requires
            old(self).wf(),
        ensures
            final(self).wf(),
            final(self).same_books(old(self)),
            final(self).events() == old(self).events() + events@,
    {
        let mut events = events;
        self.events.append(&mut events);
        proof { Banker::lemma_wf_same_books(old(self), self); }
    }

    /// The address the treasury contract is called with for an agent: `0x`
    /// followed by the 32 hex digits of its id.
    pub fn treasury_address(&self, agent_id: u128) -> (r: String)
        ensures
            r@ == "0x"@ + uuid_simple_text(agent_id),
    {
        let mut s = String::from_str("0x");
        s.append(uuid_to_simple_text(agent_id).as_str());
        s
    }

    /// All credit lines, in no particular order: each is the line stored for
    /// its agent, every stored line is among them, and none comes twice.
    fn all_lines(&self) -> (r: Vec<CreditLine>)
        requires
            self.wf(),
        ensures
            r@.len() == self.lines().len(),
            forall|i: int| #![trigger r@[i]] 0 <= i < r@.len()
                ==> self.lines().contains_key(r@[i].agent_id) && self.lines()[r@[i].agent_id] == r@[i]@,
            forall|k: u128| #[trigger] self.lines().contains_key(k)
                ==> exists|i: int| 0 <= i < r@.len() && r@[i].agent_id == k,
            forall|i: int, j: int| 0 <= i < j < r@.len() ==> #[trigger] r@[i].agent_id != #[trigger] r@[j].agent_id,
    {
        assert(self.lines().dom() =~= self.credit_lines@.dom());
        let ghost all = vstd::std_specs::hash::spec_values_iter(&self.credit_lines).remaining();
        let mut r: Vec<CreditLine> = Vec::new();
        for l in it: self.credit_lines.values()
            invariant
                it.seq() == all,
                r@.len() == it.index(),
                forall|i: int| 0 <= i < r@.len() ==> #[trigger] r@[i]@ == (*all[i])@,
        {
            assert(l == all[it.index()]);
            r.push(l.clone());
        }
        proof {
            assert(all.unref().to_set() == self.credit_lines@.values());
            assert forall|i: int| #![trigger r@[i]] 0 <= i < r@.len()
                implies self.lines().contains_key(r@[i].agent_id) && self.lines()[r@[i].agent_id] == r@[i]@ by {
                assert(all.unref()[i] == *all[i]);
                assert(all.unref().to_set().contains(*all[i]));
                let k = choose|k: u128| self.credit_lines@.contains_key(k) && self.credit_lines@[k] == *all[i];
                assert(self.lines().contains_key(k));
                assert(self.lines()[k] == r@[i]@);
            }
            assert forall|k: u128| #[trigger] self.lines().contains_key(k)
                implies exists|i: int| 0 <= i < r@.len() && r@[i].agent_id == k by {
                assert(self.credit_lines@.values().contains(self.credit_lines@[k]));
                assert(all.unref().to_set().contains(self.credit_lines@[k]));
                let j = choose|j: int| 0 <= j < all.unref().len() && all.unref()[j] == self.credit_lines@[k];
                assert(*all[j] == self.credit_lines@[k]);
                assert(r@[j]@ == self.lines()[k]);
            }
            let ids = r@.map_values(|l: CreditLine| l.agent_id);
            assert(ids.to_set() =~= self.lines().dom()) by {
                assert forall|k: u128| #[trigger] ids.to_set().contains(k) implies self.lines().contains_key(k) by {
                    let i = choose|i: int| 0 <= i < ids.len() && ids[i] == k;
                    assert(r@[i].agent_id == k);
                }
                assert forall|k: u128| #[trigger] self.lines().contains_key(k) implies ids.to_set().contains(k) by {
                    let i = choose|i: int| 0 <= i < r@.len() && r@[i].agent_id == k;
                    assert(ids[i] == k);
                }
            }
            assert(self.lines().dom() =~= self.credit_lines@.dom());
            ids.lemma_no_dup_set_cardinality();
            assert forall|i: int, j: int| 0 <= i < j < r@.len() implies #[trigger] r@[i].agent_id != #[trigger] r@[j].agent_id by {
                assert(ids[i] == r@[i].agent_id);
                assert(ids[j] == r@[j].agent_id);
            }
        }
        r
    }

    /// All active credit lines, in no particular order: each is the active line
    /// stored for its agent, and every active line is among them, once.
    pub fn get_active_lines(&self) -> (r: Vec<CreditLine>)
        requires
            self.wf(),
        ensures
            forall|i: int| #![trigger r@[i]] 0 <= i < r@.len() ==> r@[i]@.status == CreditStatus::Active
                && self.lines().contains_key(r@[i].agent_id) && self.lines()[r@[i].agent_id] == r@[i]@,
            forall|k: u128| #[trigger] self.lines().contains_key(k) && self.lines()[k].status == CreditStatus::Active
                ==> exists|i: int| 0 <= i < r@.len() && r@[i].agent_id == k,
            forall|i: int, j: int| 0 <= i < j < r@.len() ==> #[trigger] r@[i].agent_id != #[trigger] r@[j].agent_id,
    {
        let all = self.all_lines();
        let mut r: Vec<CreditLine> = Vec::new();
        let ghost mut at: Seq<int> = Seq::empty();
        let mut n: usize = 0;
        while n < all.len()
            invariant
                n <= all@.len(),
                forall|i: int| #![trigger all@[i]] 0 <= i < all@.len()
                    ==> self.lines().contains_key(all@[i].agent_id) && self.lines()[all@[i].agent_id] == all@[i]@,
                forall|i: int| #![trigger r@[i]] 0 <= i < r@.len() ==> r@[i]@.status == CreditStatus::Active
                    && self.lines().contains_key(r@[i].agent_id) && self.lines()[r@[i].agent_id] == r@[i]@,
                forall|j: int| #![trigger all@[j]] 0 <= j < n && all@[j]@.status == CreditStatus::Active
                    ==> exists|i: int| 0 <= i < r@.len() && r@[i].agent_id == all@[j].agent_id,
                at.len() == r@.len(),
                forall|i: int| #![trigger at[i]] 0 <= i < at.len()
                    ==> 0 <= at[i] < n && r@[i].agent_id == all@[at[i]].agent_id,
                forall|i: int, j: int| #![trigger at[i], at[j]] 0 <= i < j < at.len() ==> at[i] < at[j],
            decreases all@.len() - n,
        {
            let ghost before = r@;
            let ghost at0 = at;
            if all[n].status == CreditStatus::Active {
                r.push(all[n].clone());
                proof {
                    at = at.push(n as int);
                }
                assert(r@[before.len() as int].agent_id == all@[n as int].agent_id);
            }
            assert forall|i: int| #![trigger at[i]] 0 <= i < at.len()
                implies 0 <= at[i] < n + 1 && r@[i].agent_id == all@[at[i]].agent_id by {
                if i < at0.len() {
                    assert(at[i] == at0[i]);
                    assert(r@[i] == before[i]);
                }
            }
            assert forall|i: int, j: int| #![trigger at[i], at[j]] 0 <= i < j < at.len() implies at[i] < at[j] by {
                if j < at0.len() {
                    assert(at[i] == at0[i] && at[j] == at0[j]);
                } else {
                    assert(at[i] == at0[i]);
                }
            }
            assert forall|j: int| #![trigger all@[j]] 0 <= j < n + 1 && all@[j]@.status == CreditStatus::Active
                implies exists|i: int| 0 <= i < r@.len() && r@[i].agent_id == all@[j].agent_id by {
                if j < n {
                    let i = choose|i: int| 0 <= i < before.len() && before[i].agent_id == all@[j].agent_id;
                    assert(r@[i] == before[i]);
                }
            }
            n = n + 1;
        }
        proof {
            assert forall|k: u128| #[trigger] self.lines().contains_key(k) && self.lines()[k].status == CreditStatus::Active
                implies exists|i: int| 0 <= i < r@.len() && r@[i].agent_id == k by {
                let j = choose|j: int| 0 <= j < all@.len() && all@[j].agent_id == k;
                assert(all@[j]@ == self.lines()[k]);
            }
            assert forall|i: int, j: int| 0 <= i < j < r@.len() implies #[trigger] r@[i].agent_id != #[trigger] r@[j].agent_id by {
                assert(at[i] < at[j]);
                assert(all@[at[i]].agent_id != all@[at[j]].agent_id);
            }
        }
        r
    }

    /// All proposals awaiting a human decision, in no particular order: each
    /// is the one pending under its id, and every pending one is among them.
    pub fn get_pending_proposals(&self) -> (r: Vec<PendingProposalInfo>)
        requires
            self.wf(),
        ensures
            r@.len() == self.pending().len(),
            forall|i: int| #![trigger r@[i]] 0 <= i < r@.len()
                ==> self.pending().contains_key(r@[i].proposal.id) && self.pending()[r@[i].proposal.id] == r@[i]@,
            forall|k: u128| #[trigger] self.pending().contains_key(k)
                ==> exists|i: int| 0 <= i < r@.len() && r@[i].proposal.id == k,
    {
        assert(self.pending().dom() =~= self.pending_proposals@.dom());
        let ghost all = vstd::std_specs::hash::spec_values_iter(&self.pending_proposals).remaining();
        let mut r: Vec<PendingProposalInfo> = Vec::new();
        for p in it: self.pending_proposals.values()
            invariant
                it.seq() == all,
                r@.len() == it.index(),
                forall|i: int| 0 <= i < r@.len() ==> #[trigger] r@[i]@ == (*all[i])@,
        {
            assert(p == all[it.index()]);
            r.push(p.clone());
        }
        proof {
            assert(all.unref().to_set() == self.pending_proposals@.values());
            assert forall|i: int| #![trigger r@[i]] 0 <= i < r@.len()
                implies self.pending().contains_key(r@[i].proposal.id) && self.pending()[r@[i].proposal.id] == r@[i]@ by {
                assert(all.unref()[i] == *all[i]);
                assert(all.unref().to_set().contains(*all[i]));
                let k = choose|k: u128| self.pending_proposals@.contains_key(k) && self.pending_proposals@[k] == *all[i];
                assert(self.pending().contains_key(k));
                assert(self.pending()[k] == r@[i]@);
            }
            assert forall|k: u128| #[trigger] self.pending().contains_key(k)
                implies exists|i: int| 0 <= i < r@.len() && r@[i].proposal.id == k by {
                assert(self.pending_proposals@.values().contains(self.pending_proposals@[k]));
                assert(all.unref().to_set().contains(self.pending_proposals@[k]));
                let j = choose|j: int| 0 <= j < all.unref().len() && all.unref()[j] == self.pending_proposals@[k];
                assert(*all[j] == self.pending_proposals@[k]);
                assert(r@[j]@ == self.pending()[k]);
            }
        }
        r
    }
}

} // verus!

verus! {

/// A refund of what a deduction took restores the line exactly.
pub proof fn lemma_refund_undoes_deduct(line: CreditLineView, amount: u64)
    requires
        amount <= line.remaining_usd,
        line.spent_usd + line.remaining_usd == line.approved_usd,
    ensures
        refunded(deducted(line, amount), amount) == line,
{
}

/// A deduction never breaks the ledger: what is spent plus what remains is
/// still the ceiling, and spending grows by exactly the amount.
pub proof fn lemma_deduct_keeps_ledger(lines: Map<u128, CreditLineView>, agent_id: u128, amount: u64)
    requires
        lines.contains_key(agent_id),
        lines[agent_id].spent_usd + lines[agent_id].remaining_usd == lines[agent_id].approved_usd,
        deduct_refusal(lines, agent_id, amount) is None,
    ensures
        deducted(lines[agent_id], amount).spent_usd + deducted(lines[agent_id], amount).remaining_usd
            == lines[agent_id].approved_usd,
        deducted(lines[agent_id], amount).spent_usd == lines[agent_id].spent_usd + amount,
{
}

/// Once a line is recalled (or expired, or repaid), every deduction from it is
/// refused with `NoCreditLine`, whatever the amount.
pub proof fn lemma_inactive_line_refuses_deductions(
    lines: Map<u128, CreditLineView>,
    agent_id: u128,
    status: CreditStatus,
    amount: u64,
)
    requires
        lines.contains_key(agent_id),
        status != CreditStatus::Active,
    ensures
        deduct_refusal(lines.insert(agent_id, with_status(lines[agent_id], status)), agent_id, amount)
            == Some(AppError::NoCreditLine(agent_id)),
{
}

/// Without a line, every deduction is refused with `NoCreditLine`.
pub proof fn lemma_no_line_refuses_deductions(lines: Map<u128, CreditLineView>, agent_id: u128, amount: u64)
    requires
        !lines.contains_key(agent_id),
    ensures
        deduct_refusal(lines, agent_id, amount) == Some(AppError::NoCreditLine(agent_id)),
{
}

/// An amount above what remains on an active line is refused, and one within
/// it is accepted.
pub proof fn lemma_deduct_accepts_within_remaining(lines: Map<u128, CreditLineView>, agent_id: u128, amount: u64)
    requires
        lines.contains_key(agent_id),
        lines[agent_id].status == CreditStatus::Active,
    ensures
        amount <= lines[agent_id].remaining_usd <==> deduct_refusal(lines, agent_id, amount) is None,
{
}

/// A recall never raises the reputation score and lowers it by 1.5 where it
/// can; a clean repayment never lowers it and raises it by 0.5 below 10.0.
/// Both keep the score within 0..=10.0.
pub proof fn lemma_reputation_moves(rep: AgentReputation, utilization: nat)
    requires
        rep.score <= 100,
        rep.avg_utilization_pct <= 10000,
        utilization <= 10000,
    ensures
        recalled_reputation(rep).score <= rep.score,
        rep.score >= 15 ==> recalled_reputation(rep).score == rep.score - 15,
        rep.score > 0 ==> recalled_reputation(rep).score < rep.score,
        repaid_reputation(rep, utilization).score >= rep.score,
        rep.score < 100 ==> repaid_reputation(rep, utilization).score > rep.score,
        repaid_reputation(rep, utilization).score <= 100,
        repaid_reputation(rep, utilization).avg_utilization_pct <= 10000,
{
    let total = bump(rep.lines_repaid_cleanly);
    assert((rep.avg_utilization_pct as nat * (total - 1) as nat + utilization) / (total as nat) <= 10000) by (nonlinear_arith)
        requires rep.avg_utilization_pct <= 10000, utilization <= 10000, total >= 1;
}

/// Every score lies between 0 and 10.0, and every recommended amount is at
/// most what was requested.
pub proof fn lemma_score_bounds(p: CreditProposalView, reputation_score: nat)
    requires
        reputation_score <= 100,
    ensures
        proposal_score(p, reputation_score) <= 10000,
        recommended_amount(p.requested_usd as nat, proposal_score(p, reputation_score)) <= p.requested_usd,
{
}

/// The recommended amount never decreases as the score rises.
pub proof fn lemma_recommendation_monotone(requested: nat, s1: nat, s2: nat)
    requires
        s1 <= s2,
    ensures
        recommended_amount(requested, s1) <= recommended_amount(requested, s2),
{
    assert(requested * 3 / 4 <= requested * 9 / 10) by (nonlinear_arith);
    assert(requested * 9 / 10 <= requested) by (nonlinear_arith);
}

/// After a recall the agent can no longer trade on its line, until a new line
/// is approved: the line is `Recalled`; a deduction of any amount from it is
/// refused with `NoCreditLine` and leaves every line as it was; looking up the
/// agent's active line at any time finds none and leaves the line recalled;
/// and whatever the Guardian is then asked about a proposal of the agent, at
/// any time, its credit check fails and the proposal is rejected.
pub proof fn lemma_recall_blocks_trading(
    b0: Banker,
    b1: Banker,
    b2: Banker,
    b3: Banker,
    agent_id: u128,
    reason: String,
    r1: Result<(), AppError>,
    amount: u64,
    r2: Result<(), AppError>,
    now: int,
    r3: Option<CreditLine>,
    verdict: GuardianResultView,
    policy: PolicyConfig,
    activity: Option<ActivityView>,
    p: TradeProposal,
    at: int,
)
    requires
        b0.lines().contains_key(agent_id),
        recall_done(b0, b1, agent_id, reason, r1),
        deduct_done(b1, b2, agent_id, amount, r2),
        active_line_looked_up(b2, b3, agent_id, now, r3),
        p.agent_id == agent_id,
        audit_matches(verdict, check_outcomes(policy, b3.line_table(), activity, p, at)),
    ensures
        r1 is Ok,
        b1.lines()[agent_id].status == CreditStatus::Recalled,
        r2 == Err::<(), AppError>(AppError::NoCreditLine(agent_id)),
        b2.lines() == b1.lines(),
        r3 is None,
        b3.lines() == b1.lines(),
        !credit_check(line_for(b3.line_table(), agent_id), p, at).0,
        !verdict.approved,
        !verdict.checks[0].passed,
{
    assert(b1.lines().contains_key(agent_id));
    assert(b3.lines().contains_key(agent_id));
    assert(b3.line_table().contains_key(agent_id));
    assert(b3.line_table()[agent_id]@ == b3.lines()[agent_id]);
    assert(!verdict.checks[0].passed);
}

/// The amount recommended for an approved proposal, by score: three quarters
/// of the request below 7.0, nine tenths from 7.0 up to 8.0, and the whole
/// request from 8.0 up (rounded down to a micro-dollar).
pub proof fn lemma_recommended_amount_by_score(requested: nat, score: nat)
    ensures
        score < 7000 ==> 4 * recommended_amount(requested, score) <= 3 * requested
            && 3 * requested < 4 * recommended_amount(requested, score) + 4,
        7000 <= score < 8000 ==> 10 * recommended_amount(requested, score) <= 9 * requested
            && 9 * requested < 10 * recommended_amount(requested, score) + 10,
        8000 <= score ==> recommended_amount(requested, score) == requested,
{
}

/// What `evaluate` hands back for an approved proposal is the amount
/// recommended for its score: three quarters of the request below 7.0, nine
/// tenths below 8.0, the whole request from 8.0 up.
pub proof fn lemma_evaluate_recommends_by_score(b0: Banker, b1: Banker, p: CreditProposalView, d: CreditDecision)
    requires
        evaluated(b0, b1, p, d),
        d.approved,
    ensures
        d.score >= 6000,
        d.approved_usd matches Some(a) && {
            &&& d.score < 7000 ==> 4 * a <= 3 * p.requested_usd && 3 * p.requested_usd < 4 * a + 4
            &&& 7000 <= d.score < 8000 ==> 10 * a <= 9 * p.requested_usd && 9 * p.requested_usd < 10 * a + 10
            &&& 8000 <= d.score ==> a == p.requested_usd
        },
{
    let score = proposal_score(p, b0.reputation_of(p.agent_id).score as nat);
    lemma_recommended_amount_by_score(p.requested_usd as nat, score);
    assert(recommended_amount(p.requested_usd as nat, score) <= p.requested_usd);
}

/// `evaluate` queues a proposal exactly when its score reaches 6.0.
pub proof fn lemma_evaluate_approves_from_six(b0: Banker, b1: Banker, p: CreditProposalView, d: CreditDecision)
    requires
        evaluated(b0, b1, p, d),
    ensures
        d.approved <==> d.score >= 6000,
        d.approved ==> b1.pending().contains_key(p.id) && b1.pending()[p.id].proposal == p
            && b1.lines() == b0.lines(),
        !d.approved ==> b1.same_books(&b0),
        d.approved_usd is Some <==> d.approved,
{
}

/// How the parts of the score move. Each tenth of a point of reputation adds
/// 30 thousandths to the score; each part stays within 0..=10.0; without
/// collateral the collateral part is 2.0 and full coverage gives 10.0; more
/// collateral never lowers it; without a stop-loss or a target the
/// risk/return part is 1.0, and a tighter stop-loss never lowers it; a longer
/// strategy text never scores fewer length points; naming pairs and
/// declaring both limits each add 3 points to clarity, up to 10.0.
pub proof fn lemma_score_parts(p: CreditProposalView, reputation: nat, amount: u64, max_loss: u64, len1: nat, len2: nat)
    ensures
        proposal_score(p, reputation + 1) == proposal_score(p, reputation) + 30,
        clarity_score(p) <= 100,
        risk_return_score(p) <= 90,
        collateral_score(p) <= 100,
        p.collateral is None ==> collateral_score(p) == 20,
        (p.collateral matches Some(c) && c.amount > 0 && c.amount >= p.requested_usd) ==> collateral_score(p) == 100,
        (p.collateral matches Some(c) && 0 < c.amount <= amount) ==> collateral_score(p) <= collateral_score(
            CreditProposalView { collateral: Some(Collateral { amount, ..p.collateral->0 }), ..p },
        ),
        (p.max_loss_usd == 0 || p.target_return_pct == 0) ==> risk_return_score(p) == 10,
        (0 < max_loss <= p.max_loss_usd && p.target_return_pct > 0) ==> risk_return_score(p) <= risk_return_score(
            CreditProposalView { max_loss_usd: max_loss, ..p },
        ),
        len1 <= len2 ==> strategy_length_points(len1) <= strategy_length_points(len2),
        10 <= strategy_length_points(len1) <= 40,
        p.allowed_pairs.len() > 0 ==> clarity_score(p) == clarity_score(
            CreditProposalView { allowed_pairs: Seq::empty(), ..p },
        ) + 30,
        p.max_single_trade_usd > 0 && p.max_loss_usd > 0 ==> clarity_score(p) == clarity_score(
            CreditProposalView { max_single_trade_usd: 0, ..p },
        ) + 30,
{
    let q = CreditProposalView { max_loss_usd: max_loss, ..p };
    if 0 < max_loss <= p.max_loss_usd && p.target_return_pct > 0 {
        let r = p.requested_usd as nat;
        assert(loss_points(p.max_loss_usd as nat, r) <= loss_points(max_loss as nat, r));
    }
}

/// A clean repayment folds the line's utilization into the agent's rolling
/// average: with `n` clean repayments counted after it, the new average times
/// `n` is the old average times `n - 1` plus the utilization, rounded down.
/// The count goes up by one and the score by 0.5, capped at 10.0.
pub proof fn lemma_repayment_rolls_average(rep: AgentReputation, utilization: nat)
    requires
        rep.lines_repaid_cleanly < u32::MAX,
        rep.avg_utilization_pct <= 10000,
        utilization <= 10000,
    ensures
        ({
            let n = rep.lines_repaid_cleanly + 1;
            let new = repaid_reputation(rep, utilization);
            &&& new.lines_repaid_cleanly == n
            &&& new.avg_utilization_pct * n <= rep.avg_utilization_pct * (n - 1) + utilization
            &&& rep.avg_utilization_pct * (n - 1) + utilization < new.avg_utilization_pct * n + n
            &&& new.score == if rep.score + 5 <= 100 { rep.score + 5 } else { 100 }
            &&& new.lines_recalled == rep.lines_recalled
            &&& new.agent_id == rep.agent_id
        }),
{
    let n: nat = (rep.lines_repaid_cleanly + 1) as nat;
    let x: nat = rep.avg_utilization_pct as nat * (n - 1) as nat + utilization;
    let q: nat = x / n;
    assert(q * n <= x && x < q * n + n) by (nonlinear_arith)
        requires n > 0, q == x / n;
    assert(x <= 10000 * n) by (nonlinear_arith)
        requires x == rep.avg_utilization_pct as nat * (n - 1) as nat + utilization, rep.avg_utilization_pct <= 10000,
            utilization <= 10000, n >= 1;
    assert(q <= 10000) by (nonlinear_arith)
        requires n > 0, q == x / n, x <= 10000 * n;
}

/// A line's utilization in basis points is what it spent out of its ceiling,
/// rounded down: spent * 10000 lies within one ceiling above utilization *
/// ceiling (0 for a zero ceiling).
pub proof fn lemma_utilization_of_line(line: CreditLineView)
    ensures
        line.approved_usd == 0 ==> utilization_bp(line) == 0,
        line.approved_usd > 0 ==> utilization_bp(line) * line.approved_usd <= line.spent_usd * 10000
            && line.spent_usd * 10000 < utilization_bp(line) * line.approved_usd + line.approved_usd,
{
    if line.approved_usd > 0 {
        let a = line.approved_usd as nat;
        let x = line.spent_usd as nat * 10000;
        let q = x / a;
        assert(q * a <= x && x < q * a + a) by (nonlinear_arith)
            requires a > 0, q == x / a;
    }
}

/// Repaying a line whose agent has a reputation record: the line is marked
/// repaid, and the record counts one more clean repayment with the line's
/// utilization folded into the rolling average, as
/// [`lemma_repayment_rolls_average`] says.
pub proof fn lemma_repay_updates_reputation(b0: Banker, b1: Banker, agent_id: u128, r: Result<(), AppError>)
    requires
        b0.wf(),
        repay_done(b0, b1, agent_id, r),
        b0.lines().contains_key(agent_id),
        b0.reputations().contains_key(agent_id),
        b0.reputations()[agent_id].lines_repaid_cleanly < u32::MAX,
        b0.lines()[agent_id].spent_usd <= b0.lines()[agent_id].approved_usd,
    ensures
        r is Ok,
        b1.lines()[agent_id].status == CreditStatus::Repaid,
        ({
            let old_rep = b0.reputations()[agent_id];
            let new_rep = b1.reputations()[agent_id];
            let line = b0.lines()[agent_id];
            let u = utilization_bp(line);
            let n = old_rep.lines_repaid_cleanly + 1;
            &&& new_rep.lines_repaid_cleanly == n
            &&& new_rep.avg_utilization_pct * n <= old_rep.avg_utilization_pct * (n - 1) + u
            &&& old_rep.avg_utilization_pct * (n - 1) + u < new_rep.avg_utilization_pct * n + n
            &&& line.approved_usd > 0 ==> u * line.approved_usd <= line.spent_usd * 10000
                && line.spent_usd * 10000 < u * line.approved_usd + line.approved_usd
        }),
{
    let line = b0.lines()[agent_id];
    lemma_utilization_of_line(line);
    if line.approved_usd > 0 {
        let a = line.approved_usd as nat;
        let u = utilization_bp(line);
        assert(u <= 10000) by (nonlinear_arith)
            requires u * a <= line.spent_usd * 10000, line.spent_usd <= a, a > 0;
    }
    lemma_repayment_rolls_average(b0.reputations()[agent_id], utilization_bp(line));
}

/// Approving a pending proposal opens an active line for its agent with
/// the amount the human chose (or the recommended one), nothing spent and
/// the proposal's pairs and limits: any deduction up to that amount is then
/// accepted, and any larger one refused for insufficient credit.
pub proof fn lemma_approval_opens_line(
    b0: Banker,
    b1: Banker,
    proposal_id: u128,
    override_usd: Option<u64>,
    r: Result<CreditLine, AppError>,
    amount: u64,
)
    requires
        b0.pending().contains_key(proposal_id),
        proposal_approved(b0, b1, proposal_id, override_usd, r),
    ensures
        r matches Ok(line) && {
            let info = b0.pending()[proposal_id];
            let agent = info.proposal.agent_id;
            let granted = match override_usd { Some(a) => a as nat, None => info.recommended_usd as nat };
            &&& line@.agent_id == agent
            &&& line@.approved_usd == granted
            &&& line@.conditions.allowed_pairs == info.proposal.allowed_pairs
            &&& line@.conditions.max_single_trade_usd == info.proposal.max_single_trade_usd
            &&& line@.conditions.max_loss_usd == info.proposal.max_loss_usd
            &&& line@.expires_at == info.proposal.window_end
            &&& b1.lines().contains_key(agent)
            &&& b1.lines()[agent].status == CreditStatus::Active
            &&& amount <= granted ==> deduct_refusal(b1.lines(), agent, amount) is None
            &&& amount > granted ==> deduct_refusal(b1.lines(), agent, amount)
                == Some(AppError::InsufficientCredit { requested: amount, remaining: granted as u64 })
            &&& !b1.pending().contains_key(proposal_id)
        },
{
}

/// A recall counts against the agent's record: one more recall (below the
/// counter's limit) and 1.5 points off the score, stopping at zero; the rest
/// of the record stays.
pub proof fn lemma_recall_counts_against_reputation(rep: AgentReputation)
    ensures
        rep.lines_recalled < u32::MAX ==> recalled_reputation(rep).lines_recalled == rep.lines_recalled + 1,
        recalled_reputation(rep).score == if rep.score >= 15 { rep.score - 15 } else { 0 },
        recalled_reputation(rep).lines_repaid_cleanly == rep.lines_repaid_cleanly,
        recalled_reputation(rep).lines_approved == rep.lines_approved,
        recalled_reputation(rep).avg_utilization_pct == rep.avg_utilization_pct,
        recalled_reputation(rep).agent_id == rep.agent_id,
{
}

/// A pending proposal is decided once: after it has been approved or
/// rejected, approving it again is refused with `ProposalNotFound`.
pub proof fn lemma_proposal_decided_once(
    b0: Banker,
    b1: Banker,
    b2: Banker,
    proposal_id: u128,
    first: Option<u64>,
    second: Option<u64>,
    r1: Result<CreditLine, AppError>,
    r1_rejected: Result<(), AppError>,
    approved_first: bool,
    r2: Result<CreditLine, AppError>,
)
    requires
        b0.pending().contains_key(proposal_id),
        approved_first ==> proposal_approved(b0, b1, proposal_id, first, r1),
        !approved_first ==> proposal_rejected(b0, b1, proposal_id, r1_rejected),
        proposal_approved(b1, b2, proposal_id, second, r2),
    ensures
        r2 == Err::<CreditLine, AppError>(AppError::ProposalNotFound(proposal_id)),
        b2.lines() == b1.lines(),
{
    assert(!b1.pending().contains_key(proposal_id));
}

/// A held x402 payment is decided once: after it has been approved or
/// blocked, blocking it again is refused with `PaymentNotFound`, and the
/// credit lines stay as the first decision left them.
pub proof fn lemma_payment_decided_once(
    b0: Banker,
    b1: Banker,
    b2: Banker,
    payment_id: u128,
    approved_first: bool,
    r1: Result<(), AppError>,
    reason1: String,
    reason2: String,
    r2: Result<(), AppError>,
)
    requires
        b0.pending_payments().contains_key(payment_id),
        approved_first ==> payment_approved(b0, b1, payment_id, r1),
        approved_first ==> r1 is Ok,
        !approved_first ==> payment_blocked(b0, b1, payment_id, reason1, r1),
        payment_blocked(b1, b2, payment_id, reason2, r2),
    ensures
        r2 == Err::<(), AppError>(AppError::PaymentNotFound(payment_id)),
        b2.lines() == b1.lines(),
{
    assert(!b1.pending_payments().contains_key(payment_id));
}

} // verus!
