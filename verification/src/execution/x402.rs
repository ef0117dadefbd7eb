//! x402 payment interception and legitimacy screening.
//!
//! When an agent meets an HTTP 402 (Payment Required) response, the payment
//! details are classified by risk before the payment is released: low risk
//! is auto-approved, medium risk waits for a human on the dashboard, high risk
//! is blocked.

use vstd::prelude::*;
use crate::bridge::{lowercase, to_lowercase};
use crate::text::{push_usd, usd_text};
use crate::types::{AppError, CreditLine, CreditLineView, PolicyConfig, X402PaymentRequest, X402RiskLevel, X402Verdict};

verus! {

/// Whether some entry of `list` equals `x` ignoring case.
pub open spec fn listed_ignoring_case(list: Seq<String>, x: Seq<char>) -> bool {
    exists|i: int| 0 <= i < list.len() && lowercase(list[i]@) == lowercase(x)
}

/// The risk level of a payment and the reason for it. High: a blocklisted
/// recipient, an amount over the x402 cap or over the remaining budget, or no
/// active credit line. Medium: a recipient not on the allowlist, or more than
/// half of the remaining budget. Low otherwise.
pub open spec fn x402_risk(
    payment: X402PaymentRequest,
    line: Option<CreditLineView>,
    policy: PolicyConfig,
) -> (X402RiskLevel, Seq<char>) {
    let amount = usd_text(payment.amount_usd as nat);
    if listed_ignoring_case(policy.x402_blocked_recipients@, payment.recipient@) {
        (X402RiskLevel::High, "Recipient "@ + payment.recipient@ + " is blocklisted"@)
    } else if payment.amount_usd > policy.x402_max_payment_usd {
        (X402RiskLevel::High, "Amount "@ + amount + " exceeds x402 cap "@ + usd_text(policy.x402_max_payment_usd as nat))
    } else {
        match line {
            None => (X402RiskLevel::High, "No active credit line for agent"@),
            Some(l) => {
                if payment.amount_usd > l.remaining_usd {
                    (X402RiskLevel::High, "Amount "@ + amount + " exceeds remaining budget "@ + usd_text(l.remaining_usd as nat))
                } else if !listed_ignoring_case(policy.x402_allowed_recipients@, payment.recipient@) {
                    (X402RiskLevel::Medium, "First-time recipient "@ + payment.recipient@ + " \u{2014} requires human review"@)
                } else if 2 * (payment.amount_usd as nat) > l.remaining_usd {
                    (X402RiskLevel::Medium, "Amount "@ + amount + " is >50% of remaining budget "@ + usd_text(l.remaining_usd as nat))
                } else {
                    (X402RiskLevel::Low, "Known recipient, "@ + amount + " within budget \u{2014} auto-approved"@)
                }
            },
        }
    }
}

/// Whether some entry of `list` equals the lower-cased `lowered` ignoring case.
fn listed_lower(list: &Vec<String>, lowered: &String, Ghost(x): Ghost<Seq<char>>) -> (r: bool)
    requires
        lowered@ == lowercase(x),
    ensures
        r == listed_ignoring_case(list@, x),
{
    let mut i: usize = 0;
    while i < list.len()
        invariant
            i <= list@.len(),
            lowered@ == lowercase(x),
            forall|j: int| 0 <= j < i ==> lowercase(list@[j]@) != lowercase(x),
        decreases list@.len() - i,
    {
        let entry = to_lowercase(list[i].as_str());
        if entry == *lowered {
            return true;
        }
        i = i + 1;
    }
    false
}

/// Classify the risk level of an x402 payment request (see [`x402_risk`]).
pub fn classify_risk(
    payment: &X402PaymentRequest,
    credit_line: Option<&CreditLine>,
    policy: &PolicyConfig,
) -> (r: (X402RiskLevel, String))
    ensures
        (r.0, r.1@) == x402_risk(*payment, match credit_line { Some(l) => Some(l@), None => None }, *policy),
{
    let recipient_lower = to_lowercase(payment.recipient.as_str());
    if listed_lower(&policy.x402_blocked_recipients, &recipient_lower, Ghost(payment.recipient@)) {
        let mut s = String::from_str("Recipient ");
        s.append(payment.recipient.as_str());
        s.append(" is blocklisted");
        return (X402RiskLevel::High, s);
    }
    if payment.amount_usd > policy.x402_max_payment_usd {
        let mut s = String::from_str("Amount ");
        push_usd(&mut s, payment.amount_usd);
        s.append(" exceeds x402 cap ");
        push_usd(&mut s, policy.x402_max_payment_usd);
        return (X402RiskLevel::High, s);
    }
    let line = match credit_line {
        Some(l) => l,
        None => {
            return (X402RiskLevel::High, String::from_str("No active credit line for agent"));
        },
    };
    if payment.amount_usd > line.remaining_usd {
        let mut s = String::from_str("Amount ");
        push_usd(&mut s, payment.amount_usd);
        s.append(" exceeds remaining budget ");
        push_usd(&mut s, line.remaining_usd);
        return (X402RiskLevel::High, s);
    }
    if !listed_lower(&policy.x402_allowed_recipients, &recipient_lower, Ghost(payment.recipient@)) {
        let mut s = String::from_str("First-time recipient ");
        s.append(payment.recipient.as_str());
        s.append(" \u{2014} requires human review");
        return (X402RiskLevel::Medium, s);
    }
    if 2 * (payment.amount_usd as u128) > line.remaining_usd as u128 {
        let mut s = String::from_str("Amount ");
        push_usd(&mut s, payment.amount_usd);
        s.append(" is >50% of remaining budget ");
        push_usd(&mut s, line.remaining_usd);
        return (X402RiskLevel::Medium, s);
    }
    let mut s = String::from_str("Known recipient, ");
    push_usd(&mut s, payment.amount_usd);
    s.append(" within budget \u{2014} auto-approved");
    (X402RiskLevel::Low, s)
}

/// Intercept and evaluate an x402 payment request: low risk is approved,
/// medium risk is held for human review, high risk is blocked. The verdict
/// carries the risk level and reason of [`classify_risk`].
pub fn intercept_x402(
    payment: &X402PaymentRequest,
    credit_line: Option<&CreditLine>,
    policy: &PolicyConfig,
) -> (r: Result<X402Verdict, AppError>)
    ensures
        r matches Ok(v) && {
            let (risk, reason) = x402_risk(*payment, match credit_line { Some(l) => Some(l@), None => None }, *policy);
            &&& v.payment_id == payment.id
            &&& v.risk_level == risk
            &&& v.reason@ == reason
            &&& v.approved == (risk == X402RiskLevel::Low)
            &&& v.needs_human_review == (risk == X402RiskLevel::Medium)
        },
{
    let (risk_level, reason) = classify_risk(payment, credit_line, policy);
    let (approved, needs_human_review) = match risk_level {
        X402RiskLevel::Low => (true, false),
        X402RiskLevel::Medium => (false, true),
        X402RiskLevel::High => (false, false),
    };
    Ok(X402Verdict { payment_id: payment.id, approved, risk_level, reason, needs_human_review })
}

/// A blocklisted recipient is always high risk, whatever the amount or line.
pub proof fn lemma_blocklisted_is_high(payment: X402PaymentRequest, line: Option<CreditLineView>, policy: PolicyConfig)
    requires
        listed_ignoring_case(policy.x402_blocked_recipients@, payment.recipient@),
    ensures
        x402_risk(payment, line, policy).0 == X402RiskLevel::High,
{
}

/// A payment over the cap, over the remaining budget, or without an active
/// line is high risk: it is never approved nor queued.
pub proof fn lemma_over_limits_is_high(payment: X402PaymentRequest, line: Option<CreditLineView>, policy: PolicyConfig)
    requires
        payment.amount_usd > policy.x402_max_payment_usd
            || line is None
            || (line matches Some(l) && payment.amount_usd > l.remaining_usd),
    ensures
        x402_risk(payment, line, policy).0 == X402RiskLevel::High,
{
}

/// An auto-approved (low risk) payment is within the cap, within half of the
/// remaining budget, to an allowlisted and not blocklisted recipient.
pub proof fn lemma_low_risk_is_safe(payment: X402PaymentRequest, line: Option<CreditLineView>, policy: PolicyConfig)
    requires
        x402_risk(payment, line, policy).0 == X402RiskLevel::Low,
    ensures
        payment.amount_usd <= policy.x402_max_payment_usd,
        line matches Some(l) && 2 * (payment.amount_usd as nat) <= l.remaining_usd,
        listed_ignoring_case(policy.x402_allowed_recipients@, payment.recipient@),
        !listed_ignoring_case(policy.x402_blocked_recipients@, payment.recipient@),
{
}

/// The three risk levels, exactly. A payment is high risk when its recipient
/// is blocklisted, it exceeds the x402 cap, the agent has no active line, or
/// it exceeds what remains on the line. Otherwise it is low risk when its
/// recipient is allowlisted and it is at most half of what remains, and
/// medium risk when the recipient is not allowlisted or it is more than half.
pub proof fn lemma_risk_levels(payment: X402PaymentRequest, line: Option<CreditLineView>, policy: PolicyConfig)
    ensures
        ({
            let blocked = exists|i: int| 0 <= i < policy.x402_blocked_recipients@.len()
                && lowercase(#[trigger] policy.x402_blocked_recipients@[i]@) == lowercase(payment.recipient@);
            let allowed = exists|i: int| 0 <= i < policy.x402_allowed_recipients@.len()
                && lowercase(#[trigger] policy.x402_allowed_recipients@[i]@) == lowercase(payment.recipient@);
            let high = blocked || payment.amount_usd > policy.x402_max_payment_usd || line is None
                || (line matches Some(l) && payment.amount_usd > l.remaining_usd);
            &&& x402_risk(payment, line, policy).0 == X402RiskLevel::High <==> high
            &&& x402_risk(payment, line, policy).0 == X402RiskLevel::Low <==> !high && allowed
                && (line matches Some(l) && 2 * payment.amount_usd <= l.remaining_usd)
            &&& x402_risk(payment, line, policy).0 == X402RiskLevel::Medium <==> !high && (!allowed
                || (line matches Some(l) && 2 * payment.amount_usd > l.remaining_usd))
        }),
{
}

/// An allowlisted, non-blocklisted payment within the cap and at most half of
/// an active line's remaining budget is low risk, and so auto-approved.
pub proof fn lemma_safe_payment_is_approved(
    payment: X402PaymentRequest,
    line: Option<CreditLineView>,
    policy: PolicyConfig,
)
    requires
        !listed_ignoring_case(policy.x402_blocked_recipients@, payment.recipient@),
        listed_ignoring_case(policy.x402_allowed_recipients@, payment.recipient@),
        payment.amount_usd <= policy.x402_max_payment_usd,
        line matches Some(l) && 2 * payment.amount_usd <= l.remaining_usd,
    ensures
        x402_risk(payment, line, policy).0 == X402RiskLevel::Low,
{
}

} // verus!
