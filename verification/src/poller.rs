//! The force-recall rule the portfolio poller applies to every active credit
//! line: once the money spent plus the unrealized losses of the open
//! positions in the line's pairs reach the line's maximum loss, the line is
//! recalled.

use vstd::prelude::*;
use crate::execution::okx_rest::OkxPosition;
use crate::guardian::{contains_text, holds_text};
use crate::text::{push_usd_wide, usd_text};
use crate::types::CreditLine;

verus! {

/// The unrealized losses (as positive amounts) of the positions in `pairs`;
/// gains count for nothing.
pub open spec fn pair_losses(positions: Seq<OkxPosition>, pairs: Seq<String>) -> nat
    decreases positions.len(),
{
    if positions.len() == 0 {
        0
    } else {
        let rest = pair_losses(positions.drop_last(), pairs);
        let p = positions.last();
        if holds_text(pairs, p.inst_id@) && p.unrealized_pnl < 0 {
            rest + (-p.unrealized_pnl) as nat
        } else {
            rest
        }
    }
}

proof fn lemma_pair_losses_bound(positions: Seq<OkxPosition>, pairs: Seq<String>)
    ensures
        pair_losses(positions, pairs) <= positions.len() * 0x8000_0000_0000_0000,
    decreases positions.len(),
{
    if positions.len() > 0 {
        lemma_pair_losses_bound(positions.drop_last(), pairs);
    }
}

/// The unrealized loss of the positions in `pairs` (see [`pair_losses`]).
pub fn unrealized_loss(positions: &Vec<OkxPosition>, pairs: &Vec<String>) -> (r: u128)
    ensures
        r == pair_losses(positions@, pairs@),
{
    let mut total: u128 = 0;
    let mut i: usize = 0;
    while i < positions.len()
        invariant
            i <= positions@.len(),
            total == pair_losses(positions@.take(i as int), pairs@),
            total <= i * 0x8000_0000_0000_0000,
        decreases positions@.len() - i,
    {
        let p = &positions[i];
        assert(positions@.take(i + 1).drop_last() =~= positions@.take(i as int));
        if p.unrealized_pnl < 0 && contains_text(pairs, &p.inst_id) {
            let loss: u128 = (0i128 - p.unrealized_pnl as i128) as u128;
            assert(i < 0x1_0000_0000_0000_0000) by {
                assert(positions@.len() <= usize::MAX);
            }
            assert((i + 1) * 0x8000_0000_0000_0000 <= 0x1_0000_0000_0000_0000 * 0x8000_0000_0000_0000) by (nonlinear_arith)
                requires i < 0x1_0000_0000_0000_0000;
            total = total + loss;
        }
        i = i + 1;
    }
    assert(positions@.take(i as int) =~= positions@);
    total
}

/// What the line has lost: what it spent plus the unrealized losses of the
/// positions in its pairs.
pub open spec fn effective_loss(line: CreditLine, positions: Seq<OkxPosition>) -> nat {
    line.spent_usd as nat + pair_losses(positions, line.conditions.allowed_pairs@)
}

/// The reason a line is recalled when its effective loss reaches its
/// maximum loss.
pub open spec fn max_loss_reason(line: CreditLine, positions: Seq<OkxPosition>) -> Seq<char> {
    let loss = pair_losses(positions, line.conditions.allowed_pairs@);
    "Max loss exceeded: "@ + usd_text(effective_loss(line, positions)) + " > "@
        + usd_text(line.conditions.max_loss_usd as nat) + " (spent="@ + usd_text(line.spent_usd as nat)
        + " + unrealized_loss="@ + usd_text(loss) + ")"@
}

/// Whether the line must be force-recalled, and why: exactly when its
/// effective loss reaches its maximum loss (the line's stop-loss).
pub fn recall_decision(line: &CreditLine, positions: &Vec<OkxPosition>) -> (r: Option<String>)
    ensures
        effective_loss(*line, positions@) >= line.conditions.max_loss_usd ==> (r matches Some(t)
            && t@ == max_loss_reason(*line, positions@)),
        effective_loss(*line, positions@) < line.conditions.max_loss_usd ==> r is None,
{
    let loss = unrealized_loss(positions, &line.conditions.allowed_pairs);
    let n = positions.len();
    proof { lemma_pair_losses_bound(positions@, line.conditions.allowed_pairs@); }
    assert(loss + line.spent_usd < 0x1_0000_0000_0000_0000_0000_0000_0000_0000) by (nonlinear_arith)
        requires
            loss <= positions@.len() * 0x8000_0000_0000_0000,
            positions@.len() <= 0xffff_ffff_ffff_ffff,
            line.spent_usd <= 0xffff_ffff_ffff_ffff;
    let effective: u128 = line.spent_usd as u128 + loss;
    if effective < line.conditions.max_loss_usd as u128 {
        return None;
    }
    let mut t = String::from_str("Max loss exceeded: ");
    push_usd_wide(&mut t, effective);
    t.append(" > ");
    push_usd_wide(&mut t, line.conditions.max_loss_usd as u128);
    t.append(" (spent=");
    push_usd_wide(&mut t, line.spent_usd as u128);
    t.append(" + unrealized_loss=");
    push_usd_wide(&mut t, loss);
    t.append(")");
    Some(t)
}

/// Only losses in the line's own pairs count, and gains never offset them:
/// the effective loss is at least what was spent, and adding a position in a
/// pair outside the line, or a position in profit, leaves it unchanged.
pub proof fn lemma_loss_accounting(line: CreditLine, positions: Seq<OkxPosition>, extra: OkxPosition)
    requires
        !holds_text(line.conditions.allowed_pairs@, extra.inst_id@) || extra.unrealized_pnl >= 0,
    ensures
        effective_loss(line, positions) >= line.spent_usd,
        effective_loss(line, positions.push(extra)) == effective_loss(line, positions),
{
    assert(positions.push(extra).drop_last() =~= positions);
}

/// A losing position in one of the line's pairs adds exactly its loss to what
/// the line has lost, and with no positions the line has lost what it spent.
pub proof fn lemma_pair_loss_counts(line: CreditLine, positions: Seq<OkxPosition>, extra: OkxPosition)
    requires
        exists|i: int| 0 <= i < line.conditions.allowed_pairs@.len()
            && #[trigger] line.conditions.allowed_pairs@[i]@ == extra.inst_id@,
        extra.unrealized_pnl < 0,
    ensures
        effective_loss(line, positions.push(extra)) == effective_loss(line, positions) - extra.unrealized_pnl,
        effective_loss(line, Seq::empty()) == line.spent_usd,
{
    assert(positions.push(extra).drop_last() =~= positions);
}

} // verus!
