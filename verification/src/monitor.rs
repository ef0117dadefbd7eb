//! In-memory record of recent trade proposals and guardian results, and the
//! dashboard snapshot built from it.

use vstd::prelude::*;
use crate::bridge::now_millis;
use crate::types::{
    Agent, AgentReputation, CreditLine, DashboardSnapshot, GuardianResult, GuardianResultView,
    PendingProposalInfo, PendingX402Payment, TradeProposal,
};

verus! {

/// How many recent proposals, and how many recent results, are kept.
pub open spec fn recent_capacity() -> nat {
    100
}

/// The last `n` elements of `s` (all of them if there are fewer).
pub open spec fn last_n<T>(s: Seq<T>, n: nat) -> Seq<T> {
    if s.len() > n { s.subrange(s.len() - n, s.len() as int) } else { s }
}

/// Recent proposals and guardian results, oldest first, at most 100 of each.
pub struct Monitor {
    recent_proposals: Vec<TradeProposal>,
    recent_results: Vec<GuardianResult>,
}

impl Monitor {
    /// Recent proposals, oldest first.
    pub closed spec fn proposals(&self) -> Seq<TradeProposal> {
        self.recent_proposals@
    }

    /// Recent guardian results, oldest first, as values.
    pub closed spec fn results(&self) -> Seq<GuardianResultView> {
        self.recent_results@.map_values(|r: GuardianResult| r@)
    }

    /// Neither list exceeds its capacity.
    pub open spec fn wf(&self) -> bool {
        self.proposals().len() <= recent_capacity() && self.results().len() <= recent_capacity()
    }

    /// An empty Monitor.
    pub fn new() -> (r: Monitor)
        ensures
            r.wf(),
            r.proposals().len() == 0,
            r.results().len() == 0,
    {
        Monitor { recent_proposals: Vec::new(), recent_results: Vec::new() }
    }

    /// Record a trade proposal; the oldest is dropped beyond 100.
    pub fn record_proposal(&mut self, proposal: TradeProposal)
        requires
            old(self).wf(),
        ensures
            final(self).wf(),
            final(self).proposals() == last_n(old(self).proposals().push(proposal), recent_capacity()),
            final(self).results() == old(self).results(),
    {
        self.recent_proposals.push(proposal);
        if self.recent_proposals.len() > 100 {
            self.recent_proposals.remove(0);
        }
        assert(self.proposals() =~= last_n(old(self).proposals().push(proposal), recent_capacity()));
    }

    /// Record a guardian result; the oldest is dropped beyond 100.
    pub fn record_guardian_result(&mut self, result: GuardianResult)
        requires
            old(self).wf(),
        ensures
            final(self).wf(),
            final(self).results() == last_n(old(self).results().push(result@), recent_capacity()),
            final(self).proposals() == old(self).proposals(),
    {
        let ghost v = result@;
        self.recent_results.push(result);
        if self.recent_results.len() > 100 {
            self.recent_results.remove(0);
        }
        assert(self.results() =~= last_n(old(self).results().push(v), recent_capacity()));
    }

    /// Copies of the recent proposals, oldest first.
    pub fn recent_proposals(&self) -> (r: Vec<TradeProposal>)
        ensures
            r@ == self.proposals(),
    {
        let mut r: Vec<TradeProposal> = Vec::new();
        let mut i: usize = 0;
        while i < self.recent_proposals.len()
            invariant
                i <= self.recent_proposals@.len(),
                r@ == self.recent_proposals@.take(i as int),
            decreases self.recent_proposals@.len() - i,
        {
            r.push(self.recent_proposals[i].clone());
            i = i + 1;
            assert(r@ =~= self.recent_proposals@.take(i as int));
        }
        assert(self.recent_proposals@.take(i as int) =~= self.recent_proposals@);
        r
    }

    /// Copies of the recent guardian results, oldest first.
    pub fn recent_results(&self) -> (r: Vec<GuardianResult>)
        ensures
            r@.map_values(|x: GuardianResult| x@) == self.results(),
    {
        let mut r: Vec<GuardianResult> = Vec::new();
        let mut i: usize = 0;
        while i < self.recent_results.len()
            invariant
                i <= self.recent_results@.len(),
                r@.len() == i,
                forall|j: int| 0 <= j < i ==> #[trigger] r@[j]@ == self.recent_results@[j]@,
            decreases self.recent_results@.len() - i,
        {
            r.push(self.recent_results[i].clone());
            i = i + 1;
        }
        assert(r@.map_values(|x: GuardianResult| x@) =~= self.results());
        r
    }

    /// A dashboard snapshot at time `timestamp` from the given registry state
    /// and the recent proposals and results.
    pub fn snapshot_at(
        &self,
        agents: Vec<Agent>,
        pending_proposals: Vec<PendingProposalInfo>,
        pending_x402_payments: Vec<PendingX402Payment>,
        active_credit_lines: Vec<CreditLine>,
        reputations: Vec<AgentReputation>,
        timestamp: i64,
    ) -> (r: DashboardSnapshot)
        ensures
            r.agents == agents,
            r.pending_proposals == pending_proposals,
            r.pending_x402_payments == pending_x402_payments,
            r.active_credit_lines == active_credit_lines,
            r.reputations == reputations,
            r.recent_proposals@ == self.proposals(),
            r.recent_guardian_results@.map_values(|x: GuardianResult| x@) == self.results(),
            r.timestamp == timestamp,
    {
        DashboardSnapshot {
            agents,
            pending_proposals,
            pending_x402_payments,
            active_credit_lines,
            recent_proposals: self.recent_proposals(),
            recent_guardian_results: self.recent_results(),
            reputations,
            timestamp,
        }
    }

    /// A dashboard snapshot now (see [`Monitor::snapshot_at`]); the time is
    /// read from the clock.
    pub fn snapshot(
        &self,
        agents: Vec<Agent>,
        pending_proposals: Vec<PendingProposalInfo>,
        pending_x402_payments: Vec<PendingX402Payment>,
        active_credit_lines: Vec<CreditLine>,
        reputations: Vec<AgentReputation>,
    ) -> (r: DashboardSnapshot)
        ensures
            r.agents == agents,
            r.pending_proposals == pending_proposals,
            r.pending_x402_payments == pending_x402_payments,
            r.active_credit_lines == active_credit_lines,
            r.reputations == reputations,
            r.recent_proposals@ == self.proposals(),
            r.recent_guardian_results@.map_values(|x: GuardianResult| x@) == self.results(),
    {
        self.snapshot_at(agents, pending_proposals, pending_x402_payments, active_credit_lines, reputations, now_millis())
    }
}

impl Default for Monitor {
    fn default() -> (r: Monitor)
        ensures
            r.wf(),
            r.proposals().len() == 0,
            r.results().len() == 0,
    {
        Monitor::new()
    }
}

/// The recent lists never exceed 100 entries and always end with the latest
/// record: recording keeps the newest 100, in order.
pub proof fn lemma_recent_window<T>(s: Seq<T>, x: T)
    requires
        s.len() <= recent_capacity(),
    ensures
        last_n(s.push(x), recent_capacity()).len() <= recent_capacity(),
        last_n(s.push(x), recent_capacity()).last() == x,
        s.len() < recent_capacity() ==> last_n(s.push(x), recent_capacity()) == s.push(x),
        s.len() == recent_capacity() ==> last_n(s.push(x), recent_capacity()) == s.drop_first().push(x),
{
    if s.len() == recent_capacity() {
        assert(last_n(s.push(x), recent_capacity()) =~= s.drop_first().push(x));
    }
}

/// The monitor keeps the newest hundred: a list of at most 100 is kept
/// whole, and a longer one is cut to its last 100, in order.
pub proof fn lemma_keeps_last_hundred<T>(s: Seq<T>)
    ensures
        s.len() <= 100 ==> last_n(s, recent_capacity()) == s,
        s.len() > 100 ==> last_n(s, recent_capacity()).len() == 100
            && forall|i: int| 0 <= i < 100 ==> #[trigger] last_n(s, recent_capacity())[i] == s[s.len() - 100 + i],
{
}

} // verus!
