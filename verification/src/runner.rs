//! The shared recursive Nexus loop: the five-outcome step shape and the typed
//! continuation budget that bounds how many non-reply steps one drive may take.
//!
//! The loop itself awaits component engines; what it decides at each turn is
//! [`ContinuationBudget::dispatch_step`], a function from the budget and the next
//! step to the budget after it and the action to perform.

use vstd::prelude::*;

verus! {

/// The continuation limit a runner uses when none is given.
pub const DEFAULT_CONTINUATION_LIMIT_COUNT: u32 = 32;

#[derive(Clone, Copy, Debug, PartialEq, Eq, Structural)]
pub struct ContinuationLimit {
    count: u32,
}

#[derive(Clone, Copy, Debug, PartialEq, Eq, Structural)]
pub struct ContinuationBudget {
    limit: ContinuationLimit,
    completed_step_count: u32,
}

#[derive(Clone, Copy, Debug, PartialEq, Eq, Structural)]
pub struct ContinuationExhausted {
    limit: ContinuationLimit,
    completed_step_count: u32,
    attempted_step_count: u32,
}

/// What a Nexus decision asks for next.
#[derive(Clone, Debug, PartialEq, Eq)]
pub enum NextStep<Reply, SemaWrite, SemaRead, Effect, Work> {
    Reply(Reply),
    SemaWrite(SemaWrite),
    SemaRead(SemaRead),
    RunEffect(Effect),
    Continue(Work),
}

/// What the runner does with one next step once the budget has been consulted.
#[derive(Clone, Debug, PartialEq, Eq)]
pub enum RunnerAction<Reply, SemaWrite, SemaRead, Effect, Work> {
    /// Return this reply to the signal plane.
    Reply(Reply),
    /// The budget refused the step: ask the engines for their exhausted reply.
    Exhausted(ContinuationExhausted),
    /// Apply this storage write, then re-enter with its completion.
    ApplySemaWrite(SemaWrite),
    /// Observe this storage read, then re-enter with its completion.
    ObserveSemaRead(SemaRead),
    /// Run this effect, then re-enter with its completion.
    RunEffect(Effect),
    /// Re-enter Nexus with this work directly.
    Continue(Work),
}

#[derive(Clone, Copy, Debug, PartialEq, Eq, Structural)]
pub struct Runner {
    continuation_limit: ContinuationLimit,
}

impl View for ContinuationLimit {
    type V = nat;

    closed spec fn view(&self) -> nat {
        self.count as nat
    }
}

impl View for ContinuationExhausted {
    /// The limit, the completed step count, and the attempted step count.
    type V = (nat, nat, nat);

    closed spec fn view(&self) -> (nat, nat, nat) {
        (self.limit@, self.completed_step_count as nat, self.attempted_step_count as nat)
    }
}

impl<Reply, SemaWrite, SemaRead, Effect, Work> NextStep<Reply, SemaWrite, SemaRead, Effect, Work> {
    /// Every step but a reply spends one unit of budget.
    pub open spec fn spends_budget(&self) -> bool {
        !(self is Reply)
    }
}

/// One more than `count`, held at the largest `u32`.
pub open spec fn saturating_successor(count: nat) -> nat {
    if count < u32::MAX {
        count + 1
    } else {
        count
    }
}

/// The number of steps completed after taking one more step, given the
/// number completed before it and the limit.
pub open spec fn completed_after_step(completed: nat, limit: nat, spends: bool) -> nat {
    if spends && completed < limit {
        completed + 1
    } else {
        completed
    }
}

/// The number of completed steps after taking, from a fresh budget, a run
/// of steps of which `spends[i]` says whether step `i` spends budget.
pub open spec fn completed_after_run(limit: nat, spends: Seq<bool>) -> nat
    decreases spends.len(),
{
    if spends.len() == 0 {
        0
    } else {
        completed_after_step(
            completed_after_run(limit, spends.drop_last()),
            limit,
            spends.last(),
        )
    }
}

/// The number of steps in a run that spend budget.
pub open spec fn spending_step_count(spends: Seq<bool>) -> nat
    decreases spends.len(),
{
    if spends.len() == 0 {
        0
    } else {
        spending_step_count(spends.drop_last()) + if spends.last() {
            1nat
        } else {
            0nat
        }
    }
}

impl Default for ContinuationLimit {
    fn default() -> (limit: Self)
        ensures
            limit@ == DEFAULT_CONTINUATION_LIMIT_COUNT,
    {
        Self::new(DEFAULT_CONTINUATION_LIMIT_COUNT)
    }
}

impl ContinuationLimit {
    pub fn new(count: u32) -> (limit: Self)
        ensures
            limit@ == count,
    {
        Self { count }
    }

    pub fn count(&self) -> (count: u32)
        ensures
            count == self@,
    {
        self.count
    }

    pub fn budget(&self) -> (budget: ContinuationBudget)
        ensures
            budget.limit_spec() == *self,
            budget.completed_spec() == 0,
    {
        ContinuationBudget::new(*self)
    }
}

impl ContinuationBudget {
    /// The limit this budget was made with.
    pub closed spec fn limit_spec(&self) -> ContinuationLimit {
        self.limit
    }

    /// The number of non-reply steps already spent.
    pub closed spec fn completed_spec(&self) -> nat {
        self.completed_step_count as nat
    }

    /// A budget never records more completed steps than its limit.
    #[verifier::type_invariant]
    closed spec fn within_limit(&self) -> bool {
        self.completed_step_count <= self.limit.count
    }

    pub fn new(limit: ContinuationLimit) -> (budget: Self)
        ensures
            budget.limit_spec() == limit,
            budget.completed_spec() == 0,
    {
        Self { limit, completed_step_count: 0 }
    }

    pub fn limit(&self) -> (limit: ContinuationLimit)
        ensures
            limit == self.limit_spec(),
    {
        self.limit
    }

    pub fn completed_step_count(&self) -> (count: u32)
        ensures
            count == self.completed_spec(),
    {
        self.completed_step_count
    }

    pub fn remaining_step_count(&self) -> (count: u32)
        ensures
            count == self.limit_spec()@ - self.completed_spec(),
    {
        proof {
            use_type_invariant(self);
        }
        self.limit.count().saturating_sub(self.completed_step_count)
    }

    /// Spends one step, or reports exhaustion and leaves the budget as it was.
    pub fn spend_next_step(&mut self) -> (result: Result<(), ContinuationExhausted>)
        ensures
            final(self).limit_spec() == old(self).limit_spec(),
            final(self).completed_spec() == completed_after_step(
                old(self).completed_spec(),
                old(self).limit_spec()@,
                true,
            ),
            forall|calls: nat|
                old(self).completed_spec() == #[trigger] completed_after_run(
                    old(self).limit_spec()@,
                    repeated_spends(calls),
                ) ==> final(self).completed_spec() == completed_after_run(
                    old(self).limit_spec()@,
                    repeated_spends(calls + 1),
                ),
            old(self).completed_spec() < old(self).limit_spec()@ ==> {
                &&& result is Ok
                &&& final(self).completed_spec() == old(self).completed_spec() + 1
            },
            old(self).completed_spec() >= old(self).limit_spec()@ ==> {
                &&& result matches Err(exhausted) && exhausted@ == (
                    old(self).limit_spec()@,
                    old(self).completed_spec(),
                    saturating_successor(old(self).completed_spec()),
                )
                &&& final(self).completed_spec() == old(self).completed_spec()
            },
    {
        proof {
            use_type_invariant(&*self);
            let limit = self.limit_spec()@;
            assert forall|calls: nat| #[trigger]
                completed_after_run(limit, repeated_spends(calls + 1)) == completed_after_step(
                    completed_after_run(limit, repeated_spends(calls)),
                    limit,
                    true,
                ) by {
                lemma_repeated_spends_step(limit, calls);
            }
        }
        let attempted_step_count = self.completed_step_count.saturating_add(1);
        if self.completed_step_count >= self.limit.count() {
            Err(
                ContinuationExhausted {
                    limit: self.limit,
                    completed_step_count: self.completed_step_count,
                    attempted_step_count,
                },
            )
        } else {
            self.completed_step_count = attempted_step_count;
            Ok(())
        }
    }

    /// Decides what the runner does with `next_step`: a reply is returned as it
    /// is without spending budget; any other step spends one unit of budget and
    /// is dispatched, or, once the budget is spent, is refused with the
    /// exhaustion record instead.
    pub fn dispatch_step<Reply, SemaWrite, SemaRead, Effect, Work>(
        &mut self,
        next_step: NextStep<Reply, SemaWrite, SemaRead, Effect, Work>,
    ) -> (action: RunnerAction<Reply, SemaWrite, SemaRead, Effect, Work>)
        ensures
            final(self).limit_spec() == old(self).limit_spec(),
            final(self).completed_spec() == completed_after_step(
                old(self).completed_spec(),
                old(self).limit_spec()@,
                next_step.spends_budget(),
            ),
            next_step.spends_budget() && old(self).completed_spec() >= old(self).limit_spec()@
                ==> (action matches RunnerAction::Exhausted(exhausted) && exhausted@ == (
                old(self).limit_spec()@,
                old(self).completed_spec(),
                saturating_successor(old(self).completed_spec()),
            )),
            !next_step.spends_budget() || old(self).completed_spec() < old(self).limit_spec()@
                ==> match next_step {
                NextStep::Reply(reply) => action == RunnerAction::<
                    Reply,
                    SemaWrite,
                    SemaRead,
                    Effect,
                    Work,
                >::Reply(reply),
                NextStep::SemaWrite(write) => action == RunnerAction::<
                    Reply,
                    SemaWrite,
                    SemaRead,
                    Effect,
                    Work,
                >::ApplySemaWrite(write),
                NextStep::SemaRead(read) => action == RunnerAction::<
                    Reply,
                    SemaWrite,
                    SemaRead,
                    Effect,
                    Work,
                >::ObserveSemaRead(read),
                NextStep::RunEffect(effect) => action == RunnerAction::<
                    Reply,
                    SemaWrite,
                    SemaRead,
                    Effect,
                    Work,
                >::RunEffect(effect),
                NextStep::Continue(work) => action == RunnerAction::<
                    Reply,
                    SemaWrite,
                    SemaRead,
                    Effect,
                    Work,
                >::Continue(work),
            },
    {
        match next_step {
            NextStep::Reply(reply) => RunnerAction::Reply(reply),
            NextStep::SemaWrite(write) => match self.spend_next_step() {
                Ok(()) => RunnerAction::ApplySemaWrite(write),
                Err(exhausted) => RunnerAction::Exhausted(exhausted),
            },
            NextStep::SemaRead(read) => match self.spend_next_step() {
                Ok(()) => RunnerAction::ObserveSemaRead(read),
                Err(exhausted) => RunnerAction::Exhausted(exhausted),
            },
            NextStep::RunEffect(effect) => match self.spend_next_step() {
                Ok(()) => RunnerAction::RunEffect(effect),
                Err(exhausted) => RunnerAction::Exhausted(exhausted),
            },
            NextStep::Continue(work) => match self.spend_next_step() {
                Ok(()) => RunnerAction::Continue(work),
                Err(exhausted) => RunnerAction::Exhausted(exhausted),
            },
        }
    }
}

impl ContinuationExhausted {
    pub fn limit(&self) -> (limit: ContinuationLimit)
        ensures
            limit@ == self@.0,
    {
        self.limit
    }

    pub fn completed_step_count(&self) -> (count: u32)
        ensures
            count == self@.1,
    {
        self.completed_step_count
    }

    pub fn attempted_step_count(&self) -> (count: u32)
        ensures
            count == self@.2,
    {
        self.attempted_step_count
    }
}

impl Default for Runner {
    fn default() -> (runner: Self)
        ensures
            runner.continuation_limit_spec()@ == DEFAULT_CONTINUATION_LIMIT_COUNT,
    {
        Self::new(ContinuationLimit::default())
    }
}

impl Runner {
    /// The limit each drive's budget starts from.
    pub closed spec fn continuation_limit_spec(&self) -> ContinuationLimit {
        self.continuation_limit
    }

    pub fn new(continuation_limit: ContinuationLimit) -> (runner: Self)
        ensures
            runner.continuation_limit_spec() == continuation_limit,
    {
        Self { continuation_limit }
    }

    pub fn continuation_limit(&self) -> (limit: ContinuationLimit)
        ensures
            limit == self.continuation_limit_spec(),
    {
        self.continuation_limit
    }
}

/// A run of steps taken from a fresh budget completes exactly as many
/// non-reply steps as it asked for, up to the limit and never beyond it.
pub proof fn lemma_run_completes_min_of_limit_and_requests(limit: nat, spends: Seq<bool>)
    ensures
        completed_after_run(limit, spends) <= limit,
        completed_after_run(limit, spends) <= spending_step_count(spends),
        completed_after_run(limit, spends) == if spending_step_count(spends) <= limit {
            spending_step_count(spends)
        } else {
            limit
        },
    decreases spends.len(),
{
    if spends.len() > 0 {
        lemma_run_completes_min_of_limit_and_requests(limit, spends.drop_last());
    }
}

/// The budget spends of `count` successive non-reply steps.
pub open spec fn repeated_spends(count: nat) -> Seq<bool> {
    Seq::new(count, |i: int| true)
}

/// One more non-reply step extends a run of `count` of them by one step.
proof fn lemma_repeated_spends_step(limit: nat, count: nat)
    ensures
        completed_after_run(limit, repeated_spends(count + 1)) == completed_after_step(
            completed_after_run(limit, repeated_spends(count)),
            limit,
            true,
        ),
{
    assert(repeated_spends(count + 1).drop_last() =~= repeated_spends(count));
}

/// A run of `count` non-reply steps spends budget `count` times.
proof fn lemma_repeated_spends_count(count: nat)
    ensures
        spending_step_count(repeated_spends(count)) == count,
    decreases count,
{
    if count > 0 {
        lemma_repeated_spends_count((count - 1) as nat);
        assert(repeated_spends(count).drop_last() =~= repeated_spends((count - 1) as nat));
    }
}

/// After `count` spends from a fresh budget, exactly min(count, limit) steps are completed.
proof fn lemma_repeated_spends_complete(limit: nat, count: nat)
    ensures
        completed_after_run(limit, repeated_spends(count)) == if count <= limit {
            count
        } else {
            limit
        },
{
    lemma_repeated_spends_count(count);
    lemma_run_completes_min_of_limit_and_requests(limit, repeated_spends(count));
}

/// `count` successive calls of `spend_next_step` on a fresh budget (which
/// `spend_next_step`'s contract ties to `repeated_spends`: a budget that has
/// completed what `calls` spends complete goes on to what `calls + 1`
/// complete; a fresh budget has completed none, what zero spends complete): the call
/// numbered `i` (from 0) finds fewer than `limit` steps completed, and so
/// succeeds, exactly when `i < limit`; the completed count never decreases,
/// never passes the limit, and ends at min(count, limit), the number of calls
/// that succeeded.
pub proof fn lemma_successive_spends(limit: nat, count: nat)
    ensures
        completed_after_run(limit, repeated_spends(count)) == if count <= limit {
            count
        } else {
            limit
        },
        forall|i: nat|
            i < count ==> (#[trigger] completed_after_run(limit, repeated_spends(i)) < limit <==> i
                < limit),
        forall|i: nat, j: nat|
            i <= j <= count ==> #[trigger] completed_after_run(limit, repeated_spends(i))
                <= #[trigger] completed_after_run(limit, repeated_spends(j)) <= limit,
{
    lemma_repeated_spends_complete(limit, count);
    assert forall|i: nat| i < count implies (#[trigger] completed_after_run(
        limit,
        repeated_spends(i),
    ) < limit <==> i < limit) by {
        lemma_repeated_spends_complete(limit, i);
    }
    assert forall|i: nat, j: nat| i <= j <= count implies #[trigger] completed_after_run(
        limit,
        repeated_spends(i),
    ) <= #[trigger] completed_after_run(limit, repeated_spends(j)) <= limit by {
        lemma_repeated_spends_complete(limit, i);
        lemma_repeated_spends_complete(limit, j);
    }
}

/// Once a budget is spent, every later step leaves it spent: further non-reply
/// steps are refused and nothing more is completed.
pub proof fn lemma_exhaustion_is_permanent(limit: nat, completed: nat, spends: bool)
    requires
        completed >= limit,
    ensures
        completed_after_step(completed, limit, spends) == completed,
{
}

} // verus!
