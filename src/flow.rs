use vstd::prelude::*;
use crate::error::SettleError;
use crate::replay::AdvanceRequest;
use crate::settle::{PlanView, SettlementPlan, TransferRequest};

verus! {

/// Where a settlement stands between its ledger calls.
#[derive(Clone, Copy, Debug, PartialEq, Eq, Structural)]
pub enum Stage {
    AwaitingAdvance,
    AwaitingTransfer,
    Settled,
    Failed,
}

/// A call that the host is to make on the ledger.
#[derive(Clone, Copy, Debug)]
pub enum LedgerCall {
    Advance(AdvanceRequest),
    Transfer(TransferRequest),
}

pub enum CallView {
    Advance(Seq<u8>, Seq<u8>),
    Transfer(Seq<u8>, Seq<u8>, u64),
}

impl View for LedgerCall {
    type V = CallView;

    open spec fn view(&self) -> CallView {
        match self {
            LedgerCall::Advance(a) => CallView::Advance(a.token@, a.authority@),
            LedgerCall::Transfer(t) => CallView::Transfer(t.from@, t.to@, t.amount),
        }
    }
}

/// The first stage of a plan: the advance, when there is one, comes first.
pub open spec fn initial_stage(p: PlanView) -> Stage {
    if p.advance is Some {
        Stage::AwaitingAdvance
    } else {
        Stage::AwaitingTransfer
    }
}

/// The stage after the pending call succeeded (`ok`) or failed.
pub open spec fn next_stage(s: Stage, ok: bool) -> Stage {
    match s {
        Stage::AwaitingAdvance => if ok {
            Stage::AwaitingTransfer
        } else {
            Stage::Failed
        },
        Stage::AwaitingTransfer => if ok {
            Stage::Settled
        } else {
            Stage::Failed
        },
        _ => s,
    }
}

/// The call that is pending at stage `s` of plan `p`.
pub open spec fn call_at(p: PlanView, s: Stage) -> Option<CallView> {
    match s {
        Stage::AwaitingAdvance => match p.advance {
            Some(a) => Some(CallView::Advance(a.0, a.1)),
            None => None,
        },
        Stage::AwaitingTransfer => Some(CallView::Transfer(p.transfer.0, p.transfer.1, p.transfer.2)),
        _ => None,
    }
}

/// The result a stage reports: none while a call is pending.
pub open spec fn outcome_at(s: Stage) -> Option<Result<(), SettleError>> {
    match s {
        Stage::Settled => Some(Ok(())),
        Stage::Failed => Some(Err(SettleError::LedgerCall)),
        _ => None,
    }
}

/// The calls issued from stage `s` when the host reports `outcomes` in turn.
pub open spec fn calls_issued(p: PlanView, s: Stage, outcomes: Seq<bool>) -> Seq<CallView>
    decreases outcomes.len(),
{
    match call_at(p, s) {
        None => Seq::empty(),
        Some(c) => if outcomes.len() == 0 {
            seq![c]
        } else {
            seq![c] + calls_issued(p, next_stage(s, outcomes[0]), outcomes.drop_first())
        },
    }
}

/// The stage reached from `s` when the host reports `outcomes` in turn.
pub open spec fn stage_after(s: Stage, outcomes: Seq<bool>) -> Stage
    decreases outcomes.len(),
{
    if outcomes.len() == 0 {
        s
    } else {
        stage_after(next_stage(s, outcomes[0]), outcomes.drop_first())
    }
}

/// The ledger calls of an accepted intent, made one at a time by the host.
pub struct Settlement {
    pub plan: SettlementPlan,
    pub stage: Stage,
}

impl Settlement {
    pub fn new(plan: SettlementPlan) -> (r: Settlement)
        ensures
            r.plan == plan,
            r.stage == initial_stage(plan@),
    {
        let stage = if plan.advance.is_some() {
            Stage::AwaitingAdvance
        } else {
            Stage::AwaitingTransfer
        };
        Settlement { plan, stage }
    }

    /// The call the host is to make now, if any.
    pub fn next_call(&self) -> (r: Option<LedgerCall>)
        ensures
            match r {
                Some(c) => call_at(self.plan@, self.stage) == Some(c@),
                None => call_at(self.plan@, self.stage) is None,
            },
    {
        match self.stage {
            Stage::AwaitingAdvance => match self.plan.advance {
                Some(a) => Some(LedgerCall::Advance(a)),
                None => None,
            },
            Stage::AwaitingTransfer => Some(LedgerCall::Transfer(self.plan.transfer)),
            _ => None,
        }
    }

    /// Takes the outcome of the pending call. A failed call ends the
    /// settlement: nothing further is issued.
    pub fn record(&mut self, succeeded: bool)
        ensures
            final(self).plan == old(self).plan,
            final(self).stage == next_stage(old(self).stage, succeeded),
    {
        self.stage = match self.stage {
            Stage::AwaitingAdvance => if succeeded {
                Stage::AwaitingTransfer
            } else {
                Stage::Failed
            },
            Stage::AwaitingTransfer => if succeeded {
                Stage::Settled
            } else {
                Stage::Failed
            },
            s => s,
        };
    }

    /// The settlement's result once no call is pending.
    pub fn outcome(&self) -> (r: Option<Result<(), SettleError>>)
        ensures
            r == outcome_at(self.stage),
    {
        match self.stage {
            Stage::Settled => Some(Ok(())),
            Stage::Failed => Some(Err(SettleError::LedgerCall)),
            _ => None,
        }
    }
}

/// A settlement without a durable-nonce token issues exactly one call, the
/// transfer, and is settled once the ledger accepts it.
pub proof fn lemma_plain_plan_single_transfer(p: PlanView)
    requires
        p.advance is None,
    ensures
        calls_issued(p, initial_stage(p), seq![true]) == seq![
            CallView::Transfer(p.transfer.0, p.transfer.1, p.transfer.2),
        ],
        stage_after(initial_stage(p), seq![true]) == Stage::Settled,
        outcome_at(stage_after(initial_stage(p), seq![true])) == Some(Ok::<(), SettleError>(())),
{
    let o = seq![true];
    assert(o.drop_first() =~= Seq::<bool>::empty());
    assert(calls_issued(p, Stage::Settled, o.drop_first()) =~= Seq::<CallView>::empty());
    assert(stage_after(Stage::Settled, o.drop_first()) == Stage::Settled);
}

/// In durable-nonce mode the token is advanced first and exactly once; when
/// the advance fails the settlement fails and the transfer is never issued,
/// and when it succeeds the transfer follows.
pub proof fn lemma_advance_precedes_transfer(p: PlanView, rest: Seq<bool>)
    requires
        p.advance is Some,
    ensures
        calls_issued(p, initial_stage(p), seq![false] + rest) == seq![
            CallView::Advance(p.advance.unwrap().0, p.advance.unwrap().1),
        ],
        outcome_at(stage_after(initial_stage(p), seq![false] + rest)) == Some(
            Err::<(), SettleError>(SettleError::LedgerCall),
        ),
        calls_issued(p, initial_stage(p), seq![true, true] + rest) == seq![
            CallView::Advance(p.advance.unwrap().0, p.advance.unwrap().1),
            CallView::Transfer(p.transfer.0, p.transfer.1, p.transfer.2),
        ],
        outcome_at(stage_after(initial_stage(p), seq![true, true] + rest)) == Some(
            Ok::<(), SettleError>(()),
        ),
{
    let a = CallView::Advance(p.advance.unwrap().0, p.advance.unwrap().1);
    let t = CallView::Transfer(p.transfer.0, p.transfer.1, p.transfer.2);
    lemma_terminal_stays(p, Stage::Failed, rest);
    lemma_terminal_stays(p, Stage::Settled, rest);
    let f = seq![false] + rest;
    assert(f[0] == false);
    assert(f.drop_first() =~= rest);
    assert(calls_issued(p, initial_stage(p), f) =~= seq![a]);
    let s = seq![true, true] + rest;
    let s1 = s.drop_first();
    assert(s[0] == true);
    assert(s1[0] == true);
    assert(s1.drop_first() =~= rest);
    assert(calls_issued(p, Stage::AwaitingTransfer, s1) =~= seq![t]);
    assert(calls_issued(p, initial_stage(p), s) =~= seq![a, t]);
    assert(stage_after(Stage::AwaitingTransfer, s1) == stage_after(Stage::Settled, rest));
    assert(stage_after(initial_stage(p), s) == Stage::Settled);
}

/// Once settled or failed, no call is issued and the stage stays.
proof fn lemma_terminal_stays(p: PlanView, s: Stage, rest: Seq<bool>)
    requires
        s == Stage::Settled || s == Stage::Failed,
    ensures
        calls_issued(p, s, rest) == Seq::<CallView>::empty(),
        stage_after(s, rest) == s,
    decreases rest.len(),
{
    if rest.len() > 0 {
        lemma_terminal_stays(p, s, rest.drop_first());
    }
}

} // verus!
