//! What holds of every conditioning, whatever the ledger answers.

use vstd::prelude::*;

use crate::conditioning::{
    approval_ceiling, ConditioningOptions, ConditioningSequence, ConditioningStage,
};
use crate::exchange::{Effect, Note, Outcome};
use crate::ledger::{Address, Query, Read, Transaction, Value, Write};
use crate::word::Word256;

verus! {

/// The sequence after a run of outcomes, each answering the effect that the
/// sequence named before it.
pub open spec fn run(start: ConditioningSequence, outcomes: Seq<Outcome>) -> ConditioningSequence
    decreases outcomes.len(),
{
    if outcomes.len() == 0 {
        start
    } else {
        run(start, outcomes.drop_last()).after(outcomes.last())
    }
}

/// The effect that the sequence names after the first `i` outcomes of a run.
pub open spec fn effect_at(start: ConditioningSequence, outcomes: Seq<Outcome>, i: int) -> Effect {
    run(start, outcomes.take(i)).effect()
}

/// Whether an effect is the submission of a wrap.
pub open spec fn is_wrap(effect: Effect) -> bool {
    effect matches Effect::Submit(t) && t.write is Deposit
}

/// Whether an effect is the submission of an approval.
pub open spec fn is_approval(effect: Effect) -> bool {
    effect matches Effect::Submit(t) && t.write is Approve
}

/// How far along a stage is: every step leads to a stage further along.
pub open spec fn stage_rank(stage: ConditioningStage) -> nat {
    match stage {
        ConditioningStage::ReadBalance => 0,
        ConditioningStage::TellWrapping => 1,
        ConditioningStage::TellBalanceSufficient => 1,
        ConditioningStage::Wrap => 2,
        ConditioningStage::ReadAllowance => 3,
        ConditioningStage::TellApproving => 4,
        ConditioningStage::TellAllowanceSufficient => 4,
        ConditioningStage::Approve => 5,
        ConditioningStage::Finished => 6,
        ConditioningStage::Failed(_) => 6,
    }
}

/// Whether two sequences condition the same account for the same payment.
pub open spec fn same_task(a: ConditioningSequence, b: ConditioningSequence) -> bool {
    a.account == b.account && a.token == b.token && a.target == b.target && a.amount == b.amount
        && a.options == b.options
}

/// A step changes the stage and the records, never the task. It leads
/// further along, and a sequence that has ended stays as it is.
pub proof fn lemma_step_forward(s: ConditioningSequence, outcome: Outcome)
    ensures
        same_task(s, s.after(outcome)),
        s.is_over() ==> s.after(outcome) == s,
        !s.is_over() ==> stage_rank(s.after(outcome).stage) > stage_rank(s.stage),
{
}

/// One more outcome is one more step.
pub proof fn lemma_run_step(start: ConditioningSequence, outcomes: Seq<Outcome>, i: int)
    requires
        0 <= i < outcomes.len(),
    ensures
        run(start, outcomes.take(i + 1)) == run(start, outcomes.take(i)).after(outcomes[i]),
{
    assert(outcomes.take(i + 1).drop_last() =~= outcomes.take(i));
    assert(outcomes.take(i + 1).last() == outcomes[i]);
}

/// Along a run the task stays and the stages come in order: a later point
/// of the run is further along, unless the sequence had ended before.
pub proof fn lemma_stages_in_order(
    start: ConditioningSequence,
    outcomes: Seq<Outcome>,
    i: int,
    j: int,
)
    requires
        0 <= i <= j <= outcomes.len(),
    ensures
        same_task(start, run(start, outcomes.take(j))),
        run(start, outcomes.take(i)).is_over() ==> run(start, outcomes.take(j)) == run(
            start,
            outcomes.take(i),
        ),
        i < j && !run(start, outcomes.take(i)).is_over() ==> stage_rank(
            run(start, outcomes.take(j)).stage,
        ) > stage_rank(run(start, outcomes.take(i)).stage),
    decreases j,
{
    if j == 0 {
        assert(outcomes.take(0) =~= Seq::<Outcome>::empty());
    } else if i == j {
        lemma_stages_in_order(start, outcomes, 0, j - 1);
        lemma_run_step(start, outcomes, j - 1);
        lemma_step_forward(run(start, outcomes.take(j - 1)), outcomes[j - 1]);
    } else {
        lemma_stages_in_order(start, outcomes, i, j - 1);
        lemma_run_step(start, outcomes, j - 1);
        lemma_step_forward(run(start, outcomes.take(j - 1)), outcomes[j - 1]);
    }
}

/// A wrap is submitted at most once in a run, and it wraps the full amount
/// for the account.
pub proof fn lemma_wraps_once(
    start: ConditioningSequence,
    outcomes: Seq<Outcome>,
    i: int,
    j: int,
)
    requires
        0 <= i <= outcomes.len(),
        0 <= j <= outcomes.len(),
        is_wrap(effect_at(start, outcomes, i)),
        is_wrap(effect_at(start, outcomes, j)),
    ensures
        i == j,
        effect_at(start, outcomes, i) == Effect::Submit(
            Transaction {
                from: start.account,
                to: start.token,
                write: Write::Deposit { value: start.amount },
            },
        ),
{
    if i < j {
        lemma_stages_in_order(start, outcomes, i, j);
    } else {
        lemma_stages_in_order(start, outcomes, j, i);
    }
}

/// An approval is submitted at most once in a run, and it sets the ceiling
/// for the target.
pub proof fn lemma_approves_once(
    start: ConditioningSequence,
    outcomes: Seq<Outcome>,
    i: int,
    j: int,
)
    requires
        0 <= i <= outcomes.len(),
        0 <= j <= outcomes.len(),
        is_approval(effect_at(start, outcomes, i)),
        is_approval(effect_at(start, outcomes, j)),
    ensures
        i == j,
        effect_at(start, outcomes, i) == Effect::Submit(
            Transaction {
                from: start.account,
                to: start.token,
                write: Write::Approve {
                    spender: start.target,
                    amount: Word256::of(approval_ceiling()),
                },
            },
        ),
{
    if i < j {
        lemma_stages_in_order(start, outcomes, i, j);
    } else {
        lemma_stages_in_order(start, outcomes, j, i);
    }
}

/// Where a run submits both, the wrap comes before the approval.
pub proof fn lemma_wrap_before_approval(
    start: ConditioningSequence,
    outcomes: Seq<Outcome>,
    i: int,
    j: int,
)
    requires
        0 <= i <= outcomes.len(),
        0 <= j <= outcomes.len(),
        is_wrap(effect_at(start, outcomes, i)),
        is_approval(effect_at(start, outcomes, j)),
    ensures
        i < j,
{
    if j <= i {
        lemma_stages_in_order(start, outcomes, j, i);
    }
}

/// A conditioning wraps only where wrapping is permitted and the balance it
/// read is below the amount: with a balance that covers the amount, no run
/// submits a wrap.
pub proof fn lemma_wrap_needs_shortfall(
    account: Address,
    token: Address,
    target: Address,
    amount: Word256,
    options: ConditioningOptions,
    outcomes: Seq<Outcome>,
    i: int,
)
    requires
        0 <= i <= outcomes.len(),
        is_wrap(
            effect_at(
                ConditioningSequence::begin(account, token, target, amount, options),
                outcomes,
                i,
            ),
        ),
    ensures
        options.allow_wrap,
        i == 2,
        outcomes[0] matches Outcome::Value(Value::Word(balance)) && balance@ < amount@,
{
    let start = ConditioningSequence::begin(account, token, target, amount, options);
    assert(outcomes.take(0) =~= Seq::<Outcome>::empty());
    lemma_stages_in_order(start, outcomes, 0, i);
    assert(i >= 1);
    lemma_run_step(start, outcomes, 0);
    lemma_stages_in_order(start, outcomes, 1, i);
    assert(i >= 2);
    lemma_run_step(start, outcomes, 1);
    lemma_stages_in_order(start, outcomes, 2, i);
}

/// An account without wrapped ether that may wrap is conditioned by exactly
/// one wrap of the amount and then, its allowance being short, exactly one
/// approval; nothing else is submitted.
pub proof fn lemma_empty_account_wraps_and_approves(
    account: Address,
    token: Address,
    target: Address,
    amount: Word256,
    allow_approve: bool,
    balance: Word256,
    allowance: Word256,
    outcomes: Seq<Outcome>,
)
    requires
        balance@ < amount@,
        allowance@ < amount@,
        outcomes.len() == 6,
        outcomes[0] == Outcome::Value(Value::Word(balance)),
        outcomes[1] == Outcome::Told,
        outcomes[2] is Mined,
        outcomes[3] == Outcome::Value(Value::Word(allowance)),
        outcomes[4] == Outcome::Told,
        outcomes[5] is Mined,
    ensures
        ({
            let options = ConditioningOptions { allow_wrap: true, allow_approve };
            let start = ConditioningSequence::begin(account, token, target, amount, options);
            &&& effect_at(start, outcomes, 0) == Effect::Read(
                Query { to: token, read: Read::BalanceOf { owner: account }, block: None },
            )
            &&& effect_at(start, outcomes, 1) == Effect::Tell(Note::WrappingWeth)
            &&& effect_at(start, outcomes, 2) == Effect::Submit(
                Transaction { from: account, to: token, write: Write::Deposit { value: amount } },
            )
            &&& effect_at(start, outcomes, 3) == Effect::Read(
                Query {
                    to: token,
                    read: Read::Allowance { owner: account, spender: target },
                    block: None,
                },
            )
            &&& effect_at(start, outcomes, 4) == Effect::Tell(Note::ApprovingWeth)
            &&& effect_at(start, outcomes, 5) == Effect::Submit(
                Transaction {
                    from: account,
                    to: token,
                    write: Write::Approve {
                        spender: target,
                        amount: Word256::of(approval_ceiling()),
                    },
                },
            )
            &&& effect_at(start, outcomes, 6) == Effect::Finish
            &&& run(start, outcomes).stage == ConditioningStage::Finished
        }),
{
    let options = ConditioningOptions { allow_wrap: true, allow_approve };
    let start = ConditioningSequence::begin(account, token, target, amount, options);
    assert(outcomes.take(0) =~= Seq::<Outcome>::empty());
    lemma_run_step(start, outcomes, 0);
    lemma_run_step(start, outcomes, 1);
    lemma_run_step(start, outcomes, 2);
    lemma_run_step(start, outcomes, 3);
    lemma_run_step(start, outcomes, 4);
    lemma_run_step(start, outcomes, 5);
    assert(outcomes.take(6) =~= outcomes);
}

} // verus!
