//! Funding: the one transaction that pays into the sale.
//!
//! A strict funding pays the exact amount or nothing: the sale reverts the
//! call if it cannot take it all. A best-effort funding pays what the sale
//! can still take, up to the amount, and is refused only by a sale that has
//! closed. Either way one transaction is submitted, once.

use vstd::prelude::*;

use crate::exchange::{Effect, Outcome};
use crate::ledger::{Address, Failure, Transaction, TransactionReceipt, Write};
use crate::word::Word256;

verus! {

/// How much of the amount a funding insists on.
#[derive(Clone, Copy, Debug, PartialEq, Eq, Hash, Structural)]
pub enum FundingPolicy {
    /// All of it, or the funding fails.
    Strict,
    /// As much of it as the sale can take.
    BestEffort,
}

/// How a funding failed.
#[derive(Clone, Copy, Debug, PartialEq, Eq, Hash, Structural)]
pub enum FundingError {
    /// The sale could not take the full amount.
    Reverted,
    /// The sale takes nothing any more.
    SaleClosed,
    /// The transaction did not reach the ledger, or its outcome is unknown.
    RemoteCallFailed,
}

/// Where a funding stands.
#[derive(Clone, Copy, Debug, PartialEq, Eq)]
pub enum FundingStage {
    /// The transaction is being mined.
    Submitting,
    /// The funding is over.
    Settled(Result<TransactionReceipt, FundingError>),
}

/// A funding under way.
#[derive(Clone, Copy, Debug, PartialEq, Eq)]
pub struct FundingExecutor {
    /// The account that pays.
    pub account: Address,
    /// The sale.
    pub sale: Address,
    /// The amount offered.
    pub amount: Word256,
    /// How much of the amount the funding insists on.
    pub policy: FundingPolicy,
    /// Where the funding stands.
    pub stage: FundingStage,
}

/// The transaction that funds the sale under a policy.
pub open spec fn funding_transaction(
    account: Address,
    sale: Address,
    amount: Word256,
    policy: FundingPolicy,
) -> Transaction {
    Transaction {
        from: account,
        to: sale,
        write: match policy {
            FundingPolicy::Strict => Write::Fund { amount },
            FundingPolicy::BestEffort => Write::FundAvailable { limit: amount },
        },
    }
}

/// What the outcome of the funding transaction means under a policy.
///
/// A mined transaction is a success, and its receipt shows what was taken.
/// A refusal by the contract means that a strict funding asked for more than
/// was left, and that a best-effort funding found the sale closed. Anything
/// else is a failure of the connection.
pub open spec fn funding_result(policy: FundingPolicy, outcome: Outcome) -> Result<
    TransactionReceipt,
    FundingError,
> {
    match outcome {
        Outcome::Mined(receipt) => Ok(receipt),
        Outcome::Failed(Failure::Reverted) => match policy {
            FundingPolicy::Strict => Err(FundingError::Reverted),
            FundingPolicy::BestEffort => Err(FundingError::SaleClosed),
        },
        _ => Err(FundingError::RemoteCallFailed),
    }
}

impl FundingExecutor {
    /// The funding before its transaction is submitted.
    pub open spec fn begin(
        account: Address,
        sale: Address,
        amount: Word256,
        policy: FundingPolicy,
    ) -> FundingExecutor {
        FundingExecutor { account, sale, amount, policy, stage: FundingStage::Submitting }
    }

    /// What the funding asks of its driver at its stage.
    pub open spec fn effect(self) -> Effect {
        match self.stage {
            FundingStage::Submitting => Effect::Submit(
                funding_transaction(self.account, self.sale, self.amount, self.policy),
            ),
            FundingStage::Settled(_) => Effect::Finish,
        }
    }

    /// The funding after the outcome of its effect. A funding that is over
    /// stays as it is: nothing is submitted twice.
    pub open spec fn after(self, outcome: Outcome) -> FundingExecutor {
        match self.stage {
            FundingStage::Submitting => FundingExecutor {
                stage: FundingStage::Settled(funding_result(self.policy, outcome)),
                ..self
            },
            FundingStage::Settled(_) => self,
        }
    }

    /// How the funding ended, once it has.
    pub open spec fn result_spec(self) -> Option<Result<TransactionReceipt, FundingError>> {
        match self.stage {
            FundingStage::Submitting => None,
            FundingStage::Settled(r) => Some(r),
        }
    }

    /// Begins the funding of `sale` by `account`, and names the transaction
    /// to submit.
    pub fn fund(account: Address, sale: Address, amount: Word256, policy: FundingPolicy) -> (r: (
        FundingExecutor,
        Effect,
    ))
        ensures
            r.0 == FundingExecutor::begin(account, sale, amount, policy),
            r.1 == r.0.effect(),
            r.1 == Effect::Submit(funding_transaction(account, sale, amount, policy)),
    {
        let executor = FundingExecutor {
            account,
            sale,
            amount,
            policy,
            stage: FundingStage::Submitting,
        };
        (executor, executor.current_effect())
    }

    /// Takes the outcome of the transaction; what follows is the end.
    pub fn advance(self, outcome: Outcome) -> (r: (FundingExecutor, Effect))
        ensures
            r.0 == self.after(outcome),
            r.1 == r.0.effect(),
            r.1 == Effect::Finish,
    {
        let mut next = self;
        match self.stage {
            FundingStage::Submitting => {
                let result = match outcome {
                    Outcome::Mined(receipt) => Ok(receipt),
                    Outcome::Failed(Failure::Reverted) => match self.policy {
                        FundingPolicy::Strict => Err(FundingError::Reverted),
                        FundingPolicy::BestEffort => Err(FundingError::SaleClosed),
                    },
                    _ => Err(FundingError::RemoteCallFailed),
                };
                next.stage = FundingStage::Settled(result);
            },
            FundingStage::Settled(_) => {},
        }
        (next, Effect::Finish)
    }

    /// What the funding asks of its driver at its stage.
    pub fn current_effect(&self) -> (e: Effect)
        ensures
            e == self.effect(),
    {
        match self.stage {
            FundingStage::Submitting => {
                let write = match self.policy {
                    FundingPolicy::Strict => Write::Fund { amount: self.amount },
                    FundingPolicy::BestEffort => Write::FundAvailable { limit: self.amount },
                };
                Effect::Submit(Transaction { from: self.account, to: self.sale, write })
            },
            FundingStage::Settled(_) => Effect::Finish,
        }
    }

    /// How the funding ended; `None` while the transaction is out.
    pub fn result(&self) -> (r: Option<Result<TransactionReceipt, FundingError>>)
        ensures
            r == self.result_spec(),
    {
        match self.stage {
            FundingStage::Submitting => None,
            FundingStage::Settled(r) => Some(r),
        }
    }
}

/// The funding after a run of outcomes.
pub open spec fn funding_run(start: FundingExecutor, outcomes: Seq<Outcome>) -> FundingExecutor
    decreases outcomes.len(),
{
    if outcomes.len() == 0 {
        start
    } else {
        funding_run(start, outcomes.drop_last()).after(outcomes.last())
    }
}

/// A funding submits one transaction, first thing, and none after it,
/// whatever the outcomes: there is no retry.
pub proof fn lemma_one_submission(
    account: Address,
    sale: Address,
    amount: Word256,
    policy: FundingPolicy,
    outcomes: Seq<Outcome>,
)
    ensures
        ({
            let start = FundingExecutor::begin(account, sale, amount, policy);
            let end = funding_run(start, outcomes);
            &&& start.effect() == Effect::Submit(
                funding_transaction(account, sale, amount, policy),
            )
            &&& outcomes.len() > 0 ==> end.effect() == Effect::Finish
            &&& outcomes.len() > 0 ==> end.result_spec() == Some(
                funding_result(policy, outcomes[0]),
            )
        }),
    decreases outcomes.len(),
{
    reveal_with_fuel(funding_run, 2);
    if outcomes.len() > 1 {
        lemma_one_submission(account, sale, amount, policy, outcomes.drop_last());
        assert(outcomes.drop_last()[0] == outcomes[0]);
    }
}

/// With less left in the sale than is offered, the ledger reverts a strict
/// funding and fills a best-effort one in part. The strict funding fails as
/// reverted; the best-effort funding succeeds, and its receipt shows what
/// was taken.
pub proof fn lemma_strict_and_best_effort(receipt: TransactionReceipt)
    ensures
        funding_result(FundingPolicy::Strict, Outcome::Failed(Failure::Reverted)) == Err::<
            TransactionReceipt,
            FundingError,
        >(FundingError::Reverted),
        funding_result(FundingPolicy::BestEffort, Outcome::Mined(receipt)) == Ok::<
            TransactionReceipt,
            FundingError,
        >(receipt),
        funding_result(FundingPolicy::BestEffort, Outcome::Failed(Failure::Reverted)) == Err::<
            TransactionReceipt,
            FundingError,
        >(FundingError::SaleClosed),
{
}

} // verus!
