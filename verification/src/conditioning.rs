//! Conditioning: what an account must do before it can pay into the sale.
//!
//! The sale is paid in wrapped ether that it has been allowed to spend.
//! Conditioning looks at the account's balance and allowance and submits
//! what is missing, a step at a time and in this order:
//!
//! 1. If wrapping is permitted, read the balance. Below the amount, wrap the
//!    full amount (not the shortfall) and wait for it to be mined.
//! 2. If approving is permitted, or ether was wrapped, read the allowance.
//!    Below the amount, approve ten whole units, whatever the amount.
//!
//! A failed transaction ends the sequence at once; nothing is retried.

use vstd::pervasive::unreached;
use vstd::prelude::*;

use crate::amount::lemma_pow10_values;
use crate::exchange::{Effect, Note, Outcome};
use crate::ledger::{Address, Failure, Query, Read, Transaction, TxHash, Value, Write};
use crate::word::{pow10, Word256};

verus! {

/// Which sub-steps a conditioning may take.
#[derive(Clone, Copy, Debug, PartialEq, Eq, Hash, Structural)]
pub struct ConditioningOptions {
    /// Whether ether may be wrapped.
    pub allow_wrap: bool,
    /// Whether the allowance may be raised.
    pub allow_approve: bool,
}

/// The sub-steps of a conditioning.
#[derive(Clone, Copy, Debug, PartialEq, Eq, Hash, Structural)]
pub enum SubStep {
    /// Wrapping ether.
    Wrap,
    /// Allowing the sale to spend.
    Approve,
}

/// Why a conditioning ended early.
#[derive(Clone, Copy, Debug, PartialEq, Eq, Hash, Structural)]
pub enum ConditioningError {
    /// The transaction of a sub-step failed.
    StepFailed(SubStep, Failure),
    /// The read that a sub-step depends on failed.
    RemoteCallFailed(SubStep),
}

/// What became of a sub-step.
#[derive(Clone, Copy, Debug, PartialEq, Eq)]
pub enum StepRecord {
    /// The step was not looked at.
    NotConsidered,
    /// The ledger already had what the step would bring about.
    Skipped,
    /// The step's transaction was mined.
    Submitted(TxHash),
}

/// Where a conditioning stands.
#[derive(Clone, Copy, Debug, PartialEq, Eq, Hash, Structural)]
pub enum ConditioningStage {
    /// The balance is being read.
    ReadBalance,
    /// The operator is told that ether will be wrapped.
    TellWrapping,
    /// The wrap is being mined.
    Wrap,
    /// The operator is told that the balance suffices.
    TellBalanceSufficient,
    /// The allowance is being read.
    ReadAllowance,
    /// The operator is told that the allowance will be raised.
    TellApproving,
    /// The approval is being mined.
    Approve,
    /// The operator is told that the allowance suffices.
    TellAllowanceSufficient,
    /// Every permitted step is done.
    Finished,
    /// A step failed.
    Failed(ConditioningError),
}

/// A conditioning under way.
#[derive(Clone, Copy, Debug, PartialEq, Eq)]
pub struct ConditioningSequence {
    /// The account that is conditioned.
    pub account: Address,
    /// The wrapped-ether token.
    pub token: Address,
    /// The contract that is to spend: the sale.
    pub target: Address,
    /// The amount that the account wants to pay.
    pub amount: Word256,
    /// The permitted sub-steps.
    pub options: ConditioningOptions,
    /// Where the sequence stands.
    pub stage: ConditioningStage,
    /// What became of the wrap.
    pub wrap: StepRecord,
    /// What became of the approval.
    pub approve: StepRecord,
}

/// The allowance that an approval sets: ten whole units.
pub open spec fn approval_ceiling() -> nat {
    10 * pow10(18)
}

/// The stage that follows once wrapping is settled.
pub open spec fn stage_after_wrap(options: ConditioningOptions, wrapped: bool) -> ConditioningStage {
    if options.allow_approve || wrapped {
        ConditioningStage::ReadAllowance
    } else {
        ConditioningStage::Finished
    }
}

/// The stage that a conditioning begins at.
pub open spec fn first_stage(options: ConditioningOptions) -> ConditioningStage {
    if options.allow_wrap {
        ConditioningStage::ReadBalance
    } else {
        stage_after_wrap(options, false)
    }
}

impl ConditioningSequence {
    /// The conditioning of an account, before its first step.
    pub open spec fn begin(
        account: Address,
        token: Address,
        target: Address,
        amount: Word256,
        options: ConditioningOptions,
    ) -> ConditioningSequence {
        ConditioningSequence {
            account,
            token,
            target,
            amount,
            options,
            stage: first_stage(options),
            wrap: StepRecord::NotConsidered,
            approve: StepRecord::NotConsidered,
        }
    }

    /// Whether the sequence has ended.
    pub open spec fn is_over(self) -> bool {
        self.stage == ConditioningStage::Finished || self.stage is Failed
    }

    /// What the sequence asks of its driver at its stage.
    pub open spec fn effect(self) -> Effect {
        match self.stage {
            ConditioningStage::ReadBalance => Effect::Read(
                Query { to: self.token, read: Read::BalanceOf { owner: self.account }, block: None },
            ),
            ConditioningStage::TellWrapping => Effect::Tell(Note::WrappingWeth),
            ConditioningStage::Wrap => Effect::Submit(
                Transaction {
                    from: self.account,
                    to: self.token,
                    write: Write::Deposit { value: self.amount },
                },
            ),
            ConditioningStage::TellBalanceSufficient => Effect::Tell(Note::WethBalanceSufficient),
            ConditioningStage::ReadAllowance => Effect::Read(
                Query {
                    to: self.token,
                    read: Read::Allowance { owner: self.account, spender: self.target },
                    block: None,
                },
            ),
            ConditioningStage::TellApproving => Effect::Tell(Note::ApprovingWeth),
            ConditioningStage::Approve => Effect::Submit(
                Transaction {
                    from: self.account,
                    to: self.token,
                    write: Write::Approve {
                        spender: self.target,
                        amount: Word256::of(approval_ceiling()),
                    },
                },
            ),
            ConditioningStage::TellAllowanceSufficient => Effect::Tell(
                Note::WethAllowanceSufficient,
            ),
            ConditioningStage::Finished => Effect::Finish,
            ConditioningStage::Failed(_) => Effect::Finish,
        }
    }

    /// The sequence with another stage.
    pub open spec fn at(self, stage: ConditioningStage) -> ConditioningSequence {
        ConditioningSequence { stage, ..self }
    }

    /// The sequence after the outcome of its effect.
    ///
    /// A read that yields no number counts as failed. A sequence that has
    /// ended stays as it is.
    pub open spec fn after(self, outcome: Outcome) -> ConditioningSequence {
        match self.stage {
            ConditioningStage::ReadBalance => match outcome {
                Outcome::Value(Value::Word(balance)) => if balance@ < self.amount@ {
                    self.at(ConditioningStage::TellWrapping)
                } else {
                    ConditioningSequence {
                        stage: ConditioningStage::TellBalanceSufficient,
                        wrap: StepRecord::Skipped,
                        ..self
                    }
                },
                _ => self.at(
                    ConditioningStage::Failed(ConditioningError::RemoteCallFailed(SubStep::Wrap)),
                ),
            },
            ConditioningStage::TellWrapping => self.at(ConditioningStage::Wrap),
            ConditioningStage::Wrap => match outcome {
                Outcome::Mined(receipt) => ConditioningSequence {
                    stage: ConditioningStage::ReadAllowance,
                    wrap: StepRecord::Submitted(receipt.tx),
                    ..self
                },
                Outcome::Failed(failure) => self.at(
                    ConditioningStage::Failed(ConditioningError::StepFailed(SubStep::Wrap, failure)),
                ),
                _ => self.at(
                    ConditioningStage::Failed(
                        ConditioningError::StepFailed(SubStep::Wrap, Failure::Remote),
                    ),
                ),
            },
            ConditioningStage::TellBalanceSufficient => self.at(
                stage_after_wrap(self.options, false),
            ),
            ConditioningStage::ReadAllowance => match outcome {
                Outcome::Value(Value::Word(allowance)) => if allowance@ < self.amount@ {
                    self.at(ConditioningStage::TellApproving)
                } else {
                    ConditioningSequence {
                        stage: ConditioningStage::TellAllowanceSufficient,
                        approve: StepRecord::Skipped,
                        ..self
                    }
                },
                _ => self.at(
                    ConditioningStage::Failed(
                        ConditioningError::RemoteCallFailed(SubStep::Approve),
                    ),
                ),
            },
            ConditioningStage::TellApproving => self.at(ConditioningStage::Approve),
            ConditioningStage::Approve => match outcome {
                Outcome::Mined(receipt) => ConditioningSequence {
                    stage: ConditioningStage::Finished,
                    approve: StepRecord::Submitted(receipt.tx),
                    ..self
                },
                Outcome::Failed(failure) => self.at(
                    ConditioningStage::Failed(
                        ConditioningError::StepFailed(SubStep::Approve, failure),
                    ),
                ),
                _ => self.at(
                    ConditioningStage::Failed(
                        ConditioningError::StepFailed(SubStep::Approve, Failure::Remote),
                    ),
                ),
            },
            ConditioningStage::TellAllowanceSufficient => self.at(ConditioningStage::Finished),
            ConditioningStage::Finished => self,
            ConditioningStage::Failed(_) => self,
        }
    }

    /// How the sequence ended, once it has.
    pub open spec fn result_spec(self) -> Option<Result<(), ConditioningError>> {
        match self.stage {
            ConditioningStage::Finished => Some(Ok(())),
            ConditioningStage::Failed(e) => Some(Err(e)),
            _ => None,
        }
    }

    /// Begins the conditioning of `account` for paying `amount` of the
    /// wrapped-ether `token` into `target`, and names its first effect.
    pub fn prepare(
        account: Address,
        token: Address,
        target: Address,
        amount: Word256,
        options: ConditioningOptions,
    ) -> (r: (ConditioningSequence, Effect))
        ensures
            r.0 == ConditioningSequence::begin(account, token, target, amount, options),
            r.1 == r.0.effect(),
    {
        let stage = if options.allow_wrap {
            ConditioningStage::ReadBalance
        } else if options.allow_approve {
            ConditioningStage::ReadAllowance
        } else {
            ConditioningStage::Finished
        };
        let sequence = ConditioningSequence {
            account,
            token,
            target,
            amount,
            options,
            stage,
            wrap: StepRecord::NotConsidered,
            approve: StepRecord::NotConsidered,
        };
        (sequence, sequence.current_effect())
    }

    /// Takes the outcome of the effect last named, and names the next.
    pub fn advance(self, outcome: Outcome) -> (r: (ConditioningSequence, Effect))
        ensures
            r.0 == self.after(outcome),
            r.1 == r.0.effect(),
    {
        let mut next = self;
        match self.stage {
            ConditioningStage::ReadBalance => match outcome {
                Outcome::Value(Value::Word(balance)) => if balance.lt(&self.amount) {
                    next.stage = ConditioningStage::TellWrapping;
                } else {
                    next.stage = ConditioningStage::TellBalanceSufficient;
                    next.wrap = StepRecord::Skipped;
                },
                _ => {
                    next.stage = ConditioningStage::Failed(
                        ConditioningError::RemoteCallFailed(SubStep::Wrap),
                    );
                },
            },
            ConditioningStage::TellWrapping => {
                next.stage = ConditioningStage::Wrap;
            },
            ConditioningStage::Wrap => match outcome {
                Outcome::Mined(receipt) => {
                    next.stage = ConditioningStage::ReadAllowance;
                    next.wrap = StepRecord::Submitted(receipt.tx);
                },
                Outcome::Failed(failure) => {
                    next.stage = ConditioningStage::Failed(
                        ConditioningError::StepFailed(SubStep::Wrap, failure),
                    );
                },
                _ => {
                    next.stage = ConditioningStage::Failed(
                        ConditioningError::StepFailed(SubStep::Wrap, Failure::Remote),
                    );
                },
            },
            ConditioningStage::TellBalanceSufficient => {
                if self.options.allow_approve {
                    next.stage = ConditioningStage::ReadAllowance;
                } else {
                    next.stage = ConditioningStage::Finished;
                }
            },
            ConditioningStage::ReadAllowance => match outcome {
                Outcome::Value(Value::Word(allowance)) => if allowance.lt(&self.amount) {
                    next.stage = ConditioningStage::TellApproving;
                } else {
                    next.stage = ConditioningStage::TellAllowanceSufficient;
                    next.approve = StepRecord::Skipped;
                },
                _ => {
                    next.stage = ConditioningStage::Failed(
                        ConditioningError::RemoteCallFailed(SubStep::Approve),
                    );
                },
            },
            ConditioningStage::TellApproving => {
                next.stage = ConditioningStage::Approve;
            },
            ConditioningStage::Approve => match outcome {
                Outcome::Mined(receipt) => {
                    next.stage = ConditioningStage::Finished;
                    next.approve = StepRecord::Submitted(receipt.tx);
                },
                Outcome::Failed(failure) => {
                    next.stage = ConditioningStage::Failed(
                        ConditioningError::StepFailed(SubStep::Approve, failure),
                    );
                },
                _ => {
                    next.stage = ConditioningStage::Failed(
                        ConditioningError::StepFailed(SubStep::Approve, Failure::Remote),
                    );
                },
            },
            ConditioningStage::TellAllowanceSufficient => {
                next.stage = ConditioningStage::Finished;
            },
            ConditioningStage::Finished => {},
            ConditioningStage::Failed(_) => {},
        }
        (next, next.current_effect())
    }

    /// What the sequence asks of its driver at its stage.
    pub fn current_effect(&self) -> (e: Effect)
        ensures
            e == self.effect(),
    {
        match self.stage {
            ConditioningStage::ReadBalance => Effect::Read(
                Query::latest(self.token, Read::BalanceOf { owner: self.account }),
            ),
            ConditioningStage::TellWrapping => Effect::Tell(Note::WrappingWeth),
            ConditioningStage::Wrap => Effect::Submit(
                Transaction {
                    from: self.account,
                    to: self.token,
                    write: Write::Deposit { value: self.amount },
                },
            ),
            ConditioningStage::TellBalanceSufficient => Effect::Tell(Note::WethBalanceSufficient),
            ConditioningStage::ReadAllowance => Effect::Read(
                Query::latest(
                    self.token,
                    Read::Allowance { owner: self.account, spender: self.target },
                ),
            ),
            ConditioningStage::TellApproving => Effect::Tell(Note::ApprovingWeth),
            ConditioningStage::Approve => Effect::Submit(
                Transaction {
                    from: self.account,
                    to: self.token,
                    write: Write::Approve { spender: self.target, amount: ceiling() },
                },
            ),
            ConditioningStage::TellAllowanceSufficient => Effect::Tell(
                Note::WethAllowanceSufficient,
            ),
            ConditioningStage::Finished => Effect::Finish,
            ConditioningStage::Failed(_) => Effect::Finish,
        }
    }

    /// How the sequence ended; `None` while it is under way.
    pub fn result(&self) -> (r: Option<Result<(), ConditioningError>>)
        ensures
            r == self.result_spec(),
    {
        match self.stage {
            ConditioningStage::Finished => Some(Ok(())),
            ConditioningStage::Failed(e) => Some(Err(e)),
            _ => None,
        }
    }
}

/// The allowance that an approval sets.
pub fn ceiling() -> (w: Word256)
    ensures
        w@ == approval_ceiling(),
        w == Word256::of(approval_ceiling()),
{
    proof {
        lemma_pow10_values();
    }
    let unit: Word256 = Word256::exp10(18);
    match unit.checked_mul(&Word256::from_u64(10)) {
        Some(w) => {
            proof {
                w.lemma_of_view();
            }
            w
        },
        None => unreached(),
    }
}

} // verus!
