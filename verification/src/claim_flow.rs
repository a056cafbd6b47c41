//! The claim workflow: take out the tokens bought, after waiting for the
//! sale to finish if that is asked for, and read back the token balance.

use vstd::prelude::*;

use crate::amount::{AmountValue, CurrencyKind};
use crate::exchange::{failure_in, failure_of, Effect, Note, Outcome};
use crate::finish_wait::{FinishWait, FinishWaitStage};
use crate::ledger::{Address, Query, Read, Transaction, Value, Write};
use crate::report::{WorkflowError, WorkflowReport};

verus! {

/// Where a claim workflow stands.
#[derive(Clone, Copy, Debug, PartialEq, Eq)]
pub enum ClaimFlowStage {
    /// The finish of the sale is waited for.
    Waiting(FinishWait),
    /// The claim is being mined.
    Claiming,
    /// The operator is told that the claim went through.
    TellDone,
    /// The sale is asked for the token it sells.
    Token,
    /// The account's balance of that token is being read.
    Balance(Address),
    /// The balance is shown.
    TellBalance(AmountValue),
    /// The workflow has ended.
    Over,
}

/// A claim workflow under way.
#[derive(Clone, Copy, Debug, PartialEq, Eq)]
pub struct ClaimWorkflow {
    /// The account that claims.
    pub account: Address,
    /// The sale.
    pub sale: Address,
    /// Where the workflow stands.
    pub stage: ClaimFlowStage,
    /// What the workflow has done and seen.
    pub report: WorkflowReport,
}

impl ClaimWorkflow {
    /// The workflow before its first step.
    pub open spec fn begin(account: Address, sale: Address, wait_for_finish: bool) -> ClaimWorkflow {
        ClaimWorkflow {
            account,
            sale,
            stage: if wait_for_finish {
                ClaimFlowStage::Waiting(FinishWait::begin(sale))
            } else {
                ClaimFlowStage::Claiming
            },
            report: WorkflowReport::blank(),
        }
    }

    /// What the workflow asks of its driver at its stage.
    pub open spec fn effect(self) -> Effect {
        match self.stage {
            ClaimFlowStage::Waiting(wait) => wait.effect(),
            ClaimFlowStage::Claiming => Effect::Submit(
                Transaction { from: self.account, to: self.sale, write: Write::Claim },
            ),
            ClaimFlowStage::TellDone => Effect::Tell(Note::Done),
            ClaimFlowStage::Token => Effect::Read(
                Query { to: self.sale, read: Read::ScmToken, block: None },
            ),
            ClaimFlowStage::Balance(token) => Effect::Read(
                Query { to: token, read: Read::BalanceOf { owner: self.account }, block: None },
            ),
            ClaimFlowStage::TellBalance(amount) => Effect::Tell(Note::TokenBalance(amount)),
            ClaimFlowStage::Over => Effect::Finish,
        }
    }

    /// The workflow, ended by an error.
    pub open spec fn failed(self, error: WorkflowError) -> ClaimWorkflow {
        ClaimWorkflow {
            stage: ClaimFlowStage::Over,
            report: WorkflowReport { error: Some(error), ..self.report },
            ..self
        }
    }

    /// The workflow with its wait at a new stage: it goes on to the claim
    /// when the sale has finished, ends when the wait has broken off, and
    /// waits further otherwise.
    pub open spec fn waited(self, wait: FinishWait) -> ClaimWorkflow {
        let report = WorkflowReport { phase: wait.phase, ..self.report };
        match wait.stage {
            FinishWaitStage::Over => ClaimWorkflow { stage: ClaimFlowStage::Claiming, report, ..self },
            FinishWaitStage::Failed(e) => ClaimWorkflow {
                stage: ClaimFlowStage::Over,
                report: WorkflowReport { error: Some(e), ..report },
                ..self
            },
            _ => ClaimWorkflow { stage: ClaimFlowStage::Waiting(wait), report, ..self },
        }
    }

    /// The workflow after the outcome of its effect. A workflow that has
    /// ended stays as it is.
    pub open spec fn after(self, outcome: Outcome) -> ClaimWorkflow {
        match self.stage {
            ClaimFlowStage::Waiting(wait) => self.waited(wait.after(outcome)),
            ClaimFlowStage::Claiming => match outcome {
                Outcome::Mined(receipt) => ClaimWorkflow {
                    stage: ClaimFlowStage::TellDone,
                    report: WorkflowReport { receipt: Some(receipt), ..self.report },
                    ..self
                },
                _ => self.failed(WorkflowError::Remote(self.effect(), failure_in(outcome))),
            },
            ClaimFlowStage::TellDone => ClaimWorkflow { stage: ClaimFlowStage::Token, ..self },
            ClaimFlowStage::Token => match outcome {
                Outcome::Value(Value::Address(token)) => ClaimWorkflow {
                    stage: ClaimFlowStage::Balance(token),
                    ..self
                },
                _ => self.failed(WorkflowError::Remote(self.effect(), failure_in(outcome))),
            },
            ClaimFlowStage::Balance(_) => match outcome {
                Outcome::Value(Value::Word(balance)) => ClaimWorkflow {
                    stage: ClaimFlowStage::TellBalance(
                        AmountValue { currency: CurrencyKind::Scm, magnitude: balance },
                    ),
                    report: WorkflowReport {
                        balance: Some(
                            AmountValue { currency: CurrencyKind::Scm, magnitude: balance },
                        ),
                        ..self.report
                    },
                    ..self
                },
                _ => self.failed(WorkflowError::Remote(self.effect(), failure_in(outcome))),
            },
            ClaimFlowStage::TellBalance(_) => ClaimWorkflow { stage: ClaimFlowStage::Over, ..self },
            ClaimFlowStage::Over => self,
        }
    }

    /// Begins the claim of `account` on `sale`, and names the first effect.
    pub fn start(account: Address, sale: Address, wait_for_finish: bool) -> (r: (
        ClaimWorkflow,
        Effect,
    ))
        ensures
            r.0 == ClaimWorkflow::begin(account, sale, wait_for_finish),
            r.1 == r.0.effect(),
    {
        let stage = if wait_for_finish {
            let (wait, _) = FinishWait::start(sale);
            ClaimFlowStage::Waiting(wait)
        } else {
            ClaimFlowStage::Claiming
        };
        let workflow = ClaimWorkflow { account, sale, stage, report: WorkflowReport::new() };
        (workflow, workflow.current_effect())
    }

    /// The workflow, ended by an error.
    fn fail(self, error: WorkflowError) -> (next: ClaimWorkflow)
        ensures
            next == self.failed(error),
    {
        ClaimWorkflow {
            stage: ClaimFlowStage::Over,
            report: WorkflowReport { error: Some(error), ..self.report },
            ..self
        }
    }

    /// Takes the outcome of the effect last named, and names the next.
    pub fn advance(self, outcome: Outcome) -> (r: (ClaimWorkflow, Effect))
        ensures
            r.0 == self.after(outcome),
            r.1 == r.0.effect(),
    {
        let next = match self.stage {
            ClaimFlowStage::Waiting(wait) => {
                let (wait, _) = wait.advance(outcome);
                let report = WorkflowReport { phase: wait.phase, ..self.report };
                match wait.stage {
                    FinishWaitStage::Over => ClaimWorkflow {
                        stage: ClaimFlowStage::Claiming,
                        report,
                        ..self
                    },
                    FinishWaitStage::Failed(e) => ClaimWorkflow {
                        stage: ClaimFlowStage::Over,
                        report: WorkflowReport { error: Some(e), ..report },
                        ..self
                    },
                    _ => ClaimWorkflow { stage: ClaimFlowStage::Waiting(wait), report, ..self },
                }
            },
            ClaimFlowStage::Claiming => match outcome {
                Outcome::Mined(receipt) => ClaimWorkflow {
                    stage: ClaimFlowStage::TellDone,
                    report: WorkflowReport { receipt: Some(receipt), ..self.report },
                    ..self
                },
                _ => self.fail(WorkflowError::Remote(self.current_effect(), failure_of(&outcome))),
            },
            ClaimFlowStage::TellDone => ClaimWorkflow { stage: ClaimFlowStage::Token, ..self },
            ClaimFlowStage::Token => match outcome {
                Outcome::Value(Value::Address(token)) => ClaimWorkflow {
                    stage: ClaimFlowStage::Balance(token),
                    ..self
                },
                _ => self.fail(WorkflowError::Remote(self.current_effect(), failure_of(&outcome))),
            },
            ClaimFlowStage::Balance(_) => match outcome {
                Outcome::Value(Value::Word(balance)) => {
                    let amount = AmountValue::new(CurrencyKind::Scm, balance);
                    ClaimWorkflow {
                        stage: ClaimFlowStage::TellBalance(amount),
                        report: WorkflowReport { balance: Some(amount), ..self.report },
                        ..self
                    }
                },
                _ => self.fail(WorkflowError::Remote(self.current_effect(), failure_of(&outcome))),
            },
            ClaimFlowStage::TellBalance(_) => ClaimWorkflow { stage: ClaimFlowStage::Over, ..self },
            ClaimFlowStage::Over => self,
        };
        (next, next.current_effect())
    }

    /// What the workflow asks of its driver at its stage.
    pub fn current_effect(&self) -> (e: Effect)
        ensures
            e == self.effect(),
    {
        match self.stage {
            ClaimFlowStage::Waiting(wait) => wait.current_effect(),
            ClaimFlowStage::Claiming => Effect::Submit(
                Transaction { from: self.account, to: self.sale, write: Write::Claim },
            ),
            ClaimFlowStage::TellDone => Effect::Tell(Note::Done),
            ClaimFlowStage::Token => Effect::Read(Query::latest(self.sale, Read::ScmToken)),
            ClaimFlowStage::Balance(token) => Effect::Read(
                Query::latest(token, Read::BalanceOf { owner: self.account }),
            ),
            ClaimFlowStage::TellBalance(amount) => Effect::Tell(Note::TokenBalance(amount)),
            ClaimFlowStage::Over => Effect::Finish,
        }
    }

    /// What the workflow did and saw, once it has ended.
    pub fn report(&self) -> (r: Option<WorkflowReport>)
        ensures
            r == (if self.stage == ClaimFlowStage::Over {
                Some(self.report)
            } else {
                None
            }),
    {
        match self.stage {
            ClaimFlowStage::Over => Some(self.report),
            _ => None,
        }
    }
}

} // verus!
