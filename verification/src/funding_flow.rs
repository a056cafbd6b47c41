//! The funding workflow: condition the account, fund the sale, read back
//! what was bought.
//!
//! The workflow asks the sale for its wrapped-ether token and conditions the
//! account on it. Only when the conditioning has finished does it submit the
//! funding transaction, once. Then it reads what the account holds in the
//! sale. What fails ends the workflow; nothing after it is attempted.

use vstd::prelude::*;

use crate::amount::{AmountValue, CurrencyKind};
use crate::conditioning::{ConditioningOptions, ConditioningSequence, ConditioningStage};
use crate::exchange::{failure_in, failure_of, Effect, Note, Outcome};
use crate::funding::{FundingExecutor, FundingPolicy, FundingStage};
use crate::ledger::{Address, Query, Read, Value};
use crate::report::{WorkflowError, WorkflowReport};
use crate::word::Word256;

verus! {

/// Where a funding workflow stands.
#[derive(Clone, Copy, Debug, PartialEq, Eq)]
pub enum FundingFlowStage {
    /// The sale is asked for its wrapped-ether token.
    Token,
    /// The account is being conditioned.
    Conditioning(ConditioningSequence),
    /// The sale is being funded.
    Funding(FundingExecutor),
    /// The operator is told that the funding went through.
    TellDone,
    /// What the account holds in the sale is being read.
    Balance,
    /// The holding is shown.
    TellBalance(AmountValue),
    /// The workflow has ended.
    Over,
}

/// A funding workflow under way.
#[derive(Clone, Copy, Debug, PartialEq, Eq)]
pub struct FundingWorkflow {
    /// The account that pays.
    pub account: Address,
    /// The sale.
    pub sale: Address,
    /// The amount offered, in wei.
    pub amount: Word256,
    /// How much of the amount the funding insists on.
    pub policy: FundingPolicy,
    /// The sub-steps that the conditioning may take.
    pub options: ConditioningOptions,
    /// Where the workflow stands.
    pub stage: FundingFlowStage,
    /// What the workflow has done and seen.
    pub report: WorkflowReport,
}

impl FundingWorkflow {
    /// The workflow before its first step.
    pub open spec fn begin(
        account: Address,
        sale: Address,
        amount: Word256,
        policy: FundingPolicy,
        options: ConditioningOptions,
    ) -> FundingWorkflow {
        FundingWorkflow {
            account,
            sale,
            amount,
            policy,
            options,
            stage: FundingFlowStage::Token,
            report: WorkflowReport::blank(),
        }
    }

    /// What the workflow asks of its driver at its stage.
    pub open spec fn effect(self) -> Effect {
        match self.stage {
            FundingFlowStage::Token => Effect::Read(
                Query { to: self.sale, read: Read::WethToken, block: None },
            ),
            FundingFlowStage::Conditioning(sequence) => sequence.effect(),
            FundingFlowStage::Funding(executor) => executor.effect(),
            FundingFlowStage::TellDone => Effect::Tell(Note::Done),
            FundingFlowStage::Balance => Effect::Read(
                Query { to: self.sale, read: Read::BalanceScm { holder: self.account }, block: None },
            ),
            FundingFlowStage::TellBalance(amount) => Effect::Tell(Note::IcoBalance(amount)),
            FundingFlowStage::Over => Effect::Finish,
        }
    }

    /// The workflow, ended by an error.
    pub open spec fn failed(self, error: WorkflowError) -> FundingWorkflow {
        FundingWorkflow {
            stage: FundingFlowStage::Over,
            report: WorkflowReport { error: Some(error), ..self.report },
            ..self
        }
    }

    /// The workflow with its conditioning at a new stage: it goes on to the
    /// funding when the conditioning has finished, ends when it has failed,
    /// and conditions further otherwise.
    pub open spec fn conditioned(self, sequence: ConditioningSequence) -> FundingWorkflow {
        let report = WorkflowReport {
            wrap: sequence.wrap,
            approve: sequence.approve,
            ..self.report
        };
        match sequence.stage {
            ConditioningStage::Finished => FundingWorkflow {
                stage: FundingFlowStage::Funding(
                    FundingExecutor::begin(self.account, self.sale, self.amount, self.policy),
                ),
                report,
                ..self
            },
            ConditioningStage::Failed(e) => FundingWorkflow {
                stage: FundingFlowStage::Over,
                report: WorkflowReport { error: Some(WorkflowError::Conditioning(e)), ..report },
                ..self
            },
            _ => FundingWorkflow { stage: FundingFlowStage::Conditioning(sequence), report, ..self },
        }
    }

    /// The workflow after the outcome of its effect. A workflow that has
    /// ended stays as it is.
    pub open spec fn after(self, outcome: Outcome) -> FundingWorkflow {
        match self.stage {
            FundingFlowStage::Token => match outcome {
                Outcome::Value(Value::Address(token)) => self.conditioned(
                    ConditioningSequence::begin(
                        self.account,
                        token,
                        self.sale,
                        self.amount,
                        self.options,
                    ),
                ),
                _ => self.failed(WorkflowError::Remote(self.effect(), failure_in(outcome))),
            },
            FundingFlowStage::Conditioning(sequence) => self.conditioned(sequence.after(outcome)),
            FundingFlowStage::Funding(executor) => match executor.after(outcome).stage {
                FundingStage::Settled(Ok(receipt)) => FundingWorkflow {
                    stage: FundingFlowStage::TellDone,
                    report: WorkflowReport { receipt: Some(receipt), ..self.report },
                    ..self
                },
                FundingStage::Settled(Err(e)) => self.failed(WorkflowError::Funding(e)),
                FundingStage::Submitting => self,
            },
            FundingFlowStage::TellDone => FundingWorkflow {
                stage: FundingFlowStage::Balance,
                ..self
            },
            FundingFlowStage::Balance => match outcome {
                Outcome::Value(Value::Word(holding)) => FundingWorkflow {
                    stage: FundingFlowStage::TellBalance(
                        AmountValue { currency: CurrencyKind::Scm, magnitude: holding },
                    ),
                    report: WorkflowReport {
                        balance: Some(
                            AmountValue { currency: CurrencyKind::Scm, magnitude: holding },
                        ),
                        ..self.report
                    },
                    ..self
                },
                _ => self.failed(WorkflowError::Remote(self.effect(), failure_in(outcome))),
            },
            FundingFlowStage::TellBalance(_) => FundingWorkflow {
                stage: FundingFlowStage::Over,
                ..self
            },
            FundingFlowStage::Over => self,
        }
    }

    /// Begins the funding of `sale` by `account` with `amount`, and names the
    /// first effect.
    pub fn start(
        account: Address,
        sale: Address,
        amount: Word256,
        policy: FundingPolicy,
        options: ConditioningOptions,
    ) -> (r: (FundingWorkflow, Effect))
        ensures
            r.0 == FundingWorkflow::begin(account, sale, amount, policy, options),
            r.1 == r.0.effect(),
    {
        let workflow = FundingWorkflow {
            account,
            sale,
            amount,
            policy,
            options,
            stage: FundingFlowStage::Token,
            report: WorkflowReport::new(),
        };
        (workflow, workflow.current_effect())
    }

    /// The workflow with its conditioning at a new stage.
    fn with_conditioning(self, sequence: ConditioningSequence) -> (next: FundingWorkflow)
        ensures
            next == self.conditioned(sequence),
    {
        let report = WorkflowReport {
            wrap: sequence.wrap,
            approve: sequence.approve,
            ..self.report
        };
        match sequence.stage {
            ConditioningStage::Finished => {
                let (executor, _) = FundingExecutor::fund(
                    self.account,
                    self.sale,
                    self.amount,
                    self.policy,
                );
                FundingWorkflow { stage: FundingFlowStage::Funding(executor), report, ..self }
            },
            ConditioningStage::Failed(e) => FundingWorkflow {
                stage: FundingFlowStage::Over,
                report: WorkflowReport { error: Some(WorkflowError::Conditioning(e)), ..report },
                ..self
            },
            _ => FundingWorkflow { stage: FundingFlowStage::Conditioning(sequence), report, ..self },
        }
    }

    /// The workflow, ended by an error.
    fn fail(self, error: WorkflowError) -> (next: FundingWorkflow)
        ensures
            next == self.failed(error),
    {
        FundingWorkflow {
            stage: FundingFlowStage::Over,
            report: WorkflowReport { error: Some(error), ..self.report },
            ..self
        }
    }

    /// Takes the outcome of the effect last named, and names the next.
    pub fn advance(self, outcome: Outcome) -> (r: (FundingWorkflow, Effect))
        ensures
            r.0 == self.after(outcome),
            r.1 == r.0.effect(),
    {
        let next = match self.stage {
            FundingFlowStage::Token => match outcome {
                Outcome::Value(Value::Address(token)) => {
                    let (sequence, _) = ConditioningSequence::prepare(
                        self.account,
                        token,
                        self.sale,
                        self.amount,
                        self.options,
                    );
                    self.with_conditioning(sequence)
                },
                _ => self.fail(WorkflowError::Remote(self.current_effect(), failure_of(&outcome))),
            },
            FundingFlowStage::Conditioning(sequence) => {
                let (sequence, _) = sequence.advance(outcome);
                self.with_conditioning(sequence)
            },
            FundingFlowStage::Funding(executor) => {
                let (executor, _) = executor.advance(outcome);
                match executor.stage {
                    FundingStage::Settled(Ok(receipt)) => FundingWorkflow {
                        stage: FundingFlowStage::TellDone,
                        report: WorkflowReport { receipt: Some(receipt), ..self.report },
                        ..self
                    },
                    FundingStage::Settled(Err(e)) => self.fail(WorkflowError::Funding(e)),
                    FundingStage::Submitting => self,
                }
            },
            FundingFlowStage::TellDone => FundingWorkflow {
                stage: FundingFlowStage::Balance,
                ..self
            },
            FundingFlowStage::Balance => match outcome {
                Outcome::Value(Value::Word(holding)) => {
                    let amount = AmountValue::new(CurrencyKind::Scm, holding);
                    FundingWorkflow {
                        stage: FundingFlowStage::TellBalance(amount),
                        report: WorkflowReport { balance: Some(amount), ..self.report },
                        ..self
                    }
                },
                _ => self.fail(WorkflowError::Remote(self.current_effect(), failure_of(&outcome))),
            },
            FundingFlowStage::TellBalance(_) => FundingWorkflow {
                stage: FundingFlowStage::Over,
                ..self
            },
            FundingFlowStage::Over => self,
        };
        (next, next.current_effect())
    }

    /// What the workflow asks of its driver at its stage.
    pub fn current_effect(&self) -> (e: Effect)
        ensures
            e == self.effect(),
    {
        match self.stage {
            FundingFlowStage::Token => Effect::Read(Query::latest(self.sale, Read::WethToken)),
            FundingFlowStage::Conditioning(sequence) => sequence.current_effect(),
            FundingFlowStage::Funding(executor) => executor.current_effect(),
            FundingFlowStage::TellDone => Effect::Tell(Note::Done),
            FundingFlowStage::Balance => Effect::Read(
                Query::latest(self.sale, Read::BalanceScm { holder: self.account }),
            ),
            FundingFlowStage::TellBalance(amount) => Effect::Tell(Note::IcoBalance(amount)),
            FundingFlowStage::Over => Effect::Finish,
        }
    }

    /// What the workflow did and saw, once it has ended.
    pub fn report(&self) -> (r: Option<WorkflowReport>)
        ensures
            r == (if self.stage == FundingFlowStage::Over {
                Some(self.report)
            } else {
                None
            }),
    {
        match self.stage {
            FundingFlowStage::Over => Some(self.report),
            _ => None,
        }
    }
}

/// Whether an effect is the submission of a funding transaction.
pub open spec fn is_funding(effect: Effect) -> bool {
    effect matches Effect::Submit(t) && (t.write is Fund || t.write is FundAvailable)
}

/// How far along a workflow is: every step leads further along.
pub open spec fn flow_rank(stage: FundingFlowStage) -> nat {
    match stage {
        FundingFlowStage::Token => 0,
        FundingFlowStage::Conditioning(sequence) => 1 + crate::conditioning_laws::stage_rank(
            sequence.stage,
        ),
        FundingFlowStage::Funding(_) => 8,
        FundingFlowStage::TellDone => 9,
        FundingFlowStage::Balance => 10,
        FundingFlowStage::TellBalance(_) => 11,
        FundingFlowStage::Over => 12,
    }
}

/// Whether a workflow is one that `begin` and steps lead to: its funding, if
/// it has come to it, has not been submitted twice.
pub open spec fn on_course(workflow: FundingWorkflow) -> bool {
    match workflow.stage {
        FundingFlowStage::Conditioning(sequence) => !sequence.is_over(),
        FundingFlowStage::Funding(executor) => executor.stage == FundingStage::Submitting,
        _ => true,
    }
}

/// The workflow after a run of outcomes.
pub open spec fn flow_run(start: FundingWorkflow, outcomes: Seq<Outcome>) -> FundingWorkflow
    decreases outcomes.len(),
{
    if outcomes.len() == 0 {
        start
    } else {
        flow_run(start, outcomes.drop_last()).after(outcomes.last())
    }
}

/// A step leads further along, and a workflow that has ended stays as it is.
pub proof fn lemma_flow_step(workflow: FundingWorkflow, outcome: Outcome)
    requires
        on_course(workflow),
    ensures
        on_course(workflow.after(outcome)),
        workflow.stage == FundingFlowStage::Over ==> workflow.after(outcome) == workflow,
        workflow.stage != FundingFlowStage::Over ==> flow_rank(workflow.after(outcome).stage)
            > flow_rank(workflow.stage),
{
    match workflow.stage {
        FundingFlowStage::Conditioning(sequence) => {
            crate::conditioning_laws::lemma_step_forward(sequence, outcome);
        },
        _ => {},
    }
}

/// A conditioning step that fails ends the workflow with that failure: the
/// funding transaction is not submitted, and nothing else is asked for.
pub proof fn lemma_failed_conditioning_ends(workflow: FundingWorkflow, outcome: Outcome)
    requires
        workflow.stage is Conditioning,
        workflow.stage->Conditioning_0.after(outcome).stage is Failed,
    ensures
        workflow.after(outcome).stage == FundingFlowStage::Over,
        workflow.after(outcome).effect() == Effect::Finish,
        workflow.after(outcome).report.error == Some(
            WorkflowError::Conditioning(
                workflow.stage->Conditioning_0.after(outcome).stage->Failed_0,
            ),
        ),
        workflow.after(outcome).report.receipt == workflow.report.receipt,
{
}

/// The points of a run come in order.
pub proof fn lemma_flow_in_order(
    start: FundingWorkflow,
    outcomes: Seq<Outcome>,
    i: int,
    j: int,
)
    requires
        on_course(start),
        0 <= i <= j <= outcomes.len(),
    ensures
        on_course(flow_run(start, outcomes.take(j))),
        i < j && flow_run(start, outcomes.take(i)).stage != FundingFlowStage::Over ==> flow_rank(
            flow_run(start, outcomes.take(j)).stage,
        ) > flow_rank(flow_run(start, outcomes.take(i)).stage),
    decreases j,
{
    if j == 0 {
        assert(outcomes.take(0) =~= Seq::<Outcome>::empty());
    } else {
        lemma_flow_in_order(start, outcomes, if i == j { 0 } else { i }, j - 1);
        assert(outcomes.take(j).drop_last() =~= outcomes.take(j - 1));
        assert(outcomes.take(j).last() == outcomes[j - 1]);
        lemma_flow_step(flow_run(start, outcomes.take(j - 1)), outcomes[j - 1]);
    }
}

/// Whatever the ledger answers, a funding workflow submits its funding
/// transaction at most once: for the amount, from the account, to the sale.
pub proof fn lemma_funds_at_most_once(
    account: Address,
    sale: Address,
    amount: Word256,
    policy: FundingPolicy,
    options: ConditioningOptions,
    outcomes: Seq<Outcome>,
    i: int,
    j: int,
)
    requires
        0 <= i <= outcomes.len(),
        0 <= j <= outcomes.len(),
        is_funding(
            flow_run(
                FundingWorkflow::begin(account, sale, amount, policy, options),
                outcomes.take(i),
            ).effect(),
        ),
        is_funding(
            flow_run(
                FundingWorkflow::begin(account, sale, amount, policy, options),
                outcomes.take(j),
            ).effect(),
        ),
    ensures
        i == j,
{
    let start = FundingWorkflow::begin(account, sale, amount, policy, options);
    lemma_flow_in_order(start, outcomes, 0, i);
    lemma_flow_in_order(start, outcomes, 0, j);
    if i < j {
        lemma_flow_in_order(start, outcomes, i, j);
    } else if j < i {
        lemma_flow_in_order(start, outcomes, j, i);
    }
}

} // verus!
