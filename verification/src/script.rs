//! Scripts: the workflows that need no decision.
//!
//! A script submits at most one transaction, then reads at most one number
//! and shows it. What fails ends it.

use vstd::prelude::*;

use crate::amount::{AmountValue, CurrencyKind};
use crate::exchange::{failure_in, failure_of, Effect, Note, Outcome};
use crate::ledger::{Query, Transaction, Value};
use crate::report::{WorkflowError, WorkflowReport};

verus! {

/// What the number that a script reads is shown as.
#[derive(Clone, Copy, Debug, PartialEq, Eq, Hash, Structural)]
pub enum Shown {
    /// A balance held in the sale.
    IcoBalance,
    /// A token balance.
    TokenBalance,
    /// An allowance.
    Allowance,
}

/// Where a script stands.
#[derive(Clone, Copy, Debug, PartialEq, Eq)]
pub enum ScriptStage {
    /// The transaction is being mined.
    Submitting,
    /// The operator is told that the transaction went through.
    TellDone,
    /// The number is being read.
    Reading,
    /// The number is shown.
    Telling(AmountValue),
    /// The script has ended.
    Over,
}

/// A script under way.
#[derive(Clone, Copy, Debug, PartialEq, Eq)]
pub struct Script {
    /// The transaction to submit first, if any.
    pub submit: Option<Transaction>,
    /// The read to make then, if any.
    pub read: Option<Query>,
    /// The currency that the number read counts in.
    pub currency: CurrencyKind,
    /// What the number read is shown as.
    pub shown: Shown,
    /// Where the script stands.
    pub stage: ScriptStage,
    /// What the script has done and seen.
    pub report: WorkflowReport,
}

/// The line that shows an amount.
pub open spec fn shown_note(shown: Shown, amount: AmountValue) -> Note {
    match shown {
        Shown::IcoBalance => Note::IcoBalance(amount),
        Shown::TokenBalance => Note::TokenBalance(amount),
        Shown::Allowance => Note::Allowance(amount),
    }
}

impl Script {
    /// The stage that follows the transaction, or stands first without one.
    pub open spec fn reading_stage(read: Option<Query>) -> ScriptStage {
        if read is Some {
            ScriptStage::Reading
        } else {
            ScriptStage::Over
        }
    }

    /// The script before its first step.
    pub open spec fn begin(
        submit: Option<Transaction>,
        read: Option<Query>,
        currency: CurrencyKind,
        shown: Shown,
    ) -> Script {
        Script {
            submit,
            read,
            currency,
            shown,
            stage: if submit is Some {
                ScriptStage::Submitting
            } else {
                Script::reading_stage(read)
            },
            report: WorkflowReport::blank(),
        }
    }

    /// What the script asks of its driver at its stage.
    pub open spec fn effect(self) -> Effect {
        match self.stage {
            ScriptStage::Submitting => match self.submit {
                Some(transaction) => Effect::Submit(transaction),
                None => Effect::Finish,
            },
            ScriptStage::TellDone => Effect::Tell(Note::Done),
            ScriptStage::Reading => match self.read {
                Some(query) => Effect::Read(query),
                None => Effect::Finish,
            },
            ScriptStage::Telling(amount) => Effect::Tell(shown_note(self.shown, amount)),
            ScriptStage::Over => Effect::Finish,
        }
    }

    /// The script, ended by the outcome of the effect it had asked for.
    pub open spec fn broken(self, outcome: Outcome) -> Script {
        Script {
            stage: ScriptStage::Over,
            report: WorkflowReport {
                error: Some(WorkflowError::Remote(self.effect(), failure_in(outcome))),
                ..self.report
            },
            ..self
        }
    }

    /// The script after the outcome of its effect. A script that has ended
    /// stays as it is.
    pub open spec fn after(self, outcome: Outcome) -> Script {
        match self.stage {
            ScriptStage::Submitting => match outcome {
                Outcome::Mined(receipt) => Script {
                    stage: ScriptStage::TellDone,
                    report: WorkflowReport { receipt: Some(receipt), ..self.report },
                    ..self
                },
                _ => self.broken(outcome),
            },
            ScriptStage::TellDone => Script { stage: Script::reading_stage(self.read), ..self },
            ScriptStage::Reading => match outcome {
                Outcome::Value(Value::Word(number)) => Script {
                    stage: ScriptStage::Telling(
                        AmountValue { currency: self.currency, magnitude: number },
                    ),
                    report: WorkflowReport {
                        balance: Some(AmountValue { currency: self.currency, magnitude: number }),
                        ..self.report
                    },
                    ..self
                },
                _ => self.broken(outcome),
            },
            ScriptStage::Telling(_) => Script { stage: ScriptStage::Over, ..self },
            ScriptStage::Over => self,
        }
    }

    /// Begins a script, and names its first effect.
    pub fn start(
        submit: Option<Transaction>,
        read: Option<Query>,
        currency: CurrencyKind,
        shown: Shown,
    ) -> (r: (Script, Effect))
        ensures
            r.0 == Script::begin(submit, read, currency, shown),
            r.1 == r.0.effect(),
    {
        let stage = if submit.is_some() {
            ScriptStage::Submitting
        } else if read.is_some() {
            ScriptStage::Reading
        } else {
            ScriptStage::Over
        };
        let script = Script { submit, read, currency, shown, stage, report: WorkflowReport::new() };
        (script, script.current_effect())
    }

    /// Takes the outcome of the effect last named, and names the next.
    pub fn advance(self, outcome: Outcome) -> (r: (Script, Effect))
        ensures
            r.0 == self.after(outcome),
            r.1 == r.0.effect(),
    {
        let broken = Script {
            stage: ScriptStage::Over,
            report: WorkflowReport {
                error: Some(WorkflowError::Remote(self.current_effect(), failure_of(&outcome))),
                ..self.report
            },
            ..self
        };
        let next = match self.stage {
            ScriptStage::Submitting => match outcome {
                Outcome::Mined(receipt) => Script {
                    stage: ScriptStage::TellDone,
                    report: WorkflowReport { receipt: Some(receipt), ..self.report },
                    ..self
                },
                _ => broken,
            },
            ScriptStage::TellDone => Script {
                stage: if self.read.is_some() {
                    ScriptStage::Reading
                } else {
                    ScriptStage::Over
                },
                ..self
            },
            ScriptStage::Reading => match outcome {
                Outcome::Value(Value::Word(number)) => {
                    let amount = AmountValue::new(self.currency, number);
                    Script {
                        stage: ScriptStage::Telling(amount),
                        report: WorkflowReport { balance: Some(amount), ..self.report },
                        ..self
                    }
                },
                _ => broken,
            },
            ScriptStage::Telling(_) => Script { stage: ScriptStage::Over, ..self },
            ScriptStage::Over => self,
        };
        (next, next.current_effect())
    }

    /// What the script asks of its driver at its stage.
    pub fn current_effect(&self) -> (e: Effect)
        ensures
            e == self.effect(),
    {
        match self.stage {
            ScriptStage::Submitting => match self.submit {
                Some(transaction) => Effect::Submit(transaction),
                None => Effect::Finish,
            },
            ScriptStage::TellDone => Effect::Tell(Note::Done),
            ScriptStage::Reading => match self.read {
                Some(query) => Effect::Read(query),
                None => Effect::Finish,
            },
            ScriptStage::Telling(amount) => Effect::Tell(
                match self.shown {
                    Shown::IcoBalance => Note::IcoBalance(amount),
                    Shown::TokenBalance => Note::TokenBalance(amount),
                    Shown::Allowance => Note::Allowance(amount),
                },
            ),
            ScriptStage::Over => Effect::Finish,
        }
    }

    /// Whether the script has ended.
    pub fn is_over(&self) -> (r: bool)
        ensures
            r == (self.stage == ScriptStage::Over),
    {
        match self.stage {
            ScriptStage::Over => true,
            _ => false,
        }
    }
}

} // verus!
