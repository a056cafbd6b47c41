//! What a workflow reports when it has ended.

use vstd::prelude::*;
use vstd::string::StringExecFns;

use crate::amount::AmountValue;
use crate::conditioning::{ConditioningError, StepRecord, SubStep};
use crate::exchange::Effect;
use crate::funding::FundingError;
use crate::ledger::{Failure, Read, TransactionReceipt, Write};
use crate::phase::SalePhase;
use crate::word::Word256;

verus! {

/// Why a workflow ended early. Nothing that was mined before is undone, and
/// nothing is tried again.
#[derive(Clone, Copy, Debug, PartialEq, Eq)]
pub enum WorkflowError {
    /// An effect failed: the effect says which step and which call, the
    /// failure says how.
    Remote(Effect, Failure),
    /// The conditioning failed.
    Conditioning(ConditioningError),
    /// The funding failed.
    Funding(FundingError),
    /// The ledger gave a time that no clock can show.
    Timestamp(Word256),
}

/// What a workflow did and saw.
#[derive(Clone, Copy, Debug, PartialEq, Eq)]
pub struct WorkflowReport {
    /// What became of the wrap.
    pub wrap: StepRecord,
    /// What became of the approval.
    pub approve: StepRecord,
    /// The receipt of the workflow's own transaction, if it was mined.
    pub receipt: Option<TransactionReceipt>,
    /// The balance read at the end.
    pub balance: Option<AmountValue>,
    /// The last phase of the sale that the workflow saw.
    pub phase: Option<SalePhase>,
    /// Why the workflow ended early, if it did.
    pub error: Option<WorkflowError>,
}

impl WorkflowReport {
    /// The report of a workflow that has done and seen nothing.
    pub open spec fn blank() -> WorkflowReport {
        WorkflowReport {
            wrap: StepRecord::NotConsidered,
            approve: StepRecord::NotConsidered,
            receipt: None,
            balance: None,
            phase: None,
            error: None,
        }
    }

    /// The report of a workflow that has done and seen nothing.
    pub fn new() -> (r: WorkflowReport)
        ensures
            r == WorkflowReport::blank(),
    {
        WorkflowReport {
            wrap: StepRecord::NotConsidered,
            approve: StepRecord::NotConsidered,
            receipt: None,
            balance: None,
            phase: None,
            error: None,
        }
    }
}

/// The name that a read goes by in messages.
pub open spec fn read_name(read: Read) -> Seq<char> {
    match read {
        Read::State => "state"@,
        Read::LeftEth => "left_eth"@,
        Read::LeftScm => "left_scm"@,
        Read::ScmToken => "scm"@,
        Read::WethToken => "weth"@,
        Read::CloseTime => "close_time"@,
        Read::FinishTime => "finish_time"@,
        Read::BalanceEth { .. } => "balance_eth"@,
        Read::BalanceScm { .. } => "balance_scm"@,
        Read::BalanceOf { .. } => "balance_of"@,
        Read::Allowance { .. } => "allowance"@,
    }
}

/// The name that a transaction goes by in messages.
pub open spec fn write_name(write: Write) -> Seq<char> {
    match write {
        Write::Deposit { .. } => "deposit"@,
        Write::Withdraw { .. } => "withdraw"@,
        Write::Approve { .. } => "approve"@,
        Write::TransferFrom { .. } => "transfer"@,
        Write::Fund { .. } => "fund"@,
        Write::FundAvailable { .. } => "fund"@,
        Write::Claim => "claim"@,
    }
}

/// What failed, as the operator is told: the step and the call.
pub open spec fn error_text(error: WorkflowError) -> Seq<char> {
    match error {
        WorkflowError::Remote(effect, _) => match effect {
            Effect::Head => "block number call failed"@,
            Effect::Read(query) => read_name(query.read) + " call failed"@,
            Effect::Status { .. } => "status call failed"@,
            Effect::Submit(transaction) => write_name(transaction.write) + " failed"@,
            Effect::AwaitEvent { .. } => "event subscription failed"@,
            Effect::Clock => "clock failed"@,
            Effect::Sleep(_) => "sleep failed"@,
            Effect::Tell(_) => "output failed"@,
            Effect::Finish => "nothing failed"@,
        },
        WorkflowError::Conditioning(error) => match error {
            ConditioningError::StepFailed(SubStep::Wrap, _) => "deposit failed"@,
            ConditioningError::StepFailed(SubStep::Approve, _) => "approve failed"@,
            ConditioningError::RemoteCallFailed(SubStep::Wrap) => "balance_of call failed"@,
            ConditioningError::RemoteCallFailed(SubStep::Approve) => "allowance call failed"@,
        },
        WorkflowError::Funding(error) => match error {
            FundingError::Reverted => "fund call failed: the sale cannot take the full amount"@,
            FundingError::SaleClosed => "fund call failed: the sale is closed"@,
            FundingError::RemoteCallFailed => "fund call failed"@,
        },
        WorkflowError::Timestamp(_) => "finish_time is out of range"@,
    }
}

impl WorkflowError {
    /// The failure that the workflow met, where it met one on the way to
    /// the ledger.
    pub fn failure(&self) -> (f: Option<Failure>)
        ensures
            f == (match *self {
                WorkflowError::Remote(_, failure) => Some(failure),
                WorkflowError::Conditioning(ConditioningError::StepFailed(_, failure)) => Some(
                    failure,
                ),
                _ => None,
            }),
    {
        match self {
            WorkflowError::Remote(_, failure) => Some(*failure),
            WorkflowError::Conditioning(ConditioningError::StepFailed(_, failure)) => Some(
                *failure,
            ),
            _ => None,
        }
    }

    /// The message for the operator: which step failed, and on which call.
    pub fn message(&self) -> (s: String)
        ensures
            s@ == error_text(*self),
    {
        match self {
            WorkflowError::Remote(effect, _) => match effect {
                Effect::Head => String::from_str("block number call failed"),
                Effect::Read(query) => {
                    let name: &str = match query.read {
                        Read::State => "state",
                        Read::LeftEth => "left_eth",
                        Read::LeftScm => "left_scm",
                        Read::ScmToken => "scm",
                        Read::WethToken => "weth",
                        Read::CloseTime => "close_time",
                        Read::FinishTime => "finish_time",
                        Read::BalanceEth { .. } => "balance_eth",
                        Read::BalanceScm { .. } => "balance_scm",
                        Read::BalanceOf { .. } => "balance_of",
                        Read::Allowance { .. } => "allowance",
                    };
                    String::from_str(name).concat(" call failed")
                },
                Effect::Status { .. } => String::from_str("status call failed"),
                Effect::Submit(transaction) => {
                    let name: &str = match transaction.write {
                        Write::Deposit { .. } => "deposit",
                        Write::Withdraw { .. } => "withdraw",
                        Write::Approve { .. } => "approve",
                        Write::TransferFrom { .. } => "transfer",
                        Write::Fund { .. } => "fund",
                        Write::FundAvailable { .. } => "fund",
                        Write::Claim => "claim",
                    };
                    String::from_str(name).concat(" failed")
                },
                Effect::AwaitEvent { .. } => String::from_str("event subscription failed"),
                Effect::Clock => String::from_str("clock failed"),
                Effect::Sleep(_) => String::from_str("sleep failed"),
                Effect::Tell(_) => String::from_str("output failed"),
                Effect::Finish => String::from_str("nothing failed"),
            },
            WorkflowError::Conditioning(error) => String::from_str(
                match error {
                    ConditioningError::StepFailed(SubStep::Wrap, _) => "deposit failed",
                    ConditioningError::StepFailed(SubStep::Approve, _) => "approve failed",
                    ConditioningError::RemoteCallFailed(SubStep::Wrap) => "balance_of call failed",
                    ConditioningError::RemoteCallFailed(SubStep::Approve) => {
                        "allowance call failed"
                    },
                },
            ),
            WorkflowError::Funding(error) => String::from_str(
                match error {
                    FundingError::Reverted => {
                        "fund call failed: the sale cannot take the full amount"
                    },
                    FundingError::SaleClosed => "fund call failed: the sale is closed",
                    FundingError::RemoteCallFailed => "fund call failed",
                },
            ),
            WorkflowError::Timestamp(_) => String::from_str("finish_time is out of range"),
        }
    }
}

} // verus!
