//! The exchange between a workflow and whoever drives it.
//!
//! A workflow decides; it does not act. Each step it names one [`Effect`]
//! for its driver to perform: a read, a transaction, a wait, a line for the
//! operator. The driver performs it and hands back the [`Outcome`], on which
//! the workflow decides the next.

use vstd::prelude::*;
use vstd::string::StringExecFns;

use crate::amount::{formatted, AmountValue, CurrencyKind};
use crate::clock::{Instant, Span};
use crate::ledger::{
    Address, EventKind, Failure, Query, Transaction, TransactionReceipt, Value,
};
use crate::phase::{phase_label, SalePhase};
use crate::word::Word256;

verus! {

/// The contracts that this client talks to.
#[derive(Clone, Copy, Debug, PartialEq, Eq, Hash, Structural)]
pub enum ContractName {
    /// The sale.
    Ico,
    /// The token on sale.
    Scm,
    /// The wrapped-ether token that the sale is paid in.
    Weth,
}

/// A line for the operator.
#[derive(Clone, Copy, Debug, PartialEq, Eq)]
pub enum Note {
    /// Ether is about to be wrapped.
    WrappingWeth,
    /// The wrapped-ether balance covers the amount.
    WethBalanceSufficient,
    /// The sale is about to be allowed to spend wrapped ether.
    ApprovingWeth,
    /// The allowance covers the amount.
    WethAllowanceSufficient,
    /// A transaction went through.
    Done,
    /// A balance held in the sale.
    IcoBalance(AmountValue),
    /// A token balance.
    TokenBalance(AmountValue),
    /// An allowance.
    Allowance(AmountValue),
    /// What the sale can still take or give out.
    Left(AmountValue),
    /// The sale's phase.
    State(SalePhase),
    /// The address of a contract; the driver shows the address.
    ContractAddress(ContractName, Address),
    /// When the sale closes; the driver shows the time.
    CloseTime(Word256),
    /// When the sale finishes; the driver shows the time.
    FinishTime(Word256),
    /// The wait for the sale to close begins.
    WaitingForClose,
    /// The sale has closed.
    IcoClosed,
    /// When the sale will finish; the driver shows the time.
    FinishesAt(Word256),
    /// The wait for the sale to finish begins.
    WaitingForFinish,
    /// The sale has finished.
    IcoFinished,
}

/// What a note leaves for the driver to show behind its text.
#[derive(Clone, Copy, Debug, PartialEq, Eq)]
pub enum Detail {
    /// Nothing: the text is the whole line.
    Nothing,
    /// An address.
    Address(Address),
    /// A time, in seconds since the epoch.
    Time(Word256),
}

/// What a workflow asks of its driver.
#[derive(Clone, Copy, Debug, PartialEq, Eq)]
pub enum Effect {
    /// Ask the node for the height of its newest block.
    Head,
    /// Make one read-only call.
    Read(Query),
    /// Read the sale's status: its phase, what it has left in either
    /// currency, and its two tokens, all at one height.
    Status { sale: Address, height: u64 },
    /// Sign and submit a transaction, and wait until it is mined.
    Submit(Transaction),
    /// Wait for the first event of a kind that the sale emits from a block on.
    AwaitEvent { sale: Address, kind: EventKind, from_block: u64 },
    /// Read the clock.
    Clock,
    /// Sleep.
    Sleep(Span),
    /// Show a line to the operator. A workflow goes on whatever comes of it:
    /// a line that could not be shown stops nothing.
    Tell(Note),
    /// Nothing: the workflow has ended.
    Finish,
}

/// The five values of the sale's status, each read on its own.
#[derive(Clone, Copy, Debug, PartialEq, Eq)]
pub struct StatusValues {
    /// The height that the values were read at.
    pub height: u64,
    /// The phase code.
    pub state: Result<u8, Failure>,
    /// What the sale can still take, in wei.
    pub left_eth: Result<Word256, Failure>,
    /// What the sale can still give out.
    pub left_scm: Result<Word256, Failure>,
    /// The token on sale.
    pub scm: Result<Address, Failure>,
    /// The wrapped-ether token.
    pub weth: Result<Address, Failure>,
}

/// What came of an effect.
#[derive(Clone, Copy, Debug, PartialEq, Eq)]
pub enum Outcome {
    /// The height of the newest block.
    Head(u64),
    /// The value of a read-only call.
    Value(Value),
    /// The sale's status.
    Status(StatusValues),
    /// The transaction was mined.
    Mined(TransactionReceipt),
    /// The awaited event arrived.
    Event,
    /// The time on the clock.
    Now(Instant),
    /// The sleep is over.
    Woke,
    /// The line was shown.
    Told,
    /// The effect failed. An outcome of another kind than the effect calls
    /// for counts as a failure too, of the kind [`Failure::Remote`].
    Failed(Failure),
}

/// How an outcome failed: as it says, if it is a failure, and as an answer
/// that cannot be used, if it is an answer to something else.
pub open spec fn failure_in(outcome: Outcome) -> Failure {
    match outcome {
        Outcome::Failed(failure) => failure,
        _ => Failure::Remote,
    }
}

/// How an outcome failed.
pub fn failure_of(outcome: &Outcome) -> (f: Failure)
    ensures
        f == failure_in(*outcome),
{
    match outcome {
        Outcome::Failed(failure) => *failure,
        _ => Failure::Remote,
    }
}

/// The text of a note. For an address or a time it is the label in front of
/// what the driver shows.
pub open spec fn note_text(note: Note) -> Seq<char> {
    match note {
        Note::WrappingWeth => "Wrapping WETH"@,
        Note::WethBalanceSufficient => "WETH balance is sufficient, no need to wrap more"@,
        Note::ApprovingWeth => "Approving WETH"@,
        Note::WethAllowanceSufficient => "WETH allowance is sufficient, no need to approve more"@,
        Note::Done => "Done"@,
        Note::IcoBalance(a) => "ICO balance: "@ + formatted(a.currency_spec(), a.base_units()),
        Note::TokenBalance(a) => (match a.currency_spec() {
            CurrencyKind::Eth => "WETH balance: "@,
            CurrencyKind::Scm => "SCM balance: "@,
        }) + formatted(a.currency_spec(), a.base_units()),
        Note::Allowance(a) => "Allowance: "@ + formatted(a.currency_spec(), a.base_units()),
        Note::Left(a) => (match a.currency_spec() {
            CurrencyKind::Eth => "Left ETH: "@,
            CurrencyKind::Scm => "Left SCM: "@,
        }) + formatted(a.currency_spec(), a.base_units()),
        Note::State(phase) => "State: "@ + phase_label(phase),
        Note::ContractAddress(name, _) => match name {
            ContractName::Ico => "ICO: "@,
            ContractName::Scm => "SCM: "@,
            ContractName::Weth => "WETH: "@,
        },
        Note::CloseTime(_) => "Close time: "@,
        Note::FinishTime(_) => "Finish time: "@,
        Note::WaitingForClose => "Waiting for ICO to close"@,
        Note::IcoClosed => "ICO closed"@,
        Note::FinishesAt(_) => "ICO will finish on "@,
        Note::WaitingForFinish => "Waiting for ICO to finish"@,
        Note::IcoFinished => "ICO finished"@,
    }
}

/// What a note leaves for the driver to show.
pub open spec fn note_detail(note: Note) -> Detail {
    match note {
        Note::ContractAddress(_, address) => Detail::Address(address),
        Note::CloseTime(t) => Detail::Time(t),
        Note::FinishTime(t) => Detail::Time(t),
        Note::FinishesAt(t) => Detail::Time(t),
        _ => Detail::Nothing,
    }
}

impl Note {
    /// The text of the note.
    pub fn text(&self) -> (s: String)
        ensures
            s@ == note_text(*self),
    {
        match self {
            Note::WrappingWeth => String::from_str("Wrapping WETH"),
            Note::WethBalanceSufficient => String::from_str(
                "WETH balance is sufficient, no need to wrap more",
            ),
            Note::ApprovingWeth => String::from_str("Approving WETH"),
            Note::WethAllowanceSufficient => String::from_str(
                "WETH allowance is sufficient, no need to approve more",
            ),
            Note::Done => String::from_str("Done"),
            Note::IcoBalance(a) => String::from_str("ICO balance: ").concat(a.format().as_str()),
            Note::TokenBalance(a) => {
                let label: &str = match a.currency() {
                    CurrencyKind::Eth => "WETH balance: ",
                    CurrencyKind::Scm => "SCM balance: ",
                };
                String::from_str(label).concat(a.format().as_str())
            },
            Note::Allowance(a) => String::from_str("Allowance: ").concat(a.format().as_str()),
            Note::Left(a) => {
                let label: &str = match a.currency() {
                    CurrencyKind::Eth => "Left ETH: ",
                    CurrencyKind::Scm => "Left SCM: ",
                };
                String::from_str(label).concat(a.format().as_str())
            },
            Note::State(phase) => String::from_str("State: ").concat(phase.to_string().as_str()),
            Note::ContractAddress(name, _) => match name {
                ContractName::Ico => String::from_str("ICO: "),
                ContractName::Scm => String::from_str("SCM: "),
                ContractName::Weth => String::from_str("WETH: "),
            },
            Note::CloseTime(_) => String::from_str("Close time: "),
            Note::FinishTime(_) => String::from_str("Finish time: "),
            Note::WaitingForClose => String::from_str("Waiting for ICO to close"),
            Note::IcoClosed => String::from_str("ICO closed"),
            Note::FinishesAt(_) => String::from_str("ICO will finish on "),
            Note::WaitingForFinish => String::from_str("Waiting for ICO to finish"),
            Note::IcoFinished => String::from_str("ICO finished"),
        }
    }

    /// What the driver shows behind the text.
    pub fn detail(&self) -> (d: Detail)
        ensures
            d == note_detail(*self),
    {
        match self {
            Note::ContractAddress(_, address) => Detail::Address(*address),
            Note::CloseTime(t) => Detail::Time(*t),
            Note::FinishTime(t) => Detail::Time(*t),
            Note::FinishesAt(t) => Detail::Time(*t),
            _ => Detail::Nothing,
        }
    }
}

} // verus!
