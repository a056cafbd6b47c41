//! The status query: what the sale looks like at one block height.
//!
//! The query pins the newest height, reads the sale's status there as one
//! snapshot, and shows it line by line. Unless the sale is still ongoing it
//! then reads and shows the times of close and finish, at the same height.
//! A value that failed to resolve ends the query at the line it belongs to;
//! the lines before it have been shown.

use vstd::prelude::*;

use crate::amount::{AmountValue, CurrencyKind};
use crate::exchange::{
    failure_in, failure_of, ContractName, Effect, Note, Outcome, StatusValues,
};
use crate::ledger::{Address, Failure, Query, Read, Value};
use crate::phase::{phase_of, SalePhase};
use crate::report::WorkflowError;
use crate::word::Word256;

verus! {

/// The state of the sale at one block height.
#[derive(Clone, Copy, Debug, PartialEq, Eq)]
pub struct LedgerState {
    /// The height that every value was read at.
    pub height: u64,
    /// The phase of the sale.
    pub phase: SalePhase,
    /// What the sale can still take.
    pub left_eth: AmountValue,
    /// What the sale can still give out.
    pub left_scm: AmountValue,
    /// The sale itself.
    pub ico: Address,
    /// The token on sale.
    pub scm: Address,
    /// The wrapped-ether token.
    pub weth: Address,
    /// When the sale closes, in seconds since the epoch; read unless the sale
    /// is ongoing.
    pub close_time: Option<Word256>,
    /// When the sale finishes, in seconds since the epoch; read unless the
    /// sale is ongoing.
    pub finish_time: Option<Word256>,
}

/// Where a status query stands.
#[derive(Clone, Copy, Debug, PartialEq, Eq)]
pub enum InfoStage {
    /// The height of the newest block is being read.
    Head,
    /// The status is being read at that height.
    Status,
    /// The phase is shown.
    TellState(SalePhase),
    /// What the sale can still take is shown.
    TellLeftEth(Word256),
    /// What the sale can still give out is shown.
    TellLeftScm(Word256),
    /// The address of the sale is shown.
    TellIco,
    /// The address of the token on sale is shown.
    TellScm(Address),
    /// The address of the wrapped-ether token is shown.
    TellWeth(Address),
    /// The time of the close is being read.
    CloseTime,
    /// The time of the close is shown.
    TellCloseTime(Word256),
    /// The time of the finish is being read.
    FinishTime,
    /// The time of the finish is shown.
    TellFinishTime(Word256),
    /// The query has ended.
    Over,
}

/// A status query under way.
#[derive(Clone, Copy, Debug, PartialEq, Eq)]
pub struct InfoQuery {
    /// The sale.
    pub sale: Address,
    /// The height that the query is pinned to, once it is known.
    pub head: u64,
    /// The status, once it is read.
    pub values: Option<StatusValues>,
    /// The time of the close, once it is read.
    pub close_time: Option<Word256>,
    /// The time of the finish, once it is read.
    pub finish_time: Option<Word256>,
    /// Where the query stands.
    pub stage: InfoStage,
    /// Why the query ended early, if it did.
    pub error: Option<WorkflowError>,
}

/// The read of the sale that a status value comes from, at a height.
pub open spec fn status_read(sale: Address, read: Read, height: u64) -> Effect {
    Effect::Read(Query { to: sale, read, block: Some(height) })
}

impl InfoQuery {
    /// The query before its first step.
    pub open spec fn begin(sale: Address) -> InfoQuery {
        InfoQuery {
            sale,
            head: 0,
            values: None,
            close_time: None,
            finish_time: None,
            stage: InfoStage::Head,
            error: None,
        }
    }

    /// What the query asks of its driver at its stage. Every read is pinned
    /// to the query's height.
    pub open spec fn effect(self) -> Effect {
        match self.stage {
            InfoStage::Head => Effect::Head,
            InfoStage::Status => Effect::Status { sale: self.sale, height: self.head },
            InfoStage::TellState(phase) => Effect::Tell(Note::State(phase)),
            InfoStage::TellLeftEth(left) => Effect::Tell(
                Note::Left(AmountValue { currency: CurrencyKind::Eth, magnitude: left }),
            ),
            InfoStage::TellLeftScm(left) => Effect::Tell(
                Note::Left(AmountValue { currency: CurrencyKind::Scm, magnitude: left }),
            ),
            InfoStage::TellIco => Effect::Tell(Note::ContractAddress(ContractName::Ico, self.sale)),
            InfoStage::TellScm(token) => Effect::Tell(
                Note::ContractAddress(ContractName::Scm, token),
            ),
            InfoStage::TellWeth(token) => Effect::Tell(
                Note::ContractAddress(ContractName::Weth, token),
            ),
            InfoStage::CloseTime => status_read(self.sale, Read::CloseTime, self.head),
            InfoStage::TellCloseTime(time) => Effect::Tell(Note::CloseTime(time)),
            InfoStage::FinishTime => status_read(self.sale, Read::FinishTime, self.head),
            InfoStage::TellFinishTime(time) => Effect::Tell(Note::FinishTime(time)),
            InfoStage::Over => Effect::Finish,
        }
    }

    /// The query at another stage.
    pub open spec fn at(self, stage: InfoStage) -> InfoQuery {
        InfoQuery { stage, ..self }
    }

    /// The query, ended by the failure of an effect.
    pub open spec fn failed(self, effect: Effect, failure: Failure) -> InfoQuery {
        InfoQuery {
            stage: InfoStage::Over,
            error: Some(WorkflowError::Remote(effect, failure)),
            ..self
        }
    }

    /// What the sale can still take, as the status has it; a status that
    /// is not there has nothing that can be used.
    pub open spec fn left_eth_value(self) -> Result<Word256, Failure> {
        match self.values {
            Some(values) => values.left_eth,
            None => Err(Failure::Remote),
        }
    }

    /// What the sale can still give out, as the status has it.
    pub open spec fn left_scm_value(self) -> Result<Word256, Failure> {
        match self.values {
            Some(values) => values.left_scm,
            None => Err(Failure::Remote),
        }
    }

    /// The token on sale, as the status has it.
    pub open spec fn scm_value(self) -> Result<Address, Failure> {
        match self.values {
            Some(values) => values.scm,
            None => Err(Failure::Remote),
        }
    }

    /// The wrapped-ether token, as the status has it.
    pub open spec fn weth_value(self) -> Result<Address, Failure> {
        match self.values {
            Some(values) => values.weth,
            None => Err(Failure::Remote),
        }
    }

    /// Whether the sale was found ongoing.
    pub open spec fn found_ongoing(self) -> bool {
        self.values matches Some(v) && v.state == Ok::<u8, Failure>(0u8)
    }

    /// The query after the outcome of its effect.
    ///
    /// A status from another height than the query's is no status. A query
    /// that has ended stays as it is.
    pub open spec fn after(self, outcome: Outcome) -> InfoQuery {
        match self.stage {
            InfoStage::Head => match outcome {
                Outcome::Head(head) => InfoQuery { head, stage: InfoStage::Status, ..self },
                _ => self.failed(self.effect(), failure_in(outcome)),
            },
            InfoStage::Status => match outcome {
                Outcome::Status(values) => if values.height == self.head {
                    match values.state {
                        Ok(code) => InfoQuery {
                            values: Some(values),
                            stage: InfoStage::TellState(phase_of(code)),
                            ..self
                        },
                        Err(failure) => InfoQuery { values: Some(values), ..self }.failed(
                            status_read(self.sale, Read::State, self.head),
                            failure,
                        ),
                    }
                } else {
                    self.failed(self.effect(), Failure::HeightUnavailable)
                },
                _ => self.failed(self.effect(), failure_in(outcome)),
            },
            InfoStage::TellState(_) => match self.left_eth_value() {
                Ok(left) => self.at(InfoStage::TellLeftEth(left)),
                Err(failure) => self.failed(
                    status_read(self.sale, Read::LeftEth, self.head),
                    failure,
                ),
            },
            InfoStage::TellLeftEth(_) => match self.left_scm_value() {
                Ok(left) => self.at(InfoStage::TellLeftScm(left)),
                Err(failure) => self.failed(
                    status_read(self.sale, Read::LeftScm, self.head),
                    failure,
                ),
            },
            InfoStage::TellLeftScm(_) => self.at(InfoStage::TellIco),
            InfoStage::TellIco => match self.scm_value() {
                Ok(token) => self.at(InfoStage::TellScm(token)),
                Err(failure) => self.failed(
                    status_read(self.sale, Read::ScmToken, self.head),
                    failure,
                ),
            },
            InfoStage::TellScm(_) => match self.weth_value() {
                Ok(token) => self.at(InfoStage::TellWeth(token)),
                Err(failure) => self.failed(
                    status_read(self.sale, Read::WethToken, self.head),
                    failure,
                ),
            },
            InfoStage::TellWeth(_) => if self.found_ongoing() {
                self.at(InfoStage::Over)
            } else {
                self.at(InfoStage::CloseTime)
            },
            InfoStage::CloseTime => match outcome {
                Outcome::Value(Value::Word(time)) => InfoQuery {
                    close_time: Some(time),
                    stage: InfoStage::TellCloseTime(time),
                    ..self
                },
                _ => self.failed(self.effect(), failure_in(outcome)),
            },
            InfoStage::TellCloseTime(_) => self.at(InfoStage::FinishTime),
            InfoStage::FinishTime => match outcome {
                Outcome::Value(Value::Word(time)) => InfoQuery {
                    finish_time: Some(time),
                    stage: InfoStage::TellFinishTime(time),
                    ..self
                },
                _ => self.failed(self.effect(), failure_in(outcome)),
            },
            InfoStage::TellFinishTime(_) => self.at(InfoStage::Over),
            InfoStage::Over => self,
        }
    }

    /// The state of the sale that the query found: there is one when the
    /// query has ended without an error.
    pub open spec fn ledger_state(self) -> Option<LedgerState> {
        if self.stage == InfoStage::Over && self.error is None {
            match self.values {
                Some(
                    StatusValues {
                        height,
                        state: Ok(code),
                        left_eth: Ok(left_eth),
                        left_scm: Ok(left_scm),
                        scm: Ok(scm),
                        weth: Ok(weth),
                    },
                ) => Some(
                    LedgerState {
                        height,
                        phase: phase_of(code),
                        left_eth: AmountValue { currency: CurrencyKind::Eth, magnitude: left_eth },
                        left_scm: AmountValue { currency: CurrencyKind::Scm, magnitude: left_scm },
                        ico: self.sale,
                        scm,
                        weth,
                        close_time: self.close_time,
                        finish_time: self.finish_time,
                    },
                ),
                _ => None,
            }
        } else {
            None
        }
    }

    /// Begins the query, and names its first effect.
    pub fn start(sale: Address) -> (r: (InfoQuery, Effect))
        ensures
            r.0 == InfoQuery::begin(sale),
            r.1 == r.0.effect(),
    {
        (
            InfoQuery {
                sale,
                head: 0,
                values: None,
                close_time: None,
                finish_time: None,
                stage: InfoStage::Head,
                error: None,
            },
            Effect::Head,
        )
    }

    /// The query, ended by the failure of an effect.
    fn fail(self, effect: Effect, failure: Failure) -> (next: InfoQuery)
        ensures
            next == self.failed(effect, failure),
    {
        InfoQuery {
            stage: InfoStage::Over,
            error: Some(WorkflowError::Remote(effect, failure)),
            ..self
        }
    }

    /// The read of the sale that a status value comes from.
    fn blame(&self, read: Read) -> (e: Effect)
        ensures
            e == status_read(self.sale, read, self.head),
    {
        Effect::Read(Query::at(self.sale, read, self.head))
    }

    /// What the sale can still take, as the status has it.
    fn status_left_eth(&self) -> (r: Result<Word256, Failure>)
        ensures
            r == self.left_eth_value(),
    {
        match self.values {
            Some(values) => values.left_eth,
            None => Err(Failure::Remote),
        }
    }

    /// What the sale can still give out, as the status has it.
    fn status_left_scm(&self) -> (r: Result<Word256, Failure>)
        ensures
            r == self.left_scm_value(),
    {
        match self.values {
            Some(values) => values.left_scm,
            None => Err(Failure::Remote),
        }
    }

    /// The token on sale, as the status has it.
    fn status_scm(&self) -> (r: Result<Address, Failure>)
        ensures
            r == self.scm_value(),
    {
        match self.values {
            Some(values) => values.scm,
            None => Err(Failure::Remote),
        }
    }

    /// The wrapped-ether token, as the status has it.
    fn status_weth(&self) -> (r: Result<Address, Failure>)
        ensures
            r == self.weth_value(),
    {
        match self.values {
            Some(values) => values.weth,
            None => Err(Failure::Remote),
        }
    }

    /// Takes the outcome of the effect last named, and names the next.
    pub fn advance(self, outcome: Outcome) -> (r: (InfoQuery, Effect))
        ensures
            r.0 == self.after(outcome),
            r.1 == r.0.effect(),
    {
        let next = match self.stage {
            InfoStage::Head => match outcome {
                Outcome::Head(head) => InfoQuery { head, stage: InfoStage::Status, ..self },
                _ => self.fail(self.current_effect(), failure_of(&outcome)),
            },
            InfoStage::Status => match outcome {
                Outcome::Status(values) => if values.height == self.head {
                    match values.state {
                        Ok(code) => InfoQuery {
                            values: Some(values),
                            stage: InfoStage::TellState(SalePhase::from_code(code)),
                            ..self
                        },
                        Err(failure) => InfoQuery { values: Some(values), ..self }.fail(
                            self.blame(Read::State),
                            failure,
                        ),
                    }
                } else {
                    self.fail(self.current_effect(), Failure::HeightUnavailable)
                },
                _ => self.fail(self.current_effect(), failure_of(&outcome)),
            },
            InfoStage::TellState(_) => match self.status_left_eth() {
                Ok(left) => InfoQuery { stage: InfoStage::TellLeftEth(left), ..self },
                Err(failure) => self.fail(self.blame(Read::LeftEth), failure),
            },
            InfoStage::TellLeftEth(_) => match self.status_left_scm() {
                Ok(left) => InfoQuery { stage: InfoStage::TellLeftScm(left), ..self },
                Err(failure) => self.fail(self.blame(Read::LeftScm), failure),
            },
            InfoStage::TellLeftScm(_) => InfoQuery { stage: InfoStage::TellIco, ..self },
            InfoStage::TellIco => match self.status_scm() {
                Ok(token) => InfoQuery { stage: InfoStage::TellScm(token), ..self },
                Err(failure) => self.fail(self.blame(Read::ScmToken), failure),
            },
            InfoStage::TellScm(_) => match self.status_weth() {
                Ok(token) => InfoQuery { stage: InfoStage::TellWeth(token), ..self },
                Err(failure) => self.fail(self.blame(Read::WethToken), failure),
            },
            InfoStage::TellWeth(_) => {
                let ongoing = match self.values {
                    Some(StatusValues { state: Ok(code), .. }) => code == 0,
                    _ => false,
                };
                if ongoing {
                    InfoQuery { stage: InfoStage::Over, ..self }
                } else {
                    InfoQuery { stage: InfoStage::CloseTime, ..self }
                }
            },
            InfoStage::CloseTime => match outcome {
                Outcome::Value(Value::Word(time)) => InfoQuery {
                    close_time: Some(time),
                    stage: InfoStage::TellCloseTime(time),
                    ..self
                },
                _ => self.fail(self.current_effect(), failure_of(&outcome)),
            },
            InfoStage::TellCloseTime(_) => InfoQuery { stage: InfoStage::FinishTime, ..self },
            InfoStage::FinishTime => match outcome {
                Outcome::Value(Value::Word(time)) => InfoQuery {
                    finish_time: Some(time),
                    stage: InfoStage::TellFinishTime(time),
                    ..self
                },
                _ => self.fail(self.current_effect(), failure_of(&outcome)),
            },
            InfoStage::TellFinishTime(_) => InfoQuery { stage: InfoStage::Over, ..self },
            InfoStage::Over => self,
        };
        (next, next.current_effect())
    }

    /// What the query asks of its driver at its stage.
    pub fn current_effect(&self) -> (e: Effect)
        ensures
            e == self.effect(),
    {
        match self.stage {
            InfoStage::Head => Effect::Head,
            InfoStage::Status => Effect::Status { sale: self.sale, height: self.head },
            InfoStage::TellState(phase) => Effect::Tell(Note::State(phase)),
            InfoStage::TellLeftEth(left) => Effect::Tell(
                Note::Left(AmountValue::new(CurrencyKind::Eth, left)),
            ),
            InfoStage::TellLeftScm(left) => Effect::Tell(
                Note::Left(AmountValue::new(CurrencyKind::Scm, left)),
            ),
            InfoStage::TellIco => Effect::Tell(Note::ContractAddress(ContractName::Ico, self.sale)),
            InfoStage::TellScm(token) => Effect::Tell(
                Note::ContractAddress(ContractName::Scm, token),
            ),
            InfoStage::TellWeth(token) => Effect::Tell(
                Note::ContractAddress(ContractName::Weth, token),
            ),
            InfoStage::CloseTime => self.blame(Read::CloseTime),
            InfoStage::TellCloseTime(time) => Effect::Tell(Note::CloseTime(time)),
            InfoStage::FinishTime => self.blame(Read::FinishTime),
            InfoStage::TellFinishTime(time) => Effect::Tell(Note::FinishTime(time)),
            InfoStage::Over => Effect::Finish,
        }
    }

    /// The state of the sale, once the query has ended without an error.
    pub fn result(&self) -> (r: Option<LedgerState>)
        ensures
            r == self.ledger_state(),
    {
        match (self.stage, self.error, self.values) {
            (
                InfoStage::Over,
                None,
                Some(
                    StatusValues {
                        height,
                        state: Ok(code),
                        left_eth: Ok(left_eth),
                        left_scm: Ok(left_scm),
                        scm: Ok(scm),
                        weth: Ok(weth),
                    },
                ),
            ) => Some(
                LedgerState {
                    height,
                    phase: SalePhase::from_code(code),
                    left_eth: AmountValue::new(CurrencyKind::Eth, left_eth),
                    left_scm: AmountValue::new(CurrencyKind::Scm, left_scm),
                    ico: self.sale,
                    scm,
                    weth,
                    close_time: self.close_time,
                    finish_time: self.finish_time,
                },
            ),
            _ => None,
        }
    }
}

/// Whether an effect reads the ledger at any other height than `height`.
pub open spec fn reads_elsewhere(effect: Effect, height: u64) -> bool {
    match effect {
        Effect::Read(query) => query.block != Some(height),
        Effect::Status { height: h, .. } => h != height,
        _ => false,
    }
}

/// The query after a run of outcomes.
pub open spec fn info_run(start: InfoQuery, outcomes: Seq<Outcome>) -> InfoQuery
    decreases outcomes.len(),
{
    if outcomes.len() == 0 {
        start
    } else {
        info_run(start, outcomes.drop_last()).after(outcomes.last())
    }
}

/// Whether a query has its height and holds nothing from another.
pub open spec fn pinned(query: InfoQuery, height: u64) -> bool {
    &&& query.stage != InfoStage::Head
    &&& query.head == height
    &&& query.values matches Some(v) ==> v.height == height
}

/// Once the query has its height, a step keeps it, reads nowhere else, and
/// takes in no status from another height.
pub proof fn lemma_step_stays_pinned(query: InfoQuery, height: u64, outcome: Outcome)
    requires
        pinned(query, height),
    ensures
        pinned(query.after(outcome), height),
        !reads_elsewhere(query.after(outcome).effect(), height),
{
}

/// Whatever the ledger answers, every value of one status query is read at
/// one height: the height that the node gave first. Every read after it is
/// pinned to that height, and the state the query ends with carries it.
pub proof fn lemma_one_height(sale: Address, height: u64, outcomes: Seq<Outcome>)
    requires
        outcomes.len() > 0,
        outcomes[0] == Outcome::Head(height),
    ensures
        pinned(info_run(InfoQuery::begin(sale), outcomes), height),
        !reads_elsewhere(info_run(InfoQuery::begin(sale), outcomes).effect(), height),
        info_run(InfoQuery::begin(sale), outcomes).ledger_state() matches Some(state)
            ==> state.height == height,
    decreases outcomes.len(),
{
    reveal_with_fuel(info_run, 2);
    let start = InfoQuery::begin(sale);
    if outcomes.len() > 1 {
        assert(outcomes.drop_last()[0] == outcomes[0]);
        lemma_one_height(sale, height, outcomes.drop_last());
        lemma_step_stays_pinned(info_run(start, outcomes.drop_last()), height, outcomes.last());
    }
}

} // verus!
