//! Waiting for the sale to finish.
//!
//! The wait looks at the sale's phase at the newest block. While the sale is
//! ongoing it waits for the event that closes it, from that block on. Then
//! it reads when the sale finishes and sleeps until then; if that time has
//! passed, it does not sleep.

use vstd::prelude::*;

use crate::clock::{remaining_nanos, Instant, Span};
use crate::exchange::{failure_in, failure_of, Effect, Note, Outcome};
use crate::ledger::{Address, EventKind, Query, Read, Value};
use crate::phase::{phase_of, SalePhase};
use crate::report::WorkflowError;
use crate::wait::{WaitCondition, WaitEngine, WaitState};
use crate::word::Word256;

verus! {

/// Where a wait for the finish stands.
#[derive(Clone, Copy, Debug, PartialEq, Eq)]
pub enum FinishWaitStage {
    /// The height of the newest block is being read.
    Head,
    /// The phase at that height is being read.
    State { head: u64 },
    /// The operator is told that the wait for the close begins.
    TellWaitingForClose { head: u64 },
    /// The close is awaited.
    Closing(WaitEngine),
    /// The operator is told that the sale has closed.
    TellClosed,
    /// The time of the finish is being read.
    FinishTime,
    /// The clock is being read.
    Clock { finish: Word256, deadline: Instant },
    /// The operator is told when the sale finishes.
    TellFinishesAt { finish: Word256, engine: WaitEngine, span: Span },
    /// The operator is told that the wait for the finish begins.
    TellWaitingForFinish { engine: WaitEngine, span: Span },
    /// The finish is slept towards.
    Sleeping { engine: WaitEngine, span: Span },
    /// The operator is told that the sale has finished.
    TellFinished,
    /// The sale has finished.
    Over,
    /// The wait broke off.
    Failed(WorkflowError),
}

/// A wait for the finish of a sale.
#[derive(Clone, Copy, Debug, PartialEq, Eq)]
pub struct FinishWait {
    /// The sale.
    pub sale: Address,
    /// Where the wait stands.
    pub stage: FinishWaitStage,
    /// The phase that the wait found the sale in.
    pub phase: Option<SalePhase>,
}

impl FinishWait {
    /// The wait before its first step.
    pub open spec fn begin(sale: Address) -> FinishWait {
        FinishWait { sale, stage: FinishWaitStage::Head, phase: None }
    }

    /// Whether the wait has ended.
    pub open spec fn is_over(self) -> bool {
        self.stage == FinishWaitStage::Over || self.stage is Failed
    }

    /// The wait at another stage.
    pub open spec fn at(self, stage: FinishWaitStage) -> FinishWait {
        FinishWait { stage, ..self }
    }

    /// The wait, broken off by the outcome of the effect it had asked for.
    pub open spec fn broken(self, outcome: Outcome) -> FinishWait {
        self.at(FinishWaitStage::Failed(WorkflowError::Remote(self.effect(), failure_in(outcome))))
    }

    /// What the wait asks of its driver at its stage.
    pub open spec fn effect(self) -> Effect {
        match self.stage {
            FinishWaitStage::Head => Effect::Head,
            FinishWaitStage::State { head } => Effect::Read(
                Query { to: self.sale, read: Read::State, block: Some(head) },
            ),
            FinishWaitStage::TellWaitingForClose { .. } => Effect::Tell(Note::WaitingForClose),
            FinishWaitStage::Closing(engine) => match engine.condition {
                WaitCondition::AwaitEvent(kind, from_block) => Effect::AwaitEvent {
                    sale: engine.sale,
                    kind,
                    from_block,
                },
                WaitCondition::AwaitDeadline(_) => Effect::Finish,
            },
            FinishWaitStage::TellClosed => Effect::Tell(Note::IcoClosed),
            FinishWaitStage::FinishTime => Effect::Read(
                Query { to: self.sale, read: Read::FinishTime, block: None },
            ),
            FinishWaitStage::Clock { .. } => Effect::Clock,
            FinishWaitStage::TellFinishesAt { finish, .. } => Effect::Tell(Note::FinishesAt(finish)),
            FinishWaitStage::TellWaitingForFinish { .. } => Effect::Tell(Note::WaitingForFinish),
            FinishWaitStage::Sleeping { span, .. } => Effect::Sleep(span),
            FinishWaitStage::TellFinished => Effect::Tell(Note::IcoFinished),
            FinishWaitStage::Over => Effect::Finish,
            FinishWaitStage::Failed(_) => Effect::Finish,
        }
    }

    /// The wait after the outcome of its effect.
    ///
    /// An outcome of another kind than the effect calls for breaks the wait
    /// off. A wait that has ended stays as it is.
    pub open spec fn after(self, outcome: Outcome) -> FinishWait {
        match self.stage {
            FinishWaitStage::Head => match outcome {
                Outcome::Head(head) => self.at(FinishWaitStage::State { head }),
                _ => self.broken(outcome),
            },
            FinishWaitStage::State { head } => match outcome {
                Outcome::Value(Value::Code(code)) => FinishWait {
                    stage: if code == 0 {
                        FinishWaitStage::TellWaitingForClose { head }
                    } else {
                        FinishWaitStage::FinishTime
                    },
                    phase: Some(phase_of(code)),
                    ..self
                },
                _ => self.broken(outcome),
            },
            FinishWaitStage::TellWaitingForClose { head } => self.at(
                FinishWaitStage::Closing(
                    WaitEngine {
                        sale: self.sale,
                        condition: WaitCondition::AwaitEvent(EventKind::IcoClosed, head),
                        state: WaitState::Subscribed,
                    },
                ),
            ),
            FinishWaitStage::Closing(engine) => if engine.after(outcome).state
                == WaitState::Resolved {
                self.at(FinishWaitStage::TellClosed)
            } else {
                self.broken(outcome)
            },
            FinishWaitStage::TellClosed => self.at(FinishWaitStage::FinishTime),
            FinishWaitStage::FinishTime => match outcome {
                Outcome::Value(Value::Word(finish)) => if finish@ <= i64::MAX {
                    self.at(
                        FinishWaitStage::Clock {
                            finish,
                            deadline: deadline_of(finish),
                        },
                    )
                } else {
                    self.at(FinishWaitStage::Failed(WorkflowError::Timestamp(finish)))
                },
                _ => self.broken(outcome),
            },
            FinishWaitStage::Clock { finish, deadline } => match outcome {
                Outcome::Now(now) => if deadline@ > now@ {
                    self.at(
                        FinishWaitStage::TellFinishesAt {
                            finish,
                            engine: WaitEngine {
                                sale: self.sale,
                                condition: WaitCondition::AwaitDeadline(deadline),
                                state: WaitState::Sleeping,
                            },
                            span: Span::of(remaining_nanos(deadline@, now@)),
                        },
                    )
                } else {
                    self.at(FinishWaitStage::Over)
                },
                _ => self.broken(outcome),
            },
            FinishWaitStage::TellFinishesAt { engine, span, .. } => self.at(
                FinishWaitStage::TellWaitingForFinish { engine, span },
            ),
            FinishWaitStage::TellWaitingForFinish { engine, span } => self.at(
                FinishWaitStage::Sleeping { engine, span },
            ),
            FinishWaitStage::Sleeping { engine, .. } => if engine.after(outcome).state
                == WaitState::Resolved {
                self.at(FinishWaitStage::TellFinished)
            } else {
                self.broken(outcome)
            },
            FinishWaitStage::TellFinished => self.at(FinishWaitStage::Over),
            FinishWaitStage::Over => self,
            FinishWaitStage::Failed(_) => self,
        }
    }

    /// Begins the wait, and names its first effect.
    pub fn start(sale: Address) -> (r: (FinishWait, Effect))
        ensures
            r.0 == FinishWait::begin(sale),
            r.1 == r.0.effect(),
    {
        (FinishWait { sale, stage: FinishWaitStage::Head, phase: None }, Effect::Head)
    }

    /// Takes the outcome of the effect last named, and names the next.
    pub fn advance(self, outcome: Outcome) -> (r: (FinishWait, Effect))
        ensures
            r.0 == self.after(outcome),
            r.1 == r.0.effect(),
    {
        let broken = FinishWait {
            stage: FinishWaitStage::Failed(
                WorkflowError::Remote(self.current_effect(), failure_of(&outcome)),
            ),
            ..self
        };
        let next = match self.stage {
            FinishWaitStage::Head => match outcome {
                Outcome::Head(head) => FinishWait { stage: FinishWaitStage::State { head }, ..self },
                _ => broken,
            },
            FinishWaitStage::State { head } => match outcome {
                Outcome::Value(Value::Code(code)) => FinishWait {
                    stage: if code == 0 {
                        FinishWaitStage::TellWaitingForClose { head }
                    } else {
                        FinishWaitStage::FinishTime
                    },
                    phase: Some(SalePhase::from_code(code)),
                    ..self
                },
                _ => broken,
            },
            FinishWaitStage::TellWaitingForClose { head } => {
                let (engine, _) = WaitEngine::await_event(self.sale, EventKind::IcoClosed, head);
                FinishWait { stage: FinishWaitStage::Closing(engine), ..self }
            },
            FinishWaitStage::Closing(engine) => {
                let (engine, _) = engine.advance(outcome);
                if engine.is_resolved() {
                    FinishWait { stage: FinishWaitStage::TellClosed, ..self }
                } else {
                    broken
                }
            },
            FinishWaitStage::TellClosed => FinishWait {
                stage: FinishWaitStage::FinishTime,
                ..self
            },
            FinishWaitStage::FinishTime => match outcome {
                Outcome::Value(Value::Word(finish)) => match Instant::from_timestamp(&finish) {
                    Some(deadline) => {
                        proof {
                            lemma_deadline_of(finish, deadline);
                        }
                        FinishWait { stage: FinishWaitStage::Clock { finish, deadline }, ..self }
                    },
                    None => FinishWait {
                        stage: FinishWaitStage::Failed(WorkflowError::Timestamp(finish)),
                        ..self
                    },
                },
                _ => broken,
            },
            FinishWaitStage::Clock { finish, deadline } => match outcome {
                Outcome::Now(now) => {
                    let (engine, effect) = WaitEngine::await_deadline(self.sale, deadline, now);
                    match effect {
                        Effect::Sleep(span) => FinishWait {
                            stage: FinishWaitStage::TellFinishesAt { finish, engine, span },
                            ..self
                        },
                        _ => FinishWait { stage: FinishWaitStage::Over, ..self },
                    }
                },
                _ => broken,
            },
            FinishWaitStage::TellFinishesAt { engine, span, .. } => FinishWait {
                stage: FinishWaitStage::TellWaitingForFinish { engine, span },
                ..self
            },
            FinishWaitStage::TellWaitingForFinish { engine, span } => FinishWait {
                stage: FinishWaitStage::Sleeping { engine, span },
                ..self
            },
            FinishWaitStage::Sleeping { engine, .. } => {
                let (engine, _) = engine.advance(outcome);
                if engine.is_resolved() {
                    FinishWait { stage: FinishWaitStage::TellFinished, ..self }
                } else {
                    broken
                }
            },
            FinishWaitStage::TellFinished => FinishWait { stage: FinishWaitStage::Over, ..self },
            FinishWaitStage::Over => self,
            FinishWaitStage::Failed(_) => self,
        };
        (next, next.current_effect())
    }

    /// What the wait asks of its driver at its stage.
    pub fn current_effect(&self) -> (e: Effect)
        ensures
            e == self.effect(),
    {
        match self.stage {
            FinishWaitStage::Head => Effect::Head,
            FinishWaitStage::State { head } => Effect::Read(
                Query::at(self.sale, Read::State, head),
            ),
            FinishWaitStage::TellWaitingForClose { .. } => Effect::Tell(Note::WaitingForClose),
            FinishWaitStage::Closing(engine) => match engine.condition {
                WaitCondition::AwaitEvent(kind, from_block) => Effect::AwaitEvent {
                    sale: engine.sale,
                    kind,
                    from_block,
                },
                WaitCondition::AwaitDeadline(_) => Effect::Finish,
            },
            FinishWaitStage::TellClosed => Effect::Tell(Note::IcoClosed),
            FinishWaitStage::FinishTime => Effect::Read(
                Query::latest(self.sale, Read::FinishTime),
            ),
            FinishWaitStage::Clock { .. } => Effect::Clock,
            FinishWaitStage::TellFinishesAt { finish, .. } => Effect::Tell(Note::FinishesAt(finish)),
            FinishWaitStage::TellWaitingForFinish { .. } => Effect::Tell(Note::WaitingForFinish),
            FinishWaitStage::Sleeping { span, .. } => Effect::Sleep(span),
            FinishWaitStage::TellFinished => Effect::Tell(Note::IcoFinished),
            FinishWaitStage::Over => Effect::Finish,
            FinishWaitStage::Failed(_) => Effect::Finish,
        }
    }

    /// How the wait ended; `None` while it is under way.
    pub fn result(&self) -> (r: Option<Result<(), WorkflowError>>)
        ensures
            r == (match self.stage {
                FinishWaitStage::Over => Some(Ok::<(), WorkflowError>(())),
                FinishWaitStage::Failed(e) => Some(Err(e)),
                _ => None,
            }),
    {
        match self.stage {
            FinishWaitStage::Over => Some(Ok(())),
            FinishWaitStage::Failed(e) => Some(Err(e)),
            _ => None,
        }
    }
}

/// The start of the second that a ledger timestamp names.
pub closed spec fn deadline_of(seconds: Word256) -> Instant {
    choose|t: Instant| t@ == seconds@ * 1_000_000_000 && t.nanos_spec() == 0
}

/// The instant that a timestamp names is the one that the clock makes of it.
pub proof fn lemma_deadline_of(seconds: Word256, t: Instant)
    requires
        t@ == seconds@ * 1_000_000_000,
        t.nanos_spec() == 0,
    ensures
        deadline_of(seconds) == t,
        deadline_of(seconds)@ == seconds@ * 1_000_000_000,
{
    let d = deadline_of(seconds);
    Instant::lemma_same(d, t);
}

/// A finish that has passed is not slept towards: from the reading of the
/// clock on, the wait is over and asks for nothing more.
pub proof fn lemma_past_deadline(wait: FinishWait, finish: Word256, deadline: Instant, now: Instant)
    requires
        wait.stage == (FinishWaitStage::Clock { finish, deadline }),
        deadline@ <= now@,
    ensures
        wait.after(Outcome::Now(now)).stage == FinishWaitStage::Over,
        wait.after(Outcome::Now(now)).effect() == Effect::Finish,
{
}

/// A finish that is still to come is slept towards once the operator has
/// been told, for exactly what is left on the clock.
pub proof fn lemma_coming_deadline(
    wait: FinishWait,
    finish: Word256,
    deadline: Instant,
    now: Instant,
)
    requires
        wait.stage == (FinishWaitStage::Clock { finish, deadline }),
        deadline@ > now@,
    ensures
        wait.after(Outcome::Now(now)).effect() == Effect::Tell(Note::FinishesAt(finish)),
        wait.after(Outcome::Now(now)).after(Outcome::Told).effect() == Effect::Tell(
            Note::WaitingForFinish,
        ),
        wait.after(Outcome::Now(now)).after(Outcome::Told).after(Outcome::Told).effect()
            == Effect::Sleep(Span::of((deadline@ - now@) as nat)),
{
}

/// The close is waited for if and only if the sale was found ongoing, and
/// then from the height that its phase was read at.
pub proof fn lemma_close_awaited_when_ongoing(wait: FinishWait, head: u64, code: u8)
    requires
        wait.stage == (FinishWaitStage::State { head }),
    ensures
        code == 0 ==> wait.after(Outcome::Value(Value::Code(code))).after(
            Outcome::Told,
        ).effect() == (Effect::AwaitEvent {
            sale: wait.sale,
            kind: EventKind::IcoClosed,
            from_block: head,
        }),
        code != 0 ==> wait.after(Outcome::Value(Value::Code(code))).effect() == Effect::Read(
            Query { to: wait.sale, read: Read::FinishTime, block: None },
        ),
{
}

} // verus!
