//! Waiting: for an event of the sale, or for a deadline.
//!
//! An engine waits on one condition. Waiting for an event it subscribes and
//! resolves when the first event arrives; there is no timeout. Waiting for a
//! deadline it sleeps once, for what is left until the deadline, and does
//! not sleep at all if the deadline has passed.

use vstd::prelude::*;

use crate::clock::{remaining_nanos, Instant, Span};
use crate::exchange::{Effect, Outcome};
use crate::ledger::{Address, EventKind};

verus! {

/// What an engine waits for.
#[derive(Clone, Copy, Debug, PartialEq, Eq, Hash, Structural)]
pub enum WaitCondition {
    /// The first event of a kind, from a block on.
    AwaitEvent(EventKind, u64),
    /// An instant.
    AwaitDeadline(Instant),
}

/// Where a wait stands.
#[derive(Clone, Copy, Debug, PartialEq, Eq, Hash, Structural)]
pub enum WaitState {
    /// The wait has not begun.
    Idle,
    /// The engine is subscribed and the event has not arrived.
    Subscribed,
    /// The engine sleeps until the deadline.
    Sleeping,
    /// The condition holds.
    Resolved,
    /// The subscription or the sleep broke off.
    Broken,
}

/// A wait on one condition.
#[derive(Clone, Copy, Debug, PartialEq, Eq)]
pub struct WaitEngine {
    /// The sale whose events are awaited.
    pub sale: Address,
    /// What the engine waits for.
    pub condition: WaitCondition,
    /// Where the wait stands.
    pub state: WaitState,
}

impl WaitEngine {
    /// The state that a wait is in once it has begun at `now`.
    pub open spec fn started(condition: WaitCondition, now: Instant) -> WaitState {
        match condition {
            WaitCondition::AwaitEvent(_, _) => WaitState::Subscribed,
            WaitCondition::AwaitDeadline(deadline) => if deadline@ > now@ {
                WaitState::Sleeping
            } else {
                WaitState::Resolved
            },
        }
    }

    /// What a wait that has begun at `now` asks of its driver.
    pub open spec fn first_effect(sale: Address, condition: WaitCondition, now: Instant) -> Effect {
        match condition {
            WaitCondition::AwaitEvent(kind, from_block) => Effect::AwaitEvent {
                sale,
                kind,
                from_block,
            },
            WaitCondition::AwaitDeadline(deadline) => if deadline@ > now@ {
                Effect::Sleep(Span::of(remaining_nanos(deadline@, now@)))
            } else {
                Effect::Finish
            },
        }
    }

    /// The wait after the outcome of its effect: the event resolves a
    /// subscription, the end of the sleep resolves a sleep, and any other
    /// outcome breaks the wait off. A wait that is over stays as it is.
    pub open spec fn after(self, outcome: Outcome) -> WaitEngine {
        match self.state {
            WaitState::Subscribed => match outcome {
                Outcome::Event => WaitEngine { state: WaitState::Resolved, ..self },
                _ => WaitEngine { state: WaitState::Broken, ..self },
            },
            WaitState::Sleeping => match outcome {
                Outcome::Woke => WaitEngine { state: WaitState::Resolved, ..self },
                _ => WaitEngine { state: WaitState::Broken, ..self },
            },
            _ => self,
        }
    }

    /// A wait that has not begun.
    pub fn idle(sale: Address, condition: WaitCondition) -> (engine: WaitEngine)
        ensures
            engine == (WaitEngine { sale, condition, state: WaitState::Idle }),
    {
        WaitEngine { sale, condition, state: WaitState::Idle }
    }

    /// Begins an idle wait at the time `now`, and names its effect. A wait
    /// that has begun is left as it is.
    pub fn start(self, now: Instant) -> (r: (WaitEngine, Effect))
        ensures
            self.state == WaitState::Idle ==> r.0 == (WaitEngine {
                state: WaitEngine::started(self.condition, now),
                ..self
            }) && r.1 == WaitEngine::first_effect(self.sale, self.condition, now),
            self.state != WaitState::Idle ==> r.0 == self && r.1 == Effect::Finish,
    {
        match self.state {
            WaitState::Idle => match self.condition {
                WaitCondition::AwaitEvent(kind, from_block) => (
                    WaitEngine { state: WaitState::Subscribed, ..self },
                    Effect::AwaitEvent { sale: self.sale, kind, from_block },
                ),
                WaitCondition::AwaitDeadline(deadline) => {
                    if now.is_before(&deadline) {
                        let span: Span = deadline.remaining(&now);
                        (WaitEngine { state: WaitState::Sleeping, ..self }, Effect::Sleep(span))
                    } else {
                        (WaitEngine { state: WaitState::Resolved, ..self }, Effect::Finish)
                    }
                },
            },
            _ => (self, Effect::Finish),
        }
    }

    /// Waits for the first event of a kind that the sale emits from a block
    /// on: the engine subscribes.
    pub fn await_event(sale: Address, kind: EventKind, from_block: u64) -> (r: (WaitEngine, Effect))
        ensures
            r.0 == (WaitEngine {
                sale,
                condition: WaitCondition::AwaitEvent(kind, from_block),
                state: WaitState::Subscribed,
            }),
            r.1 == (Effect::AwaitEvent { sale, kind, from_block }),
    {
        (
            WaitEngine {
                sale,
                condition: WaitCondition::AwaitEvent(kind, from_block),
                state: WaitState::Subscribed,
            },
            Effect::AwaitEvent { sale, kind, from_block },
        )
    }

    /// Waits for a deadline, the clock showing `now`. A deadline that has
    /// passed is resolved at once, with no sleep; another is slept towards,
    /// once, for exactly what is left.
    pub fn await_deadline(sale: Address, deadline: Instant, now: Instant) -> (r: (
        WaitEngine,
        Effect,
    ))
        ensures
            r.0.sale == sale,
            r.0.condition == WaitCondition::AwaitDeadline(deadline),
            deadline@ <= now@ ==> r.0.state == WaitState::Resolved && r.1 == Effect::Finish,
            deadline@ > now@ ==> r.0.state == WaitState::Sleeping && r.1 == Effect::Sleep(
                Span::of((deadline@ - now@) as nat),
            ),
    {
        WaitEngine::idle(sale, WaitCondition::AwaitDeadline(deadline)).start(now)
    }

    /// Takes the outcome of the effect last named; what follows is the end.
    pub fn advance(self, outcome: Outcome) -> (r: (WaitEngine, Effect))
        ensures
            r.0 == self.after(outcome),
            r.1 == Effect::Finish,
    {
        let state = match self.state {
            WaitState::Subscribed => match outcome {
                Outcome::Event => WaitState::Resolved,
                _ => WaitState::Broken,
            },
            WaitState::Sleeping => match outcome {
                Outcome::Woke => WaitState::Resolved,
                _ => WaitState::Broken,
            },
            other => other,
        };
        (WaitEngine { state, ..self }, Effect::Finish)
    }

    /// Whether the condition holds.
    pub fn is_resolved(&self) -> (r: bool)
        ensures
            r == (self.state == WaitState::Resolved),
    {
        match self.state {
            WaitState::Resolved => true,
            _ => false,
        }
    }
}

} // verus!
