//! Pure adaptive controller state reduction.
//!
//! The per-thread adaptive state remains canonical lifecycle state; the live
//! bridge translates it to this neutral snapshot and executes an authorized
//! decision.
use vstd::prelude::*;

use crate::policy::{
    AdaptiveClassification, AdaptiveEffort, AdaptiveFamily, AdaptiveRoute, AdaptiveTransition,
    initial_route, ladder_position, lemma_transitions_never_decrease, mk_route, next_route,
    spec_next_route,
};
use crate::worker::AdaptiveWorkflowTerminal;

verus! {

/// Completed turns without a workflow handoff that a bound Worker may spend on
/// the same route before the next one escalates.
pub const ADAPTIVE_UNFINISHED_TURN_THRESHOLD: u8 = 2;

#[derive(Clone, Copy, Debug, PartialEq, Eq, Structural)]
pub struct AdaptiveControllerState {
    pub starting_family: AdaptiveFamily,
    pub current_route: AdaptiveRoute,
    pub attempt_number: u32,
    pub transient_retry_consumed: bool,
    pub paused_by_user: bool,
    pub terminal: Option<AdaptiveWorkflowTerminal>,
}

#[derive(Clone, Copy, Debug, PartialEq, Eq, Structural)]
pub enum AdaptiveControllerDecision {
    NoAction,
    RetrySameLevel { route: AdaptiveRoute, next_attempt: u32 },
    EscalateEffort { from: AdaptiveRoute, to: AdaptiveRoute, next_attempt: u32 },
    EscalateModel { from: AdaptiveRoute, to: AdaptiveRoute, next_attempt: u32 },
    ReadyForOwnerQa,
    Blocked,
    PausedByUser,
    InvalidState,
}

#[derive(Clone, Copy, Debug, PartialEq, Eq, Structural)]
pub struct AdaptiveControllerReduction {
    pub state: AdaptiveControllerState,
    pub decision: AdaptiveControllerDecision,
}

pub open spec fn spec_initial(starting_family: AdaptiveFamily) -> AdaptiveControllerState {
    AdaptiveControllerState {
        starting_family,
        current_route: mk_route(AdaptiveFamily::Luna, AdaptiveEffort::Low),
        attempt_number: 1,
        transient_retry_consumed: false,
        paused_by_user: false,
        terminal: None,
    }
}

pub open spec fn spec_resume(state: AdaptiveControllerState) -> AdaptiveControllerState {
    AdaptiveControllerState { paused_by_user: false, ..state }
}

impl AdaptiveControllerState {
    pub fn initial(starting_family: AdaptiveFamily) -> (s: Self)
        ensures
            s == spec_initial(starting_family),
    {
        AdaptiveControllerState {
            starting_family,
            current_route: initial_route(starting_family),
            attempt_number: 1,
            transient_retry_consumed: false,
            paused_by_user: false,
            terminal: None,
        }
    }

    /// Clears only a user pause. It does not authorize or record a work attempt.
    pub fn resume(self) -> (s: Self)
        ensures
            s == spec_resume(self),
    {
        let mut s = self;
        s.paused_by_user = false;
        s
    }
}

pub open spec fn spec_no_action(state: AdaptiveControllerState) -> AdaptiveControllerReduction {
    AdaptiveControllerReduction { state, decision: AdaptiveControllerDecision::NoAction }
}

pub open spec fn spec_block(state: AdaptiveControllerState) -> AdaptiveControllerReduction {
    AdaptiveControllerReduction {
        state: AdaptiveControllerState {
            terminal: Some(AdaptiveWorkflowTerminal::Blocked),
            ..state
        },
        decision: AdaptiveControllerDecision::Blocked,
    }
}

pub open spec fn spec_escalate(
    state: AdaptiveControllerState,
    to: AdaptiveRoute,
    changes_model: bool,
) -> AdaptiveControllerReduction {
    let next_attempt = (state.attempt_number + 1) as u32;
    AdaptiveControllerReduction {
        state: AdaptiveControllerState {
            current_route: to,
            attempt_number: next_attempt,
            transient_retry_consumed: false,
            ..state
        },
        decision: if changes_model {
            AdaptiveControllerDecision::EscalateModel {
                from: state.current_route,
                to,
                next_attempt,
            }
        } else {
            AdaptiveControllerDecision::EscalateEffort {
                from: state.current_route,
                to,
                next_attempt,
            }
        },
    }
}

/// Whether reducing `classification` in `state` authorizes a further attempt,
/// which takes the next attempt number.
pub open spec fn spec_advances_attempt(
    state: AdaptiveControllerState,
    classification: AdaptiveClassification,
) -> bool {
    &&& state.terminal is None
    &&& !state.paused_by_user
    &&& match classification {
        AdaptiveClassification::RetrySameLevel => !state.transient_retry_consumed,
        AdaptiveClassification::EscalationEligible => match spec_next_route(state.current_route) {
            AdaptiveTransition::EscalateEffort(_) | AdaptiveTransition::EscalateModel(_) => true,
            _ => false,
        },
        _ => false,
    }
}

/// The reduction of one normalized classification.
pub open spec fn spec_reduce(
    state: AdaptiveControllerState,
    classification: AdaptiveClassification,
) -> AdaptiveControllerReduction {
    if state.terminal is Some || state.paused_by_user {
        spec_no_action(state)
    } else {
        match classification {
            AdaptiveClassification::NoDecision => spec_no_action(state),
            AdaptiveClassification::UserInterrupted => AdaptiveControllerReduction {
                state: AdaptiveControllerState { paused_by_user: true, ..state },
                decision: AdaptiveControllerDecision::PausedByUser,
            },
            AdaptiveClassification::PassToOwnerQa => AdaptiveControllerReduction {
                state: AdaptiveControllerState {
                    terminal: Some(AdaptiveWorkflowTerminal::ReadyForOwnerQa),
                    ..state
                },
                decision: AdaptiveControllerDecision::ReadyForOwnerQa,
            },
            AdaptiveClassification::Blocked => spec_block(state),
            AdaptiveClassification::RetrySameLevel => if state.transient_retry_consumed {
                spec_block(state)
            } else {
                let next_attempt = (state.attempt_number + 1) as u32;
                AdaptiveControllerReduction {
                    state: AdaptiveControllerState {
                        attempt_number: next_attempt,
                        transient_retry_consumed: true,
                        ..state
                    },
                    decision: AdaptiveControllerDecision::RetrySameLevel {
                        route: state.current_route,
                        next_attempt,
                    },
                }
            },
            AdaptiveClassification::EscalationEligible => match spec_next_route(
                state.current_route,
            ) {
                AdaptiveTransition::EscalateEffort(to) => spec_escalate(state, to, false),
                AdaptiveTransition::EscalateModel(to) => spec_escalate(state, to, true),
                AdaptiveTransition::Blocked => spec_block(state),
                AdaptiveTransition::InvalidState => AdaptiveControllerReduction {
                    state: AdaptiveControllerState {
                        terminal: Some(AdaptiveWorkflowTerminal::Blocked),
                        ..state
                    },
                    decision: AdaptiveControllerDecision::InvalidState,
                },
            },
        }
    }
}

/// Deterministically reduces one normalized classification. It has no side
/// effects.
pub fn reduce_adaptive_controller(
    state: AdaptiveControllerState,
    classification: AdaptiveClassification,
) -> (r: AdaptiveControllerReduction)
    requires
        spec_advances_attempt(state, classification) ==> state.attempt_number < u32::MAX,
    ensures
        r == spec_reduce(state, classification),
{
    if state.terminal.is_some() || state.paused_by_user {
        return no_action(state);
    }
    match classification {
        AdaptiveClassification::NoDecision => no_action(state),
        AdaptiveClassification::UserInterrupted => {
            let mut next = state;
            next.paused_by_user = true;
            AdaptiveControllerReduction {
                state: next,
                decision: AdaptiveControllerDecision::PausedByUser,
            }
        },
        AdaptiveClassification::PassToOwnerQa => {
            let mut next = state;
            next.terminal = Some(AdaptiveWorkflowTerminal::ReadyForOwnerQa);
            AdaptiveControllerReduction {
                state: next,
                decision: AdaptiveControllerDecision::ReadyForOwnerQa,
            }
        },
        AdaptiveClassification::Blocked => block(state),
        AdaptiveClassification::RetrySameLevel => {
            if state.transient_retry_consumed {
                block(state)
            } else {
                let next_attempt = state.attempt_number + 1;
                let mut next = state;
                next.attempt_number = next_attempt;
                next.transient_retry_consumed = true;
                AdaptiveControllerReduction {
                    state: next,
                    decision: AdaptiveControllerDecision::RetrySameLevel {
                        route: state.current_route,
                        next_attempt,
                    },
                }
            }
        },
        AdaptiveClassification::EscalationEligible => {
            match next_route(state.starting_family, state.current_route) {
                AdaptiveTransition::EscalateEffort(to) => escalate(state, to, false),
                AdaptiveTransition::EscalateModel(to) => escalate(state, to, true),
                AdaptiveTransition::Blocked => block(state),
                AdaptiveTransition::InvalidState => {
                    let mut next = state;
                    next.terminal = Some(AdaptiveWorkflowTerminal::Blocked);
                    AdaptiveControllerReduction {
                        state: next,
                        decision: AdaptiveControllerDecision::InvalidState,
                    }
                },
            }
        },
    }
}

pub fn no_action(state: AdaptiveControllerState) -> (r: AdaptiveControllerReduction)
    ensures
        r == spec_no_action(state),
{
    AdaptiveControllerReduction { state, decision: AdaptiveControllerDecision::NoAction }
}

pub fn block(state: AdaptiveControllerState) -> (r: AdaptiveControllerReduction)
    ensures
        r == spec_block(state),
{
    let mut next = state;
    next.terminal = Some(AdaptiveWorkflowTerminal::Blocked);
    AdaptiveControllerReduction { state: next, decision: AdaptiveControllerDecision::Blocked }
}

pub fn escalate(state: AdaptiveControllerState, to: AdaptiveRoute, changes_model: bool) -> (r:
    AdaptiveControllerReduction)
    requires
        state.attempt_number < u32::MAX,
    ensures
        r == spec_escalate(state, to, changes_model),
{
    let next_attempt = state.attempt_number + 1;
    let decision = if changes_model {
        AdaptiveControllerDecision::EscalateModel { from: state.current_route, to, next_attempt }
    } else {
        AdaptiveControllerDecision::EscalateEffort { from: state.current_route, to, next_attempt }
    };
    let mut next = state;
    next.current_route = to;
    next.attempt_number = next_attempt;
    next.transient_retry_consumed = false;
    AdaptiveControllerReduction { state: next, decision }
}

/// Every workflow terminal and every user pause is an idempotent hard stop:
/// no classification changes the state or authorizes anything.
pub proof fn lemma_terminals_and_pause_are_hard_stops(
    state: AdaptiveControllerState,
    classification: AdaptiveClassification,
)
    requires
        state.terminal is Some || state.paused_by_user,
    ensures
        spec_reduce(state, classification) == spec_no_action(state),
{
}

/// The attempt number never decreases; it rises by exactly one when, and only
/// when, a retry or an escalation is authorized. The starting preference and
/// the Worker-visible route change only by an escalation, to the next rung.
pub proof fn lemma_attempts_and_routes_only_advance(
    state: AdaptiveControllerState,
    classification: AdaptiveClassification,
)
    requires
        spec_advances_attempt(state, classification) ==> state.attempt_number < u32::MAX,
    ensures
        ({
            let r = spec_reduce(state, classification);
            &&& r.state.starting_family == state.starting_family
            &&& spec_advances_attempt(state, classification) ==> r.state.attempt_number
                == state.attempt_number + 1
            &&& !spec_advances_attempt(state, classification) ==> r.state.attempt_number
                == state.attempt_number
            &&& (r.state.current_route == state.current_route || ladder_position(
                r.state.current_route,
            ) == Some(ladder_position(state.current_route)->0 + 1))
            &&& (r.decision matches AdaptiveControllerDecision::RetrySameLevel { .. }
                || r.decision matches AdaptiveControllerDecision::EscalateEffort { .. }
                || r.decision matches AdaptiveControllerDecision::EscalateModel { .. })
                <==> spec_advances_attempt(state, classification)
        }),
{
    lemma_transitions_never_decrease(state.current_route);
}

/// A transient retry is route-local and spent once: a second transient
/// failure on the same route blocks, while an escalation restores the retry.
pub proof fn lemma_transient_retry_once_per_route(state: AdaptiveControllerState)
    requires
        state.attempt_number < u32::MAX,
    ensures
        ({
            let first = spec_reduce(state, AdaptiveClassification::RetrySameLevel);
            first.decision matches AdaptiveControllerDecision::RetrySameLevel { .. }
                ==> spec_reduce(first.state, AdaptiveClassification::RetrySameLevel).decision
                == AdaptiveControllerDecision::Blocked
        }),
        ({
            let moved = spec_reduce(state, AdaptiveClassification::EscalationEligible);
            (moved.decision matches AdaptiveControllerDecision::EscalateEffort { .. }
                || moved.decision matches AdaptiveControllerDecision::EscalateModel { .. })
                ==> !moved.state.transient_retry_consumed
        }),
{
}

/// A user interrupt only pauses; resuming restores the exact prior state and
/// records no attempt.
pub proof fn lemma_pause_then_resume_restores(state: AdaptiveControllerState)
    requires
        state.terminal is None,
        !state.paused_by_user,
    ensures
        spec_reduce(state, AdaptiveClassification::UserInterrupted).decision
            == AdaptiveControllerDecision::PausedByUser,
        spec_resume(spec_reduce(state, AdaptiveClassification::UserInterrupted).state) == state,
{
}

} // verus!
