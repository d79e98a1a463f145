//! Pure deterministic routing for the adaptive effort ladder.
//!
//! Callers decide whether escalation is authorized; this policy only identifies
//! the next legal route.
use vstd::prelude::*;

verus! {

#[derive(Clone, Copy, Debug, PartialEq, Eq, Structural)]
pub enum AdaptiveFamily {
    Luna,
    Terra,
    Sol,
    Astra,
}

#[derive(Clone, Copy, Debug, PartialEq, Eq, Structural)]
pub enum AdaptiveEffort {
    Low,
    Medium,
    High,
    XHigh,
    Max,
}

#[derive(Clone, Copy, Debug, PartialEq, Eq, Structural)]
pub struct AdaptiveRoute {
    pub family: AdaptiveFamily,
    pub effort: AdaptiveEffort,
}

#[derive(Clone, Copy, Debug, PartialEq, Eq, Structural)]
pub enum AdaptiveTransition {
    EscalateEffort(AdaptiveRoute),
    EscalateModel(AdaptiveRoute),
    Blocked,
    InvalidState,
}

/// A normalized, typed attempt result supplied by a trusted runtime or
/// controller producer. Assistant prose and tool output are absent from this
/// type, so they cannot authorize retrying or spending stronger compute.
#[derive(Clone, Copy, Debug, PartialEq, Eq, Structural)]
pub enum AdaptiveOutcomeSignal {
    Completed,
    Failed,
    Failure(AdaptiveFailureKind),
    UserInterrupted,
    ReadyForOwnerQa,
}

#[derive(Clone, Copy, Debug, PartialEq, Eq, Structural)]
pub enum AdaptiveFailureKind {
    Capability,
    TransientInfrastructure,
    Authentication,
    Quota,
    Environment,
    Permission,
    Dependency,
    ModelUnavailable,
    OwnerDecision,
    AuthorizationOrScope,
    UserInterrupted,
    ReadyForOwnerQa,
    Unknown,
}

#[derive(Clone, Copy, Debug, PartialEq, Eq, Structural)]
pub enum AdaptiveOutcome {
    Unknown,
    UserInterrupted,
    ReadyForOwnerQa,
}

#[derive(Clone, Copy, Debug, PartialEq, Eq, Structural)]
pub enum AdaptiveClassification {
    PassToOwnerQa,
    RetrySameLevel,
    EscalationEligible,
    Blocked,
    UserInterrupted,
    NoDecision,
}

pub open spec fn spec_classify_outcome(signal: AdaptiveOutcomeSignal) -> AdaptiveClassification {
    match signal {
        AdaptiveOutcomeSignal::Completed => AdaptiveClassification::NoDecision,
        AdaptiveOutcomeSignal::Failed => AdaptiveClassification::Blocked,
        AdaptiveOutcomeSignal::UserInterrupted => AdaptiveClassification::UserInterrupted,
        AdaptiveOutcomeSignal::ReadyForOwnerQa => AdaptiveClassification::PassToOwnerQa,
        AdaptiveOutcomeSignal::Failure(kind) => match kind {
            AdaptiveFailureKind::UserInterrupted => AdaptiveClassification::UserInterrupted,
            AdaptiveFailureKind::ReadyForOwnerQa => AdaptiveClassification::PassToOwnerQa,
            AdaptiveFailureKind::Capability => AdaptiveClassification::EscalationEligible,
            AdaptiveFailureKind::TransientInfrastructure => AdaptiveClassification::RetrySameLevel,
            _ => AdaptiveClassification::Blocked,
        },
    }
}

pub fn classify_outcome(signal: AdaptiveOutcomeSignal) -> (c: AdaptiveClassification)
    ensures
        c == spec_classify_outcome(signal),
{
    match signal {
        AdaptiveOutcomeSignal::Completed => AdaptiveClassification::NoDecision,
        AdaptiveOutcomeSignal::Failed => AdaptiveClassification::Blocked,
        AdaptiveOutcomeSignal::UserInterrupted
        | AdaptiveOutcomeSignal::Failure(AdaptiveFailureKind::UserInterrupted) => {
            AdaptiveClassification::UserInterrupted
        },
        AdaptiveOutcomeSignal::ReadyForOwnerQa
        | AdaptiveOutcomeSignal::Failure(AdaptiveFailureKind::ReadyForOwnerQa) => {
            AdaptiveClassification::PassToOwnerQa
        },
        AdaptiveOutcomeSignal::Failure(AdaptiveFailureKind::Capability) => {
            AdaptiveClassification::EscalationEligible
        },
        AdaptiveOutcomeSignal::Failure(AdaptiveFailureKind::TransientInfrastructure) => {
            AdaptiveClassification::RetrySameLevel
        },
        AdaptiveOutcomeSignal::Failure(
            AdaptiveFailureKind::Authentication
            | AdaptiveFailureKind::Quota
            | AdaptiveFailureKind::Environment
            | AdaptiveFailureKind::Permission
            | AdaptiveFailureKind::Dependency
            | AdaptiveFailureKind::ModelUnavailable
            | AdaptiveFailureKind::OwnerDecision
            | AdaptiveFailureKind::AuthorizationOrScope
            | AdaptiveFailureKind::Unknown,
        ) => AdaptiveClassification::Blocked,
    }
}

/// Only an explicit typed capability failure makes an attempt eligible for
/// escalation, and only an explicit typed owner-QA fact passes to owner QA;
/// generic completion and failure never authorize either.
pub proof fn lemma_only_explicit_signals_authorize(signal: AdaptiveOutcomeSignal)
    ensures
        spec_classify_outcome(signal) == AdaptiveClassification::EscalationEligible
            <==> signal == AdaptiveOutcomeSignal::Failure(AdaptiveFailureKind::Capability),
        spec_classify_outcome(signal) == AdaptiveClassification::PassToOwnerQa <==> (signal
            == AdaptiveOutcomeSignal::ReadyForOwnerQa || signal == AdaptiveOutcomeSignal::Failure(
            AdaptiveFailureKind::ReadyForOwnerQa,
        )),
        spec_classify_outcome(signal) == AdaptiveClassification::RetrySameLevel <==> signal
            == AdaptiveOutcomeSignal::Failure(AdaptiveFailureKind::TransientInfrastructure),
{
}

pub open spec fn mk_route(family: AdaptiveFamily, effort: AdaptiveEffort) -> AdaptiveRoute {
    AdaptiveRoute { family, effort }
}

/// The single automatic capability ladder, from Luna Low to Astra Max.
pub open spec fn ladder() -> Seq<AdaptiveRoute> {
    seq![
        mk_route(AdaptiveFamily::Luna, AdaptiveEffort::Low),
        mk_route(AdaptiveFamily::Luna, AdaptiveEffort::Medium),
        mk_route(AdaptiveFamily::Luna, AdaptiveEffort::High),
        mk_route(AdaptiveFamily::Terra, AdaptiveEffort::Low),
        mk_route(AdaptiveFamily::Terra, AdaptiveEffort::Medium),
        mk_route(AdaptiveFamily::Terra, AdaptiveEffort::High),
        mk_route(AdaptiveFamily::Sol, AdaptiveEffort::Low),
        mk_route(AdaptiveFamily::Sol, AdaptiveEffort::Medium),
        mk_route(AdaptiveFamily::Sol, AdaptiveEffort::High),
        mk_route(AdaptiveFamily::Astra, AdaptiveEffort::Low),
        mk_route(AdaptiveFamily::Astra, AdaptiveEffort::Medium),
        mk_route(AdaptiveFamily::Astra, AdaptiveEffort::High),
        mk_route(AdaptiveFamily::Astra, AdaptiveEffort::XHigh),
        mk_route(AdaptiveFamily::Astra, AdaptiveEffort::Max),
    ]
}

/// Position of a route on the ladder, if it is a rung.
pub open spec fn ladder_position(r: AdaptiveRoute) -> Option<int> {
    match (r.family, r.effort) {
        (AdaptiveFamily::Luna, AdaptiveEffort::Low) => Some(0),
        (AdaptiveFamily::Luna, AdaptiveEffort::Medium) => Some(1),
        (AdaptiveFamily::Luna, AdaptiveEffort::High) => Some(2),
        (AdaptiveFamily::Terra, AdaptiveEffort::Low) => Some(3),
        (AdaptiveFamily::Terra, AdaptiveEffort::Medium) => Some(4),
        (AdaptiveFamily::Terra, AdaptiveEffort::High) => Some(5),
        (AdaptiveFamily::Sol, AdaptiveEffort::Low) => Some(6),
        (AdaptiveFamily::Sol, AdaptiveEffort::Medium) => Some(7),
        (AdaptiveFamily::Sol, AdaptiveEffort::High) => Some(8),
        (AdaptiveFamily::Astra, AdaptiveEffort::Low) => Some(9),
        (AdaptiveFamily::Astra, AdaptiveEffort::Medium) => Some(10),
        (AdaptiveFamily::Astra, AdaptiveEffort::High) => Some(11),
        (AdaptiveFamily::Astra, AdaptiveEffort::XHigh) => Some(12),
        (AdaptiveFamily::Astra, AdaptiveEffort::Max) => Some(13),
        _ => None,
    }
}

pub open spec fn family_rank(f: AdaptiveFamily) -> int {
    match f {
        AdaptiveFamily::Luna => 0,
        AdaptiveFamily::Terra => 1,
        AdaptiveFamily::Sol => 2,
        AdaptiveFamily::Astra => 3,
    }
}

pub open spec fn effort_rank(e: AdaptiveEffort) -> int {
    match e {
        AdaptiveEffort::Low => 0,
        AdaptiveEffort::Medium => 1,
        AdaptiveEffort::High => 2,
        AdaptiveEffort::XHigh => 3,
        AdaptiveEffort::Max => 4,
    }
}

/// The transition from `current` along the ladder: the successor rung, tagged by
/// whether it stays in the model family; `Blocked` at the top; `InvalidState`
/// off the ladder. The starting preference plays no part.
pub open spec fn spec_next_route(current: AdaptiveRoute) -> AdaptiveTransition {
    match ladder_position(current) {
        None => AdaptiveTransition::InvalidState,
        Some(i) => if i + 1 >= ladder().len() {
            AdaptiveTransition::Blocked
        } else {
            let next = ladder()[i + 1];
            if next.family == current.family {
                AdaptiveTransition::EscalateEffort(next)
            } else {
                AdaptiveTransition::EscalateModel(next)
            }
        },
    }
}

proof fn lemma_ladder_positions()
    ensures
        ladder().len() == 14,
        forall|i: int| 0 <= i < 14 ==> #[trigger] ladder_position(ladder()[i]) == Some(i),
        forall|r: AdaptiveRoute| #[trigger]
            ladder_position(r) is Some ==> 0 <= ladder_position(r)->0 < 14 && ladder()[ladder_position(
                r,
            )->0] == r,
{
    assert(ladder_position(ladder()[0]) == Some(0int));
    assert(ladder_position(ladder()[1]) == Some(1int));
    assert(ladder_position(ladder()[2]) == Some(2int));
    assert(ladder_position(ladder()[3]) == Some(3int));
    assert(ladder_position(ladder()[4]) == Some(4int));
    assert(ladder_position(ladder()[5]) == Some(5int));
    assert(ladder_position(ladder()[6]) == Some(6int));
    assert(ladder_position(ladder()[7]) == Some(7int));
    assert(ladder_position(ladder()[8]) == Some(8int));
    assert(ladder_position(ladder()[9]) == Some(9int));
    assert(ladder_position(ladder()[10]) == Some(10int));
    assert(ladder_position(ladder()[11]) == Some(11int));
    assert(ladder_position(ladder()[12]) == Some(12int));
    assert(ladder_position(ladder()[13]) == Some(13int));
}

fn automatic_ladder() -> (l: Vec<AdaptiveRoute>)
    ensures
        l@ == ladder(),
{
    let l = vec![
        route(AdaptiveFamily::Luna, AdaptiveEffort::Low),
        route(AdaptiveFamily::Luna, AdaptiveEffort::Medium),
        route(AdaptiveFamily::Luna, AdaptiveEffort::High),
        route(AdaptiveFamily::Terra, AdaptiveEffort::Low),
        route(AdaptiveFamily::Terra, AdaptiveEffort::Medium),
        route(AdaptiveFamily::Terra, AdaptiveEffort::High),
        route(AdaptiveFamily::Sol, AdaptiveEffort::Low),
        route(AdaptiveFamily::Sol, AdaptiveEffort::Medium),
        route(AdaptiveFamily::Sol, AdaptiveEffort::High),
        route(AdaptiveFamily::Astra, AdaptiveEffort::Low),
        route(AdaptiveFamily::Astra, AdaptiveEffort::Medium),
        route(AdaptiveFamily::Astra, AdaptiveEffort::High),
        route(AdaptiveFamily::Astra, AdaptiveEffort::XHigh),
        route(AdaptiveFamily::Astra, AdaptiveEffort::Max),
    ];
    assert(l@ =~= ladder());
    l
}

pub fn route(family: AdaptiveFamily, effort: AdaptiveEffort) -> (r: AdaptiveRoute)
    ensures
        r == mk_route(family, effort),
{
    AdaptiveRoute { family, effort }
}

/// Every adaptive run starts on Luna Low. `starting_family` is retained as
/// preference metadata, but it does not bypass the cheap first attempt.
pub fn initial_route(starting_family: AdaptiveFamily) -> (r: AdaptiveRoute)
    ensures
        r == mk_route(AdaptiveFamily::Luna, AdaptiveEffort::Low),
        r == ladder()[0],
{
    route(AdaptiveFamily::Luna, AdaptiveEffort::Low)
}

/// Advance through the single automatic ladder. The preference does not remove
/// lower rungs.
pub fn next_route(starting_family: AdaptiveFamily, current_route: AdaptiveRoute) -> (t:
    AdaptiveTransition)
    ensures
        t == spec_next_route(current_route),
{
    proof {
        lemma_ladder_positions();
    }
    let ladder_routes = automatic_ladder();
    let n = ladder_routes.len();
    let mut i: usize = 0;
    while i < n
        invariant
            n == ladder_routes@.len(),
            ladder_routes@ == ladder(),
            i <= n,
            forall|j: int| 0 <= j < i ==> ladder_routes@[j] != current_route,
        decreases n - i,
    {
        if ladder_routes[i] == current_route {
            if i + 1 >= n {
                return AdaptiveTransition::Blocked;
            }
            let next = ladder_routes[i + 1];
            if next.family == current_route.family {
                return AdaptiveTransition::EscalateEffort(next);
            } else {
                return AdaptiveTransition::EscalateModel(next);
            }
        }
        i = i + 1;
    }
    proof {
        if ladder_position(current_route) is Some {
            let k = ladder_position(current_route)->0;
            assert(ladder_routes@[k] == current_route);
        }
    }
    AdaptiveTransition::InvalidState
}

/// Every transition that moves, moves strictly up: an effort escalation stays
/// in the family and raises effort, a model escalation raises the family; the
/// target is the next rung of the ladder; and the preference is irrelevant.
pub proof fn lemma_transitions_never_decrease(current: AdaptiveRoute)
    ensures
        spec_next_route(current) matches AdaptiveTransition::EscalateEffort(to) ==> to.family
            == current.family && effort_rank(to.effort) > effort_rank(current.effort),
        spec_next_route(current) matches AdaptiveTransition::EscalateModel(to) ==> family_rank(
            to.family,
        ) > family_rank(current.family),
        spec_next_route(current) matches AdaptiveTransition::EscalateEffort(to) ==> ladder_position(
            to,
        ) == Some(ladder_position(current)->0 + 1),
        spec_next_route(current) matches AdaptiveTransition::EscalateModel(to) ==> ladder_position(
            to,
        ) == Some(ladder_position(current)->0 + 1),
        spec_next_route(current) == AdaptiveTransition::Blocked <==> current == mk_route(
            AdaptiveFamily::Astra,
            AdaptiveEffort::Max,
        ),
{
    lemma_ladder_positions();
}

/// Every rung except the top escalates to its successor rung.
pub proof fn lemma_ladder_is_exact(i: int)
    requires
        0 <= i < ladder().len() - 1,
    ensures
        spec_next_route(ladder()[i]) == (if ladder()[i + 1].family == ladder()[i].family {
            AdaptiveTransition::EscalateEffort(ladder()[i + 1])
        } else {
            AdaptiveTransition::EscalateModel(ladder()[i + 1])
        }),
{
    lemma_ladder_positions();
}

} // verus!
