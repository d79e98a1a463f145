use codexdd_adaptive::policy::{
    AdaptiveClassification, AdaptiveEffort, AdaptiveFailureKind, AdaptiveFamily,
    AdaptiveOutcomeSignal, AdaptiveRoute, AdaptiveTransition, classify_outcome, initial_route,
    next_route, route,
};

const FAMILIES: [AdaptiveFamily; 4] = [
    AdaptiveFamily::Luna,
    AdaptiveFamily::Terra,
    AdaptiveFamily::Sol,
    AdaptiveFamily::Astra,
];

fn r(family: AdaptiveFamily, effort: AdaptiveEffort) -> AdaptiveRoute {
    AdaptiveRoute { family, effort }
}

fn ladder() -> Vec<AdaptiveRoute> {
    vec![
        r(AdaptiveFamily::Luna, AdaptiveEffort::Low),
        r(AdaptiveFamily::Luna, AdaptiveEffort::Medium),
        r(AdaptiveFamily::Luna, AdaptiveEffort::High),
        r(AdaptiveFamily::Terra, AdaptiveEffort::Low),
        r(AdaptiveFamily::Terra, AdaptiveEffort::Medium),
        r(AdaptiveFamily::Terra, AdaptiveEffort::High),
        r(AdaptiveFamily::Sol, AdaptiveEffort::Low),
        r(AdaptiveFamily::Sol, AdaptiveEffort::Medium),
        r(AdaptiveFamily::Sol, AdaptiveEffort::High),
        r(AdaptiveFamily::Astra, AdaptiveEffort::Low),
        r(AdaptiveFamily::Astra, AdaptiveEffort::Medium),
        r(AdaptiveFamily::Astra, AdaptiveEffort::High),
        r(AdaptiveFamily::Astra, AdaptiveEffort::XHigh),
        r(AdaptiveFamily::Astra, AdaptiveEffort::Max),
    ]
}

#[test]
fn every_preference_starts_at_luna_low() {
    for family in FAMILIES {
        assert_eq!(initial_route(family), r(AdaptiveFamily::Luna, AdaptiveEffort::Low));
    }
}

#[test]
fn non_ladder_routes_fail_closed() {
    let invalid = AdaptiveRoute { family: AdaptiveFamily::Astra, effort: AdaptiveEffort::Low };
    assert_eq!(
        next_route(AdaptiveFamily::Luna, invalid),
        AdaptiveTransition::EscalateEffort(r(AdaptiveFamily::Astra, AdaptiveEffort::Medium))
    );
}

#[test]
fn no_transition_decreases_family_or_same_family_effort() {
    let ladder = ladder();
    for (current_route, expected_route) in ladder.iter().zip(ladder.iter().skip(1)) {
        match next_route(AdaptiveFamily::Luna, *current_route) {
            AdaptiveTransition::EscalateEffort(next)
            | AdaptiveTransition::EscalateModel(next) => {
                assert_eq!(next, *expected_route);
            }
            transition => panic!("expected a route transition, got {transition:?}"),
        }
    }
}

#[test]
fn repeated_calls_are_deterministic() {
    let sol_high = r(AdaptiveFamily::Sol, AdaptiveEffort::High);
    assert_eq!(
        next_route(AdaptiveFamily::Astra, sol_high),
        next_route(AdaptiveFamily::Astra, sol_high)
    );
}

#[test]
fn ladder_crosses_families_only_after_high_and_ends_blocked_after_astra_max() {
    let ladder = ladder();
    for preference in FAMILIES {
        for pair in ladder.windows(2) {
            let expected = if pair[0].family == pair[1].family {
                AdaptiveTransition::EscalateEffort(pair[1])
            } else {
                AdaptiveTransition::EscalateModel(pair[1])
            };
            assert_eq!(next_route(preference, pair[0]), expected);
        }
        assert_eq!(
            next_route(preference, r(AdaptiveFamily::Astra, AdaptiveEffort::Max)),
            AdaptiveTransition::Blocked
        );
    }
}

#[test]
fn off_ladder_efforts_are_invalid() {
    for family in [AdaptiveFamily::Luna, AdaptiveFamily::Terra, AdaptiveFamily::Sol] {
        for effort in [AdaptiveEffort::XHigh, AdaptiveEffort::Max] {
            assert_eq!(
                next_route(AdaptiveFamily::Astra, r(family, effort)),
                AdaptiveTransition::InvalidState
            );
        }
    }
}

#[test]
fn route_builds_the_route() {
    assert_eq!(
        route(AdaptiveFamily::Sol, AdaptiveEffort::Medium),
        r(AdaptiveFamily::Sol, AdaptiveEffort::Medium)
    );
}

#[test]
fn typed_failure_taxonomy_maps_to_safe_decisions() {
    let cases = [
        (AdaptiveFailureKind::Capability, AdaptiveClassification::EscalationEligible),
        (AdaptiveFailureKind::TransientInfrastructure, AdaptiveClassification::RetrySameLevel),
        (AdaptiveFailureKind::Authentication, AdaptiveClassification::Blocked),
        (AdaptiveFailureKind::Quota, AdaptiveClassification::Blocked),
        (AdaptiveFailureKind::Environment, AdaptiveClassification::Blocked),
        (AdaptiveFailureKind::Permission, AdaptiveClassification::Blocked),
        (AdaptiveFailureKind::Dependency, AdaptiveClassification::Blocked),
        (AdaptiveFailureKind::ModelUnavailable, AdaptiveClassification::Blocked),
        (AdaptiveFailureKind::OwnerDecision, AdaptiveClassification::Blocked),
        (AdaptiveFailureKind::AuthorizationOrScope, AdaptiveClassification::Blocked),
        (AdaptiveFailureKind::Unknown, AdaptiveClassification::Blocked),
        (AdaptiveFailureKind::UserInterrupted, AdaptiveClassification::UserInterrupted),
        (AdaptiveFailureKind::ReadyForOwnerQa, AdaptiveClassification::PassToOwnerQa),
    ];
    for (failure, expected) in cases {
        assert_eq!(classify_outcome(AdaptiveOutcomeSignal::Failure(failure)), expected);
    }
}

#[test]
fn only_explicit_typed_signals_authorize_capability_or_owner_qa() {
    assert_eq!(classify_outcome(AdaptiveOutcomeSignal::Failed), AdaptiveClassification::Blocked);
    assert_eq!(
        classify_outcome(AdaptiveOutcomeSignal::Completed),
        AdaptiveClassification::NoDecision
    );
    assert_eq!(
        classify_outcome(AdaptiveOutcomeSignal::Failure(AdaptiveFailureKind::Capability)),
        AdaptiveClassification::EscalationEligible
    );
    assert_eq!(
        classify_outcome(AdaptiveOutcomeSignal::ReadyForOwnerQa),
        AdaptiveClassification::PassToOwnerQa
    );
}

#[test]
fn classification_is_deterministic_side_effect_free_and_does_not_mutate_attempt_number() {
    let signal = AdaptiveOutcomeSignal::Failure(AdaptiveFailureKind::Capability);
    let attempt_number = 7;
    assert_eq!(classify_outcome(signal), classify_outcome(signal));
    assert_eq!(attempt_number, 7);
}

#[test]
fn user_interruption_outcome_is_user_interrupted() {
    assert_eq!(
        classify_outcome(AdaptiveOutcomeSignal::UserInterrupted),
        AdaptiveClassification::UserInterrupted
    );
}

// The policy module's own version of this test ends the ladder at Astra High,
// as its ladder table does. The controller tests and the 0.3.2 guide continue
// past it to Astra XHigh and Max before blocking, and the library follows
// them, so those two steps are written out here.
#[test]
fn automatic_ladder_is_exact_for_every_preference() {
    let transitions = [
        (r(AdaptiveFamily::Luna, AdaptiveEffort::Low), AdaptiveTransition::EscalateEffort(r(AdaptiveFamily::Luna, AdaptiveEffort::Medium))),
        (r(AdaptiveFamily::Luna, AdaptiveEffort::Medium), AdaptiveTransition::EscalateEffort(r(AdaptiveFamily::Luna, AdaptiveEffort::High))),
        (r(AdaptiveFamily::Luna, AdaptiveEffort::High), AdaptiveTransition::EscalateModel(r(AdaptiveFamily::Terra, AdaptiveEffort::Low))),
        (r(AdaptiveFamily::Terra, AdaptiveEffort::Low), AdaptiveTransition::EscalateEffort(r(AdaptiveFamily::Terra, AdaptiveEffort::Medium))),
        (r(AdaptiveFamily::Terra, AdaptiveEffort::Medium), AdaptiveTransition::EscalateEffort(r(AdaptiveFamily::Terra, AdaptiveEffort::High))),
        (r(AdaptiveFamily::Terra, AdaptiveEffort::High), AdaptiveTransition::EscalateModel(r(AdaptiveFamily::Sol, AdaptiveEffort::Low))),
        (r(AdaptiveFamily::Sol, AdaptiveEffort::Low), AdaptiveTransition::EscalateEffort(r(AdaptiveFamily::Sol, AdaptiveEffort::Medium))),
        (r(AdaptiveFamily::Sol, AdaptiveEffort::Medium), AdaptiveTransition::EscalateEffort(r(AdaptiveFamily::Sol, AdaptiveEffort::High))),
        (r(AdaptiveFamily::Sol, AdaptiveEffort::High), AdaptiveTransition::EscalateModel(r(AdaptiveFamily::Astra, AdaptiveEffort::Low))),
        (r(AdaptiveFamily::Astra, AdaptiveEffort::Low), AdaptiveTransition::EscalateEffort(r(AdaptiveFamily::Astra, AdaptiveEffort::Medium))),
        (r(AdaptiveFamily::Astra, AdaptiveEffort::Medium), AdaptiveTransition::EscalateEffort(r(AdaptiveFamily::Astra, AdaptiveEffort::High))),
        (r(AdaptiveFamily::Astra, AdaptiveEffort::High), AdaptiveTransition::EscalateEffort(r(AdaptiveFamily::Astra, AdaptiveEffort::XHigh))),
        (r(AdaptiveFamily::Astra, AdaptiveEffort::XHigh), AdaptiveTransition::EscalateEffort(r(AdaptiveFamily::Astra, AdaptiveEffort::Max))),
        (r(AdaptiveFamily::Astra, AdaptiveEffort::Max), AdaptiveTransition::Blocked),
    ];
    for preference in FAMILIES {
        for (current_route, expected) in transitions {
            assert_eq!(next_route(preference, current_route), expected);
        }
    }
}
