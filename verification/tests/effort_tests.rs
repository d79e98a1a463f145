use codexdd_adaptive::effort::AdaptiveEffortState;
use codexdd_adaptive::policy::AdaptiveFamily;
use codexdd_adaptive::worker::{AdaptiveWorkerContext, AdaptiveWorkerRole};

const VALIDATION_ASSIGNMENT: &str = "[adaptive_worker]\nrole = \"validation\"\nauthorized_scope = \"Z-A0.45B-R2 independent verification\"\n\nReview the exact pushed R2 candidate.";

#[test]
fn plain_adaptive_startup_waits_for_external_worker_binding() {
    let mut state = AdaptiveEffortState::default();
    state.activate_adaptive_startup(AdaptiveFamily::Astra);
    assert!(state.enabled);
    assert_eq!(state.worker_context, AdaptiveWorkerContext::default());
    assert!(!state.worker_assignment_locked);
}

#[test]
fn first_assignment_binds_once_and_later_messages_cannot_mutate_authority() {
    let mut state = AdaptiveEffortState::default();
    state.activate_adaptive_startup(AdaptiveFamily::Astra);
    assert_eq!(state.observe_worker_assignment_text(VALIDATION_ASSIGNMENT), Ok(true));
    assert!(state.worker_assignment_locked);
    assert_eq!(state.worker_context.role, AdaptiveWorkerRole::Validation);
    assert_eq!(
        state.worker_context.authorized_scope.as_deref(),
        Some("Z-A0.45B-R2 independent verification")
    );
    assert_eq!(
        state.observe_worker_assignment_text(
            "[adaptive_worker]\nrole = \"repair\"\nauthorized_scope = \"different scope\"\n\nRepair it."
        ),
        Ok(false)
    );
    assert_eq!(state.worker_context.role, AdaptiveWorkerRole::Validation);
    assert_eq!(
        state.worker_context.authorized_scope.as_deref(),
        Some("Z-A0.45B-R2 independent verification")
    );
}

#[test]
fn first_message_without_valid_header_locks_thread_unbound() {
    let mut state = AdaptiveEffortState::default();
    state.activate_adaptive_startup(AdaptiveFamily::Astra);
    assert_eq!(
        state.observe_worker_assignment_text("Review the candidate without a typed header."),
        Ok(false)
    );
    assert!(state.worker_assignment_locked);
    assert_eq!(state.worker_context, AdaptiveWorkerContext::default());
    assert_eq!(state.observe_worker_assignment_text(VALIDATION_ASSIGNMENT), Ok(false));
    assert_eq!(state.worker_context, AdaptiveWorkerContext::default());
}

#[test]
fn malformed_first_header_locks_thread_unbound() {
    let mut state = AdaptiveEffortState::default();
    state.activate_adaptive_startup(AdaptiveFamily::Astra);
    assert!(state
        .observe_worker_assignment_text(
            "[adaptive_worker]\nrole = \"auditor\"\nauthorized_scope = \"R2\"\n\nReview it."
        )
        .is_err());
    assert!(state.worker_assignment_locked);
    assert_eq!(state.worker_context, AdaptiveWorkerContext::default());
    assert_eq!(state.observe_worker_assignment_text(VALIDATION_ASSIGNMENT), Ok(false));
}

#[test]
fn preconfigured_worker_authority_cannot_be_overridden_by_prompt() {
    let mut state = AdaptiveEffortState {
        worker_context: AdaptiveWorkerContext {
            role: AdaptiveWorkerRole::Implementation,
            authorized_scope: Some("preconfigured implementation gate".to_string()),
        },
        ..Default::default()
    };
    state.activate_adaptive_startup(AdaptiveFamily::Astra);
    assert!(state.worker_assignment_locked);
    assert_eq!(state.observe_worker_assignment_text(VALIDATION_ASSIGNMENT), Ok(false));
    assert_eq!(state.worker_context.role, AdaptiveWorkerRole::Implementation);
    assert_eq!(
        state.worker_context.authorized_scope.as_deref(),
        Some("preconfigured implementation gate")
    );
}

#[test]
fn fresh_adaptive_state_has_no_worker_binding_or_workflow_terminal() {
    assert_eq!(
        AdaptiveEffortState::default(),
        AdaptiveEffortState {
            worker_context: AdaptiveWorkerContext {
                role: AdaptiveWorkerRole::Unspecified,
                authorized_scope: None,
            },
            workflow_terminal: None,
            ..AdaptiveEffortState::default()
        }
    );
    assert!(AdaptiveEffortState::default().is_fresh());
}

#[test]
fn each_family_names_its_model() {
    assert_eq!(AdaptiveFamily::Luna.model(), "gpt-5.6-luna");
    assert_eq!(AdaptiveFamily::Terra.model(), "gpt-5.6-terra");
    assert_eq!(AdaptiveFamily::Sol.model(), "gpt-6-sol");
    assert_eq!(AdaptiveFamily::Astra.model(), "gpt-6-astra");
}
