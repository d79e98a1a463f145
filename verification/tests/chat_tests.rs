use codexdd_adaptive::thread_text::thread_id_string;
use codexdd_adaptive::admission::{
    AdaptiveAdmissionRejectedReason, AdaptiveAdmissionResult, AdaptiveAdmissionSuppressedReason,
    AdaptiveAdmissionWaitingReason,
};
use codexdd_adaptive::chat::{AppEvent, ChatWidget, TurnLifecycle};
use codexdd_adaptive::effort::{
    AdaptiveEffortState, AdaptivePendingAttempt, AdaptivePendingDecision, AdaptivePendingSignal,
    AdaptiveRuntimeSignalEnvelope, AdaptiveRuntimeSignalKind, AdaptiveSuccessorAdmission,
    ReasoningEffort, reasoning_effort,
};
use codexdd_adaptive::evidence::{
    AdaptiveEvidenceKind, AdaptiveEvidenceOutcome, AdaptiveEvidenceRecord,
    AUTO_FAILURE_PRESSURE_DIAGNOSTIC, CommandExecutionStatus, ItemCompletedNotification, ThreadId,
    ThreadItem, UserInput,
};
use codexdd_adaptive::policy::{
    AdaptiveEffort, AdaptiveFailureKind, AdaptiveFamily, AdaptiveOutcomeSignal, AdaptiveRoute,
};
use codexdd_adaptive::transport::AdaptiveRuntimeSignalNotification;
use codexdd_adaptive::worker::{AdaptiveWorkerContext, AdaptiveWorkerRole, AdaptiveWorkflowTerminal};

fn new_chat() -> ChatWidget {
    ChatWidget {
        thread_id: None,
        turn_lifecycle: TurnLifecycle { agent_turn_running: false, last_turn_id: None },
        adaptive_effort: AdaptiveEffortState::default(),
        current_model: "gpt-5.6-luna".to_string(),
        effective_reasoning_effort: Some(ReasoningEffort::Low),
        task_running: false,
        user_turn_pending_or_running: false,
        queued_follow_up_messages: false,
        codexdd_identity: "codexdd 0.3.2".to_string(),
        events: Vec::new(),
    }
}

fn admission_route(family: AdaptiveFamily, effort: AdaptiveEffort) -> AdaptiveRoute {
    AdaptiveRoute { family, effort }
}

fn configure_admission(chat: &mut ChatWidget, decision: AdaptivePendingDecision, route: AdaptiveRoute) {
    let thread_id = chat.thread_id.expect("thread configured");
    chat.adaptive_effort.enabled = true;
    chat.adaptive_effort.starting_family = Some(route.family);
    chat.adaptive_effort.current_family = Some(route.family);
    chat.adaptive_effort.current_effort = Some(route.effort);
    chat.adaptive_effort.attempt_number = 2;
    chat.adaptive_effort.worker_context = AdaptiveWorkerContext {
        role: AdaptiveWorkerRole::Implementation,
        authorized_scope: Some("slice-7d-a".to_string()),
    };
    chat.adaptive_effort.last_processed_terminal_turn_id = Some("source-turn".to_string());
    chat.adaptive_effort.pending_attempt = Some(AdaptivePendingAttempt {
        thread_id,
        source_turn_id: "source-turn".to_string(),
        decision,
        route,
        attempt_number: 2,
        worker_context: chat.adaptive_effort.worker_context.clone(),
    });
    chat.turn_lifecycle.last_turn_id = Some("source-turn".to_string());
}

fn synchronize_admission_route(chat: &mut ChatWidget, route: AdaptiveRoute) {
    chat.current_model = route.family.model().to_string();
    chat.effective_reasoning_effort = Some(reasoning_effort(route.effort));
}

fn submitted(chat: &ChatWidget) -> Vec<String> {
    chat.events
        .iter()
        .filter_map(|e| match e {
            AppEvent::SubmitUserMessage(text) => Some(text.clone()),
            _ => None,
        })
        .collect()
}

fn bound_chat(thread_id: ThreadId, turn_id: &str) -> ChatWidget {
    let mut chat = new_chat();
    chat.thread_id = Some(thread_id);
    chat.dispatch_adaptive_command("astra");
    chat.adaptive_effort.worker_context.role = AdaptiveWorkerRole::Implementation;
    chat.adaptive_effort.worker_context.authorized_scope = Some("bounded repair".to_string());
    chat.turn_lifecycle.agent_turn_running = true;
    chat.turn_lifecycle.last_turn_id = Some(turn_id.to_string());
    chat
}

fn signal(
    thread_id: ThreadId,
    turn_id: &str,
    kind: AdaptiveRuntimeSignalKind,
    refs: &[&str],
    note: Option<&str>,
) -> AdaptiveRuntimeSignalNotification {
    AdaptiveRuntimeSignalNotification {
        thread_id: Some(thread_id),
        signal: AdaptiveRuntimeSignalEnvelope {
            source_turn_id: turn_id.to_string(),
            signal_kind: kind,
            evidence_refs: refs.iter().map(|r| r.to_string()).collect(),
            diagnostic_note: note.map(str::to_string),
        },
    }
}

fn command_evidence(
    thread_id: ThreadId,
    turn_id: &str,
    item_id: &str,
    status: CommandExecutionStatus,
) -> ItemCompletedNotification {
    ItemCompletedNotification {
        item: ThreadItem::CommandExecution { id: item_id.to_string(), status },
        thread_id: thread_id_string(thread_id),
        turn_id: turn_id.to_string(),
        completed_at_ms: 1,
    }
}

#[test]
fn adaptive_successor_submits_each_authorized_decision_once() {
    for (decision, route, name) in [
        (
            AdaptivePendingDecision::RetrySameLevel,
            admission_route(AdaptiveFamily::Terra, AdaptiveEffort::Low),
            "RetrySameLevel",
        ),
        (
            AdaptivePendingDecision::EscalateEffort,
            admission_route(AdaptiveFamily::Terra, AdaptiveEffort::Medium),
            "EscalateEffort",
        ),
        (
            AdaptivePendingDecision::EscalateModel,
            admission_route(AdaptiveFamily::Sol, AdaptiveEffort::Low),
            "EscalateModel",
        ),
    ] {
        let mut chat = new_chat();
        chat.thread_id = Some(ThreadId { raw: 1 });
        configure_admission(&mut chat, decision, route);
        synchronize_admission_route(&mut chat, route);

        assert!(chat.maybe_submit_adaptive_successor());
        let texts = submitted(&chat);
        assert_eq!(texts.len(), 1);
        let text = &texts[0];
        assert!(text.starts_with("[Adaptive continuation]"));
        assert!(text.contains("Attempt 2"));
        assert!(text.contains(name));
        assert!(text.contains(route.family.model()));
        assert!(!text.contains("original root prompt"));
        assert!(matches!(
            chat.adaptive_effort.successor_admission,
            Some(AdaptiveSuccessorAdmission::Consumed(_))
        ));
        assert_eq!(chat.adaptive_effort.pending_attempt, None);
        assert!(!chat.maybe_submit_adaptive_successor());
        assert_eq!(submitted(&chat).len(), 1);
    }
}

#[test]
fn continuation_text_names_attempt_route_and_decision() {
    let mut chat = new_chat();
    chat.thread_id = Some(ThreadId { raw: 2 });
    let route = admission_route(AdaptiveFamily::Astra, AdaptiveEffort::XHigh);
    configure_admission(&mut chat, AdaptivePendingDecision::EscalateEffort, route);
    synchronize_admission_route(&mut chat, route);
    assert!(chat.maybe_submit_adaptive_successor());
    assert_eq!(
        submitted(&chat),
        vec!["[Adaptive continuation] Continue the current assigned Worker task from the existing thread state. Attempt 2 is authorized at gpt-6-astra XHigh using EscalateEffort. Preserve the existing task, scope, worktree, evidence, and acceptance criteria. Continue from current progress; do not restart or broaden the task.".to_string()]
    );
}

#[test]
fn adaptive_successor_yields_to_manual_input_and_stale_route() {
    let route = admission_route(AdaptiveFamily::Terra, AdaptiveEffort::Medium);
    let mut chat = new_chat();
    chat.thread_id = Some(ThreadId { raw: 3 });
    configure_admission(&mut chat, AdaptivePendingDecision::EscalateEffort, route);
    synchronize_admission_route(&mut chat, route);
    chat.queued_follow_up_messages = true;
    assert!(matches!(
        chat.reserve_adaptive_successor_admission("source-turn"),
        AdaptiveAdmissionResult::Authorized(_)
    ));
    assert!(!chat.maybe_submit_adaptive_successor());
    assert_eq!(chat.adaptive_effort.successor_admission, None);
    assert_eq!(chat.adaptive_effort.pending_attempt, None);
    assert!(submitted(&chat).is_empty());

    let mut chat = new_chat();
    chat.thread_id = Some(ThreadId { raw: 4 });
    configure_admission(&mut chat, AdaptivePendingDecision::EscalateEffort, route);
    synchronize_admission_route(&mut chat, route);
    assert!(matches!(
        chat.reserve_adaptive_successor_admission("source-turn"),
        AdaptiveAdmissionResult::Authorized(_)
    ));
    synchronize_admission_route(&mut chat, admission_route(AdaptiveFamily::Terra, AdaptiveEffort::High));
    assert!(!chat.maybe_submit_adaptive_successor());
    assert_eq!(chat.adaptive_effort.successor_admission, None);
    assert_eq!(chat.adaptive_effort.pending_attempt, None);
    assert!(submitted(&chat).is_empty());
}

#[test]
fn admission_reserves_each_controller_authorized_decision_once() {
    for (decision, route) in [
        (AdaptivePendingDecision::RetrySameLevel, admission_route(AdaptiveFamily::Terra, AdaptiveEffort::Low)),
        (AdaptivePendingDecision::EscalateEffort, admission_route(AdaptiveFamily::Terra, AdaptiveEffort::Medium)),
        (AdaptivePendingDecision::EscalateModel, admission_route(AdaptiveFamily::Sol, AdaptiveEffort::Low)),
    ] {
        let mut chat = new_chat();
        chat.thread_id = Some(ThreadId { raw: 5 });
        configure_admission(&mut chat, decision, route);
        synchronize_admission_route(&mut chat, route);
        let permit = match chat.reserve_adaptive_successor_admission("source-turn") {
            AdaptiveAdmissionResult::Authorized(permit) => permit,
            result => panic!("expected authorized admission, got {result:?}"),
        };
        assert_eq!(permit.decision, decision);
        assert_eq!(permit.route, route);
        assert_eq!(permit.attempt_number, 2);
        assert!(matches!(
            chat.adaptive_effort.successor_admission,
            Some(AdaptiveSuccessorAdmission::Reserved(ref reserved)) if reserved == &permit
        ));
        assert_eq!(
            chat.reserve_adaptive_successor_admission("source-turn"),
            AdaptiveAdmissionResult::Suppressed(AdaptiveAdmissionSuppressedReason::AlreadyReserved)
        );
        assert_eq!(chat.adaptive_effort.attempt_number, 2);
        assert!(submitted(&chat).is_empty());
    }
}

#[test]
fn admission_waits_for_effective_route_and_consumed_permit_cannot_replay() {
    let mut chat = new_chat();
    chat.thread_id = Some(ThreadId { raw: 6 });
    let route = admission_route(AdaptiveFamily::Terra, AdaptiveEffort::Medium);
    configure_admission(&mut chat, AdaptivePendingDecision::EscalateEffort, route);
    assert_eq!(
        chat.reserve_adaptive_successor_admission("source-turn"),
        AdaptiveAdmissionResult::Waiting(AdaptiveAdmissionWaitingReason::EffectiveRouteSynchronization)
    );
    assert_eq!(chat.adaptive_effort.successor_admission, None);

    synchronize_admission_route(&mut chat, route);
    let permit = match chat.reserve_adaptive_successor_admission("source-turn") {
        AdaptiveAdmissionResult::Authorized(permit) => permit,
        result => panic!("expected authorized admission, got {result:?}"),
    };
    assert!(chat.consume_adaptive_successor_admission(&permit));
    assert!(!chat.consume_adaptive_successor_admission(&permit));
    assert_eq!(
        chat.reserve_adaptive_successor_admission("source-turn"),
        AdaptiveAdmissionResult::Suppressed(AdaptiveAdmissionSuppressedReason::AlreadyConsumed)
    );
    assert_eq!(chat.adaptive_effort.attempt_number, 2);
    assert!(submitted(&chat).is_empty());
}

#[test]
fn admission_suppresses_hard_terminals_and_user_controls() {
    for terminal in [
        AdaptiveWorkflowTerminal::ReadyForValidation,
        AdaptiveWorkflowTerminal::RepairRequired,
        AdaptiveWorkflowTerminal::ReadyForOwnerQa,
        AdaptiveWorkflowTerminal::Blocked,
    ] {
        let mut chat = new_chat();
        chat.thread_id = Some(ThreadId { raw: 7 });
        let route = admission_route(AdaptiveFamily::Terra, AdaptiveEffort::Low);
        configure_admission(&mut chat, AdaptivePendingDecision::RetrySameLevel, route);
        synchronize_admission_route(&mut chat, route);
        chat.adaptive_effort.workflow_terminal = Some(terminal);
        chat.adaptive_effort.worker_context.role = AdaptiveWorkerRole::Validation;
        assert_eq!(
            chat.reserve_adaptive_successor_admission("source-turn"),
            AdaptiveAdmissionResult::Suppressed(AdaptiveAdmissionSuppressedReason::WorkflowTerminal)
        );
        assert_eq!(chat.adaptive_effort.successor_admission, None);
        assert_eq!(chat.adaptive_effort.attempt_number, 2);
    }

    for control in ["off", "pause"] {
        let mut chat = new_chat();
        chat.thread_id = Some(ThreadId { raw: 8 });
        let route = admission_route(AdaptiveFamily::Terra, AdaptiveEffort::Low);
        configure_admission(&mut chat, AdaptivePendingDecision::RetrySameLevel, route);
        synchronize_admission_route(&mut chat, route);
        chat.dispatch_adaptive_command(control);
        assert!(matches!(
            chat.reserve_adaptive_successor_admission("source-turn"),
            AdaptiveAdmissionResult::Suppressed(
                AdaptiveAdmissionSuppressedReason::AdaptiveDisabled
                    | AdaptiveAdmissionSuppressedReason::PausedByUser
            )
        ));
        assert_eq!(chat.adaptive_effort.successor_admission, None);
        assert!(submitted(&chat).is_empty());
    }

    let mut chat = new_chat();
    chat.thread_id = Some(ThreadId { raw: 9 });
    let route = admission_route(AdaptiveFamily::Terra, AdaptiveEffort::Low);
    configure_admission(&mut chat, AdaptivePendingDecision::RetrySameLevel, route);
    synchronize_admission_route(&mut chat, route);
    chat.turn_lifecycle.agent_turn_running = true;
    assert_eq!(
        chat.reserve_adaptive_successor_admission("source-turn"),
        AdaptiveAdmissionResult::Suppressed(AdaptiveAdmissionSuppressedReason::ThreadLifecycle)
    );
}

#[test]
fn admission_rejects_stale_identity_and_worker_bindings() {
    let route = admission_route(AdaptiveFamily::Terra, AdaptiveEffort::Low);
    for case in ["source", "thread", "attempt", "route", "role", "scope", "missing"] {
        let mut chat = new_chat();
        chat.thread_id = Some(ThreadId { raw: 10 });
        configure_admission(&mut chat, AdaptivePendingDecision::RetrySameLevel, route);
        synchronize_admission_route(&mut chat, route);
        let expected = match case {
            "source" => {
                chat.turn_lifecycle.last_turn_id = Some("other-turn".to_string());
                AdaptiveAdmissionRejectedReason::SourceTurnMismatch
            }
            "thread" => {
                chat.thread_id = Some(ThreadId { raw: 11 });
                AdaptiveAdmissionRejectedReason::ThreadMismatch
            }
            "attempt" => {
                chat.adaptive_effort.attempt_number = 3;
                AdaptiveAdmissionRejectedReason::AttemptMismatch
            }
            "route" => {
                chat.adaptive_effort.current_effort = Some(AdaptiveEffort::Medium);
                AdaptiveAdmissionRejectedReason::RouteMismatch
            }
            "role" => {
                chat.adaptive_effort.worker_context.role = AdaptiveWorkerRole::Repair;
                AdaptiveAdmissionRejectedReason::WorkerContextMismatch
            }
            "scope" => {
                chat.adaptive_effort.worker_context.authorized_scope = Some("other".to_string());
                AdaptiveAdmissionRejectedReason::WorkerContextMismatch
            }
            "missing" => {
                chat.adaptive_effort.pending_attempt = None;
                AdaptiveAdmissionRejectedReason::MissingPendingAttempt
            }
            _ => unreachable!(),
        };
        assert_eq!(
            chat.reserve_adaptive_successor_admission("source-turn"),
            AdaptiveAdmissionResult::Rejected(expected),
            "{case}"
        );
        assert_eq!(chat.adaptive_effort.successor_admission, None);
    }
}

#[test]
fn admission_reservations_are_invalidated_by_user_interrupt_and_new_controller_result() {
    let mut chat = new_chat();
    chat.thread_id = Some(ThreadId { raw: 12 });
    let route = admission_route(AdaptiveFamily::Terra, AdaptiveEffort::Low);
    configure_admission(&mut chat, AdaptivePendingDecision::RetrySameLevel, route);
    synchronize_admission_route(&mut chat, route);
    assert!(matches!(
        chat.reserve_adaptive_successor_admission("source-turn"),
        AdaptiveAdmissionResult::Authorized(_)
    ));
    chat.on_adaptive_user_interrupt();
    assert_eq!(chat.adaptive_effort.successor_admission, None);

    chat.adaptive_effort.paused_by_user = false;
    configure_admission(&mut chat, AdaptivePendingDecision::RetrySameLevel, route);
    assert!(matches!(
        chat.reserve_adaptive_successor_admission("source-turn"),
        AdaptiveAdmissionResult::Authorized(_)
    ));
    chat.apply_adaptive_terminal_signal("new-controller-turn", AdaptiveOutcomeSignal::Failed);
    assert_eq!(chat.adaptive_effort.successor_admission, None);
    assert!(submitted(&chat).is_empty());
}

#[test]
fn capability_signal_requires_nonblank_diagnostic_report() {
    let thread_id = ThreadId { raw: 20 };
    let turn_id = "capability-without-report";
    let mut chat = bound_chat(thread_id, turn_id);
    chat.handle_adaptive_runtime_signal(signal(
        thread_id,
        turn_id,
        AdaptiveRuntimeSignalKind::Capability,
        &[],
        Some("   "),
    ));
    chat.turn_lifecycle.agent_turn_running = false;
    assert!(!chat.consume_adaptive_signal_at_terminal(turn_id));
    assert_eq!(chat.adaptive_effort.current_family, Some(AdaptiveFamily::Luna));
    assert_eq!(chat.adaptive_effort.current_effort, Some(AdaptiveEffort::Low));
    assert_eq!(chat.adaptive_effort.attempt_number, 1);
    assert!(matches!(
        chat.adaptive_effort.pending_signal,
        Some(AdaptivePendingSignal::Cancelled { .. })
    ));
}

#[test]
fn diagnostic_capability_signal_can_cross_model_family_boundary() {
    let thread_id = ThreadId { raw: 21 };
    let turn_id = "luna-high-capability-report";
    let mut chat = bound_chat(thread_id, turn_id);
    chat.adaptive_effort.current_family = Some(AdaptiveFamily::Luna);
    chat.adaptive_effort.current_effort = Some(AdaptiveEffort::High);
    chat.adaptive_effort.attempt_number = 5;
    chat.handle_adaptive_runtime_signal(signal(
        thread_id,
        turn_id,
        AdaptiveRuntimeSignalKind::Capability,
        &[],
        Some("Current model repeatedly failed the bounded implementation step."),
    ));
    chat.turn_lifecycle.agent_turn_running = false;
    assert!(chat.consume_adaptive_signal_at_terminal(turn_id));
    assert_eq!(chat.adaptive_effort.current_family, Some(AdaptiveFamily::Terra));
    assert_eq!(chat.adaptive_effort.current_effort, Some(AdaptiveEffort::Low));
    assert_eq!(chat.adaptive_effort.attempt_number, 6);
    assert_eq!(chat.adaptive_effort.last_failure_kind, Some(AdaptiveFailureKind::Capability));
    assert!(chat.events.iter().any(|e| matches!(
        e,
        AppEvent::InfoMessage(m) if m == "Adaptive model escalation report\n  From: gpt-5.6-luna High\n  To: gpt-5.6-terra Low\n  Why: Current model repeatedly failed the bounded implementation step."
    )));
    assert!(chat.events.iter().any(|e| matches!(e, AppEvent::UpdateModel(m) if m == "gpt-5.6-terra")));
}

#[test]
fn native_failure_pressure_still_escalates_effort_inside_one_family() {
    let thread_id = ThreadId { raw: 22 };
    let turn_id = "luna-low-native-pressure";
    let mut chat = bound_chat(thread_id, turn_id);
    for id in ["same-family-failure-1", "same-family-failure-2"] {
        chat.register_adaptive_evidence(&command_evidence(thread_id, turn_id, id, CommandExecutionStatus::Failed));
    }
    chat.turn_lifecycle.agent_turn_running = false;
    assert!(chat.consume_adaptive_signal_at_terminal(turn_id));
    assert_eq!(chat.adaptive_effort.current_family, Some(AdaptiveFamily::Luna));
    assert_eq!(chat.adaptive_effort.current_effort, Some(AdaptiveEffort::Medium));
    assert_eq!(chat.adaptive_effort.attempt_number, 2);
    assert_eq!(chat.adaptive_effort.last_failure_kind, Some(AdaptiveFailureKind::Capability));
}

#[test]
fn native_failure_pressure_cannot_cross_model_family_boundary_without_report() {
    let thread_id = ThreadId { raw: 23 };
    let turn_id = "luna-high-native-pressure";
    let mut chat = bound_chat(thread_id, turn_id);
    chat.adaptive_effort.current_family = Some(AdaptiveFamily::Luna);
    chat.adaptive_effort.current_effort = Some(AdaptiveEffort::High);
    chat.adaptive_effort.attempt_number = 5;
    for id in ["boundary-failure-1", "boundary-failure-2"] {
        chat.register_adaptive_evidence(&command_evidence(thread_id, turn_id, id, CommandExecutionStatus::Failed));
    }
    chat.turn_lifecycle.agent_turn_running = false;
    assert!(chat.consume_adaptive_signal_at_terminal(turn_id));
    assert_eq!(chat.adaptive_effort.current_family, Some(AdaptiveFamily::Luna));
    assert_eq!(chat.adaptive_effort.current_effort, Some(AdaptiveEffort::High));
    assert_eq!(chat.adaptive_effort.attempt_number, 5);
    assert_eq!(chat.adaptive_effort.last_processed_terminal_turn_id.as_deref(), Some(turn_id));
    assert_eq!(chat.adaptive_effort.pending_attempt, None);
    assert_eq!(chat.adaptive_effort.successor_admission, None);
    assert_eq!(chat.adaptive_effort.last_failure_kind, None);
    assert!(!chat.maybe_submit_adaptive_successor());
    assert!(chat.events.iter().any(|e| matches!(
        e,
        AppEvent::InfoMessage(m) if m.starts_with("Adaptive model escalation withheld\n  From: gpt-5.6-luna High\n  Proposed: gpt-5.6-terra Low\n  Native failure pressure: 2/2\n")
    )));
}

#[test]
fn explicit_capability_report_supersedes_synthetic_pressure_and_crosses_boundary() {
    let thread_id = ThreadId { raw: 24 };
    let turn_id = "luna-high-pressure-then-explicit-report";
    let report = "Luna High cannot resolve the bounded implementation constraint; stronger model capability is required.";
    let mut chat = bound_chat(thread_id, turn_id);
    chat.adaptive_effort.current_family = Some(AdaptiveFamily::Luna);
    chat.adaptive_effort.current_effort = Some(AdaptiveEffort::High);
    chat.adaptive_effort.attempt_number = 5;
    for id in ["upgrade-failure-1", "upgrade-failure-2"] {
        chat.register_adaptive_evidence(&command_evidence(thread_id, turn_id, id, CommandExecutionStatus::Failed));
    }
    assert!(matches!(
        chat.adaptive_effort.pending_signal,
        Some(AdaptivePendingSignal::Pending(ref s))
            if s.diagnostic_note.as_deref() == Some(AUTO_FAILURE_PRESSURE_DIAGNOSTIC)
    ));
    chat.handle_adaptive_runtime_signal(signal(
        thread_id,
        turn_id,
        AdaptiveRuntimeSignalKind::Capability,
        &[],
        Some(report),
    ));
    assert!(matches!(
        chat.adaptive_effort.pending_signal,
        Some(AdaptivePendingSignal::Pending(ref s)) if s.diagnostic_note.as_deref() == Some(report)
    ));
    chat.turn_lifecycle.agent_turn_running = false;
    assert!(chat.consume_adaptive_signal_at_terminal(turn_id));
    assert_eq!(chat.adaptive_effort.current_family, Some(AdaptiveFamily::Terra));
    assert_eq!(chat.adaptive_effort.current_effort, Some(AdaptiveEffort::Low));
    assert_eq!(chat.adaptive_effort.attempt_number, 6);
    assert_eq!(chat.adaptive_effort.last_failure_kind, Some(AdaptiveFailureKind::Capability));
}

#[test]
fn implementation_ready_for_validation_is_hard_handoff_and_admits_no_successor() {
    let thread_id = ThreadId { raw: 25 };
    let turn_id = "implementation-ready-for-independent-validation";
    let mut chat = bound_chat(thread_id, turn_id);
    chat.adaptive_effort.worker_context.authorized_scope =
        Some("breakwater/Z-A0.46A-buildstamp-repair".to_string());
    chat.adaptive_effort.current_family = Some(AdaptiveFamily::Astra);
    chat.adaptive_effort.current_effort = Some(AdaptiveEffort::Max);
    chat.adaptive_effort.attempt_number = 28;
    chat.adaptive_effort.unfinished_turn_pressure = 1;
    chat.handle_adaptive_runtime_signal(signal(
        thread_id,
        turn_id,
        AdaptiveRuntimeSignalKind::ReadyForValidation,
        &[],
        Some("READY_FOR_VALIDATION"),
    ));
    chat.turn_lifecycle.agent_turn_running = false;
    assert!(chat.consume_adaptive_signal_at_terminal(turn_id));
    assert_eq!(chat.adaptive_effort.workflow_terminal, Some(AdaptiveWorkflowTerminal::ReadyForValidation));
    assert_eq!(chat.adaptive_effort.worker_context.role, AdaptiveWorkerRole::Implementation);
    assert_eq!(
        chat.adaptive_effort.worker_context.authorized_scope.as_deref(),
        Some("breakwater/Z-A0.46A-buildstamp-repair")
    );
    assert_eq!(chat.adaptive_effort.current_family, Some(AdaptiveFamily::Astra));
    assert_eq!(chat.adaptive_effort.current_effort, Some(AdaptiveEffort::Max));
    assert_eq!(chat.adaptive_effort.attempt_number, 28);
    assert_eq!(chat.adaptive_effort.unfinished_turn_pressure, 0);
    assert_eq!(chat.adaptive_effort.pending_attempt, None);
    assert_eq!(chat.adaptive_effort.successor_admission, None);
    assert!(!chat.maybe_submit_adaptive_successor());
}

#[test]
fn validation_owner_qa_needs_successful_native_evidence() {
    let thread_id = ThreadId { raw: 26 };
    let turn_id = "validation-turn";
    let mut chat = bound_chat(thread_id, turn_id);
    chat.adaptive_effort.worker_context.role = AdaptiveWorkerRole::Validation;
    chat.register_adaptive_evidence(&command_evidence(thread_id, turn_id, "ok-1", CommandExecutionStatus::Completed));
    chat.handle_adaptive_runtime_signal(signal(
        thread_id,
        turn_id,
        AdaptiveRuntimeSignalKind::ReadyForOwnerQa,
        &["ok-1"],
        None,
    ));
    chat.turn_lifecycle.agent_turn_running = false;
    assert!(chat.consume_adaptive_signal_at_terminal(turn_id));
    assert_eq!(chat.adaptive_effort.workflow_terminal, Some(AdaptiveWorkflowTerminal::ReadyForOwnerQa));
    assert!(chat.events.iter().any(|e| matches!(e, AppEvent::PersistWorkflowState { .. })));

    let mut wrong = bound_chat(thread_id, turn_id);
    wrong.adaptive_effort.worker_context.role = AdaptiveWorkerRole::Validation;
    wrong.register_adaptive_evidence(&command_evidence(thread_id, turn_id, "bad-1", CommandExecutionStatus::Failed));
    wrong.handle_adaptive_runtime_signal(signal(
        thread_id,
        turn_id,
        AdaptiveRuntimeSignalKind::ReadyForOwnerQa,
        &["bad-1"],
        None,
    ));
    wrong.turn_lifecycle.agent_turn_running = false;
    assert!(!wrong.consume_adaptive_signal_at_terminal(turn_id));
    assert_eq!(wrong.adaptive_effort.workflow_terminal, None);
    assert!(matches!(wrong.adaptive_effort.pending_signal, Some(AdaptivePendingSignal::Cancelled { .. })));
}

#[test]
fn first_user_message_binds_worker_authority_from_its_text_inputs() {
    let thread_id = ThreadId { raw: 27 };
    let mut chat = new_chat();
    chat.thread_id = Some(thread_id);
    chat.dispatch_adaptive_command("astra");
    let message = ItemCompletedNotification {
        item: ThreadItem::UserMessage {
            id: "user-message".to_string(),
            content: vec![
                UserInput::Text {
                    text: "[adaptive_worker]\nrole = \"validation\"\nauthorized_scope = \"R2 check\"".to_string(),
                },
                UserInput::Other,
                UserInput::Text { text: "\nCheck the candidate.".to_string() },
            ],
        },
        thread_id: thread_id_string(thread_id),
        turn_id: "turn".to_string(),
        completed_at_ms: 1,
    };
    chat.register_adaptive_evidence(&message);
    assert!(chat.adaptive_effort.worker_assignment_locked);
    assert_eq!(chat.adaptive_effort.worker_context.role, AdaptiveWorkerRole::Validation);
    assert_eq!(chat.adaptive_effort.worker_context.authorized_scope.as_deref(), Some("R2 check"));

    let mut rejected = new_chat();
    rejected.thread_id = Some(thread_id);
    rejected.dispatch_adaptive_command("astra");
    let bad = ItemCompletedNotification {
        item: ThreadItem::UserMessage {
            id: "m".to_string(),
            content: vec![UserInput::Text {
                text: "[adaptive_worker]\nrole = \"auditor\"\nauthorized_scope = \"R2\"\n\nGo.".to_string(),
            }],
        },
        ..message
    };
    rejected.register_adaptive_evidence(&bad);
    assert!(rejected.adaptive_effort.worker_assignment_locked);
    assert_eq!(rejected.adaptive_effort.worker_context, AdaptiveWorkerContext::default());
    assert!(rejected.events.iter().any(|e| matches!(
        e,
        AppEvent::ErrorMessage(m) if m.starts_with("Adaptive Worker assignment rejected: ")
            && m.ends_with(". This thread is locked unbound; start a fresh Worker thread with a valid [adaptive_worker] header.")
    )));
}

#[test]
fn foreign_thread_items_change_nothing() {
    let mut chat = bound_chat(ThreadId { raw: 28 }, "t");
    let before = chat.clone();
    chat.register_adaptive_evidence(&command_evidence(ThreadId { raw: 29 }, "t", "x", CommandExecutionStatus::Failed));
    assert_eq!(chat, before);
}

#[test]
fn evidence_receipt_is_inert_and_cannot_mutate_worker_authority() {
    let thread_id = ThreadId { raw: 30 };
    let mut chat = new_chat();
    chat.thread_id = Some(thread_id);
    chat.adaptive_effort.worker_context = AdaptiveWorkerContext {
        role: AdaptiveWorkerRole::Validation,
        authorized_scope: Some("opaque/scope".to_string()),
    };
    let before = chat.adaptive_effort.clone();
    chat.register_adaptive_evidence(&command_evidence(
        thread_id,
        "turn-1",
        "native-call-1",
        CommandExecutionStatus::Completed,
    ));
    let mut expected = before;
    expected.evidence_registry.register(AdaptiveEvidenceRecord {
        evidence_id: "native-call-1".to_string(),
        thread_id,
        source_turn_id: "turn-1".to_string(),
        outcome: AdaptiveEvidenceOutcome::Success,
        kind: AdaptiveEvidenceKind::CommandExecution,
    });
    assert_eq!(chat.adaptive_effort, expected);
    assert_eq!(chat.events, vec![AppEvent::UpdateAdaptiveEffortState(expected)]);
}
