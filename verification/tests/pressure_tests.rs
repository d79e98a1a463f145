use codexdd_adaptive::thread_text::thread_id_string;
use codexdd_adaptive::chat::{ChatWidget, TurnLifecycle};
use codexdd_adaptive::effort::{
    AdaptiveEffortState, AdaptivePendingSignal, AdaptiveRuntimeSignalEnvelope,
    AdaptiveRuntimeSignalKind, ReasoningEffort,
};
use codexdd_adaptive::evidence::{
    AUTO_FAILURE_PRESSURE_DIAGNOSTIC, CommandExecutionStatus, ItemCompletedNotification, ThreadId,
    ThreadItem,
};
use codexdd_adaptive::policy::{AdaptiveEffort, AdaptiveFamily};
use codexdd_adaptive::transport::AdaptiveRuntimeSignalNotification;
use codexdd_adaptive::worker::{AdaptiveWorkerRole, AdaptiveWorkflowTerminal};

fn command(thread_id: ThreadId, turn_id: &str, item_id: &str, status: CommandExecutionStatus) -> ItemCompletedNotification {
    ItemCompletedNotification {
        item: ThreadItem::CommandExecution { id: item_id.to_string(), status },
        thread_id: thread_id_string(thread_id),
        turn_id: turn_id.to_string(),
        completed_at_ms: 1,
    }
}

fn failed_command(thread_id: ThreadId, turn_id: &str, item_id: &str) -> ItemCompletedNotification {
    command(thread_id, turn_id, item_id, CommandExecutionStatus::Failed)
}

fn running_chat(thread_id: ThreadId, turn_id: &str, role: Option<AdaptiveWorkerRole>) -> ChatWidget {
    let mut chat = ChatWidget {
        thread_id: Some(thread_id),
        turn_lifecycle: TurnLifecycle { agent_turn_running: false, last_turn_id: None },
        adaptive_effort: AdaptiveEffortState::default(),
        current_model: "gpt-5.6-luna".to_string(),
        effective_reasoning_effort: Some(ReasoningEffort::Low),
        task_running: false,
        user_turn_pending_or_running: false,
        queued_follow_up_messages: false,
        codexdd_identity: "codexdd".to_string(),
        events: Vec::new(),
    };
    chat.dispatch_adaptive_command("astra");
    if let Some(role) = role {
        chat.adaptive_effort.worker_context.role = role;
    }
    chat.turn_lifecycle.agent_turn_running = true;
    chat.turn_lifecycle.last_turn_id = Some(turn_id.to_string());
    chat
}

fn workflow_signal(thread_id: ThreadId, turn_id: &str, kind: AdaptiveRuntimeSignalKind, refs: Vec<String>) -> AdaptiveRuntimeSignalNotification {
    AdaptiveRuntimeSignalNotification {
        thread_id: Some(thread_id),
        signal: AdaptiveRuntimeSignalEnvelope {
            source_turn_id: turn_id.to_string(),
            signal_kind: kind,
            evidence_refs: refs,
            diagnostic_note: None,
        },
    }
}

#[test]
fn two_native_failures_arm_capability_and_advance_luna_low_to_medium() {
    let thread_id = ThreadId { raw: 1 };
    let turn_id = "pressure-turn";
    let mut chat = running_chat(thread_id, turn_id, None);
    assert_eq!(chat.adaptive_effort.current_family, Some(AdaptiveFamily::Luna));
    assert_eq!(chat.adaptive_effort.current_effort, Some(AdaptiveEffort::Low));
    chat.register_adaptive_evidence(&failed_command(thread_id, turn_id, "failure-1"));
    assert!(chat.adaptive_effort.pending_signal.is_none());
    assert!(chat.adaptive_effort_status_text().contains("Failure pressure: 1/2"));
    chat.register_adaptive_evidence(&failed_command(thread_id, turn_id, "failure-2"));
    assert!(chat.adaptive_effort_status_text().contains("Failure pressure: 2/2"));
    assert!(matches!(
        chat.adaptive_effort.pending_signal,
        Some(AdaptivePendingSignal::Pending(ref signal))
            if signal.signal_kind == AdaptiveRuntimeSignalKind::Capability
                && signal.diagnostic_note.as_deref() == Some(AUTO_FAILURE_PRESSURE_DIAGNOSTIC)
    ));
    chat.turn_lifecycle.agent_turn_running = false;
    assert!(chat.consume_adaptive_signal_at_terminal(turn_id));
    assert_eq!(chat.adaptive_effort.current_family, Some(AdaptiveFamily::Luna));
    assert_eq!(chat.adaptive_effort.current_effort, Some(AdaptiveEffort::Medium));
}

#[test]
fn workflow_success_overrides_automatic_failure_pressure() {
    let thread_id = ThreadId { raw: 2 };
    let turn_id = "recovered-turn";
    let mut chat = running_chat(thread_id, turn_id, Some(AdaptiveWorkerRole::Implementation));
    chat.register_adaptive_evidence(&failed_command(thread_id, turn_id, "failure-1"));
    chat.register_adaptive_evidence(&failed_command(thread_id, turn_id, "failure-2"));
    chat.handle_adaptive_runtime_signal(workflow_signal(
        thread_id,
        turn_id,
        AdaptiveRuntimeSignalKind::ReadyForValidation,
        Vec::new(),
    ));
    assert!(matches!(
        chat.adaptive_effort.pending_signal,
        Some(AdaptivePendingSignal::Pending(ref signal))
            if signal.signal_kind == AdaptiveRuntimeSignalKind::ReadyForValidation
    ));
    chat.turn_lifecycle.agent_turn_running = false;
    assert!(chat.consume_adaptive_signal_at_terminal(turn_id));
    assert_eq!(chat.adaptive_effort.workflow_terminal, Some(AdaptiveWorkflowTerminal::ReadyForValidation));
    assert_eq!(chat.adaptive_effort.worker_context.role, AdaptiveWorkerRole::Implementation);
    assert_eq!(chat.adaptive_effort.attempt_number, 1);
    assert_eq!(chat.adaptive_effort.pending_attempt, None);
    assert_eq!(chat.adaptive_effort.successor_admission, None);
    assert_eq!(chat.adaptive_effort.current_family, Some(AdaptiveFamily::Luna));
    assert_eq!(chat.adaptive_effort.current_effort, Some(AdaptiveEffort::Low));
}

#[test]
fn validation_failure_then_success_latches_owner_qa_terminal() {
    let thread_id = ThreadId { raw: 3 };
    let validation_turn = "validation-turn";
    let mut chat = running_chat(thread_id, validation_turn, Some(AdaptiveWorkerRole::Validation));
    chat.adaptive_effort.worker_context.authorized_scope = Some("validation-scope".to_string());
    chat.register_adaptive_evidence(&failed_command(thread_id, validation_turn, "validation-failure"));
    chat.register_adaptive_evidence(&command(
        thread_id,
        validation_turn,
        "validation-success",
        CommandExecutionStatus::Completed,
    ));
    chat.handle_adaptive_runtime_signal(workflow_signal(
        thread_id,
        validation_turn,
        AdaptiveRuntimeSignalKind::ReadyForOwnerQa,
        vec!["validation-success".to_string()],
    ));
    chat.turn_lifecycle.agent_turn_running = false;
    assert!(chat.consume_adaptive_signal_at_terminal(validation_turn));
    assert_eq!(chat.adaptive_effort.workflow_terminal, Some(AdaptiveWorkflowTerminal::ReadyForOwnerQa));
    assert_eq!(chat.adaptive_effort.pending_attempt, None);
    assert_eq!(chat.adaptive_effort.successor_admission, None);
    assert!(chat.adaptive_effort_status_text().contains("Failure pressure: 1/2"));
    assert!(!chat.maybe_submit_adaptive_successor());
}

#[test]
fn invalid_workflow_signal_before_pressure_does_not_suppress_escalation() {
    let thread_id = ThreadId { raw: 4 };
    let turn_id = "invalid-before-pressure";
    let mut chat = running_chat(thread_id, turn_id, Some(AdaptiveWorkerRole::Implementation));
    chat.handle_adaptive_runtime_signal(workflow_signal(
        thread_id,
        turn_id,
        AdaptiveRuntimeSignalKind::ReadyForOwnerQa,
        Vec::new(),
    ));
    chat.register_adaptive_evidence(&failed_command(thread_id, turn_id, "failure-1"));
    chat.register_adaptive_evidence(&failed_command(thread_id, turn_id, "failure-2"));
    chat.turn_lifecycle.agent_turn_running = false;
    assert!(chat.consume_adaptive_signal_at_terminal(turn_id));
    assert_eq!(chat.adaptive_effort.current_effort, Some(AdaptiveEffort::Medium));
    assert_ne!(chat.adaptive_effort.workflow_terminal, Some(AdaptiveWorkflowTerminal::ReadyForOwnerQa));
}

#[test]
fn invalid_workflow_signal_after_pressure_does_not_suppress_escalation() {
    let thread_id = ThreadId { raw: 5 };
    let turn_id = "invalid-after-pressure";
    let mut chat = running_chat(thread_id, turn_id, Some(AdaptiveWorkerRole::Implementation));
    chat.register_adaptive_evidence(&failed_command(thread_id, turn_id, "failure-1"));
    chat.register_adaptive_evidence(&failed_command(thread_id, turn_id, "failure-2"));
    chat.handle_adaptive_runtime_signal(workflow_signal(
        thread_id,
        turn_id,
        AdaptiveRuntimeSignalKind::ReadyForOwnerQa,
        Vec::new(),
    ));
    chat.turn_lifecycle.agent_turn_running = false;
    assert!(chat.consume_adaptive_signal_at_terminal(turn_id));
    assert_eq!(chat.adaptive_effort.current_effort, Some(AdaptiveEffort::Medium));
    assert_ne!(chat.adaptive_effort.workflow_terminal, Some(AdaptiveWorkflowTerminal::ReadyForOwnerQa));
}

#[test]
fn conflicting_workflow_signals_before_pressure_do_not_suppress_escalation() {
    let thread_id = ThreadId { raw: 6 };
    let turn_id = "conflict-before-pressure";
    let mut chat = running_chat(thread_id, turn_id, Some(AdaptiveWorkerRole::Implementation));
    for kind in [AdaptiveRuntimeSignalKind::ReadyForValidation, AdaptiveRuntimeSignalKind::ReadyForOwnerQa] {
        chat.handle_adaptive_runtime_signal(workflow_signal(thread_id, turn_id, kind, Vec::new()));
    }
    assert!(matches!(
        chat.adaptive_effort.pending_signal,
        Some(AdaptivePendingSignal::Conflicted { ref source_turn_id }) if source_turn_id == turn_id
    ));
    chat.register_adaptive_evidence(&failed_command(thread_id, turn_id, "failure-1"));
    chat.register_adaptive_evidence(&failed_command(thread_id, turn_id, "failure-2"));
    chat.turn_lifecycle.agent_turn_running = false;
    assert!(chat.consume_adaptive_signal_at_terminal(turn_id));
    assert_eq!(chat.adaptive_effort.current_effort, Some(AdaptiveEffort::Medium));
    assert!(chat.adaptive_effort.workflow_terminal.is_none());
}

#[test]
fn conflicting_workflow_signals_after_pressure_do_not_suppress_escalation() {
    let thread_id = ThreadId { raw: 7 };
    let turn_id = "conflict-after-pressure";
    let mut chat = running_chat(thread_id, turn_id, Some(AdaptiveWorkerRole::Implementation));
    chat.register_adaptive_evidence(&failed_command(thread_id, turn_id, "failure-1"));
    chat.register_adaptive_evidence(&failed_command(thread_id, turn_id, "failure-2"));
    for kind in [AdaptiveRuntimeSignalKind::ReadyForValidation, AdaptiveRuntimeSignalKind::ReadyForOwnerQa] {
        chat.handle_adaptive_runtime_signal(workflow_signal(thread_id, turn_id, kind, Vec::new()));
    }
    assert!(matches!(chat.adaptive_effort.pending_signal, Some(AdaptivePendingSignal::Conflicted { .. })));
    chat.turn_lifecycle.agent_turn_running = false;
    assert!(chat.consume_adaptive_signal_at_terminal(turn_id));
    assert_eq!(chat.adaptive_effort.current_effort, Some(AdaptiveEffort::Medium));
    assert!(chat.adaptive_effort.workflow_terminal.is_none());
}

#[test]
fn explicit_cancellation_suppresses_available_failure_pressure() {
    let thread_id = ThreadId { raw: 8 };
    let turn_id = "cancelled-pressure";
    let mut chat = running_chat(thread_id, turn_id, None);
    chat.register_adaptive_evidence(&failed_command(thread_id, turn_id, "failure-1"));
    chat.register_adaptive_evidence(&failed_command(thread_id, turn_id, "failure-2"));
    chat.cancel_pending_adaptive_signal_for_active_turn();
    assert!(matches!(
        chat.adaptive_effort.pending_signal,
        Some(AdaptivePendingSignal::Cancelled { ref source_turn_id }) if source_turn_id == turn_id
    ));
    chat.turn_lifecycle.agent_turn_running = false;
    assert!(!chat.consume_adaptive_signal_at_terminal(turn_id));
    assert_eq!(chat.adaptive_effort.current_effort, Some(AdaptiveEffort::Low));
}

#[test]
fn completed_repair_waits_for_late_ready_for_validation_and_admits_no_successor() {
    let thread_id = ThreadId { raw: 20 };
    let turn_id = "late-ready-for-validation";
    let mut chat = running_chat(thread_id, turn_id, Some(AdaptiveWorkerRole::Repair));
    chat.adaptive_effort.worker_context.authorized_scope =
        Some("codexdd/post-terminal-race-repair".to_string());
    chat.turn_lifecycle.agent_turn_running = false;
    assert_eq!(chat.adaptive_effort.attempt_number, 1);
    assert_eq!(chat.adaptive_effort.pending_attempt, None);
    assert_eq!(chat.adaptive_effort.successor_admission, None);
    chat.handle_adaptive_runtime_signal(AdaptiveRuntimeSignalNotification {
        thread_id: Some(thread_id),
        signal: AdaptiveRuntimeSignalEnvelope {
            source_turn_id: turn_id.to_string(),
            signal_kind: AdaptiveRuntimeSignalKind::ReadyForValidation,
            evidence_refs: Vec::new(),
            diagnostic_note: Some("READY_FOR_VALIDATION".to_string()),
        },
    });
    assert_eq!(chat.adaptive_effort.workflow_terminal, Some(AdaptiveWorkflowTerminal::ReadyForValidation));
    assert_eq!(chat.adaptive_effort.attempt_number, 1);
    assert_eq!(chat.adaptive_effort.unfinished_turn_pressure, 0);
    assert_eq!(chat.adaptive_effort.pending_attempt, None);
    assert_eq!(chat.adaptive_effort.successor_admission, None);
    assert!(!chat.maybe_submit_adaptive_successor());
    assert!(!chat.consume_adaptive_signal_at_terminal(turn_id));
    assert_eq!(chat.adaptive_effort.attempt_number, 1);
}

#[test]
fn completed_validation_waits_for_late_owner_qa_and_admits_no_successor() {
    let thread_id = ThreadId { raw: 21 };
    let turn_id = "late-ready-for-owner-qa";
    let mut chat = running_chat(thread_id, turn_id, Some(AdaptiveWorkerRole::Validation));
    chat.adaptive_effort.worker_context.authorized_scope =
        Some("codexdd/post-terminal-race-validation".to_string());
    chat.register_adaptive_evidence(&command(
        thread_id,
        turn_id,
        "late-validation-success",
        CommandExecutionStatus::Completed,
    ));
    chat.turn_lifecycle.agent_turn_running = false;
    assert_eq!(chat.adaptive_effort.attempt_number, 1);
    chat.handle_adaptive_runtime_signal(AdaptiveRuntimeSignalNotification {
        thread_id: Some(thread_id),
        signal: AdaptiveRuntimeSignalEnvelope {
            source_turn_id: turn_id.to_string(),
            signal_kind: AdaptiveRuntimeSignalKind::ReadyForOwnerQa,
            evidence_refs: vec!["late-validation-success".to_string()],
            diagnostic_note: Some("PASS - READY FOR REPOSITORY HANDOFF".to_string()),
        },
    });
    assert_eq!(chat.adaptive_effort.workflow_terminal, Some(AdaptiveWorkflowTerminal::ReadyForOwnerQa));
    assert_eq!(chat.adaptive_effort.attempt_number, 1);
    assert_eq!(chat.adaptive_effort.unfinished_turn_pressure, 0);
    assert_eq!(chat.adaptive_effort.pending_attempt, None);
    assert_eq!(chat.adaptive_effort.successor_admission, None);
}

#[test]
fn late_workflow_terminal_still_overrides_synthetic_failure_pressure() {
    let thread_id = ThreadId { raw: 22 };
    let turn_id = "late-terminal-overrides-pressure";
    let mut chat = running_chat(thread_id, turn_id, Some(AdaptiveWorkerRole::Implementation));
    chat.adaptive_effort.worker_context.authorized_scope =
        Some("codexdd/late-terminal-overrides-pressure".to_string());
    chat.register_adaptive_evidence(&failed_command(thread_id, turn_id, "failure-a"));
    chat.register_adaptive_evidence(&failed_command(thread_id, turn_id, "failure-b"));
    assert!(matches!(
        chat.adaptive_effort.pending_signal,
        Some(AdaptivePendingSignal::Pending(ref signal))
            if signal.signal_kind == AdaptiveRuntimeSignalKind::Capability
                && signal.diagnostic_note.as_deref() == Some(AUTO_FAILURE_PRESSURE_DIAGNOSTIC)
    ));
    chat.turn_lifecycle.agent_turn_running = false;
    assert_eq!(chat.adaptive_effort.attempt_number, 1);
    assert_eq!(chat.adaptive_effort.current_effort, Some(AdaptiveEffort::Low));
    chat.handle_adaptive_runtime_signal(workflow_signal(
        thread_id,
        turn_id,
        AdaptiveRuntimeSignalKind::ReadyForValidation,
        Vec::new(),
    ));
    assert_eq!(chat.adaptive_effort.workflow_terminal, Some(AdaptiveWorkflowTerminal::ReadyForValidation));
    assert_eq!(chat.adaptive_effort.attempt_number, 1);
    assert_eq!(chat.adaptive_effort.current_effort, Some(AdaptiveEffort::Low));
    assert_eq!(chat.adaptive_effort.unfinished_turn_pressure, 0);
    assert_eq!(chat.adaptive_effort.pending_attempt, None);
    assert_eq!(chat.adaptive_effort.successor_admission, None);
}

#[test]
fn late_signal_without_authority_or_for_another_turn_changes_nothing() {
    let thread_id = ThreadId { raw: 23 };
    let turn_id = "late-invalid";
    let mut chat = running_chat(thread_id, turn_id, Some(AdaptiveWorkerRole::Validation));
    chat.turn_lifecycle.agent_turn_running = false;
    let before = chat.clone();
    chat.handle_adaptive_runtime_signal(workflow_signal(
        thread_id,
        turn_id,
        AdaptiveRuntimeSignalKind::ReadyForValidation,
        Vec::new(),
    ));
    chat.handle_adaptive_runtime_signal(workflow_signal(
        thread_id,
        "other-turn",
        AdaptiveRuntimeSignalKind::ReadyForOwnerQa,
        Vec::new(),
    ));
    chat.handle_adaptive_runtime_signal(AdaptiveRuntimeSignalNotification {
        thread_id: Some(thread_id),
        signal: AdaptiveRuntimeSignalEnvelope {
            source_turn_id: turn_id.to_string(),
            signal_kind: AdaptiveRuntimeSignalKind::Capability,
            evidence_refs: Vec::new(),
            diagnostic_note: Some("late reason".to_string()),
        },
    });
    assert_eq!(chat, before);
}

#[test]
fn evidence_reported_under_another_spelling_of_the_thread_is_ignored() {
    let thread_id = ThreadId { raw: 0xabcdef };
    let mut chat = running_chat(thread_id, "t", None);
    let before = chat.adaptive_effort.clone();
    for item_id in ["a", "b"] {
        let mut item = failed_command(thread_id, "t", item_id);
        item.thread_id = item.thread_id.to_uppercase();
        chat.register_adaptive_evidence(&item);
    }
    assert_eq!(chat.adaptive_effort, before);
}
