use codexdd_adaptive::budget::AdaptiveBudgetMode;
use codexdd_adaptive::complexity::AdaptiveComplexityClass;
use codexdd_adaptive::effort::{
    AdaptiveEffortState, AdaptivePendingSignal, AdaptiveRuntimeSignalEnvelope,
    AdaptiveRuntimeSignalKind,
};
use codexdd_adaptive::evidence::{
    AdaptiveEvidenceKind, AdaptiveEvidenceOutcome, AdaptiveEvidenceRecord,
    AdaptiveEvidenceRegistry, ThreadId,
};
use codexdd_adaptive::policy::{AdaptiveEffort, AdaptiveFamily, AdaptiveOutcome};
use codexdd_adaptive::session::{
    AdaptiveWorkflowStateSnapshot, RestoredWorkflowState, RolloutRestoreError, ThreadSessionState,
    apply_persisted_adaptive_workflow_state, apply_restored_workflow_state, restore_effort,
    restore_family, restore_rollout_workflow_state, restore_worker_role, restore_workflow_terminal,
};
use codexdd_adaptive::worker::{AdaptiveWorkerContext, AdaptiveWorkerRole, AdaptiveWorkflowTerminal};

fn session(thread_id: ThreadId, forked_from_id: Option<ThreadId>) -> ThreadSessionState {
    ThreadSessionState {
        thread_id,
        forked_from_id,
        cwd: "/tmp/adaptive-effort".to_string(),
        runtime_workspace_roots: Vec::new(),
        adaptive_effort: AdaptiveEffortState::default(),
    }
}

fn snapshot(
    starting: &str,
    current: &str,
    effort: &str,
    attempt_number: u32,
    paused_by_user: bool,
    role: &str,
    scope: &str,
    terminal: Option<&str>,
) -> AdaptiveWorkflowStateSnapshot {
    AdaptiveWorkflowStateSnapshot {
        enabled: true,
        starting_family: Some(starting.to_string()),
        current_family: Some(current.to_string()),
        current_effort: Some(effort.to_string()),
        complexity_class: None,
        attempt_number,
        paused_by_user,
        worker_role: role.to_string(),
        authorized_scope: Some(scope.to_string()),
        worker_assignment_locked: true,
        workflow_terminal: terminal.map(str::to_string),
    }
}

#[test]
fn forks_inherit_stable_adaptive_state_but_never_pending_signal_authority() {
    let parent_id = ThreadId { raw: 100 };
    let mut parent = session(parent_id, None);
    parent.adaptive_effort.enabled = true;
    parent.adaptive_effort.attempt_number = 3;
    parent.adaptive_effort.pending_signal = Some(AdaptivePendingSignal::Pending(
        AdaptiveRuntimeSignalEnvelope {
            source_turn_id: "parent-turn".to_string(),
            signal_kind: AdaptiveRuntimeSignalKind::Capability,
            evidence_refs: Vec::new(),
            diagnostic_note: None,
        },
    ));
    let mut child = session(ThreadId { raw: 101 }, Some(parent_id));
    child.inherit_adaptive_effort_from(&parent);
    assert!(child.adaptive_effort.enabled);
    assert_eq!(child.adaptive_effort.attempt_number, 3);
    assert_eq!(child.adaptive_effort.pending_signal, None);

    let mut grandchild = session(ThreadId { raw: 102 }, Some(child.thread_id));
    grandchild.inherit_adaptive_effort_from(&child);
    assert_eq!(grandchild.adaptive_effort.pending_signal, None);
}

#[test]
fn typed_forks_snapshot_immediate_parent_state_and_remain_independent() {
    let parent_id = ThreadId { raw: 200 };
    let mut parent = session(parent_id, None);
    parent.adaptive_effort = AdaptiveEffortState {
        enabled: true,
        starting_family: Some(AdaptiveFamily::Terra),
        current_family: Some(AdaptiveFamily::Terra),
        current_effort: Some(AdaptiveEffort::Low),
        attempt_number: 1,
        paused_by_user: true,
        last_outcome: Some(AdaptiveOutcome::UserInterrupted),
        last_failure_kind: None,
        worker_context: AdaptiveWorkerContext {
            role: AdaptiveWorkerRole::Implementation,
            authorized_scope: Some("milestone/42c".to_string()),
        },
        workflow_terminal: Some(AdaptiveWorkflowTerminal::ReadyForValidation),
        ..AdaptiveEffortState::default()
    };
    parent.adaptive_effort.evidence_registry.register(AdaptiveEvidenceRecord {
        evidence_id: "parent-native-call".to_string(),
        thread_id: parent_id,
        source_turn_id: "parent-turn".to_string(),
        outcome: AdaptiveEvidenceOutcome::Success,
        kind: AdaptiveEvidenceKind::CommandExecution,
    });
    let mut child = session(ThreadId { raw: 201 }, Some(parent_id));
    child.inherit_adaptive_effort_from(&parent);
    assert_eq!(child.adaptive_effort.evidence_registry.len(), 0);
    assert_eq!(
        child.adaptive_effort,
        AdaptiveEffortState {
            evidence_registry: Default::default(),
            ..parent.adaptive_effort.clone()
        }
    );
    assert_eq!(child.adaptive_effort.attempt_number, 1);

    parent.adaptive_effort.paused_by_user = false;
    parent.adaptive_effort.worker_context.role = AdaptiveWorkerRole::Repair;
    assert!(child.adaptive_effort.paused_by_user);
    assert_eq!(child.adaptive_effort.worker_context.role, AdaptiveWorkerRole::Implementation);
    child.adaptive_effort.enabled = false;
    assert!(parent.adaptive_effort.enabled);

    child.inherit_adaptive_effort_from(&parent);
    assert_eq!(child.adaptive_effort.worker_context.role, AdaptiveWorkerRole::Implementation);

    let mut grandchild = session(ThreadId { raw: 202 }, Some(child.thread_id));
    grandchild.inherit_adaptive_effort_from(&child);
    assert_eq!(grandchild.adaptive_effort, child.adaptive_effort);
    assert_eq!(grandchild.adaptive_effort.evidence_registry.len(), 0);
}

#[test]
fn unrelated_threads_do_not_inherit_adaptive_effort() {
    let mut parent = session(ThreadId { raw: 300 }, None);
    parent.adaptive_effort.enabled = true;
    parent.adaptive_effort.attempt_number = 4;
    let mut stranger = session(ThreadId { raw: 301 }, Some(ThreadId { raw: 999 }));
    stranger.inherit_adaptive_effort_from(&parent);
    assert_eq!(stranger.adaptive_effort, AdaptiveEffortState::default());
    let mut root = session(ThreadId { raw: 302 }, None);
    root.inherit_adaptive_effort_from(&parent);
    assert_eq!(root.adaptive_effort, AdaptiveEffortState::default());
}

#[test]
fn restored_terminal_snapshot_preserves_worker_route_and_clears_ephemeral_authority() {
    let mut adaptive =
        AdaptiveEffortState { budget_mode: AdaptiveBudgetMode::Surplus, ..AdaptiveEffortState::default() };
    apply_persisted_adaptive_workflow_state(
        &mut adaptive,
        snapshot(
            "astra",
            "luna",
            "high",
            6,
            false,
            "repair",
            "Z-A0.47B bounded repair",
            Some("ready_for_validation"),
        ),
        Some("turn-6".to_string()),
    )
    .expect("snapshot should restore");

    assert!(adaptive.enabled);
    assert_eq!(adaptive.starting_family, Some(AdaptiveFamily::Astra));
    assert_eq!(adaptive.current_family, Some(AdaptiveFamily::Luna));
    assert_eq!(adaptive.current_effort, Some(AdaptiveEffort::High));
    assert_eq!(adaptive.attempt_number, 6);
    assert_eq!(adaptive.budget_mode, AdaptiveBudgetMode::Surplus);
    assert_eq!(adaptive.worker_context.role, AdaptiveWorkerRole::Repair);
    assert_eq!(
        adaptive.worker_context.authorized_scope.as_deref(),
        Some("Z-A0.47B bounded repair")
    );
    assert!(adaptive.worker_assignment_locked);
    assert_eq!(adaptive.workflow_terminal, Some(AdaptiveWorkflowTerminal::ReadyForValidation));
    assert_eq!(adaptive.last_processed_terminal_turn_id.as_deref(), Some("turn-6"));
    assert_eq!(adaptive.unfinished_turn_pressure, 0);
    assert_eq!(adaptive.pending_attempt, None);
    assert_eq!(adaptive.pending_signal, None);
    assert_eq!(adaptive.successor_admission, None);
    assert_eq!(adaptive.evidence_registry, AdaptiveEvidenceRegistry::default());
}

#[test]
fn restored_snapshot_accepts_every_hard_workflow_terminal() {
    for (persisted, expected) in [
        ("ready_for_validation", AdaptiveWorkflowTerminal::ReadyForValidation),
        ("repair_required", AdaptiveWorkflowTerminal::RepairRequired),
        ("ready_for_owner_qa", AdaptiveWorkflowTerminal::ReadyForOwnerQa),
        ("blocked", AdaptiveWorkflowTerminal::Blocked),
    ] {
        let mut adaptive = AdaptiveEffortState::default();
        apply_persisted_adaptive_workflow_state(
            &mut adaptive,
            snapshot("astra", "luna", "low", 1, false, "repair", "bounded scope", Some(persisted)),
            Some("terminal-turn".to_string()),
        )
        .expect("terminal snapshot should restore");
        assert_eq!(adaptive.workflow_terminal, Some(expected));
        assert_eq!(adaptive.pending_attempt, None);
        assert_eq!(adaptive.pending_signal, None);
        assert_eq!(adaptive.successor_admission, None);
    }
}

#[test]
fn restored_active_snapshot_keeps_attempt_but_never_restores_successor_authority() {
    let mut adaptive = AdaptiveEffortState::default();
    apply_persisted_adaptive_workflow_state(
        &mut adaptive,
        snapshot("sol", "luna", "medium", 4, true, "validation", "independent validation", None),
        None,
    )
    .expect("snapshot should restore");
    assert_eq!(adaptive.attempt_number, 4);
    assert!(adaptive.paused_by_user);
    assert_eq!(adaptive.worker_context.role, AdaptiveWorkerRole::Validation);
    assert_eq!(adaptive.workflow_terminal, None);
    assert_eq!(adaptive.last_processed_terminal_turn_id, None);
    assert_eq!(adaptive.unfinished_turn_pressure, 0);
    assert_eq!(adaptive.pending_attempt, None);
    assert_eq!(adaptive.pending_signal, None);
    assert_eq!(adaptive.successor_admission, None);
}

#[test]
fn restored_snapshot_recovers_complexity_class() {
    let json = r#"{
                "enabled": true,
                "starting_family": "astra",
                "current_family": "sol",
                "current_effort": "medium",
                "attempt_number": 2,
                "paused_by_user": false,
                "worker_role": "implementation",
                "authorized_scope": "codexdd/complexity-restore",
                "worker_assignment_locked": true,
                "workflow_terminal": null,
                "complexity_class": "architectural"
            }"#;
    let value: serde_json::Value = serde_json::from_str(json).expect("snapshot should deserialize");
    let text = |key: &str| value.get(key).and_then(|v| v.as_str()).map(str::to_string);
    let flag = |key: &str| value.get(key).and_then(|v| v.as_bool()).expect("flag");
    let snapshot = AdaptiveWorkflowStateSnapshot {
        enabled: flag("enabled"),
        starting_family: text("starting_family"),
        current_family: text("current_family"),
        current_effort: text("current_effort"),
        complexity_class: text("complexity_class"),
        attempt_number: value.get("attempt_number").and_then(|v| v.as_u64()).expect("attempt")
            as u32,
        paused_by_user: flag("paused_by_user"),
        worker_role: text("worker_role").expect("role"),
        authorized_scope: text("authorized_scope"),
        worker_assignment_locked: flag("worker_assignment_locked"),
        workflow_terminal: text("workflow_terminal"),
    };
    let mut adaptive = AdaptiveEffortState::default();
    apply_persisted_adaptive_workflow_state(&mut adaptive, snapshot, None)
        .expect("snapshot should restore");
    assert_eq!(adaptive.complexity_class, Some(AdaptiveComplexityClass::Architectural));
}

#[test]
fn unsupported_values_and_incomplete_routes_are_rejected_without_change() {
    let original = AdaptiveEffortState { budget_mode: AdaptiveBudgetMode::Conserve, ..Default::default() };
    let mut adaptive = original.clone();
    assert_eq!(
        apply_persisted_adaptive_workflow_state(
            &mut adaptive,
            snapshot("nova", "luna", "low", 1, false, "repair", "s", None),
            None
        ),
        Err("unsupported persisted adaptive family `nova`".to_string())
    );
    assert_eq!(adaptive, original);
    assert_eq!(
        apply_persisted_adaptive_workflow_state(
            &mut adaptive,
            snapshot("astra", "luna", "ultra", 1, false, "repair", "s", None),
            None
        ),
        Err("unsupported persisted adaptive effort `ultra`".to_string())
    );
    assert_eq!(
        apply_persisted_adaptive_workflow_state(
            &mut adaptive,
            snapshot("astra", "luna", "low", 1, false, "owner", "s", None),
            None
        ),
        Err("unsupported persisted adaptive Worker role `owner`".to_string())
    );
    assert_eq!(
        apply_persisted_adaptive_workflow_state(
            &mut adaptive,
            snapshot("astra", "luna", "low", 1, false, "repair", "s", Some("done")),
            None
        ),
        Err("unsupported persisted workflow terminal `done`".to_string())
    );
    let mut bad_class = snapshot("astra", "luna", "low", 1, false, "repair", "s", None);
    bad_class.complexity_class = Some("huge".to_string());
    assert_eq!(
        apply_persisted_adaptive_workflow_state(&mut adaptive, bad_class, None),
        Err("unsupported persisted adaptive complexity class `huge`".to_string())
    );
    assert_eq!(
        apply_persisted_adaptive_workflow_state(
            &mut adaptive,
            snapshot("astra", "luna", "low", 0, false, "repair", "s", None),
            None
        ),
        Err("persisted enabled adaptive state is missing its active route or attempt".to_string())
    );
    let mut half_route = snapshot("astra", "luna", "low", 1, false, "repair", "s", None);
    half_route.enabled = false;
    half_route.current_effort = None;
    assert_eq!(
        apply_persisted_adaptive_workflow_state(&mut adaptive, half_route, None),
        Err("persisted adaptive family/effort route is incomplete".to_string())
    );
    assert_eq!(adaptive, original);
}

#[test]
fn restore_helpers_parse_persisted_spellings() {
    assert_eq!(restore_family(None), Ok(None));
    assert_eq!(restore_family(Some("terra".to_string())), Ok(Some(AdaptiveFamily::Terra)));
    assert_eq!(restore_effort(Some("xhigh".to_string())), Ok(Some(AdaptiveEffort::XHigh)));
    assert_eq!(restore_effort(Some("max".to_string())), Ok(Some(AdaptiveEffort::Max)));
    assert_eq!(restore_worker_role("unspecified"), Ok(AdaptiveWorkerRole::Unspecified));
    assert_eq!(
        restore_workflow_terminal(Some("blocked".to_string())),
        Ok(Some(AdaptiveWorkflowTerminal::Blocked))
    );
}

#[test]
fn restored_history_latches_owner_qa_or_disables_unsupported_state() {
    let mut adaptive = AdaptiveEffortState { enabled: true, attempt_number: 3, ..Default::default() };
    adaptive.unfinished_turn_pressure = 1;
    assert_eq!(apply_restored_workflow_state(&mut adaptive, RestoredWorkflowState::ReadyForOwnerQa), Ok(()));
    assert_eq!(adaptive.workflow_terminal, Some(AdaptiveWorkflowTerminal::ReadyForOwnerQa));
    assert_eq!(adaptive.unfinished_turn_pressure, 0);
    assert!(adaptive.enabled);

    let mut adaptive = AdaptiveEffortState { enabled: true, ..Default::default() };
    assert_eq!(apply_restored_workflow_state(&mut adaptive, RestoredWorkflowState::Unsupported), Ok(()));
    assert!(!adaptive.enabled);
    assert!(adaptive.paused_by_user);

    let mut adaptive = AdaptiveEffortState::default();
    assert_eq!(apply_restored_workflow_state(&mut adaptive, RestoredWorkflowState::Absent), Ok(()));
    assert_eq!(adaptive, AdaptiveEffortState::default());

    let restored = RestoredWorkflowState::Adaptive {
        state: snapshot("astra", "sol", "high", 5, false, "validation", "v", Some("repair_required")),
        source_turn_id: Some("t".to_string()),
    };
    assert_eq!(apply_restored_workflow_state(&mut adaptive, restored), Ok(()));
    assert_eq!(adaptive.workflow_terminal, Some(AdaptiveWorkflowTerminal::RepairRequired));
    assert_eq!(adaptive.last_processed_terminal_turn_id.as_deref(), Some("t"));
}

#[test]
fn moving_cwd_off_a_workspace_root_retargets_it_once() {
    let mut s = session(ThreadId { raw: 400 }, None);
    s.cwd = "/a".to_string();
    s.runtime_workspace_roots =
        vec!["/b".to_string(), "/a".to_string(), "/c".to_string(), "/b".to_string(), "/n".to_string()];
    s.set_cwd_retargeting_implicit_runtime_workspace_root("/n".to_string());
    assert_eq!(s.cwd, "/n");
    assert_eq!(s.runtime_workspace_roots, vec!["/n".to_string(), "/b".to_string(), "/c".to_string()]);

    let mut t = session(ThreadId { raw: 401 }, None);
    t.cwd = "/x".to_string();
    t.runtime_workspace_roots = vec!["/b".to_string()];
    t.set_cwd_retargeting_implicit_runtime_workspace_root("/y".to_string());
    assert_eq!(t.cwd, "/y");
    assert_eq!(t.runtime_workspace_roots, vec!["/b".to_string()]);
}

#[test]
fn rollout_of_another_thread_is_refused_and_changes_nothing() {
    let mut adaptive = AdaptiveEffortState { enabled: true, attempt_number: 2, ..Default::default() };
    let before = adaptive.clone();
    assert_eq!(
        restore_rollout_workflow_state(
            Some(ThreadId { raw: 7 }),
            ThreadId { raw: 8 },
            &mut adaptive,
            RestoredWorkflowState::ReadyForOwnerQa,
        ),
        Err(RolloutRestoreError::ForeignRollout)
    );
    assert_eq!(adaptive, before);
    assert_eq!(
        restore_rollout_workflow_state(None, ThreadId { raw: 8 }, &mut adaptive, RestoredWorkflowState::Unsupported),
        Err(RolloutRestoreError::ForeignRollout)
    );
    assert_eq!(adaptive, before);
}

#[test]
fn rollout_of_the_same_thread_restores_its_state() {
    let mut adaptive = AdaptiveEffortState { enabled: true, attempt_number: 2, ..Default::default() };
    assert_eq!(
        restore_rollout_workflow_state(
            Some(ThreadId { raw: 9 }),
            ThreadId { raw: 9 },
            &mut adaptive,
            RestoredWorkflowState::ReadyForOwnerQa,
        ),
        Ok(())
    );
    assert_eq!(adaptive.workflow_terminal, Some(AdaptiveWorkflowTerminal::ReadyForOwnerQa));

    let mut adaptive = AdaptiveEffortState::default();
    let restored = RestoredWorkflowState::Adaptive {
        state: snapshot("astra", "sol", "high", 5, false, "validation", "v", Some("nonsense")),
        source_turn_id: None,
    };
    assert!(matches!(
        restore_rollout_workflow_state(Some(ThreadId { raw: 9 }), ThreadId { raw: 9 }, &mut adaptive, restored),
        Err(RolloutRestoreError::Invalid(_))
    ));
}
