use codexdd_adaptive::thread_text::thread_id_string;
use codexdd_adaptive::evidence::{
    AdaptiveEvidenceKind, AdaptiveEvidenceOutcome, AdaptiveEvidenceRecord,
    AdaptiveEvidenceRegistration, AdaptiveEvidenceRegistry, AdaptiveEvidenceResolveError,
    CommandExecutionStatus, DynamicToolCallStatus, ItemCompletedNotification, McpToolCallStatus,
    ThreadId, ThreadItem, record_from_item_completion,
};

fn record(
    evidence_id: &str,
    thread_id: ThreadId,
    source_turn_id: &str,
    outcome: AdaptiveEvidenceOutcome,
) -> AdaptiveEvidenceRecord {
    AdaptiveEvidenceRecord {
        evidence_id: evidence_id.to_string(),
        thread_id,
        source_turn_id: source_turn_id.to_string(),
        outcome,
        kind: AdaptiveEvidenceKind::CommandExecution,
    }
}

fn notification(thread_id: ThreadId, item: ThreadItem) -> ItemCompletedNotification {
    ItemCompletedNotification {
        item,
        thread_id: thread_id_string(thread_id),
        turn_id: "turn-1".to_string(),
        completed_at_ms: 999,
    }
}

#[test]
fn native_command_completion_becomes_small_typed_evidence() {
    let thread_id = ThreadId { raw: 1 };
    let n = notification(
        thread_id,
        ThreadItem::CommandExecution {
            id: "native-call-1".to_string(),
            status: CommandExecutionStatus::Completed,
        },
    );
    assert_eq!(
        record_from_item_completion(&n),
        Some(AdaptiveEvidenceRecord {
            evidence_id: "native-call-1".to_string(),
            thread_id,
            source_turn_id: "turn-1".to_string(),
            outcome: AdaptiveEvidenceOutcome::Success,
            kind: AdaptiveEvidenceKind::CommandExecution,
        })
    );
}

#[test]
fn mcp_and_dynamic_completions_reuse_their_runtime_call_ids() {
    let thread_id = ThreadId { raw: 2 };
    let mcp = notification(
        thread_id,
        ThreadItem::McpToolCall {
            id: "runtime-mcp-call".to_string(),
            status: McpToolCallStatus::Completed,
        },
    );
    let dynamic = notification(
        thread_id,
        ThreadItem::DynamicToolCall {
            id: "runtime-dynamic-call".to_string(),
            status: DynamicToolCallStatus::Completed,
            success: Some(true),
        },
    );
    assert_eq!(
        record_from_item_completion(&mcp),
        Some(AdaptiveEvidenceRecord {
            evidence_id: "runtime-mcp-call".to_string(),
            thread_id,
            source_turn_id: "turn-1".to_string(),
            outcome: AdaptiveEvidenceOutcome::Success,
            kind: AdaptiveEvidenceKind::McpToolCall,
        })
    );
    assert_eq!(
        record_from_item_completion(&dynamic),
        Some(AdaptiveEvidenceRecord {
            evidence_id: "runtime-dynamic-call".to_string(),
            thread_id,
            source_turn_id: "turn-1".to_string(),
            outcome: AdaptiveEvidenceOutcome::Success,
            kind: AdaptiveEvidenceKind::DynamicToolCall,
        })
    );
}

#[test]
fn native_command_outcomes_are_not_upgraded_from_output() {
    let thread_id = ThreadId { raw: 3 };
    for (status, expected) in [
        (CommandExecutionStatus::Failed, AdaptiveEvidenceOutcome::Failure),
        (CommandExecutionStatus::Declined, AdaptiveEvidenceOutcome::Cancelled),
        (CommandExecutionStatus::InProgress, AdaptiveEvidenceOutcome::Incomplete),
    ] {
        let n = notification(
            thread_id,
            ThreadItem::CommandExecution { id: format!("native-{status:?}"), status },
        );
        assert_eq!(
            record_from_item_completion(&n)
                .expect("command completion should produce evidence")
                .outcome,
            expected
        );
    }
}

#[test]
fn dynamic_outcomes_need_explicit_success_and_other_items_give_no_evidence() {
    let thread_id = ThreadId { raw: 4 };
    for (status, success, expected) in [
        (DynamicToolCallStatus::Completed, Some(false), AdaptiveEvidenceOutcome::Failure),
        (DynamicToolCallStatus::Completed, None, AdaptiveEvidenceOutcome::Incomplete),
        (DynamicToolCallStatus::Failed, Some(true), AdaptiveEvidenceOutcome::Failure),
        (DynamicToolCallStatus::InProgress, Some(true), AdaptiveEvidenceOutcome::Incomplete),
    ] {
        let n = notification(
            thread_id,
            ThreadItem::DynamicToolCall { id: "d".to_string(), status, success },
        );
        assert_eq!(record_from_item_completion(&n).map(|r| r.outcome), Some(expected));
    }
    let mcp_failed = notification(
        thread_id,
        ThreadItem::McpToolCall { id: "m".to_string(), status: McpToolCallStatus::Failed },
    );
    assert_eq!(
        record_from_item_completion(&mcp_failed).map(|r| r.outcome),
        Some(AdaptiveEvidenceOutcome::Failure)
    );
    assert_eq!(record_from_item_completion(&notification(thread_id, ThreadItem::Other)), None);
    let unreadable = ItemCompletedNotification {
        thread_id: "not-a-thread".to_string(),
        ..notification(
            thread_id,
            ThreadItem::CommandExecution {
                id: "c".to_string(),
                status: CommandExecutionStatus::Completed,
            },
        )
    };
    assert_eq!(record_from_item_completion(&unreadable), None);
}

#[test]
fn registry_is_idempotent_and_conflicts_fail_closed_permanently() {
    let thread_id = ThreadId { raw: 5 };
    let original = record("native-call-1", thread_id, "turn-1", AdaptiveEvidenceOutcome::Success);
    let mut registry = AdaptiveEvidenceRegistry::default();
    assert_eq!(registry.register(original.clone()), AdaptiveEvidenceRegistration::Registered);
    assert_eq!(registry.register(original.clone()), AdaptiveEvidenceRegistration::Duplicate);
    assert_eq!(registry.len(), 1);
    let conflicting =
        AdaptiveEvidenceRecord { outcome: AdaptiveEvidenceOutcome::Failure, ..original.clone() };
    assert_eq!(registry.register(conflicting), AdaptiveEvidenceRegistration::Conflicted);
    assert_eq!(registry.resolve("native-call-1"), Err(AdaptiveEvidenceResolveError::Conflicted));
    assert_eq!(registry.register(original), AdaptiveEvidenceRegistration::Conflicted);
    assert_eq!(registry.resolve("native-call-1"), Err(AdaptiveEvidenceResolveError::Conflicted));
}

#[test]
fn resolution_rejects_missing_cross_thread_stale_and_wrong_outcome() {
    let owning_thread = ThreadId { raw: 6 };
    let other_thread = ThreadId { raw: 7 };
    let evidence = record("native-call-1", owning_thread, "turn-1", AdaptiveEvidenceOutcome::Failure);
    let mut registry = AdaptiveEvidenceRegistry::default();
    registry.register(evidence.clone());
    assert_eq!(registry.resolve("native-call-1"), Ok(&evidence));
    assert_eq!(registry.resolve("missing"), Err(AdaptiveEvidenceResolveError::NotFound));
    assert_eq!(
        registry.resolve_for_thread("native-call-1", other_thread),
        Err(AdaptiveEvidenceResolveError::CrossThread)
    );
    assert_eq!(
        registry.resolve_for_turn("native-call-1", owning_thread, "turn-2"),
        Err(AdaptiveEvidenceResolveError::SourceTurnMismatch)
    );
    assert_eq!(
        registry.validate_outcome("native-call-1", owning_thread, AdaptiveEvidenceOutcome::Success),
        Err(AdaptiveEvidenceResolveError::OutcomeMismatch)
    );
    assert_eq!(
        registry.validate_outcome("native-call-1", owning_thread, AdaptiveEvidenceOutcome::Failure),
        Ok(&evidence)
    );
    assert_eq!(registry.resolve_for_turn("native-call-1", owning_thread, "turn-1"), Ok(&evidence));
}

#[test]
fn conflict_on_source_turn_is_also_permanent() {
    let thread_id = ThreadId { raw: 8 };
    let original = record("native-call-1", thread_id, "turn-1", AdaptiveEvidenceOutcome::Success);
    let mut registry = AdaptiveEvidenceRegistry::default();
    registry.register(original.clone());
    registry.register(AdaptiveEvidenceRecord {
        source_turn_id: "turn-2".to_string(),
        ..original.clone()
    });
    assert_eq!(registry.resolve("native-call-1"), Err(AdaptiveEvidenceResolveError::Conflicted));
    registry.register(original);
    assert_eq!(registry.resolve("native-call-1"), Err(AdaptiveEvidenceResolveError::Conflicted));
}

#[test]
fn failure_pressure_counts_valid_failures_of_one_turn() {
    let thread_id = ThreadId { raw: 9 };
    let mut registry = AdaptiveEvidenceRegistry::new();
    registry.register(record("a", thread_id, "turn-1", AdaptiveEvidenceOutcome::Failure));
    registry.register(record("b", thread_id, "turn-1", AdaptiveEvidenceOutcome::Success));
    registry.register(record("c", thread_id, "turn-2", AdaptiveEvidenceOutcome::Failure));
    registry.register(record("d", ThreadId { raw: 10 }, "turn-1", AdaptiveEvidenceOutcome::Failure));
    registry.register(record("e", thread_id, "turn-1", AdaptiveEvidenceOutcome::Failure));
    assert_eq!(registry.failure_pressure_for_turn(thread_id, "turn-1"), 2);
    registry.register(record("e", thread_id, "turn-1", AdaptiveEvidenceOutcome::Success));
    assert_eq!(registry.failure_pressure_for_turn(thread_id, "turn-1"), 1);
    assert_eq!(registry.failure_pressure_for_turn(thread_id, "turn-2"), 1);
    assert_eq!(registry.len(), 5);
}
