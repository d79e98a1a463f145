use codexdd_adaptive::effort::AdaptiveRuntimeSignalKind;
use codexdd_adaptive::signal_handler::{
    AdaptiveSignalArgs, AdaptiveSignalHandler, ComplexityReport, FunctionCallError,
    SIGNAL_EMITTED_OUTPUT, SignalKind, TOOL_NAME, ToolSpec, classify_complexity,
};

fn args(kind: SignalKind, refs: &[&str], note: Option<&str>) -> AdaptiveSignalArgs {
    AdaptiveSignalArgs {
        kind,
        complexity: None,
        evidence_refs: refs.iter().map(|r| r.to_string()).collect(),
        diagnostic_note: note.map(str::to_string),
    }
}

fn report(estimated_files: u16) -> ComplexityReport {
    ComplexityReport {
        estimated_files,
        cross_module: false,
        public_api_or_data_model: false,
        persistent_state_or_serialization: false,
        concurrency_or_async: false,
        build_release_or_toolchain: false,
        uncertain_root_cause: false,
        broad_test_surface: false,
    }
}

fn rejection(result: Result<impl std::fmt::Debug, FunctionCallError>) -> String {
    match result {
        Err(FunctionCallError::RespondToModel(message)) => message,
        Ok(event) => panic!("expected a rejection, got {event:?}"),
    }
}

#[test]
fn tool_spec_documents_repository_handoff_terminal_mapping() {
    let ToolSpec::Function(spec) = AdaptiveSignalHandler.spec();
    assert!(spec.description.contains("READY FOR REPOSITORY HANDOFF"));
    assert!(spec.description.contains("ready_for_repository_handoff"));
    assert!(spec.description.contains("Final-answer prose is non-authoritative"));
    assert_eq!(spec.name, TOOL_NAME);
    assert!(!spec.strict);
    assert_eq!(AdaptiveSignalHandler.tool_name(), "report_adaptive_signal");
    assert!(AdaptiveSignalHandler.is_builtin_control_tool());
}

#[test]
fn production_handler_emits_signal_with_active_turn_identity() {
    let event = AdaptiveSignalHandler
        .handle_arguments(args(
            SignalKind::RepairRequired,
            &["evidence-b", "evidence-a", "evidence-a"],
            Some("non-authoritative"),
        ))
        .expect("handler output");
    assert_eq!(event.signal_kind, AdaptiveRuntimeSignalKind::RepairRequired);
    assert_eq!(event.evidence_refs, vec!["evidence-a".to_string(), "evidence-b".to_string()]);
    assert_eq!(event.diagnostic_note.as_deref(), Some("non-authoritative"));
    assert_eq!(SIGNAL_EMITTED_OUTPUT, "{\"status\":\"request_emitted\"}");
}

#[test]
fn repository_handoff_alias_emits_owner_qa_terminal_signal() {
    let event = AdaptiveSignalHandler
        .handle_arguments(args(
            SignalKind::ReadyForRepositoryHandoff,
            &["success-b", "success-a", "success-a"],
            Some("PASS - READY FOR REPOSITORY HANDOFF"),
        ))
        .expect("handler output");
    assert_eq!(event.signal_kind, AdaptiveRuntimeSignalKind::ReadyForOwnerQa);
    assert_eq!(event.evidence_refs, vec!["success-a".to_string(), "success-b".to_string()]);
    assert_eq!(event.diagnostic_note.as_deref(), Some("PASS - READY FOR REPOSITORY HANDOFF"));
}

#[test]
fn capability_signal_requires_nonblank_trimmed_reason() {
    for note in [None, Some(""), Some("  \n\t ")] {
        assert_eq!(
            rejection(AdaptiveSignalHandler.handle_arguments(args(SignalKind::Capability, &[], note))),
            "kind=capability requires a nonblank diagnostic_note explaining the concrete limitation at the current model/effort and why stronger model capability is required"
        );
    }
    let event = AdaptiveSignalHandler
        .handle_arguments(args(SignalKind::Capability, &[], Some("  needs deeper reasoning \n")))
        .expect("reasoned capability");
    assert_eq!(event.signal_kind, AdaptiveRuntimeSignalKind::Capability);
    assert_eq!(event.diagnostic_note.as_deref(), Some("needs deeper reasoning"));
}

#[test]
fn complexity_signal_carries_only_its_class() {
    let mut a = args(SignalKind::Complexity, &[], None);
    a.complexity = Some(report(7));
    let event = AdaptiveSignalHandler.handle_arguments(a).expect("complexity");
    assert_eq!(event.signal_kind, AdaptiveRuntimeSignalKind::Complexity);
    assert_eq!(event.diagnostic_note.as_deref(), Some("standard"));
    assert!(event.evidence_refs.is_empty());

    let mut with_note = args(SignalKind::Complexity, &[], Some("context"));
    with_note.complexity = Some(report(1));
    assert_eq!(
        rejection(AdaptiveSignalHandler.handle_arguments(with_note)),
        "kind=complexity accepts only the structured complexity object; evidence_refs and diagnostic_note are not authoritative for reconnaissance"
    );
    let mut with_refs = args(SignalKind::Complexity, &["e"], None);
    with_refs.complexity = Some(report(1));
    assert!(AdaptiveSignalHandler.handle_arguments(with_refs).is_err());
    assert_eq!(
        rejection(AdaptiveSignalHandler.handle_arguments(args(SignalKind::Complexity, &[], None))),
        "kind=complexity requires the complete structured complexity object"
    );
    let mut misplaced = args(SignalKind::ReadyForValidation, &[], None);
    misplaced.complexity = Some(report(1));
    assert_eq!(
        rejection(AdaptiveSignalHandler.handle_arguments(misplaced)),
        "the complexity object is only valid for kind=complexity"
    );
}

#[test]
fn handler_complexity_names_follow_the_score() {
    assert_eq!(classify_complexity(&report(0)), "routine");
    assert_eq!(classify_complexity(&report(11)), "standard");
    let mut complex = report(6);
    complex.public_api_or_data_model = true;
    complex.broad_test_surface = true;
    assert_eq!(classify_complexity(&complex), "complex");
    let all = ComplexityReport {
        estimated_files: 20,
        cross_module: true,
        public_api_or_data_model: true,
        persistent_state_or_serialization: true,
        concurrency_or_async: true,
        build_release_or_toolchain: true,
        uncertain_root_cause: true,
        broad_test_surface: true,
    };
    assert_eq!(classify_complexity(&all), "architectural");
}

#[test]
fn workflow_kinds_map_to_their_runtime_kinds() {
    for (kind, expected) in [
        (SignalKind::ReadyForValidation, AdaptiveRuntimeSignalKind::ReadyForValidation),
        (SignalKind::RepairRequired, AdaptiveRuntimeSignalKind::RepairRequired),
        (SignalKind::ReadyForOwnerQa, AdaptiveRuntimeSignalKind::ReadyForOwnerQa),
        (SignalKind::ReadyForRepositoryHandoff, AdaptiveRuntimeSignalKind::ReadyForOwnerQa),
    ] {
        let event = AdaptiveSignalHandler.handle_arguments(args(kind, &[], None)).expect("signal");
        assert_eq!(event.signal_kind, expected);
        assert_eq!(event.diagnostic_note, None);
    }
}

#[test]
fn tool_parameters_offer_every_kind_and_the_complete_complexity_object() {
    let ToolSpec::Function(spec) = AdaptiveSignalHandler.spec();
    let p = spec.parameters;
    assert_eq!(
        p.kind_values,
        vec![
            "complexity",
            "capability",
            "ready_for_validation",
            "repair_required",
            "ready_for_owner_qa",
            "ready_for_repository_handoff"
        ]
    );
    assert_eq!(p.required, vec!["kind".to_string()]);
    assert!(!p.additional_properties);
    let names: Vec<&str> = p.complexity_fields.iter().map(|f| f.name.as_str()).collect();
    assert_eq!(
        names,
        vec![
            "estimated_files",
            "cross_module",
            "public_api_or_data_model",
            "persistent_state_or_serialization",
            "concurrency_or_async",
            "build_release_or_toolchain",
            "uncertain_root_cause",
            "broad_test_surface"
        ]
    );
    assert_eq!(p.complexity_fields[0].field_type, codexdd_adaptive::signal_handler::FieldType::Integer);
    assert!(p.kind_description.contains("READY_FOR_OWNER_QA hard terminal"));
    assert!(p.diagnostic_note_description.starts_with("Required and nonblank for kind=capability"));
    assert_eq!(spec.output_status_values, vec!["request_emitted".to_string()]);
}
