//! The model-facing tool through which a Worker reports its structured
//! adaptive outcome: argument validation and the runtime signal it emits.
use vstd::prelude::*;

use crate::complexity::{
    AdaptiveComplexityClass, AdaptiveComplexitySignals, classify_complexity as classify_signals,
    spec_classify_complexity,
};
use crate::effort::AdaptiveRuntimeSignalKind;
use crate::refs::{canonical_refs, canonicalize_refs};
use crate::text::{is_blank, string_from, trimmed};
use crate::trusted::trimmed_note;
use crate::worker::opt_str_view;

verus! {

pub const TOOL_NAME: &'static str = "report_adaptive_signal";

/// What the tool answers once the signal is emitted.
pub const SIGNAL_EMITTED_OUTPUT: &'static str = "{\"status\":\"request_emitted\"}";

pub const TOOL_DESCRIPTION: &'static str = "Report the structured adaptive outcome before ending a bound Worker turn. On the first Luna Low turn of a bound Implementation Worker, perform reconnaissance only, then report kind=complexity with the complete structured complexity object and end the turn without editing; the runtime will continue automatically at the bounded implementation floor. A capability request must include a nonblank diagnostic report explaining the concrete current-route limitation and why stronger model capability is required; reasonless capability requests are rejected. When the assigned role is complete, report its workflow terminal before the final answer: Implementation/Repair completion uses ready_for_validation; a Validation/Review with green objective validation, including a project verdict such as PASS - READY FOR REPOSITORY HANDOFF, uses ready_for_repository_handoff or ready_for_owner_qa with successful native evidence refs; an evidence-backed validation blocker uses repair_required. Do not report a workflow terminal while authorized work remains. Final-answer prose is non-authoritative and is not parsed by the runtime. Runtime validation occurs at the current turn's terminal boundary.";

pub const KIND_DESCRIPTION: &'static str = "The trusted adaptive fact to report. `capability` requests additional compute and therefore requires a diagnostic_note explaining the concrete capability limitation at the current route and why stronger model capability is required. A green Validation/Review result such as PASS - READY FOR REPOSITORY HANDOFF must use ready_for_repository_handoff (or ready_for_owner_qa); both map to the READY_FOR_OWNER_QA hard terminal.";

pub const EVIDENCE_REFS_DESCRIPTION: &'static str = "Native completed tool/result IDs supporting a workflow terminal. Green Validation/Review completion requires successful native evidence refs; repair_required requires failing native evidence refs.";

pub const DIAGNOSTIC_NOTE_DESCRIPTION: &'static str = "Required and nonblank for kind=capability: explain the concrete limitation encountered at the current model/effort and why stronger model capability is warranted. Optional non-authoritative context for workflow-terminal signals.";

/// The signal kind a caller may report.
#[derive(Clone, Copy, Debug, PartialEq, Eq, Structural)]
pub enum SignalKind {
    Complexity,
    Capability,
    ReadyForValidation,
    RepairRequired,
    ReadyForOwnerQa,
    ReadyForRepositoryHandoff,
}

/// The structured reconnaissance report of a complexity signal.
#[derive(Clone, Copy, Debug, PartialEq, Eq, Structural)]
pub struct ComplexityReport {
    pub estimated_files: u16,
    pub cross_module: bool,
    pub public_api_or_data_model: bool,
    pub persistent_state_or_serialization: bool,
    pub concurrency_or_async: bool,
    pub build_release_or_toolchain: bool,
    pub uncertain_root_cause: bool,
    pub broad_test_surface: bool,
}

/// The tool's arguments, once parsed; nothing else is accepted.
#[derive(Clone, Debug, PartialEq, Eq)]
pub struct AdaptiveSignalArgs {
    pub kind: SignalKind,
    pub complexity: Option<ComplexityReport>,
    pub evidence_refs: Vec<String>,
    pub diagnostic_note: Option<String>,
}

pub struct ArgsView {
    pub kind: SignalKind,
    pub complexity: Option<ComplexityReport>,
    pub evidence_refs: Seq<Seq<char>>,
    pub diagnostic_note: Option<Seq<char>>,
}

impl View for AdaptiveSignalArgs {
    type V = ArgsView;

    open spec fn view(&self) -> ArgsView {
        ArgsView {
            kind: self.kind,
            complexity: self.complexity,
            evidence_refs: self.evidence_refs.deep_view(),
            diagnostic_note: opt_str_view(self.diagnostic_note),
        }
    }
}

/// The runtime signal emitted for the caller's active turn.
#[derive(Clone, Debug, PartialEq, Eq)]
pub struct AdaptiveRuntimeSignalEvent {
    pub signal_kind: AdaptiveRuntimeSignalKind,
    pub evidence_refs: Vec<String>,
    pub diagnostic_note: Option<String>,
}

pub struct SignalEventView {
    pub signal_kind: AdaptiveRuntimeSignalKind,
    pub evidence_refs: Seq<Seq<char>>,
    pub diagnostic_note: Option<Seq<char>>,
}

impl View for AdaptiveRuntimeSignalEvent {
    type V = SignalEventView;

    open spec fn view(&self) -> SignalEventView {
        SignalEventView {
            signal_kind: self.signal_kind,
            evidence_refs: self.evidence_refs.deep_view(),
            diagnostic_note: opt_str_view(self.diagnostic_note),
        }
    }
}

/// An error answered to the model.
#[derive(Clone, Debug, PartialEq, Eq)]
pub enum FunctionCallError {
    RespondToModel(String),
}

/// Type of a field of the structured complexity object.
#[derive(Clone, Copy, Debug, PartialEq, Eq, Structural)]
pub enum FieldType {
    Integer,
    Boolean,
}

/// One field of the structured complexity object; every field is required
/// and no other field is allowed.
#[derive(Clone, Debug, PartialEq, Eq)]
pub struct ComplexityField {
    pub name: String,
    pub field_type: FieldType,
    pub description: String,
}

/// The tool's parameters: `kind` (one of `kind_values`, the only required
/// parameter), the `complexity` object, `evidence_refs` (a list of strings)
/// and `diagnostic_note` (a string); no other parameter is allowed.
#[derive(Clone, Debug, PartialEq, Eq)]
pub struct ToolParameters {
    pub kind_values: Vec<String>,
    pub kind_description: String,
    pub complexity_fields: Vec<ComplexityField>,
    pub evidence_refs_description: String,
    pub diagnostic_note_description: String,
    pub required: Vec<String>,
    pub additional_properties: bool,
}

/// The function tool as offered to the model. Its output is an object whose
/// only, required `status` is one of `output_status_values`.
#[derive(Clone, Debug, PartialEq, Eq)]
pub struct FunctionToolSpec {
    pub name: String,
    pub description: String,
    pub strict: bool,
    pub parameters: ToolParameters,
    pub output_status_values: Vec<String>,
}

pub struct FieldView {
    pub name: Seq<char>,
    pub field_type: FieldType,
    pub description: Seq<char>,
}

impl View for ComplexityField {
    type V = FieldView;

    open spec fn view(&self) -> FieldView {
        FieldView { name: self.name@, field_type: self.field_type, description: self.description@ }
    }
}

pub struct ParametersView {
    pub kind_values: Seq<Seq<char>>,
    pub kind_description: Seq<char>,
    pub complexity_fields: Seq<FieldView>,
    pub evidence_refs_description: Seq<char>,
    pub diagnostic_note_description: Seq<char>,
    pub required: Seq<Seq<char>>,
    pub additional_properties: bool,
}

pub struct ToolSpecView {
    pub name: Seq<char>,
    pub description: Seq<char>,
    pub strict: bool,
    pub parameters: ParametersView,
    pub output_status_values: Seq<Seq<char>>,
}

impl View for ToolSpec {
    type V = ToolSpecView;

    open spec fn view(&self) -> ToolSpecView {
        match self {
            ToolSpec::Function(f) => ToolSpecView {
                name: f.name@,
                description: f.description@,
                strict: f.strict,
                parameters: ParametersView {
                    kind_values: f.parameters.kind_values.deep_view(),
                    kind_description: f.parameters.kind_description@,
                    complexity_fields: f.parameters.complexity_fields@.map_values(
                        |c: ComplexityField| c@,
                    ),
                    evidence_refs_description: f.parameters.evidence_refs_description@,
                    diagnostic_note_description: f.parameters.diagnostic_note_description@,
                    required: f.parameters.required.deep_view(),
                    additional_properties: f.parameters.additional_properties,
                },
                output_status_values: f.output_status_values.deep_view(),
            },
        }
    }
}

pub open spec fn field_view(name: &str, field_type: FieldType, description: &str) -> FieldView {
    FieldView { name: name@, field_type, description: description@ }
}

/// The complexity object's fields, as offered to the model.
pub open spec fn spec_complexity_fields() -> Seq<FieldView> {
    seq![
        field_view("estimated_files", FieldType::Integer, "Estimated number of files the implementation is expected to touch."),
        field_view("cross_module", FieldType::Boolean, "Work crosses module or subsystem boundaries."),
        field_view("public_api_or_data_model", FieldType::Boolean, "Work changes a public API, shared contract, schema, or data model."),
        field_view("persistent_state_or_serialization", FieldType::Boolean, "Work changes persisted state, storage, serialization, or migrations."),
        field_view("concurrency_or_async", FieldType::Boolean, "Work changes concurrency, synchronization, async behavior, or ordering."),
        field_view("build_release_or_toolchain", FieldType::Boolean, "Work changes build, release, packaging, CI, or toolchain behavior."),
        field_view("uncertain_root_cause", FieldType::Boolean, "The root cause remains uncertain after reconnaissance."),
        field_view("broad_test_surface", FieldType::Boolean, "The expected validation surface spans multiple behaviors or subsystems."),
    ]
}

/// The tool as offered to the model.
pub open spec fn spec_tool_spec() -> ToolSpecView {
    ToolSpecView {
        name: TOOL_NAME@,
        description: TOOL_DESCRIPTION@,
        strict: false,
        parameters: ParametersView {
            kind_values: seq![
                "complexity"@,
                "capability"@,
                "ready_for_validation"@,
                "repair_required"@,
                "ready_for_owner_qa"@,
                "ready_for_repository_handoff"@,
            ],
            kind_description: KIND_DESCRIPTION@,
            complexity_fields: spec_complexity_fields(),
            evidence_refs_description: EVIDENCE_REFS_DESCRIPTION@,
            diagnostic_note_description: DIAGNOSTIC_NOTE_DESCRIPTION@,
            required: seq!["kind"@],
            additional_properties: false,
        },
        output_status_values: seq!["request_emitted"@],
    }
}

fn push_string(v: &mut Vec<String>, s: &str)
    ensures
        final(v).deep_view() == old(v).deep_view().push(s@),
{
    v.push(string_from(s));
    assert(v.deep_view() =~= old(v).deep_view().push(s@));
}

fn push_field(v: &mut Vec<ComplexityField>, name: &str, field_type: FieldType, description: &str)
    ensures
        final(v)@.map_values(|c: ComplexityField| c@) == old(v)@.map_values(
            |c: ComplexityField| c@,
        ).push(field_view(name, field_type, description)),
{
    v.push(
        ComplexityField {
            name: string_from(name),
            field_type,
            description: string_from(description),
        },
    );
    assert(v@.map_values(|c: ComplexityField| c@) =~= old(v)@.map_values(
        |c: ComplexityField| c@,
    ).push(field_view(name, field_type, description)));
}

fn complexity_fields() -> (v: Vec<ComplexityField>)
    ensures
        v@.map_values(|c: ComplexityField| c@) == spec_complexity_fields(),
{
    let mut v: Vec<ComplexityField> = Vec::new();
    assert(v@.map_values(|c: ComplexityField| c@) =~= Seq::<FieldView>::empty());
    push_field(
        &mut v,
        "estimated_files",
        FieldType::Integer,
        "Estimated number of files the implementation is expected to touch.",
    );
    push_field(&mut v, "cross_module", FieldType::Boolean, "Work crosses module or subsystem boundaries.");
    push_field(
        &mut v,
        "public_api_or_data_model",
        FieldType::Boolean,
        "Work changes a public API, shared contract, schema, or data model.",
    );
    push_field(
        &mut v,
        "persistent_state_or_serialization",
        FieldType::Boolean,
        "Work changes persisted state, storage, serialization, or migrations.",
    );
    push_field(
        &mut v,
        "concurrency_or_async",
        FieldType::Boolean,
        "Work changes concurrency, synchronization, async behavior, or ordering.",
    );
    push_field(
        &mut v,
        "build_release_or_toolchain",
        FieldType::Boolean,
        "Work changes build, release, packaging, CI, or toolchain behavior.",
    );
    push_field(
        &mut v,
        "uncertain_root_cause",
        FieldType::Boolean,
        "The root cause remains uncertain after reconnaissance.",
    );
    push_field(
        &mut v,
        "broad_test_surface",
        FieldType::Boolean,
        "The expected validation surface spans multiple behaviors or subsystems.",
    );
    assert(v@.map_values(|c: ComplexityField| c@) =~= spec_complexity_fields());
    v
}

#[derive(Clone, Debug, PartialEq, Eq)]
pub enum ToolSpec {
    Function(FunctionToolSpec),
}

/// The tool that reports adaptive runtime signals.
#[derive(Clone, Copy, Debug, PartialEq, Eq, Structural)]
pub struct AdaptiveSignalHandler;

pub open spec fn report_signals(r: ComplexityReport) -> AdaptiveComplexitySignals {
    AdaptiveComplexitySignals {
        estimated_files: r.estimated_files,
        cross_module: r.cross_module,
        public_api_or_data_model: r.public_api_or_data_model,
        persistent_state_or_serialization: r.persistent_state_or_serialization,
        concurrency_or_async: r.concurrency_or_async,
        build_release_or_toolchain: r.build_release_or_toolchain,
        uncertain_root_cause: r.uncertain_root_cause,
        broad_test_surface: r.broad_test_surface,
    }
}

/// The class name a complexity signal carries.
pub open spec fn class_name(c: AdaptiveComplexityClass) -> Seq<char> {
    match c {
        AdaptiveComplexityClass::Routine => "routine"@,
        AdaptiveComplexityClass::Standard => "standard"@,
        AdaptiveComplexityClass::Complex => "complex"@,
        AdaptiveComplexityClass::Architectural => "architectural"@,
    }
}

/// Both owner-QA spellings map to the owner-QA terminal.
pub open spec fn runtime_kind(k: SignalKind) -> AdaptiveRuntimeSignalKind {
    match k {
        SignalKind::Complexity => AdaptiveRuntimeSignalKind::Complexity,
        SignalKind::Capability => AdaptiveRuntimeSignalKind::Capability,
        SignalKind::ReadyForValidation => AdaptiveRuntimeSignalKind::ReadyForValidation,
        SignalKind::RepairRequired => AdaptiveRuntimeSignalKind::RepairRequired,
        SignalKind::ReadyForOwnerQa => AdaptiveRuntimeSignalKind::ReadyForOwnerQa,
        SignalKind::ReadyForRepositoryHandoff => AdaptiveRuntimeSignalKind::ReadyForOwnerQa,
    }
}

pub open spec fn complexity_extras_message() -> Seq<char> {
    "kind=complexity accepts only the structured complexity object; evidence_refs and diagnostic_note are not authoritative for reconnaissance"@
}

pub open spec fn complexity_missing_message() -> Seq<char> {
    "kind=complexity requires the complete structured complexity object"@
}

pub open spec fn complexity_misplaced_message() -> Seq<char> {
    "the complexity object is only valid for kind=complexity"@
}

pub open spec fn capability_reason_message() -> Seq<char> {
    "kind=capability requires a nonblank diagnostic_note explaining the concrete limitation at the current model/effort and why stronger model capability is required"@
}

pub open spec fn signal_event(
    kind: AdaptiveRuntimeSignalKind,
    refs: Seq<Seq<char>>,
    note: Option<Seq<char>>,
) -> SignalEventView {
    SignalEventView { signal_kind: kind, evidence_refs: refs, diagnostic_note: note }
}

/// The signal the arguments report, or the error answered to the model. The
/// evidence references are canonical; a complexity report carries only its
/// class name; a capability report carries its trimmed, non-blank reason.
pub open spec fn spec_handle(a: ArgsView) -> Result<SignalEventView, Seq<char>> {
    let refs = canonical_refs(a.evidence_refs);
    match (a.kind, a.complexity) {
        (SignalKind::Complexity, Some(r)) => if refs.len() > 0 || a.diagnostic_note is Some {
            Err(complexity_extras_message())
        } else {
            Ok(
                signal_event(
                    AdaptiveRuntimeSignalKind::Complexity,
                    refs,
                    Some(class_name(spec_classify_complexity(report_signals(r)))),
                ),
            )
        },
        (SignalKind::Complexity, None) => Err(complexity_missing_message()),
        (_, Some(_)) => Err(complexity_misplaced_message()),
        (k, None) => if k == SignalKind::Capability {
            match trimmed_note(a.diagnostic_note) {
                Some(n) => Ok(signal_event(AdaptiveRuntimeSignalKind::Capability, refs, Some(n))),
                None => Err(capability_reason_message()),
            }
        } else {
            Ok(signal_event(runtime_kind(k), refs, a.diagnostic_note))
        },
    }
}

pub open spec fn handle_view(r: Result<AdaptiveRuntimeSignalEvent, FunctionCallError>) -> Result<
    SignalEventView,
    Seq<char>,
> {
    match r {
        Ok(e) => Ok(e@),
        Err(FunctionCallError::RespondToModel(m)) => Err(m@),
    }
}

/// What the tool emits is never weaker than what it accepts: a capability
/// signal always carries a trimmed, non-blank reason; a complexity signal
/// carries only its class; and every emitted reference list is strictly
/// increasing and holds exactly the references given.
pub proof fn lemma_emitted_signal_is_well_formed(a: ArgsView)
    requires
        spec_handle(a) is Ok,
    ensures
        ({
            let e = spec_handle(a)->Ok_0;
            &&& e.signal_kind == AdaptiveRuntimeSignalKind::Capability ==> e.diagnostic_note
                is Some && e.diagnostic_note->0.len() > 0 && e.diagnostic_note->0 == crate::text::trim(
                a.diagnostic_note->0,
            )
            &&& e.signal_kind == AdaptiveRuntimeSignalKind::Complexity ==> a.complexity is Some
                && e.evidence_refs.len() == 0 && e.diagnostic_note == Some(
                class_name(spec_classify_complexity(report_signals(a.complexity->0))),
            )
            &&& crate::refs::strictly_sorted(e.evidence_refs)
            &&& forall|y: Seq<char>| #[trigger] e.evidence_refs.contains(y) <==> a.evidence_refs.contains(y)
        }),
{
    crate::refs::lemma_canonical_refs(a.evidence_refs);
}

impl ComplexityReport {
    pub fn signals(&self) -> (s: AdaptiveComplexitySignals)
        ensures
            s == report_signals(*self),
    {
        AdaptiveComplexitySignals {
            estimated_files: self.estimated_files,
            cross_module: self.cross_module,
            public_api_or_data_model: self.public_api_or_data_model,
            persistent_state_or_serialization: self.persistent_state_or_serialization,
            concurrency_or_async: self.concurrency_or_async,
            build_release_or_toolchain: self.build_release_or_toolchain,
            uncertain_root_cause: self.uncertain_root_cause,
            broad_test_surface: self.broad_test_surface,
        }
    }
}

/// The complexity class name of a reconnaissance report.
pub fn classify_complexity(report: &ComplexityReport) -> (name: &'static str)
    ensures
        name@ == class_name(spec_classify_complexity(report_signals(*report))),
{
    match classify_signals(report.signals()) {
        AdaptiveComplexityClass::Routine => "routine",
        AdaptiveComplexityClass::Standard => "standard",
        AdaptiveComplexityClass::Complex => "complex",
        AdaptiveComplexityClass::Architectural => "architectural",
    }
}

fn respond(message: &str) -> (e: FunctionCallError)
    ensures
        e == FunctionCallError::RespondToModel(e->RespondToModel_0),
        e->RespondToModel_0@ == message@,
{
    FunctionCallError::RespondToModel(string_from(message))
}

impl AdaptiveSignalHandler {
    pub fn tool_name(&self) -> (name: &'static str)
        ensures
            name@ == TOOL_NAME@,
    {
        TOOL_NAME
    }

    /// The tool is a built-in control tool of the runtime.
    pub fn is_builtin_control_tool(&self) -> (b: bool)
        ensures
            b,
    {
        true
    }

    pub fn spec(&self) -> (s: ToolSpec)
        ensures
            s@ == spec_tool_spec(),
    {
        let mut kind_values: Vec<String> = Vec::new();
        assert(kind_values.deep_view() =~= Seq::<Seq<char>>::empty());
        push_string(&mut kind_values, "complexity");
        push_string(&mut kind_values, "capability");
        push_string(&mut kind_values, "ready_for_validation");
        push_string(&mut kind_values, "repair_required");
        push_string(&mut kind_values, "ready_for_owner_qa");
        push_string(&mut kind_values, "ready_for_repository_handoff");
        let mut required: Vec<String> = Vec::new();
        assert(required.deep_view() =~= Seq::<Seq<char>>::empty());
        push_string(&mut required, "kind");
        let mut output_status_values: Vec<String> = Vec::new();
        assert(output_status_values.deep_view() =~= Seq::<Seq<char>>::empty());
        push_string(&mut output_status_values, "request_emitted");
        let s = ToolSpec::Function(
            FunctionToolSpec {
                name: string_from(TOOL_NAME),
                description: string_from(TOOL_DESCRIPTION),
                strict: false,
                parameters: ToolParameters {
                    kind_values,
                    kind_description: string_from(KIND_DESCRIPTION),
                    complexity_fields: complexity_fields(),
                    evidence_refs_description: string_from(EVIDENCE_REFS_DESCRIPTION),
                    diagnostic_note_description: string_from(DIAGNOSTIC_NOTE_DESCRIPTION),
                    required,
                    additional_properties: false,
                },
                output_status_values,
            },
        );
        assert(s@.parameters.kind_values =~= spec_tool_spec().parameters.kind_values);
        assert(s@.parameters.required =~= spec_tool_spec().parameters.required);
        assert(s@.output_status_values =~= spec_tool_spec().output_status_values);
        s
    }

    /// Validates parsed arguments into the runtime signal to emit for the
    /// caller's active turn.
    pub fn handle_arguments(&self, args: AdaptiveSignalArgs) -> (r: Result<
        AdaptiveRuntimeSignalEvent,
        FunctionCallError,
    >)
        ensures
            handle_view(r) == spec_handle(args@),
    {
        let ghost a = args@;
        let evidence_refs = canonicalize_refs(args.evidence_refs);
        let complexity_class: Option<&'static str> = match (args.kind, args.complexity) {
            (SignalKind::Complexity, Some(report)) => {
                if evidence_refs.len() > 0 || args.diagnostic_note.is_some() {
                    return Err(
                        respond(
                            "kind=complexity accepts only the structured complexity object; evidence_refs and diagnostic_note are not authoritative for reconnaissance",
                        ),
                    );
                }
                Some(classify_complexity(&report))
            },
            (SignalKind::Complexity, None) => {
                return Err(
                    respond("kind=complexity requires the complete structured complexity object"),
                );
            },
            (_, Some(_)) => {
                return Err(respond("the complexity object is only valid for kind=complexity"));
            },
            (_, None) => None,
        };
        let mut diagnostic_note = args.diagnostic_note;
        if args.kind == SignalKind::Capability {
            let note = match &diagnostic_note {
                Some(n) => if is_blank(n.as_str()) {
                    None
                } else {
                    Some(trimmed(n.as_str()))
                },
                None => None,
            };
            match note {
                Some(n) => {
                    diagnostic_note = Some(n);
                },
                None => {
                    return Err(
                        respond(
                            "kind=capability requires a nonblank diagnostic_note explaining the concrete limitation at the current model/effort and why stronger model capability is required",
                        ),
                    );
                },
            }
        }
        match complexity_class {
            Some(c) => {
                diagnostic_note = Some(string_from(c));
            },
            None => {},
        }
        let signal_kind = match args.kind {
            SignalKind::Complexity => AdaptiveRuntimeSignalKind::Complexity,
            SignalKind::Capability => AdaptiveRuntimeSignalKind::Capability,
            SignalKind::ReadyForValidation => AdaptiveRuntimeSignalKind::ReadyForValidation,
            SignalKind::RepairRequired => AdaptiveRuntimeSignalKind::RepairRequired,
            SignalKind::ReadyForOwnerQa => AdaptiveRuntimeSignalKind::ReadyForOwnerQa,
            SignalKind::ReadyForRepositoryHandoff => AdaptiveRuntimeSignalKind::ReadyForOwnerQa,
        };
        Ok(AdaptiveRuntimeSignalEvent { signal_kind, evidence_refs, diagnostic_note })
    }
}

} // verus!
