//! The adaptive slice of the chat widget: the facts its adaptive decisions
//! read, and the outbox of events through which the surrounding application
//! persists state, switches routes, shows messages and submits turns.
use vstd::prelude::*;

use crate::controller::ADAPTIVE_UNFINISHED_TURN_THRESHOLD;
use crate::effort::{AdaptiveEffortState, EffortView, ReasoningEffort};
use crate::evidence::{ADAPTIVE_FAILURE_PRESSURE_THRESHOLD, ThreadId, failure_count};
use crate::policy::{AdaptiveEffort, AdaptiveFailureKind, AdaptiveFamily, AdaptiveOutcome};
use crate::text::{append, append_decimal, decimal, is_blank, string_from, trim};
use crate::worker::{AdaptiveWorkerRole, AdaptiveWorkflowTerminal, opt_str_view};

verus! {

/// Lifecycle of the thread's current turn.
#[derive(Clone, Debug, PartialEq, Eq)]
pub struct TurnLifecycle {
    pub agent_turn_running: bool,
    pub last_turn_id: Option<String>,
}

#[derive(Clone, Copy, Debug, PartialEq, Eq, Structural)]
pub enum ThreadWorkflowStateOperation {
    Clear,
    SetReadyForOwnerQa,
}

/// An effect requested from the surrounding application, in order.
#[derive(Clone, Debug, PartialEq, Eq)]
pub enum AppEvent {
    /// Persist this snapshot as the thread's adaptive state.
    UpdateAdaptiveEffortState(AdaptiveEffortState),
    UpdateModel(String),
    UpdateReasoningEffort(Option<ReasoningEffort>),
    PersistWorkflowState {
        thread_id: ThreadId,
        operation: ThreadWorkflowStateOperation,
        source_turn_id: Option<String>,
    },
    InfoMessage(String),
    ErrorMessage(String),
    /// Submit this text as the next user turn.
    SubmitUserMessage(String),
}

pub enum EventView {
    UpdateAdaptiveEffortState(EffortView),
    UpdateModel(Seq<char>),
    UpdateReasoningEffort(Option<ReasoningEffort>),
    PersistWorkflowState {
        thread_id: ThreadId,
        operation: ThreadWorkflowStateOperation,
        source_turn_id: Option<Seq<char>>,
    },
    InfoMessage(Seq<char>),
    ErrorMessage(Seq<char>),
    SubmitUserMessage(Seq<char>),
}

impl View for AppEvent {
    type V = EventView;

    open spec fn view(&self) -> EventView {
        match self {
            AppEvent::UpdateAdaptiveEffortState(s) => EventView::UpdateAdaptiveEffortState(s@),
            AppEvent::UpdateModel(m) => EventView::UpdateModel(m@),
            AppEvent::UpdateReasoningEffort(e) => EventView::UpdateReasoningEffort(*e),
            AppEvent::PersistWorkflowState { thread_id, operation, source_turn_id } => {
                EventView::PersistWorkflowState {
                    thread_id: *thread_id,
                    operation: *operation,
                    source_turn_id: opt_str_view(*source_turn_id),
                }
            },
            AppEvent::InfoMessage(m) => EventView::InfoMessage(m@),
            AppEvent::ErrorMessage(m) => EventView::ErrorMessage(m@),
            AppEvent::SubmitUserMessage(m) => EventView::SubmitUserMessage(m@),
        }
    }
}

/// The adaptive slice of the chat widget.
#[derive(Clone, Debug, PartialEq, Eq)]
pub struct ChatWidget {
    pub thread_id: Option<ThreadId>,
    pub turn_lifecycle: TurnLifecycle,
    pub adaptive_effort: AdaptiveEffortState,
    /// Model of the effective session configuration.
    pub current_model: String,
    /// Reasoning effort of the effective session configuration.
    pub effective_reasoning_effort: Option<ReasoningEffort>,
    /// Whether the bottom pane shows a running task.
    pub task_running: bool,
    /// Whether a user turn is pending or running.
    pub user_turn_pending_or_running: bool,
    /// Whether user messages are queued behind the current turn.
    pub queued_follow_up_messages: bool,
    /// Compact codexdd build identity shown in the status.
    pub codexdd_identity: String,
    /// Requested effects, oldest first.
    pub events: Vec<AppEvent>,
}

pub struct ChatView {
    pub thread_id: Option<ThreadId>,
    pub agent_turn_running: bool,
    pub last_turn_id: Option<Seq<char>>,
    pub adaptive: EffortView,
    pub current_model: Seq<char>,
    pub effective_reasoning_effort: Option<ReasoningEffort>,
    pub task_running: bool,
    pub user_turn_pending_or_running: bool,
    pub queued_follow_up_messages: bool,
    pub codexdd_identity: Seq<char>,
    pub events: Seq<EventView>,
}

impl View for ChatWidget {
    type V = ChatView;

    open spec fn view(&self) -> ChatView {
        ChatView {
            thread_id: self.thread_id,
            agent_turn_running: self.turn_lifecycle.agent_turn_running,
            last_turn_id: opt_str_view(self.turn_lifecycle.last_turn_id),
            adaptive: self.adaptive_effort@,
            current_model: self.current_model@,
            effective_reasoning_effort: self.effective_reasoning_effort,
            task_running: self.task_running,
            user_turn_pending_or_running: self.user_turn_pending_or_running,
            queued_follow_up_messages: self.queued_follow_up_messages,
            codexdd_identity: self.codexdd_identity@,
            events: self.events@.map_values(|e: AppEvent| e@),
        }
    }
}

pub open spec fn with_adaptive(c: ChatView, a: EffortView) -> ChatView {
    ChatView { adaptive: a, ..c }
}

pub open spec fn emit(c: ChatView, e: EventView) -> ChatView {
    ChatView { events: c.events.push(e), ..c }
}

/// The thread's adaptive state handed to the application to persist.
pub open spec fn saved(c: ChatView) -> ChatView {
    emit(c, EventView::UpdateAdaptiveEffortState(c.adaptive))
}

pub open spec fn yes_no(b: bool) -> Seq<char> {
    if b {
        "yes"@
    } else {
        "no"@
    }
}

pub open spec fn family_label(f: Option<AdaptiveFamily>) -> Seq<char> {
    match f {
        Some(AdaptiveFamily::Luna) => "Luna"@,
        Some(AdaptiveFamily::Terra) => "Terra"@,
        Some(AdaptiveFamily::Sol) => "Sol"@,
        Some(AdaptiveFamily::Astra) => "Astra"@,
        None => "-"@,
    }
}

/// The effort's name, as `Debug` and the status write it.
pub open spec fn effort_name(e: AdaptiveEffort) -> Seq<char> {
    match e {
        AdaptiveEffort::Low => "Low"@,
        AdaptiveEffort::Medium => "Medium"@,
        AdaptiveEffort::High => "High"@,
        AdaptiveEffort::XHigh => "XHigh"@,
        AdaptiveEffort::Max => "Max"@,
    }
}

pub open spec fn effort_label(e: Option<AdaptiveEffort>) -> Seq<char> {
    match e {
        Some(e) => effort_name(e),
        None => "-"@,
    }
}

pub open spec fn outcome_label(o: Option<AdaptiveOutcome>) -> Seq<char> {
    match o {
        Some(AdaptiveOutcome::Unknown) => "UNKNOWN"@,
        Some(AdaptiveOutcome::UserInterrupted) => "USER_INTERRUPTED"@,
        Some(AdaptiveOutcome::ReadyForOwnerQa) => "READY_FOR_OWNER_QA"@,
        None => "None"@,
    }
}

pub open spec fn failure_label(k: Option<AdaptiveFailureKind>) -> Seq<char> {
    match k {
        Some(AdaptiveFailureKind::Capability) => "CAPABILITY"@,
        Some(AdaptiveFailureKind::TransientInfrastructure) => "TRANSIENT_INFRASTRUCTURE"@,
        Some(AdaptiveFailureKind::Authentication) => "AUTHENTICATION"@,
        Some(AdaptiveFailureKind::Quota) => "QUOTA"@,
        Some(AdaptiveFailureKind::Environment) => "ENVIRONMENT"@,
        Some(AdaptiveFailureKind::Permission) => "PERMISSION"@,
        Some(AdaptiveFailureKind::Dependency) => "DEPENDENCY"@,
        Some(AdaptiveFailureKind::ModelUnavailable) => "MODEL_UNAVAILABLE"@,
        Some(AdaptiveFailureKind::OwnerDecision) => "OWNER_DECISION"@,
        Some(AdaptiveFailureKind::AuthorizationOrScope) => "AUTHORIZATION_OR_SCOPE"@,
        Some(AdaptiveFailureKind::UserInterrupted) => "USER_INTERRUPTED"@,
        Some(AdaptiveFailureKind::ReadyForOwnerQa) => "READY_FOR_OWNER_QA"@,
        Some(AdaptiveFailureKind::Unknown) => "UNKNOWN"@,
        None => "None"@,
    }
}

pub open spec fn role_label(r: AdaptiveWorkerRole) -> Seq<char> {
    match r {
        AdaptiveWorkerRole::Unspecified => "Unspecified"@,
        AdaptiveWorkerRole::Implementation => "Implementation"@,
        AdaptiveWorkerRole::Validation => "Validation"@,
        AdaptiveWorkerRole::Repair => "Repair"@,
    }
}

pub open spec fn terminal_label(t: Option<AdaptiveWorkflowTerminal>) -> Seq<char> {
    match t {
        Some(AdaptiveWorkflowTerminal::ReadyForValidation) => "READY_FOR_VALIDATION"@,
        Some(AdaptiveWorkflowTerminal::RepairRequired) => "REPAIR_REQUIRED"@,
        Some(AdaptiveWorkflowTerminal::ReadyForOwnerQa) => "READY_FOR_OWNER_QA"@,
        Some(AdaptiveWorkflowTerminal::Blocked) => "BLOCKED"@,
        None => "None"@,
    }
}

/// The Worker scope shown in the status: the scope unless missing or blank.
pub open spec fn scope_label(scope: Option<Seq<char>>) -> Seq<char> {
    match scope {
        Some(s) => if trim(s).len() == 0 {
            "None"@
        } else {
            s
        },
        None => "None"@,
    }
}

/// A Worker is bound when it has a real role and a non-blank scope.
pub open spec fn worker_is_bound(a: EffortView) -> bool {
    a.worker_context.role != AdaptiveWorkerRole::Unspecified && match a.worker_context.authorized_scope {
        Some(s) => trim(s).len() > 0,
        None => false,
    }
}

pub open spec fn binding_label(a: EffortView) -> Seq<char> {
    if worker_is_bound(a) {
        "Bound"@
    } else if a.worker_assignment_locked {
        "Locked unbound"@
    } else {
        "Awaiting first assignment"@
    }
}

/// Native failure pressure of the current turn.
pub open spec fn current_failure_pressure(c: ChatView) -> nat {
    match (c.thread_id, c.last_turn_id) {
        (Some(t), Some(turn)) => failure_count(c.adaptive.evidence_registry, t, turn),
        _ => 0,
    }
}

/// The adaptive status report.
pub open spec fn spec_status_text(c: ChatView) -> Seq<char> {
    let a = c.adaptive;
    "Adaptive Effort\n  codexdd: "@ + c.codexdd_identity + "\n  Enabled: "@ + yes_no(a.enabled)
        + "\n  Preference: "@ + family_label(a.starting_family) + "\n  Current: "@ + family_label(
        a.current_family,
    ) + " "@ + effort_label(a.current_effort) + "\n  Attempt: "@ + decimal(a.attempt_number as nat)
        + "\n  Failure pressure: "@ + decimal(current_failure_pressure(c)) + "/"@ + decimal(
        ADAPTIVE_FAILURE_PRESSURE_THRESHOLD as nat,
    ) + "\n  Unfinished pressure: "@ + decimal(a.unfinished_turn_pressure as nat) + "/"@ + decimal(
        ADAPTIVE_UNFINISHED_TURN_THRESHOLD as nat,
    ) + "\n  Paused: "@ + yes_no(a.paused_by_user) + "\n  Last outcome: "@ + outcome_label(
        a.last_outcome,
    ) + "\n  Last failure: "@ + failure_label(a.last_failure_kind) + "\n  Worker role: "@
        + role_label(a.worker_context.role) + "\n  Worker scope: "@ + scope_label(
        a.worker_context.authorized_scope,
    ) + "\n  Worker binding: "@ + binding_label(a) + "\n  Workflow terminal: "@ + terminal_label(
        a.workflow_terminal,
    )
}

fn yes_no_str(b: bool) -> (s: &'static str)
    ensures
        s@ == yes_no(b),
{
    if b {
        "yes"
    } else {
        "no"
    }
}

fn family_str(f: Option<AdaptiveFamily>) -> (s: &'static str)
    ensures
        s@ == family_label(f),
{
    match f {
        Some(AdaptiveFamily::Luna) => "Luna",
        Some(AdaptiveFamily::Terra) => "Terra",
        Some(AdaptiveFamily::Sol) => "Sol",
        Some(AdaptiveFamily::Astra) => "Astra",
        None => "-",
    }
}

pub fn effort_str(e: AdaptiveEffort) -> (s: &'static str)
    ensures
        s@ == effort_name(e),
{
    match e {
        AdaptiveEffort::Low => "Low",
        AdaptiveEffort::Medium => "Medium",
        AdaptiveEffort::High => "High",
        AdaptiveEffort::XHigh => "XHigh",
        AdaptiveEffort::Max => "Max",
    }
}

fn outcome_str(o: Option<AdaptiveOutcome>) -> (s: &'static str)
    ensures
        s@ == outcome_label(o),
{
    match o {
        Some(AdaptiveOutcome::Unknown) => "UNKNOWN",
        Some(AdaptiveOutcome::UserInterrupted) => "USER_INTERRUPTED",
        Some(AdaptiveOutcome::ReadyForOwnerQa) => "READY_FOR_OWNER_QA",
        None => "None",
    }
}

fn failure_str(k: Option<AdaptiveFailureKind>) -> (s: &'static str)
    ensures
        s@ == failure_label(k),
{
    match k {
        Some(AdaptiveFailureKind::Capability) => "CAPABILITY",
        Some(AdaptiveFailureKind::TransientInfrastructure) => "TRANSIENT_INFRASTRUCTURE",
        Some(AdaptiveFailureKind::Authentication) => "AUTHENTICATION",
        Some(AdaptiveFailureKind::Quota) => "QUOTA",
        Some(AdaptiveFailureKind::Environment) => "ENVIRONMENT",
        Some(AdaptiveFailureKind::Permission) => "PERMISSION",
        Some(AdaptiveFailureKind::Dependency) => "DEPENDENCY",
        Some(AdaptiveFailureKind::ModelUnavailable) => "MODEL_UNAVAILABLE",
        Some(AdaptiveFailureKind::OwnerDecision) => "OWNER_DECISION",
        Some(AdaptiveFailureKind::AuthorizationOrScope) => "AUTHORIZATION_OR_SCOPE",
        Some(AdaptiveFailureKind::UserInterrupted) => "USER_INTERRUPTED",
        Some(AdaptiveFailureKind::ReadyForOwnerQa) => "READY_FOR_OWNER_QA",
        Some(AdaptiveFailureKind::Unknown) => "UNKNOWN",
        None => "None",
    }
}

fn role_str(r: AdaptiveWorkerRole) -> (s: &'static str)
    ensures
        s@ == role_label(r),
{
    match r {
        AdaptiveWorkerRole::Unspecified => "Unspecified",
        AdaptiveWorkerRole::Implementation => "Implementation",
        AdaptiveWorkerRole::Validation => "Validation",
        AdaptiveWorkerRole::Repair => "Repair",
    }
}

fn terminal_str(t: Option<AdaptiveWorkflowTerminal>) -> (s: &'static str)
    ensures
        s@ == terminal_label(t),
{
    match t {
        Some(AdaptiveWorkflowTerminal::ReadyForValidation) => "READY_FOR_VALIDATION",
        Some(AdaptiveWorkflowTerminal::RepairRequired) => "REPAIR_REQUIRED",
        Some(AdaptiveWorkflowTerminal::ReadyForOwnerQa) => "READY_FOR_OWNER_QA",
        Some(AdaptiveWorkflowTerminal::Blocked) => "BLOCKED",
        None => "None",
    }
}

impl ChatWidget {
    pub fn thread_id(&self) -> (t: Option<ThreadId>)
        ensures
            t == self.thread_id,
    {
        self.thread_id
    }

    pub fn save_adaptive_effort_for_current_thread(&mut self)
        ensures
            final(self)@ == saved(old(self)@),
    {
        let snapshot = self.adaptive_effort.duplicate();
        self.events.push(AppEvent::UpdateAdaptiveEffortState(snapshot));
        assert(self@.events =~= old(self)@.events.push(
            EventView::UpdateAdaptiveEffortState(old(self)@.adaptive),
        ));
    }

    pub fn push_event(&mut self, event: AppEvent)
        ensures
            final(self)@ == emit(old(self)@, event@),
    {
        self.events.push(event);
        assert(self@.events =~= old(self)@.events.push(event@));
    }

    pub fn add_info_message(&mut self, message: String)
        ensures
            final(self)@ == emit(old(self)@, EventView::InfoMessage(message@)),
    {
        self.push_event(AppEvent::InfoMessage(message));
    }

    pub fn add_error_message(&mut self, message: String)
        ensures
            final(self)@ == emit(old(self)@, EventView::ErrorMessage(message@)),
    {
        self.push_event(AppEvent::ErrorMessage(message));
    }

    pub fn adaptive_effort_status_text(&self) -> (text: String)
        ensures
            text@ == spec_status_text(self@),
    {
        let state = &self.adaptive_effort;
        let failure_pressure: usize = match (&self.thread_id, &self.turn_lifecycle.last_turn_id) {
            (Some(thread_id), Some(source_turn_id)) => state.evidence_registry.failure_pressure_for_turn(
                *thread_id,
                source_turn_id.as_str(),
            ),
            _ => 0,
        };
        let scope: &str = match &state.worker_context.authorized_scope {
            Some(s) => if is_blank(s.as_str()) {
                "None"
            } else {
                s.as_str()
            },
            None => "None",
        };
        let bound = state.worker_context.role != AdaptiveWorkerRole::Unspecified && match &state.worker_context.authorized_scope {
            Some(s) => !is_blank(s.as_str()),
            None => false,
        };
        let binding = if bound {
            "Bound"
        } else if state.worker_assignment_locked {
            "Locked unbound"
        } else {
            "Awaiting first assignment"
        };
        let mut text = string_from("Adaptive Effort\n  codexdd: ");
        append(&mut text, self.codexdd_identity.as_str());
        append(&mut text, "\n  Enabled: ");
        append(&mut text, yes_no_str(state.enabled));
        append(&mut text, "\n  Preference: ");
        append(&mut text, family_str(state.starting_family));
        append(&mut text, "\n  Current: ");
        append(&mut text, family_str(state.current_family));
        append(&mut text, " ");
        match state.current_effort {
            Some(e) => append(&mut text, effort_str(e)),
            None => append(&mut text, "-"),
        }
        append(&mut text, "\n  Attempt: ");
        append_decimal(&mut text, state.attempt_number as u64);
        append(&mut text, "\n  Failure pressure: ");
        append_decimal(&mut text, failure_pressure as u64);
        append(&mut text, "/");
        append_decimal(&mut text, ADAPTIVE_FAILURE_PRESSURE_THRESHOLD as u64);
        append(&mut text, "\n  Unfinished pressure: ");
        append_decimal(&mut text, state.unfinished_turn_pressure as u64);
        append(&mut text, "/");
        append_decimal(&mut text, ADAPTIVE_UNFINISHED_TURN_THRESHOLD as u64);
        append(&mut text, "\n  Paused: ");
        append(&mut text, yes_no_str(state.paused_by_user));
        append(&mut text, "\n  Last outcome: ");
        append(&mut text, outcome_str(state.last_outcome));
        append(&mut text, "\n  Last failure: ");
        append(&mut text, failure_str(state.last_failure_kind));
        append(&mut text, "\n  Worker role: ");
        append(&mut text, role_str(state.worker_context.role));
        append(&mut text, "\n  Worker scope: ");
        append(&mut text, scope);
        append(&mut text, "\n  Worker binding: ");
        append(&mut text, binding);
        append(&mut text, "\n  Workflow terminal: ");
        append(&mut text, terminal_str(state.workflow_terminal));
        text
    }

    pub fn add_adaptive_status_output(&mut self)
        ensures
            final(self)@ == emit(old(self)@, EventView::InfoMessage(spec_status_text(old(self)@))),
    {
        let text = self.adaptive_effort_status_text();
        self.add_info_message(text);
    }
}

/// The end of a status text: the Worker binding line, with `label`, and the
/// workflow terminal line.
pub open spec fn binding_tail(c: ChatView, label: Seq<char>) -> Seq<char> {
    "\n  Worker binding: "@ + label + "\n  Workflow terminal: "@ + terminal_label(
        c.adaptive.workflow_terminal,
    )
}

pub open spec fn status_ends_with(c: ChatView, tail: Seq<char>) -> bool {
    let t = spec_status_text(c);
    tail.len() <= t.len() && t.subrange(t.len() - tail.len(), t.len() as int) == tail
}

/// The status reports the Worker as bound exactly when it has a real role
/// and a non-blank scope, whether or not its assignment is locked; a locked
/// Worker without such a binding is reported locked unbound, and any other
/// as awaiting its first assignment.
pub proof fn lemma_status_reports_worker_binding(c: ChatView)
    ensures
        ({
            let w = c.adaptive.worker_context;
            let bound = w.role != AdaptiveWorkerRole::Unspecified && (w.authorized_scope matches Some(
                s,
            ) && trim(s).len() > 0);
            &&& bound ==> status_ends_with(c, binding_tail(c, "Bound"@))
            &&& !bound && c.adaptive.worker_assignment_locked ==> status_ends_with(
                c,
                binding_tail(c, "Locked unbound"@),
            )
            &&& !bound && !c.adaptive.worker_assignment_locked ==> status_ends_with(
                c,
                binding_tail(c, "Awaiting first assignment"@),
            )
        }),
{
    let a = c.adaptive;
    let head = "Adaptive Effort\n  codexdd: "@ + c.codexdd_identity + "\n  Enabled: "@ + yes_no(
        a.enabled,
    ) + "\n  Preference: "@ + family_label(a.starting_family) + "\n  Current: "@ + family_label(
        a.current_family,
    ) + " "@ + effort_label(a.current_effort) + "\n  Attempt: "@ + decimal(a.attempt_number as nat)
        + "\n  Failure pressure: "@ + decimal(current_failure_pressure(c)) + "/"@ + decimal(
        ADAPTIVE_FAILURE_PRESSURE_THRESHOLD as nat,
    ) + "\n  Unfinished pressure: "@ + decimal(a.unfinished_turn_pressure as nat) + "/"@ + decimal(
        ADAPTIVE_UNFINISHED_TURN_THRESHOLD as nat,
    ) + "\n  Paused: "@ + yes_no(a.paused_by_user) + "\n  Last outcome: "@ + outcome_label(
        a.last_outcome,
    ) + "\n  Last failure: "@ + failure_label(a.last_failure_kind) + "\n  Worker role: "@
        + role_label(a.worker_context.role) + "\n  Worker scope: "@ + scope_label(
        a.worker_context.authorized_scope,
    );
    let tail = binding_tail(c, binding_label(a));
    let t = spec_status_text(c);
    assert(t =~= head + tail);
    assert(t.subrange(t.len() - tail.len(), t.len() as int) =~= tail);
}

} // verus!
