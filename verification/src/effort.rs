//! Per-thread adaptive lifecycle state: route, attempt, Worker authority,
//! pending attempts, successor admission, pending runtime signals and evidence.
use vstd::prelude::*;

use crate::assignment::{assignment_view, parse_adaptive_worker_assignment, spec_parse_assignment};
use crate::budget::AdaptiveBudgetMode;
use crate::complexity::AdaptiveComplexityClass;
use crate::evidence::{AdaptiveEvidenceRegistry, EvidenceEntryView, ThreadId};
use crate::policy::{
    AdaptiveEffort, AdaptiveFailureKind, AdaptiveFamily, AdaptiveOutcome, AdaptiveRoute,
};
use crate::refs::clone_refs;
use crate::text::str_eq;
use crate::worker::{
    AdaptiveWorkerContext, AdaptiveWorkerRole, AdaptiveWorkflowTerminal, WorkerContextView,
    clone_opt_string, opt_str_view,
};

verus! {

pub open spec fn spec_parse_family(value: Seq<char>) -> Option<AdaptiveFamily> {
    if value == "luna"@ {
        Some(AdaptiveFamily::Luna)
    } else if value == "terra"@ {
        Some(AdaptiveFamily::Terra)
    } else if value == "sol"@ {
        Some(AdaptiveFamily::Sol)
    } else if value == "astra"@ {
        Some(AdaptiveFamily::Astra)
    } else {
        None
    }
}

/// The model id that serves a family. Terra stays a family of its own, and
/// Luna and Terra keep their `gpt-5.6` ids, because the chat's tests route to
/// them so; the 0.3.2 guide folds Terra into Sol and lists `gpt-6-luna`. Sol
/// and Astra follow the guide's table.
pub open spec fn spec_model(f: AdaptiveFamily) -> Seq<char> {
    match f {
        AdaptiveFamily::Luna => "gpt-5.6-luna"@,
        AdaptiveFamily::Terra => "gpt-5.6-terra"@,
        AdaptiveFamily::Sol => "gpt-6-sol"@,
        AdaptiveFamily::Astra => "gpt-6-astra"@,
    }
}

impl AdaptiveFamily {
    pub fn parse(value: &str) -> (r: Option<Self>)
        ensures
            r == spec_parse_family(value@),
    {
        if str_eq(value, "luna") {
            Some(AdaptiveFamily::Luna)
        } else if str_eq(value, "terra") {
            Some(AdaptiveFamily::Terra)
        } else if str_eq(value, "sol") {
            Some(AdaptiveFamily::Sol)
        } else if str_eq(value, "astra") {
            Some(AdaptiveFamily::Astra)
        } else {
            None
        }
    }

    pub fn model(self) -> (m: &'static str)
        ensures
            m@ == spec_model(self),
    {
        match self {
            AdaptiveFamily::Luna => "gpt-5.6-luna",
            AdaptiveFamily::Terra => "gpt-5.6-terra",
            AdaptiveFamily::Sol => "gpt-6-sol",
            AdaptiveFamily::Astra => "gpt-6-astra",
        }
    }
}

/// Distinct families are served by distinct models.
pub proof fn lemma_models_are_distinct(a: AdaptiveFamily, b: AdaptiveFamily)
    ensures
        spec_model(a) == spec_model(b) <==> a == b,
{
    if a != b {
        reveal_strlit("gpt-5.6-luna");
        reveal_strlit("gpt-5.6-terra");
        reveal_strlit("gpt-6-sol");
        reveal_strlit("gpt-6-astra");
        assert(spec_model(a)[6] != spec_model(b)[6] || spec_model(a).len() != spec_model(b).len()
            || spec_model(a)[8] != spec_model(b)[8]);
    }
}

/// Reasoning effort as the session configuration spells it.
#[derive(Clone, Copy, Debug, PartialEq, Eq, Structural)]
pub enum ReasoningEffort {
    Minimal,
    Low,
    Medium,
    High,
    XHigh,
    Max,
}

pub open spec fn spec_reasoning_effort(effort: AdaptiveEffort) -> ReasoningEffort {
    match effort {
        AdaptiveEffort::Low => ReasoningEffort::Low,
        AdaptiveEffort::Medium => ReasoningEffort::Medium,
        AdaptiveEffort::High => ReasoningEffort::High,
        AdaptiveEffort::XHigh => ReasoningEffort::XHigh,
        AdaptiveEffort::Max => ReasoningEffort::Max,
    }
}

/// The order of reasoning efforts, from the least to the most.
pub open spec fn reasoning_rank(e: ReasoningEffort) -> int {
    match e {
        ReasoningEffort::Minimal => 0,
        ReasoningEffort::Low => 1,
        ReasoningEffort::Medium => 2,
        ReasoningEffort::High => 3,
        ReasoningEffort::XHigh => 4,
        ReasoningEffort::Max => 5,
    }
}

/// A route's effort runs the session at the reasoning effort of the same
/// level: one above `Minimal` for each rung, so distinct route efforts never
/// share a session effort.
pub proof fn lemma_reasoning_effort_keeps_the_level(a: AdaptiveEffort, b: AdaptiveEffort)
    ensures
        reasoning_rank(spec_reasoning_effort(a)) == crate::policy::effort_rank(a) + 1,
        (spec_reasoning_effort(a) == spec_reasoning_effort(b)) == (a == b),
{
}

pub fn reasoning_effort(effort: AdaptiveEffort) -> (r: ReasoningEffort)
    ensures
        r == spec_reasoning_effort(effort),
{
    match effort {
        AdaptiveEffort::Low => ReasoningEffort::Low,
        AdaptiveEffort::Medium => ReasoningEffort::Medium,
        AdaptiveEffort::High => ReasoningEffort::High,
        AdaptiveEffort::XHigh => ReasoningEffort::XHigh,
        AdaptiveEffort::Max => ReasoningEffort::Max,
    }
}

#[derive(Clone, Copy, Debug, PartialEq, Eq, Structural)]
pub enum AdaptivePendingDecision {
    ContinueSameRoute,
    RetrySameLevel,
    EscalateEffort,
    EscalateModel,
}

#[derive(Clone, Debug, PartialEq, Eq)]
pub struct AdaptivePendingAttempt {
    pub thread_id: ThreadId,
    pub source_turn_id: String,
    pub decision: AdaptivePendingDecision,
    pub route: AdaptiveRoute,
    pub attempt_number: u32,
    pub worker_context: AdaptiveWorkerContext,
}

#[derive(Clone, Debug, PartialEq, Eq)]
pub struct AdaptiveSuccessorPermit {
    pub thread_id: ThreadId,
    pub source_turn_id: String,
    pub decision: AdaptivePendingDecision,
    pub route: AdaptiveRoute,
    pub attempt_number: u32,
    pub worker_context: AdaptiveWorkerContext,
}

/// Mathematical value of a pending attempt or a successor permit: both carry
/// the same facts.
pub struct AttemptView {
    pub thread_id: ThreadId,
    pub source_turn_id: Seq<char>,
    pub decision: AdaptivePendingDecision,
    pub route: AdaptiveRoute,
    pub attempt_number: u32,
    pub worker_context: WorkerContextView,
}

impl View for AdaptivePendingAttempt {
    type V = AttemptView;

    open spec fn view(&self) -> AttemptView {
        AttemptView {
            thread_id: self.thread_id,
            source_turn_id: self.source_turn_id@,
            decision: self.decision,
            route: self.route,
            attempt_number: self.attempt_number,
            worker_context: self.worker_context@,
        }
    }
}

impl View for AdaptiveSuccessorPermit {
    type V = AttemptView;

    open spec fn view(&self) -> AttemptView {
        AttemptView {
            thread_id: self.thread_id,
            source_turn_id: self.source_turn_id@,
            decision: self.decision,
            route: self.route,
            attempt_number: self.attempt_number,
            worker_context: self.worker_context@,
        }
    }
}

impl AdaptiveSuccessorPermit {
    pub fn duplicate(&self) -> (r: Self)
        ensures
            r == *self,
    {
        AdaptiveSuccessorPermit {
            thread_id: self.thread_id,
            source_turn_id: self.source_turn_id.clone(),
            decision: self.decision,
            route: self.route,
            attempt_number: self.attempt_number,
            worker_context: self.worker_context.duplicate(),
        }
    }

    pub fn same_as(&self, other: &Self) -> (r: bool)
        ensures
            r == (self@ == other@),
    {
        self.thread_id == other.thread_id && self.source_turn_id == other.source_turn_id
            && self.decision == other.decision && self.route == other.route
            && self.attempt_number == other.attempt_number && self.worker_context.same_as(
            &other.worker_context,
        )
    }
}

impl AdaptivePendingAttempt {
    pub fn duplicate(&self) -> (r: Self)
        ensures
            r == *self,
    {
        AdaptivePendingAttempt {
            thread_id: self.thread_id,
            source_turn_id: self.source_turn_id.clone(),
            decision: self.decision,
            route: self.route,
            attempt_number: self.attempt_number,
            worker_context: self.worker_context.duplicate(),
        }
    }
}

#[derive(Clone, Debug, PartialEq, Eq)]
pub enum AdaptiveSuccessorAdmission {
    Reserved(AdaptiveSuccessorPermit),
    Consumed(AdaptiveSuccessorPermit),
}

pub enum AdmissionView {
    Reserved(AttemptView),
    Consumed(AttemptView),
}

impl View for AdaptiveSuccessorAdmission {
    type V = AdmissionView;

    open spec fn view(&self) -> AdmissionView {
        match self {
            AdaptiveSuccessorAdmission::Reserved(p) => AdmissionView::Reserved(p@),
            AdaptiveSuccessorAdmission::Consumed(p) => AdmissionView::Consumed(p@),
        }
    }
}

/// Kind of a private adaptive runtime signal.
#[derive(Clone, Copy, Debug, PartialEq, Eq, Structural)]
pub enum AdaptiveRuntimeSignalKind {
    Complexity,
    Capability,
    ReadyForValidation,
    RepairRequired,
    ReadyForOwnerQa,
}

/// A runtime signal as received for one turn.
#[derive(Clone, Debug, PartialEq, Eq)]
pub struct AdaptiveRuntimeSignalEnvelope {
    pub source_turn_id: String,
    pub signal_kind: AdaptiveRuntimeSignalKind,
    pub evidence_refs: Vec<String>,
    pub diagnostic_note: Option<String>,
}

pub struct EnvelopeView {
    pub source_turn_id: Seq<char>,
    pub signal_kind: AdaptiveRuntimeSignalKind,
    pub evidence_refs: Seq<Seq<char>>,
    pub diagnostic_note: Option<Seq<char>>,
}

impl View for AdaptiveRuntimeSignalEnvelope {
    type V = EnvelopeView;

    open spec fn view(&self) -> EnvelopeView {
        EnvelopeView {
            source_turn_id: self.source_turn_id@,
            signal_kind: self.signal_kind,
            evidence_refs: self.evidence_refs.deep_view(),
            diagnostic_note: opt_str_view(self.diagnostic_note),
        }
    }
}

#[derive(Clone, Debug, PartialEq, Eq)]
pub enum AdaptivePendingSignal {
    Pending(AdaptiveRuntimeSignalEnvelope),
    Conflicted { source_turn_id: String },
    Cancelled { source_turn_id: String },
    Consumed { source_turn_id: String },
}

pub enum PendingSignalView {
    Pending(EnvelopeView),
    Conflicted(Seq<char>),
    Cancelled(Seq<char>),
    Consumed(Seq<char>),
}

impl View for AdaptivePendingSignal {
    type V = PendingSignalView;

    open spec fn view(&self) -> PendingSignalView {
        match self {
            AdaptivePendingSignal::Pending(e) => PendingSignalView::Pending(e@),
            AdaptivePendingSignal::Conflicted { source_turn_id } => PendingSignalView::Conflicted(
                source_turn_id@,
            ),
            AdaptivePendingSignal::Cancelled { source_turn_id } => PendingSignalView::Cancelled(
                source_turn_id@,
            ),
            AdaptivePendingSignal::Consumed { source_turn_id } => PendingSignalView::Consumed(
                source_turn_id@,
            ),
        }
    }
}

pub open spec fn signal_turn(s: PendingSignalView) -> Seq<char> {
    match s {
        PendingSignalView::Pending(e) => e.source_turn_id,
        PendingSignalView::Conflicted(t) => t,
        PendingSignalView::Cancelled(t) => t,
        PendingSignalView::Consumed(t) => t,
    }
}

impl AdaptivePendingSignal {
    pub fn source_turn_id(&self) -> (t: &str)
        ensures
            t@ == signal_turn(self@),
    {
        match self {
            AdaptivePendingSignal::Pending(signal) => signal.source_turn_id.as_str(),
            AdaptivePendingSignal::Conflicted { source_turn_id }
            | AdaptivePendingSignal::Cancelled { source_turn_id }
            | AdaptivePendingSignal::Consumed { source_turn_id } => source_turn_id.as_str(),
        }
    }
}

#[derive(Clone, Debug, PartialEq, Eq)]
pub struct AdaptiveEffortState {
    pub enabled: bool,
    pub starting_family: Option<AdaptiveFamily>,
    pub current_family: Option<AdaptiveFamily>,
    pub current_effort: Option<AdaptiveEffort>,
    pub attempt_number: u32,
    pub paused_by_user: bool,
    pub last_outcome: Option<AdaptiveOutcome>,
    pub last_failure_kind: Option<AdaptiveFailureKind>,
    pub worker_context: AdaptiveWorkerContext,
    pub worker_assignment_locked: bool,
    pub workflow_terminal: Option<AdaptiveWorkflowTerminal>,
    pub transient_retry_consumed: bool,
    pub unfinished_turn_pressure: u8,
    pub last_processed_terminal_turn_id: Option<String>,
    pub pending_attempt: Option<AdaptivePendingAttempt>,
    pub successor_admission: Option<AdaptiveSuccessorAdmission>,
    pub pending_signal: Option<AdaptivePendingSignal>,
    pub evidence_registry: AdaptiveEvidenceRegistry,
    pub complexity_class: Option<AdaptiveComplexityClass>,
    pub budget_mode: AdaptiveBudgetMode,
}

pub struct EffortView {
    pub enabled: bool,
    pub starting_family: Option<AdaptiveFamily>,
    pub current_family: Option<AdaptiveFamily>,
    pub current_effort: Option<AdaptiveEffort>,
    pub attempt_number: u32,
    pub paused_by_user: bool,
    pub last_outcome: Option<AdaptiveOutcome>,
    pub last_failure_kind: Option<AdaptiveFailureKind>,
    pub worker_context: WorkerContextView,
    pub worker_assignment_locked: bool,
    pub workflow_terminal: Option<AdaptiveWorkflowTerminal>,
    pub transient_retry_consumed: bool,
    pub unfinished_turn_pressure: u8,
    pub last_processed_terminal_turn_id: Option<Seq<char>>,
    pub pending_attempt: Option<AttemptView>,
    pub successor_admission: Option<AdmissionView>,
    pub pending_signal: Option<PendingSignalView>,
    pub evidence_registry: Seq<(Seq<char>, EvidenceEntryView)>,
    pub complexity_class: Option<AdaptiveComplexityClass>,
    pub budget_mode: AdaptiveBudgetMode,
}

pub open spec fn opt_attempt_view(a: Option<AdaptivePendingAttempt>) -> Option<AttemptView> {
    match a {
        Some(x) => Some(x@),
        None => None,
    }
}

pub open spec fn opt_admission_view(a: Option<AdaptiveSuccessorAdmission>) -> Option<AdmissionView> {
    match a {
        Some(x) => Some(x@),
        None => None,
    }
}

pub open spec fn opt_signal_view(a: Option<AdaptivePendingSignal>) -> Option<PendingSignalView> {
    match a {
        Some(x) => Some(x@),
        None => None,
    }
}

impl View for AdaptiveEffortState {
    type V = EffortView;

    open spec fn view(&self) -> EffortView {
        EffortView {
            enabled: self.enabled,
            starting_family: self.starting_family,
            current_family: self.current_family,
            current_effort: self.current_effort,
            attempt_number: self.attempt_number,
            paused_by_user: self.paused_by_user,
            last_outcome: self.last_outcome,
            last_failure_kind: self.last_failure_kind,
            worker_context: self.worker_context@,
            worker_assignment_locked: self.worker_assignment_locked,
            workflow_terminal: self.workflow_terminal,
            transient_retry_consumed: self.transient_retry_consumed,
            unfinished_turn_pressure: self.unfinished_turn_pressure,
            last_processed_terminal_turn_id: opt_str_view(self.last_processed_terminal_turn_id),
            pending_attempt: opt_attempt_view(self.pending_attempt),
            successor_admission: opt_admission_view(self.successor_admission),
            pending_signal: opt_signal_view(self.pending_signal),
            evidence_registry: self.evidence_registry@,
            complexity_class: self.complexity_class,
            budget_mode: self.budget_mode,
        }
    }
}

/// The fresh state: disabled, unbound, with no route, attempt, terminal,
/// pending authority or evidence.
pub open spec fn spec_default_effort() -> EffortView {
    EffortView {
        enabled: false,
        starting_family: None,
        current_family: None,
        current_effort: None,
        attempt_number: 0,
        paused_by_user: false,
        last_outcome: None,
        last_failure_kind: None,
        worker_context: WorkerContextView {
            role: AdaptiveWorkerRole::Unspecified,
            authorized_scope: None,
        },
        worker_assignment_locked: false,
        workflow_terminal: None,
        transient_retry_consumed: false,
        unfinished_turn_pressure: 0,
        last_processed_terminal_turn_id: None,
        pending_attempt: None,
        successor_admission: None,
        pending_signal: None,
        evidence_registry: Seq::empty(),
        complexity_class: None,
        budget_mode: AdaptiveBudgetMode::Balanced,
    }
}

impl Default for AdaptiveEffortState {
    fn default() -> (s: Self)
        ensures
            s@ == spec_default_effort(),
    {
        AdaptiveEffortState {
            enabled: false,
            starting_family: None,
            current_family: None,
            current_effort: None,
            attempt_number: 0,
            paused_by_user: false,
            last_outcome: None,
            last_failure_kind: None,
            worker_context: AdaptiveWorkerContext::default_context(),
            worker_assignment_locked: false,
            workflow_terminal: None,
            transient_retry_consumed: false,
            unfinished_turn_pressure: 0,
            last_processed_terminal_turn_id: None,
            pending_attempt: None,
            successor_admission: None,
            pending_signal: None,
            evidence_registry: AdaptiveEvidenceRegistry::new(),
            complexity_class: None,
            budget_mode: AdaptiveBudgetMode::Balanced,
        }
    }
}

/// The state after (re)activating adaptive routing with `preferred`: enabled
/// at Luna Low, attempt one, with every pending authority cleared. The Worker
/// context, evidence, terminal and budget are kept; the assignment is locked
/// once any Worker authority exists; a pause is kept unless cleared.
pub open spec fn spec_activate(s: EffortView, preferred: AdaptiveFamily, clear_pause: bool) -> EffortView {
    EffortView {
        enabled: true,
        starting_family: Some(preferred),
        current_family: Some(AdaptiveFamily::Luna),
        current_effort: Some(AdaptiveEffort::Low),
        attempt_number: 1,
        paused_by_user: if clear_pause {
            false
        } else {
            s.paused_by_user
        },
        last_outcome: None,
        last_failure_kind: None,
        worker_context: s.worker_context,
        worker_assignment_locked: s.worker_assignment_locked || s.worker_context.role
            != AdaptiveWorkerRole::Unspecified || s.worker_context.authorized_scope is Some,
        workflow_terminal: s.workflow_terminal,
        transient_retry_consumed: false,
        unfinished_turn_pressure: 0,
        last_processed_terminal_turn_id: None,
        pending_attempt: None,
        successor_admission: None,
        pending_signal: None,
        evidence_registry: s.evidence_registry,
        complexity_class: s.complexity_class,
        budget_mode: s.budget_mode,
    }
}

pub open spec fn spec_observe_assignment(s: EffortView, text: Seq<char>) -> (EffortView, Result<
    bool,
    Seq<char>,
>) {
    if s.worker_assignment_locked {
        (s, Ok(false))
    } else {
        let locked = EffortView { worker_assignment_locked: true, ..s };
        match spec_parse_assignment(text) {
            Ok(Some(ctx)) => (EffortView { worker_context: ctx, ..locked }, Ok(true)),
            Ok(None) => (locked, Ok(false)),
            Err(e) => (locked, Err(e)),
        }
    }
}

pub open spec fn observe_result_view(r: Result<bool, String>) -> Result<bool, Seq<char>> {
    match r {
        Ok(b) => Ok(b),
        Err(e) => Err(e@),
    }
}

impl AdaptiveEffortState {
    pub fn activate_adaptive_startup(&mut self, preferred_family: AdaptiveFamily)
        ensures
            (old(self).paused_by_user || old(self).workflow_terminal is Some) ==> final(self)@
                == old(self)@,
            !(old(self).paused_by_user || old(self).workflow_terminal is Some) ==> final(self)@
                == spec_activate(old(self)@, preferred_family, false),
    {
        if self.paused_by_user || self.workflow_terminal.is_some() {
            return;
        }
        self.activate_adaptive_family(preferred_family, false);
    }

    /// The first user assignment locks Worker authority, binding it only when
    /// it carries a valid header; nothing observed later changes it.
    pub fn observe_worker_assignment_text(&mut self, text: &str) -> (r: Result<bool, String>)
        ensures
            (final(self)@, observe_result_view(r)) == spec_observe_assignment(old(self)@, text@),
    {
        if self.worker_assignment_locked {
            return Ok(false);
        }
        self.worker_assignment_locked = true;
        match parse_adaptive_worker_assignment(text) {
            Ok(Some(worker_context)) => {
                self.worker_context = worker_context;
                Ok(true)
            },
            Ok(None) => Ok(false),
            Err(err) => Err(err),
        }
    }

    pub fn activate_adaptive_family(&mut self, preferred_family: AdaptiveFamily, clear_pause: bool)
        ensures
            final(self)@ == spec_activate(old(self)@, preferred_family, clear_pause),
    {
        let worker_context = self.worker_context.duplicate();
        let worker_assignment_locked = self.worker_assignment_locked || worker_context.role
            != AdaptiveWorkerRole::Unspecified || worker_context.authorized_scope.is_some();
        let paused_by_user = if clear_pause {
            false
        } else {
            self.paused_by_user
        };
        let evidence_registry = self.evidence_registry.clone();
        *self =
        AdaptiveEffortState {
            enabled: true,
            starting_family: Some(preferred_family),
            current_family: Some(AdaptiveFamily::Luna),
            current_effort: Some(AdaptiveEffort::Low),
            attempt_number: 1,
            paused_by_user,
            last_outcome: None,
            last_failure_kind: None,
            worker_context,
            worker_assignment_locked,
            workflow_terminal: self.workflow_terminal,
            transient_retry_consumed: false,
            unfinished_turn_pressure: 0,
            last_processed_terminal_turn_id: None,
            pending_attempt: None,
            successor_admission: None,
            pending_signal: None,
            evidence_registry,
            complexity_class: self.complexity_class,
            budget_mode: self.budget_mode,
        };
    }
}

impl AdaptiveSuccessorAdmission {
    pub fn duplicate(&self) -> (r: Self)
        ensures
            r == *self,
    {
        match self {
            AdaptiveSuccessorAdmission::Reserved(p) => AdaptiveSuccessorAdmission::Reserved(
                p.duplicate(),
            ),
            AdaptiveSuccessorAdmission::Consumed(p) => AdaptiveSuccessorAdmission::Consumed(
                p.duplicate(),
            ),
        }
    }
}

impl AdaptiveRuntimeSignalEnvelope {
    pub fn duplicate(&self) -> (r: Self)
        ensures
            r@ == self@,
    {
        AdaptiveRuntimeSignalEnvelope {
            source_turn_id: self.source_turn_id.clone(),
            signal_kind: self.signal_kind,
            evidence_refs: clone_refs(&self.evidence_refs),
            diagnostic_note: clone_opt_string(&self.diagnostic_note),
        }
    }
}

impl AdaptivePendingSignal {
    pub fn duplicate(&self) -> (r: Self)
        ensures
            r@ == self@,
    {
        match self {
            AdaptivePendingSignal::Pending(e) => AdaptivePendingSignal::Pending(e.duplicate()),
            AdaptivePendingSignal::Conflicted { source_turn_id } => AdaptivePendingSignal::Conflicted {
                source_turn_id: source_turn_id.clone(),
            },
            AdaptivePendingSignal::Cancelled { source_turn_id } => AdaptivePendingSignal::Cancelled {
                source_turn_id: source_turn_id.clone(),
            },
            AdaptivePendingSignal::Consumed { source_turn_id } => AdaptivePendingSignal::Consumed {
                source_turn_id: source_turn_id.clone(),
            },
        }
    }
}

impl AdaptiveEffortState {
    pub fn duplicate(&self) -> (r: Self)
        ensures
            r@ == self@,
    {
        AdaptiveEffortState {
            enabled: self.enabled,
            starting_family: self.starting_family,
            current_family: self.current_family,
            current_effort: self.current_effort,
            attempt_number: self.attempt_number,
            paused_by_user: self.paused_by_user,
            last_outcome: self.last_outcome,
            last_failure_kind: self.last_failure_kind,
            worker_context: self.worker_context.duplicate(),
            worker_assignment_locked: self.worker_assignment_locked,
            workflow_terminal: self.workflow_terminal,
            transient_retry_consumed: self.transient_retry_consumed,
            unfinished_turn_pressure: self.unfinished_turn_pressure,
            last_processed_terminal_turn_id: clone_opt_string(
                &self.last_processed_terminal_turn_id,
            ),
            pending_attempt: match &self.pending_attempt {
                Some(a) => Some(a.duplicate()),
                None => None,
            },
            successor_admission: match &self.successor_admission {
                Some(a) => Some(a.duplicate()),
                None => None,
            },
            pending_signal: match &self.pending_signal {
                Some(p) => Some(p.duplicate()),
                None => None,
            },
            evidence_registry: self.evidence_registry.clone(),
            complexity_class: self.complexity_class,
            budget_mode: self.budget_mode,
        }
    }
}

/// Worker authority is written at most once: once the assignment is locked, no
/// observed text changes the Worker context or the lock.
pub proof fn lemma_locked_authority_is_immutable(s: EffortView, text: Seq<char>)
    requires
        s.worker_assignment_locked,
    ensures
        spec_observe_assignment(s, text) == (s, Ok::<bool, Seq<char>>(false)),
{
}

/// The first observed assignment always locks the thread, whether it binds,
/// is ordinary prose, or is a malformed header.
pub proof fn lemma_first_assignment_locks(s: EffortView, text: Seq<char>)
    ensures
        spec_observe_assignment(s, text).0.worker_assignment_locked,
        !s.worker_assignment_locked && spec_observe_assignment(s, text).1 != Ok::<bool, Seq<char>>(
            true,
        ) ==> spec_observe_assignment(s, text).0.worker_context == s.worker_context,
{
}

} // verus!
