//! Per-thread session facts that adaptive routing reads and keeps: fork
//! inheritance, workspace-root retargeting, and restoration of a persisted
//! workflow snapshot.
use vstd::prelude::*;

use crate::budget::AdaptiveBudgetMode;
use crate::complexity::AdaptiveComplexityClass;
use crate::effort::{AdaptiveEffortState, EffortView, spec_default_effort, spec_parse_family};
use crate::evidence::{AdaptiveEvidenceRegistry, ThreadId};
use crate::policy::{AdaptiveEffort, AdaptiveFamily};
use crate::text::{append, str_eq, string_from};
use crate::worker::{
    AdaptiveWorkerContext, AdaptiveWorkerRole, AdaptiveWorkflowTerminal, WorkerContextView,
    clone_opt_string, opt_str_view,
};

verus! {

/// The session facts of one thread that adaptive routing reads.
#[derive(Clone, Debug, PartialEq, Eq)]
pub struct ThreadSessionState {
    pub thread_id: ThreadId,
    pub forked_from_id: Option<ThreadId>,
    pub cwd: String,
    pub runtime_workspace_roots: Vec<String>,
    /// Process-local adaptive controller state owned by this thread.
    pub adaptive_effort: AdaptiveEffortState,
}

pub struct SessionView {
    pub thread_id: ThreadId,
    pub forked_from_id: Option<ThreadId>,
    pub cwd: Seq<char>,
    pub runtime_workspace_roots: Seq<Seq<char>>,
    pub adaptive: EffortView,
}

impl View for ThreadSessionState {
    type V = SessionView;

    open spec fn view(&self) -> SessionView {
        SessionView {
            thread_id: self.thread_id,
            forked_from_id: self.forked_from_id,
            cwd: self.cwd@,
            runtime_workspace_roots: self.runtime_workspace_roots.deep_view(),
            adaptive: self.adaptive_effort@,
        }
    }
}

/// What a fork child inherits: the parent's adaptive state without its
/// ephemeral authority (pending signal, pending attempt, successor admission,
/// unfinished-turn pressure) and without its evidence.
pub open spec fn inherited(parent: EffortView) -> EffortView {
    EffortView {
        pending_signal: None,
        pending_attempt: None,
        successor_admission: None,
        unfinished_turn_pressure: 0,
        evidence_registry: Seq::empty(),
        ..parent
    }
}

/// Inheritance happens once, from the immediate fork parent, into a child
/// whose adaptive state is still fresh.
pub open spec fn spec_inherit(child: SessionView, parent: SessionView) -> SessionView {
    if child.forked_from_id == Some(parent.thread_id) && child.adaptive == spec_default_effort() {
        SessionView { adaptive: inherited(parent.adaptive), ..child }
    } else {
        child
    }
}

/// The roots after the new cwd, in order: each previous root once, leaving
/// out the previous cwd and any root already kept.
pub open spec fn retargeted(acc: Seq<Seq<char>>, roots: Seq<Seq<char>>, previous: Seq<char>) -> Seq<
    Seq<char>,
>
    decreases roots.len(),
{
    if roots.len() == 0 {
        acc
    } else {
        let kept = retargeted(acc, roots.drop_last(), previous);
        let root = roots.last();
        if root != previous && !kept.contains(root) {
            kept.push(root)
        } else {
            kept
        }
    }
}

/// Moving the cwd: when the previous cwd was one of the runtime workspace
/// roots, the new cwd takes the lead and the other roots follow once each.
pub open spec fn spec_set_cwd(s: SessionView, cwd: Seq<char>) -> SessionView {
    if !s.runtime_workspace_roots.contains(s.cwd) {
        SessionView { cwd, ..s }
    } else {
        SessionView {
            cwd,
            runtime_workspace_roots: retargeted(seq![cwd], s.runtime_workspace_roots, s.cwd),
            ..s
        }
    }
}

pub open spec fn no_duplicates(s: Seq<Seq<char>>) -> bool {
    forall|i: int, j: int| 0 <= i < j < s.len() ==> s[i] != s[j]
}

/// A persisted adaptive workflow snapshot, as its fields are spelled.
#[derive(Clone, Debug, PartialEq, Eq)]
pub struct AdaptiveWorkflowStateSnapshot {
    pub enabled: bool,
    pub starting_family: Option<String>,
    pub current_family: Option<String>,
    pub current_effort: Option<String>,
    pub complexity_class: Option<String>,
    pub attempt_number: u32,
    pub paused_by_user: bool,
    pub worker_role: String,
    pub authorized_scope: Option<String>,
    pub worker_assignment_locked: bool,
    pub workflow_terminal: Option<String>,
}

pub struct SnapshotView {
    pub enabled: bool,
    pub starting_family: Option<Seq<char>>,
    pub current_family: Option<Seq<char>>,
    pub current_effort: Option<Seq<char>>,
    pub complexity_class: Option<Seq<char>>,
    pub attempt_number: u32,
    pub paused_by_user: bool,
    pub worker_role: Seq<char>,
    pub authorized_scope: Option<Seq<char>>,
    pub worker_assignment_locked: bool,
    pub workflow_terminal: Option<Seq<char>>,
}

impl View for AdaptiveWorkflowStateSnapshot {
    type V = SnapshotView;

    open spec fn view(&self) -> SnapshotView {
        SnapshotView {
            enabled: self.enabled,
            starting_family: opt_str_view(self.starting_family),
            current_family: opt_str_view(self.current_family),
            current_effort: opt_str_view(self.current_effort),
            complexity_class: opt_str_view(self.complexity_class),
            attempt_number: self.attempt_number,
            paused_by_user: self.paused_by_user,
            worker_role: self.worker_role@,
            authorized_scope: opt_str_view(self.authorized_scope),
            worker_assignment_locked: self.worker_assignment_locked,
            workflow_terminal: opt_str_view(self.workflow_terminal),
        }
    }
}

/// What the rollout history says of the thread's workflow state.
#[derive(Clone, Debug, PartialEq, Eq)]
pub enum RestoredWorkflowState {
    /// Nothing was persisted.
    Absent,
    ReadyForOwnerQa,
    Adaptive { state: AdaptiveWorkflowStateSnapshot, source_turn_id: Option<String> },
    Unsupported,
}

pub open spec fn unsupported(what: Seq<char>, value: Seq<char>) -> Seq<char> {
    "unsupported persisted "@ + what + " `"@ + value + "`"@
}

pub open spec fn spec_parse_effort(value: Seq<char>) -> Option<AdaptiveEffort> {
    if value == "low"@ {
        Some(AdaptiveEffort::Low)
    } else if value == "medium"@ {
        Some(AdaptiveEffort::Medium)
    } else if value == "high"@ {
        Some(AdaptiveEffort::High)
    } else if value == "xhigh"@ {
        Some(AdaptiveEffort::XHigh)
    } else if value == "max"@ {
        Some(AdaptiveEffort::Max)
    } else {
        None
    }
}

pub open spec fn spec_parse_class(value: Seq<char>) -> Option<AdaptiveComplexityClass> {
    if value == "routine"@ {
        Some(AdaptiveComplexityClass::Routine)
    } else if value == "standard"@ {
        Some(AdaptiveComplexityClass::Standard)
    } else if value == "complex"@ {
        Some(AdaptiveComplexityClass::Complex)
    } else if value == "architectural"@ {
        Some(AdaptiveComplexityClass::Architectural)
    } else {
        None
    }
}

pub open spec fn spec_parse_persisted_role(value: Seq<char>) -> Option<AdaptiveWorkerRole> {
    if value == "unspecified"@ {
        Some(AdaptiveWorkerRole::Unspecified)
    } else if value == "implementation"@ {
        Some(AdaptiveWorkerRole::Implementation)
    } else if value == "validation"@ {
        Some(AdaptiveWorkerRole::Validation)
    } else if value == "repair"@ {
        Some(AdaptiveWorkerRole::Repair)
    } else {
        None
    }
}

pub open spec fn spec_parse_terminal(value: Seq<char>) -> Option<AdaptiveWorkflowTerminal> {
    if value == "ready_for_validation"@ {
        Some(AdaptiveWorkflowTerminal::ReadyForValidation)
    } else if value == "repair_required"@ {
        Some(AdaptiveWorkflowTerminal::RepairRequired)
    } else if value == "ready_for_owner_qa"@ {
        Some(AdaptiveWorkflowTerminal::ReadyForOwnerQa)
    } else if value == "blocked"@ {
        Some(AdaptiveWorkflowTerminal::Blocked)
    } else {
        None
    }
}

pub open spec fn spec_restore_family(v: Option<Seq<char>>) -> Result<Option<AdaptiveFamily>, Seq<char>> {
    match v {
        None => Ok(None),
        Some(s) => match spec_parse_family(s) {
            Some(f) => Ok(Some(f)),
            None => Err(unsupported("adaptive family"@, s)),
        },
    }
}

pub open spec fn spec_restore_effort(v: Option<Seq<char>>) -> Result<Option<AdaptiveEffort>, Seq<char>> {
    match v {
        None => Ok(None),
        Some(s) => match spec_parse_effort(s) {
            Some(e) => Ok(Some(e)),
            None => Err(unsupported("adaptive effort"@, s)),
        },
    }
}

pub open spec fn spec_restore_class(v: Option<Seq<char>>) -> Result<
    Option<AdaptiveComplexityClass>,
    Seq<char>,
> {
    match v {
        None => Ok(None),
        Some(s) => match spec_parse_class(s) {
            Some(c) => Ok(Some(c)),
            None => Err(unsupported("adaptive complexity class"@, s)),
        },
    }
}

pub open spec fn spec_restore_role(v: Seq<char>) -> Result<AdaptiveWorkerRole, Seq<char>> {
    match spec_parse_persisted_role(v) {
        Some(r) => Ok(r),
        None => Err(unsupported("adaptive Worker role"@, v)),
    }
}

pub open spec fn spec_restore_terminal(v: Option<Seq<char>>) -> Result<
    Option<AdaptiveWorkflowTerminal>,
    Seq<char>,
> {
    match v {
        None => Ok(None),
        Some(s) => match spec_parse_terminal(s) {
            Some(t) => Ok(Some(t)),
            None => Err(unsupported("workflow terminal"@, s)),
        },
    }
}

pub open spec fn missing_route_message() -> Seq<char> {
    "persisted enabled adaptive state is missing its active route or attempt"@
}

pub open spec fn incomplete_route_message() -> Seq<char> {
    "persisted adaptive family/effort route is incomplete"@
}

/// The first error restoring the snapshot meets, in the order the fields are
/// read, then the route checks; none when every field restores.
pub open spec fn restore_error(s: SnapshotView) -> Option<Seq<char>> {
    if spec_restore_family(s.starting_family) is Err {
        Some(spec_restore_family(s.starting_family)->Err_0)
    } else if spec_restore_family(s.current_family) is Err {
        Some(spec_restore_family(s.current_family)->Err_0)
    } else if spec_restore_effort(s.current_effort) is Err {
        Some(spec_restore_effort(s.current_effort)->Err_0)
    } else if spec_restore_role(s.worker_role) is Err {
        Some(spec_restore_role(s.worker_role)->Err_0)
    } else if spec_restore_terminal(s.workflow_terminal) is Err {
        Some(spec_restore_terminal(s.workflow_terminal)->Err_0)
    } else if spec_restore_class(s.complexity_class) is Err {
        Some(spec_restore_class(s.complexity_class)->Err_0)
    } else if s.enabled && (s.current_family is None || s.current_effort is None
        || s.attempt_number == 0) {
        Some(missing_route_message())
    } else if (s.current_family is Some) != (s.current_effort is Some) {
        Some(incomplete_route_message())
    } else {
        None
    }
}

/// The adaptive state a snapshot restores to: the persisted route, attempt,
/// pause, Worker authority, terminal and complexity; the current budget mode;
/// nothing ephemeral. The terminal turn is kept only with a terminal.
pub open spec fn restored_state(s: SnapshotView, source_turn_id: Option<Seq<char>>, budget_mode: AdaptiveBudgetMode) -> EffortView {
    let terminal = spec_restore_terminal(s.workflow_terminal)->Ok_0;
    EffortView {
        enabled: s.enabled,
        starting_family: spec_restore_family(s.starting_family)->Ok_0,
        current_family: spec_restore_family(s.current_family)->Ok_0,
        current_effort: spec_restore_effort(s.current_effort)->Ok_0,
        attempt_number: s.attempt_number,
        paused_by_user: s.paused_by_user,
        last_outcome: None,
        last_failure_kind: None,
        worker_context: WorkerContextView {
            role: spec_restore_role(s.worker_role)->Ok_0,
            authorized_scope: s.authorized_scope,
        },
        worker_assignment_locked: s.worker_assignment_locked,
        workflow_terminal: terminal,
        transient_retry_consumed: false,
        unfinished_turn_pressure: 0,
        last_processed_terminal_turn_id: if terminal is Some {
            source_turn_id
        } else {
            None
        },
        pending_attempt: None,
        successor_admission: None,
        pending_signal: None,
        evidence_registry: Seq::empty(),
        complexity_class: spec_restore_class(s.complexity_class)->Ok_0,
        budget_mode,
    }
}

pub open spec fn spec_apply_persisted(
    a: EffortView,
    s: SnapshotView,
    source_turn_id: Option<Seq<char>>,
) -> (EffortView, Result<(), Seq<char>>) {
    match restore_error(s) {
        Some(e) => (a, Err(e)),
        None => (restored_state(s, source_turn_id, a.budget_mode), Ok(())),
    }
}

/// Applying what the rollout history restored: an owner-QA handoff latches
/// that terminal; an adaptive snapshot restores as above; an unsupported
/// history disables and pauses adaptive routing; each drops every ephemeral
/// authority.
pub open spec fn spec_apply_restored(a: EffortView, r: RestoredWorkflowState) -> (EffortView, Result<
    (),
    Seq<char>,
>) {
    match r {
        RestoredWorkflowState::Absent => (a, Ok(())),
        RestoredWorkflowState::ReadyForOwnerQa => (
            EffortView {
                workflow_terminal: Some(AdaptiveWorkflowTerminal::ReadyForOwnerQa),
                unfinished_turn_pressure: 0,
                pending_attempt: None,
                pending_signal: None,
                successor_admission: None,
                ..a
            },
            Ok(()),
        ),
        RestoredWorkflowState::Adaptive { state, source_turn_id } => spec_apply_persisted(
            a,
            state@,
            opt_str_view(source_turn_id),
        ),
        RestoredWorkflowState::Unsupported => (
            EffortView {
                enabled: false,
                paused_by_user: true,
                unfinished_turn_pressure: 0,
                pending_attempt: None,
                pending_signal: None,
                successor_admission: None,
                ..a
            },
            Ok(()),
        ),
    }
}

pub open spec fn unit_result_view(r: Result<(), String>) -> Result<(), Seq<char>> {
    match r {
        Ok(()) => Ok(()),
        Err(e) => Err(e@),
    }
}

fn unsupported_message(what: &str, value: &str) -> (m: String)
    ensures
        m@ == unsupported(what@, value@),
{
    let mut m = string_from("unsupported persisted ");
    append(&mut m, what);
    append(&mut m, " `");
    append(&mut m, value);
    append(&mut m, "`");
    m
}

pub fn restore_family(value: Option<String>) -> (r: Result<Option<AdaptiveFamily>, String>)
    ensures
        match r {
            Ok(f) => spec_restore_family(opt_str_view(value)) == Ok::<
                Option<AdaptiveFamily>,
                Seq<char>,
            >(f),
            Err(e) => spec_restore_family(opt_str_view(value)) == Err::<
                Option<AdaptiveFamily>,
                Seq<char>,
            >(e@),
        },
{
    match value {
        None => Ok(None),
        Some(v) => match AdaptiveFamily::parse(v.as_str()) {
            Some(f) => Ok(Some(f)),
            None => Err(unsupported_message("adaptive family", v.as_str())),
        },
    }
}

fn parse_effort(value: &str) -> (r: Option<AdaptiveEffort>)
    ensures
        r == spec_parse_effort(value@),
{
    if str_eq(value, "low") {
        Some(AdaptiveEffort::Low)
    } else if str_eq(value, "medium") {
        Some(AdaptiveEffort::Medium)
    } else if str_eq(value, "high") {
        Some(AdaptiveEffort::High)
    } else if str_eq(value, "xhigh") {
        Some(AdaptiveEffort::XHigh)
    } else if str_eq(value, "max") {
        Some(AdaptiveEffort::Max)
    } else {
        None
    }
}

pub fn restore_effort(value: Option<String>) -> (r: Result<Option<AdaptiveEffort>, String>)
    ensures
        match r {
            Ok(e) => spec_restore_effort(opt_str_view(value)) == Ok::<
                Option<AdaptiveEffort>,
                Seq<char>,
            >(e),
            Err(m) => spec_restore_effort(opt_str_view(value)) == Err::<
                Option<AdaptiveEffort>,
                Seq<char>,
            >(m@),
        },
{
    match value {
        None => Ok(None),
        Some(v) => match parse_effort(v.as_str()) {
            Some(e) => Ok(Some(e)),
            None => Err(unsupported_message("adaptive effort", v.as_str())),
        },
    }
}

fn parse_class(value: &str) -> (r: Option<AdaptiveComplexityClass>)
    ensures
        r == spec_parse_class(value@),
{
    if str_eq(value, "routine") {
        Some(AdaptiveComplexityClass::Routine)
    } else if str_eq(value, "standard") {
        Some(AdaptiveComplexityClass::Standard)
    } else if str_eq(value, "complex") {
        Some(AdaptiveComplexityClass::Complex)
    } else if str_eq(value, "architectural") {
        Some(AdaptiveComplexityClass::Architectural)
    } else {
        None
    }
}

pub fn restore_complexity_class(value: Option<String>) -> (r: Result<
    Option<AdaptiveComplexityClass>,
    String,
>)
    ensures
        match r {
            Ok(c) => spec_restore_class(opt_str_view(value)) == Ok::<
                Option<AdaptiveComplexityClass>,
                Seq<char>,
            >(c),
            Err(m) => spec_restore_class(opt_str_view(value)) == Err::<
                Option<AdaptiveComplexityClass>,
                Seq<char>,
            >(m@),
        },
{
    match value {
        None => Ok(None),
        Some(v) => match parse_class(v.as_str()) {
            Some(c) => Ok(Some(c)),
            None => Err(unsupported_message("adaptive complexity class", v.as_str())),
        },
    }
}

pub fn restore_worker_role(value: &str) -> (r: Result<AdaptiveWorkerRole, String>)
    ensures
        match r {
            Ok(role) => spec_restore_role(value@) == Ok::<AdaptiveWorkerRole, Seq<char>>(role),
            Err(m) => spec_restore_role(value@) == Err::<AdaptiveWorkerRole, Seq<char>>(m@),
        },
{
    if str_eq(value, "unspecified") {
        Ok(AdaptiveWorkerRole::Unspecified)
    } else if str_eq(value, "implementation") {
        Ok(AdaptiveWorkerRole::Implementation)
    } else if str_eq(value, "validation") {
        Ok(AdaptiveWorkerRole::Validation)
    } else if str_eq(value, "repair") {
        Ok(AdaptiveWorkerRole::Repair)
    } else {
        Err(unsupported_message("adaptive Worker role", value))
    }
}

fn parse_terminal(value: &str) -> (r: Option<AdaptiveWorkflowTerminal>)
    ensures
        r == spec_parse_terminal(value@),
{
    if str_eq(value, "ready_for_validation") {
        Some(AdaptiveWorkflowTerminal::ReadyForValidation)
    } else if str_eq(value, "repair_required") {
        Some(AdaptiveWorkflowTerminal::RepairRequired)
    } else if str_eq(value, "ready_for_owner_qa") {
        Some(AdaptiveWorkflowTerminal::ReadyForOwnerQa)
    } else if str_eq(value, "blocked") {
        Some(AdaptiveWorkflowTerminal::Blocked)
    } else {
        None
    }
}

pub fn restore_workflow_terminal(value: Option<String>) -> (r: Result<
    Option<AdaptiveWorkflowTerminal>,
    String,
>)
    ensures
        match r {
            Ok(t) => spec_restore_terminal(opt_str_view(value)) == Ok::<
                Option<AdaptiveWorkflowTerminal>,
                Seq<char>,
            >(t),
            Err(m) => spec_restore_terminal(opt_str_view(value)) == Err::<
                Option<AdaptiveWorkflowTerminal>,
                Seq<char>,
            >(m@),
        },
{
    match value {
        None => Ok(None),
        Some(v) => match parse_terminal(v.as_str()) {
            Some(t) => Ok(Some(t)),
            None => Err(unsupported_message("workflow terminal", v.as_str())),
        },
    }
}

/// Restores a persisted snapshot into `adaptive_effort`; on an error the
/// state is left as it was.
pub fn apply_persisted_adaptive_workflow_state(
    adaptive_effort: &mut AdaptiveEffortState,
    state: AdaptiveWorkflowStateSnapshot,
    source_turn_id: Option<String>,
) -> (r: Result<(), String>)
    ensures
        (final(adaptive_effort)@, unit_result_view(r)) == spec_apply_persisted(
            old(adaptive_effort)@,
            state@,
            opt_str_view(source_turn_id),
        ),
{
    let ghost s = state@;
    let starting_family = match restore_family(state.starting_family) {
        Ok(f) => f,
        Err(e) => return Err(e),
    };
    let current_family = match restore_family(state.current_family) {
        Ok(f) => f,
        Err(e) => return Err(e),
    };
    let current_effort = match restore_effort(state.current_effort) {
        Ok(e) => e,
        Err(e) => return Err(e),
    };
    let worker_role = match restore_worker_role(state.worker_role.as_str()) {
        Ok(r) => r,
        Err(e) => return Err(e),
    };
    let workflow_terminal = match restore_workflow_terminal(state.workflow_terminal) {
        Ok(t) => t,
        Err(e) => return Err(e),
    };
    let complexity_class = match restore_complexity_class(state.complexity_class) {
        Ok(c) => c,
        Err(e) => return Err(e),
    };
    let budget_mode = adaptive_effort.budget_mode;
    if state.enabled && (current_family.is_none() || current_effort.is_none()
        || state.attempt_number == 0) {
        return Err(
            string_from("persisted enabled adaptive state is missing its active route or attempt"),
        );
    }
    if current_family.is_some() != current_effort.is_some() {
        return Err(string_from("persisted adaptive family/effort route is incomplete"));
    }
    let last_processed_terminal_turn_id = if workflow_terminal.is_some() {
        source_turn_id
    } else {
        None
    };
    *adaptive_effort = AdaptiveEffortState {
        enabled: state.enabled,
        starting_family,
        current_family,
        current_effort,
        attempt_number: state.attempt_number,
        paused_by_user: state.paused_by_user,
        last_outcome: None,
        last_failure_kind: None,
        worker_context: AdaptiveWorkerContext {
            role: worker_role,
            authorized_scope: state.authorized_scope,
        },
        worker_assignment_locked: state.worker_assignment_locked,
        workflow_terminal,
        transient_retry_consumed: false,
        unfinished_turn_pressure: 0,
        last_processed_terminal_turn_id,
        pending_attempt: None,
        successor_admission: None,
        pending_signal: None,
        evidence_registry: AdaptiveEvidenceRegistry::new(),
        complexity_class,
        budget_mode,
    };
    Ok(())
}

/// Applies the workflow state that the thread's rollout history restored.
pub fn apply_restored_workflow_state(
    adaptive_effort: &mut AdaptiveEffortState,
    restored: RestoredWorkflowState,
) -> (r: Result<(), String>)
    ensures
        (final(adaptive_effort)@, unit_result_view(r)) == spec_apply_restored(
            old(adaptive_effort)@,
            restored,
        ),
{
    match restored {
        RestoredWorkflowState::Absent => {},
        RestoredWorkflowState::ReadyForOwnerQa => {
            adaptive_effort.workflow_terminal = Some(AdaptiveWorkflowTerminal::ReadyForOwnerQa);
            adaptive_effort.unfinished_turn_pressure = 0;
            adaptive_effort.pending_attempt = None;
            adaptive_effort.pending_signal = None;
            adaptive_effort.successor_admission = None;
        },
        RestoredWorkflowState::Adaptive { state, source_turn_id } => {
            return apply_persisted_adaptive_workflow_state(adaptive_effort, state, source_turn_id);
        },
        RestoredWorkflowState::Unsupported => {
            adaptive_effort.enabled = false;
            adaptive_effort.paused_by_user = true;
            adaptive_effort.unfinished_turn_pressure = 0;
            adaptive_effort.pending_attempt = None;
            adaptive_effort.pending_signal = None;
            adaptive_effort.successor_admission = None;
        },
    }
    Ok(())
}

/// Why a rollout's workflow state was not restored.
#[derive(Clone, Debug, PartialEq, Eq)]
pub enum RolloutRestoreError {
    /// The rollout was written by another thread (or names none).
    ForeignRollout,
    /// The persisted state itself was refused, with this message.
    Invalid(String),
}

/// Restores the workflow state of a rollout only when the rollout belongs to
/// `thread_id`; a rollout of another thread, or of none, is refused and
/// leaves the adaptive state as it was.
pub fn restore_rollout_workflow_state(
    rollout_thread_id: Option<ThreadId>,
    thread_id: ThreadId,
    adaptive_effort: &mut AdaptiveEffortState,
    restored: RestoredWorkflowState,
) -> (r: Result<(), RolloutRestoreError>)
    ensures
        rollout_thread_id != Some(thread_id) ==> {
            &&& r == Err::<(), RolloutRestoreError>(RolloutRestoreError::ForeignRollout)
            &&& final(adaptive_effort)@ == old(adaptive_effort)@
        },
        rollout_thread_id == Some(thread_id) ==> {
            let (a, res) = spec_apply_restored(old(adaptive_effort)@, restored);
            &&& final(adaptive_effort)@ == a
            &&& match res {
                Ok(()) => r is Ok,
                Err(e) => r matches Err(RolloutRestoreError::Invalid(m)) && m@ == e,
            }
        },
{
    let same = match rollout_thread_id {
        Some(t) => t.raw == thread_id.raw,
        None => false,
    };
    if !same {
        return Err(RolloutRestoreError::ForeignRollout);
    }
    match apply_restored_workflow_state(adaptive_effort, restored) {
        Ok(()) => Ok(()),
        Err(e) => Err(RolloutRestoreError::Invalid(e)),
    }
}

fn contains_root(roots: &Vec<String>, root: &str) -> (b: bool)
    ensures
        b == roots.deep_view().contains(root@),
{
    let mut i: usize = 0;
    while i < roots.len()
        invariant
            i <= roots@.len(),
            forall|j: int| 0 <= j < i ==> #[trigger] roots.deep_view()[j] != root@,
        decreases roots@.len() - i,
    {
        if str_eq(roots[i].as_str(), root) {
            assert(roots.deep_view()[i as int] == root@);
            return true;
        }
        i = i + 1;
    }
    false
}

impl AdaptiveEffortState {
    /// Whether the state is still the fresh default.
    pub fn is_fresh(&self) -> (b: bool)
        ensures
            b == (self@ == spec_default_effort()),
    {
        let r = !self.enabled && self.starting_family.is_none() && self.current_family.is_none()
            && self.current_effort.is_none() && self.attempt_number == 0 && !self.paused_by_user
            && self.last_outcome.is_none() && self.last_failure_kind.is_none()
            && self.worker_context.role == AdaptiveWorkerRole::Unspecified
            && self.worker_context.authorized_scope.is_none() && !self.worker_assignment_locked
            && self.workflow_terminal.is_none() && !self.transient_retry_consumed
            && self.unfinished_turn_pressure == 0 && self.last_processed_terminal_turn_id.is_none()
            && self.pending_attempt.is_none() && self.successor_admission.is_none()
            && self.pending_signal.is_none() && self.evidence_registry.len() == 0
            && self.complexity_class.is_none() && self.budget_mode == AdaptiveBudgetMode::Balanced;
        proof {
            if r {
                assert(self@.evidence_registry =~= Seq::empty());
                assert(self@.worker_context == spec_default_effort().worker_context);
            }
        }
        r
    }
}

impl ThreadSessionState {
    /// Copies adaptive state exactly once from the immediate typed fork
    /// parent, without its ephemeral authority or evidence.
    pub fn inherit_adaptive_effort_from(&mut self, parent: &Self)
        ensures
            final(self)@ == spec_inherit(old(self)@, parent@),
    {
        let is_child = match self.forked_from_id {
            Some(p) => p == parent.thread_id,
            None => false,
        };
        if is_child && self.adaptive_effort.is_fresh() {
            let mut inherited = parent.adaptive_effort.duplicate();
            inherited.pending_signal = None;
            inherited.pending_attempt = None;
            inherited.successor_admission = None;
            inherited.unfinished_turn_pressure = 0;
            inherited.evidence_registry = AdaptiveEvidenceRegistry::new();
            self.adaptive_effort = inherited;
        }
    }

    /// Moves the cwd; when the previous cwd was a runtime workspace root, the
    /// new cwd replaces it at the front and the other roots follow once each.
    pub fn set_cwd_retargeting_implicit_runtime_workspace_root(&mut self, cwd: String)
        ensures
            final(self)@ == spec_set_cwd(old(self)@, cwd@),
    {
        let mut previous_cwd = cwd.clone();
        std::mem::swap(&mut previous_cwd, &mut self.cwd);
        if !contains_root(&self.runtime_workspace_roots, previous_cwd.as_str()) {
            return;
        }
        let mut previous_roots: Vec<String> = Vec::new();
        std::mem::swap(&mut previous_roots, &mut self.runtime_workspace_roots);
        let ghost prev = previous_roots.deep_view();
        let mut roots: Vec<String> = Vec::new();
        roots.push(cwd);
        assert(roots.deep_view() =~= seq![self.cwd@]);
        let mut i: usize = 0;
        while i < previous_roots.len()
            invariant
                i <= previous_roots@.len(),
                prev == previous_roots.deep_view(),
                roots.deep_view() == retargeted(
                    seq![self.cwd@],
                    prev.take(i as int),
                    previous_cwd@,
                ),
            decreases previous_roots@.len() - i,
        {
            assert(prev.take(i as int + 1).drop_last() =~= prev.take(i as int));
            let root = &previous_roots[i];
            assert(prev.take(i as int + 1).last() == root@);
            if !str_eq(root.as_str(), previous_cwd.as_str()) && !contains_root(
                &roots,
                root.as_str(),
            ) {
                let ghost before = roots.deep_view();
                roots.push(root.clone());
                assert(roots.deep_view() =~= before.push(root@));
            }
            i = i + 1;
        }
        assert(prev.take(prev.len() as int) =~= prev);
        self.runtime_workspace_roots = roots;
    }
}

/// Retargeting keeps roots distinct: kept roots never repeat.
proof fn lemma_retargeted_distinct(acc: Seq<Seq<char>>, roots: Seq<Seq<char>>, previous: Seq<char>)
    requires
        no_duplicates(acc),
    ensures
        no_duplicates(retargeted(acc, roots, previous)),
        retargeted(acc, roots, previous).len() >= acc.len(),
        forall|i: int| 0 <= i < acc.len() ==> #[trigger] retargeted(acc, roots, previous)[i] == acc[i],
    decreases roots.len(),
{
    if roots.len() > 0 {
        lemma_retargeted_distinct(acc, roots.drop_last(), previous);
        let kept = retargeted(acc, roots.drop_last(), previous);
        let root = roots.last();
        if root != previous && !kept.contains(root) {
            assert forall|i: int, j: int| 0 <= i < j < kept.push(root).len() implies kept.push(
                root,
            )[i] != kept.push(root)[j] by {
                if j == kept.len() {
                    assert(kept[i] == kept.push(root)[i]);
                }
            }
        }
    }
}

/// After moving the cwd off a runtime workspace root, the new cwd leads the
/// roots, no root repeats, and the previous cwd is gone unless it is the new
/// one.
pub proof fn lemma_retarget_leads_with_cwd(s: SessionView, cwd: Seq<char>)
    requires
        s.runtime_workspace_roots.contains(s.cwd),
    ensures
        spec_set_cwd(s, cwd).runtime_workspace_roots[0] == cwd,
        no_duplicates(spec_set_cwd(s, cwd).runtime_workspace_roots),
        !spec_set_cwd(s, cwd).runtime_workspace_roots.subrange(
            1,
            spec_set_cwd(s, cwd).runtime_workspace_roots.len() as int,
        ).contains(s.cwd),
{
    lemma_retargeted_distinct(seq![cwd], s.runtime_workspace_roots, s.cwd);
    lemma_retargeted_excludes(seq![cwd], s.runtime_workspace_roots, s.cwd);
}

proof fn lemma_retargeted_excludes(acc: Seq<Seq<char>>, roots: Seq<Seq<char>>, previous: Seq<char>)
    ensures
        forall|i: int|
            acc.len() <= i < retargeted(acc, roots, previous).len() ==> #[trigger] retargeted(
                acc,
                roots,
                previous,
            )[i] != previous,
        retargeted(acc, roots, previous).len() >= acc.len(),
        forall|i: int| 0 <= i < acc.len() ==> #[trigger] retargeted(acc, roots, previous)[i] == acc[i],
    decreases roots.len(),
{
    if roots.len() > 0 {
        lemma_retargeted_excludes(acc, roots.drop_last(), previous);
    }
}

/// Fork inheritance never carries ephemeral authority or evidence into the
/// child, never overwrites a child that already has adaptive state, and
/// copying again changes nothing.
pub proof fn lemma_fork_drops_ephemeral_authority(child: SessionView, parent: SessionView)
    ensures
        spec_inherit(child, parent).adaptive == child.adaptive || (
        spec_inherit(child, parent).adaptive == inherited(parent.adaptive)
            && child.adaptive == spec_default_effort()),
        child.adaptive == spec_default_effort() ==> spec_inherit(child, parent).adaptive.pending_signal
            is None && spec_inherit(child, parent).adaptive.pending_attempt is None
            && spec_inherit(child, parent).adaptive.successor_admission is None
            && spec_inherit(child, parent).adaptive.unfinished_turn_pressure == 0
            && spec_inherit(child, parent).adaptive.evidence_registry.len() == 0,
        spec_inherit(spec_inherit(child, parent), parent) == spec_inherit(child, parent),
{
}

/// A restored snapshot never carries ephemeral authority: no pending attempt,
/// successor admission, pending signal, unfinished-turn pressure or evidence;
/// an enabled one has a full route and an attempt; a terminal turn is kept
/// only with a terminal; the budget mode is the current one.
pub proof fn lemma_restore_drops_ephemeral_authority(
    a: EffortView,
    s: SnapshotView,
    source_turn_id: Option<Seq<char>>,
)
    requires
        spec_apply_persisted(a, s, source_turn_id).1 is Ok,
    ensures
        ({
            let r = spec_apply_persisted(a, s, source_turn_id).0;
            &&& r.pending_attempt is None
            &&& r.successor_admission is None
            &&& r.pending_signal is None
            &&& r.unfinished_turn_pressure == 0
            &&& r.evidence_registry.len() == 0
            &&& r.enabled ==> r.current_family is Some && r.current_effort is Some
                && r.attempt_number > 0
            &&& (r.current_family is Some) == (r.current_effort is Some)
            &&& r.last_processed_terminal_turn_id is Some ==> r.workflow_terminal is Some
            &&& r.budget_mode == a.budget_mode
        }),
{
}

/// Restoring a persisted complexity class is the inverse of its lowercase
/// name: each class's name restores to that class, nothing persisted restores
/// to no class, and any other spelling is refused.
pub proof fn lemma_restore_class_inverts_its_name(c: AdaptiveComplexityClass, s: Seq<char>)
    ensures
        spec_restore_class(Some(crate::signal_handler::class_name(c))) == Ok::<
            Option<AdaptiveComplexityClass>,
            Seq<char>,
        >(Some(c)),
        spec_restore_class(None) == Ok::<Option<AdaptiveComplexityClass>, Seq<char>>(None),
        spec_restore_class(Some(s)) matches Ok(Some(d)) ==> s == crate::signal_handler::class_name(d),
        spec_restore_class(Some(s)) is Err <==> (forall|d: AdaptiveComplexityClass|
            s != #[trigger] crate::signal_handler::class_name(d)),
{
    reveal_strlit("routine");
    reveal_strlit("standard");
    reveal_strlit("complex");
    reveal_strlit("architectural");
    assert("routine"@ != "standard"@ && "routine"@ != "complex"@ && "standard"@ != "complex"@) by {
        assert("routine"@[0] != "standard"@[0] && "routine"@[0] != "complex"@[0]);
        assert("standard"@[0] != "complex"@[0]);
    }
    match c {
        AdaptiveComplexityClass::Routine => {},
        AdaptiveComplexityClass::Standard => {},
        AdaptiveComplexityClass::Complex => {},
        AdaptiveComplexityClass::Architectural => {
            assert("architectural"@.len() != "routine"@.len());
            assert("architectural"@.len() != "standard"@.len());
            assert("architectural"@.len() != "complex"@.len());
        },
    }
    if spec_restore_class(Some(s)) is Err {
        assert forall|d: AdaptiveComplexityClass| s != #[trigger] crate::signal_handler::class_name(
            d,
        ) by {
            match d {
                AdaptiveComplexityClass::Routine => {},
                AdaptiveComplexityClass::Standard => {},
                AdaptiveComplexityClass::Complex => {},
                AdaptiveComplexityClass::Architectural => {},
            }
        }
    } else {
        let d = spec_restore_class(Some(s))->Ok_0->0;
        assert(s == crate::signal_handler::class_name(d));
    }
}

} // verus!
