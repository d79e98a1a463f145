//! Exactly-once admission of a controller-authorized adaptive successor: a
//! permit is reserved from the pending attempt, revalidated, consumed once,
//! and only then submitted as the native continuation turn.
use vstd::prelude::*;

use crate::chat::{AppEvent, ChatView, ChatWidget, EventView, effort_name, effort_str, emit, saved, with_adaptive};
use crate::effort::{
    AdaptivePendingAttempt, AdaptivePendingDecision, AdaptiveSuccessorAdmission,
    AdaptiveSuccessorPermit, AdmissionView, AttemptView, EffortView, reasoning_effort,
    spec_model, spec_reasoning_effort,
};
use crate::policy::{AdaptiveRoute, mk_route};
use crate::text::{append, append_decimal, decimal, str_eq, string_from};

verus! {

#[derive(Clone, Copy, Debug, PartialEq, Eq, Structural)]
pub enum AdaptiveAdmissionWaitingReason {
    EffectiveRouteSynchronization,
}

#[derive(Clone, Copy, Debug, PartialEq, Eq, Structural)]
pub enum AdaptiveAdmissionSuppressedReason {
    AdaptiveDisabled,
    PausedByUser,
    WorkflowTerminal,
    ThreadLifecycle,
    AlreadyReserved,
    AlreadyConsumed,
}

#[derive(Clone, Copy, Debug, PartialEq, Eq, Structural)]
pub enum AdaptiveAdmissionRejectedReason {
    MissingPendingAttempt,
    SourceTurnMismatch,
    ThreadMismatch,
    AttemptMismatch,
    RouteMismatch,
    WorkerContextMismatch,
}

#[derive(Clone, Debug, PartialEq, Eq)]
pub enum AdaptiveAdmissionResult {
    Authorized(AdaptiveSuccessorPermit),
    Waiting(AdaptiveAdmissionWaitingReason),
    Suppressed(AdaptiveAdmissionSuppressedReason),
    Rejected(AdaptiveAdmissionRejectedReason),
}

pub enum AdmissionResultView {
    Authorized(AttemptView),
    Waiting(AdaptiveAdmissionWaitingReason),
    Suppressed(AdaptiveAdmissionSuppressedReason),
    Rejected(AdaptiveAdmissionRejectedReason),
}

impl View for AdaptiveAdmissionResult {
    type V = AdmissionResultView;

    open spec fn view(&self) -> AdmissionResultView {
        match self {
            AdaptiveAdmissionResult::Authorized(p) => AdmissionResultView::Authorized(p@),
            AdaptiveAdmissionResult::Waiting(w) => AdmissionResultView::Waiting(*w),
            AdaptiveAdmissionResult::Suppressed(s) => AdmissionResultView::Suppressed(*s),
            AdaptiveAdmissionResult::Rejected(r) => AdmissionResultView::Rejected(*r),
        }
    }
}

/// The session already runs the route: its model and reasoning effort.
pub open spec fn route_is_effective(c: ChatView, route: AdaptiveRoute) -> bool {
    c.current_model == spec_model(route.family) && c.effective_reasoning_effort == Some(
        spec_reasoning_effort(route.effort),
    )
}

/// Why a successor cannot be reserved for `turn` now, or the permit that the
/// pending attempt authorizes.
pub open spec fn spec_reserve_result(c: ChatView, turn: Seq<char>) -> AdmissionResultView {
    let a = c.adaptive;
    if !a.enabled {
        AdmissionResultView::Suppressed(AdaptiveAdmissionSuppressedReason::AdaptiveDisabled)
    } else if a.paused_by_user {
        AdmissionResultView::Suppressed(AdaptiveAdmissionSuppressedReason::PausedByUser)
    } else if a.workflow_terminal is Some {
        AdmissionResultView::Suppressed(AdaptiveAdmissionSuppressedReason::WorkflowTerminal)
    } else if c.agent_turn_running || c.task_running {
        AdmissionResultView::Suppressed(AdaptiveAdmissionSuppressedReason::ThreadLifecycle)
    } else {
        match a.successor_admission {
            Some(AdmissionView::Reserved(_)) => AdmissionResultView::Suppressed(
                AdaptiveAdmissionSuppressedReason::AlreadyReserved,
            ),
            Some(AdmissionView::Consumed(_)) => AdmissionResultView::Suppressed(
                AdaptiveAdmissionSuppressedReason::AlreadyConsumed,
            ),
            None => match a.pending_attempt {
                None => AdmissionResultView::Rejected(
                    AdaptiveAdmissionRejectedReason::MissingPendingAttempt,
                ),
                Some(p) => if p.source_turn_id != turn || a.last_processed_terminal_turn_id != Some(
                    turn,
                ) || c.last_turn_id != Some(turn) {
                    AdmissionResultView::Rejected(AdaptiveAdmissionRejectedReason::SourceTurnMismatch)
                } else if c.thread_id != Some(p.thread_id) {
                    AdmissionResultView::Rejected(AdaptiveAdmissionRejectedReason::ThreadMismatch)
                } else if p.attempt_number != a.attempt_number {
                    AdmissionResultView::Rejected(AdaptiveAdmissionRejectedReason::AttemptMismatch)
                } else if a.current_family is None || a.current_effort is None || p.route
                    != mk_route(a.current_family->0, a.current_effort->0) {
                    AdmissionResultView::Rejected(AdaptiveAdmissionRejectedReason::RouteMismatch)
                } else if p.worker_context != a.worker_context {
                    AdmissionResultView::Rejected(
                        AdaptiveAdmissionRejectedReason::WorkerContextMismatch,
                    )
                } else if !route_is_effective(c, p.route) {
                    AdmissionResultView::Waiting(
                        AdaptiveAdmissionWaitingReason::EffectiveRouteSynchronization,
                    )
                } else {
                    AdmissionResultView::Authorized(p)
                },
            },
        }
    }
}

/// Reserving records the authorized permit and persists it; any other answer
/// leaves the widget unchanged.
pub open spec fn spec_reserve(c: ChatView, turn: Seq<char>) -> ChatView {
    match spec_reserve_result(c, turn) {
        AdmissionResultView::Authorized(p) => saved(
            with_adaptive(
                c,
                EffortView { successor_admission: Some(AdmissionView::Reserved(p)), ..c.adaptive },
            ),
        ),
        _ => c,
    }
}

/// Consuming succeeds only for the permit that is reserved, and turns the
/// reservation into a consumption.
pub open spec fn spec_consume_admission(c: ChatView, p: AttemptView) -> (ChatView, bool) {
    if c.adaptive.successor_admission == Some(AdmissionView::Reserved(p)) {
        (
            saved(
                with_adaptive(
                    c,
                    EffortView {
                        successor_admission: Some(AdmissionView::Consumed(p)),
                        ..c.adaptive
                    },
                ),
            ),
            true,
        )
    } else {
        (c, false)
    }
}

/// A reserved permit still holds when adaptive routing is live, nothing else
/// is running or queued, and thread, terminal turn, attempt, Worker authority,
/// pending attempt and effective route are all still those of the permit.
pub open spec fn spec_permit_valid(c: ChatView, p: AttemptView) -> bool {
    let a = c.adaptive;
    &&& a.enabled
    &&& !a.paused_by_user
    &&& a.workflow_terminal is None
    &&& !c.user_turn_pending_or_running
    &&& !c.queued_follow_up_messages
    &&& c.thread_id == Some(p.thread_id)
    &&& a.last_processed_terminal_turn_id == Some(p.source_turn_id)
    &&& c.last_turn_id == Some(p.source_turn_id)
    &&& a.attempt_number == p.attempt_number
    &&& a.worker_context == p.worker_context
    &&& a.pending_attempt == Some(p)
    &&& a.current_family == Some(p.route.family)
    &&& a.current_effort == Some(p.route.effort)
    &&& route_is_effective(c, p.route)
}

pub open spec fn decision_name(d: AdaptivePendingDecision) -> Seq<char> {
    match d {
        AdaptivePendingDecision::ContinueSameRoute => "ContinueSameRoute"@,
        AdaptivePendingDecision::RetrySameLevel => "RetrySameLevel"@,
        AdaptivePendingDecision::EscalateEffort => "EscalateEffort"@,
        AdaptivePendingDecision::EscalateModel => "EscalateModel"@,
    }
}

/// The native continuation turn submitted for a consumed permit.
pub open spec fn continuation_text(p: AttemptView) -> Seq<char> {
    "[Adaptive continuation] Continue the current assigned Worker task from the existing thread state. Attempt "@
        + decimal(p.attempt_number as nat) + " is authorized at "@ + spec_model(p.route.family)
        + " "@ + effort_name(p.route.effort) + " using "@ + decision_name(p.decision)
        + ". Preserve the existing task, scope, worktree, evidence, and acceptance criteria. Continue from current progress; do not restart or broaden the task."@
}

/// Revalidating and consuming a reserved permit: a stale permit is dropped
/// with its pending attempt; a consumed one clears the pending attempt and
/// submits the continuation turn.
pub open spec fn spec_submit_permit(c: ChatView, p: AttemptView) -> (ChatView, bool) {
    if !spec_permit_valid(c, p) {
        (
            saved(
                with_adaptive(
                    c,
                    EffortView { successor_admission: None, pending_attempt: None, ..c.adaptive },
                ),
            ),
            false,
        )
    } else {
        let (c1, consumed) = spec_consume_admission(c, p);
        if !consumed {
            (c1, false)
        } else {
            let c2 = saved(with_adaptive(c1, EffortView { pending_attempt: None, ..c1.adaptive }));
            (emit(c2, EventView::SubmitUserMessage(continuation_text(p))), true)
        }
    }
}

/// Submission of the adaptive successor of the last processed terminal turn,
/// and whether a continuation was submitted.
pub open spec fn spec_maybe_submit(c: ChatView) -> (ChatView, bool) {
    match c.adaptive.last_processed_terminal_turn_id {
        None => (c, false),
        Some(turn) => match c.adaptive.successor_admission {
            Some(AdmissionView::Reserved(p)) => spec_submit_permit(c, p),
            Some(AdmissionView::Consumed(_)) => (c, false),
            None => match spec_reserve_result(c, turn) {
                AdmissionResultView::Authorized(p) => spec_submit_permit(spec_reserve(c, turn), p),
                _ => (c, false),
            },
        },
    }
}

/// A reservation is exclusive: once a permit is reserved, no further
/// reservation is authorized, for any turn, and asking changes nothing.
pub proof fn lemma_reservation_is_exclusive(c: ChatView, turn: Seq<char>, other_turn: Seq<char>)
    requires
        spec_reserve_result(c, turn) is Authorized,
    ensures
        spec_reserve_result(spec_reserve(c, turn), other_turn) == AdmissionResultView::Suppressed(
            AdaptiveAdmissionSuppressedReason::AlreadyReserved,
        ),
        spec_reserve(spec_reserve(c, turn), other_turn) == spec_reserve(c, turn),
{
}

/// A permit is consumed at most once: after a consumption succeeds, no
/// consumption succeeds again and asking changes nothing.
pub proof fn lemma_permit_consumed_once(c: ChatView, p: AttemptView, q: AttemptView)
    requires
        spec_consume_admission(c, p).1,
    ensures
        spec_consume_admission(spec_consume_admission(c, p).0, q) == (
            spec_consume_admission(c, p).0,
            false,
        ),
{
}

/// A successor is submitted at most once per authorization: right after a
/// submission, asking again submits nothing and changes nothing.
pub proof fn lemma_successor_submitted_once(c: ChatView)
    requires
        spec_maybe_submit(c).1,
    ensures
        spec_maybe_submit(spec_maybe_submit(c).0) == (spec_maybe_submit(c).0, false),
{
    let c1 = spec_maybe_submit(c).0;
    assert(c1.adaptive.successor_admission is Some);
    assert(c1.adaptive.successor_admission->0 is Consumed);
}

/// A submitted successor is the one the pending attempt authorized: the
/// permit was still valid, the continuation names it, and afterwards the
/// permit is consumed and no attempt is pending.
pub proof fn lemma_submitted_successor_is_authorized(c: ChatView)
    requires
        spec_maybe_submit(c).1,
    ensures
        c.adaptive.pending_attempt is Some,
        spec_permit_valid(c, c.adaptive.pending_attempt->0),
        spec_maybe_submit(c).0.events.last() == EventView::SubmitUserMessage(
            continuation_text(c.adaptive.pending_attempt->0),
        ),
        spec_maybe_submit(c).0.adaptive.pending_attempt is None,
        spec_maybe_submit(c).0.adaptive.successor_admission == Some(
            AdmissionView::Consumed(c.adaptive.pending_attempt->0),
        ),
{
}

/// Pause, off and every workflow terminal stay authoritative: no successor is
/// submitted, and a user turn that is pending or running, or a queued user
/// message, also keeps it from being submitted.
pub proof fn lemma_user_controls_block_successors(c: ChatView)
    requires
        !c.adaptive.enabled || c.adaptive.paused_by_user || c.adaptive.workflow_terminal is Some
            || c.user_turn_pending_or_running || c.queued_follow_up_messages,
    ensures
        !spec_maybe_submit(c).1,
{
}

pub fn decision_str(d: AdaptivePendingDecision) -> (s: &'static str)
    ensures
        s@ == decision_name(d),
{
    match d {
        AdaptivePendingDecision::ContinueSameRoute => "ContinueSameRoute",
        AdaptivePendingDecision::RetrySameLevel => "RetrySameLevel",
        AdaptivePendingDecision::EscalateEffort => "EscalateEffort",
        AdaptivePendingDecision::EscalateModel => "EscalateModel",
    }
}

pub fn adaptive_continuation_text(permit: &AdaptiveSuccessorPermit) -> (text: String)
    ensures
        text@ == continuation_text(permit@),
{
    let mut text = string_from(
        "[Adaptive continuation] Continue the current assigned Worker task from the existing thread state. Attempt ",
    );
    append_decimal(&mut text, permit.attempt_number as u64);
    append(&mut text, " is authorized at ");
    append(&mut text, permit.route.family.model());
    append(&mut text, " ");
    append(&mut text, effort_str(permit.route.effort));
    append(&mut text, " using ");
    append(&mut text, decision_str(permit.decision));
    append(
        &mut text,
        ". Preserve the existing task, scope, worktree, evidence, and acceptance criteria. Continue from current progress; do not restart or broaden the task.",
    );
    text
}

fn permit_of(pending: &AdaptivePendingAttempt) -> (p: AdaptiveSuccessorPermit)
    ensures
        p@ == pending@,
{
    AdaptiveSuccessorPermit {
        thread_id: pending.thread_id,
        source_turn_id: pending.source_turn_id.clone(),
        decision: pending.decision,
        route: pending.route,
        attempt_number: pending.attempt_number,
        worker_context: pending.worker_context.duplicate(),
    }
}

fn attempt_matches(pending: &AdaptivePendingAttempt, permit: &AdaptiveSuccessorPermit) -> (r: bool)
    ensures
        r == (pending@ == permit@),
{
    pending.thread_id == permit.thread_id && pending.source_turn_id == permit.source_turn_id
        && pending.decision == permit.decision && pending.route == permit.route
        && pending.attempt_number == permit.attempt_number && pending.worker_context.same_as(
        &permit.worker_context,
    )
}

fn opt_is(o: &Option<String>, s: &str) -> (r: bool)
    ensures
        r == (crate::worker::opt_str_view(*o) == Some(s@)),
{
    match o {
        Some(t) => str_eq(t.as_str(), s),
        None => false,
    }
}

impl ChatWidget {
    fn route_is_effective(&self, route: AdaptiveRoute) -> (b: bool)
        ensures
            b == route_is_effective(self@, route),
    {
        str_eq(self.current_model.as_str(), route.family.model()) && match self.effective_reasoning_effort {
            Some(e) => e == reasoning_effort(route.effort),
            None => false,
        }
    }

    fn check_pending_attempt(&self, source_turn_id: &str, pending: &AdaptivePendingAttempt) -> (r:
        AdaptiveAdmissionResult)
        requires
            self@.adaptive.pending_attempt == Some(pending@),
            self@.adaptive.enabled,
            !self@.adaptive.paused_by_user,
            self@.adaptive.workflow_terminal is None,
            !self@.agent_turn_running,
            !self@.task_running,
            self@.adaptive.successor_admission is None,
        ensures
            r@ == spec_reserve_result(self@, source_turn_id@),
    {
        let state = &self.adaptive_effort;
        if !str_eq(pending.source_turn_id.as_str(), source_turn_id) || !opt_is(
            &state.last_processed_terminal_turn_id,
            source_turn_id,
        ) || !opt_is(&self.turn_lifecycle.last_turn_id, source_turn_id) {
            return AdaptiveAdmissionResult::Rejected(
                AdaptiveAdmissionRejectedReason::SourceTurnMismatch,
            );
        }
        match self.thread_id() {
            Some(t) => if t != pending.thread_id {
                return AdaptiveAdmissionResult::Rejected(
                    AdaptiveAdmissionRejectedReason::ThreadMismatch,
                );
            },
            None => {
                return AdaptiveAdmissionResult::Rejected(
                    AdaptiveAdmissionRejectedReason::ThreadMismatch,
                );
            },
        }
        if pending.attempt_number != state.attempt_number {
            return AdaptiveAdmissionResult::Rejected(
                AdaptiveAdmissionRejectedReason::AttemptMismatch,
            );
        }
        let canonical_route = match (state.current_family, state.current_effort) {
            (Some(family), Some(effort)) => AdaptiveRoute { family, effort },
            _ => {
                return AdaptiveAdmissionResult::Rejected(
                    AdaptiveAdmissionRejectedReason::RouteMismatch,
                );
            },
        };
        if pending.route != canonical_route {
            return AdaptiveAdmissionResult::Rejected(
                AdaptiveAdmissionRejectedReason::RouteMismatch,
            );
        }
        if !pending.worker_context.same_as(&state.worker_context) {
            return AdaptiveAdmissionResult::Rejected(
                AdaptiveAdmissionRejectedReason::WorkerContextMismatch,
            );
        }
        if !self.route_is_effective(pending.route) {
            return AdaptiveAdmissionResult::Waiting(
                AdaptiveAdmissionWaitingReason::EffectiveRouteSynchronization,
            );
        }
        AdaptiveAdmissionResult::Authorized(permit_of(pending))
    }

    /// Reserves the one admission permit authorized by the current pending
    /// attempt.
    pub fn reserve_adaptive_successor_admission(&mut self, source_turn_id: &str) -> (r:
        AdaptiveAdmissionResult)
        ensures
            r@ == spec_reserve_result(old(self)@, source_turn_id@),
            final(self)@ == spec_reserve(old(self)@, source_turn_id@),
    {
        let state = &self.adaptive_effort;
        if !state.enabled {
            return AdaptiveAdmissionResult::Suppressed(
                AdaptiveAdmissionSuppressedReason::AdaptiveDisabled,
            );
        }
        if state.paused_by_user {
            return AdaptiveAdmissionResult::Suppressed(
                AdaptiveAdmissionSuppressedReason::PausedByUser,
            );
        }
        if state.workflow_terminal.is_some() {
            return AdaptiveAdmissionResult::Suppressed(
                AdaptiveAdmissionSuppressedReason::WorkflowTerminal,
            );
        }
        if self.turn_lifecycle.agent_turn_running || self.task_running {
            return AdaptiveAdmissionResult::Suppressed(
                AdaptiveAdmissionSuppressedReason::ThreadLifecycle,
            );
        }
        match &state.successor_admission {
            Some(AdaptiveSuccessorAdmission::Reserved(_)) => {
                return AdaptiveAdmissionResult::Suppressed(
                    AdaptiveAdmissionSuppressedReason::AlreadyReserved,
                );
            },
            Some(AdaptiveSuccessorAdmission::Consumed(_)) => {
                return AdaptiveAdmissionResult::Suppressed(
                    AdaptiveAdmissionSuppressedReason::AlreadyConsumed,
                );
            },
            None => {},
        }
        let pending = match &state.pending_attempt {
            Some(p) => p.duplicate(),
            None => {
                return AdaptiveAdmissionResult::Rejected(
                    AdaptiveAdmissionRejectedReason::MissingPendingAttempt,
                );
            },
        };
        let result = self.check_pending_attempt(source_turn_id, &pending);
        match &result {
            AdaptiveAdmissionResult::Authorized(permit) => {
                self.adaptive_effort.successor_admission = Some(
                    AdaptiveSuccessorAdmission::Reserved(permit.duplicate()),
                );
                self.save_adaptive_effort_for_current_thread();
            },
            _ => {},
        }
        result
    }

    /// Consumes the reserved permit, once.
    pub fn consume_adaptive_successor_admission(&mut self, permit: &AdaptiveSuccessorPermit) -> (r:
        bool)
        ensures
            (final(self)@, r) == spec_consume_admission(old(self)@, permit@),
    {
        let reserved = match &self.adaptive_effort.successor_admission {
            Some(AdaptiveSuccessorAdmission::Reserved(p)) => p.same_as(permit),
            _ => false,
        };
        if !reserved {
            return false;
        }
        self.adaptive_effort.successor_admission = Some(
            AdaptiveSuccessorAdmission::Consumed(permit.duplicate()),
        );
        self.save_adaptive_effort_for_current_thread();
        true
    }

    pub fn adaptive_successor_permit_is_still_valid(&self, permit: &AdaptiveSuccessorPermit) -> (b:
        bool)
        ensures
            b == spec_permit_valid(self@, permit@),
    {
        let state = &self.adaptive_effort;
        let thread_matches = match self.thread_id() {
            Some(t) => t == permit.thread_id,
            None => false,
        };
        let pending_matches = match &state.pending_attempt {
            Some(pending) => attempt_matches(pending, permit),
            None => false,
        };
        let route_matches = match (state.current_family, state.current_effort) {
            (Some(f), Some(e)) => f == permit.route.family && e == permit.route.effort,
            _ => false,
        };
        state.enabled && !state.paused_by_user && state.workflow_terminal.is_none()
            && !self.user_turn_pending_or_running && !self.queued_follow_up_messages
            && thread_matches && opt_is(
            &state.last_processed_terminal_turn_id,
            permit.source_turn_id.as_str(),
        ) && opt_is(&self.turn_lifecycle.last_turn_id, permit.source_turn_id.as_str())
            && state.attempt_number == permit.attempt_number && state.worker_context.same_as(
            &permit.worker_context,
        ) && pending_matches && route_matches && self.route_is_effective(permit.route)
    }

    fn submit_permit(&mut self, permit: &AdaptiveSuccessorPermit) -> (submitted: bool)
        ensures
            (final(self)@, submitted) == spec_submit_permit(old(self)@, permit@),
    {
        if !self.adaptive_successor_permit_is_still_valid(permit) {
            self.adaptive_effort.successor_admission = None;
            self.adaptive_effort.pending_attempt = None;
            self.save_adaptive_effort_for_current_thread();
            return false;
        }
        if !self.consume_adaptive_successor_admission(permit) {
            return false;
        }
        self.adaptive_effort.pending_attempt = None;
        self.save_adaptive_effort_for_current_thread();
        self.push_event(AppEvent::SubmitUserMessage(adaptive_continuation_text(permit)));
        true
    }

    /// Requests the submission of the successor of the last processed
    /// terminal turn when the controller authorized one and its permit still
    /// holds, and returns whether it did. The application performs the
    /// requested submission, the last event, and reports whether it accepted
    /// the turn; `successor_submission_outcome` then gives the answer.
    pub fn maybe_submit_adaptive_successor(&mut self) -> (submitted: bool)
        ensures
            (final(self)@, submitted) == spec_maybe_submit(old(self)@),
    {
        let source_turn_id = match &self.adaptive_effort.last_processed_terminal_turn_id {
            Some(t) => t.clone(),
            None => return false,
        };
        let permit = match &self.adaptive_effort.successor_admission {
            Some(AdaptiveSuccessorAdmission::Reserved(permit)) => permit.duplicate(),
            Some(AdaptiveSuccessorAdmission::Consumed(_)) => return false,
            None => match self.reserve_adaptive_successor_admission(source_turn_id.as_str()) {
                AdaptiveAdmissionResult::Authorized(permit) => permit,
                _ => return false,
            },
        };
        self.submit_permit(&permit)
    }
}

/// Whether the successor was submitted, once the application has reported
/// whether it accepted the requested turn: only a requested and accepted turn
/// counts. The permit was consumed when the turn was requested, so a refused
/// submission is never retried.
pub fn successor_submission_outcome(requested: bool, accepted: bool) -> (submitted: bool)
    ensures
        submitted == (requested && accepted),
{
    requested && accepted
}

} // verus!
