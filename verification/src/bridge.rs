//! Live terminal-event bridge for the deterministic adaptive controller.
use vstd::prelude::*;

use crate::chat::{AppEvent, ChatView, ChatWidget, EventView, emit, saved, with_adaptive};
use crate::controller::{
    AdaptiveControllerDecision, AdaptiveControllerState, reduce_adaptive_controller,
    spec_advances_attempt, spec_reduce,
};
use crate::effort::{
    AdaptiveEffortState, AdaptivePendingAttempt, AdaptivePendingDecision, AttemptView, EffortView,
    ReasoningEffort, reasoning_effort, spec_model, spec_reasoning_effort,
};
use crate::evidence::ThreadId;
use crate::policy::{
    AdaptiveClassification, AdaptiveFailureKind, AdaptiveOutcome, AdaptiveOutcomeSignal,
    AdaptiveRoute, classify_outcome, mk_route, spec_classify_outcome,
};
use crate::text::{str_eq, string_from};
use crate::worker::{AdaptiveWorkerContext, WorkerContextView, opt_str_view};

verus! {

/// The controller snapshot of the thread's adaptive state, when it has a
/// starting preference and a complete current route.
pub open spec fn controller_of(a: EffortView) -> Option<AdaptiveControllerState> {
    match (a.starting_family, a.current_family, a.current_effort) {
        (Some(s), Some(f), Some(e)) => Some(
            AdaptiveControllerState {
                starting_family: s,
                current_route: mk_route(f, e),
                attempt_number: a.attempt_number,
                transient_retry_consumed: a.transient_retry_consumed,
                paused_by_user: a.paused_by_user,
                terminal: a.workflow_terminal,
            },
        ),
        _ => None,
    }
}

/// Whether a terminal event of `turn` may still be processed: adaptive
/// routing is live and the turn has not been processed yet.
pub open spec fn terminal_gate(a: EffortView, turn: Seq<char>) -> bool {
    a.enabled && !a.paused_by_user && a.workflow_terminal is None
        && a.last_processed_terminal_turn_id != Some(turn)
}

/// The attempt counter can take the next attempt that `classification` may
/// authorize.
pub open spec fn has_headroom(a: EffortView, classification: AdaptiveClassification) -> bool {
    match controller_of(a) {
        Some(cs) => spec_advances_attempt(cs, classification) ==> a.attempt_number < u32::MAX,
        None => true,
    }
}

/// The attempt a controller decision authorizes, bound to its thread, turn,
/// route and Worker authority; none for decisions that authorize nothing.
pub open spec fn spec_pending_attempt(
    thread_id: Option<ThreadId>,
    worker_context: WorkerContextView,
    source_turn_id: Seq<char>,
    decision: AdaptiveControllerDecision,
    route: AdaptiveRoute,
) -> Option<AttemptView> {
    match thread_id {
        None => None,
        Some(t) => {
            let tagged = match decision {
                AdaptiveControllerDecision::RetrySameLevel { next_attempt, .. } => Some(
                    (AdaptivePendingDecision::RetrySameLevel, next_attempt),
                ),
                AdaptiveControllerDecision::EscalateEffort { next_attempt, .. } => Some(
                    (AdaptivePendingDecision::EscalateEffort, next_attempt),
                ),
                AdaptiveControllerDecision::EscalateModel { next_attempt, .. } => Some(
                    (AdaptivePendingDecision::EscalateModel, next_attempt),
                ),
                _ => None,
            };
            match tagged {
                Some((d, n)) => Some(
                    AttemptView {
                        thread_id: t,
                        source_turn_id,
                        decision: d,
                        route,
                        attempt_number: n,
                        worker_context,
                    },
                ),
                None => None,
            }
        },
    }
}

/// The last outcome and failure kind that a signal records.
pub open spec fn spec_project_signal(a: EffortView, signal: AdaptiveOutcomeSignal) -> EffortView {
    match signal {
        AdaptiveOutcomeSignal::Completed => a,
        AdaptiveOutcomeSignal::Failed => EffortView {
            last_outcome: Some(AdaptiveOutcome::Unknown),
            last_failure_kind: Some(AdaptiveFailureKind::Unknown),
            ..a
        },
        AdaptiveOutcomeSignal::Failure(kind) => EffortView {
            last_failure_kind: Some(kind),
            last_outcome: Some(
                match kind {
                    AdaptiveFailureKind::UserInterrupted => AdaptiveOutcome::UserInterrupted,
                    AdaptiveFailureKind::ReadyForOwnerQa => AdaptiveOutcome::ReadyForOwnerQa,
                    _ => AdaptiveOutcome::Unknown,
                },
            ),
            ..a
        },
        AdaptiveOutcomeSignal::UserInterrupted => EffortView {
            last_outcome: Some(AdaptiveOutcome::UserInterrupted),
            last_failure_kind: None,
            ..a
        },
        AdaptiveOutcomeSignal::ReadyForOwnerQa => EffortView {
            last_outcome: Some(AdaptiveOutcome::ReadyForOwnerQa),
            last_failure_kind: None,
            ..a
        },
    }
}

/// An escalation asks the application to switch the session to the new
/// route's model and effort, each only when it differs from the effective one.
pub open spec fn spec_apply_route(
    c: ChatView,
    decision: AdaptiveControllerDecision,
    route: AdaptiveRoute,
) -> ChatView {
    if !(decision is EscalateEffort || decision is EscalateModel) {
        c
    } else {
        let model = spec_model(route.family);
        let c1 = if c.current_model != model {
            emit(c, EventView::UpdateModel(model))
        } else {
            c
        };
        let effort = spec_reasoning_effort(route.effort);
        if c1.effective_reasoning_effort != Some(effort) {
            emit(c1, EventView::UpdateReasoningEffort(Some(effort)))
        } else {
            c1
        }
    }
}

/// The thread's state after the controller reduced `classification` for the
/// terminal event of `turn`.
pub open spec fn reduced_state(
    c: ChatView,
    turn: Seq<char>,
    signal: AdaptiveOutcomeSignal,
    cs: AdaptiveControllerState,
    classification: AdaptiveClassification,
) -> EffortView {
    let a = c.adaptive;
    let r = spec_reduce(cs, classification);
    spec_project_signal(
        EffortView {
            last_processed_terminal_turn_id: Some(turn),
            current_family: Some(r.state.current_route.family),
            current_effort: Some(r.state.current_route.effort),
            attempt_number: r.state.attempt_number,
            transient_retry_consumed: r.state.transient_retry_consumed,
            paused_by_user: r.state.paused_by_user,
            workflow_terminal: r.state.terminal,
            successor_admission: None,
            pending_attempt: spec_pending_attempt(
                c.thread_id,
                a.worker_context,
                turn,
                r.decision,
                r.state.current_route,
            ),
            ..a
        },
        signal,
    )
}

/// One terminal event, once per turn: the controller's reduction replaces the
/// route, attempt and terminal, supersedes any unconsumed admission, records
/// the authorized attempt and the signal, is saved, and an escalation switches
/// the session route.
pub open spec fn spec_apply_classification(
    c: ChatView,
    turn: Seq<char>,
    signal: AdaptiveOutcomeSignal,
    classification: AdaptiveClassification,
) -> ChatView {
    if !terminal_gate(c.adaptive, turn) {
        c
    } else {
        match controller_of(c.adaptive) {
            None => c,
            Some(cs) => {
                let r = spec_reduce(cs, classification);
                spec_apply_route(
                    saved(with_adaptive(c, reduced_state(c, turn, signal, cs, classification))),
                    r.decision,
                    r.state.current_route,
                )
            },
        }
    }
}

pub fn pending_attempt(
    thread_id: Option<ThreadId>,
    worker_context: &AdaptiveWorkerContext,
    source_turn_id: &str,
    decision: AdaptiveControllerDecision,
    route: AdaptiveRoute,
) -> (p: Option<AdaptivePendingAttempt>)
    ensures
        crate::effort::opt_attempt_view(p) == spec_pending_attempt(
            thread_id,
            worker_context@,
            source_turn_id@,
            decision,
            route,
        ),
{
    let thread_id = match thread_id {
        Some(t) => t,
        None => return None,
    };
    let (decision, attempt_number) = match decision {
        AdaptiveControllerDecision::RetrySameLevel { next_attempt, .. } => (
            AdaptivePendingDecision::RetrySameLevel,
            next_attempt,
        ),
        AdaptiveControllerDecision::EscalateEffort { next_attempt, .. } => (
            AdaptivePendingDecision::EscalateEffort,
            next_attempt,
        ),
        AdaptiveControllerDecision::EscalateModel { next_attempt, .. } => (
            AdaptivePendingDecision::EscalateModel,
            next_attempt,
        ),
        _ => return None,
    };
    Some(
        AdaptivePendingAttempt {
            thread_id,
            source_turn_id: string_from(source_turn_id),
            decision,
            route,
            attempt_number,
            worker_context: worker_context.duplicate(),
        },
    )
}

pub fn project_signal(state: &mut AdaptiveEffortState, signal: AdaptiveOutcomeSignal)
    ensures
        final(state)@ == spec_project_signal(old(state)@, signal),
{
    match signal {
        AdaptiveOutcomeSignal::Completed => {},
        AdaptiveOutcomeSignal::Failed => {
            state.last_outcome = Some(AdaptiveOutcome::Unknown);
            state.last_failure_kind = Some(AdaptiveFailureKind::Unknown);
        },
        AdaptiveOutcomeSignal::Failure(kind) => {
            state.last_failure_kind = Some(kind);
            state.last_outcome = Some(
                match kind {
                    AdaptiveFailureKind::UserInterrupted => AdaptiveOutcome::UserInterrupted,
                    AdaptiveFailureKind::ReadyForOwnerQa => AdaptiveOutcome::ReadyForOwnerQa,
                    _ => AdaptiveOutcome::Unknown,
                },
            );
        },
        AdaptiveOutcomeSignal::UserInterrupted => {
            state.last_outcome = Some(AdaptiveOutcome::UserInterrupted);
            state.last_failure_kind = None;
        },
        AdaptiveOutcomeSignal::ReadyForOwnerQa => {
            state.last_outcome = Some(AdaptiveOutcome::ReadyForOwnerQa);
            state.last_failure_kind = None;
        },
    }
}

impl AdaptiveEffortState {
    fn record_reduction(
        &mut self,
        thread_id: Option<ThreadId>,
        source_turn_id: &str,
        signal: AdaptiveOutcomeSignal,
        cs: AdaptiveControllerState,
        classification: AdaptiveClassification,
        reduced: crate::controller::AdaptiveControllerReduction,
    )
        requires
            reduced == spec_reduce(cs, classification),
        ensures
            final(self)@ == ({
                let a = old(self)@;
                let r = reduced;
                spec_project_signal(
                    EffortView {
                        last_processed_terminal_turn_id: Some(source_turn_id@),
                        current_family: Some(r.state.current_route.family),
                        current_effort: Some(r.state.current_route.effort),
                        attempt_number: r.state.attempt_number,
                        transient_retry_consumed: r.state.transient_retry_consumed,
                        paused_by_user: r.state.paused_by_user,
                        workflow_terminal: r.state.terminal,
                        successor_admission: None,
                        pending_attempt: spec_pending_attempt(
                            thread_id,
                            a.worker_context,
                            source_turn_id@,
                            r.decision,
                            r.state.current_route,
                        ),
                        ..a
                    },
                    signal,
                )
            }),
    {
        self.last_processed_terminal_turn_id = Some(string_from(source_turn_id));
        self.current_family = Some(reduced.state.current_route.family);
        self.current_effort = Some(reduced.state.current_route.effort);
        self.attempt_number = reduced.state.attempt_number;
        self.transient_retry_consumed = reduced.state.transient_retry_consumed;
        self.paused_by_user = reduced.state.paused_by_user;
        self.workflow_terminal = reduced.state.terminal;
        self.successor_admission = None;
        self.pending_attempt = pending_attempt(
            thread_id,
            &self.worker_context,
            source_turn_id,
            reduced.decision,
            reduced.state.current_route,
        );
        project_signal(self, signal);
    }
}

impl ChatWidget {
    pub fn apply_adaptive_terminal_signal(&mut self, source_turn_id: &str, signal: AdaptiveOutcomeSignal)
        requires
            has_headroom(old(self)@.adaptive, spec_classify_outcome(signal)),
        ensures
            final(self)@ == spec_apply_classification(
                old(self)@,
                source_turn_id@,
                signal,
                spec_classify_outcome(signal),
            ),
    {
        self.apply_adaptive_terminal_classification(source_turn_id, signal, classify_outcome(signal));
    }

    pub fn apply_adaptive_terminal_classification(
        &mut self,
        source_turn_id: &str,
        signal: AdaptiveOutcomeSignal,
        classification: AdaptiveClassification,
    )
        requires
            has_headroom(old(self)@.adaptive, classification),
        ensures
            final(self)@ == spec_apply_classification(
                old(self)@,
                source_turn_id@,
                signal,
                classification,
            ),
    {
        let state = &self.adaptive_effort;
        let already = match &state.last_processed_terminal_turn_id {
            Some(t) => str_eq(t.as_str(), source_turn_id),
            None => false,
        };
        if !state.enabled || state.paused_by_user || state.workflow_terminal.is_some() || already {
            return;
        }
        let (starting_family, current_family, current_effort) = match (
            state.starting_family,
            state.current_family,
            state.current_effort,
        ) {
            (Some(s), Some(f), Some(e)) => (s, f, e),
            _ => return,
        };
        let controller = AdaptiveControllerState {
            starting_family,
            current_route: AdaptiveRoute { family: current_family, effort: current_effort },
            attempt_number: state.attempt_number,
            transient_retry_consumed: state.transient_retry_consumed,
            paused_by_user: state.paused_by_user,
            terminal: state.workflow_terminal,
        };
        let reduction = reduce_adaptive_controller(controller, classification);
        let thread_id = self.thread_id();
        self.adaptive_effort.record_reduction(
            thread_id,
            source_turn_id,
            signal,
            controller,
            classification,
            reduction,
        );
        self.save_adaptive_effort_for_current_thread();
        self.apply_adaptive_route(reduction.decision, reduction.state.current_route);
    }

    pub fn apply_adaptive_route(&mut self, decision: AdaptiveControllerDecision, route: AdaptiveRoute)
        ensures
            final(self)@ == spec_apply_route(old(self)@, decision, route),
    {
        match decision {
            AdaptiveControllerDecision::EscalateEffort { .. }
            | AdaptiveControllerDecision::EscalateModel { .. } => {},
            _ => return,
        }
        let model = route.family.model();
        if !str_eq(self.current_model.as_str(), model) {
            self.push_event(AppEvent::UpdateModel(string_from(model)));
        }
        let effort = reasoning_effort(route.effort);
        if self.effective_reasoning_effort != Some(effort) {
            self.push_event(AppEvent::UpdateReasoningEffort(Some(effort)));
        }
    }
}

/// A turn's terminal event is processed at most once: applying any event of
/// the same turn again changes nothing.
pub proof fn lemma_terminal_event_processed_once(
    c: ChatView,
    turn: Seq<char>,
    signal: AdaptiveOutcomeSignal,
    classification: AdaptiveClassification,
    later_signal: AdaptiveOutcomeSignal,
    later_classification: AdaptiveClassification,
)
    ensures
        ({
            let once = spec_apply_classification(c, turn, signal, classification);
            spec_apply_classification(once, turn, later_signal, later_classification) == once
        }),
{
    let once = spec_apply_classification(c, turn, signal, classification);
    if terminal_gate(c.adaptive, turn) && controller_of(c.adaptive) is Some {
        let cs = controller_of(c.adaptive)->0;
        let r = spec_reduce(cs, classification);
        let a = reduced_state(c, turn, signal, cs, classification);
        assert(a.last_processed_terminal_turn_id == Some(turn));
        let c1 = saved(with_adaptive(c, a));
        assert(spec_apply_route(c1, r.decision, r.state.current_route).adaptive == a);
    }
}

/// Processing a terminal event never weakens Worker authority: the Worker
/// context, its lock, the evidence and the starting preference are kept.
pub proof fn lemma_terminal_event_keeps_authority(
    c: ChatView,
    turn: Seq<char>,
    signal: AdaptiveOutcomeSignal,
    classification: AdaptiveClassification,
)
    ensures
        ({
            let after = spec_apply_classification(c, turn, signal, classification).adaptive;
            &&& after.worker_context == c.adaptive.worker_context
            &&& after.worker_assignment_locked == c.adaptive.worker_assignment_locked
            &&& after.evidence_registry == c.adaptive.evidence_registry
            &&& after.starting_family == c.adaptive.starting_family
        }),
{
    if terminal_gate(c.adaptive, turn) && controller_of(c.adaptive) is Some {
        let cs = controller_of(c.adaptive)->0;
        let r = spec_reduce(cs, classification);
        let a = reduced_state(c, turn, signal, cs, classification);
        let c1 = saved(with_adaptive(c, a));
        assert(spec_apply_route(c1, r.decision, r.state.current_route).adaptive == a);
    }
}

/// An escalation to `route` asks the application to run the session on that
/// route and on nothing else: the requests only append to the events; the
/// route's model is requested unless it already serves the session; the
/// reasoning effort of the route's own level is requested, last, unless it is
/// already effective. Any other decision requests nothing.
pub proof fn lemma_escalation_switches_the_session_to_its_route(
    c: ChatView,
    decision: AdaptiveControllerDecision,
    route: AdaptiveRoute,
)
    ensures
        ({
            let r = spec_apply_route(c, decision, route);
            let model = spec_model(route.family);
            let effort = spec_reasoning_effort(route.effort);
            &&& !(decision is EscalateEffort || decision is EscalateModel) ==> r == c
            &&& (decision is EscalateEffort || decision is EscalateModel) ==> {
                &&& r == ChatView { events: r.events, ..c }
                &&& c.events.len() <= r.events.len() <= c.events.len() + 2
                &&& r.events.subrange(0, c.events.len() as int) == c.events
                &&& forall|i: int|
                    c.events.len() <= i < r.events.len() ==> #[trigger] r.events[i]
                        == EventView::UpdateModel(model) || r.events[i]
                        == EventView::UpdateReasoningEffort(Some(effort))
                &&& (c.current_model == model) != r.events.subrange(
                    c.events.len() as int,
                    r.events.len() as int,
                ).contains(EventView::UpdateModel(model))
                &&& c.effective_reasoning_effort == Some(effort) || (r.events.len() > c.events.len()
                    && r.events.last() == EventView::UpdateReasoningEffort(Some(effort)))
                &&& c.effective_reasoning_effort == Some(effort) ==> !r.events.subrange(
                    c.events.len() as int,
                    r.events.len() as int,
                ).contains(EventView::UpdateReasoningEffort(Some(effort)))
            }
        }),
{
    let r = spec_apply_route(c, decision, route);
    let model = spec_model(route.family);
    let effort = spec_reasoning_effort(route.effort);
    if decision is EscalateEffort || decision is EscalateModel {
        let n = c.events.len() as int;
        let tail = r.events.subrange(n, r.events.len() as int);
        assert(r.events.subrange(0, n) =~= c.events);
        if c.current_model == model {
            assert(!tail.contains(EventView::UpdateModel(model))) by {
                if tail.contains(EventView::UpdateModel(model)) {
                    let k = choose|k: int| 0 <= k < tail.len() && tail[k] == EventView::UpdateModel(model);
                    assert(tail[k] == r.events[n + k]);
                }
            }
        } else {
            assert(tail[0] == EventView::UpdateModel(model));
        }
        if c.effective_reasoning_effort == Some(effort) {
            assert(!tail.contains(EventView::UpdateReasoningEffort(Some(effort)))) by {
                if tail.contains(EventView::UpdateReasoningEffort(Some(effort))) {
                    let k = choose|k: int|
                        0 <= k < tail.len() && tail[k] == EventView::UpdateReasoningEffort(Some(effort));
                    assert(tail[k] == r.events[n + k]);
                }
            }
        }
    }
}

} // verus!
