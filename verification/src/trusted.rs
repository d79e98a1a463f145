//! Terminal-bound validation and consumption of trusted adaptive signals.
use vstd::prelude::*;

use crate::bridge::{has_headroom, spec_apply_classification};
use crate::chat::{
    AppEvent, ChatView, ChatWidget, EventView, ThreadWorkflowStateOperation, effort_name,
    effort_str, emit, saved, with_adaptive,
};
use crate::effort::{
    AdaptivePendingSignal, AdaptiveRuntimeSignalEnvelope, AdaptiveRuntimeSignalKind, EffortView, PendingSignalView, spec_model,
};
use crate::evidence::{
    ADAPTIVE_FAILURE_PRESSURE_THRESHOLD, AUTO_FAILURE_PRESSURE_DIAGNOSTIC,
    AdaptiveEvidenceOutcome, auto_diagnostic, failure_count, spec_validate_outcome,
};
use crate::policy::{
    AdaptiveClassification, AdaptiveFailureKind, AdaptiveOutcomeSignal, AdaptiveRoute,
    AdaptiveTransition, mk_route, next_route, spec_next_route,
};
use crate::text::{append, append_decimal, decimal, is_blank, str_eq, string_from, trim, trimmed};
use crate::transport::set_pending;
use crate::worker::{AdaptiveWorkerRole, AdaptiveWorkflowTerminal, opt_str_view};

verus! {

/// The model-family boundary the next ladder step would cross, if it would.
pub open spec fn spec_boundary(a: EffortView) -> Option<(AdaptiveRoute, AdaptiveRoute)> {
    match (a.starting_family, a.current_family, a.current_effort) {
        (Some(_), Some(f), Some(e)) => match spec_next_route(mk_route(f, e)) {
            AdaptiveTransition::EscalateModel(to) => Some((mk_route(f, e), to)),
            _ => None,
        },
        _ => None,
    }
}

pub open spec fn route_text(r: AdaptiveRoute) -> Seq<char> {
    spec_model(r.family) + " "@ + effort_name(r.effort)
}

pub open spec fn report_text(from: AdaptiveRoute, to: AdaptiveRoute, diagnostic: Seq<char>) -> Seq<
    char,
> {
    "Adaptive model escalation report\n  From: "@ + route_text(from) + "\n  To: "@ + route_text(to)
        + "\n  Why: "@ + trim(diagnostic)
}

pub open spec fn withheld_text(from: AdaptiveRoute, to: AdaptiveRoute) -> Seq<char> {
    "Adaptive model escalation withheld\n  From: "@ + route_text(from) + "\n  Proposed: "@
        + route_text(to) + "\n  Native failure pressure: "@ + decimal(
        ADAPTIVE_FAILURE_PRESSURE_THRESHOLD as nat,
    ) + "/"@ + decimal(ADAPTIVE_FAILURE_PRESSURE_THRESHOLD as nat)
        + "\n  Required: a fresh trusted Capability report explaining why stronger model capability is required. Two failed tools alone can raise effort inside one model family, but cannot authorize a model-family jump."@
}

/// Native failure pressure of `turn` is available while adaptive routing is
/// live and the turn has at least the threshold of failing native records.
pub open spec fn spec_pressure_available(c: ChatView, turn: Seq<char>) -> bool {
    match c.thread_id {
        Some(t) => c.adaptive.enabled && !c.adaptive.paused_by_user && c.adaptive.workflow_terminal
            is None && failure_count(c.adaptive.evidence_registry, t, turn)
            >= ADAPTIVE_FAILURE_PRESSURE_THRESHOLD,
        None => false,
    }
}

/// Evidence references back a terminal when there is at least one and each
/// resolves, in this thread, to a record with the expected outcome.
pub open spec fn spec_valid_refs(
    c: ChatView,
    refs: Seq<Seq<char>>,
    expected: AdaptiveEvidenceOutcome,
) -> bool {
    match c.thread_id {
        None => false,
        Some(t) => refs.len() > 0 && forall|i: int|
            0 <= i < refs.len() ==> #[trigger] spec_validate_outcome(
                c.adaptive.evidence_registry,
                refs[i],
                t,
                expected,
            ) is Ok,
    }
}

/// Latching a workflow terminal is a hard stop: no pressure, pending attempt
/// or admission remains, and an owner-QA terminal is persisted.
pub open spec fn spec_latch(c: ChatView, turn: Seq<char>, terminal: AdaptiveWorkflowTerminal) -> ChatView {
    let c1 = saved(
        with_adaptive(
            c,
            EffortView {
                workflow_terminal: Some(terminal),
                unfinished_turn_pressure: 0,
                last_processed_terminal_turn_id: Some(turn),
                pending_attempt: None,
                successor_admission: None,
                ..c.adaptive
            },
        ),
    );
    match c.thread_id {
        Some(t) => if terminal == AdaptiveWorkflowTerminal::ReadyForOwnerQa {
            emit(
                c1,
                EventView::PersistWorkflowState {
                    thread_id: t,
                    operation: ThreadWorkflowStateOperation::SetReadyForOwnerQa,
                    source_turn_id: Some(turn),
                },
            )
        } else {
            c1
        },
        None => c1,
    }
}

/// A capability signal at the terminal boundary. The synthetic
/// failure-pressure report never crosses a model-family boundary: there it is
/// withheld and the turn is closed without an attempt. Otherwise the
/// escalation is reported when it crosses a boundary and the controller
/// reduces a capability failure.
pub open spec fn spec_apply_capability(c: ChatView, turn: Seq<char>, diagnostic: Seq<char>) -> ChatView {
    if diagnostic == auto_diagnostic() && spec_boundary(c.adaptive) is Some {
        let (from, to) = spec_boundary(c.adaptive)->0;
        saved(
            emit(
                with_adaptive(
                    c,
                    EffortView {
                        unfinished_turn_pressure: 0,
                        last_processed_terminal_turn_id: Some(turn),
                        pending_attempt: None,
                        successor_admission: None,
                        last_outcome: None,
                        last_failure_kind: None,
                        ..c.adaptive
                    },
                ),
                EventView::InfoMessage(withheld_text(from, to)),
            ),
        )
    } else {
        let c1 = match spec_boundary(c.adaptive) {
            Some((from, to)) => emit(c, EventView::InfoMessage(report_text(from, to, diagnostic))),
            None => c,
        };
        spec_apply_classification(
            c1,
            turn,
            AdaptiveOutcomeSignal::Failure(AdaptiveFailureKind::Capability),
            AdaptiveClassification::EscalationEligible,
        )
    }
}

pub open spec fn trimmed_note(note: Option<Seq<char>>) -> Option<Seq<char>> {
    match note {
        Some(n) => if trim(n).len() > 0 {
            Some(trim(n))
        } else {
            None
        },
        None => None,
    }
}

/// Whether a pending signal is accepted at its turn's terminal. A capability
/// report needs a non-blank diagnostic and no evidence; an implementation or
/// repair handoff needs no evidence; a validation verdict needs evidence with
/// the matching native outcome. A complexity report authorizes nothing here.
pub open spec fn spec_accepted(c: ChatView, e: crate::effort::EnvelopeView) -> bool {
    match e.signal_kind {
        AdaptiveRuntimeSignalKind::Capability => e.evidence_refs.len() == 0 && trimmed_note(
            e.diagnostic_note,
        ) is Some,
        AdaptiveRuntimeSignalKind::ReadyForValidation => e.evidence_refs.len() == 0 && (
        c.adaptive.worker_context.role == AdaptiveWorkerRole::Implementation
            || c.adaptive.worker_context.role == AdaptiveWorkerRole::Repair),
        AdaptiveRuntimeSignalKind::RepairRequired => c.adaptive.worker_context.role
            == AdaptiveWorkerRole::Validation && spec_valid_refs(
            c,
            e.evidence_refs,
            AdaptiveEvidenceOutcome::Failure,
        ),
        AdaptiveRuntimeSignalKind::ReadyForOwnerQa => c.adaptive.worker_context.role
            == AdaptiveWorkerRole::Validation && spec_valid_refs(
            c,
            e.evidence_refs,
            AdaptiveEvidenceOutcome::Success,
        ),
        AdaptiveRuntimeSignalKind::Complexity => false,
    }
}

/// Falling back on native failure pressure: the turn's signal is consumed as
/// the synthetic capability report.
pub open spec fn spec_pressure_fallback(c: ChatView, turn: Seq<char>) -> ChatView {
    spec_apply_capability(
        set_pending(c, Some(PendingSignalView::Consumed(turn))),
        turn,
        auto_diagnostic(),
    )
}

/// What an accepted pending signal does at its turn's terminal.
pub open spec fn spec_consume_accepted(c: ChatView, turn: Seq<char>, e: crate::effort::EnvelopeView) -> (
    ChatView,
    bool,
) {
    let c1 = set_pending(c, Some(PendingSignalView::Consumed(turn)));
    match e.signal_kind {
        AdaptiveRuntimeSignalKind::Capability => (
            spec_apply_capability(c1, turn, trimmed_note(e.diagnostic_note)->0),
            true,
        ),
        AdaptiveRuntimeSignalKind::ReadyForValidation => (
            spec_latch(c1, turn, AdaptiveWorkflowTerminal::ReadyForValidation),
            true,
        ),
        AdaptiveRuntimeSignalKind::RepairRequired => (
            spec_latch(c1, turn, AdaptiveWorkflowTerminal::RepairRequired),
            true,
        ),
        _ => (spec_latch(c1, turn, AdaptiveWorkflowTerminal::ReadyForOwnerQa), true),
    }
}

/// Consumption of the turn's pending signal at its terminal boundary, and
/// whether it acted.
pub open spec fn spec_consume(c: ChatView, turn: Seq<char>) -> (ChatView, bool) {
    if c.adaptive.workflow_terminal is Some {
        (c, false)
    } else {
        match c.adaptive.pending_signal {
            Some(PendingSignalView::Pending(e)) => if e.source_turn_id != turn {
                (c, false)
            } else if spec_accepted(c, e) {
                spec_consume_accepted(c, turn, e)
            } else {
                let c1 = set_pending(c, Some(PendingSignalView::Cancelled(turn)));
                if spec_pressure_available(c1, turn) {
                    (spec_pressure_fallback(c1, turn), true)
                } else {
                    (saved(c1), false)
                }
            },
            Some(PendingSignalView::Conflicted(t)) => if t != turn || !spec_pressure_available(
                c,
                turn,
            ) {
                (c, false)
            } else {
                (spec_pressure_fallback(c, turn), true)
            },
            _ => (c, false),
        }
    }
}

/// A capability failure moves to another model family only where the next
/// ladder step is a model-family jump.
pub proof fn lemma_family_jump_only_at_boundary(c: ChatView, turn: Seq<char>)
    ensures
        spec_apply_classification(
            c,
            turn,
            AdaptiveOutcomeSignal::Failure(AdaptiveFailureKind::Capability),
            AdaptiveClassification::EscalationEligible,
        ).adaptive.current_family != c.adaptive.current_family ==> spec_boundary(c.adaptive)
            is Some,
{
    match (c.adaptive.starting_family, c.adaptive.current_family, c.adaptive.current_effort) {
        (Some(_), Some(f), Some(e)) => {
            crate::policy::lemma_transitions_never_decrease(mk_route(f, e));
        },
        _ => {},
    }
}

/// Native failure pressure never crosses a model-family boundary: at a
/// boundary the synthetic report keeps the route and attempt, and authorizes
/// no attempt or successor.
pub proof fn lemma_pressure_never_crosses_family(c: ChatView, turn: Seq<char>)
    requires
        spec_boundary(c.adaptive) is Some,
    ensures
        spec_apply_capability(c, turn, auto_diagnostic()).adaptive.current_family
            == c.adaptive.current_family,
        spec_apply_capability(c, turn, auto_diagnostic()).adaptive.current_effort
            == c.adaptive.current_effort,
        spec_apply_capability(c, turn, auto_diagnostic()).adaptive.attempt_number
            == c.adaptive.attempt_number,
        spec_apply_capability(c, turn, auto_diagnostic()).adaptive.pending_attempt is None,
        spec_apply_capability(c, turn, auto_diagnostic()).adaptive.successor_admission is None,
{
}

/// Crossing a model-family boundary at a terminal needs the turn's own
/// trusted capability report with a non-blank reason of its own; failure
/// pressure, workflow handoffs and rejected signals never change the family.
pub proof fn lemma_family_jump_needs_capability_report(c: ChatView, turn: Seq<char>)
    ensures
        spec_consume(c, turn).0.adaptive.current_family != c.adaptive.current_family ==> (
        c.adaptive.pending_signal matches Some(PendingSignalView::Pending(e)) && e.source_turn_id
            == turn && e.signal_kind == AdaptiveRuntimeSignalKind::Capability && trimmed_note(
            e.diagnostic_note,
        ) is Some && trimmed_note(e.diagnostic_note)->0 != auto_diagnostic()),
{
    let cancelled = set_pending(c, Some(PendingSignalView::Cancelled(turn)));
    let consumed = set_pending(c, Some(PendingSignalView::Consumed(turn)));
    lemma_family_jump_only_at_boundary(consumed, turn);
    lemma_family_jump_only_at_boundary(set_pending(cancelled, Some(PendingSignalView::Consumed(turn))), turn);
    match c.adaptive.pending_signal {
        Some(PendingSignalView::Pending(e)) => {
            match trimmed_note(e.diagnostic_note) {
                Some(n) => {
                    match spec_boundary(consumed.adaptive) {
                        Some((from, to)) => {
                            lemma_family_jump_only_at_boundary(
                                emit(consumed, EventView::InfoMessage(report_text(from, to, n))),
                                turn,
                            );
                        },
                        None => {},
                    }
                },
                None => {},
            }
        },
        _ => {},
    }
}

/// Every workflow terminal suppresses later signals: nothing is consumed and
/// nothing changes.
pub proof fn lemma_terminal_suppresses_consumption(c: ChatView, turn: Seq<char>)
    requires
        c.adaptive.workflow_terminal is Some,
    ensures
        spec_consume(c, turn) == (c, false),
{
}

fn route_string(r: AdaptiveRoute) -> (s: String)
    ensures
        s@ == route_text(r),
{
    let mut s = string_from(r.family.model());
    append(&mut s, " ");
    append(&mut s, effort_str(r.effort));
    s
}

impl ChatWidget {
    pub fn model_escalation_boundary(&self) -> (b: Option<(AdaptiveRoute, AdaptiveRoute)>)
        ensures
            b == spec_boundary(self@.adaptive),
    {
        let state = &self.adaptive_effort;
        let (starting_family, current_family, current_effort) = match (
            state.starting_family,
            state.current_family,
            state.current_effort,
        ) {
            (Some(s), Some(f), Some(e)) => (s, f, e),
            _ => return None,
        };
        let from = AdaptiveRoute { family: current_family, effort: current_effort };
        match next_route(starting_family, from) {
            AdaptiveTransition::EscalateModel(to) => Some((from, to)),
            _ => None,
        }
    }

    pub fn model_escalation_report(&self, diagnostic: &str) -> (r: Option<String>)
        ensures
            match spec_boundary(self@.adaptive) {
                Some((from, to)) => r is Some && r->0@ == report_text(from, to, diagnostic@),
                None => r is None,
            },
    {
        let (from, to) = match self.model_escalation_boundary() {
            Some(b) => b,
            None => return None,
        };
        let mut text = string_from("Adaptive model escalation report\n  From: ");
        append(&mut text, route_string(from).as_str());
        append(&mut text, "\n  To: ");
        append(&mut text, route_string(to).as_str());
        append(&mut text, "\n  Why: ");
        append(&mut text, trimmed(diagnostic).as_str());
        Some(text)
    }

    pub fn native_failure_pressure_available(&self, source_turn_id: &str) -> (b: bool)
        ensures
            b == spec_pressure_available(self@, source_turn_id@),
    {
        match self.thread_id {
            Some(thread_id) => self.adaptive_effort.enabled && !self.adaptive_effort.paused_by_user
                && self.adaptive_effort.workflow_terminal.is_none()
                && self.adaptive_effort.evidence_registry.failure_pressure_for_turn(
                thread_id,
                source_turn_id,
            ) >= ADAPTIVE_FAILURE_PRESSURE_THRESHOLD,
            None => false,
        }
    }

    pub fn valid_evidence_refs(&self, evidence_refs: &Vec<String>, expected: AdaptiveEvidenceOutcome) -> (b:
        bool)
        ensures
            b == spec_valid_refs(self@, evidence_refs.deep_view(), expected),
    {
        let thread_id = match self.thread_id {
            Some(t) => t,
            None => return false,
        };
        if evidence_refs.len() == 0 {
            return false;
        }
        let ghost refs = evidence_refs.deep_view();
        let mut i: usize = 0;
        while i < evidence_refs.len()
            invariant
                i <= evidence_refs@.len(),
                refs == evidence_refs.deep_view(),
                refs.len() == evidence_refs@.len(),
                self.thread_id == Some(thread_id),
                forall|j: int|
                    0 <= j < i ==> #[trigger] spec_validate_outcome(
                        self@.adaptive.evidence_registry,
                        refs[j],
                        thread_id,
                        expected,
                    ) is Ok,
            decreases evidence_refs@.len() - i,
        {
            assert(refs[i as int] == evidence_refs@[i as int]@);
            let ok = self.adaptive_effort.evidence_registry.validate_outcome(
                evidence_refs[i].as_str(),
                thread_id,
                expected,
            ).is_ok();
            if !ok {
                return false;
            }
            i = i + 1;
        }
        true
    }

    pub fn latch_workflow_terminal(&mut self, source_turn_id: &str, terminal: AdaptiveWorkflowTerminal)
        ensures
            final(self)@ == spec_latch(old(self)@, source_turn_id@, terminal),
    {
        self.adaptive_effort.workflow_terminal = Some(terminal);
        self.adaptive_effort.unfinished_turn_pressure = 0;
        self.adaptive_effort.last_processed_terminal_turn_id = Some(string_from(source_turn_id));
        self.adaptive_effort.pending_attempt = None;
        self.adaptive_effort.successor_admission = None;
        self.save_adaptive_effort_for_current_thread();
        if terminal == AdaptiveWorkflowTerminal::ReadyForOwnerQa {
            match self.thread_id {
                Some(thread_id) => {
                    self.push_event(
                        AppEvent::PersistWorkflowState {
                            thread_id,
                            operation: ThreadWorkflowStateOperation::SetReadyForOwnerQa,
                            source_turn_id: Some(string_from(source_turn_id)),
                        },
                    );
                },
                None => {},
            }
        }
    }

    pub fn apply_capability_signal_with_report(&mut self, source_turn_id: &str, diagnostic: &str)
        requires
            has_headroom(old(self)@.adaptive, AdaptiveClassification::EscalationEligible),
        ensures
            final(self)@ == spec_apply_capability(old(self)@, source_turn_id@, diagnostic@),
    {
        if str_eq(diagnostic, AUTO_FAILURE_PRESSURE_DIAGNOSTIC) {
            match self.model_escalation_boundary() {
                Some((from, to)) => {
                    self.adaptive_effort.unfinished_turn_pressure = 0;
                    self.adaptive_effort.last_processed_terminal_turn_id = Some(
                        string_from(source_turn_id),
                    );
                    self.adaptive_effort.pending_attempt = None;
                    self.adaptive_effort.successor_admission = None;
                    self.adaptive_effort.last_outcome = None;
                    self.adaptive_effort.last_failure_kind = None;
                    let mut text = string_from("Adaptive model escalation withheld\n  From: ");
                    append(&mut text, route_string(from).as_str());
                    append(&mut text, "\n  Proposed: ");
                    append(&mut text, route_string(to).as_str());
                    append(&mut text, "\n  Native failure pressure: ");
                    append_decimal(&mut text, ADAPTIVE_FAILURE_PRESSURE_THRESHOLD as u64);
                    append(&mut text, "/");
                    append_decimal(&mut text, ADAPTIVE_FAILURE_PRESSURE_THRESHOLD as u64);
                    append(
                        &mut text,
                        "\n  Required: a fresh trusted Capability report explaining why stronger model capability is required. Two failed tools alone can raise effort inside one model family, but cannot authorize a model-family jump.",
                    );
                    self.add_info_message(text);
                    self.save_adaptive_effort_for_current_thread();
                    return;
                },
                None => {},
            }
        }
        match self.model_escalation_report(diagnostic) {
            Some(report) => self.add_info_message(report),
            None => {},
        }
        self.apply_adaptive_terminal_signal(
            source_turn_id,
            AdaptiveOutcomeSignal::Failure(AdaptiveFailureKind::Capability),
        );
    }

    fn capability_diagnostic(note: &Option<String>) -> (d: Option<String>)
        ensures
            match trimmed_note(opt_str_view(*note)) {
                Some(n) => d is Some && d->0@ == n,
                None => d is None,
            },
    {
        match note {
            Some(n) => if is_blank(n.as_str()) {
                None
            } else {
                Some(trimmed(n.as_str()))
            },
            None => None,
        }
    }

    pub(crate) fn signal_accepted(&self, envelope: &AdaptiveRuntimeSignalEnvelope) -> (b: bool)
        ensures
            b == spec_accepted(self@, envelope@),
    {
        let role = self.adaptive_effort.worker_context.role;
        match envelope.signal_kind {
            AdaptiveRuntimeSignalKind::Capability => {
                envelope.evidence_refs.len() == 0 && Self::capability_diagnostic(
                    &envelope.diagnostic_note,
                ).is_some()
            },
            AdaptiveRuntimeSignalKind::ReadyForValidation => {
                envelope.evidence_refs.len() == 0 && (role == AdaptiveWorkerRole::Implementation
                    || role == AdaptiveWorkerRole::Repair)
            },
            AdaptiveRuntimeSignalKind::RepairRequired => {
                role == AdaptiveWorkerRole::Validation && self.valid_evidence_refs(
                    &envelope.evidence_refs,
                    AdaptiveEvidenceOutcome::Failure,
                )
            },
            AdaptiveRuntimeSignalKind::ReadyForOwnerQa => {
                role == AdaptiveWorkerRole::Validation && self.valid_evidence_refs(
                    &envelope.evidence_refs,
                    AdaptiveEvidenceOutcome::Success,
                )
            },
            AdaptiveRuntimeSignalKind::Complexity => false,
        }
    }

    fn fall_back_on_pressure(&mut self, source_turn_id: &str)
        requires
            has_headroom(old(self)@.adaptive, AdaptiveClassification::EscalationEligible),
        ensures
            final(self)@ == spec_pressure_fallback(old(self)@, source_turn_id@),
    {
        self.adaptive_effort.pending_signal = Some(
            AdaptivePendingSignal::Consumed { source_turn_id: string_from(source_turn_id) },
        );
        self.apply_capability_signal_with_report(source_turn_id, AUTO_FAILURE_PRESSURE_DIAGNOSTIC);
    }

    fn act_on_accepted(&mut self, source_turn_id: &str, envelope: &AdaptiveRuntimeSignalEnvelope)
        requires
            has_headroom(old(self)@.adaptive, AdaptiveClassification::EscalationEligible),
            spec_accepted(old(self)@, envelope@),
            envelope@.source_turn_id == source_turn_id@,
        ensures
            (final(self)@, true) == spec_consume_accepted(old(self)@, source_turn_id@, envelope@),
    {
        self.adaptive_effort.pending_signal = Some(
            AdaptivePendingSignal::Consumed { source_turn_id: string_from(source_turn_id) },
        );
        match envelope.signal_kind {
            AdaptiveRuntimeSignalKind::Capability => {
                match Self::capability_diagnostic(&envelope.diagnostic_note) {
                    Some(d) => self.apply_capability_signal_with_report(source_turn_id, d.as_str()),
                    None => {},
                }
            },
            AdaptiveRuntimeSignalKind::ReadyForValidation => {
                self.latch_workflow_terminal(
                    source_turn_id,
                    AdaptiveWorkflowTerminal::ReadyForValidation,
                );
            },
            AdaptiveRuntimeSignalKind::RepairRequired => {
                self.latch_workflow_terminal(
                    source_turn_id,
                    AdaptiveWorkflowTerminal::RepairRequired,
                );
            },
            _ => {
                self.latch_workflow_terminal(
                    source_turn_id,
                    AdaptiveWorkflowTerminal::ReadyForOwnerQa,
                );
            },
        }
    }

    pub fn consume_adaptive_signal_at_terminal(&mut self, source_turn_id: &str) -> (acted: bool)
        requires
            has_headroom(old(self)@.adaptive, AdaptiveClassification::EscalationEligible),
        ensures
            (final(self)@, acted) == spec_consume(old(self)@, source_turn_id@),
    {
        if self.adaptive_effort.workflow_terminal.is_some() {
            return false;
        }
        let pending = match &self.adaptive_effort.pending_signal {
            Some(p) => p.duplicate(),
            None => return false,
        };
        match pending {
            AdaptivePendingSignal::Pending(envelope) => {
                if !str_eq(envelope.source_turn_id.as_str(), source_turn_id) {
                    return false;
                }
                if self.signal_accepted(&envelope) {
                    self.act_on_accepted(source_turn_id, &envelope);
                    return true;
                }
                self.adaptive_effort.pending_signal = Some(
                    AdaptivePendingSignal::Cancelled { source_turn_id: string_from(source_turn_id) },
                );
                if self.native_failure_pressure_available(source_turn_id) {
                    self.fall_back_on_pressure(source_turn_id);
                    return true;
                }
                self.save_adaptive_effort_for_current_thread();
                false
            },
            AdaptivePendingSignal::Conflicted { source_turn_id: pending_turn_id } => {
                if !str_eq(pending_turn_id.as_str(), source_turn_id)
                    || !self.native_failure_pressure_available(source_turn_id) {
                    return false;
                }
                self.fall_back_on_pressure(source_turn_id);
                true
            },
            _ => false,
        }
    }
}

} // verus!
