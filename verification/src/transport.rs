//! Inert receipt and per-thread lifecycle of private adaptive runtime signals.
use vstd::prelude::*;

use crate::chat::{ChatView, ChatWidget, saved, with_adaptive};
use crate::effort::{
    AdaptivePendingSignal, AdaptiveRuntimeSignalEnvelope, AdaptiveRuntimeSignalKind, EffortView,
    EnvelopeView, PendingSignalView, signal_turn,
};
use crate::evidence::{AUTO_FAILURE_PRESSURE_DIAGNOSTIC, ThreadId, auto_diagnostic};
use crate::refs::{canonical_refs, canonicalize_refs, refs_equal};
use crate::text::{is_blank, str_eq, string_from, trim, trimmed};
use crate::worker::AdaptiveWorkflowTerminal;

verus! {

/// A runtime signal reported for a thread.
#[derive(Clone, Debug, PartialEq, Eq)]
pub struct AdaptiveRuntimeSignalNotification {
    /// `None` when the reported thread id does not parse.
    pub thread_id: Option<ThreadId>,
    pub signal: AdaptiveRuntimeSignalEnvelope,
}

pub open spec fn set_pending(c: ChatView, p: Option<PendingSignalView>) -> ChatView {
    with_adaptive(c, EffortView { pending_signal: p, ..c.adaptive })
}

/// Whether a diagnostic note is a real capability report: non-blank and not
/// the synthetic failure-pressure sentinel.
pub open spec fn is_real_report(note: Option<Seq<char>>) -> bool {
    match note {
        Some(n) => trim(n).len() > 0 && trim(n) != auto_diagnostic(),
        None => false,
    }
}

/// Whether a pending envelope is the synthetic capability signal armed by
/// native failure pressure for `turn`.
pub open spec fn is_synthetic_capability(e: EnvelopeView, turn: Seq<char>) -> bool {
    e.source_turn_id == turn && e.diagnostic_note == Some(auto_diagnostic()) && e.signal_kind
        == AdaptiveRuntimeSignalKind::Capability
}

/// The workflow terminal a signal kind reports, if it reports one.
pub open spec fn reported_terminal(k: AdaptiveRuntimeSignalKind) -> Option<AdaptiveWorkflowTerminal> {
    match k {
        AdaptiveRuntimeSignalKind::ReadyForValidation => Some(
            AdaptiveWorkflowTerminal::ReadyForValidation,
        ),
        AdaptiveRuntimeSignalKind::RepairRequired => Some(AdaptiveWorkflowTerminal::RepairRequired),
        AdaptiveRuntimeSignalKind::ReadyForOwnerQa => Some(AdaptiveWorkflowTerminal::ReadyForOwnerQa),
        _ => None,
    }
}

/// Whether a completed turn still awaits its workflow signal: no signal is
/// held for it yet, or only the synthetic failure-pressure signal, which a
/// workflow terminal outranks.
pub open spec fn awaits_late_signal(p: Option<PendingSignalView>, turn: Seq<char>) -> bool {
    match p {
        None => true,
        Some(PendingSignalView::Pending(e)) => is_synthetic_capability(e, turn),
        _ => false,
    }
}

/// A workflow-terminal signal for the last turn, received after that turn
/// stopped running: when the turn still awaits its signal and the signal is
/// accepted as at a terminal (role and native evidence), it is consumed and
/// the terminal latched; otherwise nothing changes.
pub open spec fn spec_late_signal(c: ChatView, turn: Seq<char>, s: EnvelopeView) -> ChatView {
    match reported_terminal(s.signal_kind) {
        Some(terminal) => if awaits_late_signal(c.adaptive.pending_signal, turn)
            && crate::trusted::spec_accepted(c, s) {
            crate::trusted::spec_latch(
                set_pending(c, Some(PendingSignalView::Consumed(turn))),
                turn,
                terminal,
            )
        } else {
            c
        },
        None => c,
    }
}

/// The receipt of a runtime signal. A signal counts only for the last turn of
/// this thread while adaptive routing is live. After that turn stopped
/// running, only a late workflow terminal counts, as `spec_late_signal` says.
/// While it runs, the first
/// signal of a turn is pending; a real capability report or a workflow
/// terminal replaces the synthetic failure-pressure signal; a signal with the
/// same turn, kind and references changes nothing, whatever its note; any
/// other second signal conflicts the turn.
pub open spec fn spec_handle_signal(
    c: ChatView,
    thread_id: Option<ThreadId>,
    signal: EnvelopeView,
) -> ChatView {
    match thread_id {
        None => c,
        Some(t) => {
            let s = EnvelopeView { evidence_refs: canonical_refs(signal.evidence_refs), ..signal };
            let turn = s.source_turn_id;
            let a = c.adaptive;
            if c.thread_id != Some(t) || c.last_turn_id != Some(turn) || !a.enabled
                || a.paused_by_user || a.workflow_terminal is Some {
                c
            } else if !c.agent_turn_running {
                spec_late_signal(c, turn, s)
            } else {
                match a.pending_signal {
                    None => saved(set_pending(c, Some(PendingSignalView::Pending(s)))),
                    Some(PendingSignalView::Pending(e)) => if is_synthetic_capability(e, turn)
                        && s.signal_kind == AdaptiveRuntimeSignalKind::Capability && is_real_report(
                        s.diagnostic_note,
                    ) {
                        saved(set_pending(c, Some(PendingSignalView::Pending(s))))
                    } else if is_synthetic_capability(e, turn) && s.signal_kind
                        != AdaptiveRuntimeSignalKind::Capability {
                        saved(set_pending(c, Some(PendingSignalView::Pending(s))))
                    } else if same_identity(e, s) {
                        c
                    } else if e.source_turn_id == turn {
                        saved(set_pending(c, Some(PendingSignalView::Conflicted(turn))))
                    } else {
                        c
                    },
                    Some(_) => c,
                }
            }
        },
    }
}

/// A signal's identity: its turn, kind and canonical references; the
/// diagnostic note is not part of it.
pub open spec fn same_identity(a: EnvelopeView, b: EnvelopeView) -> bool {
    a.source_turn_id == b.source_turn_id && a.signal_kind == b.signal_kind && a.evidence_refs
        == b.evidence_refs
}

/// A pending signal of the active turn is cancelled; anything else stays.
pub open spec fn spec_cancel_pending(c: ChatView) -> ChatView {
    match c.last_turn_id {
        None => c,
        Some(t) => match c.adaptive.pending_signal {
            Some(PendingSignalView::Pending(e)) => if e.source_turn_id == t {
                set_pending(c, Some(PendingSignalView::Cancelled(t)))
            } else {
                c
            },
            _ => c,
        },
    }
}

/// A signal state left from another turn is dropped.
pub open spec fn spec_clear_stale(c: ChatView, active_turn_id: Seq<char>) -> ChatView {
    match c.adaptive.pending_signal {
        Some(p) => if signal_turn(p) != active_turn_id {
            saved(set_pending(c, None))
        } else {
            c
        },
        None => c,
    }
}

fn note_is(note: &Option<String>, text: &str) -> (r: bool)
    ensures
        r == (crate::worker::opt_str_view(*note) == Some(text@)),
{
    match note {
        Some(n) => str_eq(n.as_str(), text),
        None => false,
    }
}

fn real_report(note: &Option<String>) -> (r: bool)
    ensures
        r == is_real_report(crate::worker::opt_str_view(*note)),
{
    match note {
        Some(n) => {
            let t = trimmed(n.as_str());
            !is_blank(n.as_str()) && !str_eq(t.as_str(), AUTO_FAILURE_PRESSURE_DIAGNOSTIC)
        },
        None => false,
    }
}

fn same_envelope_identity(a: &AdaptiveRuntimeSignalEnvelope, b: &AdaptiveRuntimeSignalEnvelope) -> (r:
    bool)
    ensures
        r == same_identity(a@, b@),
{
    a.source_turn_id == b.source_turn_id && a.signal_kind == b.signal_kind && refs_equal(
        &a.evidence_refs,
        &b.evidence_refs,
    )
}

impl ChatWidget {
    fn accept_late_workflow_terminal(&mut self, signal: AdaptiveRuntimeSignalEnvelope)
        ensures
            final(self)@ == spec_late_signal(old(self)@, signal@.source_turn_id, signal@),
    {
        let terminal = match signal.signal_kind {
            AdaptiveRuntimeSignalKind::ReadyForValidation => AdaptiveWorkflowTerminal::ReadyForValidation,
            AdaptiveRuntimeSignalKind::RepairRequired => AdaptiveWorkflowTerminal::RepairRequired,
            AdaptiveRuntimeSignalKind::ReadyForOwnerQa => AdaptiveWorkflowTerminal::ReadyForOwnerQa,
            _ => return,
        };
        let awaiting = match &self.adaptive_effort.pending_signal {
            None => true,
            Some(AdaptivePendingSignal::Pending(existing)) => str_eq(
                existing.source_turn_id.as_str(),
                signal.source_turn_id.as_str(),
            ) && note_is(&existing.diagnostic_note, AUTO_FAILURE_PRESSURE_DIAGNOSTIC)
                && existing.signal_kind == AdaptiveRuntimeSignalKind::Capability,
            Some(_) => false,
        };
        assert(awaiting == awaits_late_signal(self@.adaptive.pending_signal, signal@.source_turn_id));
        if !awaiting {
            return;
        }
        let accepted = self.signal_accepted(&signal);
        if !accepted {
            return;
        }
        self.consume_and_latch(signal.source_turn_id.as_str(), terminal);
    }

    fn consume_and_latch(&mut self, turn: &str, terminal: AdaptiveWorkflowTerminal)
        ensures
            final(self)@ == crate::trusted::spec_latch(
                set_pending(old(self)@, Some(PendingSignalView::Consumed(turn@))),
                turn@,
                terminal,
            ),
    {
        self.adaptive_effort.pending_signal = Some(
            AdaptivePendingSignal::Consumed { source_turn_id: string_from(turn) },
        );
        self.latch_workflow_terminal(turn, terminal);
    }

    pub fn handle_adaptive_runtime_signal(&mut self, notification: AdaptiveRuntimeSignalNotification)
        ensures
            final(self)@ == spec_handle_signal(
                old(self)@,
                notification.thread_id,
                notification.signal@,
            ),
    {
        let thread_id = match notification.thread_id {
            Some(t) => t,
            None => return,
        };
        let raw = notification.signal;
        let signal = AdaptiveRuntimeSignalEnvelope {
            source_turn_id: raw.source_turn_id,
            signal_kind: raw.signal_kind,
            evidence_refs: canonicalize_refs(raw.evidence_refs),
            diagnostic_note: raw.diagnostic_note,
        };
        let turn_matches = match &self.turn_lifecycle.last_turn_id {
            Some(t) => str_eq(t.as_str(), signal.source_turn_id.as_str()),
            None => false,
        };
        if self.thread_id != Some(thread_id) || !turn_matches || !self.adaptive_effort.enabled
            || self.adaptive_effort.paused_by_user
            || self.adaptive_effort.workflow_terminal.is_some() {
            return;
        }
        if !self.turn_lifecycle.agent_turn_running {
            self.accept_late_workflow_terminal(signal);
            return;
        }
        let decision: u8 = match &self.adaptive_effort.pending_signal {
            None => 0,
            Some(AdaptivePendingSignal::Pending(existing)) => {
                let same_turn = str_eq(
                    existing.source_turn_id.as_str(),
                    signal.source_turn_id.as_str(),
                );
                let synthetic = same_turn && note_is(
                    &existing.diagnostic_note,
                    AUTO_FAILURE_PRESSURE_DIAGNOSTIC,
                ) && existing.signal_kind == AdaptiveRuntimeSignalKind::Capability;
                if synthetic && signal.signal_kind == AdaptiveRuntimeSignalKind::Capability
                    && real_report(&signal.diagnostic_note) {
                    0
                } else if synthetic && signal.signal_kind != AdaptiveRuntimeSignalKind::Capability {
                    0
                } else if same_envelope_identity(existing, &signal) {
                    1
                } else if same_turn {
                    2
                } else {
                    1
                }
            },
            Some(_) => 1,
        };
        if decision == 0 {
            self.adaptive_effort.pending_signal = Some(AdaptivePendingSignal::Pending(signal));
            self.save_adaptive_effort_for_current_thread();
        } else if decision == 2 {
            self.adaptive_effort.pending_signal = Some(
                AdaptivePendingSignal::Conflicted { source_turn_id: signal.source_turn_id },
            );
            self.save_adaptive_effort_for_current_thread();
        }
    }

    pub fn clear_stale_pending_adaptive_signal(&mut self, active_turn_id: &str)
        ensures
            final(self)@ == spec_clear_stale(old(self)@, active_turn_id@),
    {
        let stale = match &self.adaptive_effort.pending_signal {
            Some(signal) => !str_eq(signal.source_turn_id(), active_turn_id),
            None => false,
        };
        if stale {
            self.adaptive_effort.pending_signal = None;
            self.save_adaptive_effort_for_current_thread();
        }
    }

    pub fn cancel_pending_adaptive_signal_for_active_turn(&mut self)
        ensures
            final(self)@ == spec_cancel_pending(old(self)@),
    {
        let source_turn_id = match &self.turn_lifecycle.last_turn_id {
            Some(t) => t.clone(),
            None => return,
        };
        let cancel = match &self.adaptive_effort.pending_signal {
            Some(AdaptivePendingSignal::Pending(signal)) => str_eq(
                signal.source_turn_id.as_str(),
                source_turn_id.as_str(),
            ),
            _ => false,
        };
        if cancel {
            self.adaptive_effort.pending_signal = Some(
                AdaptivePendingSignal::Cancelled { source_turn_id },
            );
        }
    }
}

/// Once a turn's signal is conflicted, cancelled or consumed, no later signal
/// for that turn changes anything.
pub proof fn lemma_settled_signal_is_final(
    c: ChatView,
    thread_id: Option<ThreadId>,
    signal: EnvelopeView,
)
    requires
        c.adaptive.pending_signal is Some,
        !(c.adaptive.pending_signal->0 is Pending),
    ensures
        spec_handle_signal(c, thread_id, signal) == c,
{
}

/// The synthetic sentinel is already trimmed, so it is never a real report.
proof fn lemma_sentinel_is_not_a_report()
    ensures
        crate::text::trim(auto_diagnostic()) == auto_diagnostic(),
        !is_real_report(Some(auto_diagnostic())),
{
    reveal_strlit("automatic native failure pressure");
    let a = auto_diagnostic();
    assert(a[0] == 'a');
    assert(a.last() == 'e');
    assert(crate::text::trim_start(a) == a);
    assert(crate::text::trim_end(a) == a);
}

/// Re-sending a signal changes nothing: handling it twice is handling it
/// once.
pub proof fn lemma_resent_signal_is_idempotent(
    c: ChatView,
    thread_id: Option<ThreadId>,
    signal: EnvelopeView,
)
    ensures
        spec_handle_signal(spec_handle_signal(c, thread_id, signal), thread_id, signal)
            == spec_handle_signal(c, thread_id, signal),
{
    lemma_sentinel_is_not_a_report();
    crate::refs::lemma_canonical_refs(signal.evidence_refs);
    crate::refs::lemma_canonical_refs_idempotent(canonical_refs(signal.evidence_refs));
}

/// A pending signal's note is not part of its identity: another signal with
/// the same turn, kind and references changes nothing, unless the pending one
/// is the synthetic failure-pressure signal.
pub proof fn lemma_signal_note_is_not_identity(
    c: ChatView,
    thread_id: Option<ThreadId>,
    again: EnvelopeView,
)
    requires
        c.adaptive.pending_signal matches Some(PendingSignalView::Pending(e)) && same_identity(
            e,
            EnvelopeView { evidence_refs: canonical_refs(again.evidence_refs), ..again },
        ) && !is_synthetic_capability(e, e.source_turn_id),
    ensures
        spec_handle_signal(c, thread_id, again) == c,
{
}

/// A workflow terminal reported for the last turn after it stopped running
/// is latched when the turn still awaits its signal and the signal is
/// accepted: the route and attempt stay, and no attempt or successor is
/// authorized.
pub proof fn lemma_late_terminal_latches(c: ChatView, t: ThreadId, signal: EnvelopeView)
    requires
        c.thread_id == Some(t),
        !c.agent_turn_running,
        c.last_turn_id == Some(signal.source_turn_id),
        c.adaptive.enabled,
        !c.adaptive.paused_by_user,
        c.adaptive.workflow_terminal is None,
        reported_terminal(signal.signal_kind) is Some,
        awaits_late_signal(c.adaptive.pending_signal, signal.source_turn_id),
        crate::trusted::spec_accepted(
            c,
            EnvelopeView { evidence_refs: canonical_refs(signal.evidence_refs), ..signal },
        ),
    ensures
        ({
            let r = spec_handle_signal(c, Some(t), signal).adaptive;
            &&& r.workflow_terminal == reported_terminal(signal.signal_kind)
            &&& r.current_family == c.adaptive.current_family
            &&& r.current_effort == c.adaptive.current_effort
            &&& r.attempt_number == c.adaptive.attempt_number
            &&& r.worker_context == c.adaptive.worker_context
            &&& r.pending_attempt is None
            &&& r.successor_admission is None
            &&& r.unfinished_turn_pressure == 0
            &&& r.pending_signal == Some(PendingSignalView::Consumed(signal.source_turn_id))
        }),
{
}

} // verus!
