//! Live ingestion of completed native items: the first user assignment binds
//! Worker authority, tool completions become typed evidence, and native
//! failure pressure arms a capability signal for the running turn.
use vstd::prelude::*;

use crate::chat::{ChatView, ChatWidget, EventView, emit, saved, with_adaptive};
use crate::effort::{
    AdaptivePendingSignal, AdaptiveRuntimeSignalEnvelope, AdaptiveRuntimeSignalKind, EffortView,
    EnvelopeView, PendingSignalView, observe_result_view, spec_observe_assignment,
};
use crate::evidence::{
    ADAPTIVE_FAILURE_PRESSURE_THRESHOLD, AUTO_FAILURE_PRESSURE_DIAGNOSTIC,
    ItemCompletedNotification, ThreadItem, UserInput, auto_diagnostic, failure_count,
    record_from_item_completion, spec_record_from_item, spec_register,
};
use crate::text::{append, string_from};
use crate::thread_text::{thread_id_string, thread_id_text};
use crate::transport::set_pending;

verus! {

/// The texts of the text inputs, in order.
pub open spec fn input_texts(content: Seq<UserInput>) -> Seq<Seq<char>>
    decreases content.len(),
{
    if content.len() == 0 {
        Seq::empty()
    } else {
        input_texts(content.drop_last()) + match content.last() {
            UserInput::Text { text } => seq![text@],
            UserInput::Other => Seq::empty(),
        }
    }
}

/// The parts joined by newlines.
pub open spec fn join_lines(parts: Seq<Seq<char>>) -> Seq<char>
    decreases parts.len(),
{
    if parts.len() == 0 {
        Seq::empty()
    } else if parts.len() == 1 {
        parts[0]
    } else {
        join_lines(parts.drop_last()) + "\n"@ + parts.last()
    }
}

pub open spec fn rejection_message(error: Seq<char>) -> Seq<char> {
    "Adaptive Worker assignment rejected: "@ + error
        + ". This thread is locked unbound; start a fresh Worker thread with a valid [adaptive_worker] header."@
}

/// Observing a completed user message while authority is unlocked: its text
/// inputs, joined by newlines, are the Worker assignment; the state is
/// persisted and a rejected header is reported.
pub open spec fn spec_observe_item(c: ChatView, n: ItemCompletedNotification) -> ChatView {
    if !c.adaptive.enabled || c.adaptive.worker_assignment_locked {
        c
    } else {
        match n.item {
            ThreadItem::UserMessage { content, .. } => {
                let (a, r) = spec_observe_assignment(c.adaptive, join_lines(input_texts(content@)));
                let c1 = saved(with_adaptive(c, a));
                match r {
                    Err(e) => emit(c1, EventView::ErrorMessage(rejection_message(e))),
                    Ok(_) => c1,
                }
            },
            _ => c,
        }
    }
}

/// The capability signal that native failure pressure arms for a turn.
pub open spec fn pressure_envelope(turn: Seq<char>) -> EnvelopeView {
    EnvelopeView {
        source_turn_id: turn,
        signal_kind: AdaptiveRuntimeSignalKind::Capability,
        evidence_refs: Seq::empty(),
        diagnostic_note: Some(auto_diagnostic()),
    }
}

/// Whether registering evidence of `turn` arms the pressure signal: adaptive
/// routing is live, that turn is the one running, its failing records reach
/// the threshold and no signal is pending.
pub open spec fn arms_pressure(c: ChatView, turn: Seq<char>) -> bool {
    &&& c.adaptive.enabled
    &&& !c.adaptive.paused_by_user
    &&& c.adaptive.workflow_terminal is None
    &&& c.agent_turn_running
    &&& c.last_turn_id == Some(turn)
    &&& failure_count(c.adaptive.evidence_registry, c.thread_id->0, turn)
        >= ADAPTIVE_FAILURE_PRESSURE_THRESHOLD
    &&& c.adaptive.pending_signal is None
}

/// Ingestion of a completed item of this thread; items of another thread
/// change nothing.
pub open spec fn spec_register_evidence(c: ChatView, n: ItemCompletedNotification) -> ChatView {
    match c.thread_id {
        None => c,
        Some(t) => if n.thread_id@ != thread_id_text(t) {
            c
        } else {
            let c1 = spec_observe_item(c, n);
            match spec_record_from_item(n) {
                None => c1,
                Some(rec) => if rec.thread_id != t {
                    c1
                } else {
                    let c2 = with_adaptive(
                        c1,
                        EffortView {
                            evidence_registry: spec_register(c1.adaptive.evidence_registry, rec).0,
                            ..c1.adaptive
                        },
                    );
                    let turn = n.turn_id@;
                    if arms_pressure(c2, turn) {
                        saved(
                            set_pending(c2, Some(PendingSignalView::Pending(pressure_envelope(turn)))),
                        )
                    } else {
                        saved(c2)
                    }
                },
            }
        },
    }
}

fn pressure_signal(turn: &str) -> (p: AdaptivePendingSignal)
    ensures
        p@ == PendingSignalView::Pending(pressure_envelope(turn@)),
{
    let evidence_refs: Vec<String> = Vec::new();
    assert(evidence_refs.deep_view() =~= Seq::<Seq<char>>::empty());
    AdaptivePendingSignal::Pending(
        AdaptiveRuntimeSignalEnvelope {
            source_turn_id: string_from(turn),
            signal_kind: AdaptiveRuntimeSignalKind::Capability,
            evidence_refs,
            diagnostic_note: Some(string_from(AUTO_FAILURE_PRESSURE_DIAGNOSTIC)),
        },
    )
}

/// The text inputs of a user message joined by newlines.
pub fn assignment_text(content: &Vec<UserInput>) -> (s: String)
    ensures
        s@ == join_lines(input_texts(content@)),
{
    let mut s = string_from("");
    proof {
        reveal_strlit("");
        assert(content@.take(0) =~= Seq::<UserInput>::empty());
    }
    let mut any = false;
    let mut i: usize = 0;
    while i < content.len()
        invariant
            i <= content@.len(),
            s@ == join_lines(input_texts(content@.take(i as int))),
            any == (input_texts(content@.take(i as int)).len() > 0),
        decreases content@.len() - i,
    {
        let ghost before = input_texts(content@.take(i as int));
        assert(content@.take(i as int + 1).drop_last() =~= content@.take(i as int));
        match &content[i] {
            UserInput::Text { text } => {
                assert(input_texts(content@.take(i as int + 1)) =~= before.push(text@));
                assert(before.push(text@).drop_last() =~= before);
                if any {
                    append(&mut s, "\n");
                }
                append(&mut s, text.as_str());
                any = true;
                assert(s@ =~= join_lines(before.push(text@)));
            },
            UserInput::Other => {
                assert(input_texts(content@.take(i as int + 1)) =~= before);
            },
        }
        i = i + 1;
    }
    assert(content@.take(content@.len() as int) =~= content@);
    s
}

impl ChatWidget {
    fn observe_adaptive_worker_assignment(&mut self, notification: &ItemCompletedNotification)
        ensures
            final(self)@ == spec_observe_item(old(self)@, *notification),
    {
        if !self.adaptive_effort.enabled || self.adaptive_effort.worker_assignment_locked {
            return;
        }
        let content = match &notification.item {
            ThreadItem::UserMessage { content, .. } => content,
            _ => return,
        };
        let text = assignment_text(content);
        let result = self.adaptive_effort.observe_worker_assignment_text(text.as_str());
        self.save_adaptive_effort_for_current_thread();
        match result {
            Err(err) => {
                let mut message = string_from("Adaptive Worker assignment rejected: ");
                append(&mut message, err.as_str());
                append(
                    &mut message,
                    ". This thread is locked unbound; start a fresh Worker thread with a valid [adaptive_worker] header.",
                );
                self.add_error_message(message);
            },
            Ok(_) => {},
        }
    }

    /// Ingests a completed item of this thread: observes a first Worker
    /// assignment, registers tool evidence, and arms the failure-pressure
    /// capability signal for the running turn when it reaches the threshold.
    pub fn register_adaptive_evidence(&mut self, notification: &ItemCompletedNotification)
        ensures
            final(self)@ == spec_register_evidence(old(self)@, *notification),
    {
        let thread_id = match self.thread_id {
            Some(t) => t,
            None => return,
        };
        if !crate::text::str_eq(
            notification.thread_id.as_str(),
            thread_id_string(thread_id).as_str(),
        ) {
            return;
        }
        self.observe_adaptive_worker_assignment(notification);
        let record = match record_from_item_completion(notification) {
            Some(r) => r,
            None => return,
        };
        if record.thread_id != thread_id {
            return;
        }
        self.adaptive_effort.evidence_registry.register(record);
        let source_turn_id = notification.turn_id.as_str();
        let pressure = self.adaptive_effort.evidence_registry.failure_pressure_for_turn(
            thread_id,
            source_turn_id,
        );
        let current_turn_matches = self.turn_lifecycle.agent_turn_running && match &self.turn_lifecycle.last_turn_id {
            Some(t) => crate::text::str_eq(t.as_str(), source_turn_id),
            None => false,
        };
        if self.adaptive_effort.enabled && !self.adaptive_effort.paused_by_user
            && self.adaptive_effort.workflow_terminal.is_none() && current_turn_matches && pressure
            >= ADAPTIVE_FAILURE_PRESSURE_THRESHOLD && self.adaptive_effort.pending_signal.is_none() {
            self.adaptive_effort.pending_signal = Some(pressure_signal(source_turn_id));
        }
        self.save_adaptive_effort_for_current_thread();
    }
}

/// Items not reported under this thread's own spelling change nothing.
pub proof fn lemma_foreign_items_are_ignored(c: ChatView, n: ItemCompletedNotification)
    requires
        c.thread_id is None || n.thread_id@ != thread_id_text(c.thread_id->0),
    ensures
        spec_register_evidence(c, n) == c,
{
}

/// Failure pressure arms at most one signal per turn: once a signal is
/// pending, registering more evidence never replaces it.
pub proof fn lemma_pending_signal_is_not_replaced(c: ChatView, n: ItemCompletedNotification)
    requires
        c.adaptive.pending_signal is Some,
    ensures
        spec_register_evidence(c, n).adaptive.pending_signal == c.adaptive.pending_signal,
{
}

} // verus!
