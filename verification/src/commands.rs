//! Operator control of adaptive routing: the `/adaptive` command, the user's
//! interrupt, workflow-state persistence outcomes and fresh Worker state.
use vstd::prelude::*;

use crate::budget::AdaptiveBudgetMode;
use crate::chat::{
    AppEvent, ChatView, ChatWidget, EventView, ThreadWorkflowStateOperation, emit, saved,
    spec_status_text, with_adaptive,
};
use crate::effort::{
    AdaptiveEffortState, EffortView, ReasoningEffort, spec_activate, spec_default_effort,
    spec_model, spec_parse_family,
};
use crate::evidence::{AdaptiveEvidenceRegistry, ThreadId};
use crate::policy::{AdaptiveEffort, AdaptiveFamily, AdaptiveOutcome};
use crate::text::{append, str_eq, string_from, trim, trimmed};
use crate::transport::spec_cancel_pending;
use crate::worker::{
    AdaptiveWorkerContext, AdaptiveWorkerRole, AdaptiveWorkflowTerminal, NewWorkerBinding,
    WorkerContextView,
};

verus! {

/// The slash commands that the adaptive slice of the chat registers.
#[derive(Clone, Copy, Debug, PartialEq, Eq, Structural)]
pub enum SlashCommand {
    /// `/adaptive`, which takes its mode or family inline.
    Adaptive,
}

pub open spec fn spec_command_name(c: SlashCommand) -> Seq<char> {
    match c {
        SlashCommand::Adaptive => "adaptive"@,
    }
}

impl SlashCommand {
    /// The name the command is typed by, without its slash.
    pub fn command(self) -> (r: &'static str)
        ensures
            r@ == spec_command_name(self),
    {
        match self {
            SlashCommand::Adaptive => "adaptive",
        }
    }

    /// Whether the command takes arguments on the same line.
    pub fn supports_inline_args(self) -> (r: bool)
        ensures
            r == (self == SlashCommand::Adaptive),
    {
        match self {
            SlashCommand::Adaptive => true,
        }
    }
}

/// The built-in commands, each under the name it is typed by.
pub fn built_in_slash_commands() -> (r: Vec<(&'static str, SlashCommand)>)
    ensures
        r@.len() == 1,
        r@[0].0@ == spec_command_name(SlashCommand::Adaptive),
        r@[0].1 == SlashCommand::Adaptive,
{
    let c = SlashCommand::Adaptive;
    let mut v: Vec<(&'static str, SlashCommand)> = Vec::new();
    v.push((c.command(), c));
    v
}

pub open spec fn with_status(c: ChatView) -> ChatView {
    emit(c, EventView::InfoMessage(spec_status_text(c)))
}

pub open spec fn usage_message() -> Seq<char> {
    "Usage: /adaptive [luna|terra|sol|astra|status|pause|resume|off|reset]"@
}

pub open spec fn reset_without_thread_message() -> Seq<char> {
    "Cannot reset workflow state before a thread is active."@
}

pub open spec fn persistence_failed_message(error: Seq<char>) -> Seq<char> {
    "Failed to persist workflow state; adaptive automation remains stopped: "@ + error
}

/// Activation through the chat: the state is reactivated and saved, the
/// session is switched to Luna Low, and the status is shown.
pub open spec fn spec_activate_chat(c: ChatView, f: AdaptiveFamily, clear_pause: bool) -> ChatView {
    with_status(
        emit(
            emit(
                saved(with_adaptive(c, spec_activate(c.adaptive, f, clear_pause))),
                EventView::UpdateModel(spec_model(AdaptiveFamily::Luna)),
            ),
            EventView::UpdateReasoningEffort(Some(ReasoningEffort::Low)),
        ),
    )
}

/// The confirmed Esc interruption of the active turn pauses adaptive routing,
/// records the interruption, cancels the turn's pending signal and withdraws
/// any successor admission.
pub open spec fn spec_user_interrupt(c: ChatView) -> ChatView {
    if !c.adaptive.enabled {
        c
    } else {
        let paused = with_adaptive(
            c,
            EffortView {
                paused_by_user: true,
                last_outcome: Some(AdaptiveOutcome::UserInterrupted),
                last_failure_kind: None,
                unfinished_turn_pressure: 0,
                ..c.adaptive
            },
        );
        let cancelled = spec_cancel_pending(paused);
        saved(
            with_adaptive(cancelled, EffortView { successor_admission: None, ..cancelled.adaptive }),
        )
    }
}

pub open spec fn spec_dispatch(c: ChatView, args: Seq<char>) -> ChatView {
    let a = trim(args);
    if a == ""@ || a == "status"@ {
        with_status(c)
    } else if a == "pause"@ {
        let x = spec_cancel_pending(c);
        with_status(
            saved(
                with_adaptive(
                    x,
                    EffortView {
                        paused_by_user: true,
                        unfinished_turn_pressure: 0,
                        successor_admission: None,
                        ..x.adaptive
                    },
                ),
            ),
        )
    } else if a == "resume"@ {
        with_status(saved(with_adaptive(c, EffortView { paused_by_user: false, ..c.adaptive })))
    } else if a == "off"@ {
        let x = spec_cancel_pending(c);
        with_status(
            saved(
                with_adaptive(
                    x,
                    EffortView {
                        enabled: false,
                        paused_by_user: false,
                        unfinished_turn_pressure: 0,
                        successor_admission: None,
                        ..x.adaptive
                    },
                ),
            ),
        )
    } else if a == "reset"@ {
        match c.thread_id {
            None => emit(c, EventView::ErrorMessage(reset_without_thread_message())),
            Some(t) => emit(
                c,
                EventView::PersistWorkflowState {
                    thread_id: t,
                    operation: ThreadWorkflowStateOperation::Clear,
                    source_turn_id: None,
                },
            ),
        }
    } else {
        match spec_parse_family(a) {
            Some(f) => spec_activate_chat(c, f, true),
            None => emit(c, EventView::ErrorMessage(usage_message())),
        }
    }
}

/// The effect of clearing the workflow state: no terminal, pressure or
/// pending authority remains.
pub open spec fn cleared_workflow(a: EffortView) -> EffortView {
    EffortView {
        workflow_terminal: None,
        unfinished_turn_pressure: 0,
        pending_attempt: None,
        pending_signal: None,
        successor_admission: None,
        ..a
    }
}

pub open spec fn spec_workflow_persisted(
    c: ChatView,
    thread_id: ThreadId,
    operation: ThreadWorkflowStateOperation,
) -> ChatView {
    if c.thread_id != Some(thread_id) {
        c
    } else if operation == ThreadWorkflowStateOperation::Clear {
        with_status(saved(with_adaptive(c, cleared_workflow(c.adaptive))))
    } else {
        c
    }
}

pub open spec fn spec_workflow_persistence_failed(
    c: ChatView,
    thread_id: ThreadId,
    operation: ThreadWorkflowStateOperation,
    error: Seq<char>,
) -> ChatView {
    if c.thread_id != Some(thread_id) {
        c
    } else {
        let stopped = if operation == ThreadWorkflowStateOperation::SetReadyForOwnerQa {
            saved(
                with_adaptive(
                    c,
                    EffortView {
                        workflow_terminal: Some(AdaptiveWorkflowTerminal::ReadyForOwnerQa),
                        ..cleared_workflow(c.adaptive)
                    },
                ),
            )
        } else {
            c
        };
        emit(stopped, EventView::ErrorMessage(persistence_failed_message(error)))
    }
}

/// Fresh state for a new Worker thread: enabled when adaptive routing is on
/// or a binding is given, then at Luna Low attempt one; bound and locked to
/// the given binding; keeping only the starting preference.
pub open spec fn spec_fresh_for_new_worker(
    a: EffortView,
    binding: Option<(AdaptiveWorkerRole, Seq<char>)>,
) -> EffortView {
    let enabled = a.enabled || binding is Some;
    EffortView {
        enabled,
        starting_family: a.starting_family,
        current_family: if enabled {
            Some(AdaptiveFamily::Luna)
        } else {
            None
        },
        current_effort: if enabled {
            Some(AdaptiveEffort::Low)
        } else {
            None
        },
        attempt_number: if enabled {
            1
        } else {
            0
        },
        worker_context: match binding {
            Some((role, scope)) => WorkerContextView { role, authorized_scope: Some(scope) },
            None => WorkerContextView {
                role: AdaptiveWorkerRole::Unspecified,
                authorized_scope: None,
            },
        },
        worker_assignment_locked: binding is Some,
        ..spec_default_effort()
    }
}

pub open spec fn binding_view(b: Option<&NewWorkerBinding>) -> Option<(AdaptiveWorkerRole, Seq<char>)> {
    match b {
        Some(b) => Some((b.role, b.authorized_scope@)),
        None => None,
    }
}

impl ChatWidget {
    pub fn fresh_adaptive_effort_for_new_worker(&self, binding: Option<&NewWorkerBinding>) -> (s:
        AdaptiveEffortState)
        ensures
            s@ == spec_fresh_for_new_worker(self@.adaptive, binding_view(binding)),
    {
        let enabled = self.adaptive_effort.enabled || binding.is_some();
        let worker_context = match binding {
            Some(b) => AdaptiveWorkerContext {
                role: b.role,
                authorized_scope: Some(b.authorized_scope.clone()),
            },
            None => AdaptiveWorkerContext::default_context(),
        };
        let mut s = AdaptiveEffortState::default();
        s.enabled = enabled;
        s.starting_family = self.adaptive_effort.starting_family;
        s.current_family = if enabled {
            Some(AdaptiveFamily::Luna)
        } else {
            None
        };
        s.current_effort = if enabled {
            Some(AdaptiveEffort::Low)
        } else {
            None
        };
        s.attempt_number = if enabled {
            1
        } else {
            0
        };
        s.worker_context = worker_context;
        s.worker_assignment_locked = binding.is_some();
        s
    }

    /// Record the confirmed, locally initiated Esc interruption of the active
    /// turn.
    #[verifier::rlimit(60)]
    pub fn on_adaptive_user_interrupt(&mut self)
        ensures
            final(self)@ == spec_user_interrupt(old(self)@),
    {
        if !self.adaptive_effort.enabled {
            return;
        }
        self.adaptive_effort.paused_by_user = true;
        self.adaptive_effort.last_outcome = Some(AdaptiveOutcome::UserInterrupted);
        self.adaptive_effort.last_failure_kind = None;
        self.adaptive_effort.unfinished_turn_pressure = 0;
        self.cancel_pending_adaptive_signal_for_active_turn();
        self.adaptive_effort.successor_admission = None;
        self.save_adaptive_effort_for_current_thread();
    }

    #[verifier::rlimit(100)]
    pub fn dispatch_adaptive_command(&mut self, args: &str)
        ensures
            final(self)@ == spec_dispatch(old(self)@, args@),
    {
        let command = trimmed(args);
        let command = command.as_str();
        proof {
            reveal_strlit("");
        }
        if str_eq(command, "") || str_eq(command, "status") {
            self.add_adaptive_status_output();
        } else if str_eq(command, "pause") {
            self.cancel_pending_adaptive_signal_for_active_turn();
            self.adaptive_effort.paused_by_user = true;
            self.adaptive_effort.unfinished_turn_pressure = 0;
            self.adaptive_effort.successor_admission = None;
            self.save_adaptive_effort_for_current_thread();
            self.add_adaptive_status_output();
        } else if str_eq(command, "resume") {
            self.adaptive_effort.paused_by_user = false;
            self.save_adaptive_effort_for_current_thread();
            self.add_adaptive_status_output();
        } else if str_eq(command, "off") {
            self.cancel_pending_adaptive_signal_for_active_turn();
            self.adaptive_effort.enabled = false;
            self.adaptive_effort.paused_by_user = false;
            self.adaptive_effort.unfinished_turn_pressure = 0;
            self.adaptive_effort.successor_admission = None;
            self.save_adaptive_effort_for_current_thread();
            self.add_adaptive_status_output();
        } else if str_eq(command, "reset") {
            match self.thread_id {
                None => {
                    self.add_error_message(
                        string_from("Cannot reset workflow state before a thread is active."),
                    );
                },
                Some(thread_id) => {
                    self.push_event(
                        AppEvent::PersistWorkflowState {
                            thread_id,
                            operation: ThreadWorkflowStateOperation::Clear,
                            source_turn_id: None,
                        },
                    );
                },
            }
        } else {
            match AdaptiveFamily::parse(command) {
                Some(preferred_family) => {
                    self.activate_adaptive_family(preferred_family, true);
                },
                None => {
                    self.add_error_message(
                        string_from(
                            "Usage: /adaptive [luna|terra|sol|astra|status|pause|resume|off|reset]",
                        ),
                    );
                },
            }
        }
    }

    pub fn activate_adaptive_family(
        &mut self,
        preferred_family: AdaptiveFamily,
        clear_pause: bool,
    )
        ensures
            final(self)@ == spec_activate_chat(old(self)@, preferred_family, clear_pause),
    {
        self.adaptive_effort.activate_adaptive_family(preferred_family, clear_pause);
        self.save_adaptive_effort_for_current_thread();
        self.push_event(AppEvent::UpdateModel(string_from(AdaptiveFamily::Luna.model())));
        self.push_event(AppEvent::UpdateReasoningEffort(Some(ReasoningEffort::Low)));
        self.add_adaptive_status_output();
    }

    pub fn on_workflow_state_persisted(
        &mut self,
        thread_id: ThreadId,
        operation: ThreadWorkflowStateOperation,
    )
        ensures
            final(self)@ == spec_workflow_persisted(old(self)@, thread_id, operation),
    {
        if self.thread_id != Some(thread_id) {
            return;
        }
        if operation == ThreadWorkflowStateOperation::Clear {
            self.adaptive_effort.workflow_terminal = None;
            self.adaptive_effort.unfinished_turn_pressure = 0;
            self.adaptive_effort.pending_attempt = None;
            self.adaptive_effort.pending_signal = None;
            self.adaptive_effort.successor_admission = None;
            self.save_adaptive_effort_for_current_thread();
            self.add_adaptive_status_output();
        }
    }

    pub fn on_workflow_state_persistence_failed(
        &mut self,
        thread_id: ThreadId,
        operation: ThreadWorkflowStateOperation,
        error: &str,
    )
        ensures
            final(self)@ == spec_workflow_persistence_failed(
                old(self)@,
                thread_id,
                operation,
                error@,
            ),
    {
        if self.thread_id != Some(thread_id) {
            return;
        }
        if operation == ThreadWorkflowStateOperation::SetReadyForOwnerQa {
            self.adaptive_effort.workflow_terminal = Some(AdaptiveWorkflowTerminal::ReadyForOwnerQa);
            self.adaptive_effort.unfinished_turn_pressure = 0;
            self.adaptive_effort.pending_attempt = None;
            self.adaptive_effort.pending_signal = None;
            self.adaptive_effort.successor_admission = None;
            self.save_adaptive_effort_for_current_thread();
        }
        let mut message = string_from(
            "Failed to persist workflow state; adaptive automation remains stopped: ",
        );
        append(&mut message, error);
        self.add_error_message(message);
    }
}

} // verus!
