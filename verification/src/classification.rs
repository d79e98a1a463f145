//! Narrow adapters from typed turn and error facts into the pure adaptive
//! classifier. Error messages, assistant prose, command output and test
//! output are never inspected.
use vstd::prelude::*;

use crate::policy::{
    AdaptiveClassification, AdaptiveFailureKind, AdaptiveOutcomeSignal, spec_classify_outcome,
};

verus! {

/// Final status of a turn as the app server reports it.
#[derive(Clone, Copy, Debug, PartialEq, Eq, Structural)]
pub enum TurnStatus {
    Completed,
    Failed,
    Interrupted,
    InProgress,
}

/// Kind of turn that cannot be steered.
#[derive(Clone, Copy, Debug, PartialEq, Eq, Structural)]
pub enum NonSteerableTurnKind {
    Review,
}

/// Typed error facts as the app server reports them.
#[derive(Clone, Copy, Debug, PartialEq, Eq, Structural)]
pub enum CodexErrorInfo {
    RateLimitExceeded,
    ServerOverloaded,
    HttpConnectionFailed { http_status_code: Option<u16> },
    ResponseStreamConnectionFailed { http_status_code: Option<u16> },
    InternalServerError,
    ResponseStreamDisconnected { http_status_code: Option<u16> },
    ResponseTooManyFailedAttempts { http_status_code: Option<u16> },
    Unauthorized,
    SessionBudgetExceeded,
    UsageLimitExceeded,
    ContextWindowExceeded,
    ThreadRollbackFailed,
    SandboxError,
    CyberPolicy,
    MisalignmentPolicyViolation,
    BadRequest,
    ActiveTurnNotSteerable { turn_kind: NonSteerableTurnKind },
    Other,
}

pub open spec fn spec_signal_from_turn_status(status: TurnStatus) -> AdaptiveOutcomeSignal {
    match status {
        TurnStatus::Completed => AdaptiveOutcomeSignal::Completed,
        _ => AdaptiveOutcomeSignal::Failed,
    }
}

/// A generic turn status never names a typed failure: anything but completion
/// is an untyped failure, which fails closed.
pub fn signal_from_turn_status(status: &TurnStatus) -> (s: AdaptiveOutcomeSignal)
    ensures
        s == spec_signal_from_turn_status(*status),
{
    match status {
        TurnStatus::Completed => AdaptiveOutcomeSignal::Completed,
        TurnStatus::Failed | TurnStatus::Interrupted | TurnStatus::InProgress => {
            AdaptiveOutcomeSignal::Failed
        },
    }
}

pub fn signal_from_user_interrupt() -> (s: AdaptiveOutcomeSignal)
    ensures
        s == AdaptiveOutcomeSignal::UserInterrupted,
{
    AdaptiveOutcomeSignal::UserInterrupted
}

pub open spec fn spec_failure_kind_of_error(error: CodexErrorInfo) -> AdaptiveFailureKind {
    match error {
        CodexErrorInfo::RateLimitExceeded
        | CodexErrorInfo::ServerOverloaded
        | CodexErrorInfo::HttpConnectionFailed { .. }
        | CodexErrorInfo::ResponseStreamConnectionFailed { .. }
        | CodexErrorInfo::InternalServerError
        | CodexErrorInfo::ResponseStreamDisconnected { .. }
        | CodexErrorInfo::ResponseTooManyFailedAttempts { .. } => {
            AdaptiveFailureKind::TransientInfrastructure
        },
        CodexErrorInfo::Unauthorized => AdaptiveFailureKind::Authentication,
        CodexErrorInfo::SessionBudgetExceeded | CodexErrorInfo::UsageLimitExceeded => {
            AdaptiveFailureKind::Quota
        },
        CodexErrorInfo::ContextWindowExceeded | CodexErrorInfo::ThreadRollbackFailed => {
            AdaptiveFailureKind::Environment
        },
        CodexErrorInfo::SandboxError => AdaptiveFailureKind::Permission,
        CodexErrorInfo::CyberPolicy | CodexErrorInfo::MisalignmentPolicyViolation => {
            AdaptiveFailureKind::AuthorizationOrScope
        },
        CodexErrorInfo::BadRequest
        | CodexErrorInfo::ActiveTurnNotSteerable { .. }
        | CodexErrorInfo::Other => AdaptiveFailureKind::Unknown,
    }
}

/// A typed error becomes a typed failure; no error ever becomes a capability
/// failure, a user interrupt or an owner-QA fact.
pub fn signal_from_codex_error(error: &CodexErrorInfo) -> (s: AdaptiveOutcomeSignal)
    ensures
        s == AdaptiveOutcomeSignal::Failure(spec_failure_kind_of_error(*error)),
        spec_failure_kind_of_error(*error) != AdaptiveFailureKind::Capability,
        spec_failure_kind_of_error(*error) != AdaptiveFailureKind::UserInterrupted,
        spec_failure_kind_of_error(*error) != AdaptiveFailureKind::ReadyForOwnerQa,
{
    AdaptiveOutcomeSignal::Failure(
        match error {
            CodexErrorInfo::RateLimitExceeded
            | CodexErrorInfo::ServerOverloaded
            | CodexErrorInfo::HttpConnectionFailed { .. }
            | CodexErrorInfo::ResponseStreamConnectionFailed { .. }
            | CodexErrorInfo::InternalServerError
            | CodexErrorInfo::ResponseStreamDisconnected { .. }
            | CodexErrorInfo::ResponseTooManyFailedAttempts { .. } => {
                AdaptiveFailureKind::TransientInfrastructure
            },
            CodexErrorInfo::Unauthorized => AdaptiveFailureKind::Authentication,
            CodexErrorInfo::SessionBudgetExceeded | CodexErrorInfo::UsageLimitExceeded => {
                AdaptiveFailureKind::Quota
            },
            CodexErrorInfo::ContextWindowExceeded | CodexErrorInfo::ThreadRollbackFailed => {
                AdaptiveFailureKind::Environment
            },
            CodexErrorInfo::SandboxError => AdaptiveFailureKind::Permission,
            CodexErrorInfo::CyberPolicy | CodexErrorInfo::MisalignmentPolicyViolation => {
                AdaptiveFailureKind::AuthorizationOrScope
            },
            CodexErrorInfo::BadRequest
            | CodexErrorInfo::ActiveTurnNotSteerable { .. }
            | CodexErrorInfo::Other => AdaptiveFailureKind::Unknown,
        },
    )
}

/// Errors that say the service or the connection to it was briefly
/// unavailable: rate limiting, overload, connection and stream failures,
/// server errors and exhausted request retries.
pub open spec fn is_availability_error(error: CodexErrorInfo) -> bool {
    ||| error is RateLimitExceeded
    ||| error is ServerOverloaded
    ||| error is HttpConnectionFailed
    ||| error is ResponseStreamConnectionFailed
    ||| error is InternalServerError
    ||| error is ResponseStreamDisconnected
    ||| error is ResponseTooManyFailedAttempts
}

/// Errors that say a session budget or usage limit is spent.
pub open spec fn is_budget_error(error: CodexErrorInfo) -> bool {
    error is SessionBudgetExceeded || error is UsageLimitExceeded
}

/// How a typed error is classified: only an availability error is retried at
/// the same level, and a spent budget or usage limit is a quota failure that
/// blocks. No error ever escalates, passes to owner QA or counts as the
/// user's interrupt.
pub proof fn lemma_error_classification(error: CodexErrorInfo)
    ensures
        ({
            let kind = spec_failure_kind_of_error(error);
            let classification = spec_classify_outcome(AdaptiveOutcomeSignal::Failure(kind));
            &&& (kind == AdaptiveFailureKind::TransientInfrastructure) == is_availability_error(error)
            &&& (classification == AdaptiveClassification::RetrySameLevel) == is_availability_error(
                error,
            )
            &&& (kind == AdaptiveFailureKind::Quota) == is_budget_error(error)
            &&& is_budget_error(error) ==> classification == AdaptiveClassification::Blocked
            &&& classification != AdaptiveClassification::EscalationEligible
            &&& classification != AdaptiveClassification::PassToOwnerQa
            &&& classification != AdaptiveClassification::UserInterrupted
        }),
{
}

} // verus!
