//! Budget-aware routing helpers.
//!
//! The budget mode comes from backend-provided rate-limit windows and decides
//! whether to conserve, stay balanced, or spend surplus allowance on quality.
//! It never authorizes failure-driven escalation.
use vstd::prelude::*;

use crate::policy::{AdaptiveEffort, AdaptiveFamily, AdaptiveRoute, mk_route};

verus! {

#[derive(Clone, Copy, Debug, Default, PartialEq, Eq, Structural)]
pub enum AdaptiveBudgetMode {
    Conserve,
    #[default]
    Balanced,
    Surplus,
}

pub open spec fn spec_budget_label(mode: AdaptiveBudgetMode) -> Seq<char> {
    match mode {
        AdaptiveBudgetMode::Conserve => "Conserve"@,
        AdaptiveBudgetMode::Balanced => "Balanced"@,
        AdaptiveBudgetMode::Surplus => "Surplus"@,
    }
}

impl AdaptiveBudgetMode {
    pub fn label(self) -> (s: &'static str)
        ensures
            s@ == spec_budget_label(self),
    {
        match self {
            AdaptiveBudgetMode::Conserve => "Conserve",
            AdaptiveBudgetMode::Balanced => "Balanced",
            AdaptiveBudgetMode::Surplus => "Surplus",
        }
    }
}

/// One rolling rate-limit window as the backend reports it.
#[derive(Clone, Copy, Debug, PartialEq, Eq, Structural)]
pub struct RateLimitWindow {
    pub used_percent: i32,
    pub window_duration_mins: Option<i64>,
    pub resets_at: Option<i64>,
}

/// The integer facts from which a window's surplus is measured: the seconds
/// left until it resets and its length in seconds.
#[derive(Clone, Copy, Debug, PartialEq, Eq, Structural)]
pub struct WindowPace {
    pub seconds_remaining: i64,
    pub duration_seconds: i64,
    pub used_percent: i32,
}

pub open spec fn saturate_i64(x: int) -> i64 {
    if x > i64::MAX {
        i64::MAX
    } else {
        x as i64
    }
}

/// A window counts only when it is complete and has not yet reset; its length
/// and remaining time are then positive, saturated at `i64::MAX`.
pub open spec fn spec_window_pace(window: RateLimitWindow, now_unix_seconds: i64) -> Option<
    WindowPace,
> {
    match (window.window_duration_mins, window.resets_at) {
        (Some(duration_minutes), Some(resets_at)) => if duration_minutes <= 0 || resets_at
            <= now_unix_seconds {
            None
        } else {
            Some(
                WindowPace {
                    seconds_remaining: saturate_i64(resets_at - now_unix_seconds),
                    duration_seconds: saturate_i64(duration_minutes * 60),
                    used_percent: window.used_percent,
                },
            )
        },
        _ => None,
    }
}

/// The part of measuring a window's surplus that precedes the percentages:
/// stale or incomplete windows give nothing, so they cannot create surplus.
pub fn window_pace(window: &RateLimitWindow, now_unix_seconds: i64) -> (p: Option<WindowPace>)
    ensures
        p == spec_window_pace(*window, now_unix_seconds),
        p matches Some(pace) ==> pace.seconds_remaining > 0 && pace.duration_seconds > 0,
{
    let duration_minutes = match window.window_duration_mins {
        Some(d) => d,
        None => return None,
    };
    let resets_at = match window.resets_at {
        Some(r) => r,
        None => return None,
    };
    if duration_minutes <= 0 || resets_at <= now_unix_seconds {
        return None;
    }
    let duration_seconds: i64 = if duration_minutes > i64::MAX / 60 {
        i64::MAX
    } else {
        duration_minutes * 60
    };
    let diff: i128 = resets_at as i128 - now_unix_seconds as i128;
    let seconds_remaining: i64 = if diff > i64::MAX as i128 {
        i64::MAX
    } else {
        diff as i64
    };
    Some(WindowPace { seconds_remaining, duration_seconds, used_percent: window.used_percent })
}

/// How restrictive a mode is: Conserve is the most restrictive, Surplus the
/// least.
pub open spec fn mode_rank(m: AdaptiveBudgetMode) -> int {
    match m {
        AdaptiveBudgetMode::Conserve => 0,
        AdaptiveBudgetMode::Balanced => 1,
        AdaptiveBudgetMode::Surplus => 2,
    }
}

/// The more restrictive of a known mode so far and the next window's mode.
pub open spec fn more_restrictive(
    known: Option<AdaptiveBudgetMode>,
    next: Option<AdaptiveBudgetMode>,
) -> Option<AdaptiveBudgetMode> {
    match (known, next) {
        (None, n) => n,
        (k, None) => k,
        (Some(a), Some(b)) => if mode_rank(b) < mode_rank(a) {
            Some(b)
        } else {
            Some(a)
        },
    }
}

/// The most restrictive mode among the known windows, if any is known.
pub open spec fn most_restrictive_known(modes: Seq<Option<AdaptiveBudgetMode>>) -> Option<
    AdaptiveBudgetMode,
>
    decreases modes.len(),
{
    if modes.len() == 0 {
        None
    } else {
        more_restrictive(most_restrictive_known(modes.drop_last()), modes.last())
    }
}

/// The combined mode: the most restrictive known window wins; with no known
/// window the mode is Balanced, so stale or missing windows never create
/// surplus.
pub open spec fn spec_combine(modes: Seq<Option<AdaptiveBudgetMode>>) -> AdaptiveBudgetMode {
    match most_restrictive_known(modes) {
        Some(m) => m,
        None => AdaptiveBudgetMode::Balanced,
    }
}

pub fn combine_window_modes<const N: usize>(modes: [Option<AdaptiveBudgetMode>; N]) -> (m:
    AdaptiveBudgetMode)
    ensures
        m == spec_combine(modes@),
{
    let mut known: Option<AdaptiveBudgetMode> = None;
    let mut i: usize = 0;
    while i < N
        invariant
            i <= N,
            modes@.len() == N,
            known == most_restrictive_known(modes@.take(i as int)),
        decreases N - i,
    {
        assert(modes@.take(i as int + 1).drop_last() =~= modes@.take(i as int));
        known = match (known, modes[i]) {
            (None, next) => next,
            (k, None) => k,
            (Some(a), Some(b)) => {
                let b_rank: u8 = match b {
                    AdaptiveBudgetMode::Conserve => 0,
                    AdaptiveBudgetMode::Balanced => 1,
                    AdaptiveBudgetMode::Surplus => 2,
                };
                let a_rank: u8 = match a {
                    AdaptiveBudgetMode::Conserve => 0,
                    AdaptiveBudgetMode::Balanced => 1,
                    AdaptiveBudgetMode::Surplus => 2,
                };
                if b_rank < a_rank {
                    Some(b)
                } else {
                    Some(a)
                }
            },
        };
        i = i + 1;
    }
    assert(modes@.take(N as int) =~= modes@);
    match known {
        Some(m) => m,
        None => AdaptiveBudgetMode::Balanced,
    }
}

proof fn lemma_most_restrictive_known(modes: Seq<Option<AdaptiveBudgetMode>>)
    ensures
        most_restrictive_known(modes) is None <==> forall|j: int|
            0 <= j < modes.len() ==> #[trigger] modes[j] is None,
        most_restrictive_known(modes) matches Some(m) ==> exists|j: int|
            0 <= j < modes.len() && modes[j] == Some(m),
        most_restrictive_known(modes) matches Some(m) ==> forall|j: int|
            0 <= j < modes.len() && #[trigger] modes[j] is Some ==> mode_rank(m) <= mode_rank(
                modes[j]->0,
            ),
    decreases modes.len(),
{
    if modes.len() > 0 {
        let p = modes.drop_last();
        lemma_most_restrictive_known(p);
        assert forall|j: int| 0 <= j < p.len() implies #[trigger] p[j] == modes[j] by {}
        match most_restrictive_known(p) {
            Some(m) => {
                let w = choose|j: int| 0 <= j < p.len() && p[j] == Some(m);
                assert(modes[w] == Some(m));
            },
            None => {},
        }
        if most_restrictive_known(modes) is None {
            assert forall|j: int| 0 <= j < modes.len() implies #[trigger] modes[j] is None by {
                if j < p.len() {
                    assert(p[j] == modes[j]);
                }
            }
        }
        if modes.last() is Some {
            assert(modes[modes.len() - 1] == modes.last());
        }
        match most_restrictive_known(modes) {
            Some(m) => {
                assert forall|j: int|
                    0 <= j < modes.len() && #[trigger] modes[j] is Some implies mode_rank(m)
                    <= mode_rank(modes[j]->0) by {
                    if j < p.len() {
                        assert(p[j] == modes[j]);
                    } else {
                        assert(modes[j] == modes.last());
                    }
                }
            },
            None => {},
        }
    }
}

/// The most restrictive known window wins, whatever the order of the
/// windows: the result is Conserve exactly when some known window conserves,
/// Surplus exactly when windows are known and all of them are in surplus,
/// and Balanced otherwise, in particular when no window is known, so stale or
/// missing windows never create surplus.
pub proof fn lemma_budget_windows_combine(modes: Seq<Option<AdaptiveBudgetMode>>)
    ensures
        (forall|j: int| 0 <= j < modes.len() ==> #[trigger] modes[j] is None) ==> spec_combine(
            modes,
        ) == AdaptiveBudgetMode::Balanced,
        spec_combine(modes) == AdaptiveBudgetMode::Conserve <==> exists|j: int|
            0 <= j < modes.len() && modes[j] == Some(AdaptiveBudgetMode::Conserve),
        spec_combine(modes) == AdaptiveBudgetMode::Surplus <==> ((exists|j: int|
            0 <= j < modes.len() && modes[j] is Some) && forall|j: int|
            0 <= j < modes.len() && #[trigger] modes[j] is Some ==> modes[j] == Some(
                AdaptiveBudgetMode::Surplus,
            )),
        forall|j: int|
            0 <= j < modes.len() && #[trigger] modes[j] is Some ==> mode_rank(spec_combine(modes))
                <= mode_rank(modes[j]->0),
{
    lemma_most_restrictive_known(modes);
    if exists|j: int| 0 <= j < modes.len() && modes[j] is Some {
        let w = choose|j: int| 0 <= j < modes.len() && modes[j] is Some;
        assert(modes[w] is Some);
    }
    if spec_combine(modes) != AdaptiveBudgetMode::Conserve {
        if exists|j: int| 0 <= j < modes.len() && modes[j] == Some(AdaptiveBudgetMode::Conserve) {
            let w = choose|j: int| 0 <= j < modes.len() && modes[j] == Some(AdaptiveBudgetMode::Conserve);
            assert(modes[w] is Some);
        }
    }
}

pub open spec fn spec_quality_review_route(mode: AdaptiveBudgetMode) -> AdaptiveRoute {
    match mode {
        AdaptiveBudgetMode::Conserve => mk_route(AdaptiveFamily::Luna, AdaptiveEffort::High),
        AdaptiveBudgetMode::Balanced => mk_route(AdaptiveFamily::Sol, AdaptiveEffort::Low),
        AdaptiveBudgetMode::Surplus => mk_route(AdaptiveFamily::Sol, AdaptiveEffort::High),
    }
}

/// Independent Validation/Review Workers are where surplus quota buys the
/// most quality; implementation keeps its own floor.
pub fn quality_review_route(mode: AdaptiveBudgetMode) -> (r: AdaptiveRoute)
    ensures
        r == spec_quality_review_route(mode),
{
    match mode {
        AdaptiveBudgetMode::Conserve => AdaptiveRoute {
            family: AdaptiveFamily::Luna,
            effort: AdaptiveEffort::High,
        },
        AdaptiveBudgetMode::Balanced => AdaptiveRoute {
            family: AdaptiveFamily::Sol,
            effort: AdaptiveEffort::Low,
        },
        AdaptiveBudgetMode::Surplus => AdaptiveRoute {
            family: AdaptiveFamily::Sol,
            effort: AdaptiveEffort::High,
        },
    }
}

} // verus!
