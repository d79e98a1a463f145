//! Deterministic task-complexity floors.
//!
//! Complexity can authorize a stronger starting floor before implementation
//! begins. It does not authorize ladder jumps during an active Worker attempt
//! and therefore remains separate from failure pressure and capability reports.
use vstd::prelude::*;

use crate::policy::{
    AdaptiveEffort, AdaptiveFamily, AdaptiveRoute, family_rank, ladder_position, mk_route,
};

verus! {

#[derive(Clone, Copy, Debug, Default, PartialEq, Eq, Structural)]
pub struct AdaptiveComplexitySignals {
    pub estimated_files: u16,
    pub cross_module: bool,
    pub public_api_or_data_model: bool,
    pub persistent_state_or_serialization: bool,
    pub concurrency_or_async: bool,
    pub build_release_or_toolchain: bool,
    pub uncertain_root_cause: bool,
    pub broad_test_surface: bool,
}

#[derive(Clone, Copy, Debug, PartialEq, Eq, Structural)]
pub enum AdaptiveComplexityClass {
    Routine,
    Standard,
    Complex,
    Architectural,
}

pub open spec fn class_rank(c: AdaptiveComplexityClass) -> int {
    match c {
        AdaptiveComplexityClass::Routine => 0,
        AdaptiveComplexityClass::Standard => 1,
        AdaptiveComplexityClass::Complex => 2,
        AdaptiveComplexityClass::Architectural => 3,
    }
}

pub open spec fn spec_class_label(c: AdaptiveComplexityClass) -> Seq<char> {
    match c {
        AdaptiveComplexityClass::Routine => "Routine"@,
        AdaptiveComplexityClass::Standard => "Standard"@,
        AdaptiveComplexityClass::Complex => "Complex"@,
        AdaptiveComplexityClass::Architectural => "Architectural"@,
    }
}

impl AdaptiveComplexityClass {
    pub fn label(self) -> (s: &'static str)
        ensures
            s@ == spec_class_label(self),
    {
        match self {
            AdaptiveComplexityClass::Routine => "Routine",
            AdaptiveComplexityClass::Standard => "Standard",
            AdaptiveComplexityClass::Complex => "Complex",
            AdaptiveComplexityClass::Architectural => "Architectural",
        }
    }
}

pub open spec fn files_points(files: u16) -> int {
    if files <= 2 {
        0
    } else if files <= 5 {
        1
    } else if files <= 10 {
        2
    } else {
        3
    }
}

pub open spec fn flag(b: bool, weight: int) -> int {
    if b {
        weight
    } else {
        0
    }
}

/// The complexity score of a reconnaissance report: estimated files give up to
/// three points, API, persistence, concurrency and build changes two each, and
/// cross-module work, an uncertain root cause and a broad test surface one each.
pub open spec fn complexity_score(s: AdaptiveComplexitySignals) -> int {
    files_points(s.estimated_files) + flag(s.cross_module, 1) + flag(s.public_api_or_data_model, 2)
        + flag(s.persistent_state_or_serialization, 2) + flag(s.concurrency_or_async, 2) + flag(
        s.build_release_or_toolchain,
        2,
    ) + flag(s.uncertain_root_cause, 1) + flag(s.broad_test_surface, 1)
}

pub open spec fn class_for_score(score: int) -> AdaptiveComplexityClass {
    if score <= 1 {
        AdaptiveComplexityClass::Routine
    } else if score <= 4 {
        AdaptiveComplexityClass::Standard
    } else if score <= 7 {
        AdaptiveComplexityClass::Complex
    } else {
        AdaptiveComplexityClass::Architectural
    }
}

pub open spec fn spec_classify_complexity(s: AdaptiveComplexitySignals) -> AdaptiveComplexityClass {
    class_for_score(complexity_score(s))
}

/// Score of a report, as the saturating `u8` sum that never reaches its
/// limit: the largest score is fourteen.
pub fn complexity_points(signals: AdaptiveComplexitySignals) -> (score: u8)
    ensures
        score == complexity_score(signals),
        score <= 14,
{
    let mut score: u8 = 0;
    score = score + if signals.estimated_files <= 2 {
        0
    } else if signals.estimated_files <= 5 {
        1
    } else if signals.estimated_files <= 10 {
        2
    } else {
        3
    };
    if signals.cross_module {
        score = score + 1;
    }
    if signals.public_api_or_data_model {
        score = score + 2;
    }
    if signals.persistent_state_or_serialization {
        score = score + 2;
    }
    if signals.concurrency_or_async {
        score = score + 2;
    }
    if signals.build_release_or_toolchain {
        score = score + 2;
    }
    if signals.uncertain_root_cause {
        score = score + 1;
    }
    if signals.broad_test_surface {
        score = score + 1;
    }
    score
}

pub fn classify_complexity(signals: AdaptiveComplexitySignals) -> (c: AdaptiveComplexityClass)
    ensures
        c == spec_classify_complexity(signals),
{
    let score = complexity_points(signals);
    if score <= 1 {
        AdaptiveComplexityClass::Routine
    } else if score <= 4 {
        AdaptiveComplexityClass::Standard
    } else if score <= 7 {
        AdaptiveComplexityClass::Complex
    } else {
        AdaptiveComplexityClass::Architectural
    }
}

pub open spec fn spec_implementation_floor(c: AdaptiveComplexityClass) -> AdaptiveRoute {
    match c {
        AdaptiveComplexityClass::Routine => mk_route(AdaptiveFamily::Luna, AdaptiveEffort::Low),
        AdaptiveComplexityClass::Standard => mk_route(AdaptiveFamily::Luna, AdaptiveEffort::High),
        AdaptiveComplexityClass::Complex => mk_route(AdaptiveFamily::Terra, AdaptiveEffort::Low),
        AdaptiveComplexityClass::Architectural => mk_route(
            AdaptiveFamily::Terra,
            AdaptiveEffort::Medium,
        ),
    }
}

pub fn implementation_floor(class: AdaptiveComplexityClass) -> (r: AdaptiveRoute)
    ensures
        r == spec_implementation_floor(class),
{
    match class {
        AdaptiveComplexityClass::Routine => AdaptiveRoute {
            family: AdaptiveFamily::Luna,
            effort: AdaptiveEffort::Low,
        },
        AdaptiveComplexityClass::Standard => AdaptiveRoute {
            family: AdaptiveFamily::Luna,
            effort: AdaptiveEffort::High,
        },
        AdaptiveComplexityClass::Complex => AdaptiveRoute {
            family: AdaptiveFamily::Terra,
            effort: AdaptiveEffort::Low,
        },
        AdaptiveComplexityClass::Architectural => AdaptiveRoute {
            family: AdaptiveFamily::Terra,
            effort: AdaptiveEffort::Medium,
        },
    }
}

/// Signals `a` claim no more than signals `b`: no more files and no flag that
/// `b` lacks.
pub open spec fn signals_below(a: AdaptiveComplexitySignals, b: AdaptiveComplexitySignals) -> bool {
    &&& a.estimated_files <= b.estimated_files
    &&& a.cross_module ==> b.cross_module
    &&& a.public_api_or_data_model ==> b.public_api_or_data_model
    &&& a.persistent_state_or_serialization ==> b.persistent_state_or_serialization
    &&& a.concurrency_or_async ==> b.concurrency_or_async
    &&& a.build_release_or_toolchain ==> b.build_release_or_toolchain
    &&& a.uncertain_root_cause ==> b.uncertain_root_cause
    &&& a.broad_test_surface ==> b.broad_test_surface
}

/// Complexity pressure only raises the floor: reporting more never yields a
/// lower class or a lower implementation floor.
pub proof fn lemma_complexity_is_monotone(a: AdaptiveComplexitySignals, b: AdaptiveComplexitySignals)
    requires
        signals_below(a, b),
    ensures
        complexity_score(a) <= complexity_score(b),
        class_rank(spec_classify_complexity(a)) <= class_rank(spec_classify_complexity(b)),
        ladder_position(spec_implementation_floor(spec_classify_complexity(a)))->0
            <= ladder_position(spec_implementation_floor(spec_classify_complexity(b)))->0,
{
}

/// A complexity floor never starts directly on Sol or Astra: it stays on Luna
/// or Terra, at most Terra Medium.
pub proof fn lemma_floor_never_starts_above_terra_medium(c: AdaptiveComplexityClass)
    ensures
        spec_implementation_floor(c).family == AdaptiveFamily::Luna
            || spec_implementation_floor(c).family == AdaptiveFamily::Terra,
        family_rank(spec_implementation_floor(c).family) <= 1,
        ladder_position(spec_implementation_floor(c)) is Some,
        ladder_position(spec_implementation_floor(c))->0 <= 4,
{
}

} // verus!
