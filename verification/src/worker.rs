//! Neutral Worker assignment and workflow handoff facts for adaptive state,
//! including the authority header of a first Worker assignment.
use vstd::prelude::*;

use crate::text::str_eq;

verus! {

#[derive(Clone, Copy, Debug, Default, PartialEq, Eq, Structural)]
pub enum AdaptiveWorkerRole {
    #[default]
    Unspecified,
    Implementation,
    Validation,
    Repair,
}

#[derive(Clone, Debug, PartialEq, Eq)]
pub struct NewWorkerBinding {
    pub role: AdaptiveWorkerRole,
    pub authorized_scope: String,
}

#[derive(Clone, Debug, Default, PartialEq, Eq)]
pub struct AdaptiveWorkerContext {
    pub role: AdaptiveWorkerRole,
    pub authorized_scope: Option<String>,
}

/// Mathematical value of a Worker context.
pub struct WorkerContextView {
    pub role: AdaptiveWorkerRole,
    pub authorized_scope: Option<Seq<char>>,
}

pub open spec fn opt_str_view(o: Option<String>) -> Option<Seq<char>> {
    match o {
        Some(s) => Some(s@),
        None => None,
    }
}

impl View for AdaptiveWorkerContext {
    type V = WorkerContextView;

    open spec fn view(&self) -> WorkerContextView {
        WorkerContextView {
            role: self.role,
            authorized_scope: opt_str_view(self.authorized_scope),
        }
    }
}

pub fn clone_opt_string(o: &Option<String>) -> (r: Option<String>)
    ensures
        r == *o,
{
    match o {
        Some(s) => Some(s.clone()),
        None => None,
    }
}

pub fn opt_string_eq(a: &Option<String>, b: &Option<String>) -> (r: bool)
    ensures
        r == (opt_str_view(*a) == opt_str_view(*b)),
{
    match (a, b) {
        (Some(x), Some(y)) => *x == *y,
        (None, None) => true,
        _ => false,
    }
}

impl AdaptiveWorkerContext {
    pub fn default_context() -> (c: Self)
        ensures
            c.role == AdaptiveWorkerRole::Unspecified,
            c.authorized_scope is None,
    {
        AdaptiveWorkerContext { role: AdaptiveWorkerRole::Unspecified, authorized_scope: None }
    }

    pub fn duplicate(&self) -> (c: Self)
        ensures
            c == *self,
    {
        AdaptiveWorkerContext {
            role: self.role,
            authorized_scope: clone_opt_string(&self.authorized_scope),
        }
    }

    pub fn same_as(&self, other: &Self) -> (r: bool)
        ensures
            r == (self@ == other@),
    {
        self.role == other.role && opt_string_eq(&self.authorized_scope, &other.authorized_scope)
    }
}

/// Worker role as the operator configuration spells it.
#[derive(Clone, Copy, Debug, Default, PartialEq, Eq, Structural)]
pub enum AdaptiveWorkerRoleToml {
    #[default]
    Unspecified,
    Implementation,
    Validation,
    Repair,
}

/// External Worker binding from the operator configuration.
#[derive(Clone, Debug, Default, PartialEq, Eq)]
pub struct AdaptiveWorkerConfigToml {
    pub role: AdaptiveWorkerRoleToml,
    pub authorized_scope: Option<String>,
}

pub open spec fn spec_role_from_config(role: AdaptiveWorkerRoleToml) -> AdaptiveWorkerRole {
    match role {
        AdaptiveWorkerRoleToml::Unspecified => AdaptiveWorkerRole::Unspecified,
        AdaptiveWorkerRoleToml::Implementation => AdaptiveWorkerRole::Implementation,
        AdaptiveWorkerRoleToml::Validation => AdaptiveWorkerRole::Validation,
        AdaptiveWorkerRoleToml::Repair => AdaptiveWorkerRole::Repair,
    }
}

impl From<AdaptiveWorkerConfigToml> for AdaptiveWorkerContext {
    fn from(binding: AdaptiveWorkerConfigToml) -> (r: Self) {
        let role = match binding.role {
            AdaptiveWorkerRoleToml::Unspecified => AdaptiveWorkerRole::Unspecified,
            AdaptiveWorkerRoleToml::Implementation => AdaptiveWorkerRole::Implementation,
            AdaptiveWorkerRoleToml::Validation => AdaptiveWorkerRole::Validation,
            AdaptiveWorkerRoleToml::Repair => AdaptiveWorkerRole::Repair,
        };
        AdaptiveWorkerContext { role, authorized_scope: binding.authorized_scope }
    }
}

impl vstd::std_specs::convert::FromSpecImpl<AdaptiveWorkerConfigToml> for AdaptiveWorkerContext {
    open spec fn obeys_from_spec() -> bool {
        true
    }

    open spec fn from_spec(binding: AdaptiveWorkerConfigToml) -> Self {
        AdaptiveWorkerContext {
            role: spec_role_from_config(binding.role),
            authorized_scope: binding.authorized_scope,
        }
    }
}

pub open spec fn spec_parse_role(value: Seq<char>) -> Option<AdaptiveWorkerRole> {
    if value == "implementation"@ {
        Some(AdaptiveWorkerRole::Implementation)
    } else if value == "validation"@ {
        Some(AdaptiveWorkerRole::Validation)
    } else if value == "repair"@ {
        Some(AdaptiveWorkerRole::Repair)
    } else {
        None
    }
}

pub fn parse_new_worker_role(value: &str) -> (r: Option<AdaptiveWorkerRole>)
    ensures
        r == spec_parse_role(value@),
{
    if str_eq(value, "implementation") {
        Some(AdaptiveWorkerRole::Implementation)
    } else if str_eq(value, "validation") {
        Some(AdaptiveWorkerRole::Validation)
    } else if str_eq(value, "repair") {
        Some(AdaptiveWorkerRole::Repair)
    } else {
        None
    }
}

#[derive(Clone, Copy, Debug, PartialEq, Eq, Structural)]
pub enum AdaptiveWorkflowTerminal {
    ReadyForValidation,
    RepairRequired,
    ReadyForOwnerQa,
    Blocked,
}

} // verus!
