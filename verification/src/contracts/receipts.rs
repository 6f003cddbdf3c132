//! Public receipt and report support refs.
use vstd::prelude::*;
use vstd::std_specs::cmp::PartialEqSpecImpl;

use crate::contracts::refs::IdentitySourceRef;

verus! {

/// Maintenance issue category.
#[derive(Clone, Copy, Debug, Eq, Hash, Ord, PartialEq, PartialOrd, Structural)]
pub enum MaintenanceIssueKind {
    /// Projection or reference is stale.
    Stale,
    /// External dependency is unavailable.
    Unavailable,
    /// External reference cannot be recognized.
    Unrecognized,
    /// Derived material is incomplete.
    Partial,
    /// Drift was detected.
    DriftDetected,
    /// Maintenance execution failed.
    Failed,
    /// Forbidden material was detected.
    ForbiddenBody,
}

/// Body-free maintenance issue marker.
#[derive(Debug, Eq, Hash, Ord, PartialEq, PartialOrd)]
pub struct MaintenanceIssueRef {
    /// Issue category.
    pub issue_kind: MaintenanceIssueKind,
    /// Opaque issue source marker.
    pub issue_ref: IdentitySourceRef,
}

impl Clone for MaintenanceIssueRef {
    fn clone(&self) -> (r: Self)
        ensures
            r == *self,
    {
        MaintenanceIssueRef { issue_kind: self.issue_kind.clone(), issue_ref: self.issue_ref.clone() }
    }
}

impl MaintenanceIssueRef {
    /// Creates a new body-free maintenance issue marker.
    pub fn new(issue_kind: MaintenanceIssueKind, issue_ref: IdentitySourceRef) -> (r: Self)
        ensures
            r == (MaintenanceIssueRef { issue_kind, issue_ref }),
    {
        MaintenanceIssueRef { issue_kind, issue_ref }
    }
}

/// Trace handoff intent reference.
#[derive(Debug, Eq, Hash, PartialOrd, Ord)]
pub struct TraceHandoffIntentRef(String);

impl Clone for TraceHandoffIntentRef {
    fn clone(&self) -> (r: Self)
        ensures
            r == *self,
    {
        TraceHandoffIntentRef(self.0.clone())
    }
}

impl PartialEq for TraceHandoffIntentRef {
    fn eq(&self, other: &Self) -> (r: bool) {
        self.0 == other.0
    }
}

impl PartialEqSpecImpl for TraceHandoffIntentRef {
    open spec fn obeys_eq_spec() -> bool {
        true
    }

    open spec fn eq_spec(&self, other: &Self) -> bool {
        self@ == other@
    }
}

impl View for TraceHandoffIntentRef {
    type V = Seq<char>;

    closed spec fn view(&self) -> Seq<char> {
        self.0@
    }
}

impl TraceHandoffIntentRef {
    /// Creates a new opaque typed value.
    pub fn new(value: String) -> (r: Self)
        ensures
            r@ == value@,
    {
        TraceHandoffIntentRef(value)
    }

    /// Returns the wrapped string.
    pub fn as_str(&self) -> (r: &str)
        ensures
            r@ == self@,
    {
        self.0.as_str()
    }
}

} // verus!
