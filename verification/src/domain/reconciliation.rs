//! Report-only maintenance and reconciliation helpers.
use vstd::prelude::*;

use crate::actor::ActorRef;
use crate::contracts::receipts::MaintenanceIssueRef;
use crate::contracts::refs::{
    ExternalReferenceRef, IdentityMaintenanceTargetRef, IdentityOperationChannel,
    IdentityProjectionRef, IdentityTimestamp, MaintenanceScopeRef, ReconciliationFindingIntentRef,
    ReconciliationFindingMaterial, ReconciliationFindingMaterialKind, ReconciliationFindingRef,
    ReconciliationReportRef,
};
use crate::domain::errors::{write_channel_denial, IdentityDomainError};

verus! {

/// Maintenance intent category.
#[derive(Clone, Copy, Debug, Eq, PartialEq, Structural)]
pub enum IdentityMaintenanceIntent {
    /// Rebuild an identity-owned projection.
    RebuildProjection,
    /// Refresh external reference state.
    RefreshReference,
    /// Generate reconciliation report.
    Reconcile,
    /// Attempt to repair identity truth.
    RepairIdentityTruth,
    /// Attempt to repair external truth.
    RepairExternalTruth,
}

/// Report-only reconciliation report state kind.
#[derive(Clone, Copy, Debug, Eq, PartialEq, Structural)]
pub enum ReconciliationReportStateKind {
    /// Report was generated and can be read.
    Generated,
    /// No finding was detected in the requested scope.
    NoFinding,
    /// One or more findings were detected.
    FindingDetected,
    /// Report is partial because part of the scope failed or was unavailable.
    Partial,
    /// Report generation failed.
    Failed,
}

/// Guard that keeps identity maintenance report-only.
#[derive(Debug, Eq, PartialEq)]
pub struct ReconciliationPolicy {
    /// Scope covered by the maintenance operation.
    pub maintenance_scope_ref: MaintenanceScopeRef,
    /// Operation channel attempting maintenance.
    pub operation_channel: IdentityOperationChannel,
    /// Optional actor or system actor for controlled maintenance.
    pub actor_ref: Option<ActorRef>,
    /// Maintenance target.
    pub target_ref: IdentityMaintenanceTargetRef,
    /// Maintenance intent.
    pub maintenance_intent: IdentityMaintenanceIntent,
    /// Optional finding intent.
    pub finding_intent_ref: Option<ReconciliationFindingIntentRef>,
    /// Optional finding material marker.
    pub finding_material: Option<ReconciliationFindingMaterial>,
}

impl Clone for ReconciliationPolicy {
    fn clone(&self) -> (r: Self)
        ensures
            r == *self,
    {
        ReconciliationPolicy {
            maintenance_scope_ref: self.maintenance_scope_ref.clone(),
            operation_channel: self.operation_channel,
            actor_ref: self.actor_ref.clone(),
            target_ref: self.target_ref.clone(),
            maintenance_intent: self.maintenance_intent,
            finding_intent_ref: self.finding_intent_ref.clone(),
            finding_material: self.finding_material,
        }
    }
}

/// Whether a finding material category carries a forbidden body.
pub open spec fn finding_material_forbidden(kind: ReconciliationFindingMaterialKind) -> bool {
    ||| kind == ReconciliationFindingMaterialKind::ForbiddenExternalBody
    ||| kind == ReconciliationFindingMaterialKind::ForbiddenDiagnosticBody
    ||| kind == ReconciliationFindingMaterialKind::ForbiddenSecret
}

/// Whether a channel is read-only by design.
pub open spec fn channel_read_only(channel: IdentityOperationChannel) -> bool {
    channel == IdentityOperationChannel::Query || channel == IdentityOperationChannel::ProjectionMaintenance
}

/// The first report-only rule a maintenance policy breaks, checked in order:
/// identity truth repair, external truth repair, read-only channel, forbidden
/// finding material. `None` when the policy is report-only.
pub open spec fn report_only_violation(policy: ReconciliationPolicy) -> Option<IdentityDomainError> {
    if policy.maintenance_intent == IdentityMaintenanceIntent::RepairIdentityTruth {
        Some(IdentityDomainError::PolicyDenied { policy: "ReconciliationPolicy", message: "maintenance cannot repair identity truth" })
    } else if policy.maintenance_intent == IdentityMaintenanceIntent::RepairExternalTruth {
        Some(IdentityDomainError::PolicyDenied { policy: "ReconciliationPolicy", message: "maintenance cannot repair external truth" })
    } else if channel_read_only(policy.operation_channel) {
        Some(write_channel_denial("ReconciliationPolicy", policy.operation_channel, "query and projection-read channels cannot rebuild, refresh, or reconcile"))
    } else if policy.finding_material matches Some(m) && finding_material_forbidden(m.material_kind) {
        Some(IdentityDomainError::PolicyDenied { policy: "ReconciliationPolicy", message: "reconciliation finding material must remain body-free" })
    } else {
        None
    }
}

impl ReconciliationPolicy {
    /// Creates a projection rebuild guard whose target names the projection.
    pub fn for_projection_rebuild(
        maintenance_scope_ref: MaintenanceScopeRef,
        projection_ref: IdentityProjectionRef,
        actor_ref: Option<ActorRef>,
        operation_channel: IdentityOperationChannel,
    ) -> (r: Self)
        ensures
            r.maintenance_scope_ref == maintenance_scope_ref,
            r.operation_channel == operation_channel,
            r.actor_ref == actor_ref,
            r.target_ref@ == projection_ref@,
            r.maintenance_intent == IdentityMaintenanceIntent::RebuildProjection,
            r.finding_intent_ref is None,
            r.finding_material is None,
    {
        ReconciliationPolicy {
            maintenance_scope_ref,
            operation_channel,
            actor_ref,
            target_ref: IdentityMaintenanceTargetRef::new(projection_ref.into_inner()),
            maintenance_intent: IdentityMaintenanceIntent::RebuildProjection,
            finding_intent_ref: None,
            finding_material: None,
        }
    }

    /// Creates a reference refresh guard whose target names the external source
    /// of the reference.
    pub fn for_reference_refresh(
        maintenance_scope_ref: MaintenanceScopeRef,
        external_reference_ref: ExternalReferenceRef,
        actor_ref: Option<ActorRef>,
        operation_channel: IdentityOperationChannel,
    ) -> (r: Self)
        ensures
            r.maintenance_scope_ref == maintenance_scope_ref,
            r.operation_channel == operation_channel,
            r.actor_ref == actor_ref,
            r.target_ref@ == external_reference_ref.source_ref.external_ref@,
            r.maintenance_intent == IdentityMaintenanceIntent::RefreshReference,
            r.finding_intent_ref is None,
            r.finding_material is None,
    {
        ReconciliationPolicy {
            maintenance_scope_ref,
            operation_channel,
            actor_ref,
            target_ref: IdentityMaintenanceTargetRef::new(external_reference_ref.source_ref.external_ref.into_inner()),
            maintenance_intent: IdentityMaintenanceIntent::RefreshReference,
            finding_intent_ref: None,
            finding_material: None,
        }
    }

    /// Creates a reconciliation guard.
    pub fn for_reconciliation(
        maintenance_scope_ref: MaintenanceScopeRef,
        target_ref: IdentityMaintenanceTargetRef,
        finding_intent_ref: ReconciliationFindingIntentRef,
        finding_material: ReconciliationFindingMaterial,
        actor_ref: Option<ActorRef>,
        operation_channel: IdentityOperationChannel,
    ) -> (r: Self)
        ensures
            r == (ReconciliationPolicy {
                maintenance_scope_ref,
                operation_channel,
                actor_ref,
                target_ref,
                maintenance_intent: IdentityMaintenanceIntent::Reconcile,
                finding_intent_ref: Some(finding_intent_ref),
                finding_material: Some(finding_material),
            }),
    {
        ReconciliationPolicy {
            maintenance_scope_ref,
            operation_channel,
            actor_ref,
            target_ref,
            maintenance_intent: IdentityMaintenanceIntent::Reconcile,
            finding_intent_ref: Some(finding_intent_ref),
            finding_material: Some(finding_material),
        }
    }

    /// Rejects repair intents against identity truth.
    pub fn assert_not_truth_write(&self) -> (r: Result<(), IdentityDomainError>)
        ensures
            r is Ok <==> self.maintenance_intent != IdentityMaintenanceIntent::RepairIdentityTruth,
            r matches Err(e) ==> e == (IdentityDomainError::PolicyDenied { policy: "ReconciliationPolicy", message: "maintenance cannot repair identity truth" }),
    {
        if self.maintenance_intent == IdentityMaintenanceIntent::RepairIdentityTruth {
            return Err(IdentityDomainError::policy_denied("ReconciliationPolicy", "maintenance cannot repair identity truth"));
        }
        Ok(())
    }

    /// Rejects repair intents against external truth.
    pub fn assert_not_cross_repo_repair(&self) -> (r: Result<(), IdentityDomainError>)
        ensures
            r is Ok <==> self.maintenance_intent != IdentityMaintenanceIntent::RepairExternalTruth,
            r matches Err(e) ==> e == (IdentityDomainError::PolicyDenied { policy: "ReconciliationPolicy", message: "maintenance cannot repair external truth" }),
    {
        if self.maintenance_intent == IdentityMaintenanceIntent::RepairExternalTruth {
            return Err(IdentityDomainError::policy_denied("ReconciliationPolicy", "maintenance cannot repair external truth"));
        }
        Ok(())
    }

    /// Rejects refresh and rebuild attempts from query paths.
    pub fn assert_not_query_path_refresh(&self) -> (r: Result<(), IdentityDomainError>)
        ensures
            r is Ok <==> !channel_read_only(self.operation_channel),
            r matches Err(e) ==> e == write_channel_denial(
                "ReconciliationPolicy",
                self.operation_channel,
                "query and projection-read channels cannot rebuild, refresh, or reconcile",
            ),
    {
        if self.operation_channel.is_read_only() {
            return Err(IdentityDomainError::write_channel_denied(
                "ReconciliationPolicy",
                self.operation_channel,
                "query and projection-read channels cannot rebuild, refresh, or reconcile",
            ));
        }
        Ok(())
    }

    /// Rejects forbidden finding material; a policy without material passes.
    pub fn assert_body_free(&self) -> (r: Result<(), IdentityDomainError>)
        ensures
            r is Ok <==> !(self.finding_material matches Some(m) && finding_material_forbidden(m.material_kind)),
            r matches Err(e) ==> e == (IdentityDomainError::PolicyDenied { policy: "ReconciliationPolicy", message: "reconciliation finding material must remain body-free" }),
    {
        match self.finding_material {
            None => Ok(()),
            Some(material) => match material.material_kind {
                ReconciliationFindingMaterialKind::SafeRefsOnly | ReconciliationFindingMaterialKind::IssueRefsOnly => Ok(()),
                ReconciliationFindingMaterialKind::ForbiddenExternalBody
                | ReconciliationFindingMaterialKind::ForbiddenDiagnosticBody
                | ReconciliationFindingMaterialKind::ForbiddenSecret => Err(IdentityDomainError::policy_denied(
                    "ReconciliationPolicy",
                    "reconciliation finding material must remain body-free",
                )),
            },
        }
    }

    /// Asserts that the maintenance path is report-only, reporting the first rule
    /// that is broken.
    pub fn assert_report_only(&self) -> (r: Result<(), IdentityDomainError>)
        ensures
            r is Ok <==> report_only_violation(*self) is None,
            r matches Err(e) ==> report_only_violation(*self) == Some(e),
    {
        match self.assert_not_truth_write() {
            Err(e) => return Err(e),
            Ok(()) => {},
        }
        match self.assert_not_cross_repo_repair() {
            Err(e) => return Err(e),
            Ok(()) => {},
        }
        match self.assert_not_query_path_refresh() {
            Err(e) => return Err(e),
            Ok(()) => {},
        }
        self.assert_body_free()
    }
}

/// Report-only reconciliation result for identity maintenance.
#[derive(Debug, Eq, PartialEq)]
pub struct ReconciliationReport {
    /// Report identity.
    pub report_ref: ReconciliationReportRef,
    /// Scope covered by this report.
    pub maintenance_scope_ref: MaintenanceScopeRef,
    /// Projection, reference, or report targets checked by this report.
    pub target_refs: Vec<IdentityMaintenanceTargetRef>,
    /// Body-free finding refs.
    pub finding_refs: Vec<ReconciliationFindingRef>,
    /// Safe issue refs for drift, unavailable dependency, partial result, or failure.
    pub issue_refs: Vec<MaintenanceIssueRef>,
    /// Report state.
    pub report_state: ReconciliationReportStateKind,
    /// Optional actor or system actor that generated the report.
    pub generated_by_ref: Option<ActorRef>,
    /// Report generation timestamp.
    pub generated_at: IdentityTimestamp,
}

impl Clone for ReconciliationReport {
    fn clone(&self) -> (r: Self)
        ensures
            r.report_ref == self.report_ref,
            r.maintenance_scope_ref == self.maintenance_scope_ref,
            r.target_refs@ == self.target_refs@,
            r.finding_refs@ == self.finding_refs@,
            r.issue_refs@ == self.issue_refs@,
            r.report_state == self.report_state,
            r.generated_by_ref == self.generated_by_ref,
            r.generated_at == self.generated_at,
    {
        let target_refs = self.target_refs.clone();
        proof {
            assert(target_refs@ =~= self.target_refs@);
        }
        let finding_refs = self.finding_refs.clone();
        proof {
            assert(finding_refs@ =~= self.finding_refs@);
        }
        let issue_refs = self.issue_refs.clone();
        proof {
            assert(issue_refs@ =~= self.issue_refs@);
        }
        ReconciliationReport {
            report_ref: self.report_ref.clone(),
            maintenance_scope_ref: self.maintenance_scope_ref.clone(),
            target_refs,
            finding_refs,
            issue_refs,
            report_state: self.report_state,
            generated_by_ref: self.generated_by_ref.clone(),
            generated_at: self.generated_at,
        }
    }
}

/// The state a freshly generated report takes from its findings and issues.
pub open spec fn generated_report_state(finding_count: nat, issue_count: nat) -> ReconciliationReportStateKind {
    if finding_count == 0 && issue_count == 0 {
        ReconciliationReportStateKind::Generated
    } else if finding_count == 0 {
        ReconciliationReportStateKind::Partial
    } else {
        ReconciliationReportStateKind::FindingDetected
    }
}

/// Whether a report in this state still accepts findings or a partial marker.
pub open spec fn report_open_for_findings(kind: ReconciliationReportStateKind) -> bool {
    ||| kind == ReconciliationReportStateKind::Generated
    ||| kind == ReconciliationReportStateKind::NoFinding
    ||| kind == ReconciliationReportStateKind::FindingDetected
}

/// The report invariant: a report that detected findings holds at least one, and
/// a generated or no-finding report holds none.
pub open spec fn report_well_formed(report: ReconciliationReport) -> bool {
    &&& report.report_state == ReconciliationReportStateKind::FindingDetected ==> report.finding_refs@.len() > 0
    &&& (report.report_state == ReconciliationReportStateKind::Generated || report.report_state == ReconciliationReportStateKind::NoFinding)
        ==> report.finding_refs@.len() == 0
}

/// Whether `new` keeps the identity, scope, targets, and author of `old`.
pub open spec fn report_frame(old_report: ReconciliationReport, new_report: ReconciliationReport) -> bool {
    &&& new_report.report_ref == old_report.report_ref
    &&& new_report.maintenance_scope_ref == old_report.maintenance_scope_ref
    &&& new_report.target_refs@ == old_report.target_refs@
    &&& new_report.generated_by_ref == old_report.generated_by_ref
}

/// The rejection every refused report move reports.
pub open spec fn report_transition_error(message: &'static str) -> IdentityDomainError {
    IdentityDomainError::InvalidStateTransition { entity: "ReconciliationReport", message }
}

impl ReconciliationReport {
    /// Creates a report from prepared markers; at least one target is required.
    /// The state follows the findings and issues: none gives `Generated`, issues
    /// alone give `Partial`, any finding gives `FindingDetected`.
    pub fn generated(
        report_ref: ReconciliationReportRef,
        maintenance_scope_ref: MaintenanceScopeRef,
        target_refs: Vec<IdentityMaintenanceTargetRef>,
        finding_refs: Vec<ReconciliationFindingRef>,
        issue_refs: Vec<MaintenanceIssueRef>,
        generated_by_ref: Option<ActorRef>,
        generated_at: IdentityTimestamp,
    ) -> (r: Result<Self, IdentityDomainError>)
        ensures
            r is Ok <==> target_refs@.len() > 0,
            r matches Err(e) ==> e == (IdentityDomainError::MissingRequiredField { field: "target_refs" }),
            r matches Ok(v) ==> {
                &&& v.report_ref == report_ref
                &&& v.maintenance_scope_ref == maintenance_scope_ref
                &&& v.target_refs@ == target_refs@
                &&& v.finding_refs@ == finding_refs@
                &&& v.issue_refs@ == issue_refs@
                &&& v.report_state == generated_report_state(finding_refs@.len(), issue_refs@.len())
                &&& v.generated_by_ref == generated_by_ref
                &&& v.generated_at == generated_at
                &&& report_well_formed(v)
            },
    {
        if target_refs.is_empty() {
            return Err(IdentityDomainError::missing_required_field("target_refs"));
        }
        let report_state = if finding_refs.is_empty() && issue_refs.is_empty() {
            ReconciliationReportStateKind::Generated
        } else if finding_refs.is_empty() {
            ReconciliationReportStateKind::Partial
        } else {
            ReconciliationReportStateKind::FindingDetected
        };
        Ok(ReconciliationReport {
            report_ref,
            maintenance_scope_ref,
            target_refs,
            finding_refs,
            issue_refs,
            report_state,
            generated_by_ref,
            generated_at,
        })
    }

    /// Creates an explicit no-finding report; it always succeeds.
    pub fn no_finding(
        report_ref: ReconciliationReportRef,
        maintenance_scope_ref: MaintenanceScopeRef,
        target_refs: Vec<IdentityMaintenanceTargetRef>,
        generated_by_ref: Option<ActorRef>,
        generated_at: IdentityTimestamp,
    ) -> (r: Result<Self, IdentityDomainError>)
        ensures
            r matches Ok(v) && v.report_ref == report_ref && v.maintenance_scope_ref == maintenance_scope_ref
                && v.target_refs@ == target_refs@ && v.finding_refs@.len() == 0 && v.issue_refs@.len() == 0
                && v.report_state == ReconciliationReportStateKind::NoFinding && v.generated_by_ref == generated_by_ref
                && v.generated_at == generated_at && report_well_formed(v),
    {
        Ok(ReconciliationReport {
            report_ref,
            maintenance_scope_ref,
            target_refs,
            finding_refs: Vec::new(),
            issue_refs: Vec::new(),
            report_state: ReconciliationReportStateKind::NoFinding,
            generated_by_ref,
            generated_at,
        })
    }

    /// Creates a failed report carrying one issue; it always succeeds.
    pub fn failed(
        report_ref: ReconciliationReportRef,
        maintenance_scope_ref: MaintenanceScopeRef,
        issue_ref: MaintenanceIssueRef,
        generated_by_ref: Option<ActorRef>,
        generated_at: IdentityTimestamp,
    ) -> (r: Result<Self, IdentityDomainError>)
        ensures
            r matches Ok(v) && v.report_ref == report_ref && v.maintenance_scope_ref == maintenance_scope_ref
                && v.target_refs@.len() == 0 && v.finding_refs@.len() == 0 && v.issue_refs@ == seq![issue_ref]
                && v.report_state == ReconciliationReportStateKind::Failed && v.generated_by_ref == generated_by_ref
                && v.generated_at == generated_at && report_well_formed(v),
    {
        let mut issue_refs: Vec<MaintenanceIssueRef> = Vec::new();
        issue_refs.push(issue_ref);
        Ok(ReconciliationReport {
            report_ref,
            maintenance_scope_ref,
            target_refs: Vec::new(),
            finding_refs: Vec::new(),
            issue_refs,
            report_state: ReconciliationReportStateKind::Failed,
            generated_by_ref,
            generated_at,
        })
    }

    /// Appends a finding (and its issue, when given) to a generated, no-finding,
    /// or finding-detected report, which then detects findings. A refused append
    /// leaves the report unchanged.
    pub fn append_finding(&mut self, finding_ref: ReconciliationFindingRef, issue_ref: Option<MaintenanceIssueRef>) -> (r: Result<(), IdentityDomainError>)
        ensures
            r is Ok <==> report_open_for_findings(old(self).report_state),
            r is Ok ==> {
                &&& report_frame(*old(self), *final(self))
                &&& final(self).finding_refs@ == old(self).finding_refs@.push(finding_ref)
                &&& final(self).issue_refs@ == (match issue_ref {
                    Some(i) => old(self).issue_refs@.push(i),
                    None => old(self).issue_refs@,
                })
                &&& final(self).report_state == ReconciliationReportStateKind::FindingDetected
                &&& final(self).generated_at == old(self).generated_at
            },
            r is Err ==> *final(self) == *old(self),
            r matches Err(e) ==> e == report_transition_error("finding may be appended only to generated, no-finding, or finding-detected report"),
            report_well_formed(*old(self)) ==> report_well_formed(*final(self)),
    {
        match self.report_state {
            ReconciliationReportStateKind::Generated
            | ReconciliationReportStateKind::NoFinding
            | ReconciliationReportStateKind::FindingDetected => {
                self.finding_refs.push(finding_ref);
                match issue_ref {
                    Some(issue_ref) => self.issue_refs.push(issue_ref),
                    None => {},
                }
                self.report_state = ReconciliationReportStateKind::FindingDetected;
                Ok(())
            },
            _ => Err(IdentityDomainError::invalid_state_transition(
                "ReconciliationReport",
                "finding may be appended only to generated, no-finding, or finding-detected report",
            )),
        }
    }

    /// Marks a generated, no-finding, or finding-detected report partial, adding
    /// the issue. A refused move leaves the report unchanged.
    pub fn mark_partial(&mut self, issue_ref: MaintenanceIssueRef, generated_at: IdentityTimestamp) -> (r: Result<(), IdentityDomainError>)
        ensures
            r is Ok <==> report_open_for_findings(old(self).report_state),
            r is Ok ==> {
                &&& report_frame(*old(self), *final(self))
                &&& final(self).finding_refs@ == old(self).finding_refs@
                &&& final(self).issue_refs@ == old(self).issue_refs@.push(issue_ref)
                &&& final(self).report_state == ReconciliationReportStateKind::Partial
                &&& final(self).generated_at == generated_at
            },
            r is Err ==> *final(self) == *old(self),
            r matches Err(e) ==> e == report_transition_error("partial marker may be applied only before report becomes failed"),
            report_well_formed(*old(self)) ==> report_well_formed(*final(self)),
    {
        match self.report_state {
            ReconciliationReportStateKind::Generated
            | ReconciliationReportStateKind::NoFinding
            | ReconciliationReportStateKind::FindingDetected => {
                self.issue_refs.push(issue_ref);
                self.report_state = ReconciliationReportStateKind::Partial;
                self.generated_at = generated_at;
                Ok(())
            },
            _ => Err(IdentityDomainError::invalid_state_transition(
                "ReconciliationReport",
                "partial marker may be applied only before report becomes failed",
            )),
        }
    }

    /// Marks any report that has not failed as failed, adding the issue. A
    /// refused move leaves the report unchanged.
    pub fn mark_failed(&mut self, issue_ref: MaintenanceIssueRef, generated_at: IdentityTimestamp) -> (r: Result<(), IdentityDomainError>)
        ensures
            r is Ok <==> old(self).report_state != ReconciliationReportStateKind::Failed,
            r is Ok ==> {
                &&& report_frame(*old(self), *final(self))
                &&& final(self).finding_refs@ == old(self).finding_refs@
                &&& final(self).issue_refs@ == old(self).issue_refs@.push(issue_ref)
                &&& final(self).report_state == ReconciliationReportStateKind::Failed
                &&& final(self).generated_at == generated_at
            },
            r is Err ==> *final(self) == *old(self),
            r matches Err(e) ==> e == report_transition_error("failed report cannot fail again"),
            report_well_formed(*old(self)) ==> report_well_formed(*final(self)),
    {
        match self.report_state {
            ReconciliationReportStateKind::Failed => Err(IdentityDomainError::invalid_state_transition(
                "ReconciliationReport",
                "failed report cannot fail again",
            )),
            _ => {
                self.issue_refs.push(issue_ref);
                self.report_state = ReconciliationReportStateKind::Failed;
                self.generated_at = generated_at;
                Ok(())
            },
        }
    }

    /// Returns whether the report has any findings.
    pub fn has_findings(&self) -> (r: bool)
        ensures
            r == (self.finding_refs@.len() > 0),
    {
        !self.finding_refs.is_empty()
    }

    /// Returns the finding count.
    pub fn finding_count(&self) -> (r: usize)
        ensures
            r == self.finding_refs@.len(),
    {
        self.finding_refs.len()
    }

    /// Returns whether the report is failed.
    pub fn is_failed(&self) -> (r: bool)
        ensures
            r == (self.report_state == ReconciliationReportStateKind::Failed),
    {
        self.report_state == ReconciliationReportStateKind::Failed
    }

    /// A report is report-only material by construction: this check always passes.
    pub fn assert_report_only(&self) -> (r: Result<(), IdentityDomainError>)
        ensures
            r is Ok,
    {
        Ok(())
    }
}

/// Law: a failed report is final (no finding, partial marker, or second failure
/// is accepted), and a partial report accepts only failure.
pub proof fn lemma_failed_report_is_final(kind: ReconciliationReportStateKind)
    ensures
        !report_open_for_findings(ReconciliationReportStateKind::Failed),
        !report_open_for_findings(ReconciliationReportStateKind::Partial),
        kind != ReconciliationReportStateKind::Failed <==> (report_open_for_findings(kind) || kind == ReconciliationReportStateKind::Partial),
{
}

/// Law: on a well-formed report in an open state, a report has findings exactly
/// when it is in the finding-detected state.
pub proof fn lemma_report_findings_match_state(report: ReconciliationReport)
    requires
        report_well_formed(report),
        report_open_for_findings(report.report_state),
    ensures
        report.finding_refs@.len() > 0 <==> report.report_state == ReconciliationReportStateKind::FindingDetected,
{
}

/// Law: a report-only policy never repairs truth and never runs on a read-only
/// channel; the guards built for projection rebuild and reference refresh carry
/// no finding material, so on a writing channel they are report-only.
pub proof fn lemma_report_only_policy(policy: ReconciliationPolicy)
    ensures
        report_only_violation(policy) is None ==> {
            &&& policy.maintenance_intent != IdentityMaintenanceIntent::RepairIdentityTruth
            &&& policy.maintenance_intent != IdentityMaintenanceIntent::RepairExternalTruth
            &&& !channel_read_only(policy.operation_channel)
        },
        (policy.finding_material is None
            && (policy.maintenance_intent == IdentityMaintenanceIntent::RebuildProjection
                || policy.maintenance_intent == IdentityMaintenanceIntent::RefreshReference)
            && !channel_read_only(policy.operation_channel)) ==> report_only_violation(policy) is None,
{
}


/// Finding material is refused exactly when it carries a body: only safe
/// refs and issue refs may enter a report.
pub proof fn lemma_finding_material_refs_only(kind: crate::contracts::refs::ReconciliationFindingMaterialKind)
    ensures
        !finding_material_forbidden(kind) <==> (
            kind == crate::contracts::refs::ReconciliationFindingMaterialKind::SafeRefsOnly
            || kind == crate::contracts::refs::ReconciliationFindingMaterialKind::IssueRefsOnly),
{
}

/// The read-only channels are exactly the query and projection maintenance
/// channels, and none of them may establish a member.
pub proof fn lemma_read_only_channels(channel: crate::contracts::refs::IdentityOperationChannel)
    ensures
        channel_read_only(channel) <==> !(
            channel == crate::contracts::refs::IdentityOperationChannel::Command
            || channel == crate::contracts::refs::IdentityOperationChannel::Consumer
            || channel == crate::contracts::refs::IdentityOperationChannel::Job
            || channel == crate::contracts::refs::IdentityOperationChannel::HandoffCallback
        ),
        channel_read_only(channel) ==> !crate::domain::member_identity::channel_may_establish(channel),
{
}

/// A generated report's state follows its contents: findings make it
/// finding-detected, issues without findings make it partial, and an empty
/// report is generated; a generated report is always open for findings
/// exactly when it is not partial.
pub proof fn lemma_generated_report_state_follows_contents(finding_count: nat, issue_count: nat)
    ensures
        (generated_report_state(finding_count, issue_count) == ReconciliationReportStateKind::FindingDetected) <==> finding_count > 0,
        (generated_report_state(finding_count, issue_count) == ReconciliationReportStateKind::Partial)
            <==> (finding_count == 0 && issue_count > 0),
        report_open_for_findings(generated_report_state(finding_count, issue_count))
            <==> generated_report_state(finding_count, issue_count) != ReconciliationReportStateKind::Partial,
{
}

} // verus!
