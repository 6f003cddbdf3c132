//! Append-only career truth and guards.
use vstd::prelude::*;

use crate::actor::ActorRef;
use crate::contracts::refs::{
    same_marker_spec, work_source_requires_review, work_source_trusted, CareerAppendMaterialKind,
    CareerAppendMaterialMarker, CareerAppendReasonRef, CareerRecordChangeIntent, CareerRecordRef,
    CareerSafeSummaryRef, CareerSourceMarkerRef, GlobalMemberRef, IdentityOperationChannel,
    IdentityTimestamp, ProjectParticipationRef, WorkParticipationSourceSummary, WorkSourceRef,
};
use crate::domain::errors::{write_channel_denial, IdentityDomainError};

verus! {

/// Career record state for append-only identity history.
#[derive(Clone, Copy, Debug, Eq, PartialEq, Structural)]
pub enum CareerRecordStateKind {
    /// Normal append-only record.
    Appended,
    /// Correction record appended against an existing record.
    CorrectionAppended,
    /// Existing record superseded by a correction record.
    SupersededByCorrection,
    /// Pending review record created from non-trusted source input.
    SourcePendingReview,
}

/// Append-only career record.
#[derive(Debug, Eq, PartialEq)]
pub struct CareerRecord {
    /// Stable record ref.
    pub career_record_ref: CareerRecordRef,
    /// Member that owns the record.
    pub member_ref: GlobalMemberRef,
    /// Work-owned participation source.
    pub project_participation_ref: ProjectParticipationRef,
    /// Work source ref.
    pub work_source_ref: WorkSourceRef,
    /// Duplicate-prevention marker.
    pub source_marker_ref: CareerSourceMarkerRef,
    /// Optional safe summary marker.
    pub career_summary_ref: Option<CareerSafeSummaryRef>,
    /// Append reason.
    pub append_reason_ref: CareerAppendReasonRef,
    /// Append actor.
    pub appended_by_ref: ActorRef,
    /// Append timestamp.
    pub appended_at: IdentityTimestamp,
    /// Record state.
    pub record_state: CareerRecordStateKind,
    /// Optional original record ref for corrections.
    pub correction_of_ref: Option<CareerRecordRef>,
    /// Optional correction record ref that supersedes this record.
    pub superseded_by_ref: Option<CareerRecordRef>,
}

impl Clone for CareerRecord {
    fn clone(&self) -> (r: Self)
        ensures
            r == *self,
    {
        CareerRecord {
            career_record_ref: self.career_record_ref.clone(),
            member_ref: self.member_ref.clone(),
            project_participation_ref: self.project_participation_ref.clone(),
            work_source_ref: self.work_source_ref.clone(),
            source_marker_ref: self.source_marker_ref.clone(),
            career_summary_ref: self.career_summary_ref.clone(),
            append_reason_ref: self.append_reason_ref.clone(),
            appended_by_ref: self.appended_by_ref.clone(),
            appended_at: self.appended_at,
            record_state: self.record_state,
            correction_of_ref: self.correction_of_ref.clone(),
            superseded_by_ref: self.superseded_by_ref.clone(),
        }
    }
}

/// The record an append builds from a work source summary: the participation,
/// work source, marker, and safe summary come from the summary, and no record
/// supersedes it yet.
pub open spec fn career_record_from(
    career_record_ref: CareerRecordRef,
    member_ref: GlobalMemberRef,
    summary: WorkParticipationSourceSummary,
    append_reason_ref: CareerAppendReasonRef,
    actor_ref: ActorRef,
    appended_at: IdentityTimestamp,
    record_state: CareerRecordStateKind,
    correction_of_ref: Option<CareerRecordRef>,
) -> CareerRecord {
    CareerRecord {
        career_record_ref,
        member_ref,
        project_participation_ref: summary.project_participation_ref,
        work_source_ref: summary.work_source_ref,
        source_marker_ref: summary.source_marker_ref,
        career_summary_ref: summary.safe_summary_ref,
        append_reason_ref,
        appended_by_ref: actor_ref,
        appended_at,
        record_state,
        correction_of_ref,
        superseded_by_ref: None,
    }
}

impl CareerRecord {
    /// Appends a normal record from a trusted work source.
    pub fn append_from_work_source(
        career_record_ref: CareerRecordRef,
        member_ref: GlobalMemberRef,
        source_summary: WorkParticipationSourceSummary,
        append_reason_ref: CareerAppendReasonRef,
        actor_ref: ActorRef,
        appended_at: IdentityTimestamp,
    ) -> (r: Result<Self, IdentityDomainError>)
        ensures
            r is Ok <==> work_source_trusted(source_summary),
            r matches Ok(v) ==> v == career_record_from(
                career_record_ref, member_ref, source_summary, append_reason_ref, actor_ref, appended_at,
                CareerRecordStateKind::Appended, None,
            ),
            r matches Err(e) ==> e == (IdentityDomainError::PolicyDenied { policy: "CareerRecord", message: "trusted work source is required for mainline append" }),
    {
        if !source_summary.is_trusted() {
            return Err(IdentityDomainError::policy_denied("CareerRecord", "trusted work source is required for mainline append"));
        }
        Ok(CareerRecord {
            career_record_ref,
            member_ref,
            project_participation_ref: source_summary.project_participation_ref,
            work_source_ref: source_summary.work_source_ref,
            source_marker_ref: source_summary.source_marker_ref,
            career_summary_ref: source_summary.safe_summary_ref,
            append_reason_ref,
            appended_by_ref: actor_ref,
            appended_at,
            record_state: CareerRecordStateKind::Appended,
            correction_of_ref: None,
            superseded_by_ref: None,
        })
    }

    /// Appends a correction record for an existing career record; the source
    /// must be trusted.
    pub fn correction_for_record(
        career_record_ref: CareerRecordRef,
        original_record_ref: CareerRecordRef,
        member_ref: GlobalMemberRef,
        source_summary: WorkParticipationSourceSummary,
        append_reason_ref: CareerAppendReasonRef,
        actor_ref: ActorRef,
        appended_at: IdentityTimestamp,
    ) -> (r: Result<Self, IdentityDomainError>)
        ensures
            r is Ok <==> work_source_trusted(source_summary),
            r matches Ok(v) ==> v == career_record_from(
                career_record_ref, member_ref, source_summary, append_reason_ref, actor_ref, appended_at,
                CareerRecordStateKind::CorrectionAppended, Some(original_record_ref),
            ),
            r matches Err(e) ==> e == (IdentityDomainError::PolicyDenied { policy: "CareerRecord", message: "trusted work source is required for correction append" }),
    {
        if !source_summary.is_trusted() {
            return Err(IdentityDomainError::policy_denied("CareerRecord", "trusted work source is required for correction append"));
        }
        Ok(CareerRecord {
            career_record_ref,
            member_ref,
            project_participation_ref: source_summary.project_participation_ref,
            work_source_ref: source_summary.work_source_ref,
            source_marker_ref: source_summary.source_marker_ref,
            career_summary_ref: source_summary.safe_summary_ref,
            append_reason_ref,
            appended_by_ref: actor_ref,
            appended_at,
            record_state: CareerRecordStateKind::CorrectionAppended,
            correction_of_ref: Some(original_record_ref),
            superseded_by_ref: None,
        })
    }

    /// Appends a pending-review record from a source that requires review.
    pub fn pending_review(
        career_record_ref: CareerRecordRef,
        member_ref: GlobalMemberRef,
        source_summary: WorkParticipationSourceSummary,
        append_reason_ref: CareerAppendReasonRef,
        actor_ref: ActorRef,
        appended_at: IdentityTimestamp,
    ) -> (r: Result<Self, IdentityDomainError>)
        ensures
            r is Ok <==> work_source_requires_review(source_summary),
            r matches Ok(v) ==> v == career_record_from(
                career_record_ref, member_ref, source_summary, append_reason_ref, actor_ref, appended_at,
                CareerRecordStateKind::SourcePendingReview, None,
            ),
            r matches Err(e) ==> e == (IdentityDomainError::PolicyDenied { policy: "CareerRecord", message: "pending-review record requires a reviewable source state" }),
    {
        if !source_summary.requires_review() {
            return Err(IdentityDomainError::policy_denied("CareerRecord", "pending-review record requires a reviewable source state"));
        }
        Ok(CareerRecord {
            career_record_ref,
            member_ref,
            project_participation_ref: source_summary.project_participation_ref,
            work_source_ref: source_summary.work_source_ref,
            source_marker_ref: source_summary.source_marker_ref,
            career_summary_ref: source_summary.safe_summary_ref,
            append_reason_ref,
            appended_by_ref: actor_ref,
            appended_at,
            record_state: CareerRecordStateKind::SourcePendingReview,
            correction_of_ref: None,
            superseded_by_ref: None,
        })
    }

    /// Returns whether the record was created from the given source marker.
    pub fn matches_source_marker(&self, source_marker_ref: &CareerSourceMarkerRef) -> (r: bool)
        ensures
            r == same_marker_spec(self.source_marker_ref, *source_marker_ref),
    {
        self.source_marker_ref.same_marker(source_marker_ref)
    }

    /// Every career record follows append-only rules.
    pub fn is_append_only(&self) -> (r: bool)
        ensures
            r,
    {
        true
    }

    /// Returns whether the record is a correction record.
    pub fn is_correction(&self) -> (r: bool)
        ensures
            r == (self.record_state == CareerRecordStateKind::CorrectionAppended),
    {
        self.record_state == CareerRecordStateKind::CorrectionAppended
    }

    /// Returns whether the record requires source review.
    pub fn requires_source_review(&self) -> (r: bool)
        ensures
            r == (self.record_state == CareerRecordStateKind::SourcePendingReview),
    {
        self.record_state == CareerRecordStateKind::SourcePendingReview
    }

    /// Marks an appended record as superseded by a correction record; nothing
    /// else about the record changes. A refused move leaves it unchanged.
    pub fn mark_superseded_by_correction(
        &mut self,
        correction_record_ref: CareerRecordRef,
        _actor_ref: ActorRef,
        _changed_at: IdentityTimestamp,
    ) -> (r: Result<(), IdentityDomainError>)
        ensures
            r is Ok <==> old(self).record_state == CareerRecordStateKind::Appended,
            r is Ok ==> *final(self) == (CareerRecord {
                record_state: CareerRecordStateKind::SupersededByCorrection,
                superseded_by_ref: Some(correction_record_ref),
                ..*old(self)
            }),
            r is Err ==> *final(self) == *old(self),
            r matches Err(e) ==> e == (IdentityDomainError::InvalidStateTransition {
                entity: "CareerRecord",
                message: "only appended records may be superseded by correction",
            }),
    {
        if self.record_state != CareerRecordStateKind::Appended {
            return Err(IdentityDomainError::invalid_state_transition("CareerRecord", "only appended records may be superseded by correction"));
        }
        self.record_state = CareerRecordStateKind::SupersededByCorrection;
        self.superseded_by_ref = Some(correction_record_ref);
        Ok(())
    }
}

/// Guard for append-only career writes.
#[derive(Debug, Eq, PartialEq)]
pub struct CareerAppendPolicy {
    /// Member being appended against.
    pub member_ref: GlobalMemberRef,
    /// Whether the member exists in loaded identity truth.
    pub member_exists: bool,
    /// Body-free work source summary.
    pub source_summary: WorkParticipationSourceSummary,
    /// Existing records for the same source marker.
    pub existing_records_for_source: Vec<CareerRecordRef>,
    /// Append reason.
    pub append_reason_ref: CareerAppendReasonRef,
    /// Append actor.
    pub actor_ref: ActorRef,
    /// Operation channel.
    pub operation_channel: IdentityOperationChannel,
    /// Requested change intent.
    pub change_intent: CareerRecordChangeIntent,
    /// Body-free material marker.
    pub append_material_marker: CareerAppendMaterialMarker,
}

impl Clone for CareerAppendPolicy {
    fn clone(&self) -> (r: Self)
        ensures
            r.member_ref == self.member_ref,
            r.member_exists == self.member_exists,
            r.source_summary == self.source_summary,
            r.existing_records_for_source@ == self.existing_records_for_source@,
            r.append_reason_ref == self.append_reason_ref,
            r.actor_ref == self.actor_ref,
            r.operation_channel == self.operation_channel,
            r.change_intent == self.change_intent,
            r.append_material_marker == self.append_material_marker,
    {
        let existing_records_for_source = self.existing_records_for_source.clone();
        proof {
            assert(existing_records_for_source@ =~= self.existing_records_for_source@);
        }
        CareerAppendPolicy {
            member_ref: self.member_ref.clone(),
            member_exists: self.member_exists,
            source_summary: self.source_summary.clone(),
            existing_records_for_source,
            append_reason_ref: self.append_reason_ref.clone(),
            actor_ref: self.actor_ref.clone(),
            operation_channel: self.operation_channel,
            change_intent: self.change_intent,
            append_material_marker: self.append_material_marker.clone(),
        }
    }
}

/// Whether a change intent keeps career history append-only.
pub open spec fn career_intent_append_only(intent: CareerRecordChangeIntent) -> bool {
    ||| intent == CareerRecordChangeIntent::AppendNew
    ||| intent == CareerRecordChangeIntent::AppendCorrection
    ||| intent == CareerRecordChangeIntent::MarkSourcePendingReview
}

/// Whether an append material category is body-free.
pub open spec fn career_material_body_free(kind: CareerAppendMaterialKind) -> bool {
    ||| kind == CareerAppendMaterialKind::SafeSummaryMarker
    ||| kind == CareerAppendMaterialKind::SourceMarkerOnly
    ||| kind == CareerAppendMaterialKind::CorrectionMarkerOnly
}

/// Whether the policy's fields are exactly the given inputs.
pub open spec fn career_policy_holds(
    p: CareerAppendPolicy,
    member_ref: GlobalMemberRef,
    member_exists: bool,
    source_summary: WorkParticipationSourceSummary,
    existing_records_for_source: Seq<CareerRecordRef>,
    append_reason_ref: CareerAppendReasonRef,
    actor_ref: ActorRef,
    operation_channel: IdentityOperationChannel,
    change_intent: CareerRecordChangeIntent,
    append_material_marker: CareerAppendMaterialMarker,
) -> bool {
    &&& p.member_ref == member_ref
    &&& p.member_exists == member_exists
    &&& p.source_summary == source_summary
    &&& p.existing_records_for_source@ == existing_records_for_source
    &&& p.append_reason_ref == append_reason_ref
    &&& p.actor_ref == actor_ref
    &&& p.operation_channel == operation_channel
    &&& p.change_intent == change_intent
    &&& p.append_material_marker == append_material_marker
}

impl CareerAppendPolicy {
    /// Creates a policy for append-like requests.
    pub fn for_append(
        member_ref: GlobalMemberRef,
        member_exists: bool,
        source_summary: WorkParticipationSourceSummary,
        existing_records_for_source: Vec<CareerRecordRef>,
        append_reason_ref: CareerAppendReasonRef,
        actor_ref: ActorRef,
        operation_channel: IdentityOperationChannel,
        change_intent: CareerRecordChangeIntent,
        append_material_marker: CareerAppendMaterialMarker,
    ) -> (r: Self)
        ensures
            career_policy_holds(
                r, member_ref, member_exists, source_summary, existing_records_for_source@, append_reason_ref,
                actor_ref, operation_channel, change_intent, append_material_marker,
            ),
    {
        CareerAppendPolicy {
            member_ref,
            member_exists,
            source_summary,
            existing_records_for_source,
            append_reason_ref,
            actor_ref,
            operation_channel,
            change_intent,
            append_material_marker,
        }
    }

    /// Creates a policy for correction append requests.
    pub fn for_correction(
        member_ref: GlobalMemberRef,
        member_exists: bool,
        source_summary: WorkParticipationSourceSummary,
        existing_records_for_source: Vec<CareerRecordRef>,
        append_reason_ref: CareerAppendReasonRef,
        actor_ref: ActorRef,
        operation_channel: IdentityOperationChannel,
        append_material_marker: CareerAppendMaterialMarker,
    ) -> (r: Self)
        ensures
            career_policy_holds(
                r, member_ref, member_exists, source_summary, existing_records_for_source@, append_reason_ref,
                actor_ref, operation_channel, CareerRecordChangeIntent::AppendCorrection, append_material_marker,
            ),
    {
        Self::for_append(
            member_ref,
            member_exists,
            source_summary,
            existing_records_for_source,
            append_reason_ref,
            actor_ref,
            operation_channel,
            CareerRecordChangeIntent::AppendCorrection,
            append_material_marker,
        )
    }

    /// Asserts that the member exists.
    pub fn assert_member_exists(&self) -> (r: Result<(), IdentityDomainError>)
        ensures
            r is Ok <==> self.member_exists,
            r matches Err(e) ==> e == (IdentityDomainError::PolicyDenied { policy: "CareerAppendPolicy", message: "career append requires an established member" }),
    {
        if self.member_exists {
            return Ok(());
        }
        Err(IdentityDomainError::policy_denied("CareerAppendPolicy", "career append requires an established member"))
    }

    /// Asserts that the source is trusted for mainline writes.
    pub fn assert_source_trusted(&self) -> (r: Result<(), IdentityDomainError>)
        ensures
            r is Ok <==> work_source_trusted(self.source_summary),
            r matches Err(e) ==> e == (IdentityDomainError::PolicyDenied { policy: "CareerAppendPolicy", message: "trusted work source is required for accepted mainline append" }),
    {
        if self.source_summary.is_trusted() {
            return Ok(());
        }
        Err(IdentityDomainError::policy_denied("CareerAppendPolicy", "trusted work source is required for accepted mainline append"))
    }

    /// Asserts that no record exists yet for the source marker.
    pub fn assert_not_duplicate(&self) -> (r: Result<(), IdentityDomainError>)
        ensures
            r is Ok <==> self.existing_records_for_source@.len() == 0,
            r matches Err(e) ==> e == (IdentityDomainError::PolicyDenied {
                policy: "CareerAppendPolicy",
                message: "duplicate work source marker must not create a second career record",
            }),
    {
        if self.existing_records_for_source.is_empty() {
            return Ok(());
        }
        Err(IdentityDomainError::policy_denied("CareerAppendPolicy", "duplicate work source marker must not create a second career record"))
    }

    /// Asserts append-only change intent.
    pub fn assert_append_only(&self) -> (r: Result<(), IdentityDomainError>)
        ensures
            r is Ok <==> career_intent_append_only(self.change_intent),
            r matches Err(e) ==> e == (IdentityDomainError::PolicyDenied { policy: "CareerAppendPolicy", message: "career history is append-only" }),
    {
        match self.change_intent {
            CareerRecordChangeIntent::AppendNew
            | CareerRecordChangeIntent::AppendCorrection
            | CareerRecordChangeIntent::MarkSourcePendingReview => Ok(()),
            _ => Err(IdentityDomainError::policy_denied("CareerAppendPolicy", "career history is append-only")),
        }
    }

    /// Rejects forbidden work truth body material.
    pub fn assert_not_work_truth_write(&self) -> (r: Result<(), IdentityDomainError>)
        ensures
            r is Ok <==> career_material_body_free(self.append_material_marker.material_kind),
            r matches Err(e) ==> e == (IdentityDomainError::PolicyDenied { policy: "CareerAppendPolicy", message: "work truth body cannot enter identity career truth" }),
    {
        match self.append_material_marker.material_kind {
            CareerAppendMaterialKind::SafeSummaryMarker
            | CareerAppendMaterialKind::SourceMarkerOnly
            | CareerAppendMaterialKind::CorrectionMarkerOnly => Ok(()),
            _ => Err(IdentityDomainError::policy_denied("CareerAppendPolicy", "work truth body cannot enter identity career truth")),
        }
    }

    /// Restricts core truth writes to command or consumer channels.
    pub fn assert_allowed_write_channel(&self) -> (r: Result<(), IdentityDomainError>)
        ensures
            r is Ok <==> (self.operation_channel == IdentityOperationChannel::Command || self.operation_channel == IdentityOperationChannel::Consumer),
            r matches Err(e) ==> e == write_channel_denial(
                "CareerAppendPolicy",
                self.operation_channel,
                "only command or consumer channels may append career truth",
            ),
    {
        match self.operation_channel {
            IdentityOperationChannel::Command | IdentityOperationChannel::Consumer => Ok(()),
            _ => Err(IdentityDomainError::write_channel_denied(
                "CareerAppendPolicy",
                self.operation_channel,
                "only command or consumer channels may append career truth",
            )),
        }
    }
}

/// Law: a trusted source never needs review and a source that needs review is
/// never trusted, so a summary can back a mainline (or correction) append or a
/// pending-review record, never both.
pub proof fn lemma_career_append_paths_disjoint(summary: WorkParticipationSourceSummary)
    ensures
        !(work_source_trusted(summary) && work_source_requires_review(summary)),
{
}

/// Law: supersession is one step: a record can be superseded only while it is a
/// plain append, and a superseded record keeps its identity, member, source
/// marker, and append time.
pub proof fn lemma_career_supersession_is_final(old_record: CareerRecord, new_record: CareerRecord, correction_record_ref: CareerRecordRef)
    requires
        old_record.record_state == CareerRecordStateKind::Appended,
        new_record == (CareerRecord {
            record_state: CareerRecordStateKind::SupersededByCorrection,
            superseded_by_ref: Some(correction_record_ref),
            ..old_record
        }),
    ensures
        new_record.record_state != CareerRecordStateKind::Appended,
        new_record.career_record_ref == old_record.career_record_ref,
        new_record.member_ref == old_record.member_ref,
        new_record.source_marker_ref == old_record.source_marker_ref,
        new_record.appended_at == old_record.appended_at,
{
}


/// The work-truth guard turns away exactly the materials that carry a body:
/// every marker-only material (safe summary, source marker, correction
/// marker) passes, and every project, work item, project member, or
/// artifact body is refused.
pub proof fn lemma_career_guard_refuses_only_bodies(kind: CareerAppendMaterialKind)
    ensures
        career_material_body_free(kind) <==> !(
            kind == CareerAppendMaterialKind::ForbiddenProjectBody
            || kind == CareerAppendMaterialKind::ForbiddenWorkItemBody
            || kind == CareerAppendMaterialKind::ForbiddenProjectMemberBody
            || kind == CareerAppendMaterialKind::ForbiddenArtifactBody
        ),
{
}


/// Career history only grows: every appending intent (a new record, a
/// correction, a source review marker) passes the append-only guard, and
/// every intent that would rewrite history (update in place, delete,
/// reorder) is refused.
pub proof fn lemma_career_history_only_appends(intent: crate::contracts::refs::CareerRecordChangeIntent)
    ensures
        career_intent_append_only(intent) <==> !(
            intent == crate::contracts::refs::CareerRecordChangeIntent::ForbiddenInPlaceUpdate
            || intent == crate::contracts::refs::CareerRecordChangeIntent::ForbiddenDelete
            || intent == crate::contracts::refs::CareerRecordChangeIntent::ForbiddenReorder
        ),
{
}


/// A work source needs review exactly when it is neither trusted nor
/// unavailable: pending review, unresolved, or untrusted.
pub proof fn lemma_career_review_sources(s: crate::contracts::refs::WorkParticipationSourceSummary)
    ensures
        crate::contracts::refs::work_source_requires_review(s) <==> !(
            s.source_state == crate::contracts::refs::WorkParticipationSourceState::Trusted
            || s.source_state == crate::contracts::refs::WorkParticipationSourceState::Unavailable),
        s.source_state == crate::contracts::refs::WorkParticipationSourceState::Unavailable
            ==> !crate::contracts::refs::work_source_trusted(s) && !crate::contracts::refs::work_source_requires_review(s),
{
}

} // verus!
