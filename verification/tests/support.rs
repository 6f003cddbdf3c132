use quantalithos_identity::actor::{ActorKind, ActorRef, IdempotencyKey};
use quantalithos_identity::application::support::{
    IdentityAdapterAvailability, IdentityAdapterModeRef, IdentityAdapterRef, IdentityAdapterAvailabilityIssueRef,
    IdentityApiRouteCatalogRef, IdentityConfigEvidenceRef, IdentityConfigIssueRef, IdentityEntrySurfaceKind,
    IdentityIdempotencyKey, IdentityIdempotencyRecord, IdentityIdempotencyRecordRef, IdentityIdempotencyStateKind,
    IdentityJobCatalogRef, IdentityJobRunReport, IdentityOperationContext, IdentityOperationContextRef,
    IdentityOperationName, IdentityReadDispositionKind, IdentityRequestDigest, IdentityRequestMetadataRef,
    IdentityRuntimeAssemblyRef, IdentityRuntimeAssemblyState, IdentityRuntimeConfigShell, IdentityRuntimeProfileRef,
    IdentityStoredResultKind, IdentityStoredSurfaceMarkerRef, IdentityVersion, IdentityVisibilityDecision,
    StoredIdentityOperationResult,
};
use quantalithos_identity::contracts::jobs::IdentityJobResultKind;
use quantalithos_identity::contracts::metadata::IdentityDegradedKind;
use quantalithos_identity::contracts::protocol::{IdentityDigestAlgorithmMarkerRef, IdentityJobName, IdentityProtocolSchemaVersionRef};
use quantalithos_identity::contracts::refs::{
    IdentityCanonicalRequestMarkerRef, IdentityDegradedMarkerRef, IdentityJobReportRef, IdentityJobRunRef,
    IdentityJobScopeMarkerRef, IdentityOperationChannel, IdentityReadSubjectRef, IdentityReadSurfaceKind,
    IdentityRedactionMarkerRef, IdentityRequestDigestValue, IdentitySourceEventRef, IdentityStoredResultRef,
    IdentityTimestamp, IdentityVisibilityDecisionRef, VisibilityContextRef, VisibilityResultRef, VisibilityScopeRef,
};

fn timestamp(value: i64) -> IdentityTimestamp {
    IdentityTimestamp::from_clock(value).expect("valid timestamp")
}

fn digest(value: &str) -> IdentityRequestDigest {
    IdentityRequestDigest::from_canonical_marker(
        IdentityCanonicalRequestMarkerRef::new("canonical-1".to_owned()),
        IdentityRequestDigestValue::new(value.to_owned()),
        IdentityProtocolSchemaVersionRef::new("identity.command.v1".to_owned()),
        IdentityDigestAlgorithmMarkerRef::new("sha256-v1".to_owned()),
    )
}

fn key() -> IdentityIdempotencyKey {
    IdentityIdempotencyKey::new(IdempotencyKey::new("key-1".to_owned()))
}

fn consumer_context() -> IdentityOperationContext {
    IdentityOperationContext::from_inbound_event(
        IdentityOperationContextRef::new("context-1".to_owned()),
        IdentityOperationName::new("ConsumeWorkParticipation".to_owned()),
        ActorRef::system("worker"),
        IdentityRequestMetadataRef::new("metadata-1".to_owned()),
        key(),
        digest("digest-1"),
        None,
        IdentitySourceEventRef::new("event-1".to_owned()),
        timestamp(1),
    )
}

fn query_context() -> IdentityOperationContext {
    IdentityOperationContext::from_query(
        IdentityOperationContextRef::new("context-2".to_owned()),
        IdentityOperationName::new("ReadMemberSummary".to_owned()),
        ActorRef::new("actor-1", ActorKind::Human),
        IdentityRequestMetadataRef::new("metadata-2".to_owned()),
        digest("digest-2"),
        None,
        timestamp(1),
    )
}

#[test]
fn version_token_round_trips() {
    assert_eq!(IdentityVersion::new(7).get(), 7);
}

#[test]
fn digests_match_on_value_schema_and_algorithm_only() {
    let a = digest("digest-1");
    let mut b = digest("digest-1");
    b.canonical_marker_ref = IdentityCanonicalRequestMarkerRef::new("canonical-2".to_owned());
    assert!(a.matches(&b));
    assert!(!a.conflicts_with(&b));
    let c = digest("digest-9");
    assert!(!a.matches(&c));
    assert!(a.conflicts_with(&c));
}

#[test]
fn contexts_carry_the_right_channel_and_key() {
    let consumer = consumer_context();
    assert_eq!(consumer.channel, IdentityOperationChannel::Consumer);
    assert!(consumer.requires_idempotency());
    assert!(consumer.is_write_channel());
    assert!(consumer.idempotency_key.is_some());

    let query = query_context();
    assert_eq!(query.channel, IdentityOperationChannel::Query);
    assert!(!query.requires_idempotency());
    assert!(!query.is_write_channel());
    assert!(query.idempotency_key.is_none());
}

#[test]
fn query_context_reserves_nothing() {
    let record = IdentityIdempotencyRecord::reserve(IdentityIdempotencyRecordRef::new("record-1".to_owned()), &query_context(), timestamp(2));
    assert!(record.is_none());
}

#[test]
fn completed_record_replays_only_a_matching_digest() {
    let reserved = IdentityIdempotencyRecord::reserve(
        IdentityIdempotencyRecordRef::new("record-1".to_owned()),
        &consumer_context(),
        timestamp(2),
    )
    .expect("consumer context reserves");
    assert_eq!(reserved.state, IdentityIdempotencyStateKind::Reserved);
    assert!(!reserved.can_replay(&digest("digest-1")));

    let completed = reserved.complete(IdentityStoredResultRef::new("stored-1".to_owned()), timestamp(3));
    assert_eq!(completed.state, IdentityIdempotencyStateKind::Completed);
    assert_eq!(completed.completed_at, Some(timestamp(3)));
    assert!(completed.can_replay(&digest("digest-1")));
    assert!(!completed.can_replay(&digest("digest-2")));

    let conflicted = completed.mark_conflict();
    assert_eq!(conflicted.state, IdentityIdempotencyStateKind::Conflict);
    assert!(!conflicted.can_replay(&digest("digest-1")));
}

#[test]
fn rejected_result_is_replayable_too() {
    let reserved = IdentityIdempotencyRecord::reserve(
        IdentityIdempotencyRecordRef::new("record-2".to_owned()),
        &consumer_context(),
        timestamp(2),
    )
    .expect("consumer context reserves");
    let rejected = reserved.complete_rejected(IdentityStoredResultRef::new("stored-2".to_owned()), timestamp(3));
    assert_eq!(rejected.state, IdentityIdempotencyStateKind::RejectedStored);
    assert!(rejected.can_replay(&digest("digest-1")));
}

#[test]
fn stored_results_carry_their_kind() {
    let stored = StoredIdentityOperationResult::job_report(
        IdentityStoredResultRef::new("stored-1".to_owned()),
        IdentityOperationContextRef::new("context-1".to_owned()),
        IdentityStoredSurfaceMarkerRef::new("surface-1".to_owned()),
        timestamp(1),
    );
    assert_eq!(stored.result_kind, IdentityStoredResultKind::JobReport);
    let accepted = StoredIdentityOperationResult::command_accepted(
        IdentityStoredResultRef::new("stored-2".to_owned()),
        IdentityOperationContextRef::new("context-2".to_owned()),
        IdentityStoredSurfaceMarkerRef::new("surface-2".to_owned()),
        timestamp(2),
    );
    assert_eq!(accepted.result_kind, IdentityStoredResultKind::CommandAccepted);
}

fn decision_parts() -> (IdentityVisibilityDecisionRef, IdentityReadSubjectRef, VisibilityContextRef, VisibilityScopeRef, VisibilityResultRef) {
    (
        IdentityVisibilityDecisionRef::new("decision-1".to_owned()),
        IdentityReadSubjectRef::new("subject-1".to_owned()),
        VisibilityContextRef::new("context-1".to_owned()),
        VisibilityScopeRef::new("scope-1".to_owned()),
        VisibilityResultRef::new("result-1".to_owned()),
    )
}

#[test]
fn only_visible_and_stale_visible_decisions_allow_body_material() {
    let (d, s, c, sc, r) = decision_parts();
    let visible = IdentityVisibilityDecision::visible(d, s, c, sc, r, IdentityReadSurfaceKind::Found, timestamp(1));
    assert!(visible.allows_body_material());
    assert!(visible.degraded_marker().is_none());

    let (d, s, c, sc, r) = decision_parts();
    let redacted = IdentityVisibilityDecision::redacted(
        d,
        s,
        c,
        sc,
        r,
        IdentityReadSurfaceKind::Redacted,
        IdentityRedactionMarkerRef::new("redaction-1".to_owned()),
        timestamp(1),
    );
    assert!(!redacted.allows_body_material());
    let marker = redacted.visibility_marker();
    assert_eq!(marker.redaction_marker_ref, Some(IdentityRedactionMarkerRef::new("redaction-1".to_owned())));
    assert_eq!(marker.read_surface_kind, IdentityReadSurfaceKind::Redacted);

    let (d, s, c, sc, r) = decision_parts();
    let stale = IdentityVisibilityDecision::stale_visible(
        d,
        s,
        c,
        sc,
        r,
        IdentityReadSurfaceKind::Stale,
        IdentityDegradedMarkerRef::new("degraded-1".to_owned()),
        timestamp(1),
    );
    assert_eq!(stale.disposition, IdentityReadDispositionKind::StaleVisible);
    assert!(stale.allows_body_material());
    let degraded = stale.degraded_marker().expect("stale decision carries a degraded marker");
    assert_eq!(degraded.degraded_kind, IdentityDegradedKind::DependencyUnavailable);
    assert_eq!(degraded.degraded_marker_ref, IdentityDegradedMarkerRef::new("degraded-1".to_owned()));
}

#[test]
fn job_report_starts_as_noop_and_finishes_with_a_result() {
    let report = IdentityJobRunReport::start(
        IdentityJobReportRef::new("report-1".to_owned()),
        IdentityJobRunRef::new("run-1".to_owned()),
        IdentityJobName::new("RebuildIdentityProjection".to_owned()),
        IdentityJobScopeMarkerRef::new("scope-1".to_owned()),
        None,
        timestamp(1),
    );
    assert_eq!(report.result_kind, IdentityJobResultKind::Noop);
    assert!(report.finished_at.is_none());
    assert!(report.issue_refs.is_empty());

    let finished = report.succeed(None, Some(IdentityStoredResultRef::new("stored-1".to_owned())), timestamp(5));
    assert_eq!(finished.result_kind, IdentityJobResultKind::Succeeded);
    assert_eq!(finished.finished_at, Some(timestamp(5)));
    assert_eq!(finished.started_at, timestamp(1));

    let failed = finished.fail(Vec::new(), timestamp(6));
    assert_eq!(failed.result_kind, IdentityJobResultKind::Failed);
    assert_eq!(failed.stored_result_ref, Some(IdentityStoredResultRef::new("stored-1".to_owned())));
}

#[test]
fn config_shell_wires_only_bound_entries() {
    let shell = IdentityRuntimeConfigShell::validated(
        IdentityRuntimeProfileRef::new("profile-1".to_owned()),
        IdentityConfigEvidenceRef::new("evidence-1".to_owned()),
        Vec::new(),
        Some(IdentityApiRouteCatalogRef::new("api-1".to_owned())),
        None,
        Some(IdentityJobCatalogRef::new("jobs-1".to_owned())),
    );
    assert!(shell.allows_entry(IdentityEntrySurfaceKind::ApiCommand));
    assert!(shell.allows_entry(IdentityEntrySurfaceKind::ApiQuery));
    assert!(!shell.allows_entry(IdentityEntrySurfaceKind::WorkerConsumer));
    assert!(shell.allows_entry(IdentityEntrySurfaceKind::OperationsJob));

    let invalid = IdentityRuntimeConfigShell::invalid(
        IdentityRuntimeProfileRef::new("profile-1".to_owned()),
        IdentityConfigEvidenceRef::new("evidence-1".to_owned()),
        vec![IdentityConfigIssueRef::new("issue-1".to_owned())],
    );
    assert!(!invalid.allows_entry(IdentityEntrySurfaceKind::ApiCommand));

    let validated = IdentityRuntimeAssemblyState::config_validated(IdentityRuntimeAssemblyRef::new("assembly-1".to_owned()), &invalid);
    assert!(!validated.can_dispatch(IdentityEntrySurfaceKind::ApiCommand));
    assert_eq!(validated.issue_refs, vec![IdentityConfigIssueRef::new("issue-1".to_owned())]);
    let assembled =
        IdentityRuntimeAssemblyState::assembled(IdentityRuntimeAssemblyRef::new("assembly-1".to_owned()), &shell, Vec::new(), timestamp(2));
    assert!(assembled.can_dispatch(IdentityEntrySurfaceKind::OperationsJob));
}

#[test]
fn adapter_attempts_follow_availability() {
    let available = IdentityAdapterAvailability::available(
        IdentityAdapterRef::new("adapter-1".to_owned()),
        IdentityAdapterModeRef::new("mode-1".to_owned()),
        timestamp(1),
    );
    assert!(available.allows_attempt());
    let disabled = IdentityAdapterAvailability::disabled(
        IdentityAdapterRef::new("adapter-1".to_owned()),
        IdentityAdapterModeRef::new("mode-1".to_owned()),
        IdentityAdapterAvailabilityIssueRef::new("issue-1".to_owned()),
        timestamp(1),
    );
    assert!(!disabled.allows_attempt());
}
