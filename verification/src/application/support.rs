//! Application-local helper objects shared by identity services and ports.
use vstd::prelude::*;
use vstd::std_specs::cmp::PartialEqSpecImpl;

use crate::actor::{ActorRef, IdempotencyKey};
use crate::contracts::commands::{GlobalLifecycleCommandResult, GlobalMemberCommandResult, IdentityCommandEffectPublicSummary};
use crate::contracts::events::IdentityConsumerReceipt;
use crate::contracts::jobs::IdentityJobResultKind;
use crate::contracts::metadata::{
    IdentityDegradedKind, IdentityDegradedMarker, IdentityProtocolRejection, IdentityVisibilityMarker,
};
use crate::contracts::protocol::{
    IdentityCommandName, IdentityDigestAlgorithmMarkerRef, IdentityJobName,
    IdentityProtocolSchemaVersionRef,
};
use crate::contracts::receipts::{MaintenanceIssueRef, TraceHandoffIntentRef};
use crate::contracts::refs::{
    AuditScopeRef, AuditTrailRef, CareerRecordRef, ExternalReferenceRef, GlobalMemberRef,
    HandoffReceiptRef, IdentityApiRequestMarkerRef, IdentityAuditSubjectRef,
    IdentityCanonicalRequestMarkerRef, IdentityConsumerBindingRef, IdentityConsumerReceiptRef,
    IdentityDegradedMarkerRef, IdentityEventEnvelopeMarkerRef, IdentityJobCursorRef,
    IdentityJobReportRef, IdentityJobRunMetadataRef, IdentityJobRunRef, IdentityJobScopeMarkerRef,
    IdentityMaintenanceTargetRef, IdentityOperationChannel, IdentityOutboxRecordRef,
    IdentityOutboxSubjectRef, IdentityProjectionRef, IdentityReadSurfaceKind,
    IdentityRedactionMarkerRef, IdentityRequestDigestValue, IdentitySourceEventRef,
    IdentityStoredResultRef, IdentityTimestamp, IdentityTraceContextRef, IdentityTraceRecordRef,
    IdentityTraceSubjectRef, IdentityTruthCursor, IdentityVisibilityDecisionRef, MemoryReferenceRef,
    ReconciliationReportRef, RoleCapabilitySourceSnapshotRef, RoleCapabilitySummaryRef,
    VisibilityContextRef, VisibilityResultRef, VisibilityScopeRef,
};
pub use crate::contracts::refs::IdentityReadSubjectRef;

verus! {

/// Stable application-local transaction reference.
#[derive(Debug, Eq, Hash, PartialOrd, Ord)]
pub struct IdentityTransactionRef(String);

impl Clone for IdentityTransactionRef {
    fn clone(&self) -> (r: Self)
        ensures
            r == *self,
    {
        IdentityTransactionRef(self.0.clone())
    }
}

impl PartialEq for IdentityTransactionRef {
    fn eq(&self, other: &Self) -> (r: bool) {
        self.0 == other.0
    }
}

impl PartialEqSpecImpl for IdentityTransactionRef {
    open spec fn obeys_eq_spec() -> bool {
        true
    }

    open spec fn eq_spec(&self, other: &Self) -> bool {
        self@ == other@
    }
}

impl View for IdentityTransactionRef {
    type V = Seq<char>;

    closed spec fn view(&self) -> Seq<char> {
        self.0@
    }
}

impl IdentityTransactionRef {
    /// Creates a new opaque typed value.
    pub fn new(value: String) -> (r: Self)
        ensures
            r@ == value@,
    {
        IdentityTransactionRef(value)
    }

    /// Returns the wrapped string.
    pub fn as_str(&self) -> (r: &str)
        ensures
            r@ == self@,
    {
        self.0.as_str()
    }

    /// Consumes the wrapper and returns the inner string.
    pub fn into_inner(self) -> (r: String)
        ensures
            r@ == self@,
    {
        self.0
    }
}

/// Opaque application repository page cursor.
#[derive(Debug, Eq, Hash, PartialOrd, Ord)]
pub struct IdentityRepositoryCursor(String);

impl Clone for IdentityRepositoryCursor {
    fn clone(&self) -> (r: Self)
        ensures
            r == *self,
    {
        IdentityRepositoryCursor(self.0.clone())
    }
}

impl PartialEq for IdentityRepositoryCursor {
    fn eq(&self, other: &Self) -> (r: bool) {
        self.0 == other.0
    }
}

impl PartialEqSpecImpl for IdentityRepositoryCursor {
    open spec fn obeys_eq_spec() -> bool {
        true
    }

    open spec fn eq_spec(&self, other: &Self) -> bool {
        self@ == other@
    }
}

impl View for IdentityRepositoryCursor {
    type V = Seq<char>;

    closed spec fn view(&self) -> Seq<char> {
        self.0@
    }
}

impl IdentityRepositoryCursor {
    /// Creates a new opaque typed value.
    pub fn new(value: String) -> (r: Self)
        ensures
            r@ == value@,
    {
        IdentityRepositoryCursor(value)
    }

    /// Returns the wrapped string.
    pub fn as_str(&self) -> (r: &str)
        ensures
            r@ == self@,
    {
        self.0.as_str()
    }

    /// Consumes the wrapper and returns the inner string.
    pub fn into_inner(self) -> (r: String)
        ensures
            r@ == self@,
    {
        self.0
    }
}

/// Single application operation context reference.
#[derive(Debug, Eq, Hash, PartialOrd, Ord)]
pub struct IdentityOperationContextRef(String);

impl Clone for IdentityOperationContextRef {
    fn clone(&self) -> (r: Self)
        ensures
            r == *self,
    {
        IdentityOperationContextRef(self.0.clone())
    }
}

impl PartialEq for IdentityOperationContextRef {
    fn eq(&self, other: &Self) -> (r: bool) {
        self.0 == other.0
    }
}

impl PartialEqSpecImpl for IdentityOperationContextRef {
    open spec fn obeys_eq_spec() -> bool {
        true
    }

    open spec fn eq_spec(&self, other: &Self) -> bool {
        self@ == other@
    }
}

impl View for IdentityOperationContextRef {
    type V = Seq<char>;

    closed spec fn view(&self) -> Seq<char> {
        self.0@
    }
}

impl IdentityOperationContextRef {
    /// Creates a new opaque typed value.
    pub fn new(value: String) -> (r: Self)
        ensures
            r@ == value@,
    {
        IdentityOperationContextRef(value)
    }

    /// Returns the wrapped string.
    pub fn as_str(&self) -> (r: &str)
        ensures
            r@ == self@,
    {
        self.0.as_str()
    }

    /// Consumes the wrapper and returns the inner string.
    pub fn into_inner(self) -> (r: String)
        ensures
            r@ == self@,
    {
        self.0
    }
}

/// Stable application operation name.
#[derive(Debug, Eq, Hash, PartialOrd, Ord)]
pub struct IdentityOperationName(String);

impl Clone for IdentityOperationName {
    fn clone(&self) -> (r: Self)
        ensures
            r == *self,
    {
        IdentityOperationName(self.0.clone())
    }
}

impl PartialEq for IdentityOperationName {
    fn eq(&self, other: &Self) -> (r: bool) {
        self.0 == other.0
    }
}

impl PartialEqSpecImpl for IdentityOperationName {
    open spec fn obeys_eq_spec() -> bool {
        true
    }

    open spec fn eq_spec(&self, other: &Self) -> bool {
        self@ == other@
    }
}

impl View for IdentityOperationName {
    type V = Seq<char>;

    closed spec fn view(&self) -> Seq<char> {
        self.0@
    }
}

impl IdentityOperationName {
    /// Creates a new opaque typed value.
    pub fn new(value: String) -> (r: Self)
        ensures
            r@ == value@,
    {
        IdentityOperationName(value)
    }

    /// Returns the wrapped string.
    pub fn as_str(&self) -> (r: &str)
        ensures
            r@ == self@,
    {
        self.0.as_str()
    }

    /// Consumes the wrapper and returns the inner string.
    pub fn into_inner(self) -> (r: String)
        ensures
            r@ == self@,
    {
        self.0
    }
}

/// Body-free application request metadata marker.
#[derive(Debug, Eq, Hash, PartialOrd, Ord)]
pub struct IdentityRequestMetadataRef(String);

impl Clone for IdentityRequestMetadataRef {
    fn clone(&self) -> (r: Self)
        ensures
            r == *self,
    {
        IdentityRequestMetadataRef(self.0.clone())
    }
}

impl PartialEq for IdentityRequestMetadataRef {
    fn eq(&self, other: &Self) -> (r: bool) {
        self.0 == other.0
    }
}

impl PartialEqSpecImpl for IdentityRequestMetadataRef {
    open spec fn obeys_eq_spec() -> bool {
        true
    }

    open spec fn eq_spec(&self, other: &Self) -> bool {
        self@ == other@
    }
}

impl View for IdentityRequestMetadataRef {
    type V = Seq<char>;

    closed spec fn view(&self) -> Seq<char> {
        self.0@
    }
}

impl IdentityRequestMetadataRef {
    /// Creates a new opaque typed value.
    pub fn new(value: String) -> (r: Self)
        ensures
            r@ == value@,
    {
        IdentityRequestMetadataRef(value)
    }

    /// Returns the wrapped string.
    pub fn as_str(&self) -> (r: &str)
        ensures
            r@ == self@,
    {
        self.0.as_str()
    }

    /// Consumes the wrapper and returns the inner string.
    pub fn into_inner(self) -> (r: String)
        ensures
            r@ == self@,
    {
        self.0
    }
}

/// Application idempotency record reference.
#[derive(Debug, Eq, Hash, PartialOrd, Ord)]
pub struct IdentityIdempotencyRecordRef(String);

impl Clone for IdentityIdempotencyRecordRef {
    fn clone(&self) -> (r: Self)
        ensures
            r == *self,
    {
        IdentityIdempotencyRecordRef(self.0.clone())
    }
}

impl PartialEq for IdentityIdempotencyRecordRef {
    fn eq(&self, other: &Self) -> (r: bool) {
        self.0 == other.0
    }
}

impl PartialEqSpecImpl for IdentityIdempotencyRecordRef {
    open spec fn obeys_eq_spec() -> bool {
        true
    }

    open spec fn eq_spec(&self, other: &Self) -> bool {
        self@ == other@
    }
}

impl View for IdentityIdempotencyRecordRef {
    type V = Seq<char>;

    closed spec fn view(&self) -> Seq<char> {
        self.0@
    }
}

impl IdentityIdempotencyRecordRef {
    /// Creates a new opaque typed value.
    pub fn new(value: String) -> (r: Self)
        ensures
            r@ == value@,
    {
        IdentityIdempotencyRecordRef(value)
    }

    /// Returns the wrapped string.
    pub fn as_str(&self) -> (r: &str)
        ensures
            r@ == self@,
    {
        self.0.as_str()
    }

    /// Consumes the wrapper and returns the inner string.
    pub fn into_inner(self) -> (r: String)
        ensures
            r@ == self@,
    {
        self.0
    }
}

/// Replayable stored public surface marker.
#[derive(Debug, Eq, Hash, PartialOrd, Ord)]
pub struct IdentityStoredSurfaceMarkerRef(String);

impl Clone for IdentityStoredSurfaceMarkerRef {
    fn clone(&self) -> (r: Self)
        ensures
            r == *self,
    {
        IdentityStoredSurfaceMarkerRef(self.0.clone())
    }
}

impl PartialEq for IdentityStoredSurfaceMarkerRef {
    fn eq(&self, other: &Self) -> (r: bool) {
        self.0 == other.0
    }
}

impl PartialEqSpecImpl for IdentityStoredSurfaceMarkerRef {
    open spec fn obeys_eq_spec() -> bool {
        true
    }

    open spec fn eq_spec(&self, other: &Self) -> bool {
        self@ == other@
    }
}

impl View for IdentityStoredSurfaceMarkerRef {
    type V = Seq<char>;

    closed spec fn view(&self) -> Seq<char> {
        self.0@
    }
}

impl IdentityStoredSurfaceMarkerRef {
    /// Creates a new opaque typed value.
    pub fn new(value: String) -> (r: Self)
        ensures
            r@ == value@,
    {
        IdentityStoredSurfaceMarkerRef(value)
    }

    /// Returns the wrapped string.
    pub fn as_str(&self) -> (r: &str)
        ensures
            r@ == self@,
    {
        self.0.as_str()
    }

    /// Consumes the wrapper and returns the inner string.
    pub fn into_inner(self) -> (r: String)
        ensures
            r@ == self@,
    {
        self.0
    }
}

/// Accepted command effect summary reference.
#[derive(Debug, Eq, Hash, PartialOrd, Ord)]
pub struct IdentityCommandEffectSummaryRef(String);

impl Clone for IdentityCommandEffectSummaryRef {
    fn clone(&self) -> (r: Self)
        ensures
            r == *self,
    {
        IdentityCommandEffectSummaryRef(self.0.clone())
    }
}

impl PartialEq for IdentityCommandEffectSummaryRef {
    fn eq(&self, other: &Self) -> (r: bool) {
        self.0 == other.0
    }
}

impl PartialEqSpecImpl for IdentityCommandEffectSummaryRef {
    open spec fn obeys_eq_spec() -> bool {
        true
    }

    open spec fn eq_spec(&self, other: &Self) -> bool {
        self@ == other@
    }
}

impl View for IdentityCommandEffectSummaryRef {
    type V = Seq<char>;

    closed spec fn view(&self) -> Seq<char> {
        self.0@
    }
}

impl IdentityCommandEffectSummaryRef {
    /// Creates a new opaque typed value.
    pub fn new(value: String) -> (r: Self)
        ensures
            r@ == value@,
    {
        IdentityCommandEffectSummaryRef(value)
    }

    /// Returns the wrapped string.
    pub fn as_str(&self) -> (r: &str)
        ensures
            r@ == self@,
    {
        self.0.as_str()
    }

    /// Consumes the wrapper and returns the inner string.
    pub fn into_inner(self) -> (r: String)
        ensures
            r@ == self@,
    {
        self.0
    }
}

/// Application service dispatch target marker.
#[derive(Debug, Eq, Hash, PartialOrd, Ord)]
pub struct IdentityDispatchTargetRef(String);

impl Clone for IdentityDispatchTargetRef {
    fn clone(&self) -> (r: Self)
        ensures
            r == *self,
    {
        IdentityDispatchTargetRef(self.0.clone())
    }
}

impl PartialEq for IdentityDispatchTargetRef {
    fn eq(&self, other: &Self) -> (r: bool) {
        self.0 == other.0
    }
}

impl PartialEqSpecImpl for IdentityDispatchTargetRef {
    open spec fn obeys_eq_spec() -> bool {
        true
    }

    open spec fn eq_spec(&self, other: &Self) -> bool {
        self@ == other@
    }
}

impl View for IdentityDispatchTargetRef {
    type V = Seq<char>;

    closed spec fn view(&self) -> Seq<char> {
        self.0@
    }
}

impl IdentityDispatchTargetRef {
    /// Creates a new opaque typed value.
    pub fn new(value: String) -> (r: Self)
        ensures
            r@ == value@,
    {
        IdentityDispatchTargetRef(value)
    }

    /// Returns the wrapped string.
    pub fn as_str(&self) -> (r: &str)
        ensures
            r@ == self@,
    {
        self.0.as_str()
    }

    /// Consumes the wrapper and returns the inner string.
    pub fn into_inner(self) -> (r: String)
        ensures
            r@ == self@,
    {
        self.0
    }
}

/// API route marker.
#[derive(Debug, Eq, Hash, PartialOrd, Ord)]
pub struct IdentityApiRouteRef(String);

impl Clone for IdentityApiRouteRef {
    fn clone(&self) -> (r: Self)
        ensures
            r == *self,
    {
        IdentityApiRouteRef(self.0.clone())
    }
}

impl PartialEq for IdentityApiRouteRef {
    fn eq(&self, other: &Self) -> (r: bool) {
        self.0 == other.0
    }
}

impl PartialEqSpecImpl for IdentityApiRouteRef {
    open spec fn obeys_eq_spec() -> bool {
        true
    }

    open spec fn eq_spec(&self, other: &Self) -> bool {
        self@ == other@
    }
}

impl View for IdentityApiRouteRef {
    type V = Seq<char>;

    closed spec fn view(&self) -> Seq<char> {
        self.0@
    }
}

impl IdentityApiRouteRef {
    /// Creates a new opaque typed value.
    pub fn new(value: String) -> (r: Self)
        ensures
            r@ == value@,
    {
        IdentityApiRouteRef(value)
    }

    /// Returns the wrapped string.
    pub fn as_str(&self) -> (r: &str)
        ensures
            r@ == self@,
    {
        self.0.as_str()
    }

    /// Consumes the wrapper and returns the inner string.
    pub fn into_inner(self) -> (r: String)
        ensures
            r@ == self@,
    {
        self.0
    }
}

/// Runtime profile marker.
#[derive(Debug, Eq, Hash, PartialOrd, Ord)]
pub struct IdentityRuntimeProfileRef(String);

impl Clone for IdentityRuntimeProfileRef {
    fn clone(&self) -> (r: Self)
        ensures
            r == *self,
    {
        IdentityRuntimeProfileRef(self.0.clone())
    }
}

impl PartialEq for IdentityRuntimeProfileRef {
    fn eq(&self, other: &Self) -> (r: bool) {
        self.0 == other.0
    }
}

impl PartialEqSpecImpl for IdentityRuntimeProfileRef {
    open spec fn obeys_eq_spec() -> bool {
        true
    }

    open spec fn eq_spec(&self, other: &Self) -> bool {
        self@ == other@
    }
}

impl View for IdentityRuntimeProfileRef {
    type V = Seq<char>;

    closed spec fn view(&self) -> Seq<char> {
        self.0@
    }
}

impl IdentityRuntimeProfileRef {
    /// Creates a new opaque typed value.
    pub fn new(value: String) -> (r: Self)
        ensures
            r@ == value@,
    {
        IdentityRuntimeProfileRef(value)
    }

    /// Returns the wrapped string.
    pub fn as_str(&self) -> (r: &str)
        ensures
            r@ == self@,
    {
        self.0.as_str()
    }

    /// Consumes the wrapper and returns the inner string.
    pub fn into_inner(self) -> (r: String)
        ensures
            r@ == self@,
    {
        self.0
    }
}

/// Runtime config evidence marker.
#[derive(Debug, Eq, Hash, PartialOrd, Ord)]
pub struct IdentityConfigEvidenceRef(String);

impl Clone for IdentityConfigEvidenceRef {
    fn clone(&self) -> (r: Self)
        ensures
            r == *self,
    {
        IdentityConfigEvidenceRef(self.0.clone())
    }
}

impl PartialEq for IdentityConfigEvidenceRef {
    fn eq(&self, other: &Self) -> (r: bool) {
        self.0 == other.0
    }
}

impl PartialEqSpecImpl for IdentityConfigEvidenceRef {
    open spec fn obeys_eq_spec() -> bool {
        true
    }

    open spec fn eq_spec(&self, other: &Self) -> bool {
        self@ == other@
    }
}

impl View for IdentityConfigEvidenceRef {
    type V = Seq<char>;

    closed spec fn view(&self) -> Seq<char> {
        self.0@
    }
}

impl IdentityConfigEvidenceRef {
    /// Creates a new opaque typed value.
    pub fn new(value: String) -> (r: Self)
        ensures
            r@ == value@,
    {
        IdentityConfigEvidenceRef(value)
    }

    /// Returns the wrapped string.
    pub fn as_str(&self) -> (r: &str)
        ensures
            r@ == self@,
    {
        self.0.as_str()
    }

    /// Consumes the wrapper and returns the inner string.
    pub fn into_inner(self) -> (r: String)
        ensures
            r@ == self@,
    {
        self.0
    }
}

/// API route catalog binding marker.
#[derive(Debug, Eq, Hash, PartialOrd, Ord)]
pub struct IdentityApiRouteCatalogRef(String);

impl Clone for IdentityApiRouteCatalogRef {
    fn clone(&self) -> (r: Self)
        ensures
            r == *self,
    {
        IdentityApiRouteCatalogRef(self.0.clone())
    }
}

impl PartialEq for IdentityApiRouteCatalogRef {
    fn eq(&self, other: &Self) -> (r: bool) {
        self.0 == other.0
    }
}

impl PartialEqSpecImpl for IdentityApiRouteCatalogRef {
    open spec fn obeys_eq_spec() -> bool {
        true
    }

    open spec fn eq_spec(&self, other: &Self) -> bool {
        self@ == other@
    }
}

impl View for IdentityApiRouteCatalogRef {
    type V = Seq<char>;

    closed spec fn view(&self) -> Seq<char> {
        self.0@
    }
}

impl IdentityApiRouteCatalogRef {
    /// Creates a new opaque typed value.
    pub fn new(value: String) -> (r: Self)
        ensures
            r@ == value@,
    {
        IdentityApiRouteCatalogRef(value)
    }

    /// Returns the wrapped string.
    pub fn as_str(&self) -> (r: &str)
        ensures
            r@ == self@,
    {
        self.0.as_str()
    }

    /// Consumes the wrapper and returns the inner string.
    pub fn into_inner(self) -> (r: String)
        ensures
            r@ == self@,
    {
        self.0
    }
}

/// Worker binding catalog marker.
#[derive(Debug, Eq, Hash, PartialOrd, Ord)]
pub struct IdentityConsumerBindingCatalogRef(String);

impl Clone for IdentityConsumerBindingCatalogRef {
    fn clone(&self) -> (r: Self)
        ensures
            r == *self,
    {
        IdentityConsumerBindingCatalogRef(self.0.clone())
    }
}

impl PartialEq for IdentityConsumerBindingCatalogRef {
    fn eq(&self, other: &Self) -> (r: bool) {
        self.0 == other.0
    }
}

impl PartialEqSpecImpl for IdentityConsumerBindingCatalogRef {
    open spec fn obeys_eq_spec() -> bool {
        true
    }

    open spec fn eq_spec(&self, other: &Self) -> bool {
        self@ == other@
    }
}

impl View for IdentityConsumerBindingCatalogRef {
    type V = Seq<char>;

    closed spec fn view(&self) -> Seq<char> {
        self.0@
    }
}

impl IdentityConsumerBindingCatalogRef {
    /// Creates a new opaque typed value.
    pub fn new(value: String) -> (r: Self)
        ensures
            r@ == value@,
    {
        IdentityConsumerBindingCatalogRef(value)
    }

    /// Returns the wrapped string.
    pub fn as_str(&self) -> (r: &str)
        ensures
            r@ == self@,
    {
        self.0.as_str()
    }

    /// Consumes the wrapper and returns the inner string.
    pub fn into_inner(self) -> (r: String)
        ensures
            r@ == self@,
    {
        self.0
    }
}

/// Job catalog binding marker.
#[derive(Debug, Eq, Hash, PartialOrd, Ord)]
pub struct IdentityJobCatalogRef(String);

impl Clone for IdentityJobCatalogRef {
    fn clone(&self) -> (r: Self)
        ensures
            r == *self,
    {
        IdentityJobCatalogRef(self.0.clone())
    }
}

impl PartialEq for IdentityJobCatalogRef {
    fn eq(&self, other: &Self) -> (r: bool) {
        self.0 == other.0
    }
}

impl PartialEqSpecImpl for IdentityJobCatalogRef {
    open spec fn obeys_eq_spec() -> bool {
        true
    }

    open spec fn eq_spec(&self, other: &Self) -> bool {
        self@ == other@
    }
}

impl View for IdentityJobCatalogRef {
    type V = Seq<char>;

    closed spec fn view(&self) -> Seq<char> {
        self.0@
    }
}

impl IdentityJobCatalogRef {
    /// Creates a new opaque typed value.
    pub fn new(value: String) -> (r: Self)
        ensures
            r@ == value@,
    {
        IdentityJobCatalogRef(value)
    }

    /// Returns the wrapped string.
    pub fn as_str(&self) -> (r: &str)
        ensures
            r@ == self@,
    {
        self.0.as_str()
    }

    /// Consumes the wrapper and returns the inner string.
    pub fn into_inner(self) -> (r: String)
        ensures
            r@ == self@,
    {
        self.0
    }
}

/// Runtime assembly identity.
#[derive(Debug, Eq, Hash, PartialOrd, Ord)]
pub struct IdentityRuntimeAssemblyRef(String);

impl Clone for IdentityRuntimeAssemblyRef {
    fn clone(&self) -> (r: Self)
        ensures
            r == *self,
    {
        IdentityRuntimeAssemblyRef(self.0.clone())
    }
}

impl PartialEq for IdentityRuntimeAssemblyRef {
    fn eq(&self, other: &Self) -> (r: bool) {
        self.0 == other.0
    }
}

impl PartialEqSpecImpl for IdentityRuntimeAssemblyRef {
    open spec fn obeys_eq_spec() -> bool {
        true
    }

    open spec fn eq_spec(&self, other: &Self) -> bool {
        self@ == other@
    }
}

impl View for IdentityRuntimeAssemblyRef {
    type V = Seq<char>;

    closed spec fn view(&self) -> Seq<char> {
        self.0@
    }
}

impl IdentityRuntimeAssemblyRef {
    /// Creates a new opaque typed value.
    pub fn new(value: String) -> (r: Self)
        ensures
            r@ == value@,
    {
        IdentityRuntimeAssemblyRef(value)
    }

    /// Returns the wrapped string.
    pub fn as_str(&self) -> (r: &str)
        ensures
            r@ == self@,
    {
        self.0.as_str()
    }

    /// Consumes the wrapper and returns the inner string.
    pub fn into_inner(self) -> (r: String)
        ensures
            r@ == self@,
    {
        self.0
    }
}

/// API entry identity.
#[derive(Debug, Eq, Hash, PartialOrd, Ord)]
pub struct IdentityApiEntryRef(String);

impl Clone for IdentityApiEntryRef {
    fn clone(&self) -> (r: Self)
        ensures
            r == *self,
    {
        IdentityApiEntryRef(self.0.clone())
    }
}

impl PartialEq for IdentityApiEntryRef {
    fn eq(&self, other: &Self) -> (r: bool) {
        self.0 == other.0
    }
}

impl PartialEqSpecImpl for IdentityApiEntryRef {
    open spec fn obeys_eq_spec() -> bool {
        true
    }

    open spec fn eq_spec(&self, other: &Self) -> bool {
        self@ == other@
    }
}

impl View for IdentityApiEntryRef {
    type V = Seq<char>;

    closed spec fn view(&self) -> Seq<char> {
        self.0@
    }
}

impl IdentityApiEntryRef {
    /// Creates a new opaque typed value.
    pub fn new(value: String) -> (r: Self)
        ensures
            r@ == value@,
    {
        IdentityApiEntryRef(value)
    }

    /// Returns the wrapped string.
    pub fn as_str(&self) -> (r: &str)
        ensures
            r@ == self@,
    {
        self.0.as_str()
    }

    /// Consumes the wrapper and returns the inner string.
    pub fn into_inner(self) -> (r: String)
        ensures
            r@ == self@,
    {
        self.0
    }
}

/// API dispatch attempt identity.
#[derive(Debug, Eq, Hash, PartialOrd, Ord)]
pub struct IdentityEntryDispatchRef(String);

impl Clone for IdentityEntryDispatchRef {
    fn clone(&self) -> (r: Self)
        ensures
            r == *self,
    {
        IdentityEntryDispatchRef(self.0.clone())
    }
}

impl PartialEq for IdentityEntryDispatchRef {
    fn eq(&self, other: &Self) -> (r: bool) {
        self.0 == other.0
    }
}

impl PartialEqSpecImpl for IdentityEntryDispatchRef {
    open spec fn obeys_eq_spec() -> bool {
        true
    }

    open spec fn eq_spec(&self, other: &Self) -> bool {
        self@ == other@
    }
}

impl View for IdentityEntryDispatchRef {
    type V = Seq<char>;

    closed spec fn view(&self) -> Seq<char> {
        self.0@
    }
}

impl IdentityEntryDispatchRef {
    /// Creates a new opaque typed value.
    pub fn new(value: String) -> (r: Self)
        ensures
            r@ == value@,
    {
        IdentityEntryDispatchRef(value)
    }

    /// Returns the wrapped string.
    pub fn as_str(&self) -> (r: &str)
        ensures
            r@ == self@,
    {
        self.0.as_str()
    }

    /// Consumes the wrapper and returns the inner string.
    pub fn into_inner(self) -> (r: String)
        ensures
            r@ == self@,
    {
        self.0
    }
}

/// Worker entry identity.
#[derive(Debug, Eq, Hash, PartialOrd, Ord)]
pub struct IdentityWorkerEntryRef(String);

impl Clone for IdentityWorkerEntryRef {
    fn clone(&self) -> (r: Self)
        ensures
            r == *self,
    {
        IdentityWorkerEntryRef(self.0.clone())
    }
}

impl PartialEq for IdentityWorkerEntryRef {
    fn eq(&self, other: &Self) -> (r: bool) {
        self.0 == other.0
    }
}

impl PartialEqSpecImpl for IdentityWorkerEntryRef {
    open spec fn obeys_eq_spec() -> bool {
        true
    }

    open spec fn eq_spec(&self, other: &Self) -> bool {
        self@ == other@
    }
}

impl View for IdentityWorkerEntryRef {
    type V = Seq<char>;

    closed spec fn view(&self) -> Seq<char> {
        self.0@
    }
}

impl IdentityWorkerEntryRef {
    /// Creates a new opaque typed value.
    pub fn new(value: String) -> (r: Self)
        ensures
            r@ == value@,
    {
        IdentityWorkerEntryRef(value)
    }

    /// Returns the wrapped string.
    pub fn as_str(&self) -> (r: &str)
        ensures
            r@ == self@,
    {
        self.0.as_str()
    }

    /// Consumes the wrapper and returns the inner string.
    pub fn into_inner(self) -> (r: String)
        ensures
            r@ == self@,
    {
        self.0
    }
}

/// Worker dispatch attempt identity.
#[derive(Debug, Eq, Hash, PartialOrd, Ord)]
pub struct IdentityWorkerDispatchRef(String);

impl Clone for IdentityWorkerDispatchRef {
    fn clone(&self) -> (r: Self)
        ensures
            r == *self,
    {
        IdentityWorkerDispatchRef(self.0.clone())
    }
}

impl PartialEq for IdentityWorkerDispatchRef {
    fn eq(&self, other: &Self) -> (r: bool) {
        self.0 == other.0
    }
}

impl PartialEqSpecImpl for IdentityWorkerDispatchRef {
    open spec fn obeys_eq_spec() -> bool {
        true
    }

    open spec fn eq_spec(&self, other: &Self) -> bool {
        self@ == other@
    }
}

impl View for IdentityWorkerDispatchRef {
    type V = Seq<char>;

    closed spec fn view(&self) -> Seq<char> {
        self.0@
    }
}

impl IdentityWorkerDispatchRef {
    /// Creates a new opaque typed value.
    pub fn new(value: String) -> (r: Self)
        ensures
            r@ == value@,
    {
        IdentityWorkerDispatchRef(value)
    }

    /// Returns the wrapped string.
    pub fn as_str(&self) -> (r: &str)
        ensures
            r@ == self@,
    {
        self.0.as_str()
    }

    /// Consumes the wrapper and returns the inner string.
    pub fn into_inner(self) -> (r: String)
        ensures
            r@ == self@,
    {
        self.0
    }
}

/// Job entry identity.
#[derive(Debug, Eq, Hash, PartialOrd, Ord)]
pub struct IdentityJobEntryRef(String);

impl Clone for IdentityJobEntryRef {
    fn clone(&self) -> (r: Self)
        ensures
            r == *self,
    {
        IdentityJobEntryRef(self.0.clone())
    }
}

impl PartialEq for IdentityJobEntryRef {
    fn eq(&self, other: &Self) -> (r: bool) {
        self.0 == other.0
    }
}

impl PartialEqSpecImpl for IdentityJobEntryRef {
    open spec fn obeys_eq_spec() -> bool {
        true
    }

    open spec fn eq_spec(&self, other: &Self) -> bool {
        self@ == other@
    }
}

impl View for IdentityJobEntryRef {
    type V = Seq<char>;

    closed spec fn view(&self) -> Seq<char> {
        self.0@
    }
}

impl IdentityJobEntryRef {
    /// Creates a new opaque typed value.
    pub fn new(value: String) -> (r: Self)
        ensures
            r@ == value@,
    {
        IdentityJobEntryRef(value)
    }

    /// Returns the wrapped string.
    pub fn as_str(&self) -> (r: &str)
        ensures
            r@ == self@,
    {
        self.0.as_str()
    }

    /// Consumes the wrapper and returns the inner string.
    pub fn into_inner(self) -> (r: String)
        ensures
            r@ == self@,
    {
        self.0
    }
}

/// Job dispatch attempt identity.
#[derive(Debug, Eq, Hash, PartialOrd, Ord)]
pub struct IdentityJobDispatchRef(String);

impl Clone for IdentityJobDispatchRef {
    fn clone(&self) -> (r: Self)
        ensures
            r == *self,
    {
        IdentityJobDispatchRef(self.0.clone())
    }
}

impl PartialEq for IdentityJobDispatchRef {
    fn eq(&self, other: &Self) -> (r: bool) {
        self.0 == other.0
    }
}

impl PartialEqSpecImpl for IdentityJobDispatchRef {
    open spec fn obeys_eq_spec() -> bool {
        true
    }

    open spec fn eq_spec(&self, other: &Self) -> bool {
        self@ == other@
    }
}

impl View for IdentityJobDispatchRef {
    type V = Seq<char>;

    closed spec fn view(&self) -> Seq<char> {
        self.0@
    }
}

impl IdentityJobDispatchRef {
    /// Creates a new opaque typed value.
    pub fn new(value: String) -> (r: Self)
        ensures
            r@ == value@,
    {
        IdentityJobDispatchRef(value)
    }

    /// Returns the wrapped string.
    pub fn as_str(&self) -> (r: &str)
        ensures
            r@ == self@,
    {
        self.0.as_str()
    }

    /// Consumes the wrapper and returns the inner string.
    pub fn into_inner(self) -> (r: String)
        ensures
            r@ == self@,
    {
        self.0
    }
}

/// Runtime config validation issue marker.
#[derive(Debug, Eq, Hash, PartialOrd, Ord)]
pub struct IdentityConfigIssueRef(String);

impl Clone for IdentityConfigIssueRef {
    fn clone(&self) -> (r: Self)
        ensures
            r == *self,
    {
        IdentityConfigIssueRef(self.0.clone())
    }
}

impl PartialEq for IdentityConfigIssueRef {
    fn eq(&self, other: &Self) -> (r: bool) {
        self.0 == other.0
    }
}

impl PartialEqSpecImpl for IdentityConfigIssueRef {
    open spec fn obeys_eq_spec() -> bool {
        true
    }

    open spec fn eq_spec(&self, other: &Self) -> bool {
        self@ == other@
    }
}

impl View for IdentityConfigIssueRef {
    type V = Seq<char>;

    closed spec fn view(&self) -> Seq<char> {
        self.0@
    }
}

impl IdentityConfigIssueRef {
    /// Creates a new opaque typed value.
    pub fn new(value: String) -> (r: Self)
        ensures
            r@ == value@,
    {
        IdentityConfigIssueRef(value)
    }

    /// Returns the wrapped string.
    pub fn as_str(&self) -> (r: &str)
        ensures
            r@ == self@,
    {
        self.0.as_str()
    }

    /// Consumes the wrapper and returns the inner string.
    pub fn into_inner(self) -> (r: String)
        ensures
            r@ == self@,
    {
        self.0
    }
}

/// Entry validation issue marker.
#[derive(Debug, Eq, Hash, PartialOrd, Ord)]
pub struct IdentityEntryValidationIssueRef(String);

impl Clone for IdentityEntryValidationIssueRef {
    fn clone(&self) -> (r: Self)
        ensures
            r == *self,
    {
        IdentityEntryValidationIssueRef(self.0.clone())
    }
}

impl PartialEq for IdentityEntryValidationIssueRef {
    fn eq(&self, other: &Self) -> (r: bool) {
        self.0 == other.0
    }
}

impl PartialEqSpecImpl for IdentityEntryValidationIssueRef {
    open spec fn obeys_eq_spec() -> bool {
        true
    }

    open spec fn eq_spec(&self, other: &Self) -> bool {
        self@ == other@
    }
}

impl View for IdentityEntryValidationIssueRef {
    type V = Seq<char>;

    closed spec fn view(&self) -> Seq<char> {
        self.0@
    }
}

impl IdentityEntryValidationIssueRef {
    /// Creates a new opaque typed value.
    pub fn new(value: String) -> (r: Self)
        ensures
            r@ == value@,
    {
        IdentityEntryValidationIssueRef(value)
    }

    /// Returns the wrapped string.
    pub fn as_str(&self) -> (r: &str)
        ensures
            r@ == self@,
    {
        self.0.as_str()
    }

    /// Consumes the wrapper and returns the inner string.
    pub fn into_inner(self) -> (r: String)
        ensures
            r@ == self@,
    {
        self.0
    }
}

/// Adapter identity marker.
#[derive(Debug, Eq, Hash, PartialOrd, Ord)]
pub struct IdentityAdapterRef(String);

impl Clone for IdentityAdapterRef {
    fn clone(&self) -> (r: Self)
        ensures
            r == *self,
    {
        IdentityAdapterRef(self.0.clone())
    }
}

impl PartialEq for IdentityAdapterRef {
    fn eq(&self, other: &Self) -> (r: bool) {
        self.0 == other.0
    }
}

impl PartialEqSpecImpl for IdentityAdapterRef {
    open spec fn obeys_eq_spec() -> bool {
        true
    }

    open spec fn eq_spec(&self, other: &Self) -> bool {
        self@ == other@
    }
}

impl View for IdentityAdapterRef {
    type V = Seq<char>;

    closed spec fn view(&self) -> Seq<char> {
        self.0@
    }
}

impl IdentityAdapterRef {
    /// Creates a new opaque typed value.
    pub fn new(value: String) -> (r: Self)
        ensures
            r@ == value@,
    {
        IdentityAdapterRef(value)
    }

    /// Returns the wrapped string.
    pub fn as_str(&self) -> (r: &str)
        ensures
            r@ == self@,
    {
        self.0.as_str()
    }

    /// Consumes the wrapper and returns the inner string.
    pub fn into_inner(self) -> (r: String)
        ensures
            r@ == self@,
    {
        self.0
    }
}

/// Adapter mode marker.
#[derive(Debug, Eq, Hash, PartialOrd, Ord)]
pub struct IdentityAdapterModeRef(String);

impl Clone for IdentityAdapterModeRef {
    fn clone(&self) -> (r: Self)
        ensures
            r == *self,
    {
        IdentityAdapterModeRef(self.0.clone())
    }
}

impl PartialEq for IdentityAdapterModeRef {
    fn eq(&self, other: &Self) -> (r: bool) {
        self.0 == other.0
    }
}

impl PartialEqSpecImpl for IdentityAdapterModeRef {
    open spec fn obeys_eq_spec() -> bool {
        true
    }

    open spec fn eq_spec(&self, other: &Self) -> bool {
        self@ == other@
    }
}

impl View for IdentityAdapterModeRef {
    type V = Seq<char>;

    closed spec fn view(&self) -> Seq<char> {
        self.0@
    }
}

impl IdentityAdapterModeRef {
    /// Creates a new opaque typed value.
    pub fn new(value: String) -> (r: Self)
        ensures
            r@ == value@,
    {
        IdentityAdapterModeRef(value)
    }

    /// Returns the wrapped string.
    pub fn as_str(&self) -> (r: &str)
        ensures
            r@ == self@,
    {
        self.0.as_str()
    }

    /// Consumes the wrapper and returns the inner string.
    pub fn into_inner(self) -> (r: String)
        ensures
            r@ == self@,
    {
        self.0
    }
}

/// Adapter availability issue marker.
#[derive(Debug, Eq, Hash, PartialOrd, Ord)]
pub struct IdentityAdapterAvailabilityIssueRef(String);

impl Clone for IdentityAdapterAvailabilityIssueRef {
    fn clone(&self) -> (r: Self)
        ensures
            r == *self,
    {
        IdentityAdapterAvailabilityIssueRef(self.0.clone())
    }
}

impl PartialEq for IdentityAdapterAvailabilityIssueRef {
    fn eq(&self, other: &Self) -> (r: bool) {
        self.0 == other.0
    }
}

impl PartialEqSpecImpl for IdentityAdapterAvailabilityIssueRef {
    open spec fn obeys_eq_spec() -> bool {
        true
    }

    open spec fn eq_spec(&self, other: &Self) -> bool {
        self@ == other@
    }
}

impl View for IdentityAdapterAvailabilityIssueRef {
    type V = Seq<char>;

    closed spec fn view(&self) -> Seq<char> {
        self.0@
    }
}

impl IdentityAdapterAvailabilityIssueRef {
    /// Creates a new opaque typed value.
    pub fn new(value: String) -> (r: Self)
        ensures
            r@ == value@,
    {
        IdentityAdapterAvailabilityIssueRef(value)
    }

    /// Returns the wrapped string.
    pub fn as_str(&self) -> (r: &str)
        ensures
            r@ == self@,
    {
        self.0.as_str()
    }

    /// Consumes the wrapper and returns the inner string.
    pub fn into_inner(self) -> (r: String)
        ensures
            r@ == self@,
    {
        self.0
    }
}

/// Stable member summary view identifier.
#[derive(Debug, Eq, Hash, PartialOrd, Ord)]
pub struct MemberSummaryViewId(String);

impl Clone for MemberSummaryViewId {
    fn clone(&self) -> (r: Self)
        ensures
            r == *self,
    {
        MemberSummaryViewId(self.0.clone())
    }
}

impl PartialEq for MemberSummaryViewId {
    fn eq(&self, other: &Self) -> (r: bool) {
        self.0 == other.0
    }
}

impl PartialEqSpecImpl for MemberSummaryViewId {
    open spec fn obeys_eq_spec() -> bool {
        true
    }

    open spec fn eq_spec(&self, other: &Self) -> bool {
        self@ == other@
    }
}

impl View for MemberSummaryViewId {
    type V = Seq<char>;

    closed spec fn view(&self) -> Seq<char> {
        self.0@
    }
}

impl MemberSummaryViewId {
    /// Creates a new opaque typed value.
    pub fn new(value: String) -> (r: Self)
        ensures
            r@ == value@,
    {
        MemberSummaryViewId(value)
    }

    /// Returns the wrapped string.
    pub fn as_str(&self) -> (r: &str)
        ensures
            r@ == self@,
    {
        self.0.as_str()
    }

    /// Consumes the wrapper and returns the inner string.
    pub fn into_inner(self) -> (r: String)
        ensures
            r@ == self@,
    {
        self.0
    }
}

/// Stable trace record identifier.
#[derive(Debug, Eq, Hash, PartialOrd, Ord)]
pub struct IdentityTraceRecordId(String);

impl Clone for IdentityTraceRecordId {
    fn clone(&self) -> (r: Self)
        ensures
            r == *self,
    {
        IdentityTraceRecordId(self.0.clone())
    }
}

impl PartialEq for IdentityTraceRecordId {
    fn eq(&self, other: &Self) -> (r: bool) {
        self.0 == other.0
    }
}

impl PartialEqSpecImpl for IdentityTraceRecordId {
    open spec fn obeys_eq_spec() -> bool {
        true
    }

    open spec fn eq_spec(&self, other: &Self) -> bool {
        self@ == other@
    }
}

impl View for IdentityTraceRecordId {
    type V = Seq<char>;

    closed spec fn view(&self) -> Seq<char> {
        self.0@
    }
}

impl IdentityTraceRecordId {
    /// Creates a new opaque typed value.
    pub fn new(value: String) -> (r: Self)
        ensures
            r@ == value@,
    {
        IdentityTraceRecordId(value)
    }

    /// Returns the wrapped string.
    pub fn as_str(&self) -> (r: &str)
        ensures
            r@ == self@,
    {
        self.0.as_str()
    }

    /// Consumes the wrapper and returns the inner string.
    pub fn into_inner(self) -> (r: String)
        ensures
            r@ == self@,
    {
        self.0
    }
}

/// Stable audit trail identifier.
#[derive(Debug, Eq, Hash, PartialOrd, Ord)]
pub struct AuditTrailId(String);

impl Clone for AuditTrailId {
    fn clone(&self) -> (r: Self)
        ensures
            r == *self,
    {
        AuditTrailId(self.0.clone())
    }
}

impl PartialEq for AuditTrailId {
    fn eq(&self, other: &Self) -> (r: bool) {
        self.0 == other.0
    }
}

impl PartialEqSpecImpl for AuditTrailId {
    open spec fn obeys_eq_spec() -> bool {
        true
    }

    open spec fn eq_spec(&self, other: &Self) -> bool {
        self@ == other@
    }
}

impl View for AuditTrailId {
    type V = Seq<char>;

    closed spec fn view(&self) -> Seq<char> {
        self.0@
    }
}

impl AuditTrailId {
    /// Creates a new opaque typed value.
    pub fn new(value: String) -> (r: Self)
        ensures
            r@ == value@,
    {
        AuditTrailId(value)
    }

    /// Returns the wrapped string.
    pub fn as_str(&self) -> (r: &str)
        ensures
            r@ == self@,
    {
        self.0.as_str()
    }

    /// Consumes the wrapper and returns the inner string.
    pub fn into_inner(self) -> (r: String)
        ensures
            r@ == self@,
    {
        self.0
    }
}

/// Stable reconciliation report identifier.
#[derive(Debug, Eq, Hash, PartialOrd, Ord)]
pub struct ReconciliationReportId(String);

impl Clone for ReconciliationReportId {
    fn clone(&self) -> (r: Self)
        ensures
            r == *self,
    {
        ReconciliationReportId(self.0.clone())
    }
}

impl PartialEq for ReconciliationReportId {
    fn eq(&self, other: &Self) -> (r: bool) {
        self.0 == other.0
    }
}

impl PartialEqSpecImpl for ReconciliationReportId {
    open spec fn obeys_eq_spec() -> bool {
        true
    }

    open spec fn eq_spec(&self, other: &Self) -> bool {
        self@ == other@
    }
}

impl View for ReconciliationReportId {
    type V = Seq<char>;

    closed spec fn view(&self) -> Seq<char> {
        self.0@
    }
}

impl ReconciliationReportId {
    /// Creates a new opaque typed value.
    pub fn new(value: String) -> (r: Self)
        ensures
            r@ == value@,
    {
        ReconciliationReportId(value)
    }

    /// Returns the wrapped string.
    pub fn as_str(&self) -> (r: &str)
        ensures
            r@ == self@,
    {
        self.0.as_str()
    }

    /// Consumes the wrapper and returns the inner string.
    pub fn into_inner(self) -> (r: String)
        ensures
            r@ == self@,
    {
        self.0
    }
}

/// Stable optimistic version attached to persisted application objects or sidecars.
#[derive(Clone, Copy, Debug, Eq, Ord, PartialEq, PartialOrd, Structural)]
pub struct IdentityVersion(pub u64);

impl IdentityVersion {
    /// Creates a new version token.
    pub fn new(value: u64) -> (r: Self)
        ensures
            r.0 == value,
    {
        IdentityVersion(value)
    }

    /// Returns the wrapped version.
    pub fn get(self) -> (r: u64)
        ensures
            r == self.0,
    {
        self.0
    }
}

/// Application-local page request used by repositories.
#[derive(Clone, Debug, Eq, PartialEq)]
pub struct IdentityRepositoryPage {
    /// Opaque cursor from a previous page.
    pub cursor: Option<IdentityRepositoryCursor>,
    /// Maximum number of items requested.
    pub limit: u32,
}

impl IdentityRepositoryPage {
    /// Creates a new page request.
    pub fn new(cursor: Option<IdentityRepositoryCursor>, limit: u32) -> (r: Self)
        ensures
            r == (IdentityRepositoryPage { cursor, limit }),
    {
        IdentityRepositoryPage { cursor, limit }
    }
}

/// Persisted value paired with its optimistic version.
#[derive(Clone, Debug, Eq, PartialEq)]
pub struct Versioned<T> {
    /// Persisted value.
    pub value: T,
    /// Optimistic version token.
    pub version: IdentityVersion,
}

/// Repository page result with an opaque next cursor.
#[derive(Clone, Debug, Eq, PartialEq)]
pub struct Page<T> {
    /// Returned page items.
    pub items: Vec<T>,
    /// Opaque cursor for the next page.
    pub next_cursor: Option<IdentityRepositoryCursor>,
}

/// Typed ref paired with its optimistic version.
#[derive(Clone, Debug, Eq, PartialEq)]
pub struct IdentityVersionedRef<TRef> {
    /// Typed ref to the persisted object.
    pub value_ref: TRef,
    /// Optimistic version token for the referenced object.
    pub version: IdentityVersion,
}

/// Deterministic application-local set of member refs.
#[derive(Clone, Debug, Eq, PartialEq)]
pub struct GlobalMemberRefSet {
    /// Member refs in deterministic order.
    pub member_refs: Vec<GlobalMemberRef>,
}

/// Deterministic application-local set of projection refs.
#[derive(Clone, Debug, Eq, PartialEq)]
pub struct IdentityProjectionRefSet {
    /// Projection refs in deterministic order.
    pub projection_refs: Vec<IdentityProjectionRef>,
}

/// Deterministic application-local set of external reference refs.
#[derive(Clone, Debug, Eq, PartialEq)]
pub struct ExternalReferenceRefSet {
    /// External reference refs in deterministic order.
    pub reference_refs: Vec<ExternalReferenceRef>,
}

/// Accepted subject refs that share one canonical identity subject key.
#[derive(Clone, Debug, Eq, PartialEq)]
pub struct IdentityAcceptedSubjectRefs {
    /// Trace subject used by accepted trace records.
    pub trace_subject_ref: IdentityTraceSubjectRef,
    /// Audit subject used by audit trails.
    pub audit_subject_ref: IdentityAuditSubjectRef,
    /// Outbox subject used by accepted outbox records.
    pub outbox_subject_ref: IdentityOutboxSubjectRef,
}

/// Body-free markers required to materialize accepted write audit material.
#[derive(Clone, Debug, Eq, PartialEq)]
pub struct IdentityAcceptedAuditTrailMarkers {
    /// Accepted-write audit scope marker.
    pub audit_scope_ref: AuditScopeRef,
    /// Trail-level body-free materialized visibility marker.
    pub trail_visibility_result_ref: VisibilityResultRef,
    /// Entry-level body-free materialized visibility marker.
    pub entry_visibility_result_ref: VisibilityResultRef,
    /// Read surface kind carried by the accepted-write trail materialization.
    pub read_surface_kind: IdentityReadSurfaceKind,
}

/// Application-local entry surface classification.
#[derive(Clone, Copy, Debug, Eq, PartialEq, Structural)]
pub enum IdentityEntrySurfaceKind {
    /// API command entry.
    ApiCommand,
    /// API query entry.
    ApiQuery,
    /// Worker consumer entry.
    WorkerConsumer,
    /// Worker callback entry.
    WorkerCallback,
    /// Operations job entry.
    OperationsJob,
}

/// Stable application-local idempotency key wrapper.
#[derive(Debug, Eq, Hash, Ord, PartialEq, PartialOrd)]
pub struct IdentityIdempotencyKey(pub IdempotencyKey);

impl Clone for IdentityIdempotencyKey {
    fn clone(&self) -> (r: Self)
        ensures
            r == *self,
    {
        IdentityIdempotencyKey(self.0.clone())
    }
}

impl IdentityIdempotencyKey {
    /// Creates a new application idempotency key wrapper.
    pub fn new(value: IdempotencyKey) -> (r: Self)
        ensures
            r.0 == value,
    {
        IdentityIdempotencyKey(value)
    }

    /// Returns the underlying public idempotency key.
    pub fn as_public(&self) -> (r: &IdempotencyKey)
        ensures
            *r == self.0,
    {
        &self.0
    }
}

/// Stable request digest used by duplicate replay checks.
#[derive(Debug, Eq, PartialEq)]
pub struct IdentityRequestDigest {
    /// Body-free canonical request material marker.
    pub canonical_marker_ref: IdentityCanonicalRequestMarkerRef,
    /// Stable digest value.
    pub digest_value: IdentityRequestDigestValue,
    /// Canonical schema version marker.
    pub schema_version_ref: IdentityProtocolSchemaVersionRef,
    /// Canonical digest algorithm marker.
    pub algorithm_ref: IdentityDigestAlgorithmMarkerRef,
}

impl Clone for IdentityRequestDigest {
    fn clone(&self) -> (r: Self)
        ensures
            r == *self,
    {
        IdentityRequestDigest {
            canonical_marker_ref: self.canonical_marker_ref.clone(),
            digest_value: self.digest_value.clone(),
            schema_version_ref: self.schema_version_ref.clone(),
            algorithm_ref: self.algorithm_ref.clone(),
        }
    }
}

/// Whether two digests describe the same canonical material: same digest
/// value, schema version, and algorithm. The canonical marker does not count.
pub open spec fn digests_match(a: IdentityRequestDigest, b: IdentityRequestDigest) -> bool {
    &&& a.digest_value@ == b.digest_value@
    &&& a.schema_version_ref@ == b.schema_version_ref@
    &&& a.algorithm_ref@ == b.algorithm_ref@
}

impl IdentityRequestDigest {
    /// Creates a new request digest from body-free canonical markers.
    pub fn from_canonical_marker(
        canonical_marker_ref: IdentityCanonicalRequestMarkerRef,
        digest_value: IdentityRequestDigestValue,
        schema_version_ref: IdentityProtocolSchemaVersionRef,
        algorithm_ref: IdentityDigestAlgorithmMarkerRef,
    ) -> (r: Self)
        ensures
            r == (IdentityRequestDigest { canonical_marker_ref, digest_value, schema_version_ref, algorithm_ref }),
    {
        IdentityRequestDigest { canonical_marker_ref, digest_value, schema_version_ref, algorithm_ref }
    }

    /// Returns whether the two digests describe the same canonical material.
    pub fn matches(&self, other: &Self) -> (r: bool)
        ensures
            r == digests_match(*self, *other),
    {
        self.digest_value == other.digest_value && self.schema_version_ref == other.schema_version_ref && self.algorithm_ref == other.algorithm_ref
    }

    /// Returns whether the two digests conflict for the same idempotency key.
    pub fn conflicts_with(&self, other: &Self) -> (r: bool)
        ensures
            r == !digests_match(*self, *other),
    {
        !self.matches(other)
    }
}

/// Application operation metadata shared by command, query, consumer, job, and callback flows.
#[derive(Debug, Eq, PartialEq)]
pub struct IdentityOperationContext {
    /// Stable context identity.
    pub context_ref: IdentityOperationContextRef,
    /// Stable operation name.
    pub operation_name: IdentityOperationName,
    /// Entry channel that originated the operation.
    pub channel: IdentityOperationChannel,
    /// Effective actor reference.
    pub actor_ref: ActorRef,
    /// Body-free request metadata marker.
    pub request_metadata_ref: IdentityRequestMetadataRef,
    /// Optional idempotency key for replay-protected flows.
    pub idempotency_key: Option<IdentityIdempotencyKey>,
    /// Stable request digest.
    pub request_digest: IdentityRequestDigest,
    /// Optional propagated trace context marker.
    pub trace_context_ref: Option<IdentityTraceContextRef>,
    /// Optional source event marker for consumer and callback flows.
    pub source_event_ref: Option<IdentitySourceEventRef>,
    /// Optional job run marker for operations job flows.
    pub job_run_ref: Option<IdentityJobRunRef>,
    /// Start timestamp captured from the clock port.
    pub started_at: IdentityTimestamp,
}

impl Clone for IdentityOperationContext {
    fn clone(&self) -> (r: Self)
        ensures
            r == *self,
    {
        IdentityOperationContext {
            context_ref: self.context_ref.clone(),
            operation_name: self.operation_name.clone(),
            channel: self.channel,
            actor_ref: self.actor_ref.clone(),
            request_metadata_ref: self.request_metadata_ref.clone(),
            idempotency_key: self.idempotency_key.clone(),
            request_digest: self.request_digest.clone(),
            trace_context_ref: self.trace_context_ref.clone(),
            source_event_ref: self.source_event_ref.clone(),
            job_run_ref: self.job_run_ref.clone(),
            started_at: self.started_at,
        }
    }
}

/// Whether an operation on this channel must carry an idempotency key.
pub open spec fn channel_requires_idempotency(channel: IdentityOperationChannel) -> bool {
    channel != IdentityOperationChannel::Query
}

/// Whether an operation on this channel may attempt a write-side flow.
pub open spec fn channel_is_write(channel: IdentityOperationChannel) -> bool {
    channel != IdentityOperationChannel::Query && channel != IdentityOperationChannel::ProjectionMaintenance
}

impl IdentityOperationContext {
    /// Builds a command context: no source event and no job run.
    pub fn from_command(
        context_ref: IdentityOperationContextRef,
        operation_name: IdentityOperationName,
        actor_ref: ActorRef,
        request_metadata_ref: IdentityRequestMetadataRef,
        idempotency_key: Option<IdentityIdempotencyKey>,
        request_digest: IdentityRequestDigest,
        trace_context_ref: Option<IdentityTraceContextRef>,
        started_at: IdentityTimestamp,
    ) -> (r: Self)
        ensures
            r == (IdentityOperationContext {
                context_ref,
                operation_name,
                channel: IdentityOperationChannel::Command,
                actor_ref,
                request_metadata_ref,
                idempotency_key,
                request_digest,
                trace_context_ref,
                source_event_ref: None,
                job_run_ref: None,
                started_at,
            }),
    {
        IdentityOperationContext {
            context_ref,
            operation_name,
            channel: IdentityOperationChannel::Command,
            actor_ref,
            request_metadata_ref,
            idempotency_key,
            request_digest,
            trace_context_ref,
            source_event_ref: None,
            job_run_ref: None,
            started_at,
        }
    }

    /// Builds a query context: it never carries an idempotency key.
    pub fn from_query(
        context_ref: IdentityOperationContextRef,
        operation_name: IdentityOperationName,
        actor_ref: ActorRef,
        request_metadata_ref: IdentityRequestMetadataRef,
        request_digest: IdentityRequestDigest,
        trace_context_ref: Option<IdentityTraceContextRef>,
        started_at: IdentityTimestamp,
    ) -> (r: Self)
        ensures
            r == (IdentityOperationContext {
                context_ref,
                operation_name,
                channel: IdentityOperationChannel::Query,
                actor_ref,
                request_metadata_ref,
                idempotency_key: None,
                request_digest,
                trace_context_ref,
                source_event_ref: None,
                job_run_ref: None,
                started_at,
            }),
    {
        IdentityOperationContext {
            context_ref,
            operation_name,
            channel: IdentityOperationChannel::Query,
            actor_ref,
            request_metadata_ref,
            idempotency_key: None,
            request_digest,
            trace_context_ref,
            source_event_ref: None,
            job_run_ref: None,
            started_at,
        }
    }

    /// Builds an inbound consumer context carrying its key and source event.
    pub fn from_inbound_event(
        context_ref: IdentityOperationContextRef,
        operation_name: IdentityOperationName,
        actor_ref: ActorRef,
        request_metadata_ref: IdentityRequestMetadataRef,
        idempotency_key: IdentityIdempotencyKey,
        request_digest: IdentityRequestDigest,
        trace_context_ref: Option<IdentityTraceContextRef>,
        source_event_ref: IdentitySourceEventRef,
        started_at: IdentityTimestamp,
    ) -> (r: Self)
        ensures
            r == (IdentityOperationContext {
                context_ref,
                operation_name,
                channel: IdentityOperationChannel::Consumer,
                actor_ref,
                request_metadata_ref,
                idempotency_key: Some(idempotency_key),
                request_digest,
                trace_context_ref,
                source_event_ref: Some(source_event_ref),
                job_run_ref: None,
                started_at,
            }),
    {
        IdentityOperationContext {
            context_ref,
            operation_name,
            channel: IdentityOperationChannel::Consumer,
            actor_ref,
            request_metadata_ref,
            idempotency_key: Some(idempotency_key),
            request_digest,
            trace_context_ref,
            source_event_ref: Some(source_event_ref),
            job_run_ref: None,
            started_at,
        }
    }

    /// Builds a job context carrying its key and job run.
    pub fn from_job(
        context_ref: IdentityOperationContextRef,
        operation_name: IdentityOperationName,
        actor_ref: ActorRef,
        request_metadata_ref: IdentityRequestMetadataRef,
        idempotency_key: IdentityIdempotencyKey,
        request_digest: IdentityRequestDigest,
        trace_context_ref: Option<IdentityTraceContextRef>,
        job_run_ref: IdentityJobRunRef,
        started_at: IdentityTimestamp,
    ) -> (r: Self)
        ensures
            r == (IdentityOperationContext {
                context_ref,
                operation_name,
                channel: IdentityOperationChannel::Job,
                actor_ref,
                request_metadata_ref,
                idempotency_key: Some(idempotency_key),
                request_digest,
                trace_context_ref,
                source_event_ref: None,
                job_run_ref: Some(job_run_ref),
                started_at,
            }),
    {
        IdentityOperationContext {
            context_ref,
            operation_name,
            channel: IdentityOperationChannel::Job,
            actor_ref,
            request_metadata_ref,
            idempotency_key: Some(idempotency_key),
            request_digest,
            trace_context_ref,
            source_event_ref: None,
            job_run_ref: Some(job_run_ref),
            started_at,
        }
    }

    /// Builds a handoff-callback context carrying its key and source event.
    pub fn from_handoff_callback(
        context_ref: IdentityOperationContextRef,
        operation_name: IdentityOperationName,
        actor_ref: ActorRef,
        request_metadata_ref: IdentityRequestMetadataRef,
        idempotency_key: IdentityIdempotencyKey,
        request_digest: IdentityRequestDigest,
        trace_context_ref: Option<IdentityTraceContextRef>,
        source_event_ref: IdentitySourceEventRef,
        started_at: IdentityTimestamp,
    ) -> (r: Self)
        ensures
            r == (IdentityOperationContext {
                context_ref,
                operation_name,
                channel: IdentityOperationChannel::HandoffCallback,
                actor_ref,
                request_metadata_ref,
                idempotency_key: Some(idempotency_key),
                request_digest,
                trace_context_ref,
                source_event_ref: Some(source_event_ref),
                job_run_ref: None,
                started_at,
            }),
    {
        IdentityOperationContext {
            context_ref,
            operation_name,
            channel: IdentityOperationChannel::HandoffCallback,
            actor_ref,
            request_metadata_ref,
            idempotency_key: Some(idempotency_key),
            request_digest,
            trace_context_ref,
            source_event_ref: Some(source_event_ref),
            job_run_ref: None,
            started_at,
        }
    }

    /// Returns whether this operation should carry an idempotency key.
    pub fn requires_idempotency(&self) -> (r: bool)
        ensures
            r == channel_requires_idempotency(self.channel),
    {
        self.channel != IdentityOperationChannel::Query
    }

    /// Returns whether the channel may attempt a write-side application flow.
    pub fn is_write_channel(&self) -> (r: bool)
        ensures
            r == channel_is_write(self.channel),
    {
        !matches!(self.channel, IdentityOperationChannel::Query | IdentityOperationChannel::ProjectionMaintenance)
    }
}

/// Application idempotency state family.
#[derive(Clone, Copy, Debug, Eq, PartialEq, Structural)]
pub enum IdentityIdempotencyStateKind {
    /// The key and digest are reserved but the flow is not complete.
    Reserved,
    /// The flow completed with a replayable accepted result.
    Completed,
    /// The flow completed with a replayable rejected result.
    RejectedStored,
    /// The key is already bound to a different canonical request digest.
    Conflict,
    /// The reservation expired and cannot be replayed.
    Expired,
}

/// Application-local idempotency record.
#[derive(Debug, Eq, PartialEq)]
pub struct IdentityIdempotencyRecord {
    /// Stable record identity.
    pub record_ref: IdentityIdempotencyRecordRef,
    /// Stable operation name.
    pub operation_name: IdentityOperationName,
    /// Channel copied from the operation context.
    pub channel: IdentityOperationChannel,
    /// Stable idempotency key.
    pub idempotency_key: IdentityIdempotencyKey,
    /// Canonical request digest.
    pub request_digest: IdentityRequestDigest,
    /// Current replay state.
    pub state: IdentityIdempotencyStateKind,
    /// Optional stored replay result reference.
    pub stored_result_ref: Option<IdentityStoredResultRef>,
    /// Timestamp when the reservation was created.
    pub reserved_at: IdentityTimestamp,
    /// Timestamp when the record reached a terminal replayable state.
    pub completed_at: Option<IdentityTimestamp>,
}

impl Clone for IdentityIdempotencyRecord {
    fn clone(&self) -> (r: Self)
        ensures
            r == *self,
    {
        IdentityIdempotencyRecord {
            record_ref: self.record_ref.clone(),
            operation_name: self.operation_name.clone(),
            channel: self.channel,
            idempotency_key: self.idempotency_key.clone(),
            request_digest: self.request_digest.clone(),
            state: self.state,
            stored_result_ref: self.stored_result_ref.clone(),
            reserved_at: self.reserved_at,
            completed_at: self.completed_at,
        }
    }
}

/// The record `complete` or `complete_rejected` leaves: in `state`, pointing at
/// the stored result, completed at `now`.
pub open spec fn finished_record(
    record: IdentityIdempotencyRecord,
    state: IdentityIdempotencyStateKind,
    stored_result_ref: IdentityStoredResultRef,
    now: IdentityTimestamp,
) -> IdentityIdempotencyRecord {
    IdentityIdempotencyRecord { state, stored_result_ref: Some(stored_result_ref), completed_at: Some(now), ..record }
}

/// Whether a record may replay its stored result for an incoming digest: it
/// must have completed (accepted or rejected), match the digest, and point at
/// a stored result.
pub open spec fn record_replayable(record: IdentityIdempotencyRecord, digest: IdentityRequestDigest) -> bool {
    &&& (record.state == IdentityIdempotencyStateKind::Completed || record.state == IdentityIdempotencyStateKind::RejectedStored)
    &&& digests_match(record.request_digest, digest)
    &&& record.stored_result_ref is Some
}

impl IdentityIdempotencyRecord {
    /// Reserves a new idempotency record from an operation context; a context
    /// without an idempotency key reserves nothing.
    pub fn reserve(record_ref: IdentityIdempotencyRecordRef, context: &IdentityOperationContext, now: IdentityTimestamp) -> (r: Option<Self>)
        ensures
            r is Some <==> context.idempotency_key is Some,
            r matches Some(v) ==> v == (IdentityIdempotencyRecord {
                record_ref,
                operation_name: context.operation_name,
                channel: context.channel,
                idempotency_key: context.idempotency_key.unwrap(),
                request_digest: context.request_digest,
                state: IdentityIdempotencyStateKind::Reserved,
                stored_result_ref: None,
                reserved_at: now,
                completed_at: None,
            }),
    {
        match &context.idempotency_key {
            None => None,
            Some(idempotency_key) => Some(IdentityIdempotencyRecord {
                record_ref,
                operation_name: context.operation_name.clone(),
                channel: context.channel,
                idempotency_key: idempotency_key.clone(),
                request_digest: context.request_digest.clone(),
                state: IdentityIdempotencyStateKind::Reserved,
                stored_result_ref: None,
                reserved_at: now,
                completed_at: None,
            }),
        }
    }

    /// Completes the record with a replayable accepted result.
    pub fn complete(self, stored_result_ref: IdentityStoredResultRef, now: IdentityTimestamp) -> (r: Self)
        ensures
            r == finished_record(self, IdentityIdempotencyStateKind::Completed, stored_result_ref, now),
    {
        let mut record = self;
        record.state = IdentityIdempotencyStateKind::Completed;
        record.stored_result_ref = Some(stored_result_ref);
        record.completed_at = Some(now);
        record
    }

    /// Completes the record with a replayable rejected result.
    pub fn complete_rejected(self, stored_result_ref: IdentityStoredResultRef, now: IdentityTimestamp) -> (r: Self)
        ensures
            r == finished_record(self, IdentityIdempotencyStateKind::RejectedStored, stored_result_ref, now),
    {
        let mut record = self;
        record.state = IdentityIdempotencyStateKind::RejectedStored;
        record.stored_result_ref = Some(stored_result_ref);
        record.completed_at = Some(now);
        record
    }

    /// Marks the record as conflicting for same-key different-digest input.
    pub fn mark_conflict(self) -> (r: Self)
        ensures
            r == (IdentityIdempotencyRecord { state: IdentityIdempotencyStateKind::Conflict, ..self }),
    {
        let mut record = self;
        record.state = IdentityIdempotencyStateKind::Conflict;
        record
    }

    /// Returns whether the incoming digest can replay this record.
    pub fn can_replay(&self, digest: &IdentityRequestDigest) -> (r: bool)
        ensures
            r == record_replayable(*self, *digest),
    {
        matches!(self.state, IdentityIdempotencyStateKind::Completed | IdentityIdempotencyStateKind::RejectedStored)
            && self.request_digest.matches(digest)
            && self.stored_result_ref.is_some()
    }
}

/// Law: digest matching is an equivalence relation, and two digests conflict
/// exactly when they do not match.
pub proof fn lemma_digest_match_is_equivalence(a: IdentityRequestDigest, b: IdentityRequestDigest, c: IdentityRequestDigest)
    ensures
        digests_match(a, a),
        digests_match(a, b) ==> digests_match(b, a),
        digests_match(a, b) && digests_match(b, c) ==> digests_match(a, c),
{
}

/// Law: a completed (accepted or rejected) record replays every digest that
/// matches its own and nothing else; a reserved (in-flight), conflicting, or
/// expired record never replays.
pub proof fn lemma_idempotent_replay(
    record: IdentityIdempotencyRecord,
    stored_result_ref: IdentityStoredResultRef,
    now: IdentityTimestamp,
    digest: IdentityRequestDigest,
)
    ensures
        record_replayable(finished_record(record, IdentityIdempotencyStateKind::Completed, stored_result_ref, now), digest)
            <==> digests_match(record.request_digest, digest),
        record_replayable(finished_record(record, IdentityIdempotencyStateKind::RejectedStored, stored_result_ref, now), digest)
            <==> digests_match(record.request_digest, digest),
        !record_replayable(IdentityIdempotencyRecord { state: IdentityIdempotencyStateKind::Conflict, ..record }, digest),
        record.state == IdentityIdempotencyStateKind::Reserved ==> !record_replayable(record, digest),
        record.state == IdentityIdempotencyStateKind::Expired ==> !record_replayable(record, digest),
{
}

/// Law: a query never requires idempotency and never writes; every other
/// channel requires a key, and only query and projection maintenance are
/// read-only.
pub proof fn lemma_channel_idempotency(channel: IdentityOperationChannel)
    ensures
        channel == IdentityOperationChannel::Query ==> !channel_requires_idempotency(channel) && !channel_is_write(channel),
        channel_is_write(channel) ==> channel_requires_idempotency(channel),
{
}

/// Result of attempting to reserve an idempotency key inside a write transaction.
#[derive(Clone, Debug, Eq, PartialEq)]
pub enum IdempotencyReserveOutcome {
    /// A fresh reservation was created for the current operation.
    Reserved(Versioned<IdentityIdempotencyRecord>),
    /// A completed same-digest record may replay a stored result.
    ReplayAvailable {
        /// Existing versioned idempotency record.
        record: Versioned<IdentityIdempotencyRecord>,
        /// Stored replay surface referenced by the record.
        stored_result_ref: IdentityStoredResultRef,
    },
    /// The same key is already bound to a different request digest.
    Conflict(Versioned<IdentityIdempotencyRecord>),
    /// The same key and digest are still reserved but not yet replayable.
    InFlight(Versioned<IdentityIdempotencyRecord>),
}

/// Stable stored replay result classification.
#[derive(Clone, Copy, Debug, Eq, PartialEq, Structural)]
pub enum IdentityStoredResultKind {
    /// Stored accepted command result.
    CommandAccepted,
    /// Stored rejected command result.
    CommandRejected,
    /// Stored consumer receipt.
    ConsumerReceipt,
    /// Stored job report.
    JobReport,
    /// Stored handoff callback receipt.
    HandoffCallbackReceipt,
}

/// Stored replay snapshot for duplicate-safe application flows.
#[derive(Debug, Eq, PartialEq)]
pub struct StoredIdentityOperationResult {
    /// Stable stored result identity.
    pub stored_result_ref: IdentityStoredResultRef,
    /// Operation context that produced the replayable result.
    pub operation_context_ref: IdentityOperationContextRef,
    /// Replayable stored result kind.
    pub result_kind: IdentityStoredResultKind,
    /// Body-free stored surface marker.
    pub surface_marker_ref: IdentityStoredSurfaceMarkerRef,
    /// Timestamp when the replay surface was recorded.
    pub recorded_at: IdentityTimestamp,
}

impl Clone for StoredIdentityOperationResult {
    fn clone(&self) -> (r: Self)
        ensures
            r == *self,
    {
        StoredIdentityOperationResult {
            stored_result_ref: self.stored_result_ref.clone(),
            operation_context_ref: self.operation_context_ref.clone(),
            result_kind: self.result_kind,
            surface_marker_ref: self.surface_marker_ref.clone(),
            recorded_at: self.recorded_at,
        }
    }
}

/// The stored result of the given kind.
pub open spec fn stored_result_of(
    stored_result_ref: IdentityStoredResultRef,
    operation_context_ref: IdentityOperationContextRef,
    result_kind: IdentityStoredResultKind,
    surface_marker_ref: IdentityStoredSurfaceMarkerRef,
    recorded_at: IdentityTimestamp,
) -> StoredIdentityOperationResult {
    StoredIdentityOperationResult { stored_result_ref, operation_context_ref, result_kind, surface_marker_ref, recorded_at }
}

impl StoredIdentityOperationResult {
    /// Creates a stored accepted command result.
    pub fn command_accepted(
        stored_result_ref: IdentityStoredResultRef,
        operation_context_ref: IdentityOperationContextRef,
        surface_marker_ref: IdentityStoredSurfaceMarkerRef,
        recorded_at: IdentityTimestamp,
    ) -> (r: Self)
        ensures
            r == stored_result_of(stored_result_ref, operation_context_ref, IdentityStoredResultKind::CommandAccepted, surface_marker_ref, recorded_at),
    {
        Self::new(stored_result_ref, operation_context_ref, IdentityStoredResultKind::CommandAccepted, surface_marker_ref, recorded_at)
    }

    /// Creates a stored rejected command result.
    pub fn command_rejected(
        stored_result_ref: IdentityStoredResultRef,
        operation_context_ref: IdentityOperationContextRef,
        surface_marker_ref: IdentityStoredSurfaceMarkerRef,
        recorded_at: IdentityTimestamp,
    ) -> (r: Self)
        ensures
            r == stored_result_of(stored_result_ref, operation_context_ref, IdentityStoredResultKind::CommandRejected, surface_marker_ref, recorded_at),
    {
        Self::new(stored_result_ref, operation_context_ref, IdentityStoredResultKind::CommandRejected, surface_marker_ref, recorded_at)
    }

    /// Creates a stored consumer receipt result.
    pub fn consumer_receipt(
        stored_result_ref: IdentityStoredResultRef,
        operation_context_ref: IdentityOperationContextRef,
        surface_marker_ref: IdentityStoredSurfaceMarkerRef,
        recorded_at: IdentityTimestamp,
    ) -> (r: Self)
        ensures
            r == stored_result_of(stored_result_ref, operation_context_ref, IdentityStoredResultKind::ConsumerReceipt, surface_marker_ref, recorded_at),
    {
        Self::new(stored_result_ref, operation_context_ref, IdentityStoredResultKind::ConsumerReceipt, surface_marker_ref, recorded_at)
    }

    /// Creates a stored job report result.
    pub fn job_report(
        stored_result_ref: IdentityStoredResultRef,
        operation_context_ref: IdentityOperationContextRef,
        surface_marker_ref: IdentityStoredSurfaceMarkerRef,
        recorded_at: IdentityTimestamp,
    ) -> (r: Self)
        ensures
            r == stored_result_of(stored_result_ref, operation_context_ref, IdentityStoredResultKind::JobReport, surface_marker_ref, recorded_at),
    {
        Self::new(stored_result_ref, operation_context_ref, IdentityStoredResultKind::JobReport, surface_marker_ref, recorded_at)
    }

    /// Creates a stored handoff callback receipt result.
    pub fn handoff_callback_receipt(
        stored_result_ref: IdentityStoredResultRef,
        operation_context_ref: IdentityOperationContextRef,
        surface_marker_ref: IdentityStoredSurfaceMarkerRef,
        recorded_at: IdentityTimestamp,
    ) -> (r: Self)
        ensures
            r == stored_result_of(stored_result_ref, operation_context_ref, IdentityStoredResultKind::HandoffCallbackReceipt, surface_marker_ref, recorded_at),
    {
        Self::new(stored_result_ref, operation_context_ref, IdentityStoredResultKind::HandoffCallbackReceipt, surface_marker_ref, recorded_at)
    }

    fn new(
        stored_result_ref: IdentityStoredResultRef,
        operation_context_ref: IdentityOperationContextRef,
        result_kind: IdentityStoredResultKind,
        surface_marker_ref: IdentityStoredSurfaceMarkerRef,
        recorded_at: IdentityTimestamp,
    ) -> (r: Self)
        ensures
            r == stored_result_of(stored_result_ref, operation_context_ref, result_kind, surface_marker_ref, recorded_at),
    {
        StoredIdentityOperationResult { stored_result_ref, operation_context_ref, result_kind, surface_marker_ref, recorded_at }
    }
}

/// Typed stored receipt envelope used as the duplicate replay source.
#[derive(Clone, Debug, Eq, PartialEq)]
pub struct IdentityConsumerReceiptEnvelope {
    /// Stable stored result identity.
    pub stored_result_ref: IdentityStoredResultRef,
    /// Operation context that produced the replayable receipt.
    pub operation_context_ref: IdentityOperationContextRef,
    /// Replayable stored result kind.
    pub result_kind: IdentityStoredResultKind,
    /// Body-free stored surface marker.
    pub surface_marker_ref: IdentityStoredSurfaceMarkerRef,
    /// Full public receipt shell returned during duplicate replay.
    pub receipt: IdentityConsumerReceipt,
    /// Timestamp when the receipt envelope was recorded.
    pub recorded_at: IdentityTimestamp,
}

impl IdentityConsumerReceiptEnvelope {
    /// Creates a stored consumer receipt envelope keyed by the receipt's own
    /// stored result.
    pub fn consumer_receipt(
        operation_context_ref: IdentityOperationContextRef,
        surface_marker_ref: IdentityStoredSurfaceMarkerRef,
        receipt: IdentityConsumerReceipt,
        recorded_at: IdentityTimestamp,
    ) -> (r: Self)
        ensures
            r == (IdentityConsumerReceiptEnvelope {
                stored_result_ref: receipt.stored_result_ref,
                operation_context_ref,
                result_kind: IdentityStoredResultKind::ConsumerReceipt,
                surface_marker_ref,
                receipt,
                recorded_at,
            }),
    {
        let stored_result_ref = receipt.stored_result_ref.clone();
        IdentityConsumerReceiptEnvelope {
            stored_result_ref,
            operation_context_ref,
            result_kind: IdentityStoredResultKind::ConsumerReceipt,
            surface_marker_ref,
            receipt,
            recorded_at,
        }
    }

    /// Creates a stored handoff callback receipt envelope keyed by the
    /// receipt's own stored result.
    pub fn handoff_callback_receipt(
        operation_context_ref: IdentityOperationContextRef,
        surface_marker_ref: IdentityStoredSurfaceMarkerRef,
        receipt: IdentityConsumerReceipt,
        recorded_at: IdentityTimestamp,
    ) -> (r: Self)
        ensures
            r == (IdentityConsumerReceiptEnvelope {
                stored_result_ref: receipt.stored_result_ref,
                operation_context_ref,
                result_kind: IdentityStoredResultKind::HandoffCallbackReceipt,
                surface_marker_ref,
                receipt,
                recorded_at,
            }),
    {
        let stored_result_ref = receipt.stored_result_ref.clone();
        IdentityConsumerReceiptEnvelope {
            stored_result_ref,
            operation_context_ref,
            result_kind: IdentityStoredResultKind::HandoffCallbackReceipt,
            surface_marker_ref,
            receipt,
            recorded_at,
        }
    }
}

/// Typed accepted command result carried by duplicate replay envelopes.
#[derive(Clone, Debug, Eq, PartialEq)]
pub enum IdentityCommandTypedResult {
    /// Accepted result of establishing a global member.
    GlobalMember(GlobalMemberCommandResult),
    /// Accepted result of a global lifecycle update.
    GlobalLifecycle(GlobalLifecycleCommandResult),
}

/// Typed stored accepted command envelope used as duplicate replay source.
#[derive(Clone, Debug, Eq, PartialEq)]
pub struct IdentityCommandAcceptedResultEnvelope {
    /// Stable stored result identity.
    pub stored_result_ref: IdentityStoredResultRef,
    /// Operation context that produced the replayable accepted response.
    pub operation_context_ref: IdentityOperationContextRef,
    /// Formal command name.
    pub command_name: IdentityCommandName,
    /// Body-free stored surface marker.
    pub surface_marker_ref: IdentityStoredSurfaceMarkerRef,
    /// Full typed accepted result body.
    pub result: IdentityCommandTypedResult,
    /// Full public accepted effect surface.
    pub effect: IdentityCommandEffectPublicSummary,
    /// Timestamp when the accepted envelope was recorded.
    pub recorded_at: IdentityTimestamp,
}

impl IdentityCommandAcceptedResultEnvelope {
    /// Creates a stored accepted command envelope holding exactly its arguments.
    pub fn new(
        stored_result_ref: IdentityStoredResultRef,
        operation_context_ref: IdentityOperationContextRef,
        command_name: IdentityCommandName,
        surface_marker_ref: IdentityStoredSurfaceMarkerRef,
        result: IdentityCommandTypedResult,
        effect: IdentityCommandEffectPublicSummary,
        recorded_at: IdentityTimestamp,
    ) -> (r: Self)
        ensures
            r == (IdentityCommandAcceptedResultEnvelope {
                stored_result_ref,
                operation_context_ref,
                command_name,
                surface_marker_ref,
                result,
                effect,
                recorded_at,
            }),
    {
        IdentityCommandAcceptedResultEnvelope {
            stored_result_ref,
            operation_context_ref,
            command_name,
            surface_marker_ref,
            result,
            effect,
            recorded_at,
        }
    }
}

/// Typed stored rejected command envelope used as duplicate replay source.
#[derive(Clone, Debug, Eq, PartialEq)]
pub struct IdentityCommandRejectedResultEnvelope {
    /// Stable stored result identity.
    pub stored_result_ref: IdentityStoredResultRef,
    /// Operation context that produced the replayable rejection.
    pub operation_context_ref: IdentityOperationContextRef,
    /// Formal command name.
    pub command_name: IdentityCommandName,
    /// Body-free stored surface marker.
    pub surface_marker_ref: IdentityStoredSurfaceMarkerRef,
    /// Full public rejection surface.
    pub rejection: IdentityProtocolRejection,
    /// Timestamp when the rejected envelope was recorded.
    pub recorded_at: IdentityTimestamp,
}

impl IdentityCommandRejectedResultEnvelope {
    /// Creates a stored rejected command envelope.
    pub fn new(
        stored_result_ref: IdentityStoredResultRef,
        operation_context_ref: IdentityOperationContextRef,
        command_name: IdentityCommandName,
        surface_marker_ref: IdentityStoredSurfaceMarkerRef,
        rejection: IdentityProtocolRejection,
        recorded_at: IdentityTimestamp,
    ) -> (r: Self)
        ensures
            r == (IdentityCommandRejectedResultEnvelope {
                stored_result_ref,
                operation_context_ref,
                command_name,
                surface_marker_ref,
                rejection,
                recorded_at,
            }),
    {
        IdentityCommandRejectedResultEnvelope { stored_result_ref, operation_context_ref, command_name, surface_marker_ref, rejection, recorded_at }
    }
}

/// Accepted command effect family shared by command result assembly and replay.
#[derive(Clone, Copy, Debug, Eq, PartialEq, Structural)]
pub enum IdentityAcceptedEffectKind {
    /// Member establishment accepted path.
    GlobalMemberCommandResult,
    /// Lifecycle update accepted path.
    GlobalLifecycleCommandResult,
    /// Role capability summary maintenance accepted path.
    RoleCapabilityCommandResult,
    /// Career append accepted path.
    CareerRecordCommandResult,
    /// Memory reference maintenance accepted path.
    MemoryReferenceCommandResult,
    /// Trace handoff preparation accepted path.
    TraceHandoffCommandResult,
}

/// Typed identity-owned ref sum type used by accepted effect summaries.
#[derive(Clone, Debug, Eq, PartialEq)]
pub enum IdentityTruthRef {
    /// Global member truth.
    GlobalMember(GlobalMemberRef),
    /// Role capability summary truth.
    RoleCapabilitySummary(RoleCapabilitySummaryRef),
    /// Role capability source snapshot truth.
    RoleCapabilitySourceSnapshot(RoleCapabilitySourceSnapshotRef),
    /// Career record truth.
    CareerRecord(CareerRecordRef),
    /// Memory reference truth.
    MemoryReference(MemoryReferenceRef),
    /// Trace handoff intent truth.
    TraceHandoffIntent(TraceHandoffIntentRef),
}

/// Application-local summary of an accepted command and its side effects.
#[derive(Clone, Debug, Eq, PartialEq)]
pub struct IdentityCommandEffectSummary {
    /// Stable effect summary identity.
    pub effect_summary_ref: IdentityCommandEffectSummaryRef,
    /// Source operation context reference.
    pub operation_context_ref: IdentityOperationContextRef,
    /// Accepted effect family.
    pub effect_kind: IdentityAcceptedEffectKind,
    /// Primary accepted truth or intent ref.
    pub primary_truth_ref: IdentityTruthRef,
    /// Accepted truth cursor assigned by the unit of work.
    pub accepted_cursor_ref: IdentityTruthCursor,
    /// Trace record refs appended by the accepted flow.
    pub trace_record_refs: Vec<IdentityTraceRecordRef>,
    /// Optional audit trail touched by the accepted flow.
    pub audit_trail_ref: Option<AuditTrailRef>,
    /// Outbox record refs created by the accepted flow.
    pub outbox_record_refs: Vec<IdentityOutboxRecordRef>,
    /// Projection refs marked stale by the accepted flow.
    pub stale_projection_refs: Vec<IdentityProjectionRef>,
    /// Stored result ref used for duplicate replay.
    pub stored_result_ref: IdentityStoredResultRef,
}

impl IdentityCommandEffectSummary {
    /// Creates a new accepted command effect summary.
    pub fn from_accepted_change(
        effect_summary_ref: IdentityCommandEffectSummaryRef,
        operation_context_ref: IdentityOperationContextRef,
        effect_kind: IdentityAcceptedEffectKind,
        primary_truth_ref: IdentityTruthRef,
        accepted_cursor_ref: IdentityTruthCursor,
        trace_record_refs: Vec<IdentityTraceRecordRef>,
        audit_trail_ref: Option<AuditTrailRef>,
        outbox_record_refs: Vec<IdentityOutboxRecordRef>,
        stale_projection_refs: Vec<IdentityProjectionRef>,
        stored_result_ref: IdentityStoredResultRef,
    ) -> (r: Self)
        ensures
            r == (IdentityCommandEffectSummary {
                effect_summary_ref,
                operation_context_ref,
                effect_kind,
                primary_truth_ref,
                accepted_cursor_ref,
                trace_record_refs,
                audit_trail_ref,
                outbox_record_refs,
                stale_projection_refs,
                stored_result_ref,
            }),
    {
        IdentityCommandEffectSummary {
            effect_summary_ref,
            operation_context_ref,
            effect_kind,
            primary_truth_ref,
            accepted_cursor_ref,
            trace_record_refs,
            audit_trail_ref,
            outbox_record_refs,
            stale_projection_refs,
            stored_result_ref,
        }
    }

    /// Returns whether the accepted flow carries at least one formal trace ref.
    pub fn requires_trace(&self) -> (r: bool)
        ensures
            r == (self.trace_record_refs@.len() > 0),
    {
        !self.trace_record_refs.is_empty()
    }

    /// Every accepted effect summary points to a stored replay surface.
    pub fn has_replay_surface(&self) -> (r: bool)
        ensures
            r,
    {
        true
    }

    /// Returns the affected stale projection refs without triggering rebuild.
    pub fn affected_projection_refs(&self) -> (r: &[IdentityProjectionRef])
        ensures
            r@ == self.stale_projection_refs@,
    {
        self.stale_projection_refs.as_slice()
    }
}

/// Stable query read disposition family.
#[derive(Clone, Copy, Debug, Eq, PartialEq, Structural)]
pub enum IdentityReadDispositionKind {
    /// Fully visible read result.
    Visible,
    /// Visible result with field redaction.
    Redacted,
    /// Not visible result.
    NotVisible,
    /// Degraded result due to dependency or freshness issues.
    Degraded,
    /// Visible result carrying stale material markers.
    StaleVisible,
}

/// Whether a read in this disposition may surface safe body-free material.
pub open spec fn disposition_allows_body(disposition: IdentityReadDispositionKind) -> bool {
    disposition == IdentityReadDispositionKind::Visible || disposition == IdentityReadDispositionKind::StaleVisible
}

/// Application-local query visibility decision.
#[derive(Debug, Eq, PartialEq)]
pub struct IdentityVisibilityDecision {
    /// Stable visibility decision ref.
    pub decision_ref: IdentityVisibilityDecisionRef,
    /// Formal read subject marker.
    pub read_subject_ref: IdentityReadSubjectRef,
    /// Visibility context marker copied from the query metadata.
    pub visibility_context_ref: VisibilityContextRef,
    /// Visibility scope marker.
    pub visibility_scope_ref: VisibilityScopeRef,
    /// Visibility result marker.
    pub visibility_result_ref: VisibilityResultRef,
    /// Public read surface kind.
    pub surface_kind: IdentityReadSurfaceKind,
    /// Read disposition family.
    pub disposition: IdentityReadDispositionKind,
    /// Optional redaction marker.
    pub redaction_marker_ref: Option<IdentityRedactionMarkerRef>,
    /// Optional degraded marker.
    pub degraded_marker_ref: Option<IdentityDegradedMarkerRef>,
    /// Timestamp when the visibility decision was assembled.
    pub decided_at: IdentityTimestamp,
}

impl Clone for IdentityVisibilityDecision {
    fn clone(&self) -> (r: Self)
        ensures
            r == *self,
    {
        IdentityVisibilityDecision {
            decision_ref: self.decision_ref.clone(),
            read_subject_ref: self.read_subject_ref.clone(),
            visibility_context_ref: self.visibility_context_ref.clone(),
            visibility_scope_ref: self.visibility_scope_ref.clone(),
            visibility_result_ref: self.visibility_result_ref.clone(),
            surface_kind: self.surface_kind,
            disposition: self.disposition,
            redaction_marker_ref: self.redaction_marker_ref.clone(),
            degraded_marker_ref: self.degraded_marker_ref.clone(),
            decided_at: self.decided_at,
        }
    }
}

/// The decision with the given disposition and markers.
pub open spec fn decision_of(
    decision_ref: IdentityVisibilityDecisionRef,
    read_subject_ref: IdentityReadSubjectRef,
    visibility_context_ref: VisibilityContextRef,
    visibility_scope_ref: VisibilityScopeRef,
    visibility_result_ref: VisibilityResultRef,
    surface_kind: IdentityReadSurfaceKind,
    disposition: IdentityReadDispositionKind,
    redaction_marker_ref: Option<IdentityRedactionMarkerRef>,
    degraded_marker_ref: Option<IdentityDegradedMarkerRef>,
    decided_at: IdentityTimestamp,
) -> IdentityVisibilityDecision {
    IdentityVisibilityDecision {
        decision_ref,
        read_subject_ref,
        visibility_context_ref,
        visibility_scope_ref,
        visibility_result_ref,
        surface_kind,
        disposition,
        redaction_marker_ref,
        degraded_marker_ref,
        decided_at,
    }
}

impl IdentityVisibilityDecision {
    /// Creates a fully visible read decision.
    pub fn visible(
        decision_ref: IdentityVisibilityDecisionRef,
        read_subject_ref: IdentityReadSubjectRef,
        visibility_context_ref: VisibilityContextRef,
        visibility_scope_ref: VisibilityScopeRef,
        visibility_result_ref: VisibilityResultRef,
        surface_kind: IdentityReadSurfaceKind,
        decided_at: IdentityTimestamp,
    ) -> (r: Self)
        ensures
            r == decision_of(
                decision_ref, read_subject_ref, visibility_context_ref, visibility_scope_ref, visibility_result_ref,
                surface_kind, IdentityReadDispositionKind::Visible, None, None, decided_at,
            ),
    {
        IdentityVisibilityDecision {
            decision_ref,
            read_subject_ref,
            visibility_context_ref,
            visibility_scope_ref,
            visibility_result_ref,
            surface_kind,
            disposition: IdentityReadDispositionKind::Visible,
            redaction_marker_ref: None,
            degraded_marker_ref: None,
            decided_at,
        }
    }

    /// Creates a redacted read decision.
    pub fn redacted(
        decision_ref: IdentityVisibilityDecisionRef,
        read_subject_ref: IdentityReadSubjectRef,
        visibility_context_ref: VisibilityContextRef,
        visibility_scope_ref: VisibilityScopeRef,
        visibility_result_ref: VisibilityResultRef,
        surface_kind: IdentityReadSurfaceKind,
        redaction_marker_ref: IdentityRedactionMarkerRef,
        decided_at: IdentityTimestamp,
    ) -> (r: Self)
        ensures
            r == decision_of(
                decision_ref, read_subject_ref, visibility_context_ref, visibility_scope_ref, visibility_result_ref,
                surface_kind, IdentityReadDispositionKind::Redacted, Some(redaction_marker_ref), None, decided_at,
            ),
    {
        IdentityVisibilityDecision {
            decision_ref,
            read_subject_ref,
            visibility_context_ref,
            visibility_scope_ref,
            visibility_result_ref,
            surface_kind,
            disposition: IdentityReadDispositionKind::Redacted,
            redaction_marker_ref: Some(redaction_marker_ref),
            degraded_marker_ref: None,
            decided_at,
        }
    }

    /// Creates a not-visible read decision.
    pub fn not_visible(
        decision_ref: IdentityVisibilityDecisionRef,
        read_subject_ref: IdentityReadSubjectRef,
        visibility_context_ref: VisibilityContextRef,
        visibility_scope_ref: VisibilityScopeRef,
        visibility_result_ref: VisibilityResultRef,
        surface_kind: IdentityReadSurfaceKind,
        redaction_marker_ref: Option<IdentityRedactionMarkerRef>,
        decided_at: IdentityTimestamp,
    ) -> (r: Self)
        ensures
            r == decision_of(
                decision_ref, read_subject_ref, visibility_context_ref, visibility_scope_ref, visibility_result_ref,
                surface_kind, IdentityReadDispositionKind::NotVisible, redaction_marker_ref, None, decided_at,
            ),
    {
        IdentityVisibilityDecision {
            decision_ref,
            read_subject_ref,
            visibility_context_ref,
            visibility_scope_ref,
            visibility_result_ref,
            surface_kind,
            disposition: IdentityReadDispositionKind::NotVisible,
            redaction_marker_ref,
            degraded_marker_ref: None,
            decided_at,
        }
    }

    /// Creates a degraded read decision.
    pub fn degraded(
        decision_ref: IdentityVisibilityDecisionRef,
        read_subject_ref: IdentityReadSubjectRef,
        visibility_context_ref: VisibilityContextRef,
        visibility_scope_ref: VisibilityScopeRef,
        visibility_result_ref: VisibilityResultRef,
        surface_kind: IdentityReadSurfaceKind,
        degraded_marker_ref: IdentityDegradedMarkerRef,
        decided_at: IdentityTimestamp,
    ) -> (r: Self)
        ensures
            r == decision_of(
                decision_ref, read_subject_ref, visibility_context_ref, visibility_scope_ref, visibility_result_ref,
                surface_kind, IdentityReadDispositionKind::Degraded, None, Some(degraded_marker_ref), decided_at,
            ),
    {
        IdentityVisibilityDecision {
            decision_ref,
            read_subject_ref,
            visibility_context_ref,
            visibility_scope_ref,
            visibility_result_ref,
            surface_kind,
            disposition: IdentityReadDispositionKind::Degraded,
            redaction_marker_ref: None,
            degraded_marker_ref: Some(degraded_marker_ref),
            decided_at,
        }
    }

    /// Creates a stale-visible read decision.
    pub fn stale_visible(
        decision_ref: IdentityVisibilityDecisionRef,
        read_subject_ref: IdentityReadSubjectRef,
        visibility_context_ref: VisibilityContextRef,
        visibility_scope_ref: VisibilityScopeRef,
        visibility_result_ref: VisibilityResultRef,
        surface_kind: IdentityReadSurfaceKind,
        degraded_marker_ref: IdentityDegradedMarkerRef,
        decided_at: IdentityTimestamp,
    ) -> (r: Self)
        ensures
            r == decision_of(
                decision_ref, read_subject_ref, visibility_context_ref, visibility_scope_ref, visibility_result_ref,
                surface_kind, IdentityReadDispositionKind::StaleVisible, None, Some(degraded_marker_ref), decided_at,
            ),
    {
        IdentityVisibilityDecision {
            decision_ref,
            read_subject_ref,
            visibility_context_ref,
            visibility_scope_ref,
            visibility_result_ref,
            surface_kind,
            disposition: IdentityReadDispositionKind::StaleVisible,
            redaction_marker_ref: None,
            degraded_marker_ref: Some(degraded_marker_ref),
            decided_at,
        }
    }

    /// Returns whether a safe body-free result body may be surfaced.
    pub fn allows_body_material(&self) -> (r: bool)
        ensures
            r == disposition_allows_body(self.disposition),
    {
        matches!(self.disposition, IdentityReadDispositionKind::Visible | IdentityReadDispositionKind::StaleVisible)
    }

    /// Converts the safe degraded marker into the public degraded shell, which
    /// reports an unavailable dependency; no marker gives no shell.
    pub fn degraded_marker(&self) -> (r: Option<IdentityDegradedMarker>)
        ensures
            r == (match self.degraded_marker_ref {
                Some(m) => Some(IdentityDegradedMarker { degraded_marker_ref: m, degraded_kind: IdentityDegradedKind::DependencyUnavailable }),
                None => None::<IdentityDegradedMarker>,
            }),
    {
        match &self.degraded_marker_ref {
            Some(degraded_marker_ref) => Some(IdentityDegradedMarker {
                degraded_marker_ref: degraded_marker_ref.clone(),
                degraded_kind: IdentityDegradedKind::DependencyUnavailable,
            }),
            None => None,
        }
    }

    /// Converts the safe visibility markers into the public visibility shell.
    pub fn visibility_marker(&self) -> (r: IdentityVisibilityMarker)
        ensures
            r == (IdentityVisibilityMarker {
                visibility_result_ref: self.visibility_result_ref,
                read_surface_kind: self.surface_kind,
                redaction_marker_ref: self.redaction_marker_ref,
            }),
    {
        IdentityVisibilityMarker {
            visibility_result_ref: self.visibility_result_ref.clone(),
            read_surface_kind: self.surface_kind,
            redaction_marker_ref: self.redaction_marker_ref.clone(),
        }
    }
}

/// Law: a redacted, not-visible, or degraded decision never surfaces body
/// material; only visible and stale-visible decisions do.
pub proof fn lemma_decision_body_gate(disposition: IdentityReadDispositionKind)
    ensures
        disposition == IdentityReadDispositionKind::Redacted ==> !disposition_allows_body(disposition),
        disposition == IdentityReadDispositionKind::NotVisible ==> !disposition_allows_body(disposition),
        disposition == IdentityReadDispositionKind::Degraded ==> !disposition_allows_body(disposition),
        disposition_allows_body(disposition) <==> (disposition == IdentityReadDispositionKind::Visible || disposition == IdentityReadDispositionKind::StaleVisible),
{
}

/// Application-local job report assembly object.
#[derive(Clone, Debug, Eq, PartialEq)]
pub struct IdentityJobRunReport {
    /// Public report reference.
    pub report_ref: IdentityJobReportRef,
    /// Stable job run reference.
    pub job_run_ref: IdentityJobRunRef,
    /// Stable public job name.
    pub job_name: IdentityJobName,
    /// Body-free job scope marker.
    pub job_scope_ref: IdentityJobScopeMarkerRef,
    /// Optional input cursor marker.
    pub input_cursor_ref: Option<IdentityJobCursorRef>,
    /// Optional output cursor marker.
    pub output_cursor_ref: Option<IdentityJobCursorRef>,
    /// Stable public job result kind.
    pub result_kind: IdentityJobResultKind,
    /// Affected member refs.
    pub affected_member_refs: Vec<GlobalMemberRef>,
    /// Affected projection refs.
    pub affected_projection_refs: Vec<IdentityProjectionRef>,
    /// Rebuilt projection refs.
    pub rebuilt_projection_refs: Vec<IdentityProjectionRef>,
    /// Failed projection refs.
    pub failed_projection_refs: Vec<IdentityProjectionRef>,
    /// Refreshed external reference refs.
    pub refreshed_reference_refs: Vec<ExternalReferenceRef>,
    /// Failed external reference refs.
    pub failed_reference_refs: Vec<ExternalReferenceRef>,
    /// Inspected maintenance target refs.
    pub inspected_target_refs: Vec<IdentityMaintenanceTargetRef>,
    /// Generated reconciliation report refs.
    pub report_refs: Vec<ReconciliationReportRef>,
    /// Touched outbox record refs.
    pub outbox_record_refs: Vec<IdentityOutboxRecordRef>,
    /// Successfully published outbox refs.
    pub published_outbox_refs: Vec<IdentityOutboxRecordRef>,
    /// Failed outbox refs.
    pub failed_outbox_refs: Vec<IdentityOutboxRecordRef>,
    /// Touched handoff intent refs.
    pub handoff_intent_refs: Vec<TraceHandoffIntentRef>,
    /// Delivered handoff intent refs.
    pub delivered_handoff_refs: Vec<TraceHandoffIntentRef>,
    /// Failed handoff intent refs.
    pub failed_handoff_refs: Vec<TraceHandoffIntentRef>,
    /// Formal handoff receipt refs.
    pub handoff_receipt_refs: Vec<HandoffReceiptRef>,
    /// Safe maintenance issue refs.
    pub issue_refs: Vec<MaintenanceIssueRef>,
    /// Optional stored result ref used for duplicate replay.
    pub stored_result_ref: Option<IdentityStoredResultRef>,
    /// Job start timestamp.
    pub started_at: IdentityTimestamp,
    /// Optional finish timestamp.
    pub finished_at: Option<IdentityTimestamp>,
}

/// Whether every list of a job report is empty.
pub open spec fn job_report_lists_empty(r: IdentityJobRunReport) -> bool {
    &&& r.affected_member_refs@.len() == 0
    &&& r.affected_projection_refs@.len() == 0
    &&& r.rebuilt_projection_refs@.len() == 0
    &&& r.failed_projection_refs@.len() == 0
    &&& r.refreshed_reference_refs@.len() == 0
    &&& r.failed_reference_refs@.len() == 0
    &&& r.inspected_target_refs@.len() == 0
    &&& r.report_refs@.len() == 0
    &&& r.outbox_record_refs@.len() == 0
    &&& r.published_outbox_refs@.len() == 0
    &&& r.failed_outbox_refs@.len() == 0
    &&& r.handoff_intent_refs@.len() == 0
    &&& r.delivered_handoff_refs@.len() == 0
    &&& r.failed_handoff_refs@.len() == 0
    &&& r.handoff_receipt_refs@.len() == 0
    &&& r.issue_refs@.len() == 0
}

impl IdentityJobRunReport {
    /// Creates the initial report object for a job run: a no-op result with
    /// no output cursor, no stored result, no finish time, and empty lists.
    pub fn start(
        report_ref: IdentityJobReportRef,
        job_run_ref: IdentityJobRunRef,
        job_name: IdentityJobName,
        job_scope_ref: IdentityJobScopeMarkerRef,
        input_cursor_ref: Option<IdentityJobCursorRef>,
        started_at: IdentityTimestamp,
    ) -> (r: Self)
        ensures
            r.report_ref == report_ref,
            r.job_run_ref == job_run_ref,
            r.job_name == job_name,
            r.job_scope_ref == job_scope_ref,
            r.input_cursor_ref == input_cursor_ref,
            r.output_cursor_ref is None,
            r.result_kind == IdentityJobResultKind::Noop,
            job_report_lists_empty(r),
            r.stored_result_ref is None,
            r.started_at == started_at,
            r.finished_at is None,
    {
        IdentityJobRunReport {
            report_ref,
            job_run_ref,
            job_name,
            job_scope_ref,
            input_cursor_ref,
            output_cursor_ref: None,
            result_kind: IdentityJobResultKind::Noop,
            affected_member_refs: Vec::new(),
            affected_projection_refs: Vec::new(),
            rebuilt_projection_refs: Vec::new(),
            failed_projection_refs: Vec::new(),
            refreshed_reference_refs: Vec::new(),
            failed_reference_refs: Vec::new(),
            inspected_target_refs: Vec::new(),
            report_refs: Vec::new(),
            outbox_record_refs: Vec::new(),
            published_outbox_refs: Vec::new(),
            failed_outbox_refs: Vec::new(),
            handoff_intent_refs: Vec::new(),
            delivered_handoff_refs: Vec::new(),
            failed_handoff_refs: Vec::new(),
            handoff_receipt_refs: Vec::new(),
            issue_refs: Vec::new(),
            stored_result_ref: None,
            started_at,
            finished_at: None,
        }
    }

    /// Marks the report as succeeded.
    pub fn succeed(
        self,
        output_cursor_ref: Option<IdentityJobCursorRef>,
        stored_result_ref: Option<IdentityStoredResultRef>,
        finished_at: IdentityTimestamp,
    ) -> (r: Self)
        ensures
            r == (IdentityJobRunReport {
                result_kind: IdentityJobResultKind::Succeeded,
                output_cursor_ref,
                stored_result_ref,
                finished_at: Some(finished_at),
                ..self
            }),
    {
        let mut report = self;
        report.result_kind = IdentityJobResultKind::Succeeded;
        report.output_cursor_ref = output_cursor_ref;
        report.stored_result_ref = stored_result_ref;
        report.finished_at = Some(finished_at);
        report
    }

    /// Marks the report as partial, replacing its issues.
    pub fn partial(
        self,
        issue_refs: Vec<MaintenanceIssueRef>,
        output_cursor_ref: Option<IdentityJobCursorRef>,
        stored_result_ref: Option<IdentityStoredResultRef>,
        finished_at: IdentityTimestamp,
    ) -> (r: Self)
        ensures
            r == (IdentityJobRunReport {
                result_kind: IdentityJobResultKind::Partial,
                issue_refs,
                output_cursor_ref,
                stored_result_ref,
                finished_at: Some(finished_at),
                ..self
            }),
    {
        let mut report = self;
        report.result_kind = IdentityJobResultKind::Partial;
        report.issue_refs = issue_refs;
        report.output_cursor_ref = output_cursor_ref;
        report.stored_result_ref = stored_result_ref;
        report.finished_at = Some(finished_at);
        report
    }

    /// Marks the report as failed, replacing its issues.
    pub fn fail(self, issue_refs: Vec<MaintenanceIssueRef>, finished_at: IdentityTimestamp) -> (r: Self)
        ensures
            r == (IdentityJobRunReport {
                result_kind: IdentityJobResultKind::Failed,
                issue_refs,
                finished_at: Some(finished_at),
                ..self
            }),
    {
        let mut report = self;
        report.result_kind = IdentityJobResultKind::Failed;
        report.issue_refs = issue_refs;
        report.finished_at = Some(finished_at);
        report
    }

    /// Marks the report as retryably failed, replacing its issues.
    pub fn retryable_fail(self, issue_refs: Vec<MaintenanceIssueRef>, finished_at: IdentityTimestamp) -> (r: Self)
        ensures
            r == (IdentityJobRunReport {
                result_kind: IdentityJobResultKind::RetryableFailed,
                issue_refs,
                finished_at: Some(finished_at),
                ..self
            }),
    {
        let mut report = self;
        report.result_kind = IdentityJobResultKind::RetryableFailed;
        report.issue_refs = issue_refs;
        report.finished_at = Some(finished_at);
        report
    }

    /// Marks the report as noop.
    pub fn noop(
        self,
        output_cursor_ref: Option<IdentityJobCursorRef>,
        stored_result_ref: Option<IdentityStoredResultRef>,
        finished_at: IdentityTimestamp,
    ) -> (r: Self)
        ensures
            r == (IdentityJobRunReport {
                result_kind: IdentityJobResultKind::Noop,
                output_cursor_ref,
                stored_result_ref,
                finished_at: Some(finished_at),
                ..self
            }),
    {
        let mut report = self;
        report.result_kind = IdentityJobResultKind::Noop;
        report.output_cursor_ref = output_cursor_ref;
        report.stored_result_ref = stored_result_ref;
        report.finished_at = Some(finished_at);
        report
    }
}

/// Validation state of a body-free runtime config shell.
#[derive(Clone, Copy, Debug, Eq, PartialEq, Structural)]
pub enum IdentityConfigValidationStateKind {
    /// Config has been validated and is ready for assembly.
    Validated,
    /// Config is degraded but may still assemble in a controlled mode.
    Degraded,
    /// Config is invalid and must not assemble.
    Invalid,
}

/// Validated runtime config shell used by runtime assembly.
#[derive(Debug, Eq, PartialEq)]
pub struct IdentityRuntimeConfigShell {
    /// Formal runtime profile marker.
    pub profile_ref: IdentityRuntimeProfileRef,
    /// Body-free config evidence marker.
    pub config_evidence_ref: IdentityConfigEvidenceRef,
    /// Configured adapter modes.
    pub adapter_mode_refs: Vec<IdentityAdapterModeRef>,
    /// Optional API binding catalog marker.
    pub api_binding_ref: Option<IdentityApiRouteCatalogRef>,
    /// Optional worker binding catalog marker.
    pub worker_binding_ref: Option<IdentityConsumerBindingCatalogRef>,
    /// Optional job binding catalog marker.
    pub job_binding_ref: Option<IdentityJobCatalogRef>,
    /// Safe config issue refs.
    pub issue_refs: Vec<IdentityConfigIssueRef>,
    /// Validation state.
    pub validation_state: IdentityConfigValidationStateKind,
}

impl Clone for IdentityRuntimeConfigShell {
    fn clone(&self) -> (r: Self)
        ensures
            r.profile_ref == self.profile_ref,
            r.config_evidence_ref == self.config_evidence_ref,
            r.adapter_mode_refs@ == self.adapter_mode_refs@,
            r.api_binding_ref == self.api_binding_ref,
            r.worker_binding_ref == self.worker_binding_ref,
            r.job_binding_ref == self.job_binding_ref,
            r.issue_refs@ == self.issue_refs@,
            r.validation_state == self.validation_state,
    {
        let adapter_mode_refs = self.adapter_mode_refs.clone();
        proof {
            assert(adapter_mode_refs@ =~= self.adapter_mode_refs@);
        }
        let issue_refs = self.issue_refs.clone();
        proof {
            assert(issue_refs@ =~= self.issue_refs@);
        }
        IdentityRuntimeConfigShell {
            profile_ref: self.profile_ref.clone(),
            config_evidence_ref: self.config_evidence_ref.clone(),
            adapter_mode_refs,
            api_binding_ref: self.api_binding_ref.clone(),
            worker_binding_ref: self.worker_binding_ref.clone(),
            job_binding_ref: self.job_binding_ref.clone(),
            issue_refs,
            validation_state: self.validation_state,
        }
    }
}

/// Whether a config shell lets an entry surface be wired: the shell must not
/// be invalid and must carry the surface's binding catalog.
pub open spec fn shell_allows_entry(shell: IdentityRuntimeConfigShell, surface_kind: IdentityEntrySurfaceKind) -> bool {
    &&& shell.validation_state != IdentityConfigValidationStateKind::Invalid
    &&& match surface_kind {
        IdentityEntrySurfaceKind::ApiCommand => shell.api_binding_ref is Some,
        IdentityEntrySurfaceKind::ApiQuery => shell.api_binding_ref is Some,
        IdentityEntrySurfaceKind::WorkerConsumer => shell.worker_binding_ref is Some,
        IdentityEntrySurfaceKind::WorkerCallback => shell.worker_binding_ref is Some,
        IdentityEntrySurfaceKind::OperationsJob => shell.job_binding_ref is Some,
    }
}

impl IdentityRuntimeConfigShell {
    /// Creates a validated config shell with no issues.
    pub fn validated(
        profile_ref: IdentityRuntimeProfileRef,
        config_evidence_ref: IdentityConfigEvidenceRef,
        adapter_mode_refs: Vec<IdentityAdapterModeRef>,
        api_binding_ref: Option<IdentityApiRouteCatalogRef>,
        worker_binding_ref: Option<IdentityConsumerBindingCatalogRef>,
        job_binding_ref: Option<IdentityJobCatalogRef>,
    ) -> (r: Self)
        ensures
            r.profile_ref == profile_ref,
            r.config_evidence_ref == config_evidence_ref,
            r.adapter_mode_refs == adapter_mode_refs,
            r.api_binding_ref == api_binding_ref,
            r.worker_binding_ref == worker_binding_ref,
            r.job_binding_ref == job_binding_ref,
            r.issue_refs@.len() == 0,
            r.validation_state == IdentityConfigValidationStateKind::Validated,
    {
        IdentityRuntimeConfigShell {
            profile_ref,
            config_evidence_ref,
            adapter_mode_refs,
            api_binding_ref,
            worker_binding_ref,
            job_binding_ref,
            issue_refs: Vec::new(),
            validation_state: IdentityConfigValidationStateKind::Validated,
        }
    }

    /// Creates a degraded config shell.
    pub fn degraded(
        profile_ref: IdentityRuntimeProfileRef,
        config_evidence_ref: IdentityConfigEvidenceRef,
        adapter_mode_refs: Vec<IdentityAdapterModeRef>,
        api_binding_ref: Option<IdentityApiRouteCatalogRef>,
        worker_binding_ref: Option<IdentityConsumerBindingCatalogRef>,
        job_binding_ref: Option<IdentityJobCatalogRef>,
        issue_refs: Vec<IdentityConfigIssueRef>,
    ) -> (r: Self)
        ensures
            r == (IdentityRuntimeConfigShell {
                profile_ref,
                config_evidence_ref,
                adapter_mode_refs,
                api_binding_ref,
                worker_binding_ref,
                job_binding_ref,
                issue_refs,
                validation_state: IdentityConfigValidationStateKind::Degraded,
            }),
    {
        IdentityRuntimeConfigShell {
            profile_ref,
            config_evidence_ref,
            adapter_mode_refs,
            api_binding_ref,
            worker_binding_ref,
            job_binding_ref,
            issue_refs,
            validation_state: IdentityConfigValidationStateKind::Degraded,
        }
    }

    /// Creates an invalid config shell with no adapters and no bindings.
    pub fn invalid(
        profile_ref: IdentityRuntimeProfileRef,
        config_evidence_ref: IdentityConfigEvidenceRef,
        issue_refs: Vec<IdentityConfigIssueRef>,
    ) -> (r: Self)
        ensures
            r.profile_ref == profile_ref,
            r.config_evidence_ref == config_evidence_ref,
            r.adapter_mode_refs@.len() == 0,
            r.api_binding_ref is None,
            r.worker_binding_ref is None,
            r.job_binding_ref is None,
            r.issue_refs == issue_refs,
            r.validation_state == IdentityConfigValidationStateKind::Invalid,
    {
        IdentityRuntimeConfigShell {
            profile_ref,
            config_evidence_ref,
            adapter_mode_refs: Vec::new(),
            api_binding_ref: None,
            worker_binding_ref: None,
            job_binding_ref: None,
            issue_refs,
            validation_state: IdentityConfigValidationStateKind::Invalid,
        }
    }

    /// Returns whether the shell allows the given entry surface to be wired.
    pub fn allows_entry(&self, surface_kind: IdentityEntrySurfaceKind) -> (r: bool)
        ensures
            r == shell_allows_entry(*self, surface_kind),
    {
        if self.validation_state == IdentityConfigValidationStateKind::Invalid {
            return false;
        }
        match surface_kind {
            IdentityEntrySurfaceKind::ApiCommand | IdentityEntrySurfaceKind::ApiQuery => self.api_binding_ref.is_some(),
            IdentityEntrySurfaceKind::WorkerConsumer | IdentityEntrySurfaceKind::WorkerCallback => self.worker_binding_ref.is_some(),
            IdentityEntrySurfaceKind::OperationsJob => self.job_binding_ref.is_some(),
        }
    }
}

/// Runtime assembly state kind for entry readiness and runtime wiring.
#[derive(Clone, Copy, Debug, Eq, PartialEq, Structural)]
pub enum IdentityRuntimeAssemblyStateKind {
    /// Runtime has not started assembly.
    NotStarted,
    /// Config has been validated but ports are not wired yet.
    ConfigValidated,
    /// Runtime is assembled and ready for dispatch.
    Assembled,
    /// Runtime is assembled but degraded.
    Degraded,
    /// Runtime assembly failed.
    Failed,
}

/// Body-free runtime assembly state.
#[derive(Clone, Debug, Eq, PartialEq)]
pub struct IdentityRuntimeAssemblyState {
    /// Stable runtime assembly ref.
    pub assembly_ref: IdentityRuntimeAssemblyRef,
    /// Runtime profile marker.
    pub profile_ref: IdentityRuntimeProfileRef,
    /// Assembly lifecycle state.
    pub state_kind: IdentityRuntimeAssemblyStateKind,
    /// Adapter refs checked during assembly.
    pub adapter_availability_refs: Vec<IdentityAdapterRef>,
    /// Safe issue refs.
    pub issue_refs: Vec<IdentityConfigIssueRef>,
    /// Optional assembly timestamp.
    pub assembled_at: Option<IdentityTimestamp>,
}

/// Whether a runtime in this assembly state may dispatch entries.
pub open spec fn assembly_can_dispatch(kind: IdentityRuntimeAssemblyStateKind) -> bool {
    kind == IdentityRuntimeAssemblyStateKind::Assembled || kind == IdentityRuntimeAssemblyStateKind::Degraded
}

impl IdentityRuntimeAssemblyState {
    /// Creates a not-started runtime state.
    pub fn not_started(assembly_ref: IdentityRuntimeAssemblyRef, profile_ref: IdentityRuntimeProfileRef) -> (r: Self)
        ensures
            r.assembly_ref == assembly_ref,
            r.profile_ref == profile_ref,
            r.state_kind == IdentityRuntimeAssemblyStateKind::NotStarted,
            r.adapter_availability_refs@.len() == 0,
            r.issue_refs@.len() == 0,
            r.assembled_at is None,
    {
        IdentityRuntimeAssemblyState {
            assembly_ref,
            profile_ref,
            state_kind: IdentityRuntimeAssemblyStateKind::NotStarted,
            adapter_availability_refs: Vec::new(),
            issue_refs: Vec::new(),
            assembled_at: None,
        }
    }

    /// Creates a config-validated runtime state carrying the shell's profile and
    /// issues.
    pub fn config_validated(assembly_ref: IdentityRuntimeAssemblyRef, config_shell: &IdentityRuntimeConfigShell) -> (r: Self)
        ensures
            r.assembly_ref == assembly_ref,
            r.profile_ref == config_shell.profile_ref,
            r.state_kind == IdentityRuntimeAssemblyStateKind::ConfigValidated,
            r.adapter_availability_refs@.len() == 0,
            r.issue_refs@ == config_shell.issue_refs@,
            r.assembled_at is None,
    {
        let issue_refs = config_shell.issue_refs.clone();
        proof {
            assert(issue_refs@ =~= config_shell.issue_refs@);
        }
        IdentityRuntimeAssemblyState {
            assembly_ref,
            profile_ref: config_shell.profile_ref.clone(),
            state_kind: IdentityRuntimeAssemblyStateKind::ConfigValidated,
            adapter_availability_refs: Vec::new(),
            issue_refs,
            assembled_at: None,
        }
    }

    /// Creates an assembled runtime state with no issues.
    pub fn assembled(
        assembly_ref: IdentityRuntimeAssemblyRef,
        config_shell: &IdentityRuntimeConfigShell,
        adapter_refs: Vec<IdentityAdapterRef>,
        assembled_at: IdentityTimestamp,
    ) -> (r: Self)
        ensures
            r.assembly_ref == assembly_ref,
            r.profile_ref == config_shell.profile_ref,
            r.state_kind == IdentityRuntimeAssemblyStateKind::Assembled,
            r.adapter_availability_refs == adapter_refs,
            r.issue_refs@.len() == 0,
            r.assembled_at == Some(assembled_at),
    {
        IdentityRuntimeAssemblyState {
            assembly_ref,
            profile_ref: config_shell.profile_ref.clone(),
            state_kind: IdentityRuntimeAssemblyStateKind::Assembled,
            adapter_availability_refs: adapter_refs,
            issue_refs: Vec::new(),
            assembled_at: Some(assembled_at),
        }
    }

    /// Creates a degraded runtime state.
    pub fn degraded(
        assembly_ref: IdentityRuntimeAssemblyRef,
        config_shell: &IdentityRuntimeConfigShell,
        adapter_refs: Vec<IdentityAdapterRef>,
        issue_refs: Vec<IdentityConfigIssueRef>,
        assembled_at: IdentityTimestamp,
    ) -> (r: Self)
        ensures
            r == (IdentityRuntimeAssemblyState {
                assembly_ref,
                profile_ref: config_shell.profile_ref,
                state_kind: IdentityRuntimeAssemblyStateKind::Degraded,
                adapter_availability_refs: adapter_refs,
                issue_refs,
                assembled_at: Some(assembled_at),
            }),
    {
        IdentityRuntimeAssemblyState {
            assembly_ref,
            profile_ref: config_shell.profile_ref.clone(),
            state_kind: IdentityRuntimeAssemblyStateKind::Degraded,
            adapter_availability_refs: adapter_refs,
            issue_refs,
            assembled_at: Some(assembled_at),
        }
    }

    /// Creates a failed runtime state with no adapters.
    pub fn failed(
        assembly_ref: IdentityRuntimeAssemblyRef,
        config_shell: &IdentityRuntimeConfigShell,
        issue_refs: Vec<IdentityConfigIssueRef>,
    ) -> (r: Self)
        ensures
            r.assembly_ref == assembly_ref,
            r.profile_ref == config_shell.profile_ref,
            r.state_kind == IdentityRuntimeAssemblyStateKind::Failed,
            r.adapter_availability_refs@.len() == 0,
            r.issue_refs == issue_refs,
            r.assembled_at is None,
    {
        IdentityRuntimeAssemblyState {
            assembly_ref,
            profile_ref: config_shell.profile_ref.clone(),
            state_kind: IdentityRuntimeAssemblyStateKind::Failed,
            adapter_availability_refs: Vec::new(),
            issue_refs,
            assembled_at: None,
        }
    }

    /// Returns whether the runtime may attempt dispatch for an entry surface;
    /// the surface does not matter, only the assembly state.
    pub fn can_dispatch(&self, _surface_kind: IdentityEntrySurfaceKind) -> (r: bool)
        ensures
            r == assembly_can_dispatch(self.state_kind),
    {
        matches!(self.state_kind, IdentityRuntimeAssemblyStateKind::Assembled | IdentityRuntimeAssemblyStateKind::Degraded)
    }
}

/// Adapter availability kind for runtime assembly and controlled wiring.
#[derive(Clone, Copy, Debug, Eq, PartialEq, Structural)]
pub enum IdentityAdapterAvailabilityKind {
    /// Adapter is available.
    Available,
    /// Adapter is degraded but still visible to callers.
    Degraded,
    /// Adapter is unavailable.
    Unavailable,
    /// Adapter is disabled by configuration.
    Disabled,
}

/// Body-free adapter availability snapshot.
#[derive(Debug, Eq, PartialEq)]
pub struct IdentityAdapterAvailability {
    /// Adapter identity marker.
    pub adapter_ref: IdentityAdapterRef,
    /// Adapter mode marker.
    pub adapter_mode_ref: IdentityAdapterModeRef,
    /// Availability kind.
    pub availability_kind: IdentityAdapterAvailabilityKind,
    /// Optional availability issue marker.
    pub issue_ref: Option<IdentityAdapterAvailabilityIssueRef>,
    /// Availability check timestamp.
    pub checked_at: IdentityTimestamp,
}

impl Clone for IdentityAdapterAvailability {
    fn clone(&self) -> (r: Self)
        ensures
            r == *self,
    {
        IdentityAdapterAvailability {
            adapter_ref: self.adapter_ref.clone(),
            adapter_mode_ref: self.adapter_mode_ref.clone(),
            availability_kind: self.availability_kind,
            issue_ref: self.issue_ref.clone(),
            checked_at: self.checked_at,
        }
    }
}

/// Whether the runtime may attempt an adapter in this availability.
pub open spec fn adapter_attemptable(kind: IdentityAdapterAvailabilityKind) -> bool {
    kind == IdentityAdapterAvailabilityKind::Available || kind == IdentityAdapterAvailabilityKind::Degraded
}

impl IdentityAdapterAvailability {
    /// Creates an available adapter snapshot.
    pub fn available(adapter_ref: IdentityAdapterRef, adapter_mode_ref: IdentityAdapterModeRef, checked_at: IdentityTimestamp) -> (r: Self)
        ensures
            r == (IdentityAdapterAvailability {
                adapter_ref,
                adapter_mode_ref,
                availability_kind: IdentityAdapterAvailabilityKind::Available,
                issue_ref: None,
                checked_at,
            }),
    {
        IdentityAdapterAvailability { adapter_ref, adapter_mode_ref, availability_kind: IdentityAdapterAvailabilityKind::Available, issue_ref: None, checked_at }
    }

    /// Creates a degraded adapter snapshot.
    pub fn degraded(
        adapter_ref: IdentityAdapterRef,
        adapter_mode_ref: IdentityAdapterModeRef,
        issue_ref: IdentityAdapterAvailabilityIssueRef,
        checked_at: IdentityTimestamp,
    ) -> (r: Self)
        ensures
            r == (IdentityAdapterAvailability {
                adapter_ref,
                adapter_mode_ref,
                availability_kind: IdentityAdapterAvailabilityKind::Degraded,
                issue_ref: Some(issue_ref),
                checked_at,
            }),
    {
        IdentityAdapterAvailability {
            adapter_ref,
            adapter_mode_ref,
            availability_kind: IdentityAdapterAvailabilityKind::Degraded,
            issue_ref: Some(issue_ref),
            checked_at,
        }
    }

    /// Creates an unavailable adapter snapshot.
    pub fn unavailable(
        adapter_ref: IdentityAdapterRef,
        adapter_mode_ref: IdentityAdapterModeRef,
        issue_ref: IdentityAdapterAvailabilityIssueRef,
        checked_at: IdentityTimestamp,
    ) -> (r: Self)
        ensures
            r == (IdentityAdapterAvailability {
                adapter_ref,
                adapter_mode_ref,
                availability_kind: IdentityAdapterAvailabilityKind::Unavailable,
                issue_ref: Some(issue_ref),
                checked_at,
            }),
    {
        IdentityAdapterAvailability {
            adapter_ref,
            adapter_mode_ref,
            availability_kind: IdentityAdapterAvailabilityKind::Unavailable,
            issue_ref: Some(issue_ref),
            checked_at,
        }
    }

    /// Creates a disabled adapter snapshot.
    pub fn disabled(
        adapter_ref: IdentityAdapterRef,
        adapter_mode_ref: IdentityAdapterModeRef,
        issue_ref: IdentityAdapterAvailabilityIssueRef,
        checked_at: IdentityTimestamp,
    ) -> (r: Self)
        ensures
            r == (IdentityAdapterAvailability {
                adapter_ref,
                adapter_mode_ref,
                availability_kind: IdentityAdapterAvailabilityKind::Disabled,
                issue_ref: Some(issue_ref),
                checked_at,
            }),
    {
        IdentityAdapterAvailability {
            adapter_ref,
            adapter_mode_ref,
            availability_kind: IdentityAdapterAvailabilityKind::Disabled,
            issue_ref: Some(issue_ref),
            checked_at,
        }
    }

    /// Returns whether the runtime may attempt this adapter.
    pub fn allows_attempt(&self) -> (r: bool)
        ensures
            r == adapter_attemptable(self.availability_kind),
    {
        matches!(self.availability_kind, IdentityAdapterAvailabilityKind::Available | IdentityAdapterAvailabilityKind::Degraded)
    }
}

/// Law: an invalid config shell wires no entry surface, a runtime that has not
/// assembled (not started, config only, or failed) dispatches nothing, and an
/// unavailable or disabled adapter is never attempted.
pub proof fn lemma_runtime_readiness_gates(
    shell: IdentityRuntimeConfigShell,
    surface_kind: IdentityEntrySurfaceKind,
    state_kind: IdentityRuntimeAssemblyStateKind,
    adapter_kind: IdentityAdapterAvailabilityKind,
)
    ensures
        shell.validation_state == IdentityConfigValidationStateKind::Invalid ==> !shell_allows_entry(shell, surface_kind),
        state_kind == IdentityRuntimeAssemblyStateKind::NotStarted ==> !assembly_can_dispatch(state_kind),
        state_kind == IdentityRuntimeAssemblyStateKind::ConfigValidated ==> !assembly_can_dispatch(state_kind),
        state_kind == IdentityRuntimeAssemblyStateKind::Failed ==> !assembly_can_dispatch(state_kind),
        adapter_kind == IdentityAdapterAvailabilityKind::Unavailable ==> !adapter_attemptable(adapter_kind),
        adapter_kind == IdentityAdapterAvailabilityKind::Disabled ==> !adapter_attemptable(adapter_kind),
{
}

/// Entry validation kind shared by API, worker, and job entry shells.
#[derive(Clone, Copy, Debug, Eq, PartialEq, Structural)]
pub enum IdentityEntryValidationKind {
    /// Entry is dispatchable.
    Dispatchable,
    /// Entry is rejected before application dispatch.
    RejectedAtEntry,
    /// Entry is not routable.
    NotRoutable,
    /// Runtime is unavailable.
    RuntimeUnavailable,
}

/// Entry dispatch attempt kind shared by API, worker, and job entry shells.
#[derive(Clone, Copy, Debug, Eq, PartialEq, Structural)]
pub enum IdentityEntryDispatchKind {
    /// Entry has been dispatched to the application facade.
    Dispatched,
    /// Entry was skipped because it was rejected at the entry boundary.
    SkippedRejectedAtEntry,
    /// Entry was skipped because runtime was unavailable.
    SkippedRuntimeUnavailable,
    /// Dispatch failed before the application facade was called.
    FailedBeforeApplication,
}

/// Body-free API entry context.
#[derive(Clone, Debug, Eq, PartialEq)]
pub struct IdentityApiEntryContext {
    /// Stable API entry ref.
    pub api_entry_ref: IdentityApiEntryRef,
    /// Formal route ref.
    pub route_ref: IdentityApiRouteRef,
    /// Entry surface kind.
    pub surface_kind: IdentityEntrySurfaceKind,
    /// Body-free request marker.
    pub request_marker_ref: IdentityApiRequestMarkerRef,
    /// Actor extracted at the boundary.
    pub actor_ref: ActorRef,
    /// Body-free request metadata marker.
    pub request_metadata_ref: IdentityRequestMetadataRef,
    /// Optional idempotency key for mutation routes.
    pub idempotency_key: Option<IdentityIdempotencyKey>,
    /// Optional visibility context for query routes.
    pub visibility_context_ref: Option<VisibilityContextRef>,
    /// Entry receive timestamp.
    pub received_at: IdentityTimestamp,
}

/// Body-free API entry validation result.
#[derive(Clone, Debug, Eq, PartialEq)]
pub struct IdentityApiEntryValidation {
    /// API entry ref.
    pub api_entry_ref: IdentityApiEntryRef,
    /// Formal route ref.
    pub route_ref: IdentityApiRouteRef,
    /// Validation kind.
    pub validation_kind: IdentityEntryValidationKind,
    /// Safe issue refs.
    pub issue_refs: Vec<IdentityEntryValidationIssueRef>,
}

/// Body-free API dispatch result.
#[derive(Clone, Debug, Eq, PartialEq)]
pub struct IdentityApiDispatchResult {
    /// Dispatch attempt ref.
    pub dispatch_ref: IdentityEntryDispatchRef,
    /// API entry ref.
    pub api_entry_ref: IdentityApiEntryRef,
    /// Application dispatch target ref.
    pub target_ref: IdentityDispatchTargetRef,
    /// Dispatch attempt kind.
    pub dispatch_kind: IdentityEntryDispatchKind,
    /// Safe issue refs.
    pub issue_refs: Vec<IdentityEntryValidationIssueRef>,
}

/// Worker entry validation kind.
#[derive(Clone, Copy, Debug, Eq, PartialEq, Structural)]
pub enum IdentityWorkerEntryValidationKind {
    /// Entry is dispatchable.
    Dispatchable,
    /// Consumer binding is unrecognized.
    UnrecognizedBinding,
    /// Dedupe key is missing.
    MissingDedupeKey,
    /// Envelope marker is invalid.
    InvalidEnvelopeMarker,
    /// Runtime is unavailable.
    RuntimeUnavailable,
}

/// Body-free worker entry context.
#[derive(Clone, Debug, Eq, PartialEq)]
pub struct IdentityWorkerEntryContext {
    /// Stable worker entry ref.
    pub worker_entry_ref: IdentityWorkerEntryRef,
    /// Entry surface kind.
    pub surface_kind: IdentityEntrySurfaceKind,
    /// Consumer binding ref.
    pub consumer_binding_ref: IdentityConsumerBindingRef,
    /// Body-free envelope marker.
    pub envelope_marker_ref: IdentityEventEnvelopeMarkerRef,
    /// Upstream source event ref.
    pub source_event_ref: IdentitySourceEventRef,
    /// Formal idempotency key.
    pub idempotency_key: IdentityIdempotencyKey,
    /// Optional propagated trace context marker.
    pub trace_context_ref: Option<IdentityTraceContextRef>,
    /// Entry receive timestamp.
    pub received_at: IdentityTimestamp,
}

/// Body-free worker entry validation result.
#[derive(Clone, Debug, Eq, PartialEq)]
pub struct IdentityWorkerEntryValidation {
    /// Worker entry ref.
    pub worker_entry_ref: IdentityWorkerEntryRef,
    /// Consumer binding ref.
    pub consumer_binding_ref: IdentityConsumerBindingRef,
    /// Validation kind.
    pub validation_kind: IdentityWorkerEntryValidationKind,
    /// Safe issue refs.
    pub issue_refs: Vec<IdentityEntryValidationIssueRef>,
}

/// Body-free worker dispatch result.
#[derive(Clone, Debug, Eq, PartialEq)]
pub struct IdentityWorkerDispatchResult {
    /// Dispatch attempt ref.
    pub dispatch_ref: IdentityWorkerDispatchRef,
    /// Worker entry ref.
    pub worker_entry_ref: IdentityWorkerEntryRef,
    /// Application dispatch target ref.
    pub target_ref: IdentityDispatchTargetRef,
    /// Dispatch attempt kind.
    pub dispatch_kind: IdentityEntryDispatchKind,
    /// Safe issue refs.
    pub issue_refs: Vec<IdentityEntryValidationIssueRef>,
}

/// Job entry validation kind.
#[derive(Clone, Copy, Debug, Eq, PartialEq, Structural)]
pub enum IdentityJobEntryValidationKind {
    /// Entry is dispatchable.
    Dispatchable,
    /// Job name is unknown.
    UnknownJob,
    /// Scope marker is invalid.
    InvalidScope,
    /// Cursor marker is invalid.
    InvalidCursor,
    /// Idempotency key is missing.
    MissingIdempotencyKey,
    /// Runtime is unavailable.
    RuntimeUnavailable,
}

/// Body-free job entry context.
#[derive(Clone, Debug, Eq, PartialEq)]
pub struct IdentityJobEntryContext {
    /// Stable job entry ref.
    pub job_entry_ref: IdentityJobEntryRef,
    /// Formal job name.
    pub job_name: IdentityJobName,
    /// Formal job run ref.
    pub job_run_ref: IdentityJobRunRef,
    /// Body-free job run metadata marker.
    pub run_metadata_ref: IdentityJobRunMetadataRef,
    /// Body-free job scope marker.
    pub scope_marker_ref: IdentityJobScopeMarkerRef,
    /// Optional input cursor marker.
    pub input_cursor_ref: Option<IdentityJobCursorRef>,
    /// System actor for the run.
    pub system_actor_ref: ActorRef,
    /// Formal idempotency key.
    pub idempotency_key: IdentityIdempotencyKey,
    /// Job start timestamp.
    pub started_at: IdentityTimestamp,
}

/// Body-free job entry validation result.
#[derive(Clone, Debug, Eq, PartialEq)]
pub struct IdentityJobEntryValidation {
    /// Job entry ref.
    pub job_entry_ref: IdentityJobEntryRef,
    /// Formal job name.
    pub job_name: IdentityJobName,
    /// Validation kind.
    pub validation_kind: IdentityJobEntryValidationKind,
    /// Safe issue refs.
    pub issue_refs: Vec<IdentityEntryValidationIssueRef>,
}

/// Body-free job dispatch result.
#[derive(Clone, Debug, Eq, PartialEq)]
pub struct IdentityJobDispatchResult {
    /// Dispatch attempt ref.
    pub dispatch_ref: IdentityJobDispatchRef,
    /// Job entry ref.
    pub job_entry_ref: IdentityJobEntryRef,
    /// Application dispatch target ref.
    pub target_ref: IdentityDispatchTargetRef,
    /// Dispatch attempt kind.
    pub dispatch_kind: IdentityEntryDispatchKind,
    /// Safe issue refs.
    pub issue_refs: Vec<IdentityEntryValidationIssueRef>,
}

/// Alias for API request markers that already exist in shared contracts.
pub type IdentityPublicRequestMarkerRef = IdentityApiRequestMarkerRef;

/// Alias for public consumer binding refs that already exist in shared contracts.
pub type IdentityPublicConsumerBindingRef = IdentityConsumerBindingRef;

/// Alias for public consumer receipt refs that already exist in shared contracts.
pub type IdentityPublicConsumerReceiptRef = IdentityConsumerReceiptRef;

/// Alias for public job metadata refs that already exist in shared contracts.
pub type IdentityPublicJobRunMetadataRef = IdentityJobRunMetadataRef;

} // verus!
