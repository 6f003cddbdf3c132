//! Typed refs and shared markers for identity public contracts.
use vstd::prelude::*;
use vstd::std_specs::cmp::PartialEqSpecImpl;
use vstd::string::StringExecFns;

use crate::contracts::errors::ContractError;
use crate::text::{is_blank, is_blank_text};

pub use crate::contracts::receipts::{MaintenanceIssueRef, TraceHandoffIntentRef};

verus! {

/// The error that a blank required text yields for `field`.
pub open spec fn is_non_empty_error(e: ContractError, field: Seq<char>) -> bool {
    &&& e.field@ == field
    &&& e.message@ == "value must be non-empty"@
}

/// Keeps a required text, rejecting one that is blank once trimmed.
fn ensure_non_empty(field: &str, value: String) -> (r: Result<String, ContractError>)
    ensures
        r is Ok <==> !is_blank_text(value@),
        r matches Ok(v) ==> v == value,
        r matches Err(e) ==> is_non_empty_error(e, field@),
{
    if is_blank(value.as_str()) {
        return Err(ContractError::invalid_value(field, "value must be non-empty"));
    }
    Ok(value)
}

/// The name under which a source owner is reported.
pub open spec fn source_owner_name(owner: IdentitySourceOwner) -> Seq<char> {
    match owner {
        IdentitySourceOwner::Account => "Account"@,
        IdentitySourceOwner::Runtime => "Runtime"@,
        IdentitySourceOwner::Work => "Work"@,
        IdentitySourceOwner::MethodLibrary => "MethodLibrary"@,
        IdentitySourceOwner::MemoryArchive => "MemoryArchive"@,
        IdentitySourceOwner::Governance => "Governance"@,
        IdentitySourceOwner::Identity => "Identity"@,
    }
}

/// The message that rejects a source owner for a typed ref.
pub open spec fn source_owner_rejection(owner: IdentitySourceOwner) -> Seq<char> {
    "source owner "@ + source_owner_name(owner) + " is not allowed for this typed ref"@
}

/// The error that rejects `owner` for `field`.
pub open spec fn is_source_owner_error(e: ContractError, field: Seq<char>, owner: IdentitySourceOwner) -> bool {
    &&& e.field@ == field
    &&& e.message@ == source_owner_rejection(owner)
}

fn source_owner_label(owner: IdentitySourceOwner) -> (r: &'static str)
    ensures
        r@ == source_owner_name(owner),
{
    match owner {
        IdentitySourceOwner::Account => "Account",
        IdentitySourceOwner::Runtime => "Runtime",
        IdentitySourceOwner::Work => "Work",
        IdentitySourceOwner::MethodLibrary => "MethodLibrary",
        IdentitySourceOwner::MemoryArchive => "MemoryArchive",
        IdentitySourceOwner::Governance => "Governance",
        IdentitySourceOwner::Identity => "Identity",
    }
}

/// Accepts a source ref only when its owner is one of `expected`.
fn ensure_source_owner(field: &str, source_ref: &IdentitySourceRef, expected: &[IdentitySourceOwner]) -> (r: Result<(), ContractError>)
    ensures
        r is Ok <==> expected@.contains(source_ref.source_owner),
        r matches Err(e) ==> is_source_owner_error(e, field@, source_ref.source_owner),
{
    let owner = source_ref.owner();
    let mut i: usize = 0;
    while i < expected.len()
        invariant
            i <= expected@.len(),
            owner == source_ref.source_owner,
            forall|j: int| 0 <= j < i ==> expected@[j] != owner,
        decreases expected@.len() - i,
    {
        if expected[i] == owner {
            assert(expected@.contains(owner)) by {
                assert(expected@[i as int] == owner);
            }
            return Ok(());
        }
        i = i + 1;
    }
    let mut message = "source owner ".to_owned();
    message.append(source_owner_label(owner));
    message.append(" is not allowed for this typed ref");
    Err(ContractError::invalid_value(field, message.as_str()))
}

/// Opaque external source reference used by identity typed refs.
#[derive(Debug, Eq, Hash, PartialOrd, Ord)]
pub struct ExternalSourceRef(String);

impl Clone for ExternalSourceRef {
    fn clone(&self) -> (r: Self)
        ensures
            r == *self,
    {
        ExternalSourceRef(self.0.clone())
    }
}

impl PartialEq for ExternalSourceRef {
    fn eq(&self, other: &Self) -> (r: bool) {
        self.0 == other.0
    }
}

impl PartialEqSpecImpl for ExternalSourceRef {
    open spec fn obeys_eq_spec() -> bool {
        true
    }

    open spec fn eq_spec(&self, other: &Self) -> bool {
        self@ == other@
    }
}

impl View for ExternalSourceRef {
    type V = Seq<char>;

    closed spec fn view(&self) -> Seq<char> {
        self.0@
    }
}

impl ExternalSourceRef {
    /// Creates a new validated opaque typed value; blank text is rejected.
    pub fn new(value: String) -> (r: Result<Self, ContractError>)
        ensures
            r is Ok <==> !is_blank_text(value@),
            r matches Ok(v) ==> v@ == value@,
            r matches Err(e) ==> is_non_empty_error(e, "external_source_ref"@),
    {
        match ensure_non_empty("external_source_ref", value) {
            Ok(v) => Ok(ExternalSourceRef(v)),
            Err(e) => Err(e),
        }
    }

    /// Returns the wrapped string.
    pub fn as_str(&self) -> (r: &str)
        ensures
            r@ == self@,
    {
        self.0.as_str()
    }

    /// Consumes the wrapper and returns the inner string.
    pub fn into_inner(self) -> (r: String)
        ensures
            r@ == self@,
    {
        self.0
    }
}

/// Stable opaque identifier for an identity global member.
#[derive(Debug, Eq, Hash, PartialOrd, Ord)]
pub struct GlobalMemberId(String);

impl Clone for GlobalMemberId {
    fn clone(&self) -> (r: Self)
        ensures
            r == *self,
    {
        GlobalMemberId(self.0.clone())
    }
}

impl PartialEq for GlobalMemberId {
    fn eq(&self, other: &Self) -> (r: bool) {
        self.0 == other.0
    }
}

impl PartialEqSpecImpl for GlobalMemberId {
    open spec fn obeys_eq_spec() -> bool {
        true
    }

    open spec fn eq_spec(&self, other: &Self) -> bool {
        self@ == other@
    }
}

impl View for GlobalMemberId {
    type V = Seq<char>;

    closed spec fn view(&self) -> Seq<char> {
        self.0@
    }
}

impl GlobalMemberId {
    /// Creates a new validated opaque typed value; blank text is rejected.
    pub fn new(value: String) -> (r: Result<Self, ContractError>)
        ensures
            r is Ok <==> !is_blank_text(value@),
            r matches Ok(v) ==> v@ == value@,
            r matches Err(e) ==> is_non_empty_error(e, "global_member_id"@),
    {
        match ensure_non_empty("global_member_id", value) {
            Ok(v) => Ok(GlobalMemberId(v)),
            Err(e) => Err(e),
        }
    }

    /// Returns the wrapped string.
    pub fn as_str(&self) -> (r: &str)
        ensures
            r@ == self@,
    {
        self.0.as_str()
    }

    /// Consumes the wrapper and returns the inner string.
    pub fn into_inner(self) -> (r: String)
        ensures
            r@ == self@,
    {
        self.0
    }
}

/// Stable opaque identifier for an identity-owned role capability summary.
#[derive(Debug, Eq, Hash, PartialOrd, Ord)]
pub struct RoleCapabilitySummaryId(String);

impl Clone for RoleCapabilitySummaryId {
    fn clone(&self) -> (r: Self)
        ensures
            r == *self,
    {
        RoleCapabilitySummaryId(self.0.clone())
    }
}

impl PartialEq for RoleCapabilitySummaryId {
    fn eq(&self, other: &Self) -> (r: bool) {
        self.0 == other.0
    }
}

impl PartialEqSpecImpl for RoleCapabilitySummaryId {
    open spec fn obeys_eq_spec() -> bool {
        true
    }

    open spec fn eq_spec(&self, other: &Self) -> bool {
        self@ == other@
    }
}

impl View for RoleCapabilitySummaryId {
    type V = Seq<char>;

    closed spec fn view(&self) -> Seq<char> {
        self.0@
    }
}

impl RoleCapabilitySummaryId {
    /// Creates a new validated opaque typed value; blank text is rejected.
    pub fn new(value: String) -> (r: Result<Self, ContractError>)
        ensures
            r is Ok <==> !is_blank_text(value@),
            r matches Ok(v) ==> v@ == value@,
            r matches Err(e) ==> is_non_empty_error(e, "role_capability_summary_id"@),
    {
        match ensure_non_empty("role_capability_summary_id", value) {
            Ok(v) => Ok(RoleCapabilitySummaryId(v)),
            Err(e) => Err(e),
        }
    }

    /// Returns the wrapped string.
    pub fn as_str(&self) -> (r: &str)
        ensures
            r@ == self@,
    {
        self.0.as_str()
    }

    /// Consumes the wrapper and returns the inner string.
    pub fn into_inner(self) -> (r: String)
        ensures
            r@ == self@,
    {
        self.0
    }
}

/// Stable opaque identifier for an identity-owned role capability source snapshot.
#[derive(Debug, Eq, Hash, PartialOrd, Ord)]
pub struct RoleCapabilitySourceSnapshotId(String);

impl Clone for RoleCapabilitySourceSnapshotId {
    fn clone(&self) -> (r: Self)
        ensures
            r == *self,
    {
        RoleCapabilitySourceSnapshotId(self.0.clone())
    }
}

impl PartialEq for RoleCapabilitySourceSnapshotId {
    fn eq(&self, other: &Self) -> (r: bool) {
        self.0 == other.0
    }
}

impl PartialEqSpecImpl for RoleCapabilitySourceSnapshotId {
    open spec fn obeys_eq_spec() -> bool {
        true
    }

    open spec fn eq_spec(&self, other: &Self) -> bool {
        self@ == other@
    }
}

impl View for RoleCapabilitySourceSnapshotId {
    type V = Seq<char>;

    closed spec fn view(&self) -> Seq<char> {
        self.0@
    }
}

impl RoleCapabilitySourceSnapshotId {
    /// Creates a new validated opaque typed value; blank text is rejected.
    pub fn new(value: String) -> (r: Result<Self, ContractError>)
        ensures
            r is Ok <==> !is_blank_text(value@),
            r matches Ok(v) ==> v@ == value@,
            r matches Err(e) ==> is_non_empty_error(e, "role_capability_source_snapshot_id"@),
    {
        match ensure_non_empty("role_capability_source_snapshot_id", value) {
            Ok(v) => Ok(RoleCapabilitySourceSnapshotId(v)),
            Err(e) => Err(e),
        }
    }

    /// Returns the wrapped string.
    pub fn as_str(&self) -> (r: &str)
        ensures
            r@ == self@,
    {
        self.0.as_str()
    }

    /// Consumes the wrapper and returns the inner string.
    pub fn into_inner(self) -> (r: String)
        ensures
            r@ == self@,
    {
        self.0
    }
}

/// Stable opaque identifier for an identity career record.
#[derive(Debug, Eq, Hash, PartialOrd, Ord)]
pub struct CareerRecordId(String);

impl Clone for CareerRecordId {
    fn clone(&self) -> (r: Self)
        ensures
            r == *self,
    {
        CareerRecordId(self.0.clone())
    }
}

impl PartialEq for CareerRecordId {
    fn eq(&self, other: &Self) -> (r: bool) {
        self.0 == other.0
    }
}

impl PartialEqSpecImpl for CareerRecordId {
    open spec fn obeys_eq_spec() -> bool {
        true
    }

    open spec fn eq_spec(&self, other: &Self) -> bool {
        self@ == other@
    }
}

impl View for CareerRecordId {
    type V = Seq<char>;

    closed spec fn view(&self) -> Seq<char> {
        self.0@
    }
}

impl CareerRecordId {
    /// Creates a new validated opaque typed value; blank text is rejected.
    pub fn new(value: String) -> (r: Result<Self, ContractError>)
        ensures
            r is Ok <==> !is_blank_text(value@),
            r matches Ok(v) ==> v@ == value@,
            r matches Err(e) ==> is_non_empty_error(e, "career_record_id"@),
    {
        match ensure_non_empty("career_record_id", value) {
            Ok(v) => Ok(CareerRecordId(v)),
            Err(e) => Err(e),
        }
    }

    /// Returns the wrapped string.
    pub fn as_str(&self) -> (r: &str)
        ensures
            r@ == self@,
    {
        self.0.as_str()
    }

    /// Consumes the wrapper and returns the inner string.
    pub fn into_inner(self) -> (r: String)
        ensures
            r@ == self@,
    {
        self.0
    }
}

/// Stable opaque identifier for an identity memory reference relation.
#[derive(Debug, Eq, Hash, PartialOrd, Ord)]
pub struct MemoryReferenceId(String);

impl Clone for MemoryReferenceId {
    fn clone(&self) -> (r: Self)
        ensures
            r == *self,
    {
        MemoryReferenceId(self.0.clone())
    }
}

impl PartialEq for MemoryReferenceId {
    fn eq(&self, other: &Self) -> (r: bool) {
        self.0 == other.0
    }
}

impl PartialEqSpecImpl for MemoryReferenceId {
    open spec fn obeys_eq_spec() -> bool {
        true
    }

    open spec fn eq_spec(&self, other: &Self) -> bool {
        self@ == other@
    }
}

impl View for MemoryReferenceId {
    type V = Seq<char>;

    closed spec fn view(&self) -> Seq<char> {
        self.0@
    }
}

impl MemoryReferenceId {
    /// Creates a new validated opaque typed value; blank text is rejected.
    pub fn new(value: String) -> (r: Result<Self, ContractError>)
        ensures
            r is Ok <==> !is_blank_text(value@),
            r matches Ok(v) ==> v@ == value@,
            r matches Err(e) ==> is_non_empty_error(e, "memory_reference_id"@),
    {
        match ensure_non_empty("memory_reference_id", value) {
            Ok(v) => Ok(MemoryReferenceId(v)),
            Err(e) => Err(e),
        }
    }

    /// Returns the wrapped string.
    pub fn as_str(&self) -> (r: &str)
        ensures
            r@ == self@,
    {
        self.0.as_str()
    }

    /// Consumes the wrapper and returns the inner string.
    pub fn into_inner(self) -> (r: String)
        ensures
            r@ == self@,
    {
        self.0
    }
}

/// Stable opaque identifier for an identity projection state.
#[derive(Debug, Eq, Hash, PartialOrd, Ord)]
pub struct ProjectionStateId(String);

impl Clone for ProjectionStateId {
    fn clone(&self) -> (r: Self)
        ensures
            r == *self,
    {
        ProjectionStateId(self.0.clone())
    }
}

impl PartialEq for ProjectionStateId {
    fn eq(&self, other: &Self) -> (r: bool) {
        self.0 == other.0
    }
}

impl PartialEqSpecImpl for ProjectionStateId {
    open spec fn obeys_eq_spec() -> bool {
        true
    }

    open spec fn eq_spec(&self, other: &Self) -> bool {
        self@ == other@
    }
}

impl View for ProjectionStateId {
    type V = Seq<char>;

    closed spec fn view(&self) -> Seq<char> {
        self.0@
    }
}

impl ProjectionStateId {
    /// Creates a new validated opaque typed value; blank text is rejected.
    pub fn new(value: String) -> (r: Result<Self, ContractError>)
        ensures
            r is Ok <==> !is_blank_text(value@),
            r matches Ok(v) ==> v@ == value@,
            r matches Err(e) ==> is_non_empty_error(e, "projection_state_id"@),
    {
        match ensure_non_empty("projection_state_id", value) {
            Ok(v) => Ok(ProjectionStateId(v)),
            Err(e) => Err(e),
        }
    }

    /// Returns the wrapped string.
    pub fn as_str(&self) -> (r: &str)
        ensures
            r@ == self@,
    {
        self.0.as_str()
    }

    /// Consumes the wrapper and returns the inner string.
    pub fn into_inner(self) -> (r: String)
        ensures
            r@ == self@,
    {
        self.0
    }
}

/// Stable opaque identifier for an identity reference resolution state.
#[derive(Debug, Eq, Hash, PartialOrd, Ord)]
pub struct ReferenceResolutionStateId(String);

impl Clone for ReferenceResolutionStateId {
    fn clone(&self) -> (r: Self)
        ensures
            r == *self,
    {
        ReferenceResolutionStateId(self.0.clone())
    }
}

impl PartialEq for ReferenceResolutionStateId {
    fn eq(&self, other: &Self) -> (r: bool) {
        self.0 == other.0
    }
}

impl PartialEqSpecImpl for ReferenceResolutionStateId {
    open spec fn obeys_eq_spec() -> bool {
        true
    }

    open spec fn eq_spec(&self, other: &Self) -> bool {
        self@ == other@
    }
}

impl View for ReferenceResolutionStateId {
    type V = Seq<char>;

    closed spec fn view(&self) -> Seq<char> {
        self.0@
    }
}

impl ReferenceResolutionStateId {
    /// Creates a new validated opaque typed value; blank text is rejected.
    pub fn new(value: String) -> (r: Result<Self, ContractError>)
        ensures
            r is Ok <==> !is_blank_text(value@),
            r matches Ok(v) ==> v@ == value@,
            r matches Err(e) ==> is_non_empty_error(e, "reference_resolution_state_id"@),
    {
        match ensure_non_empty("reference_resolution_state_id", value) {
            Ok(v) => Ok(ReferenceResolutionStateId(v)),
            Err(e) => Err(e),
        }
    }

    /// Returns the wrapped string.
    pub fn as_str(&self) -> (r: &str)
        ensures
            r@ == self@,
    {
        self.0.as_str()
    }

    /// Consumes the wrapper and returns the inner string.
    pub fn into_inner(self) -> (r: String)
        ensures
            r@ == self@,
    {
        self.0
    }
}

/// Entry channel that explains why identity code is executing.
#[derive(Clone, Copy, Debug, Eq, Hash, PartialEq, Structural)]
pub enum IdentityOperationChannel {
    /// Explicit command path that may write identity truth after all guards pass.
    Command,
    /// Query or read path that must not mutate truth.
    Query,
    /// Inbound consumer path from a subscribed event source.
    Consumer,
    /// Operations or maintenance job path.
    Job,
    /// Handoff callback or receipt path.
    HandoffCallback,
    /// Projection rebuild or read-model maintenance path.
    ProjectionMaintenance,
}

impl IdentityOperationChannel {
    /// Returns whether this channel may enter a core truth write guard.
    pub fn allows_core_truth_write(&self) -> (r: bool)
        ensures
            r == (*self == IdentityOperationChannel::Command || *self == IdentityOperationChannel::Consumer),
    {
        matches!(self, IdentityOperationChannel::Command | IdentityOperationChannel::Consumer)
    }

    /// Returns whether this channel is read-only by design.
    pub fn is_read_only(&self) -> (r: bool)
        ensures
            r == (*self == IdentityOperationChannel::Query || *self == IdentityOperationChannel::ProjectionMaintenance),
    {
        matches!(self, IdentityOperationChannel::Query | IdentityOperationChannel::ProjectionMaintenance)
    }

    /// Returns whether the entrypoint must supply actor or trace metadata.
    pub fn requires_entry_metadata(&self) -> (r: bool)
        ensures
            r,
    {
        true
    }
}

/// Owner class for a body-free identity source reference.
#[derive(Clone, Copy, Debug, Eq, Hash, Ord, PartialEq, PartialOrd, Structural)]
pub enum IdentitySourceOwner {
    /// User, account, or credential source used only as evidence or creation source.
    Account,
    /// Runtime or execution-side source.
    Runtime,
    /// Work or project participation source.
    Work,
    /// Method-library role or capability source.
    MethodLibrary,
    /// Memory or archive source.
    MemoryArchive,
    /// Governance basis or decision source.
    Governance,
    /// Identity-owned source produced by accepted identity truth.
    Identity,
}

/// Typed reference to an identity global member truth object.
#[derive(Debug, Eq, Hash, Ord, PartialEq, PartialOrd)]
pub struct GlobalMemberRef {
    /// Stable member identifier.
    pub member_id: GlobalMemberId,
}

impl Clone for GlobalMemberRef {
    fn clone(&self) -> (r: Self)
        ensures
            r == *self,
    {
        GlobalMemberRef { member_id: self.member_id.clone() }
    }
}

impl GlobalMemberRef {
    /// Creates a typed ref from a validated member identifier.
    pub fn from_id(member_id: GlobalMemberId) -> (r: Self)
        ensures
            r.member_id == member_id,
    {
        GlobalMemberRef { member_id }
    }

    /// Returns whether both refs refer to the same member.
    pub fn same_member(&self, other: &GlobalMemberRef) -> (r: bool)
        ensures
            r == (self.member_id@ == other.member_id@),
    {
        self.member_id.same_id(&other.member_id)
    }

    /// Returns the contained member identifier.
    pub fn id(&self) -> (r: &GlobalMemberId)
        ensures
            *r == self.member_id,
    {
        &self.member_id
    }
}

impl GlobalMemberId {
    /// Returns whether both typed identifiers are equal.
    pub fn same_id(&self, other: &GlobalMemberId) -> (r: bool)
        ensures
            r == (self@ == other@),
    {
        self.0 == other.0
    }
}

/// Typed reference to an identity projection state.
#[derive(Debug, Eq, Hash, Ord, PartialEq, PartialOrd)]
pub struct ProjectionStateRef {
    /// Stable projection state identifier.
    pub projection_state_id: ProjectionStateId,
}

impl Clone for ProjectionStateRef {
    fn clone(&self) -> (r: Self)
        ensures
            r == *self,
    {
        ProjectionStateRef { projection_state_id: self.projection_state_id.clone() }
    }
}

impl ProjectionStateRef {
    /// Creates a typed ref from a validated projection state identifier.
    pub fn from_id(projection_state_id: ProjectionStateId) -> (r: Self)
        ensures
            r.projection_state_id == projection_state_id,
    {
        ProjectionStateRef { projection_state_id }
    }
}

/// Typed reference to an identity reference resolution state.
#[derive(Debug, Eq, Hash, Ord, PartialEq, PartialOrd)]
pub struct ReferenceResolutionStateRef {
    /// Stable reference resolution state identifier.
    pub resolution_state_id: ReferenceResolutionStateId,
}

impl Clone for ReferenceResolutionStateRef {
    fn clone(&self) -> (r: Self)
        ensures
            r == *self,
    {
        ReferenceResolutionStateRef { resolution_state_id: self.resolution_state_id.clone() }
    }
}

impl ReferenceResolutionStateRef {
    /// Creates a typed ref from a validated reference resolution state identifier.
    pub fn from_id(resolution_state_id: ReferenceResolutionStateId) -> (r: Self)
        ensures
            r.resolution_state_id == resolution_state_id,
    {
        ReferenceResolutionStateRef { resolution_state_id }
    }
}

/// Body-free reference to the source that caused or supports an identity fact.
#[derive(Debug, Eq, Hash, Ord, PartialEq, PartialOrd)]
pub struct IdentitySourceRef {
    /// Source owner or system class.
    pub source_owner: IdentitySourceOwner,
    /// Opaque source-side reference.
    pub external_ref: ExternalSourceRef,
}

impl Clone for IdentitySourceRef {
    fn clone(&self) -> (r: Self)
        ensures
            r == *self,
    {
        IdentitySourceRef { source_owner: self.source_owner, external_ref: self.external_ref.clone() }
    }
}

/// Whether two source refs describe the same source.
pub open spec fn same_source_spec(a: IdentitySourceRef, b: IdentitySourceRef) -> bool {
    a.source_owner == b.source_owner && a.external_ref@ == b.external_ref@
}

/// Whether two optional source refs are both absent or describe the same source.
pub open spec fn same_optional_source_spec(a: Option<IdentitySourceRef>, b: Option<IdentitySourceRef>) -> bool {
    match (a, b) {
        (None, None) => true,
        (Some(x), Some(y)) => same_source_spec(x, y),
        _ => false,
    }
}

impl IdentitySourceRef {
    /// Creates a new body-free source ref.
    pub fn new(source_owner: IdentitySourceOwner, external_ref: ExternalSourceRef) -> (r: Result<Self, ContractError>)
        ensures
            r == Ok::<IdentitySourceRef, ContractError>(IdentitySourceRef { source_owner, external_ref }),
    {
        Ok(IdentitySourceRef { source_owner, external_ref })
    }

    /// Returns the source owner.
    pub fn owner(&self) -> (r: IdentitySourceOwner)
        ensures
            r == self.source_owner,
    {
        self.source_owner
    }

    /// Returns whether both refs describe the same source.
    pub fn same_source(&self, other: &IdentitySourceRef) -> (r: bool)
        ensures
            r == same_source_spec(*self, *other),
    {
        self.source_owner == other.source_owner && self.external_ref.0 == other.external_ref.0
    }
}

/// Body-free reason reference for holding an identity member anchor.
#[derive(Debug, Eq, Hash, PartialEq)]
pub struct IdentityAnchorReasonRef {
    /// Reason category for the anchor hold.
    pub reason_kind: IdentityAnchorReasonKind,
    /// Opaque reason source reference.
    pub source_ref: IdentitySourceRef,
}

impl Clone for IdentityAnchorReasonRef {
    fn clone(&self) -> (r: Self)
        ensures
            r == *self,
    {
        IdentityAnchorReasonRef { reason_kind: self.reason_kind.clone(), source_ref: self.source_ref.clone() }
    }
}

impl IdentityAnchorReasonRef {
    /// Creates a new anchor-hold reason ref.
    pub fn new(reason_kind: IdentityAnchorReasonKind, source_ref: IdentitySourceRef) -> (r: Result<Self, ContractError>)
        ensures
            r == Ok::<IdentityAnchorReasonRef, ContractError>(IdentityAnchorReasonRef { reason_kind, source_ref }),
    {
        Ok(IdentityAnchorReasonRef { reason_kind, source_ref })
    }

    /// Returns whether this reason can justify a tombstone hold.
    pub fn supports_tombstone_hold(&self) -> (r: bool)
        ensures
            r == (self.reason_kind == IdentityAnchorReasonKind::Tombstoned || self.reason_kind == IdentityAnchorReasonKind::GovernanceHold),
    {
        matches!(self.reason_kind, IdentityAnchorReasonKind::Tombstoned | IdentityAnchorReasonKind::GovernanceHold)
    }

    /// Returns whether both reasons are the same.
    pub fn same_reason(&self, other: &IdentityAnchorReasonRef) -> (r: bool)
        ensures
            r == (self.reason_kind == other.reason_kind && same_source_spec(self.source_ref, other.source_ref)),
    {
        self.reason_kind == other.reason_kind && self.source_ref.same_source(&other.source_ref)
    }
}

/// Category of reason for keeping a member anchor permanently occupied.
#[derive(Clone, Copy, Debug, Eq, Hash, PartialEq, Structural)]
pub enum IdentityAnchorReasonKind {
    /// Anchor is held because the member was retired.
    Retired,
    /// Anchor is held because the member was tombstoned.
    Tombstoned,
    /// Anchor is held because the source identity was superseded but must remain non-reusable.
    SupersededHold,
    /// Anchor is held by governance or compliance restriction.
    GovernanceHold,
}

/// Body-free reason reference for an identity lifecycle transition.
#[derive(Debug, Eq, Hash, PartialEq)]
pub struct LifecycleReasonRef {
    /// Reason category for the lifecycle transition.
    pub reason_kind: LifecycleReasonKind,
    /// Opaque reason source reference.
    pub source_ref: IdentitySourceRef,
}

impl Clone for LifecycleReasonRef {
    fn clone(&self) -> (r: Self)
        ensures
            r == *self,
    {
        LifecycleReasonRef { reason_kind: self.reason_kind.clone(), source_ref: self.source_ref.clone() }
    }
}

impl LifecycleReasonRef {
    /// Creates a new lifecycle reason ref.
    pub fn new(reason_kind: LifecycleReasonKind, source_ref: IdentitySourceRef) -> (r: Result<Self, ContractError>)
        ensures
            r == Ok::<LifecycleReasonRef, ContractError>(LifecycleReasonRef { reason_kind, source_ref }),
    {
        Ok(LifecycleReasonRef { reason_kind, source_ref })
    }

    /// Returns whether the reason is a terminal lifecycle reason candidate.
    pub fn is_terminal_reason(&self) -> (r: bool)
        ensures
            r == (self.reason_kind == LifecycleReasonKind::Retirement || self.reason_kind == LifecycleReasonKind::Tombstone || self.reason_kind == LifecycleReasonKind::GovernanceBasis),
    {
        matches!(self.reason_kind, LifecycleReasonKind::Retirement | LifecycleReasonKind::Tombstone | LifecycleReasonKind::GovernanceBasis)
    }

    /// Returns whether both reasons are the same.
    pub fn same_reason(&self, other: &LifecycleReasonRef) -> (r: bool)
        ensures
            r == (self.reason_kind == other.reason_kind && same_source_spec(self.source_ref, other.source_ref)),
    {
        self.reason_kind == other.reason_kind && self.source_ref.same_source(&other.source_ref)
    }
}

/// Category of reason for changing a member lifecycle state.
#[derive(Clone, Copy, Debug, Eq, Hash, PartialEq, Structural)]
pub enum LifecycleReasonKind {
    /// Initial lifecycle created together with the member anchor.
    InitialProvisioned,
    /// Member was manually paused.
    ManualPause,
    /// Member was manually resumed.
    ManualResume,
    /// Member was retired.
    Retirement,
    /// Member was tombstoned.
    Tombstone,
    /// Lifecycle changed because a governance basis required it.
    GovernanceBasis,
    /// Lifecycle changed because an external source became invalid or unavailable.
    SourceInvalidated,
}

/// Body-free risk classification reference for a lifecycle action.
#[derive(Debug, Eq, Hash, PartialEq)]
pub struct LifecycleRiskRef {
    /// Risk class of the lifecycle action.
    pub risk_kind: LifecycleRiskKind,
    /// Source of the risk classification.
    pub source_ref: IdentitySourceRef,
}

impl Clone for LifecycleRiskRef {
    fn clone(&self) -> (r: Self)
        ensures
            r == *self,
    {
        LifecycleRiskRef { risk_kind: self.risk_kind.clone(), source_ref: self.source_ref.clone() }
    }
}

/// Whether two lifecycle risk refs are the same.
pub open spec fn same_risk_spec(a: LifecycleRiskRef, b: LifecycleRiskRef) -> bool {
    a.risk_kind == b.risk_kind && same_source_spec(a.source_ref, b.source_ref)
}

impl LifecycleRiskRef {
    /// Creates a new lifecycle risk ref.
    pub fn new(risk_kind: LifecycleRiskKind, source_ref: IdentitySourceRef) -> (r: Result<Self, ContractError>)
        ensures
            r == Ok::<LifecycleRiskRef, ContractError>(LifecycleRiskRef { risk_kind, source_ref }),
    {
        Ok(LifecycleRiskRef { risk_kind, source_ref })
    }

    /// Returns whether the risk class requires a governance basis.
    pub fn requires_governance_basis(&self) -> (r: bool)
        ensures
            r == (self.risk_kind == LifecycleRiskKind::High || self.risk_kind == LifecycleRiskKind::Critical),
    {
        matches!(self.risk_kind, LifecycleRiskKind::High | LifecycleRiskKind::Critical)
    }

    /// Returns whether both risks are the same.
    pub fn same_risk(&self, other: &LifecycleRiskRef) -> (r: bool)
        ensures
            r == same_risk_spec(*self, *other),
    {
        self.risk_kind == other.risk_kind && self.source_ref.same_source(&other.source_ref)
    }
}

/// Risk class for identity lifecycle actions.
#[derive(Clone, Copy, Debug, Eq, Hash, PartialEq, Structural)]
pub enum LifecycleRiskKind {
    /// Low-risk lifecycle action that does not require governance basis.
    Low,
    /// Medium-risk action that may require additional validation.
    Medium,
    /// High-risk action that requires governance basis before acceptance.
    High,
    /// Critical action that requires governance basis and explicit terminal handling.
    Critical,
}

/// Body-free reference to a governance basis used by identity.
#[derive(Debug, Eq, Hash, PartialEq)]
pub struct GovernanceBasisRef {
    /// Governance basis category.
    pub basis_kind: GovernanceBasisKind,
    /// Opaque governance-side reference.
    pub external_ref: ExternalSourceRef,
}

impl Clone for GovernanceBasisRef {
    fn clone(&self) -> (r: Self)
        ensures
            r == *self,
    {
        GovernanceBasisRef { basis_kind: self.basis_kind.clone(), external_ref: self.external_ref.clone() }
    }
}

impl GovernanceBasisRef {
    /// Creates a new governance basis ref.
    pub fn new(basis_kind: GovernanceBasisKind, external_ref: ExternalSourceRef) -> (r: Result<Self, ContractError>)
        ensures
            r == Ok::<GovernanceBasisRef, ContractError>(GovernanceBasisRef { basis_kind, external_ref }),
    {
        Ok(GovernanceBasisRef { basis_kind, external_ref })
    }

    /// Returns whether both basis refs are the same.
    pub fn same_basis(&self, other: &GovernanceBasisRef) -> (r: bool)
        ensures
            r == (self.basis_kind == other.basis_kind && self.external_ref@ == other.external_ref@),
    {
        self.basis_kind == other.basis_kind && self.external_ref.0 == other.external_ref.0
    }

    /// Converts the basis ref into a body-free governance source ref.
    pub fn to_source_ref(&self) -> (r: IdentitySourceRef)
        ensures
            r == (IdentitySourceRef { source_owner: IdentitySourceOwner::Governance, external_ref: self.external_ref }),
    {
        IdentitySourceRef { source_owner: IdentitySourceOwner::Governance, external_ref: self.external_ref.clone() }
    }
}

/// Category of governance basis referenced by identity.
#[derive(Clone, Copy, Debug, Eq, Hash, PartialEq, Structural)]
pub enum GovernanceBasisKind {
    /// Governance gate or decision basis.
    GateDecision,
    /// Approval or responsibility-chain basis.
    Approval,
    /// Policy or shared-rule basis.
    Policy,
    /// Compliance or control basis.
    ComplianceControl,
    /// Manually recorded governance exception.
    GovernanceException,
}

/// Body-free resolver summary for a governance basis referenced by identity.
#[derive(Debug, Eq, PartialEq)]
pub struct GovernanceBasisSummary {
    /// Governance basis ref that was resolved.
    pub basis_ref: GovernanceBasisRef,
    /// Resolution state returned by the governance basis resolver.
    pub basis_state: GovernanceBasisState,
    /// Risk class that the basis is allowed to support.
    pub supports_risk_ref: Option<LifecycleRiskRef>,
}

impl Clone for GovernanceBasisSummary {
    fn clone(&self) -> (r: Self)
        ensures
            r == *self,
    {
        GovernanceBasisSummary { basis_ref: self.basis_ref.clone(), basis_state: self.basis_state.clone(), supports_risk_ref: self.supports_risk_ref.clone() }
    }
}

/// Whether a resolved basis authorizes an action of the given risk.
pub open spec fn basis_valid_for_spec(summary: GovernanceBasisSummary, risk_ref: LifecycleRiskRef) -> bool {
    &&& summary.basis_state == GovernanceBasisState::Valid
    &&& summary.supports_risk_ref matches Some(supported) && same_risk_spec(supported, risk_ref)
}

impl GovernanceBasisSummary {
    /// Creates a body-free basis summary from resolver output.
    pub fn from_resolver(basis_ref: GovernanceBasisRef, basis_state: GovernanceBasisState, supports_risk_ref: Option<LifecycleRiskRef>) -> (r: Self)
        ensures
            r == (GovernanceBasisSummary { basis_ref, basis_state, supports_risk_ref }),
    {
        GovernanceBasisSummary { basis_ref, basis_state, supports_risk_ref }
    }

    /// Returns whether the basis is valid for the requested risk class.
    pub fn is_valid_for(&self, risk_ref: &LifecycleRiskRef) -> (r: bool)
        ensures
            r == basis_valid_for_spec(*self, *risk_ref),
    {
        if self.basis_state != GovernanceBasisState::Valid {
            return false;
        }
        match &self.supports_risk_ref {
            Some(supported) => supported.same_risk(risk_ref),
            None => false,
        }
    }

    /// Returns whether the summary should be rechecked before reuse.
    pub fn requires_recheck(&self) -> (r: bool)
        ensures
            r == (self.basis_state == GovernanceBasisState::Stale || self.basis_state == GovernanceBasisState::Unavailable),
    {
        matches!(self.basis_state, GovernanceBasisState::Stale | GovernanceBasisState::Unavailable)
    }
}

/// Resolution state for a governance basis summary.
#[derive(Clone, Copy, Debug, Eq, Hash, PartialEq, Structural)]
pub enum GovernanceBasisState {
    /// Basis exists and can be used for the requested action class.
    Valid,
    /// Basis exists but is stale and must not be silently accepted as current.
    Stale,
    /// Basis cannot be resolved because governance dependency is unavailable.
    Unavailable,
    /// Basis was resolved but does not authorize the requested action class.
    InvalidForAction,
    /// Basis ref does not point to an existing governance basis.
    NotFound,
}

/// Typed reference to an identity role capability summary truth object.
#[derive(Debug, Eq, Hash, Ord, PartialEq, PartialOrd)]
pub struct RoleCapabilitySummaryRef {
    /// Stable summary identifier.
    pub summary_id: RoleCapabilitySummaryId,
}

impl Clone for RoleCapabilitySummaryRef {
    fn clone(&self) -> (r: Self)
        ensures
            r == *self,
    {
        RoleCapabilitySummaryRef { summary_id: self.summary_id.clone() }
    }
}

impl RoleCapabilitySummaryRef {
    /// Creates a typed ref from a validated identifier.
    pub fn from_id(summary_id: RoleCapabilitySummaryId) -> (r: Self)
        ensures
            r.summary_id == summary_id,
    {
        RoleCapabilitySummaryRef { summary_id }
    }

    /// Returns whether both refs refer to the same object.
    pub fn same_summary(&self, other: &RoleCapabilitySummaryRef) -> (r: bool)
        ensures
            r == (self.summary_id@ == other.summary_id@),
    {
        self.summary_id.0 == other.summary_id.0
    }
}

/// Typed reference to an identity role capability source snapshot.
#[derive(Debug, Eq, Hash, Ord, PartialEq, PartialOrd)]
pub struct RoleCapabilitySourceSnapshotRef {
    /// Stable source snapshot identifier.
    pub snapshot_id: RoleCapabilitySourceSnapshotId,
}

impl Clone for RoleCapabilitySourceSnapshotRef {
    fn clone(&self) -> (r: Self)
        ensures
            r == *self,
    {
        RoleCapabilitySourceSnapshotRef { snapshot_id: self.snapshot_id.clone() }
    }
}

impl RoleCapabilitySourceSnapshotRef {
    /// Creates a typed ref from a validated identifier.
    pub fn from_id(snapshot_id: RoleCapabilitySourceSnapshotId) -> (r: Self)
        ensures
            r.snapshot_id == snapshot_id,
    {
        RoleCapabilitySourceSnapshotRef { snapshot_id }
    }

    /// Returns whether both refs refer to the same object.
    pub fn same_snapshot(&self, other: &RoleCapabilitySourceSnapshotRef) -> (r: bool)
        ensures
            r == (self.snapshot_id@ == other.snapshot_id@),
    {
        self.snapshot_id.0 == other.snapshot_id.0
    }
}

/// Role or capability source category owned outside identity.
#[derive(Clone, Copy, Debug, Eq, Hash, PartialEq, Structural)]
pub enum RoleCapabilitySourceKind {
    /// Method-library role definition source.
    RoleDefinition,
    /// Method-library capability definition source.
    CapabilityDefinition,
    /// Method-library bundle that contains both role and capability markers.
    RoleCapabilityBundle,
    /// Method-library source profile or catalog entry used only as a body-free summary source.
    MethodSourceProfile,
}

/// Whether a source category may be used as a role source.
pub open spec fn kind_supports_role(kind: RoleCapabilitySourceKind) -> bool {
    kind != RoleCapabilitySourceKind::CapabilityDefinition
}

/// Whether a source category may be used as a capability source.
pub open spec fn kind_supports_capability(kind: RoleCapabilitySourceKind) -> bool {
    kind != RoleCapabilitySourceKind::RoleDefinition
}

impl RoleCapabilitySourceKind {
    /// Returns whether the source category may be used as a role source.
    pub fn supports_role(&self) -> (r: bool)
        ensures
            r == kind_supports_role(*self),
    {
        matches!(self, RoleCapabilitySourceKind::RoleDefinition | RoleCapabilitySourceKind::RoleCapabilityBundle | RoleCapabilitySourceKind::MethodSourceProfile)
    }

    /// Returns whether the source category may be used as a capability source.
    pub fn supports_capability(&self) -> (r: bool)
        ensures
            r == kind_supports_capability(*self),
    {
        matches!(self, RoleCapabilitySourceKind::CapabilityDefinition | RoleCapabilitySourceKind::RoleCapabilityBundle | RoleCapabilitySourceKind::MethodSourceProfile)
    }

    /// Returns whether the source category is method-owned.
    pub fn is_method_owned(&self) -> (r: bool)
        ensures
            r,
    {
        true
    }
}

/// Body-free canonical source ref for role or capability material.
#[derive(Debug, Eq, Hash, PartialEq)]
pub struct RoleCapabilitySourceRef {
    /// Source category.
    pub source_kind: RoleCapabilitySourceKind,
    /// Method-library owned body-free source ref.
    pub source_ref: IdentitySourceRef,
}

impl Clone for RoleCapabilitySourceRef {
    fn clone(&self) -> (r: Self)
        ensures
            r == *self,
    {
        RoleCapabilitySourceRef { source_kind: self.source_kind.clone(), source_ref: self.source_ref.clone() }
    }
}

/// Whether two canonical role or capability sources are the same.
pub open spec fn same_role_capability_source_spec(a: RoleCapabilitySourceRef, b: RoleCapabilitySourceRef) -> bool {
    a.source_kind == b.source_kind && same_source_spec(a.source_ref, b.source_ref)
}

impl RoleCapabilitySourceRef {
    /// Creates a new canonical source ref; the source must be method-library owned.
    pub fn new(source_kind: RoleCapabilitySourceKind, source_ref: IdentitySourceRef) -> (r: Result<Self, ContractError>)
        ensures
            r is Ok <==> source_ref.source_owner == IdentitySourceOwner::MethodLibrary,
            r matches Ok(v) ==> v == (RoleCapabilitySourceRef { source_kind, source_ref }),
            r matches Err(e) ==> is_source_owner_error(e, "role_capability_source_ref"@, source_ref.source_owner),
    {
        let allowed = [IdentitySourceOwner::MethodLibrary];
        match ensure_source_owner("role_capability_source_ref", &source_ref, &allowed) {
            Ok(()) => {},
            Err(e) => {
                return Err(e);
            },
        }
        assert(allowed@.contains(source_ref.source_owner) ==> source_ref.source_owner == IdentitySourceOwner::MethodLibrary);
        assert(source_ref.source_owner == IdentitySourceOwner::MethodLibrary ==> allowed@[0] == source_ref.source_owner);
        Ok(RoleCapabilitySourceRef { source_kind, source_ref })
    }

    /// Returns whether both refs describe the same source.
    pub fn same_source(&self, other: &RoleCapabilitySourceRef) -> (r: bool)
        ensures
            r == same_role_capability_source_spec(*self, *other),
    {
        self.source_kind == other.source_kind && self.source_ref.same_source(&other.source_ref)
    }

    /// Returns whether this source can be wrapped as a role source.
    pub fn supports_role(&self) -> (r: bool)
        ensures
            r == kind_supports_role(self.source_kind),
    {
        self.source_kind.supports_role()
    }

    /// Returns whether this source can be wrapped as a capability source.
    pub fn supports_capability(&self) -> (r: bool)
        ensures
            r == kind_supports_capability(self.source_kind),
    {
        self.source_kind.supports_capability()
    }
}

/// Body-free role source ref accepted by identity role capability summary.
#[derive(Debug, Eq, Hash, PartialEq)]
pub struct RoleSourceRef {
    /// Canonical role-capability source ref that supports role usage.
    pub source_ref: RoleCapabilitySourceRef,
}

impl Clone for RoleSourceRef {
    fn clone(&self) -> (r: Self)
        ensures
            r == *self,
    {
        RoleSourceRef { source_ref: self.source_ref.clone() }
    }
}

impl RoleSourceRef {
    /// Wraps a canonical source; its kind must support role usage.
    pub fn from_source(source_ref: RoleCapabilitySourceRef) -> (r: Result<Self, ContractError>)
        ensures
            r is Ok <==> kind_supports_role(source_ref.source_kind),
            r matches Ok(v) ==> v.source_ref == source_ref,
            r matches Err(e) ==> e.field@ == "role_source_ref"@ && e.message@ == "source kind does not support role usage"@,
    {
        if !source_ref.supports_role() {
            return Err(ContractError::invalid_value("role_source_ref", "source kind does not support role usage"));
        }
        Ok(RoleSourceRef { source_ref })
    }

    /// Returns the canonical source ref.
    pub fn canonical_source(&self) -> (r: &RoleCapabilitySourceRef)
        ensures
            *r == self.source_ref,
    {
        &self.source_ref
    }

    /// Returns whether both sources are equal.
    pub fn same_role_source(&self, other: &RoleSourceRef) -> (r: bool)
        ensures
            r == same_role_capability_source_spec(self.source_ref, other.source_ref),
    {
        self.source_ref.same_source(&other.source_ref)
    }
}

/// Body-free capability source ref accepted by identity role capability summary.
#[derive(Debug, Eq, Hash, PartialEq)]
pub struct CapabilitySourceRef {
    /// Canonical role-capability source ref that supports capability usage.
    pub source_ref: RoleCapabilitySourceRef,
}

impl Clone for CapabilitySourceRef {
    fn clone(&self) -> (r: Self)
        ensures
            r == *self,
    {
        CapabilitySourceRef { source_ref: self.source_ref.clone() }
    }
}

impl CapabilitySourceRef {
    /// Wraps a canonical source; its kind must support capability usage.
    pub fn from_source(source_ref: RoleCapabilitySourceRef) -> (r: Result<Self, ContractError>)
        ensures
            r is Ok <==> kind_supports_capability(source_ref.source_kind),
            r matches Ok(v) ==> v.source_ref == source_ref,
            r matches Err(e) ==> e.field@ == "capability_source_ref"@ && e.message@ == "source kind does not support capability usage"@,
    {
        if !source_ref.supports_capability() {
            return Err(ContractError::invalid_value("capability_source_ref", "source kind does not support capability usage"));
        }
        Ok(CapabilitySourceRef { source_ref })
    }

    /// Returns the canonical source ref.
    pub fn canonical_source(&self) -> (r: &RoleCapabilitySourceRef)
        ensures
            *r == self.source_ref,
    {
        &self.source_ref
    }

    /// Returns whether both sources are equal.
    pub fn same_capability_source(&self, other: &CapabilitySourceRef) -> (r: bool)
        ensures
            r == same_role_capability_source_spec(self.source_ref, other.source_ref),
    {
        self.source_ref.same_source(&other.source_ref)
    }
}

/// Opaque source-side version marker for role or capability source material.
#[derive(Debug, Eq, Hash, PartialEq)]
pub struct RoleCapabilitySourceVersionRef {
    /// Source this version belongs to.
    pub source_ref: RoleCapabilitySourceRef,
    /// Opaque source-side version token.
    pub version_token: String,
}

impl Clone for RoleCapabilitySourceVersionRef {
    fn clone(&self) -> (r: Self)
        ensures
            r == *self,
    {
        RoleCapabilitySourceVersionRef { source_ref: self.source_ref.clone(), version_token: self.version_token.clone() }
    }
}

impl RoleCapabilitySourceVersionRef {
    /// Creates a new source version ref; the version token must not be blank.
    pub fn new(source_ref: RoleCapabilitySourceRef, version_token: String) -> (r: Result<Self, ContractError>)
        ensures
            r is Ok <==> !is_blank_text(version_token@),
            r matches Ok(v) ==> v == (RoleCapabilitySourceVersionRef { source_ref, version_token }),
            r matches Err(e) ==> is_non_empty_error(e, "role_capability_source_version_ref.version_token"@),
    {
        let version_token = match ensure_non_empty("role_capability_source_version_ref.version_token", version_token) {
            Ok(v) => v,
            Err(e) => {
                return Err(e);
            },
        };
        Ok(RoleCapabilitySourceVersionRef { source_ref, version_token })
    }

    /// Returns whether the version belongs to the provided source.
    pub fn belongs_to(&self, source_ref: &RoleCapabilitySourceRef) -> (r: bool)
        ensures
            r == same_role_capability_source_spec(self.source_ref, *source_ref),
    {
        self.source_ref.same_source(source_ref)
    }

    /// Returns whether both version refs are equal.
    pub fn same_version(&self, other: &RoleCapabilitySourceVersionRef) -> (r: bool)
        ensures
            r == (self.version_token@ == other.version_token@ && same_role_capability_source_spec(self.source_ref, other.source_ref)),
    {
        self.version_token == other.version_token && self.source_ref.same_source(&other.source_ref)
    }
}

/// Body-free evidence category for a capability assertion.
#[derive(Clone, Copy, Debug, Eq, Hash, PartialEq, Structural)]
pub enum CapabilityEvidenceKind {
    /// Evidence from a method-library artifact or catalog marker.
    MethodArtifact,
    /// Evidence from governance-approved summary or basis.
    GovernanceBasis,
    /// Evidence from work participation summary.
    WorkParticipationSummary,
    /// Evidence from an explicit identity-side safe marker.
    IdentitySafeMarker,
}

/// Body-free evidence reference for a role or capability summary.
#[derive(Debug, Eq, Hash, PartialEq)]
pub struct CapabilityEvidenceRef {
    /// Evidence category.
    pub evidence_kind: CapabilityEvidenceKind,
    /// Opaque evidence source ref.
    pub source_ref: IdentitySourceRef,
}

impl Clone for CapabilityEvidenceRef {
    fn clone(&self) -> (r: Self)
        ensures
            r == *self,
    {
        CapabilityEvidenceRef { evidence_kind: self.evidence_kind.clone(), source_ref: self.source_ref.clone() }
    }
}

/// The only source owner accepted for an evidence category.
pub open spec fn evidence_owner(kind: CapabilityEvidenceKind) -> IdentitySourceOwner {
    match kind {
        CapabilityEvidenceKind::MethodArtifact => IdentitySourceOwner::MethodLibrary,
        CapabilityEvidenceKind::GovernanceBasis => IdentitySourceOwner::Governance,
        CapabilityEvidenceKind::WorkParticipationSummary => IdentitySourceOwner::Work,
        CapabilityEvidenceKind::IdentitySafeMarker => IdentitySourceOwner::Identity,
    }
}

impl CapabilityEvidenceRef {
    /// Creates a new evidence ref; the source owner must match the evidence category.
    pub fn new(evidence_kind: CapabilityEvidenceKind, source_ref: IdentitySourceRef) -> (r: Result<Self, ContractError>)
        ensures
            r is Ok <==> source_ref.source_owner == evidence_owner(evidence_kind),
            r matches Ok(v) ==> v == (CapabilityEvidenceRef { evidence_kind, source_ref }),
            r matches Err(e) ==> is_source_owner_error(e, "capability_evidence_ref"@, source_ref.source_owner),
    {
        let expected = match evidence_kind {
            CapabilityEvidenceKind::MethodArtifact => IdentitySourceOwner::MethodLibrary,
            CapabilityEvidenceKind::GovernanceBasis => IdentitySourceOwner::Governance,
            CapabilityEvidenceKind::WorkParticipationSummary => IdentitySourceOwner::Work,
            CapabilityEvidenceKind::IdentitySafeMarker => IdentitySourceOwner::Identity,
        };
        let allowed = [expected];
        match ensure_source_owner("capability_evidence_ref", &source_ref, &allowed) {
            Ok(()) => {},
            Err(e) => {
                return Err(e);
            },
        }
        assert(source_ref.source_owner == expected ==> allowed@[0] == source_ref.source_owner);
        Ok(CapabilityEvidenceRef { evidence_kind, source_ref })
    }

    /// Returns whether both evidence refs are equal.
    pub fn same_evidence(&self, other: &CapabilityEvidenceRef) -> (r: bool)
        ensures
            r == (self.evidence_kind == other.evidence_kind && same_source_spec(self.source_ref, other.source_ref)),
    {
        self.evidence_kind == other.evidence_kind && self.source_ref.same_source(&other.source_ref)
    }

    /// Returns whether the evidence ref is body-free.
    pub fn is_body_free(&self) -> (r: bool)
        ensures
            r,
    {
        true
    }
}

/// Body-free reference to a redaction-safe role or capability summary.
#[derive(Debug, Eq, Hash, PartialEq)]
pub struct RoleCapabilitySafeSummaryRef {
    /// Source this safe summary describes.
    pub source_ref: RoleCapabilitySourceRef,
    /// Opaque safe summary marker.
    pub safe_summary_token: String,
}

impl Clone for RoleCapabilitySafeSummaryRef {
    fn clone(&self) -> (r: Self)
        ensures
            r == *self,
    {
        RoleCapabilitySafeSummaryRef { source_ref: self.source_ref.clone(), safe_summary_token: self.safe_summary_token.clone() }
    }
}

impl RoleCapabilitySafeSummaryRef {
    /// Creates a new safe summary ref; the summary token must not be blank.
    pub fn new(source_ref: RoleCapabilitySourceRef, safe_summary_token: String) -> (r: Result<Self, ContractError>)
        ensures
            r is Ok <==> !is_blank_text(safe_summary_token@),
            r matches Ok(v) ==> v == (RoleCapabilitySafeSummaryRef { source_ref, safe_summary_token }),
            r matches Err(e) ==> is_non_empty_error(e, "role_capability_safe_summary_ref.safe_summary_token"@),
    {
        let safe_summary_token = match ensure_non_empty("role_capability_safe_summary_ref.safe_summary_token", safe_summary_token) {
            Ok(v) => v,
            Err(e) => {
                return Err(e);
            },
        };
        Ok(RoleCapabilitySafeSummaryRef { source_ref, safe_summary_token })
    }

    /// Returns whether the safe summary belongs to the provided source.
    pub fn belongs_to_source(&self, source_ref: &RoleCapabilitySourceRef) -> (r: bool)
        ensures
            r == same_role_capability_source_spec(self.source_ref, *source_ref),
    {
        self.source_ref.same_source(source_ref)
    }

    /// Returns whether both safe summary refs are equal.
    pub fn same_safe_summary(&self, other: &RoleCapabilitySafeSummaryRef) -> (r: bool)
        ensures
            r == (self.safe_summary_token@ == other.safe_summary_token@ && same_role_capability_source_spec(self.source_ref, other.source_ref)),
    {
        self.safe_summary_token == other.safe_summary_token && self.source_ref.same_source(&other.source_ref)
    }
}

/// Body-free reason reference for a role or capability summary change.
#[derive(Debug, Eq, Hash, PartialEq)]
pub struct RoleCapabilityChangeReasonRef {
    /// Reason kind for the role or capability change.
    pub reason_kind: RoleCapabilityChangeReasonKind,
    /// Body-free source that explains where the reason came from.
    pub source_ref: IdentitySourceRef,
}

impl Clone for RoleCapabilityChangeReasonRef {
    fn clone(&self) -> (r: Self)
        ensures
            r == *self,
    {
        RoleCapabilityChangeReasonRef { reason_kind: self.reason_kind.clone(), source_ref: self.source_ref.clone() }
    }
}

impl RoleCapabilityChangeReasonRef {
    /// Creates a new change reason ref.
    pub fn new(reason_kind: RoleCapabilityChangeReasonKind, source_ref: IdentitySourceRef) -> (r: Result<Self, ContractError>)
        ensures
            r == Ok::<RoleCapabilityChangeReasonRef, ContractError>(RoleCapabilityChangeReasonRef { reason_kind, source_ref }),
    {
        Ok(RoleCapabilityChangeReasonRef { reason_kind, source_ref })
    }

    /// Returns whether the reason is source-driven.
    pub fn is_source_driven(&self) -> (r: bool)
        ensures
            r == (self.reason_kind == RoleCapabilityChangeReasonKind::SourceChanged || self.reason_kind == RoleCapabilityChangeReasonKind::SourceUnavailable),
    {
        matches!(self.reason_kind, RoleCapabilityChangeReasonKind::SourceChanged | RoleCapabilityChangeReasonKind::SourceUnavailable)
    }

    /// Returns whether the reason implies reconciliation trace or report follow-up.
    pub fn requires_reconciliation_trace(&self) -> (r: bool)
        ensures
            r == (self.reason_kind == RoleCapabilityChangeReasonKind::ReconciliationCorrection),
    {
        self.reason_kind == RoleCapabilityChangeReasonKind::ReconciliationCorrection
    }
}

/// Reason category for role or capability summary changes.
#[derive(Clone, Copy, Debug, Eq, Hash, PartialEq, Structural)]
pub enum RoleCapabilityChangeReasonKind {
    /// Explicit member summary maintenance command.
    ManualSummaryMaintenance,
    /// Method-library source was changed.
    SourceChanged,
    /// Source became unavailable or unrecognized.
    SourceUnavailable,
    /// Reconciliation found drift that requires a controlled update.
    ReconciliationCorrection,
    /// Legacy or migration-safe summary import.
    MigrationImport,
}

/// Body-free material category for role or capability summary changes.
#[derive(Clone, Copy, Debug, Eq, Hash, PartialEq, Structural)]
pub enum RoleCapabilityChangeMaterialKind {
    /// Safe summary marker only.
    SafeSummaryMarker,
    /// Source reference and source version marker only.
    SourceVersionMarker,
    /// Evidence references only.
    EvidenceRefsOnly,
    /// Forbidden definition body was presented and must be rejected.
    ForbiddenDefinitionBody,
    /// Forbidden method body was presented and must be rejected.
    ForbiddenMethodBody,
    /// Forbidden evidence or artifact body was presented and must be rejected.
    ForbiddenEvidenceBody,
    /// Automatic scoring or performance inference material was presented and must be rejected.
    ForbiddenAutomaticScoring,
}

/// Material marker used by policy to block forbidden role or capability payloads.
#[derive(Debug, Eq, PartialEq)]
pub struct RoleCapabilityChangeMaterialMarker {
    /// Material category.
    pub material_kind: RoleCapabilityChangeMaterialKind,
    /// Optional source marker that supplied the material.
    pub source_ref: Option<IdentitySourceRef>,
}

impl Clone for RoleCapabilityChangeMaterialMarker {
    fn clone(&self) -> (r: Self)
        ensures
            r == *self,
    {
        RoleCapabilityChangeMaterialMarker { material_kind: self.material_kind.clone(), source_ref: self.source_ref.clone() }
    }
}

/// Whether a role or capability material category is forbidden.
pub open spec fn role_material_forbidden(kind: RoleCapabilityChangeMaterialKind) -> bool {
    ||| kind == RoleCapabilityChangeMaterialKind::ForbiddenDefinitionBody
    ||| kind == RoleCapabilityChangeMaterialKind::ForbiddenMethodBody
    ||| kind == RoleCapabilityChangeMaterialKind::ForbiddenEvidenceBody
    ||| kind == RoleCapabilityChangeMaterialKind::ForbiddenAutomaticScoring
}

/// The stable rejection code of a forbidden role or capability material category.
pub open spec fn role_material_rejection_code(kind: RoleCapabilityChangeMaterialKind) -> Option<Seq<char>> {
    match kind {
        RoleCapabilityChangeMaterialKind::ForbiddenDefinitionBody => Some("forbidden_definition_body"@),
        RoleCapabilityChangeMaterialKind::ForbiddenMethodBody => Some("forbidden_method_body"@),
        RoleCapabilityChangeMaterialKind::ForbiddenEvidenceBody => Some("forbidden_evidence_body"@),
        RoleCapabilityChangeMaterialKind::ForbiddenAutomaticScoring => Some("forbidden_automatic_scoring"@),
        _ => None,
    }
}

impl RoleCapabilityChangeMaterialMarker {
    /// Creates a new material marker.
    pub fn new(material_kind: RoleCapabilityChangeMaterialKind, source_ref: Option<IdentitySourceRef>) -> (r: Self)
        ensures
            r == (RoleCapabilityChangeMaterialMarker { material_kind, source_ref }),
    {
        RoleCapabilityChangeMaterialMarker { material_kind, source_ref }
    }

    /// Returns whether the material category is forbidden.
    pub fn is_forbidden(&self) -> (r: bool)
        ensures
            r == role_material_forbidden(self.material_kind),
    {
        matches!(self.material_kind, RoleCapabilityChangeMaterialKind::ForbiddenDefinitionBody | RoleCapabilityChangeMaterialKind::ForbiddenMethodBody | RoleCapabilityChangeMaterialKind::ForbiddenEvidenceBody | RoleCapabilityChangeMaterialKind::ForbiddenAutomaticScoring)
    }

    /// Returns whether the material only carries body-free markers.
    pub fn is_safe_marker_only(&self) -> (r: bool)
        ensures
            r == !role_material_forbidden(self.material_kind),
    {
        matches!(self.material_kind, RoleCapabilityChangeMaterialKind::SafeSummaryMarker | RoleCapabilityChangeMaterialKind::SourceVersionMarker | RoleCapabilityChangeMaterialKind::EvidenceRefsOnly)
    }

    /// Returns a stable rejection reason code for forbidden material.
    pub fn rejection_reason_code(&self) -> (r: Option<&'static str>)
        ensures
            r is Some == role_material_forbidden(self.material_kind),
            r matches Some(code) ==> role_material_rejection_code(self.material_kind) == Some(code@),
    {
        match self.material_kind {
            RoleCapabilityChangeMaterialKind::ForbiddenDefinitionBody => Some("forbidden_definition_body"),
            RoleCapabilityChangeMaterialKind::ForbiddenMethodBody => Some("forbidden_method_body"),
            RoleCapabilityChangeMaterialKind::ForbiddenEvidenceBody => Some("forbidden_evidence_body"),
            RoleCapabilityChangeMaterialKind::ForbiddenAutomaticScoring => Some("forbidden_automatic_scoring"),
            _ => None,
        }
    }
}

/// Typed reference to an identity-owned career record.
#[derive(Debug, Eq, Hash, Ord, PartialEq, PartialOrd)]
pub struct CareerRecordRef {
    /// Stable career record identifier.
    pub record_id: CareerRecordId,
}

impl Clone for CareerRecordRef {
    fn clone(&self) -> (r: Self)
        ensures
            r == *self,
    {
        CareerRecordRef { record_id: self.record_id.clone() }
    }
}

impl CareerRecordRef {
    /// Creates a typed ref from a validated career record identifier.
    pub fn from_id(record_id: CareerRecordId) -> (r: Self)
        ensures
            r.record_id == record_id,
    {
        CareerRecordRef { record_id }
    }

    /// Returns whether both refs refer to the same career record.
    pub fn same_record(&self, other: &CareerRecordRef) -> (r: bool)
        ensures
            r == (self.record_id@ == other.record_id@),
    {
        self.record_id.0 == other.record_id.0
    }
}

/// Body-free reference to a work-owned project participation source.
#[derive(Debug, Eq, Hash, PartialEq)]
pub struct ProjectParticipationRef {
    /// Work-owned source ref for project participation.
    pub source_ref: IdentitySourceRef,
}

impl Clone for ProjectParticipationRef {
    fn clone(&self) -> (r: Self)
        ensures
            r == *self,
    {
        ProjectParticipationRef { source_ref: self.source_ref.clone() }
    }
}

impl ProjectParticipationRef {
    /// Creates a typed project participation ref from a work-owned source ref.
    pub fn from_work_source(source_ref: IdentitySourceRef) -> (r: Result<Self, ContractError>)
        ensures
            r is Ok <==> (source_ref.source_owner == IdentitySourceOwner::Work),
            r matches Ok(v) ==> v == (ProjectParticipationRef { source_ref }),
            r matches Err(e) ==> is_source_owner_error(e, "project_participation_ref"@, source_ref.source_owner),
    {
        let allowed = [IdentitySourceOwner::Work];
        match ensure_source_owner("project_participation_ref", &source_ref, &allowed) {
            Ok(()) => {},
            Err(e) => {
                return Err(e);
            },
        }
        assert(source_ref.source_owner == IdentitySourceOwner::Work ==> allowed@[0] == source_ref.source_owner);
        Ok(ProjectParticipationRef { source_ref })
    }
}

/// Work source category used by identity career append.
#[derive(Clone, Copy, Debug, Eq, Hash, PartialEq, Structural)]
pub enum WorkSourceKind {
    /// Accepted project participation fact owned by work.
    ProjectParticipationAccepted,
    /// Work-side correction or replacement marker.
    WorkCorrection,
    /// Migration-safe work participation import.
    MigrationImport,
    /// Work participation source that requires review before accepted career append.
    PendingReviewMarker,
}

/// Body-free work source ref used by career append and correction.
#[derive(Debug, Eq, Hash, PartialEq)]
pub struct WorkSourceRef {
    /// Work source category.
    pub source_kind: WorkSourceKind,
    /// Work-owned body-free source reference.
    pub source_ref: IdentitySourceRef,
}

impl Clone for WorkSourceRef {
    fn clone(&self) -> (r: Self)
        ensures
            r == *self,
    {
        WorkSourceRef { source_kind: self.source_kind.clone(), source_ref: self.source_ref.clone() }
    }
}

/// Whether two work sources are the same.
pub open spec fn same_work_source_spec(a: WorkSourceRef, b: WorkSourceRef) -> bool {
    a.source_kind == b.source_kind && same_source_spec(a.source_ref, b.source_ref)
}

impl WorkSourceRef {
    /// Creates a new work source ref; the source must be work owned.
    pub fn new(source_kind: WorkSourceKind, source_ref: IdentitySourceRef) -> (r: Result<Self, ContractError>)
        ensures
            r is Ok <==> (source_ref.source_owner == IdentitySourceOwner::Work),
            r matches Ok(v) ==> v == (WorkSourceRef { source_kind, source_ref }),
            r matches Err(e) ==> is_source_owner_error(e, "work_source_ref"@, source_ref.source_owner),
    {
        let allowed = [IdentitySourceOwner::Work];
        match ensure_source_owner("work_source_ref", &source_ref, &allowed) {
            Ok(()) => {},
            Err(e) => {
                return Err(e);
            },
        }
        assert(source_ref.source_owner == IdentitySourceOwner::Work ==> allowed@[0] == source_ref.source_owner);
        Ok(WorkSourceRef { source_kind, source_ref })
    }

    /// Returns whether both work sources are the same.
    pub fn same_source(&self, other: &WorkSourceRef) -> (r: bool)
        ensures
            r == same_work_source_spec(*self, *other),
    {
        self.source_kind == other.source_kind && self.source_ref.same_source(&other.source_ref)
    }

    /// Returns whether the source is a pending-review marker.
    pub fn is_pending_review_marker(&self) -> (r: bool)
        ensures
            r == (self.source_kind == WorkSourceKind::PendingReviewMarker),
    {
        self.source_kind == WorkSourceKind::PendingReviewMarker
    }
}

/// Stable source marker used to prevent duplicate career records for the same work source.
#[derive(Debug, Eq, Hash, PartialEq)]
pub struct CareerSourceMarkerRef {
    /// Member that the source marker is associated with.
    pub member_ref: GlobalMemberRef,
    /// Work source represented by this marker.
    pub work_source_ref: WorkSourceRef,
    /// Opaque source-side or resolver-provided marker token.
    pub marker_token: String,
}

impl Clone for CareerSourceMarkerRef {
    fn clone(&self) -> (r: Self)
        ensures
            r == *self,
    {
        CareerSourceMarkerRef { member_ref: self.member_ref.clone(), work_source_ref: self.work_source_ref.clone(), marker_token: self.marker_token.clone() }
    }
}

/// Whether two career source markers are the same.
pub open spec fn same_marker_spec(a: CareerSourceMarkerRef, b: CareerSourceMarkerRef) -> bool {
    &&& a.member_ref.member_id@ == b.member_ref.member_id@
    &&& same_work_source_spec(a.work_source_ref, b.work_source_ref)
    &&& a.marker_token@ == b.marker_token@
}

impl CareerSourceMarkerRef {
    /// Creates a new career source marker; the marker token must not be blank.
    pub fn new(member_ref: GlobalMemberRef, work_source_ref: WorkSourceRef, marker_token: String) -> (r: Result<Self, ContractError>)
        ensures
            r is Ok <==> !is_blank_text(marker_token@),
            r matches Ok(v) ==> v == (CareerSourceMarkerRef { member_ref, work_source_ref, marker_token }),
            r matches Err(e) ==> is_non_empty_error(e, "career_source_marker_ref.marker_token"@),
    {
        let marker_token = match ensure_non_empty("career_source_marker_ref.marker_token", marker_token) {
            Ok(v) => v,
            Err(e) => {
                return Err(e);
            },
        };
        Ok(CareerSourceMarkerRef { member_ref, work_source_ref, marker_token })
    }

    /// Returns whether both source markers are the same.
    pub fn same_marker(&self, other: &CareerSourceMarkerRef) -> (r: bool)
        ensures
            r == same_marker_spec(*self, *other),
    {
        self.member_ref.same_member(&other.member_ref) && self.work_source_ref.same_source(&other.work_source_ref) && self.marker_token == other.marker_token
    }
}

/// Body-free reference to a redaction-safe career summary.
#[derive(Debug, Eq, Hash, PartialEq)]
pub struct CareerSafeSummaryRef {
    /// Work source this safe summary describes.
    pub work_source_ref: WorkSourceRef,
    /// Opaque safe summary marker.
    pub safe_summary_token: String,
}

impl Clone for CareerSafeSummaryRef {
    fn clone(&self) -> (r: Self)
        ensures
            r == *self,
    {
        CareerSafeSummaryRef { work_source_ref: self.work_source_ref.clone(), safe_summary_token: self.safe_summary_token.clone() }
    }
}

impl CareerSafeSummaryRef {
    /// Creates a new safe summary ref; the summary token must not be blank.
    pub fn new(work_source_ref: WorkSourceRef, safe_summary_token: String) -> (r: Result<Self, ContractError>)
        ensures
            r is Ok <==> !is_blank_text(safe_summary_token@),
            r matches Ok(v) ==> v == (CareerSafeSummaryRef { work_source_ref, safe_summary_token }),
            r matches Err(e) ==> is_non_empty_error(e, "career_safe_summary_ref.safe_summary_token"@),
    {
        let safe_summary_token = match ensure_non_empty("career_safe_summary_ref.safe_summary_token", safe_summary_token) {
            Ok(v) => v,
            Err(e) => {
                return Err(e);
            },
        };
        Ok(CareerSafeSummaryRef { work_source_ref, safe_summary_token })
    }

    /// Returns whether the safe summary belongs to the provided work source.
    pub fn belongs_to_source(&self, work_source_ref: &WorkSourceRef) -> (r: bool)
        ensures
            r == same_work_source_spec(self.work_source_ref, *work_source_ref),
    {
        self.work_source_ref.same_source(work_source_ref)
    }
}

/// Body-free reason reference for a career append or correction.
#[derive(Debug, Eq, Hash, PartialEq)]
pub struct CareerAppendReasonRef {
    /// Reason category for the career append.
    pub reason_kind: CareerAppendReasonKind,
    /// Body-free reason source.
    pub source_ref: IdentitySourceRef,
}

impl Clone for CareerAppendReasonRef {
    fn clone(&self) -> (r: Self)
        ensures
            r == *self,
    {
        CareerAppendReasonRef { reason_kind: self.reason_kind.clone(), source_ref: self.source_ref.clone() }
    }
}

impl CareerAppendReasonRef {
    /// Creates a new career append reason ref.
    pub fn new(reason_kind: CareerAppendReasonKind, source_ref: IdentitySourceRef) -> (r: Result<Self, ContractError>)
        ensures
            r == Ok::<CareerAppendReasonRef, ContractError>(CareerAppendReasonRef { reason_kind, source_ref }),
    {
        Ok(CareerAppendReasonRef { reason_kind, source_ref })
    }

    /// Returns whether the reason describes a correction append.
    pub fn is_correction(&self) -> (r: bool)
        ensures
            r == (self.reason_kind == CareerAppendReasonKind::CorrectionAppend),
    {
        self.reason_kind == CareerAppendReasonKind::CorrectionAppend
    }

    /// Returns whether the reason is driven by a source-side event or import.
    pub fn is_source_driven(&self) -> (r: bool)
        ensures
            r == (self.reason_kind == CareerAppendReasonKind::WorkParticipationAccepted || self.reason_kind == CareerAppendReasonKind::MigrationImport || self.reason_kind == CareerAppendReasonKind::SourcePendingReview),
    {
        matches!(self.reason_kind, CareerAppendReasonKind::WorkParticipationAccepted | CareerAppendReasonKind::MigrationImport | CareerAppendReasonKind::SourcePendingReview)
    }
}

/// Reason category for career history append.
#[derive(Clone, Copy, Debug, Eq, Hash, PartialEq, Structural)]
pub enum CareerAppendReasonKind {
    /// Explicit career append command.
    ManualAppend,
    /// Work participation accepted event.
    WorkParticipationAccepted,
    /// Correction of an existing career record.
    CorrectionAppend,
    /// Migration-safe import.
    MigrationImport,
    /// Source requires review and cannot enter accepted mainline yet.
    SourcePendingReview,
}

/// Body-free resolver summary for a work participation source used by career append.
#[derive(Debug, Eq, PartialEq)]
pub struct WorkParticipationSourceSummary {
    /// Project participation source ref.
    pub project_participation_ref: ProjectParticipationRef,
    /// Work source ref for the append.
    pub work_source_ref: WorkSourceRef,
    /// Stable source marker for duplicate detection.
    pub source_marker_ref: CareerSourceMarkerRef,
    /// Redaction-safe career summary marker, when available.
    pub safe_summary_ref: Option<CareerSafeSummaryRef>,
    /// Resolution state of the work source.
    pub source_state: WorkParticipationSourceState,
}

impl Clone for WorkParticipationSourceSummary {
    fn clone(&self) -> (r: Self)
        ensures
            r == *self,
    {
        WorkParticipationSourceSummary { project_participation_ref: self.project_participation_ref.clone(), work_source_ref: self.work_source_ref.clone(), source_marker_ref: self.source_marker_ref.clone(), safe_summary_ref: self.safe_summary_ref.clone(), source_state: self.source_state.clone() }
    }
}

/// Whether a work source summary is trusted for an accepted career append.
pub open spec fn work_source_trusted(s: WorkParticipationSourceSummary) -> bool {
    s.source_state == WorkParticipationSourceState::Trusted && s.safe_summary_ref is Some
}

/// Whether a work source summary requires formal review.
pub open spec fn work_source_requires_review(s: WorkParticipationSourceSummary) -> bool {
    ||| s.source_state == WorkParticipationSourceState::PendingReview
    ||| s.source_state == WorkParticipationSourceState::Unresolved
    ||| s.source_state == WorkParticipationSourceState::Untrusted
}

impl WorkParticipationSourceSummary {
    /// Creates a body-free source summary from resolver output.
    pub fn from_resolver(project_participation_ref: ProjectParticipationRef, work_source_ref: WorkSourceRef, source_marker_ref: CareerSourceMarkerRef, safe_summary_ref: Option<CareerSafeSummaryRef>, source_state: WorkParticipationSourceState) -> (r: Self)
        ensures
            r == (WorkParticipationSourceSummary { project_participation_ref, work_source_ref, source_marker_ref, safe_summary_ref, source_state }),
    {
        WorkParticipationSourceSummary { project_participation_ref, work_source_ref, source_marker_ref, safe_summary_ref, source_state }
    }

    /// Returns whether the source is trusted for an accepted career append.
    pub fn is_trusted(&self) -> (r: bool)
        ensures
            r == work_source_trusted(*self),
    {
        self.source_state == WorkParticipationSourceState::Trusted && self.safe_summary_ref.is_some()
    }

    /// Returns whether the source requires formal review.
    pub fn requires_review(&self) -> (r: bool)
        ensures
            r == work_source_requires_review(*self),
    {
        matches!(self.source_state, WorkParticipationSourceState::PendingReview | WorkParticipationSourceState::Unresolved | WorkParticipationSourceState::Untrusted)
    }

    /// Returns whether a safe summary marker is present.
    pub fn has_safe_summary(&self) -> (r: bool)
        ensures
            r == self.safe_summary_ref is Some,
    {
        self.safe_summary_ref.is_some()
    }
}

/// Resolution state for a work participation source summary.
#[derive(Clone, Copy, Debug, Eq, Hash, PartialEq, Structural)]
pub enum WorkParticipationSourceState {
    /// Source is trusted for accepted career append.
    Trusted,
    /// Source exists but requires formal review before accepted append.
    PendingReview,
    /// Source cannot be mapped to a member or source marker.
    Unresolved,
    /// Source is known but not trusted for career append.
    Untrusted,
    /// Work dependency is unavailable.
    Unavailable,
}

/// Requested career record change intent.
#[derive(Clone, Copy, Debug, Eq, Hash, PartialEq, Structural)]
pub enum CareerRecordChangeIntent {
    /// Append a new career record.
    AppendNew,
    /// Append a new correction record.
    AppendCorrection,
    /// Hold the source marker for formal review.
    MarkSourcePendingReview,
    /// Forbidden in-place update of an existing record.
    ForbiddenInPlaceUpdate,
    /// Forbidden delete of an existing record.
    ForbiddenDelete,
    /// Forbidden reorder of career history.
    ForbiddenReorder,
}

/// Body-free career append material category.
#[derive(Clone, Copy, Debug, Eq, Hash, PartialEq, Structural)]
pub enum CareerAppendMaterialKind {
    /// Safe career summary marker only.
    SafeSummaryMarker,
    /// Work source marker only.
    SourceMarkerOnly,
    /// Correction marker only.
    CorrectionMarkerOnly,
    /// Forbidden project body was presented.
    ForbiddenProjectBody,
    /// Forbidden work item body was presented.
    ForbiddenWorkItemBody,
    /// Forbidden project-member body was presented.
    ForbiddenProjectMemberBody,
    /// Forbidden artifact or work evidence body was presented.
    ForbiddenArtifactBody,
}

/// Material marker used by career append policy.
#[derive(Debug, Eq, PartialEq)]
pub struct CareerAppendMaterialMarker {
    /// Material category.
    pub material_kind: CareerAppendMaterialKind,
    /// Optional body-free source marker for the material.
    pub source_ref: Option<IdentitySourceRef>,
}

impl Clone for CareerAppendMaterialMarker {
    fn clone(&self) -> (r: Self)
        ensures
            r == *self,
    {
        CareerAppendMaterialMarker { material_kind: self.material_kind.clone(), source_ref: self.source_ref.clone() }
    }
}

/// Typed reference to an identity-owned memory reference relation.
#[derive(Debug, Eq, Hash, Ord, PartialEq, PartialOrd)]
pub struct MemoryReferenceRef {
    /// Stable memory reference identifier.
    pub reference_id: MemoryReferenceId,
}

impl Clone for MemoryReferenceRef {
    fn clone(&self) -> (r: Self)
        ensures
            r == *self,
    {
        MemoryReferenceRef { reference_id: self.reference_id.clone() }
    }
}

impl MemoryReferenceRef {
    /// Creates a typed ref from a validated memory reference identifier.
    pub fn from_id(reference_id: MemoryReferenceId) -> (r: Self)
        ensures
            r.reference_id == reference_id,
    {
        MemoryReferenceRef { reference_id }
    }

    /// Returns whether both refs refer to the same memory relation.
    pub fn same_reference(&self, other: &MemoryReferenceRef) -> (r: bool)
        ensures
            r == (self.reference_id@ == other.reference_id@),
    {
        self.reference_id.0 == other.reference_id.0
    }
}

/// External memory or archive carrier category.
#[derive(Clone, Copy, Debug, Eq, Hash, PartialEq, Structural)]
pub enum MemoryCarrierKind {
    /// Active memory carrier reference.
    Memory,
    /// Archive or cold-storage carrier reference.
    Archive,
    /// Migration or handoff marker.
    ArchiveHandoff,
}

/// Body-free reference to an external memory carrier.
#[derive(Debug, Eq, Hash, PartialEq)]
pub struct MemoryRef {
    /// Memory or archive owned source ref.
    pub source_ref: IdentitySourceRef,
}

impl Clone for MemoryRef {
    fn clone(&self) -> (r: Self)
        ensures
            r == *self,
    {
        MemoryRef { source_ref: self.source_ref.clone() }
    }
}

impl MemoryRef {
    /// Creates a typed memory ref from a memory-archive source ref.
    pub fn from_source(source_ref: IdentitySourceRef) -> (r: Result<Self, ContractError>)
        ensures
            r is Ok <==> (source_ref.source_owner == IdentitySourceOwner::MemoryArchive),
            r matches Ok(v) ==> v == (MemoryRef { source_ref }),
            r matches Err(e) ==> is_source_owner_error(e, "memory_ref"@, source_ref.source_owner),
    {
        let allowed = [IdentitySourceOwner::MemoryArchive];
        match ensure_source_owner("memory_ref", &source_ref, &allowed) {
            Ok(()) => {},
            Err(e) => {
                return Err(e);
            },
        }
        assert(source_ref.source_owner == IdentitySourceOwner::MemoryArchive ==> allowed@[0] == source_ref.source_owner);
        Ok(MemoryRef { source_ref })
    }
}

/// Body-free reference to an external archive or cold-storage carrier.
#[derive(Debug, Eq, Hash, PartialEq)]
pub struct ArchiveRef {
    /// Archive-owned source ref.
    pub source_ref: IdentitySourceRef,
}

impl Clone for ArchiveRef {
    fn clone(&self) -> (r: Self)
        ensures
            r == *self,
    {
        ArchiveRef { source_ref: self.source_ref.clone() }
    }
}

impl ArchiveRef {
    /// Creates a typed archive ref from a memory-archive source ref.
    pub fn from_source(source_ref: IdentitySourceRef) -> (r: Result<Self, ContractError>)
        ensures
            r is Ok <==> (source_ref.source_owner == IdentitySourceOwner::MemoryArchive),
            r matches Ok(v) ==> v == (ArchiveRef { source_ref }),
            r matches Err(e) ==> is_source_owner_error(e, "archive_ref"@, source_ref.source_owner),
    {
        let allowed = [IdentitySourceOwner::MemoryArchive];
        match ensure_source_owner("archive_ref", &source_ref, &allowed) {
            Ok(()) => {},
            Err(e) => {
                return Err(e);
            },
        }
        assert(source_ref.source_owner == IdentitySourceOwner::MemoryArchive ==> allowed@[0] == source_ref.source_owner);
        Ok(ArchiveRef { source_ref })
    }
}

/// Body-free archive handoff or migration marker.
#[derive(Debug, Eq, Hash, PartialEq)]
pub struct ArchiveHandoffRef {
    /// Handoff marker source ref.
    pub source_ref: IdentitySourceRef,
    /// Opaque handoff marker token.
    pub handoff_token: String,
}

impl Clone for ArchiveHandoffRef {
    fn clone(&self) -> (r: Self)
        ensures
            r == *self,
    {
        ArchiveHandoffRef { source_ref: self.source_ref.clone(), handoff_token: self.handoff_token.clone() }
    }
}

impl ArchiveHandoffRef {
    /// Creates a new handoff marker: the source must be memory-archive or identity
    /// owned, and then the handoff token must not be blank.
    pub fn new(source_ref: IdentitySourceRef, handoff_token: String) -> (r: Result<Self, ContractError>)
        ensures
            r is Ok <==> ((source_ref.source_owner == IdentitySourceOwner::MemoryArchive || source_ref.source_owner == IdentitySourceOwner::Identity) && !is_blank_text(handoff_token@)),
            r matches Ok(v) ==> v == (ArchiveHandoffRef { source_ref, handoff_token }),
            r matches Err(e) ==> if source_ref.source_owner == IdentitySourceOwner::MemoryArchive || source_ref.source_owner == IdentitySourceOwner::Identity {
                is_non_empty_error(e, "archive_handoff_ref.handoff_token"@)
            } else {
                is_source_owner_error(e, "archive_handoff_ref"@, source_ref.source_owner)
            },
    {
        let allowed = [IdentitySourceOwner::MemoryArchive, IdentitySourceOwner::Identity];
        match ensure_source_owner("archive_handoff_ref", &source_ref, &allowed) {
            Ok(()) => {},
            Err(e) => {
                return Err(e);
            },
        }
        assert(source_ref.source_owner == IdentitySourceOwner::MemoryArchive ==> allowed@[0] == source_ref.source_owner);
        assert(source_ref.source_owner == IdentitySourceOwner::Identity ==> allowed@[1] == source_ref.source_owner);
        let handoff_token = match ensure_non_empty("archive_handoff_ref.handoff_token", handoff_token) {
            Ok(v) => v,
            Err(e) => {
                return Err(e);
            },
        };
        Ok(ArchiveHandoffRef { source_ref, handoff_token })
    }

    /// Returns whether both handoff refs are equal.
    pub fn same_handoff(&self, other: &ArchiveHandoffRef) -> (r: bool)
        ensures
            r == (self.handoff_token@ == other.handoff_token@ && same_source_spec(self.source_ref, other.source_ref)),
    {
        self.handoff_token == other.handoff_token && self.source_ref.same_source(&other.source_ref)
    }
}

/// Body-free source ref for a memory reference change.
#[derive(Debug, Eq, Hash, PartialEq)]
pub struct MemoryReferenceSourceRef {
    /// Source category for the memory reference change.
    pub source_kind: MemoryReferenceSourceKind,
    /// Body-free source ref.
    pub source_ref: IdentitySourceRef,
}

impl Clone for MemoryReferenceSourceRef {
    fn clone(&self) -> (r: Self)
        ensures
            r == *self,
    {
        MemoryReferenceSourceRef { source_kind: self.source_kind.clone(), source_ref: self.source_ref.clone() }
    }
}

/// Whether a source owner is accepted for a memory reference source category.
pub open spec fn memory_source_owner_allowed(kind: MemoryReferenceSourceKind, owner: IdentitySourceOwner) -> bool {
    match kind {
        MemoryReferenceSourceKind::MemorySourceEvent => owner == IdentitySourceOwner::MemoryArchive,
        MemoryReferenceSourceKind::ArchiveHandoffResult => owner == IdentitySourceOwner::MemoryArchive || owner == IdentitySourceOwner::Identity,
        MemoryReferenceSourceKind::ManualCommand => owner == IdentitySourceOwner::Identity,
        MemoryReferenceSourceKind::MigrationImport => owner == IdentitySourceOwner::Identity || owner == IdentitySourceOwner::MemoryArchive,
        MemoryReferenceSourceKind::ReferenceRefreshMarker => owner == IdentitySourceOwner::Identity,
    }
}

/// Whether two memory reference sources are the same.
pub open spec fn same_memory_source_spec(a: MemoryReferenceSourceRef, b: MemoryReferenceSourceRef) -> bool {
    a.source_kind == b.source_kind && same_source_spec(a.source_ref, b.source_ref)
}

impl MemoryReferenceSourceRef {
    /// Creates a new memory reference source ref; the source owner must be one the
    /// source category accepts.
    pub fn new(source_kind: MemoryReferenceSourceKind, source_ref: IdentitySourceRef) -> (r: Result<Self, ContractError>)
        ensures
            r is Ok <==> memory_source_owner_allowed(source_kind, source_ref.source_owner),
            r matches Ok(v) ==> v == (MemoryReferenceSourceRef { source_kind, source_ref }),
            r matches Err(e) ==> is_source_owner_error(e, "memory_reference_source_ref"@, source_ref.source_owner),
    {
        let archive_only = [IdentitySourceOwner::MemoryArchive];
        let archive_or_identity = [IdentitySourceOwner::MemoryArchive, IdentitySourceOwner::Identity];
        let identity_only = [IdentitySourceOwner::Identity];
        let identity_or_archive = [IdentitySourceOwner::Identity, IdentitySourceOwner::MemoryArchive];
        let allowed: &[IdentitySourceOwner] = match source_kind {
            MemoryReferenceSourceKind::MemorySourceEvent => &archive_only,
            MemoryReferenceSourceKind::ArchiveHandoffResult => &archive_or_identity,
            MemoryReferenceSourceKind::ManualCommand => &identity_only,
            MemoryReferenceSourceKind::MigrationImport => &identity_or_archive,
            MemoryReferenceSourceKind::ReferenceRefreshMarker => &identity_only,
        };
        proof {
            let o = source_ref.source_owner;
            assert(allowed@.contains(o) <==> memory_source_owner_allowed(source_kind, o)) by {
                if memory_source_owner_allowed(source_kind, o) {
                    if allowed@.len() == 1 {
                        assert(allowed@[0] == o);
                    } else if allowed@[0] == o {
                    } else {
                        assert(allowed@[1] == o);
                    }
                }
            }
        }
        match ensure_source_owner("memory_reference_source_ref", &source_ref, allowed) {
            Ok(()) => {},
            Err(e) => {
                return Err(e);
            },
        }
        Ok(MemoryReferenceSourceRef { source_kind, source_ref })
    }

    /// Returns whether this source describes a handoff result.
    pub fn is_handoff_result(&self) -> (r: bool)
        ensures
            r == (self.source_kind == MemoryReferenceSourceKind::ArchiveHandoffResult),
    {
        self.source_kind == MemoryReferenceSourceKind::ArchiveHandoffResult
    }
}

/// Source category for memory reference changes.
#[derive(Clone, Copy, Debug, Eq, Hash, PartialEq, Structural)]
pub enum MemoryReferenceSourceKind {
    /// Explicit maintain command.
    ManualCommand,
    /// Memory carrier source-state event.
    MemorySourceEvent,
    /// Archive or cold-storage handoff result.
    ArchiveHandoffResult,
    /// Migration-safe import.
    MigrationImport,
    /// Reference refresh or reconciliation marker.
    ReferenceRefreshMarker,
}

/// Body-free reference to a redaction-safe memory or archive summary.
#[derive(Debug, Eq, Hash, PartialEq)]
pub struct MemorySafeSummaryRef {
    /// Carrier source this safe summary describes.
    pub source_ref: MemoryReferenceSourceRef,
    /// Opaque safe summary marker.
    pub safe_summary_token: String,
}

impl Clone for MemorySafeSummaryRef {
    fn clone(&self) -> (r: Self)
        ensures
            r == *self,
    {
        MemorySafeSummaryRef { source_ref: self.source_ref.clone(), safe_summary_token: self.safe_summary_token.clone() }
    }
}

impl MemorySafeSummaryRef {
    /// Creates a new safe summary ref; the summary token must not be blank.
    pub fn new(source_ref: MemoryReferenceSourceRef, safe_summary_token: String) -> (r: Result<Self, ContractError>)
        ensures
            r is Ok <==> !is_blank_text(safe_summary_token@),
            r matches Ok(v) ==> v == (MemorySafeSummaryRef { source_ref, safe_summary_token }),
            r matches Err(e) ==> is_non_empty_error(e, "memory_safe_summary_ref.safe_summary_token"@),
    {
        let safe_summary_token = match ensure_non_empty("memory_safe_summary_ref.safe_summary_token", safe_summary_token) {
            Ok(v) => v,
            Err(e) => {
                return Err(e);
            },
        };
        Ok(MemorySafeSummaryRef { source_ref, safe_summary_token })
    }

    /// Returns whether the safe summary belongs to the provided source.
    pub fn belongs_to_source(&self, source_ref: &MemoryReferenceSourceRef) -> (r: bool)
        ensures
            r == same_memory_source_spec(self.source_ref, *source_ref),
    {
        self.source_ref.source_kind == source_ref.source_kind && self.source_ref.source_ref.same_source(&source_ref.source_ref)
    }
}

/// Body-free reason reference for a memory reference change.
#[derive(Debug, Eq, Hash, PartialEq)]
pub struct MemoryReferenceReasonRef {
    /// Reason category.
    pub reason_kind: MemoryReferenceReasonKind,
    /// Body-free reason source.
    pub source_ref: IdentitySourceRef,
}

impl Clone for MemoryReferenceReasonRef {
    fn clone(&self) -> (r: Self)
        ensures
            r == *self,
    {
        MemoryReferenceReasonRef { reason_kind: self.reason_kind.clone(), source_ref: self.source_ref.clone() }
    }
}

impl MemoryReferenceReasonRef {
    /// Creates a new memory reference reason ref.
    pub fn new(reason_kind: MemoryReferenceReasonKind, source_ref: IdentitySourceRef) -> (r: Result<Self, ContractError>)
        ensures
            r == Ok::<MemoryReferenceReasonRef, ContractError>(MemoryReferenceReasonRef { reason_kind, source_ref }),
    {
        Ok(MemoryReferenceReasonRef { reason_kind, source_ref })
    }
}

/// Reason category for memory reference changes.
#[derive(Clone, Copy, Debug, Eq, Hash, PartialEq, Structural)]
pub enum MemoryReferenceReasonKind {
    /// Link or refresh requested by command.
    ManualMaintain,
    /// Carrier source state changed.
    SourceStateChanged,
    /// Archive or migration result was received.
    ArchiveHandoffResult,
    /// Source is unavailable or pending verification.
    SourcePendingVerification,
    /// Migration-safe import.
    MigrationImport,
}

/// Body-free source summary for memory or archive reference changes.
#[derive(Debug, Eq, PartialEq)]
pub struct MemoryReferenceSourceSummary {
    /// Memory reference source.
    pub source_ref: MemoryReferenceSourceRef,
    /// Optional memory carrier ref.
    pub memory_ref: Option<MemoryRef>,
    /// Optional archive carrier ref.
    pub archive_ref: Option<ArchiveRef>,
    /// Optional archive handoff marker.
    pub archive_handoff_ref: Option<ArchiveHandoffRef>,
    /// Optional redaction-safe summary marker.
    pub safe_summary_ref: Option<MemorySafeSummaryRef>,
    /// Source state returned by resolver or event mapper.
    pub source_state: MemoryReferenceSourceState,
}

impl Clone for MemoryReferenceSourceSummary {
    fn clone(&self) -> (r: Self)
        ensures
            r == *self,
    {
        MemoryReferenceSourceSummary { source_ref: self.source_ref.clone(), memory_ref: self.memory_ref.clone(), archive_ref: self.archive_ref.clone(), archive_handoff_ref: self.archive_handoff_ref.clone(), safe_summary_ref: self.safe_summary_ref.clone(), source_state: self.source_state.clone() }
    }
}

/// Whether a memory source summary carries at least one formal marker.
pub open spec fn memory_summary_has_reference(s: MemoryReferenceSourceSummary) -> bool {
    s.memory_ref is Some || s.archive_ref is Some || s.archive_handoff_ref is Some
}

/// Whether a memory source summary requires verification or refresh.
pub open spec fn memory_summary_requires_verification(s: MemoryReferenceSourceSummary) -> bool {
    ||| s.source_state == MemoryReferenceSourceState::Stale
    ||| s.source_state == MemoryReferenceSourceState::Unavailable
    ||| s.source_state == MemoryReferenceSourceState::PendingVerification
    ||| s.source_state == MemoryReferenceSourceState::HandoffResultFailed
    ||| s.source_state == MemoryReferenceSourceState::Untrusted
}

impl MemoryReferenceSourceSummary {
    /// Creates a body-free source summary from resolver or event output.
    pub fn from_resolver(source_ref: MemoryReferenceSourceRef, memory_ref: Option<MemoryRef>, archive_ref: Option<ArchiveRef>, archive_handoff_ref: Option<ArchiveHandoffRef>, safe_summary_ref: Option<MemorySafeSummaryRef>, source_state: MemoryReferenceSourceState) -> (r: Self)
        ensures
            r == (MemoryReferenceSourceSummary { source_ref, memory_ref, archive_ref, archive_handoff_ref, safe_summary_ref, source_state }),
    {
        MemoryReferenceSourceSummary { source_ref, memory_ref, archive_ref, archive_handoff_ref, safe_summary_ref, source_state }
    }

    /// Returns whether at least one formal marker is present.
    pub fn has_reference(&self) -> (r: bool)
        ensures
            r == memory_summary_has_reference(*self),
    {
        self.memory_ref.is_some() || self.archive_ref.is_some() || self.archive_handoff_ref.is_some()
    }

    /// Returns whether the source is trusted for an accepted relation change.
    pub fn is_trusted(&self) -> (r: bool)
        ensures
            r == ((self.source_state == MemoryReferenceSourceState::Trusted || self.source_state == MemoryReferenceSourceState::HandoffResultAccepted) && memory_summary_has_reference(*self)),
    {
        matches!(self.source_state, MemoryReferenceSourceState::Trusted | MemoryReferenceSourceState::HandoffResultAccepted) && self.has_reference()
    }

    /// Returns whether the source requires verification or refresh.
    pub fn requires_verification(&self) -> (r: bool)
        ensures
            r == memory_summary_requires_verification(*self),
    {
        matches!(self.source_state, MemoryReferenceSourceState::Stale | MemoryReferenceSourceState::Unavailable | MemoryReferenceSourceState::PendingVerification | MemoryReferenceSourceState::HandoffResultFailed | MemoryReferenceSourceState::Untrusted)
    }
}

/// Source state for memory or archive reference changes.
#[derive(Clone, Copy, Debug, Eq, Hash, PartialEq, Structural)]
pub enum MemoryReferenceSourceState {
    /// Source is trusted and usable for a linked relation.
    Trusted,
    /// Source is stale and requires refresh.
    Stale,
    /// Source cannot currently be resolved.
    Unavailable,
    /// Source requires formal verification before accepted relation.
    PendingVerification,
    /// Archive or migration result is accepted as a marker.
    HandoffResultAccepted,
    /// Archive or migration result failed.
    HandoffResultFailed,
    /// Source is unrecognized or not trusted.
    Untrusted,
}

/// Requested memory reference change intent.
#[derive(Clone, Copy, Debug, Eq, Hash, PartialEq, Structural)]
pub enum MemoryReferenceChangeIntent {
    /// Link a memory reference.
    LinkMemory,
    /// Refresh relation state from a source marker.
    RefreshState,
    /// Attach archive or cold-storage reference.
    AttachArchive,
    /// Record archive handoff result marker.
    RecordArchiveHandoffResult,
    /// Mark the relation pending verification.
    MarkPendingVerification,
    /// Forbidden write to external carrier truth.
    ForbiddenExternalOwnerWrite,
    /// Forbidden delete of external memory or archive body.
    ForbiddenExternalBodyDelete,
}

/// Body-free material category for memory reference changes.
#[derive(Clone, Copy, Debug, Eq, Hash, PartialEq, Structural)]
pub enum MemoryReferenceChangeMaterialKind {
    /// Safe memory or archive summary marker only.
    SafeSummaryMarker,
    /// Memory or archive refs only.
    ReferenceMarkersOnly,
    /// Archive handoff marker only.
    HandoffMarkerOnly,
    /// Forbidden memory body was presented.
    ForbiddenMemoryBody,
    /// Forbidden embedding or index material was presented.
    ForbiddenEmbeddingOrIndex,
    /// Forbidden archive package or package metadata was presented.
    ForbiddenArchivePackage,
    /// Forbidden artifact, conversation, or receipt body was presented.
    ForbiddenExternalBody,
}

/// Material marker used by memory reference policy.
#[derive(Debug, Eq, PartialEq)]
pub struct MemoryReferenceChangeMaterialMarker {
    /// Material category.
    pub material_kind: MemoryReferenceChangeMaterialKind,
    /// Optional body-free source marker.
    pub source_ref: Option<IdentitySourceRef>,
}

impl Clone for MemoryReferenceChangeMaterialMarker {
    fn clone(&self) -> (r: Self)
        ensures
            r == *self,
    {
        MemoryReferenceChangeMaterialMarker { material_kind: self.material_kind.clone(), source_ref: self.source_ref.clone() }
    }
}

/// Projection source cursor marker used by projection freshness helpers.
#[derive(Debug, Eq, Hash, PartialEq)]
pub struct IdentityProjectionCursorRef {
    /// Opaque projection source cursor marker.
    pub source_cursor_ref: IdentitySourceRef,
}

impl Clone for IdentityProjectionCursorRef {
    fn clone(&self) -> (r: Self)
        ensures
            r == *self,
    {
        IdentityProjectionCursorRef { source_cursor_ref: self.source_cursor_ref.clone() }
    }
}

impl IdentityProjectionCursorRef {
    /// Creates a new projection source cursor marker.
    pub fn new(source_cursor_ref: IdentitySourceRef) -> (r: Self)
        ensures
            r == (IdentityProjectionCursorRef { source_cursor_ref }),
    {
        IdentityProjectionCursorRef { source_cursor_ref }
    }
}

/// External reference category used by identity without owning external truth.
#[derive(Clone, Copy, Debug, Eq, Hash, PartialEq, Structural)]
pub enum ExternalReferenceKind {
    /// Method-library role or capability source.
    MethodSource,
    /// Work participation source.
    WorkParticipation,
    /// Governance basis source.
    GovernanceBasis,
    /// Memory carrier source.
    Memory,
    /// Archive package or handoff target source.
    Archive,
    /// Runtime or observability source marker.
    RuntimeSignal,
}

/// Body-free reference to an external truth owner.
#[derive(Debug, Eq, Hash, PartialEq)]
pub struct ExternalReferenceRef {
    /// External reference category.
    pub reference_kind: ExternalReferenceKind,
    /// Opaque external reference marker.
    pub source_ref: IdentitySourceRef,
}

impl Clone for ExternalReferenceRef {
    fn clone(&self) -> (r: Self)
        ensures
            r == *self,
    {
        ExternalReferenceRef { reference_kind: self.reference_kind.clone(), source_ref: self.source_ref.clone() }
    }
}

impl ExternalReferenceRef {
    /// Creates a new external reference marker.
    pub fn new(reference_kind: ExternalReferenceKind, source_ref: IdentitySourceRef) -> (r: Self)
        ensures
            r == (ExternalReferenceRef { reference_kind, source_ref }),
    {
        ExternalReferenceRef { reference_kind, source_ref }
    }
}

/// Identity object category that owns the local use of an external reference.
#[derive(Clone, Copy, Debug, Eq, Hash, PartialEq, Structural)]
pub enum IdentityReferenceOwnerKind {
    /// Role capability summary or source snapshot.
    RoleCapability,
    /// Career record or career source marker.
    CareerRecord,
    /// Memory reference relation.
    MemoryReference,
    /// Lifecycle governance basis.
    LifecycleBasis,
    /// Projection or maintenance marker.
    Maintenance,
}

/// Body-free reference to the local identity owner of an external reference.
#[derive(Debug, Eq, Hash, PartialEq)]
pub struct IdentityReferenceOwnerRef {
    /// Owner category.
    pub owner_kind: IdentityReferenceOwnerKind,
    /// Opaque owner marker.
    pub owner_ref: IdentitySourceRef,
}

impl Clone for IdentityReferenceOwnerRef {
    fn clone(&self) -> (r: Self)
        ensures
            r == *self,
    {
        IdentityReferenceOwnerRef { owner_kind: self.owner_kind.clone(), owner_ref: self.owner_ref.clone() }
    }
}

impl IdentityReferenceOwnerRef {
    /// Creates a new local owner marker for an external reference.
    pub fn new(owner_kind: IdentityReferenceOwnerKind, owner_ref: IdentitySourceRef) -> (r: Self)
        ensures
            r == (IdentityReferenceOwnerRef { owner_kind, owner_ref }),
    {
        IdentityReferenceOwnerRef { owner_kind, owner_ref }
    }
}

/// External source version marker.
#[derive(Debug, Eq, Hash, PartialEq)]
pub struct ExternalSourceVersionRef {
    /// Opaque external version marker.
    pub version_ref: IdentitySourceRef,
}

impl Clone for ExternalSourceVersionRef {
    fn clone(&self) -> (r: Self)
        ensures
            r == *self,
    {
        ExternalSourceVersionRef { version_ref: self.version_ref.clone() }
    }
}

impl ExternalSourceVersionRef {
    /// Creates a new external source version marker.
    pub fn new(version_ref: IdentitySourceRef) -> (r: Self)
        ensures
            r == (ExternalSourceVersionRef { version_ref }),
    {
        ExternalSourceVersionRef { version_ref }
    }
}

/// Body-free safe summary marker for a resolved external reference.
#[derive(Debug, Eq, PartialEq)]
pub struct ExternalReferenceSafeSummaryRef {
    /// External reference being summarized.
    pub external_reference_ref: ExternalReferenceRef,
    /// Opaque safe summary source marker.
    pub safe_summary_ref: IdentitySourceRef,
}

impl Clone for ExternalReferenceSafeSummaryRef {
    fn clone(&self) -> (r: Self)
        ensures
            r == *self,
    {
        ExternalReferenceSafeSummaryRef { external_reference_ref: self.external_reference_ref.clone(), safe_summary_ref: self.safe_summary_ref.clone() }
    }
}

impl ExternalReferenceSafeSummaryRef {
    /// Creates a new safe summary marker for an external reference.
    pub fn new(external_reference_ref: ExternalReferenceRef, safe_summary_ref: IdentitySourceRef) -> (r: Self)
        ensures
            r == (ExternalReferenceSafeSummaryRef { external_reference_ref, safe_summary_ref }),
    {
        ExternalReferenceSafeSummaryRef { external_reference_ref, safe_summary_ref }
    }
}

/// Maintenance scope marker for rebuild, refresh, and reconciliation paths.
#[derive(Debug, Eq, Hash, PartialEq)]
pub struct MaintenanceScopeRef {
    /// Opaque maintenance scope marker.
    pub scope_ref: IdentitySourceRef,
}

impl Clone for MaintenanceScopeRef {
    fn clone(&self) -> (r: Self)
        ensures
            r == *self,
    {
        MaintenanceScopeRef { scope_ref: self.scope_ref.clone() }
    }
}

impl MaintenanceScopeRef {
    /// Creates a new maintenance scope marker.
    pub fn new(scope_ref: IdentitySourceRef) -> (r: Self)
        ensures
            r == (MaintenanceScopeRef { scope_ref }),
    {
        MaintenanceScopeRef { scope_ref }
    }
}

/// Formal outbox delivery attempt marker.
#[derive(Debug, Eq, Hash, PartialEq)]
pub struct OutboxDeliveryAttemptRef {
    /// Opaque attempt source marker.
    pub attempt_ref: IdentitySourceRef,
}

impl Clone for OutboxDeliveryAttemptRef {
    fn clone(&self) -> (r: Self)
        ensures
            r == *self,
    {
        OutboxDeliveryAttemptRef { attempt_ref: self.attempt_ref.clone() }
    }
}

impl OutboxDeliveryAttemptRef {
    /// Creates a new outbox delivery attempt marker.
    pub fn new(attempt_ref: IdentitySourceRef) -> (r: Self)
        ensures
            r == (OutboxDeliveryAttemptRef { attempt_ref }),
    {
        OutboxDeliveryAttemptRef { attempt_ref }
    }
}

/// Safe outbox delivery issue marker.
#[derive(Debug, Eq, Hash, PartialEq)]
pub struct OutboxDeliveryIssueRef {
    /// Opaque issue source marker.
    pub issue_ref: IdentitySourceRef,
}

impl Clone for OutboxDeliveryIssueRef {
    fn clone(&self) -> (r: Self)
        ensures
            r == *self,
    {
        OutboxDeliveryIssueRef { issue_ref: self.issue_ref.clone() }
    }
}

impl OutboxDeliveryIssueRef {
    /// Creates a new outbox delivery issue marker.
    pub fn new(issue_ref: IdentitySourceRef) -> (r: Self)
        ensures
            r == (OutboxDeliveryIssueRef { issue_ref }),
    {
        OutboxDeliveryIssueRef { issue_ref }
    }
}

/// Identity accepted change category.
#[derive(Clone, Copy, Debug, Eq, Hash, PartialEq, Structural)]
pub enum IdentityChangeKind {
    /// Member anchor was established or held.
    MemberAnchorChanged,
    /// Lifecycle state changed.
    LifecycleChanged,
    /// Role capability summary changed.
    RoleCapabilitySummaryChanged,
    /// Career record was appended or corrected.
    CareerRecordChanged,
    /// Memory reference changed.
    MemoryReferenceChanged,
    /// Trace correction was appended.
    TraceCorrectionAppended,
    /// Derived marker changed without creating core truth.
    DerivedMarkerChanged,
}

/// Body-free change kind marker used by trace and outbox helpers.
#[derive(Debug, Eq, Hash, PartialEq)]
pub struct IdentityChangeKindRef {
    /// Change kind category.
    pub change_kind: IdentityChangeKind,
    /// Optional body-free source marker for versioned change kinds.
    pub source_ref: Option<IdentitySourceRef>,
}

impl Clone for IdentityChangeKindRef {
    fn clone(&self) -> (r: Self)
        ensures
            r == *self,
    {
        IdentityChangeKindRef { change_kind: self.change_kind.clone(), source_ref: self.source_ref.clone() }
    }
}

impl IdentityChangeKindRef {
    /// Creates a new change kind marker.
    pub fn new(change_kind: IdentityChangeKind, source_ref: Option<IdentitySourceRef>) -> (r: Self)
        ensures
            r == (IdentityChangeKindRef { change_kind, source_ref }),
    {
        IdentityChangeKindRef { change_kind, source_ref }
    }

    /// Returns whether both change kind markers are equal.
    pub fn same_kind(&self, other: &IdentityChangeKindRef) -> (r: bool)
        ensures
            r == (self.change_kind == other.change_kind && same_optional_source_spec(self.source_ref, other.source_ref)),
    {
        if self.change_kind != other.change_kind {
            return false;
        }
        match (&self.source_ref, &other.source_ref) {
            (None, None) => true,
            (Some(a), Some(b)) => a.same_source(b),
            _ => false,
        }
    }
}

/// Audit trail reference.
#[derive(Debug, Eq, Hash, PartialOrd, Ord)]
pub struct AuditTrailRef(String);

impl Clone for AuditTrailRef {
    fn clone(&self) -> (r: Self)
        ensures
            r == *self,
    {
        AuditTrailRef(self.0.clone())
    }
}

impl PartialEq for AuditTrailRef {
    fn eq(&self, other: &Self) -> (r: bool) {
        self.0 == other.0
    }
}

impl PartialEqSpecImpl for AuditTrailRef {
    open spec fn obeys_eq_spec() -> bool {
        true
    }

    open spec fn eq_spec(&self, other: &Self) -> bool {
        self@ == other@
    }
}

impl View for AuditTrailRef {
    type V = Seq<char>;

    closed spec fn view(&self) -> Seq<char> {
        self.0@
    }
}

impl AuditTrailRef {
    /// Creates a new opaque typed value.
    pub fn new(value: String) -> (r: Self)
        ensures
            r@ == value@,
    {
        AuditTrailRef(value)
    }

    /// Returns the wrapped string.
    pub fn as_str(&self) -> (r: &str)
        ensures
            r@ == self@,
    {
        self.0.as_str()
    }

    /// Consumes the wrapper and returns the inner string.
    pub fn into_inner(self) -> (r: String)
        ensures
            r@ == self@,
    {
        self.0
    }
}

/// Handoff scope marker.
#[derive(Debug, Eq, Hash, PartialOrd, Ord)]
pub struct HandoffScopeRef(String);

impl Clone for HandoffScopeRef {
    fn clone(&self) -> (r: Self)
        ensures
            r == *self,
    {
        HandoffScopeRef(self.0.clone())
    }
}

impl PartialEq for HandoffScopeRef {
    fn eq(&self, other: &Self) -> (r: bool) {
        self.0 == other.0
    }
}

impl PartialEqSpecImpl for HandoffScopeRef {
    open spec fn obeys_eq_spec() -> bool {
        true
    }

    open spec fn eq_spec(&self, other: &Self) -> bool {
        self@ == other@
    }
}

impl View for HandoffScopeRef {
    type V = Seq<char>;

    closed spec fn view(&self) -> Seq<char> {
        self.0@
    }
}

impl HandoffScopeRef {
    /// Creates a new opaque typed value.
    pub fn new(value: String) -> (r: Self)
        ensures
            r@ == value@,
    {
        HandoffScopeRef(value)
    }

    /// Returns the wrapped string.
    pub fn as_str(&self) -> (r: &str)
        ensures
            r@ == self@,
    {
        self.0.as_str()
    }

    /// Consumes the wrapper and returns the inner string.
    pub fn into_inner(self) -> (r: String)
        ensures
            r@ == self@,
    {
        self.0
    }
}

/// Handoff target marker.
#[derive(Debug, Eq, Hash, PartialOrd, Ord)]
pub struct HandoffTargetRef(String);

impl Clone for HandoffTargetRef {
    fn clone(&self) -> (r: Self)
        ensures
            r == *self,
    {
        HandoffTargetRef(self.0.clone())
    }
}

impl PartialEq for HandoffTargetRef {
    fn eq(&self, other: &Self) -> (r: bool) {
        self.0 == other.0
    }
}

impl PartialEqSpecImpl for HandoffTargetRef {
    open spec fn obeys_eq_spec() -> bool {
        true
    }

    open spec fn eq_spec(&self, other: &Self) -> bool {
        self@ == other@
    }
}

impl View for HandoffTargetRef {
    type V = Seq<char>;

    closed spec fn view(&self) -> Seq<char> {
        self.0@
    }
}

impl HandoffTargetRef {
    /// Creates a new opaque typed value.
    pub fn new(value: String) -> (r: Self)
        ensures
            r@ == value@,
    {
        HandoffTargetRef(value)
    }

    /// Returns the wrapped string.
    pub fn as_str(&self) -> (r: &str)
        ensures
            r@ == self@,
    {
        self.0.as_str()
    }

    /// Consumes the wrapper and returns the inner string.
    pub fn into_inner(self) -> (r: String)
        ensures
            r@ == self@,
    {
        self.0
    }
}

/// Safe trace handoff material marker.
#[derive(Debug, Eq, Hash, PartialOrd, Ord)]
pub struct TraceHandoffSafeMaterialRef(String);

impl Clone for TraceHandoffSafeMaterialRef {
    fn clone(&self) -> (r: Self)
        ensures
            r == *self,
    {
        TraceHandoffSafeMaterialRef(self.0.clone())
    }
}

impl PartialEq for TraceHandoffSafeMaterialRef {
    fn eq(&self, other: &Self) -> (r: bool) {
        self.0 == other.0
    }
}

impl PartialEqSpecImpl for TraceHandoffSafeMaterialRef {
    open spec fn obeys_eq_spec() -> bool {
        true
    }

    open spec fn eq_spec(&self, other: &Self) -> bool {
        self@ == other@
    }
}

impl View for TraceHandoffSafeMaterialRef {
    type V = Seq<char>;

    closed spec fn view(&self) -> Seq<char> {
        self.0@
    }
}

impl TraceHandoffSafeMaterialRef {
    /// Creates a new opaque typed value.
    pub fn new(value: String) -> (r: Self)
        ensures
            r@ == value@,
    {
        TraceHandoffSafeMaterialRef(value)
    }

    /// Returns the wrapped string.
    pub fn as_str(&self) -> (r: &str)
        ensures
            r@ == self@,
    {
        self.0.as_str()
    }

    /// Consumes the wrapper and returns the inner string.
    pub fn into_inner(self) -> (r: String)
        ensures
            r@ == self@,
    {
        self.0
    }
}

/// Formal handoff attempt marker.
#[derive(Debug, Eq, Hash, PartialEq)]
pub struct HandoffAttemptRef {
    /// Opaque attempt source marker.
    pub attempt_ref: IdentitySourceRef,
}

impl Clone for HandoffAttemptRef {
    fn clone(&self) -> (r: Self)
        ensures
            r == *self,
    {
        HandoffAttemptRef { attempt_ref: self.attempt_ref.clone() }
    }
}

impl HandoffAttemptRef {
    /// Creates a new handoff attempt marker.
    pub fn new(attempt_ref: IdentitySourceRef) -> (r: Self)
        ensures
            r == (HandoffAttemptRef { attempt_ref }),
    {
        HandoffAttemptRef { attempt_ref }
    }
}

/// Safe handoff issue marker.
#[derive(Debug, Eq, Hash, PartialEq)]
pub struct HandoffIssueRef {
    /// Opaque issue source marker.
    pub issue_ref: IdentitySourceRef,
}

impl Clone for HandoffIssueRef {
    fn clone(&self) -> (r: Self)
        ensures
            r == *self,
    {
        HandoffIssueRef { issue_ref: self.issue_ref.clone() }
    }
}

impl HandoffIssueRef {
    /// Creates a new handoff issue marker.
    pub fn new(issue_ref: IdentitySourceRef) -> (r: Self)
        ensures
            r == (HandoffIssueRef { issue_ref }),
    {
        HandoffIssueRef { issue_ref }
    }
}

/// Body-free API request material marker.
#[derive(Debug, Eq, Hash, PartialOrd, Ord)]
pub struct IdentityApiRequestMarkerRef(String);

impl Clone for IdentityApiRequestMarkerRef {
    fn clone(&self) -> (r: Self)
        ensures
            r == *self,
    {
        IdentityApiRequestMarkerRef(self.0.clone())
    }
}

impl PartialEq for IdentityApiRequestMarkerRef {
    fn eq(&self, other: &Self) -> (r: bool) {
        self.0 == other.0
    }
}

impl PartialEqSpecImpl for IdentityApiRequestMarkerRef {
    open spec fn obeys_eq_spec() -> bool {
        true
    }

    open spec fn eq_spec(&self, other: &Self) -> bool {
        self@ == other@
    }
}

impl View for IdentityApiRequestMarkerRef {
    type V = Seq<char>;

    closed spec fn view(&self) -> Seq<char> {
        self.0@
    }
}

impl IdentityApiRequestMarkerRef {
    /// Creates a new opaque typed value.
    pub fn new(value: String) -> (r: Self)
        ensures
            r@ == value@,
    {
        IdentityApiRequestMarkerRef(value)
    }

    /// Returns the wrapped string.
    pub fn as_str(&self) -> (r: &str)
        ensures
            r@ == self@,
    {
        self.0.as_str()
    }

    /// Consumes the wrapper and returns the inner string.
    pub fn into_inner(self) -> (r: String)
        ensures
            r@ == self@,
    {
        self.0
    }
}

/// Canonical audit subject reference.
#[derive(Debug, Eq, Hash, PartialOrd, Ord)]
pub struct IdentityAuditSubjectRef(String);

impl Clone for IdentityAuditSubjectRef {
    fn clone(&self) -> (r: Self)
        ensures
            r == *self,
    {
        IdentityAuditSubjectRef(self.0.clone())
    }
}

impl PartialEq for IdentityAuditSubjectRef {
    fn eq(&self, other: &Self) -> (r: bool) {
        self.0 == other.0
    }
}

impl PartialEqSpecImpl for IdentityAuditSubjectRef {
    open spec fn obeys_eq_spec() -> bool {
        true
    }

    open spec fn eq_spec(&self, other: &Self) -> bool {
        self@ == other@
    }
}

impl View for IdentityAuditSubjectRef {
    type V = Seq<char>;

    closed spec fn view(&self) -> Seq<char> {
        self.0@
    }
}

impl IdentityAuditSubjectRef {
    /// Creates a new opaque typed value.
    pub fn new(value: String) -> (r: Self)
        ensures
            r@ == value@,
    {
        IdentityAuditSubjectRef(value)
    }

    /// Returns the wrapped string.
    pub fn as_str(&self) -> (r: &str)
        ensures
            r@ == self@,
    {
        self.0.as_str()
    }

    /// Consumes the wrapper and returns the inner string.
    pub fn into_inner(self) -> (r: String)
        ensures
            r@ == self@,
    {
        self.0
    }
}

/// Canonical request material marker.
#[derive(Debug, Eq, Hash, PartialOrd, Ord)]
pub struct IdentityCanonicalRequestMarkerRef(String);

impl Clone for IdentityCanonicalRequestMarkerRef {
    fn clone(&self) -> (r: Self)
        ensures
            r == *self,
    {
        IdentityCanonicalRequestMarkerRef(self.0.clone())
    }
}

impl PartialEq for IdentityCanonicalRequestMarkerRef {
    fn eq(&self, other: &Self) -> (r: bool) {
        self.0 == other.0
    }
}

impl PartialEqSpecImpl for IdentityCanonicalRequestMarkerRef {
    open spec fn obeys_eq_spec() -> bool {
        true
    }

    open spec fn eq_spec(&self, other: &Self) -> bool {
        self@ == other@
    }
}

impl View for IdentityCanonicalRequestMarkerRef {
    type V = Seq<char>;

    closed spec fn view(&self) -> Seq<char> {
        self.0@
    }
}

impl IdentityCanonicalRequestMarkerRef {
    /// Creates a new opaque typed value.
    pub fn new(value: String) -> (r: Self)
        ensures
            r@ == value@,
    {
        IdentityCanonicalRequestMarkerRef(value)
    }

    /// Returns the wrapped string.
    pub fn as_str(&self) -> (r: &str)
        ensures
            r@ == self@,
    {
        self.0.as_str()
    }

    /// Consumes the wrapper and returns the inner string.
    pub fn into_inner(self) -> (r: String)
        ensures
            r@ == self@,
    {
        self.0
    }
}

/// Inbound consumer binding marker.
#[derive(Debug, Eq, Hash, PartialOrd, Ord)]
pub struct IdentityConsumerBindingRef(String);

impl Clone for IdentityConsumerBindingRef {
    fn clone(&self) -> (r: Self)
        ensures
            r == *self,
    {
        IdentityConsumerBindingRef(self.0.clone())
    }
}

impl PartialEq for IdentityConsumerBindingRef {
    fn eq(&self, other: &Self) -> (r: bool) {
        self.0 == other.0
    }
}

impl PartialEqSpecImpl for IdentityConsumerBindingRef {
    open spec fn obeys_eq_spec() -> bool {
        true
    }

    open spec fn eq_spec(&self, other: &Self) -> bool {
        self@ == other@
    }
}

impl View for IdentityConsumerBindingRef {
    type V = Seq<char>;

    closed spec fn view(&self) -> Seq<char> {
        self.0@
    }
}

impl IdentityConsumerBindingRef {
    /// Creates a new opaque typed value.
    pub fn new(value: String) -> (r: Self)
        ensures
            r@ == value@,
    {
        IdentityConsumerBindingRef(value)
    }

    /// Returns the wrapped string.
    pub fn as_str(&self) -> (r: &str)
        ensures
            r@ == self@,
    {
        self.0.as_str()
    }

    /// Consumes the wrapper and returns the inner string.
    pub fn into_inner(self) -> (r: String)
        ensures
            r@ == self@,
    {
        self.0
    }
}

/// Public consumer receipt reference.
#[derive(Debug, Eq, Hash, PartialOrd, Ord)]
pub struct IdentityConsumerReceiptRef(String);

impl Clone for IdentityConsumerReceiptRef {
    fn clone(&self) -> (r: Self)
        ensures
            r == *self,
    {
        IdentityConsumerReceiptRef(self.0.clone())
    }
}

impl PartialEq for IdentityConsumerReceiptRef {
    fn eq(&self, other: &Self) -> (r: bool) {
        self.0 == other.0
    }
}

impl PartialEqSpecImpl for IdentityConsumerReceiptRef {
    open spec fn obeys_eq_spec() -> bool {
        true
    }

    open spec fn eq_spec(&self, other: &Self) -> bool {
        self@ == other@
    }
}

impl View for IdentityConsumerReceiptRef {
    type V = Seq<char>;

    closed spec fn view(&self) -> Seq<char> {
        self.0@
    }
}

impl IdentityConsumerReceiptRef {
    /// Creates a new opaque typed value.
    pub fn new(value: String) -> (r: Self)
        ensures
            r@ == value@,
    {
        IdentityConsumerReceiptRef(value)
    }

    /// Returns the wrapped string.
    pub fn as_str(&self) -> (r: &str)
        ensures
            r@ == self@,
    {
        self.0.as_str()
    }

    /// Consumes the wrapper and returns the inner string.
    pub fn into_inner(self) -> (r: String)
        ensures
            r@ == self@,
    {
        self.0
    }
}

/// Safe degraded marker reference.
#[derive(Debug, Eq, Hash, PartialOrd, Ord)]
pub struct IdentityDegradedMarkerRef(String);

impl Clone for IdentityDegradedMarkerRef {
    fn clone(&self) -> (r: Self)
        ensures
            r == *self,
    {
        IdentityDegradedMarkerRef(self.0.clone())
    }
}

impl PartialEq for IdentityDegradedMarkerRef {
    fn eq(&self, other: &Self) -> (r: bool) {
        self.0 == other.0
    }
}

impl PartialEqSpecImpl for IdentityDegradedMarkerRef {
    open spec fn obeys_eq_spec() -> bool {
        true
    }

    open spec fn eq_spec(&self, other: &Self) -> bool {
        self@ == other@
    }
}

impl View for IdentityDegradedMarkerRef {
    type V = Seq<char>;

    closed spec fn view(&self) -> Seq<char> {
        self.0@
    }
}

impl IdentityDegradedMarkerRef {
    /// Creates a new opaque typed value.
    pub fn new(value: String) -> (r: Self)
        ensures
            r@ == value@,
    {
        IdentityDegradedMarkerRef(value)
    }

    /// Returns the wrapped string.
    pub fn as_str(&self) -> (r: &str)
        ensures
            r@ == self@,
    {
        self.0.as_str()
    }

    /// Consumes the wrapper and returns the inner string.
    pub fn into_inner(self) -> (r: String)
        ensures
            r@ == self@,
    {
        self.0
    }
}

/// Inbound event envelope marker.
#[derive(Debug, Eq, Hash, PartialOrd, Ord)]
pub struct IdentityEventEnvelopeMarkerRef(String);

impl Clone for IdentityEventEnvelopeMarkerRef {
    fn clone(&self) -> (r: Self)
        ensures
            r == *self,
    {
        IdentityEventEnvelopeMarkerRef(self.0.clone())
    }
}

impl PartialEq for IdentityEventEnvelopeMarkerRef {
    fn eq(&self, other: &Self) -> (r: bool) {
        self.0 == other.0
    }
}

impl PartialEqSpecImpl for IdentityEventEnvelopeMarkerRef {
    open spec fn obeys_eq_spec() -> bool {
        true
    }

    open spec fn eq_spec(&self, other: &Self) -> bool {
        self@ == other@
    }
}

impl View for IdentityEventEnvelopeMarkerRef {
    type V = Seq<char>;

    closed spec fn view(&self) -> Seq<char> {
        self.0@
    }
}

impl IdentityEventEnvelopeMarkerRef {
    /// Creates a new opaque typed value.
    pub fn new(value: String) -> (r: Self)
        ensures
            r@ == value@,
    {
        IdentityEventEnvelopeMarkerRef(value)
    }

    /// Returns the wrapped string.
    pub fn as_str(&self) -> (r: &str)
        ensures
            r@ == self@,
    {
        self.0.as_str()
    }

    /// Consumes the wrapper and returns the inner string.
    pub fn into_inner(self) -> (r: String)
        ensures
            r@ == self@,
    {
        self.0
    }
}

/// Operations job cursor marker.
#[derive(Debug, Eq, Hash, PartialOrd, Ord)]
pub struct IdentityJobCursorRef(String);

impl Clone for IdentityJobCursorRef {
    fn clone(&self) -> (r: Self)
        ensures
            r == *self,
    {
        IdentityJobCursorRef(self.0.clone())
    }
}

impl PartialEq for IdentityJobCursorRef {
    fn eq(&self, other: &Self) -> (r: bool) {
        self.0 == other.0
    }
}

impl PartialEqSpecImpl for IdentityJobCursorRef {
    open spec fn obeys_eq_spec() -> bool {
        true
    }

    open spec fn eq_spec(&self, other: &Self) -> bool {
        self@ == other@
    }
}

impl View for IdentityJobCursorRef {
    type V = Seq<char>;

    closed spec fn view(&self) -> Seq<char> {
        self.0@
    }
}

impl IdentityJobCursorRef {
    /// Creates a new opaque typed value.
    pub fn new(value: String) -> (r: Self)
        ensures
            r@ == value@,
    {
        IdentityJobCursorRef(value)
    }

    /// Returns the wrapped string.
    pub fn as_str(&self) -> (r: &str)
        ensures
            r@ == self@,
    {
        self.0.as_str()
    }

    /// Consumes the wrapper and returns the inner string.
    pub fn into_inner(self) -> (r: String)
        ensures
            r@ == self@,
    {
        self.0
    }
}

/// Public job report reference.
#[derive(Debug, Eq, Hash, PartialOrd, Ord)]
pub struct IdentityJobReportRef(String);

impl Clone for IdentityJobReportRef {
    fn clone(&self) -> (r: Self)
        ensures
            r == *self,
    {
        IdentityJobReportRef(self.0.clone())
    }
}

impl PartialEq for IdentityJobReportRef {
    fn eq(&self, other: &Self) -> (r: bool) {
        self.0 == other.0
    }
}

impl PartialEqSpecImpl for IdentityJobReportRef {
    open spec fn obeys_eq_spec() -> bool {
        true
    }

    open spec fn eq_spec(&self, other: &Self) -> bool {
        self@ == other@
    }
}

impl View for IdentityJobReportRef {
    type V = Seq<char>;

    closed spec fn view(&self) -> Seq<char> {
        self.0@
    }
}

impl IdentityJobReportRef {
    /// Creates a new opaque typed value.
    pub fn new(value: String) -> (r: Self)
        ensures
            r@ == value@,
    {
        IdentityJobReportRef(value)
    }

    /// Returns the wrapped string.
    pub fn as_str(&self) -> (r: &str)
        ensures
            r@ == self@,
    {
        self.0.as_str()
    }

    /// Consumes the wrapper and returns the inner string.
    pub fn into_inner(self) -> (r: String)
        ensures
            r@ == self@,
    {
        self.0
    }
}

/// Body-free job run metadata marker.
#[derive(Debug, Eq, Hash, PartialOrd, Ord)]
pub struct IdentityJobRunMetadataRef(String);

impl Clone for IdentityJobRunMetadataRef {
    fn clone(&self) -> (r: Self)
        ensures
            r == *self,
    {
        IdentityJobRunMetadataRef(self.0.clone())
    }
}

impl PartialEq for IdentityJobRunMetadataRef {
    fn eq(&self, other: &Self) -> (r: bool) {
        self.0 == other.0
    }
}

impl PartialEqSpecImpl for IdentityJobRunMetadataRef {
    open spec fn obeys_eq_spec() -> bool {
        true
    }

    open spec fn eq_spec(&self, other: &Self) -> bool {
        self@ == other@
    }
}

impl View for IdentityJobRunMetadataRef {
    type V = Seq<char>;

    closed spec fn view(&self) -> Seq<char> {
        self.0@
    }
}

impl IdentityJobRunMetadataRef {
    /// Creates a new opaque typed value.
    pub fn new(value: String) -> (r: Self)
        ensures
            r@ == value@,
    {
        IdentityJobRunMetadataRef(value)
    }

    /// Returns the wrapped string.
    pub fn as_str(&self) -> (r: &str)
        ensures
            r@ == self@,
    {
        self.0.as_str()
    }

    /// Consumes the wrapper and returns the inner string.
    pub fn into_inner(self) -> (r: String)
        ensures
            r@ == self@,
    {
        self.0
    }
}

/// Operations job run reference.
#[derive(Debug, Eq, Hash, PartialOrd, Ord)]
pub struct IdentityJobRunRef(String);

impl Clone for IdentityJobRunRef {
    fn clone(&self) -> (r: Self)
        ensures
            r == *self,
    {
        IdentityJobRunRef(self.0.clone())
    }
}

impl PartialEq for IdentityJobRunRef {
    fn eq(&self, other: &Self) -> (r: bool) {
        self.0 == other.0
    }
}

impl PartialEqSpecImpl for IdentityJobRunRef {
    open spec fn obeys_eq_spec() -> bool {
        true
    }

    open spec fn eq_spec(&self, other: &Self) -> bool {
        self@ == other@
    }
}

impl View for IdentityJobRunRef {
    type V = Seq<char>;

    closed spec fn view(&self) -> Seq<char> {
        self.0@
    }
}

impl IdentityJobRunRef {
    /// Creates a new opaque typed value.
    pub fn new(value: String) -> (r: Self)
        ensures
            r@ == value@,
    {
        IdentityJobRunRef(value)
    }

    /// Returns the wrapped string.
    pub fn as_str(&self) -> (r: &str)
        ensures
            r@ == self@,
    {
        self.0.as_str()
    }

    /// Consumes the wrapper and returns the inner string.
    pub fn into_inner(self) -> (r: String)
        ensures
            r@ == self@,
    {
        self.0
    }
}

/// Operations job scope marker.
#[derive(Debug, Eq, Hash, PartialOrd, Ord)]
pub struct IdentityJobScopeMarkerRef(String);

impl Clone for IdentityJobScopeMarkerRef {
    fn clone(&self) -> (r: Self)
        ensures
            r == *self,
    {
        IdentityJobScopeMarkerRef(self.0.clone())
    }
}

impl PartialEq for IdentityJobScopeMarkerRef {
    fn eq(&self, other: &Self) -> (r: bool) {
        self.0 == other.0
    }
}

impl PartialEqSpecImpl for IdentityJobScopeMarkerRef {
    open spec fn obeys_eq_spec() -> bool {
        true
    }

    open spec fn eq_spec(&self, other: &Self) -> bool {
        self@ == other@
    }
}

impl View for IdentityJobScopeMarkerRef {
    type V = Seq<char>;

    closed spec fn view(&self) -> Seq<char> {
        self.0@
    }
}

impl IdentityJobScopeMarkerRef {
    /// Creates a new opaque typed value.
    pub fn new(value: String) -> (r: Self)
        ensures
            r@ == value@,
    {
        IdentityJobScopeMarkerRef(value)
    }

    /// Returns the wrapped string.
    pub fn as_str(&self) -> (r: &str)
        ensures
            r@ == self@,
    {
        self.0.as_str()
    }

    /// Consumes the wrapper and returns the inner string.
    pub fn into_inner(self) -> (r: String)
        ensures
            r@ == self@,
    {
        self.0
    }
}

/// Maintenance target marker.
#[derive(Debug, Eq, Hash, PartialOrd, Ord)]
pub struct IdentityMaintenanceTargetRef(String);

impl Clone for IdentityMaintenanceTargetRef {
    fn clone(&self) -> (r: Self)
        ensures
            r == *self,
    {
        IdentityMaintenanceTargetRef(self.0.clone())
    }
}

impl PartialEq for IdentityMaintenanceTargetRef {
    fn eq(&self, other: &Self) -> (r: bool) {
        self.0 == other.0
    }
}

impl PartialEqSpecImpl for IdentityMaintenanceTargetRef {
    open spec fn obeys_eq_spec() -> bool {
        true
    }

    open spec fn eq_spec(&self, other: &Self) -> bool {
        self@ == other@
    }
}

impl View for IdentityMaintenanceTargetRef {
    type V = Seq<char>;

    closed spec fn view(&self) -> Seq<char> {
        self.0@
    }
}

impl IdentityMaintenanceTargetRef {
    /// Creates a new opaque typed value.
    pub fn new(value: String) -> (r: Self)
        ensures
            r@ == value@,
    {
        IdentityMaintenanceTargetRef(value)
    }

    /// Returns the wrapped string.
    pub fn as_str(&self) -> (r: &str)
        ensures
            r@ == self@,
    {
        self.0.as_str()
    }

    /// Consumes the wrapper and returns the inner string.
    pub fn into_inner(self) -> (r: String)
        ensures
            r@ == self@,
    {
        self.0
    }
}

/// Body-free outbound payload marker.
#[derive(Debug, Eq, Hash, PartialOrd, Ord)]
pub struct IdentityOutboxPayloadMarkerRef(String);

impl Clone for IdentityOutboxPayloadMarkerRef {
    fn clone(&self) -> (r: Self)
        ensures
            r == *self,
    {
        IdentityOutboxPayloadMarkerRef(self.0.clone())
    }
}

impl PartialEq for IdentityOutboxPayloadMarkerRef {
    fn eq(&self, other: &Self) -> (r: bool) {
        self.0 == other.0
    }
}

impl PartialEqSpecImpl for IdentityOutboxPayloadMarkerRef {
    open spec fn obeys_eq_spec() -> bool {
        true
    }

    open spec fn eq_spec(&self, other: &Self) -> bool {
        self@ == other@
    }
}

impl View for IdentityOutboxPayloadMarkerRef {
    type V = Seq<char>;

    closed spec fn view(&self) -> Seq<char> {
        self.0@
    }
}

impl IdentityOutboxPayloadMarkerRef {
    /// Creates a new opaque typed value.
    pub fn new(value: String) -> (r: Self)
        ensures
            r@ == value@,
    {
        IdentityOutboxPayloadMarkerRef(value)
    }

    /// Returns the wrapped string.
    pub fn as_str(&self) -> (r: &str)
        ensures
            r@ == self@,
    {
        self.0.as_str()
    }

    /// Consumes the wrapper and returns the inner string.
    pub fn into_inner(self) -> (r: String)
        ensures
            r@ == self@,
    {
        self.0
    }
}

/// Identity outbox record reference.
#[derive(Debug, Eq, Hash, PartialOrd, Ord)]
pub struct IdentityOutboxRecordRef(String);

impl Clone for IdentityOutboxRecordRef {
    fn clone(&self) -> (r: Self)
        ensures
            r == *self,
    {
        IdentityOutboxRecordRef(self.0.clone())
    }
}

impl PartialEq for IdentityOutboxRecordRef {
    fn eq(&self, other: &Self) -> (r: bool) {
        self.0 == other.0
    }
}

impl PartialEqSpecImpl for IdentityOutboxRecordRef {
    open spec fn obeys_eq_spec() -> bool {
        true
    }

    open spec fn eq_spec(&self, other: &Self) -> bool {
        self@ == other@
    }
}

impl View for IdentityOutboxRecordRef {
    type V = Seq<char>;

    closed spec fn view(&self) -> Seq<char> {
        self.0@
    }
}

impl IdentityOutboxRecordRef {
    /// Creates a new opaque typed value.
    pub fn new(value: String) -> (r: Self)
        ensures
            r@ == value@,
    {
        IdentityOutboxRecordRef(value)
    }

    /// Returns the wrapped string.
    pub fn as_str(&self) -> (r: &str)
        ensures
            r@ == self@,
    {
        self.0.as_str()
    }

    /// Consumes the wrapper and returns the inner string.
    pub fn into_inner(self) -> (r: String)
        ensures
            r@ == self@,
    {
        self.0
    }
}

/// Canonical outbound subject reference.
#[derive(Debug, Eq, Hash, PartialOrd, Ord)]
pub struct IdentityOutboxSubjectRef(String);

impl Clone for IdentityOutboxSubjectRef {
    fn clone(&self) -> (r: Self)
        ensures
            r == *self,
    {
        IdentityOutboxSubjectRef(self.0.clone())
    }
}

impl PartialEq for IdentityOutboxSubjectRef {
    fn eq(&self, other: &Self) -> (r: bool) {
        self.0 == other.0
    }
}

impl PartialEqSpecImpl for IdentityOutboxSubjectRef {
    open spec fn obeys_eq_spec() -> bool {
        true
    }

    open spec fn eq_spec(&self, other: &Self) -> bool {
        self@ == other@
    }
}

impl View for IdentityOutboxSubjectRef {
    type V = Seq<char>;

    closed spec fn view(&self) -> Seq<char> {
        self.0@
    }
}

impl IdentityOutboxSubjectRef {
    /// Creates a new opaque typed value.
    pub fn new(value: String) -> (r: Self)
        ensures
            r@ == value@,
    {
        IdentityOutboxSubjectRef(value)
    }

    /// Returns the wrapped string.
    pub fn as_str(&self) -> (r: &str)
        ensures
            r@ == self@,
    {
        self.0.as_str()
    }

    /// Consumes the wrapper and returns the inner string.
    pub fn into_inner(self) -> (r: String)
        ensures
            r@ == self@,
    {
        self.0
    }
}

/// Projection reference.
#[derive(Debug, Eq, Hash, PartialOrd, Ord)]
pub struct IdentityProjectionRef(String);

impl Clone for IdentityProjectionRef {
    fn clone(&self) -> (r: Self)
        ensures
            r == *self,
    {
        IdentityProjectionRef(self.0.clone())
    }
}

impl PartialEq for IdentityProjectionRef {
    fn eq(&self, other: &Self) -> (r: bool) {
        self.0 == other.0
    }
}

impl PartialEqSpecImpl for IdentityProjectionRef {
    open spec fn obeys_eq_spec() -> bool {
        true
    }

    open spec fn eq_spec(&self, other: &Self) -> bool {
        self@ == other@
    }
}

impl View for IdentityProjectionRef {
    type V = Seq<char>;

    closed spec fn view(&self) -> Seq<char> {
        self.0@
    }
}

impl IdentityProjectionRef {
    /// Creates a new opaque typed value.
    pub fn new(value: String) -> (r: Self)
        ensures
            r@ == value@,
    {
        IdentityProjectionRef(value)
    }

    /// Returns the wrapped string.
    pub fn as_str(&self) -> (r: &str)
        ensures
            r@ == self@,
    {
        self.0.as_str()
    }

    /// Consumes the wrapper and returns the inner string.
    pub fn into_inner(self) -> (r: String)
        ensures
            r@ == self@,
    {
        self.0
    }
}

/// Safe redaction marker reference.
#[derive(Debug, Eq, Hash, PartialOrd, Ord)]
pub struct IdentityRedactionMarkerRef(String);

impl Clone for IdentityRedactionMarkerRef {
    fn clone(&self) -> (r: Self)
        ensures
            r == *self,
    {
        IdentityRedactionMarkerRef(self.0.clone())
    }
}

impl PartialEq for IdentityRedactionMarkerRef {
    fn eq(&self, other: &Self) -> (r: bool) {
        self.0 == other.0
    }
}

impl PartialEqSpecImpl for IdentityRedactionMarkerRef {
    open spec fn obeys_eq_spec() -> bool {
        true
    }

    open spec fn eq_spec(&self, other: &Self) -> bool {
        self@ == other@
    }
}

impl View for IdentityRedactionMarkerRef {
    type V = Seq<char>;

    closed spec fn view(&self) -> Seq<char> {
        self.0@
    }
}

impl IdentityRedactionMarkerRef {
    /// Creates a new opaque typed value.
    pub fn new(value: String) -> (r: Self)
        ensures
            r@ == value@,
    {
        IdentityRedactionMarkerRef(value)
    }

    /// Returns the wrapped string.
    pub fn as_str(&self) -> (r: &str)
        ensures
            r@ == self@,
    {
        self.0.as_str()
    }

    /// Consumes the wrapper and returns the inner string.
    pub fn into_inner(self) -> (r: String)
        ensures
            r@ == self@,
    {
        self.0
    }
}

/// Canonical request digest value.
#[derive(Debug, Eq, Hash, PartialOrd, Ord)]
pub struct IdentityRequestDigestValue(String);

impl Clone for IdentityRequestDigestValue {
    fn clone(&self) -> (r: Self)
        ensures
            r == *self,
    {
        IdentityRequestDigestValue(self.0.clone())
    }
}

impl PartialEq for IdentityRequestDigestValue {
    fn eq(&self, other: &Self) -> (r: bool) {
        self.0 == other.0
    }
}

impl PartialEqSpecImpl for IdentityRequestDigestValue {
    open spec fn obeys_eq_spec() -> bool {
        true
    }

    open spec fn eq_spec(&self, other: &Self) -> bool {
        self@ == other@
    }
}

impl View for IdentityRequestDigestValue {
    type V = Seq<char>;

    closed spec fn view(&self) -> Seq<char> {
        self.0@
    }
}

impl IdentityRequestDigestValue {
    /// Creates a new opaque typed value.
    pub fn new(value: String) -> (r: Self)
        ensures
            r@ == value@,
    {
        IdentityRequestDigestValue(value)
    }

    /// Returns the wrapped string.
    pub fn as_str(&self) -> (r: &str)
        ensures
            r@ == self@,
    {
        self.0.as_str()
    }

    /// Consumes the wrapper and returns the inner string.
    pub fn into_inner(self) -> (r: String)
        ensures
            r@ == self@,
    {
        self.0
    }
}

/// Inbound source event reference.
#[derive(Debug, Eq, Hash, PartialOrd, Ord)]
pub struct IdentitySourceEventRef(String);

impl Clone for IdentitySourceEventRef {
    fn clone(&self) -> (r: Self)
        ensures
            r == *self,
    {
        IdentitySourceEventRef(self.0.clone())
    }
}

impl PartialEq for IdentitySourceEventRef {
    fn eq(&self, other: &Self) -> (r: bool) {
        self.0 == other.0
    }
}

impl PartialEqSpecImpl for IdentitySourceEventRef {
    open spec fn obeys_eq_spec() -> bool {
        true
    }

    open spec fn eq_spec(&self, other: &Self) -> bool {
        self@ == other@
    }
}

impl View for IdentitySourceEventRef {
    type V = Seq<char>;

    closed spec fn view(&self) -> Seq<char> {
        self.0@
    }
}

impl IdentitySourceEventRef {
    /// Creates a new opaque typed value.
    pub fn new(value: String) -> (r: Self)
        ensures
            r@ == value@,
    {
        IdentitySourceEventRef(value)
    }

    /// Returns the wrapped string.
    pub fn as_str(&self) -> (r: &str)
        ensures
            r@ == self@,
    {
        self.0.as_str()
    }

    /// Consumes the wrapper and returns the inner string.
    pub fn into_inner(self) -> (r: String)
        ensures
            r@ == self@,
    {
        self.0
    }
}

/// Stored replay surface reference.
#[derive(Debug, Eq, Hash, PartialOrd, Ord)]
pub struct IdentityStoredResultRef(String);

impl Clone for IdentityStoredResultRef {
    fn clone(&self) -> (r: Self)
        ensures
            r == *self,
    {
        IdentityStoredResultRef(self.0.clone())
    }
}

impl PartialEq for IdentityStoredResultRef {
    fn eq(&self, other: &Self) -> (r: bool) {
        self.0 == other.0
    }
}

impl PartialEqSpecImpl for IdentityStoredResultRef {
    open spec fn obeys_eq_spec() -> bool {
        true
    }

    open spec fn eq_spec(&self, other: &Self) -> bool {
        self@ == other@
    }
}

impl View for IdentityStoredResultRef {
    type V = Seq<char>;

    closed spec fn view(&self) -> Seq<char> {
        self.0@
    }
}

impl IdentityStoredResultRef {
    /// Creates a new opaque typed value.
    pub fn new(value: String) -> (r: Self)
        ensures
            r@ == value@,
    {
        IdentityStoredResultRef(value)
    }

    /// Returns the wrapped string.
    pub fn as_str(&self) -> (r: &str)
        ensures
            r@ == self@,
    {
        self.0.as_str()
    }

    /// Consumes the wrapper and returns the inner string.
    pub fn into_inner(self) -> (r: String)
        ensures
            r@ == self@,
    {
        self.0
    }
}

/// Runtime trace context marker.
#[derive(Debug, Eq, Hash, PartialOrd, Ord)]
pub struct IdentityTraceContextRef(String);

impl Clone for IdentityTraceContextRef {
    fn clone(&self) -> (r: Self)
        ensures
            r == *self,
    {
        IdentityTraceContextRef(self.0.clone())
    }
}

impl PartialEq for IdentityTraceContextRef {
    fn eq(&self, other: &Self) -> (r: bool) {
        self.0 == other.0
    }
}

impl PartialEqSpecImpl for IdentityTraceContextRef {
    open spec fn obeys_eq_spec() -> bool {
        true
    }

    open spec fn eq_spec(&self, other: &Self) -> bool {
        self@ == other@
    }
}

impl View for IdentityTraceContextRef {
    type V = Seq<char>;

    closed spec fn view(&self) -> Seq<char> {
        self.0@
    }
}

impl IdentityTraceContextRef {
    /// Creates a new opaque typed value.
    pub fn new(value: String) -> (r: Self)
        ensures
            r@ == value@,
    {
        IdentityTraceContextRef(value)
    }

    /// Returns the wrapped string.
    pub fn as_str(&self) -> (r: &str)
        ensures
            r@ == self@,
    {
        self.0.as_str()
    }

    /// Consumes the wrapper and returns the inner string.
    pub fn into_inner(self) -> (r: String)
        ensures
            r@ == self@,
    {
        self.0
    }
}

/// Identity trace record reference.
#[derive(Debug, Eq, Hash, PartialOrd, Ord)]
pub struct IdentityTraceRecordRef(String);

impl Clone for IdentityTraceRecordRef {
    fn clone(&self) -> (r: Self)
        ensures
            r == *self,
    {
        IdentityTraceRecordRef(self.0.clone())
    }
}

impl PartialEq for IdentityTraceRecordRef {
    fn eq(&self, other: &Self) -> (r: bool) {
        self.0 == other.0
    }
}

impl PartialEqSpecImpl for IdentityTraceRecordRef {
    open spec fn obeys_eq_spec() -> bool {
        true
    }

    open spec fn eq_spec(&self, other: &Self) -> bool {
        self@ == other@
    }
}

impl View for IdentityTraceRecordRef {
    type V = Seq<char>;

    closed spec fn view(&self) -> Seq<char> {
        self.0@
    }
}

impl IdentityTraceRecordRef {
    /// Creates a new opaque typed value.
    pub fn new(value: String) -> (r: Self)
        ensures
            r@ == value@,
    {
        IdentityTraceRecordRef(value)
    }

    /// Returns the wrapped string.
    pub fn as_str(&self) -> (r: &str)
        ensures
            r@ == self@,
    {
        self.0.as_str()
    }

    /// Consumes the wrapper and returns the inner string.
    pub fn into_inner(self) -> (r: String)
        ensures
            r@ == self@,
    {
        self.0
    }
}

/// Canonical trace subject reference.
#[derive(Debug, Eq, Hash, PartialOrd, Ord)]
pub struct IdentityTraceSubjectRef(String);

impl Clone for IdentityTraceSubjectRef {
    fn clone(&self) -> (r: Self)
        ensures
            r == *self,
    {
        IdentityTraceSubjectRef(self.0.clone())
    }
}

impl PartialEq for IdentityTraceSubjectRef {
    fn eq(&self, other: &Self) -> (r: bool) {
        self.0 == other.0
    }
}

impl PartialEqSpecImpl for IdentityTraceSubjectRef {
    open spec fn obeys_eq_spec() -> bool {
        true
    }

    open spec fn eq_spec(&self, other: &Self) -> bool {
        self@ == other@
    }
}

impl View for IdentityTraceSubjectRef {
    type V = Seq<char>;

    closed spec fn view(&self) -> Seq<char> {
        self.0@
    }
}

impl IdentityTraceSubjectRef {
    /// Creates a new opaque typed value.
    pub fn new(value: String) -> (r: Self)
        ensures
            r@ == value@,
    {
        IdentityTraceSubjectRef(value)
    }

    /// Returns the wrapped string.
    pub fn as_str(&self) -> (r: &str)
        ensures
            r@ == self@,
    {
        self.0.as_str()
    }

    /// Consumes the wrapper and returns the inner string.
    pub fn into_inner(self) -> (r: String)
        ensures
            r@ == self@,
    {
        self.0
    }
}

/// Committed identity truth cursor marker.
#[derive(Debug, Eq, Hash, PartialOrd, Ord)]
pub struct IdentityTruthCursor(String);

impl Clone for IdentityTruthCursor {
    fn clone(&self) -> (r: Self)
        ensures
            r == *self,
    {
        IdentityTruthCursor(self.0.clone())
    }
}

impl PartialEq for IdentityTruthCursor {
    fn eq(&self, other: &Self) -> (r: bool) {
        self.0 == other.0
    }
}

impl PartialEqSpecImpl for IdentityTruthCursor {
    open spec fn obeys_eq_spec() -> bool {
        true
    }

    open spec fn eq_spec(&self, other: &Self) -> bool {
        self@ == other@
    }
}

impl View for IdentityTruthCursor {
    type V = Seq<char>;

    closed spec fn view(&self) -> Seq<char> {
        self.0@
    }
}

impl IdentityTruthCursor {
    /// Creates a new opaque typed value.
    pub fn new(value: String) -> (r: Self)
        ensures
            r@ == value@,
    {
        IdentityTruthCursor(value)
    }

    /// Returns the wrapped string.
    pub fn as_str(&self) -> (r: &str)
        ensures
            r@ == self@,
    {
        self.0.as_str()
    }

    /// Consumes the wrapper and returns the inner string.
    pub fn into_inner(self) -> (r: String)
        ensures
            r@ == self@,
    {
        self.0
    }
}

/// Reconciliation finding intent marker.
#[derive(Debug, Eq, Hash, PartialOrd, Ord)]
pub struct ReconciliationFindingIntentRef(String);

impl Clone for ReconciliationFindingIntentRef {
    fn clone(&self) -> (r: Self)
        ensures
            r == *self,
    {
        ReconciliationFindingIntentRef(self.0.clone())
    }
}

impl PartialEq for ReconciliationFindingIntentRef {
    fn eq(&self, other: &Self) -> (r: bool) {
        self.0 == other.0
    }
}

impl PartialEqSpecImpl for ReconciliationFindingIntentRef {
    open spec fn obeys_eq_spec() -> bool {
        true
    }

    open spec fn eq_spec(&self, other: &Self) -> bool {
        self@ == other@
    }
}

impl View for ReconciliationFindingIntentRef {
    type V = Seq<char>;

    closed spec fn view(&self) -> Seq<char> {
        self.0@
    }
}

impl ReconciliationFindingIntentRef {
    /// Creates a new opaque typed value.
    pub fn new(value: String) -> (r: Self)
        ensures
            r@ == value@,
    {
        ReconciliationFindingIntentRef(value)
    }

    /// Returns the wrapped string.
    pub fn as_str(&self) -> (r: &str)
        ensures
            r@ == self@,
    {
        self.0.as_str()
    }

    /// Consumes the wrapper and returns the inner string.
    pub fn into_inner(self) -> (r: String)
        ensures
            r@ == self@,
    {
        self.0
    }
}

/// Reconciliation finding reference.
#[derive(Debug, Eq, Hash, PartialOrd, Ord)]
pub struct ReconciliationFindingRef(String);

impl Clone for ReconciliationFindingRef {
    fn clone(&self) -> (r: Self)
        ensures
            r == *self,
    {
        ReconciliationFindingRef(self.0.clone())
    }
}

impl PartialEq for ReconciliationFindingRef {
    fn eq(&self, other: &Self) -> (r: bool) {
        self.0 == other.0
    }
}

impl PartialEqSpecImpl for ReconciliationFindingRef {
    open spec fn obeys_eq_spec() -> bool {
        true
    }

    open spec fn eq_spec(&self, other: &Self) -> bool {
        self@ == other@
    }
}

impl View for ReconciliationFindingRef {
    type V = Seq<char>;

    closed spec fn view(&self) -> Seq<char> {
        self.0@
    }
}

impl ReconciliationFindingRef {
    /// Creates a new opaque typed value.
    pub fn new(value: String) -> (r: Self)
        ensures
            r@ == value@,
    {
        ReconciliationFindingRef(value)
    }

    /// Returns the wrapped string.
    pub fn as_str(&self) -> (r: &str)
        ensures
            r@ == self@,
    {
        self.0.as_str()
    }

    /// Consumes the wrapper and returns the inner string.
    pub fn into_inner(self) -> (r: String)
        ensures
            r@ == self@,
    {
        self.0
    }
}

/// Reconciliation report reference.
#[derive(Debug, Eq, Hash, PartialOrd, Ord)]
pub struct ReconciliationReportRef(String);

impl Clone for ReconciliationReportRef {
    fn clone(&self) -> (r: Self)
        ensures
            r == *self,
    {
        ReconciliationReportRef(self.0.clone())
    }
}

impl PartialEq for ReconciliationReportRef {
    fn eq(&self, other: &Self) -> (r: bool) {
        self.0 == other.0
    }
}

impl PartialEqSpecImpl for ReconciliationReportRef {
    open spec fn obeys_eq_spec() -> bool {
        true
    }

    open spec fn eq_spec(&self, other: &Self) -> bool {
        self@ == other@
    }
}

impl View for ReconciliationReportRef {
    type V = Seq<char>;

    closed spec fn view(&self) -> Seq<char> {
        self.0@
    }
}

impl ReconciliationReportRef {
    /// Creates a new opaque typed value.
    pub fn new(value: String) -> (r: Self)
        ensures
            r@ == value@,
    {
        ReconciliationReportRef(value)
    }

    /// Returns the wrapped string.
    pub fn as_str(&self) -> (r: &str)
        ensures
            r@ == self@,
    {
        self.0.as_str()
    }

    /// Consumes the wrapper and returns the inner string.
    pub fn into_inner(self) -> (r: String)
        ensures
            r@ == self@,
    {
        self.0
    }
}

/// Topic binding key marker.
#[derive(Debug, Eq, Hash, PartialOrd, Ord)]
pub struct TopicKeyRef(String);

impl Clone for TopicKeyRef {
    fn clone(&self) -> (r: Self)
        ensures
            r == *self,
    {
        TopicKeyRef(self.0.clone())
    }
}

impl PartialEq for TopicKeyRef {
    fn eq(&self, other: &Self) -> (r: bool) {
        self.0 == other.0
    }
}

impl PartialEqSpecImpl for TopicKeyRef {
    open spec fn obeys_eq_spec() -> bool {
        true
    }

    open spec fn eq_spec(&self, other: &Self) -> bool {
        self@ == other@
    }
}

impl View for TopicKeyRef {
    type V = Seq<char>;

    closed spec fn view(&self) -> Seq<char> {
        self.0@
    }
}

impl TopicKeyRef {
    /// Creates a new opaque typed value.
    pub fn new(value: String) -> (r: Self)
        ensures
            r@ == value@,
    {
        TopicKeyRef(value)
    }

    /// Returns the wrapped string.
    pub fn as_str(&self) -> (r: &str)
        ensures
            r@ == self@,
    {
        self.0.as_str()
    }

    /// Consumes the wrapper and returns the inner string.
    pub fn into_inner(self) -> (r: String)
        ensures
            r@ == self@,
    {
        self.0
    }
}

/// Visibility context marker.
#[derive(Debug, Eq, Hash, PartialOrd, Ord)]
pub struct VisibilityContextRef(String);

impl Clone for VisibilityContextRef {
    fn clone(&self) -> (r: Self)
        ensures
            r == *self,
    {
        VisibilityContextRef(self.0.clone())
    }
}

impl PartialEq for VisibilityContextRef {
    fn eq(&self, other: &Self) -> (r: bool) {
        self.0 == other.0
    }
}

impl PartialEqSpecImpl for VisibilityContextRef {
    open spec fn obeys_eq_spec() -> bool {
        true
    }

    open spec fn eq_spec(&self, other: &Self) -> bool {
        self@ == other@
    }
}

impl View for VisibilityContextRef {
    type V = Seq<char>;

    closed spec fn view(&self) -> Seq<char> {
        self.0@
    }
}

impl VisibilityContextRef {
    /// Creates a new opaque typed value.
    pub fn new(value: String) -> (r: Self)
        ensures
            r@ == value@,
    {
        VisibilityContextRef(value)
    }

    /// Returns the wrapped string.
    pub fn as_str(&self) -> (r: &str)
        ensures
            r@ == self@,
    {
        self.0.as_str()
    }

    /// Consumes the wrapper and returns the inner string.
    pub fn into_inner(self) -> (r: String)
        ensures
            r@ == self@,
    {
        self.0
    }
}

/// Visibility result marker.
#[derive(Debug, Eq, Hash, PartialOrd, Ord)]
pub struct VisibilityResultRef(String);

impl Clone for VisibilityResultRef {
    fn clone(&self) -> (r: Self)
        ensures
            r == *self,
    {
        VisibilityResultRef(self.0.clone())
    }
}

impl PartialEq for VisibilityResultRef {
    fn eq(&self, other: &Self) -> (r: bool) {
        self.0 == other.0
    }
}

impl PartialEqSpecImpl for VisibilityResultRef {
    open spec fn obeys_eq_spec() -> bool {
        true
    }

    open spec fn eq_spec(&self, other: &Self) -> bool {
        self@ == other@
    }
}

impl View for VisibilityResultRef {
    type V = Seq<char>;

    closed spec fn view(&self) -> Seq<char> {
        self.0@
    }
}

impl VisibilityResultRef {
    /// Creates a new opaque typed value.
    pub fn new(value: String) -> (r: Self)
        ensures
            r@ == value@,
    {
        VisibilityResultRef(value)
    }

    /// Returns the wrapped string.
    pub fn as_str(&self) -> (r: &str)
        ensures
            r@ == self@,
    {
        self.0.as_str()
    }

    /// Consumes the wrapper and returns the inner string.
    pub fn into_inner(self) -> (r: String)
        ensures
            r@ == self@,
    {
        self.0
    }
}

/// Visibility scope marker.
#[derive(Debug, Eq, Hash, PartialOrd, Ord)]
pub struct VisibilityScopeRef(String);

impl Clone for VisibilityScopeRef {
    fn clone(&self) -> (r: Self)
        ensures
            r == *self,
    {
        VisibilityScopeRef(self.0.clone())
    }
}

impl PartialEq for VisibilityScopeRef {
    fn eq(&self, other: &Self) -> (r: bool) {
        self.0 == other.0
    }
}

impl PartialEqSpecImpl for VisibilityScopeRef {
    open spec fn obeys_eq_spec() -> bool {
        true
    }

    open spec fn eq_spec(&self, other: &Self) -> bool {
        self@ == other@
    }
}

impl View for VisibilityScopeRef {
    type V = Seq<char>;

    closed spec fn view(&self) -> Seq<char> {
        self.0@
    }
}

impl VisibilityScopeRef {
    /// Creates a new opaque typed value.
    pub fn new(value: String) -> (r: Self)
        ensures
            r@ == value@,
    {
        VisibilityScopeRef(value)
    }

    /// Returns the wrapped string.
    pub fn as_str(&self) -> (r: &str)
        ensures
            r@ == self@,
    {
        self.0.as_str()
    }

    /// Consumes the wrapper and returns the inner string.
    pub fn into_inner(self) -> (r: String)
        ensures
            r@ == self@,
    {
        self.0
    }
}

/// Public visibility decision reference.
#[derive(Debug, Eq, Hash, PartialOrd, Ord)]
pub struct IdentityVisibilityDecisionRef(String);

impl Clone for IdentityVisibilityDecisionRef {
    fn clone(&self) -> (r: Self)
        ensures
            r == *self,
    {
        IdentityVisibilityDecisionRef(self.0.clone())
    }
}

impl PartialEq for IdentityVisibilityDecisionRef {
    fn eq(&self, other: &Self) -> (r: bool) {
        self.0 == other.0
    }
}

impl PartialEqSpecImpl for IdentityVisibilityDecisionRef {
    open spec fn obeys_eq_spec() -> bool {
        true
    }

    open spec fn eq_spec(&self, other: &Self) -> bool {
        self@ == other@
    }
}

impl View for IdentityVisibilityDecisionRef {
    type V = Seq<char>;

    closed spec fn view(&self) -> Seq<char> {
        self.0@
    }
}

impl IdentityVisibilityDecisionRef {
    /// Creates a new opaque typed value.
    pub fn new(value: String) -> (r: Self)
        ensures
            r@ == value@,
    {
        IdentityVisibilityDecisionRef(value)
    }

    /// Returns the wrapped string.
    pub fn as_str(&self) -> (r: &str)
        ensures
            r@ == self@,
    {
        self.0.as_str()
    }

    /// Consumes the wrapper and returns the inner string.
    pub fn into_inner(self) -> (r: String)
        ensures
            r@ == self@,
    {
        self.0
    }
}

/// Formal handoff receipt reference.
#[derive(Debug, Eq, Hash, PartialOrd, Ord)]
pub struct HandoffReceiptRef(String);

impl Clone for HandoffReceiptRef {
    fn clone(&self) -> (r: Self)
        ensures
            r == *self,
    {
        HandoffReceiptRef(self.0.clone())
    }
}

impl PartialEq for HandoffReceiptRef {
    fn eq(&self, other: &Self) -> (r: bool) {
        self.0 == other.0
    }
}

impl PartialEqSpecImpl for HandoffReceiptRef {
    open spec fn obeys_eq_spec() -> bool {
        true
    }

    open spec fn eq_spec(&self, other: &Self) -> bool {
        self@ == other@
    }
}

impl View for HandoffReceiptRef {
    type V = Seq<char>;

    closed spec fn view(&self) -> Seq<char> {
        self.0@
    }
}

impl HandoffReceiptRef {
    /// Creates a new opaque typed value.
    pub fn new(value: String) -> (r: Self)
        ensures
            r@ == value@,
    {
        HandoffReceiptRef(value)
    }

    /// Returns the wrapped string.
    pub fn as_str(&self) -> (r: &str)
        ensures
            r@ == self@,
    {
        self.0.as_str()
    }

    /// Consumes the wrapper and returns the inner string.
    pub fn into_inner(self) -> (r: String)
        ensures
            r@ == self@,
    {
        self.0
    }
}

/// Read consumer marker.
#[derive(Debug, Eq, Hash, PartialOrd, Ord)]
pub struct ConsumerRef(String);

impl Clone for ConsumerRef {
    fn clone(&self) -> (r: Self)
        ensures
            r == *self,
    {
        ConsumerRef(self.0.clone())
    }
}

impl PartialEq for ConsumerRef {
    fn eq(&self, other: &Self) -> (r: bool) {
        self.0 == other.0
    }
}

impl PartialEqSpecImpl for ConsumerRef {
    open spec fn obeys_eq_spec() -> bool {
        true
    }

    open spec fn eq_spec(&self, other: &Self) -> bool {
        self@ == other@
    }
}

impl View for ConsumerRef {
    type V = Seq<char>;

    closed spec fn view(&self) -> Seq<char> {
        self.0@
    }
}

impl ConsumerRef {
    /// Creates a new opaque typed value.
    pub fn new(value: String) -> (r: Self)
        ensures
            r@ == value@,
    {
        ConsumerRef(value)
    }

    /// Returns the wrapped string.
    pub fn as_str(&self) -> (r: &str)
        ensures
            r@ == self@,
    {
        self.0.as_str()
    }

    /// Consumes the wrapper and returns the inner string.
    pub fn into_inner(self) -> (r: String)
        ensures
            r@ == self@,
    {
        self.0
    }
}

/// Member summary view reference.
#[derive(Debug, Eq, Hash, PartialOrd, Ord)]
pub struct MemberSummaryViewRef(String);

impl Clone for MemberSummaryViewRef {
    fn clone(&self) -> (r: Self)
        ensures
            r == *self,
    {
        MemberSummaryViewRef(self.0.clone())
    }
}

impl PartialEq for MemberSummaryViewRef {
    fn eq(&self, other: &Self) -> (r: bool) {
        self.0 == other.0
    }
}

impl PartialEqSpecImpl for MemberSummaryViewRef {
    open spec fn obeys_eq_spec() -> bool {
        true
    }

    open spec fn eq_spec(&self, other: &Self) -> bool {
        self@ == other@
    }
}

impl View for MemberSummaryViewRef {
    type V = Seq<char>;

    closed spec fn view(&self) -> Seq<char> {
        self.0@
    }
}

impl MemberSummaryViewRef {
    /// Creates a new opaque typed value.
    pub fn new(value: String) -> (r: Self)
        ensures
            r@ == value@,
    {
        MemberSummaryViewRef(value)
    }

    /// Returns the wrapped string.
    pub fn as_str(&self) -> (r: &str)
        ensures
            r@ == self@,
    {
        self.0.as_str()
    }

    /// Consumes the wrapper and returns the inner string.
    pub fn into_inner(self) -> (r: String)
        ensures
            r@ == self@,
    {
        self.0
    }
}

/// Redaction profile marker.
#[derive(Debug, Eq, Hash, PartialOrd, Ord)]
pub struct RedactionProfileRef(String);

impl Clone for RedactionProfileRef {
    fn clone(&self) -> (r: Self)
        ensures
            r == *self,
    {
        RedactionProfileRef(self.0.clone())
    }
}

impl PartialEq for RedactionProfileRef {
    fn eq(&self, other: &Self) -> (r: bool) {
        self.0 == other.0
    }
}

impl PartialEqSpecImpl for RedactionProfileRef {
    open spec fn obeys_eq_spec() -> bool {
        true
    }

    open spec fn eq_spec(&self, other: &Self) -> bool {
        self@ == other@
    }
}

impl View for RedactionProfileRef {
    type V = Seq<char>;

    closed spec fn view(&self) -> Seq<char> {
        self.0@
    }
}

impl RedactionProfileRef {
    /// Creates a new opaque typed value.
    pub fn new(value: String) -> (r: Self)
        ensures
            r@ == value@,
    {
        RedactionProfileRef(value)
    }

    /// Returns the wrapped string.
    pub fn as_str(&self) -> (r: &str)
        ensures
            r@ == self@,
    {
        self.0.as_str()
    }

    /// Consumes the wrapper and returns the inner string.
    pub fn into_inner(self) -> (r: String)
        ensures
            r@ == self@,
    {
        self.0
    }
}

/// Audit scope marker.
#[derive(Debug, Eq, Hash, PartialOrd, Ord)]
pub struct AuditScopeRef(String);

impl Clone for AuditScopeRef {
    fn clone(&self) -> (r: Self)
        ensures
            r == *self,
    {
        AuditScopeRef(self.0.clone())
    }
}

impl PartialEq for AuditScopeRef {
    fn eq(&self, other: &Self) -> (r: bool) {
        self.0 == other.0
    }
}

impl PartialEqSpecImpl for AuditScopeRef {
    open spec fn obeys_eq_spec() -> bool {
        true
    }

    open spec fn eq_spec(&self, other: &Self) -> bool {
        self@ == other@
    }
}

impl View for AuditScopeRef {
    type V = Seq<char>;

    closed spec fn view(&self) -> Seq<char> {
        self.0@
    }
}

impl AuditScopeRef {
    /// Creates a new opaque typed value.
    pub fn new(value: String) -> (r: Self)
        ensures
            r@ == value@,
    {
        AuditScopeRef(value)
    }

    /// Returns the wrapped string.
    pub fn as_str(&self) -> (r: &str)
        ensures
            r@ == self@,
    {
        self.0.as_str()
    }

    /// Consumes the wrapper and returns the inner string.
    pub fn into_inner(self) -> (r: String)
        ensures
            r@ == self@,
    {
        self.0
    }
}

/// Audit trail page cursor marker.
#[derive(Debug, Eq, Hash, PartialOrd, Ord)]
pub struct AuditCursorRef(String);

impl Clone for AuditCursorRef {
    fn clone(&self) -> (r: Self)
        ensures
            r == *self,
    {
        AuditCursorRef(self.0.clone())
    }
}

impl PartialEq for AuditCursorRef {
    fn eq(&self, other: &Self) -> (r: bool) {
        self.0 == other.0
    }
}

impl PartialEqSpecImpl for AuditCursorRef {
    open spec fn obeys_eq_spec() -> bool {
        true
    }

    open spec fn eq_spec(&self, other: &Self) -> bool {
        self@ == other@
    }
}

impl View for AuditCursorRef {
    type V = Seq<char>;

    closed spec fn view(&self) -> Seq<char> {
        self.0@
    }
}

impl AuditCursorRef {
    /// Creates a new opaque typed value.
    pub fn new(value: String) -> (r: Self)
        ensures
            r@ == value@,
    {
        AuditCursorRef(value)
    }

    /// Returns the wrapped string.
    pub fn as_str(&self) -> (r: &str)
        ensures
            r@ == self@,
    {
        self.0.as_str()
    }

    /// Consumes the wrapper and returns the inner string.
    pub fn into_inner(self) -> (r: String)
        ensures
            r@ == self@,
    {
        self.0
    }
}

/// Canonical read subject marker.
#[derive(Debug, Eq, Hash, PartialOrd, Ord)]
pub struct IdentityReadSubjectRef(String);

impl Clone for IdentityReadSubjectRef {
    fn clone(&self) -> (r: Self)
        ensures
            r == *self,
    {
        IdentityReadSubjectRef(self.0.clone())
    }
}

impl PartialEq for IdentityReadSubjectRef {
    fn eq(&self, other: &Self) -> (r: bool) {
        self.0 == other.0
    }
}

impl PartialEqSpecImpl for IdentityReadSubjectRef {
    open spec fn obeys_eq_spec() -> bool {
        true
    }

    open spec fn eq_spec(&self, other: &Self) -> bool {
        self@ == other@
    }
}

impl View for IdentityReadSubjectRef {
    type V = Seq<char>;

    closed spec fn view(&self) -> Seq<char> {
        self.0@
    }
}

impl IdentityReadSubjectRef {
    /// Creates a new opaque typed value.
    pub fn new(value: String) -> (r: Self)
        ensures
            r@ == value@,
    {
        IdentityReadSubjectRef(value)
    }

    /// Returns the wrapped string.
    pub fn as_str(&self) -> (r: &str)
        ensures
            r@ == self@,
    {
        self.0.as_str()
    }

    /// Consumes the wrapper and returns the inner string.
    pub fn into_inner(self) -> (r: String)
        ensures
            r@ == self@,
    {
        self.0
    }
}

/// Body-free change reason marker.
#[derive(Debug, Eq, Hash, PartialOrd, Ord)]
pub struct IdentityChangeReasonRef(String);

impl Clone for IdentityChangeReasonRef {
    fn clone(&self) -> (r: Self)
        ensures
            r == *self,
    {
        IdentityChangeReasonRef(self.0.clone())
    }
}

impl PartialEq for IdentityChangeReasonRef {
    fn eq(&self, other: &Self) -> (r: bool) {
        self.0 == other.0
    }
}

impl PartialEqSpecImpl for IdentityChangeReasonRef {
    open spec fn obeys_eq_spec() -> bool {
        true
    }

    open spec fn eq_spec(&self, other: &Self) -> bool {
        self@ == other@
    }
}

impl View for IdentityChangeReasonRef {
    type V = Seq<char>;

    closed spec fn view(&self) -> Seq<char> {
        self.0@
    }
}

impl IdentityChangeReasonRef {
    /// Creates a new opaque typed value.
    pub fn new(value: String) -> (r: Self)
        ensures
            r@ == value@,
    {
        IdentityChangeReasonRef(value)
    }

    /// Returns the wrapped string.
    pub fn as_str(&self) -> (r: &str)
        ensures
            r@ == self@,
    {
        self.0.as_str()
    }

    /// Consumes the wrapper and returns the inner string.
    pub fn into_inner(self) -> (r: String)
        ensures
            r@ == self@,
    {
        self.0
    }
}

/// Body-free handoff reason marker.
#[derive(Debug, Eq, Hash, PartialOrd, Ord)]
pub struct HandoffReasonRef(String);

impl Clone for HandoffReasonRef {
    fn clone(&self) -> (r: Self)
        ensures
            r == *self,
    {
        HandoffReasonRef(self.0.clone())
    }
}

impl PartialEq for HandoffReasonRef {
    fn eq(&self, other: &Self) -> (r: bool) {
        self.0 == other.0
    }
}

impl PartialEqSpecImpl for HandoffReasonRef {
    open spec fn obeys_eq_spec() -> bool {
        true
    }

    open spec fn eq_spec(&self, other: &Self) -> bool {
        self@ == other@
    }
}

impl View for HandoffReasonRef {
    type V = Seq<char>;

    closed spec fn view(&self) -> Seq<char> {
        self.0@
    }
}

impl HandoffReasonRef {
    /// Creates a new opaque typed value.
    pub fn new(value: String) -> (r: Self)
        ensures
            r@ == value@,
    {
        HandoffReasonRef(value)
    }

    /// Returns the wrapped string.
    pub fn as_str(&self) -> (r: &str)
        ensures
            r@ == self@,
    {
        self.0.as_str()
    }

    /// Consumes the wrapper and returns the inner string.
    pub fn into_inner(self) -> (r: String)
        ensures
            r@ == self@,
    {
        self.0
    }
}

/// Identity-side timestamp captured from the configured clock source.
#[derive(Clone, Copy, Debug, Eq, Ord, PartialEq, PartialOrd, Structural)]
pub struct IdentityTimestamp {
    /// Milliseconds since Unix epoch from the configured clock source.
    pub epoch_millis: i64,
}

impl IdentityTimestamp {
    /// Builds a timestamp from a validated clock value; negative values are rejected.
    pub fn from_clock(epoch_millis: i64) -> (r: Result<Self, ContractError>)
        ensures
            r is Ok <==> epoch_millis >= 0,
            r matches Ok(v) ==> v.epoch_millis == epoch_millis,
            r matches Err(e) ==> e.field@ == "identity_timestamp"@ && e.message@ == "epoch_millis must be non-negative"@,
    {
        if epoch_millis < 0 {
            return Err(ContractError::invalid_value("identity_timestamp", "epoch_millis must be non-negative"));
        }
        Ok(IdentityTimestamp { epoch_millis })
    }

    /// Returns whether two timestamps refer to the same instant.
    pub fn same_instant(&self, other: &IdentityTimestamp) -> (r: bool)
        ensures
            r == (self.epoch_millis == other.epoch_millis),
    {
        self.epoch_millis == other.epoch_millis
    }

    /// Returns whether this timestamp is after the other timestamp.
    pub fn is_after(&self, other: &IdentityTimestamp) -> (r: bool)
        ensures
            r == (self.epoch_millis > other.epoch_millis),
    {
        self.epoch_millis > other.epoch_millis
    }
}

/// Public read surface kind used by query visibility and read shells.
#[derive(Clone, Copy, Debug, Eq, Hash, PartialEq, Structural)]
pub enum IdentityReadSurfaceKind {
    /// Material was found and is fully visible.
    Found,
    /// The requested material does not exist.
    NotFound,
    /// The material is hidden from the consumer.
    NotVisible,
    /// The material is visible with redaction applied.
    Redacted,
    /// The material is served from a stale projection.
    Stale,
    /// The material is degraded or partially unavailable.
    Degraded,
    /// The read found no items.
    Empty,
}

/// Public projection freshness marker reused by query and job shells.
#[derive(Debug, Eq, PartialEq)]
pub struct ProjectionFreshnessMarkerRef {
    /// Projection being described.
    pub projection_ref: IdentityProjectionRef,
    /// Public freshness state copied from projection state.
    pub state_kind: String,
}

impl Clone for ProjectionFreshnessMarkerRef {
    fn clone(&self) -> (r: Self)
        ensures
            r == *self,
    {
        ProjectionFreshnessMarkerRef { projection_ref: self.projection_ref.clone(), state_kind: self.state_kind.clone() }
    }
}

/// Public global lifecycle state kind.
#[derive(Clone, Copy, Debug, Eq, Hash, PartialEq, Structural)]
pub enum GlobalLifecycleStateKind {
    /// Member is available platform-wide.
    Available,
    /// Member is explicitly paused.
    Paused,
    /// Member is retired.
    Retired,
    /// Member is tombstoned.
    Tombstoned,
}

/// Public member anchor state kind.
#[derive(Clone, Copy, Debug, Eq, Hash, PartialEq, Structural)]
pub enum IdentityAnchorStateKind {
    /// Anchor is established.
    Established,
    /// Anchor is held after retirement.
    RetiredHeld,
    /// Anchor is held after tombstone.
    TombstoneHeld,
}

/// Public role capability summary state kind.
#[derive(Clone, Copy, Debug, Eq, Hash, PartialEq, Structural)]
pub enum RoleCapabilitySummaryStateKind {
    /// Summary is active.
    Active,
    /// Summary is stale.
    Stale,
    /// Summary source is unavailable.
    Unavailable,
    /// Summary awaits reconciliation.
    PendingReconciliation,
    /// Summary was superseded.
    Superseded,
}

/// Public role capability source snapshot state kind.
#[derive(Clone, Copy, Debug, Eq, Hash, PartialEq, Structural)]
pub enum RoleCapabilitySourceStateKind {
    /// Source is resolved.
    SourceResolved,
    /// Source is stale.
    SourceStale,
    /// Source is unavailable.
    SourceUnavailable,
    /// Source is unrecognized.
    SourceUnrecognized,
    /// Source was superseded.
    SourceSuperseded,
}

/// Public career record state kind.
#[derive(Clone, Copy, Debug, Eq, Hash, PartialEq, Structural)]
pub enum CareerRecordStateKind {
    /// Record was appended.
    Appended,
    /// Correction record was appended.
    CorrectionAppended,
    /// Record was superseded by a correction.
    SupersededByCorrection,
    /// Source awaits review.
    SourcePendingReview,
}

/// Public memory reference state kind.
#[derive(Clone, Copy, Debug, Eq, Hash, PartialEq, Structural)]
pub enum MemoryReferenceStateKind {
    /// Relation is linked.
    Linked,
    /// Relation awaits verification.
    PendingVerification,
    /// Relation is stale.
    Stale,
    /// Relation source is unavailable.
    Unavailable,
    /// Relation was migrated.
    Migrated,
    /// Relation was archived.
    Archived,
    /// Archive handoff is pending.
    HandoffPending,
    /// Archive handoff failed.
    HandoffFailed,
}

/// Public projection state kind.
#[derive(Clone, Copy, Debug, Eq, Hash, PartialEq, Structural)]
pub enum ProjectionStateKind {
    /// Projection is fresh.
    Fresh,
    /// Projection is stale.
    Stale,
    /// Projection rebuild is pending.
    RebuildPending,
    /// Projection was rebuilt.
    Rebuilt,
    /// Projection is degraded.
    Degraded,
    /// Projection rebuild failed.
    RebuildFailed,
}

/// Public reference resolution state kind.
#[derive(Clone, Copy, Debug, Eq, Hash, PartialEq, Structural)]
pub enum ReferenceResolutionStateKind {
    /// Reference is resolved.
    Resolved,
    /// Reference is stale.
    Stale,
    /// Reference is unavailable.
    Unavailable,
    /// Reference is unrecognized.
    Unrecognized,
    /// Reference awaits reconciliation.
    PendingReconciliation,
    /// Reference refresh failed.
    RefreshFailed,
}

/// Public reconciliation report state kind.
#[derive(Clone, Copy, Debug, Eq, Hash, PartialEq, Structural)]
pub enum ReconciliationReportStateKind {
    /// Report was generated.
    Generated,
    /// Report has no finding.
    NoFinding,
    /// Report detected findings.
    FindingDetected,
    /// Report is partial.
    Partial,
    /// Report failed.
    Failed,
}

/// Public outbox state kind.
#[derive(Clone, Copy, Debug, Eq, Hash, PartialEq, Structural)]
pub enum OutboxStateKind {
    /// Record awaits publish.
    PendingPublish,
    /// Record was published.
    Published,
    /// Publish failed and may be retried.
    RetryableFailed,
    /// Publish failed terminally.
    Failed,
    /// Publish was skipped by policy.
    SkippedByPolicy,
}

/// Public handoff state kind.
#[derive(Clone, Copy, Debug, Eq, Hash, PartialEq, Structural)]
pub enum HandoffStateKind {
    /// Handoff is pending.
    PendingHandoff,
    /// Handoff was delivered.
    Delivered,
    /// Handoff failed and may be retried.
    RetryableFailed,
    /// Handoff failed terminally.
    Failed,
    /// Handoff was cancelled.
    Cancelled,
}

/// Body-free material category of a reconciliation finding.
#[derive(Clone, Copy, Debug, Eq, Hash, PartialEq, Structural)]
pub enum ReconciliationFindingMaterialKind {
    /// Safe refs only.
    SafeRefsOnly,
    /// Issue refs only.
    IssueRefsOnly,
    /// Forbidden external body was presented.
    ForbiddenExternalBody,
    /// Forbidden raw diagnostic body was presented.
    ForbiddenDiagnosticBody,
    /// Forbidden secret material was presented.
    ForbiddenSecret,
}

/// Material marker of a reconciliation finding.
#[derive(Clone, Copy, Debug, Eq, PartialEq, Structural)]
pub struct ReconciliationFindingMaterial {
    /// Material category.
    pub material_kind: ReconciliationFindingMaterialKind,
}

} // verus!
