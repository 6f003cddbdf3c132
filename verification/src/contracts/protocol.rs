//! Shared protocol naming and canonicalization markers.
use vstd::prelude::*;
use vstd::std_specs::cmp::PartialEqSpecImpl;

verus! {

/// Public identity command protocol name.
#[derive(Debug, Eq, Hash, PartialOrd, Ord)]
pub struct IdentityCommandName(String);

impl Clone for IdentityCommandName {
    fn clone(&self) -> (r: Self)
        ensures
            r == *self,
    {
        IdentityCommandName(self.0.clone())
    }
}

impl PartialEq for IdentityCommandName {
    fn eq(&self, other: &Self) -> (r: bool) {
        self.0 == other.0
    }
}

impl PartialEqSpecImpl for IdentityCommandName {
    open spec fn obeys_eq_spec() -> bool {
        true
    }

    open spec fn eq_spec(&self, other: &Self) -> bool {
        self@ == other@
    }
}

impl View for IdentityCommandName {
    type V = Seq<char>;

    closed spec fn view(&self) -> Seq<char> {
        self.0@
    }
}

impl IdentityCommandName {
    /// Creates a new opaque typed value.
    pub fn new(value: String) -> (r: Self)
        ensures
            r@ == value@,
    {
        IdentityCommandName(value)
    }

    /// Returns the wrapped string.
    pub fn as_str(&self) -> (r: &str)
        ensures
            r@ == self@,
    {
        self.0.as_str()
    }
}

/// Public identity query protocol name.
#[derive(Debug, Eq, Hash, PartialOrd, Ord)]
pub struct IdentityQueryName(String);

impl Clone for IdentityQueryName {
    fn clone(&self) -> (r: Self)
        ensures
            r == *self,
    {
        IdentityQueryName(self.0.clone())
    }
}

impl PartialEq for IdentityQueryName {
    fn eq(&self, other: &Self) -> (r: bool) {
        self.0 == other.0
    }
}

impl PartialEqSpecImpl for IdentityQueryName {
    open spec fn obeys_eq_spec() -> bool {
        true
    }

    open spec fn eq_spec(&self, other: &Self) -> bool {
        self@ == other@
    }
}

impl View for IdentityQueryName {
    type V = Seq<char>;

    closed spec fn view(&self) -> Seq<char> {
        self.0@
    }
}

impl IdentityQueryName {
    /// Creates a new opaque typed value.
    pub fn new(value: String) -> (r: Self)
        ensures
            r@ == value@,
    {
        IdentityQueryName(value)
    }

    /// Returns the wrapped string.
    pub fn as_str(&self) -> (r: &str)
        ensures
            r@ == self@,
    {
        self.0.as_str()
    }
}

/// Public identity inbound consumer or callback protocol name.
#[derive(Debug, Eq, Hash, PartialOrd, Ord)]
pub struct IdentityInboundConsumerName(String);

impl Clone for IdentityInboundConsumerName {
    fn clone(&self) -> (r: Self)
        ensures
            r == *self,
    {
        IdentityInboundConsumerName(self.0.clone())
    }
}

impl PartialEq for IdentityInboundConsumerName {
    fn eq(&self, other: &Self) -> (r: bool) {
        self.0 == other.0
    }
}

impl PartialEqSpecImpl for IdentityInboundConsumerName {
    open spec fn obeys_eq_spec() -> bool {
        true
    }

    open spec fn eq_spec(&self, other: &Self) -> bool {
        self@ == other@
    }
}

impl View for IdentityInboundConsumerName {
    type V = Seq<char>;

    closed spec fn view(&self) -> Seq<char> {
        self.0@
    }
}

impl IdentityInboundConsumerName {
    /// Creates a new opaque typed value.
    pub fn new(value: String) -> (r: Self)
        ensures
            r@ == value@,
    {
        IdentityInboundConsumerName(value)
    }

    /// Returns the wrapped string.
    pub fn as_str(&self) -> (r: &str)
        ensures
            r@ == self@,
    {
        self.0.as_str()
    }
}

/// Public identity outbound event protocol name.
#[derive(Debug, Eq, Hash, PartialOrd, Ord)]
pub struct IdentityOutboundEventName(String);

impl Clone for IdentityOutboundEventName {
    fn clone(&self) -> (r: Self)
        ensures
            r == *self,
    {
        IdentityOutboundEventName(self.0.clone())
    }
}

impl PartialEq for IdentityOutboundEventName {
    fn eq(&self, other: &Self) -> (r: bool) {
        self.0 == other.0
    }
}

impl PartialEqSpecImpl for IdentityOutboundEventName {
    open spec fn obeys_eq_spec() -> bool {
        true
    }

    open spec fn eq_spec(&self, other: &Self) -> bool {
        self@ == other@
    }
}

impl View for IdentityOutboundEventName {
    type V = Seq<char>;

    closed spec fn view(&self) -> Seq<char> {
        self.0@
    }
}

impl IdentityOutboundEventName {
    /// Creates a new opaque typed value.
    pub fn new(value: String) -> (r: Self)
        ensures
            r@ == value@,
    {
        IdentityOutboundEventName(value)
    }

    /// Returns the wrapped string.
    pub fn as_str(&self) -> (r: &str)
        ensures
            r@ == self@,
    {
        self.0.as_str()
    }
}

/// Public identity operations job protocol name.
#[derive(Debug, Eq, Hash, PartialOrd, Ord)]
pub struct IdentityJobName(String);

impl Clone for IdentityJobName {
    fn clone(&self) -> (r: Self)
        ensures
            r == *self,
    {
        IdentityJobName(self.0.clone())
    }
}

impl PartialEq for IdentityJobName {
    fn eq(&self, other: &Self) -> (r: bool) {
        self.0 == other.0
    }
}

impl PartialEqSpecImpl for IdentityJobName {
    open spec fn obeys_eq_spec() -> bool {
        true
    }

    open spec fn eq_spec(&self, other: &Self) -> bool {
        self@ == other@
    }
}

impl View for IdentityJobName {
    type V = Seq<char>;

    closed spec fn view(&self) -> Seq<char> {
        self.0@
    }
}

impl IdentityJobName {
    /// Creates a new opaque typed value.
    pub fn new(value: String) -> (r: Self)
        ensures
            r@ == value@,
    {
        IdentityJobName(value)
    }

    /// Returns the wrapped string.
    pub fn as_str(&self) -> (r: &str)
        ensures
            r@ == self@,
    {
        self.0.as_str()
    }
}

/// Public protocol surface marker.
#[derive(Debug, Eq, Hash, PartialOrd, Ord)]
pub struct IdentityProtocolSurfaceRef(String);

impl Clone for IdentityProtocolSurfaceRef {
    fn clone(&self) -> (r: Self)
        ensures
            r == *self,
    {
        IdentityProtocolSurfaceRef(self.0.clone())
    }
}

impl PartialEq for IdentityProtocolSurfaceRef {
    fn eq(&self, other: &Self) -> (r: bool) {
        self.0 == other.0
    }
}

impl PartialEqSpecImpl for IdentityProtocolSurfaceRef {
    open spec fn obeys_eq_spec() -> bool {
        true
    }

    open spec fn eq_spec(&self, other: &Self) -> bool {
        self@ == other@
    }
}

impl View for IdentityProtocolSurfaceRef {
    type V = Seq<char>;

    closed spec fn view(&self) -> Seq<char> {
        self.0@
    }
}

impl IdentityProtocolSurfaceRef {
    /// Creates a new opaque typed value.
    pub fn new(value: String) -> (r: Self)
        ensures
            r@ == value@,
    {
        IdentityProtocolSurfaceRef(value)
    }

    /// Returns the wrapped string.
    pub fn as_str(&self) -> (r: &str)
        ensures
            r@ == self@,
    {
        self.0.as_str()
    }
}

/// Canonical public protocol schema version marker.
#[derive(Debug, Eq, Hash, PartialOrd, Ord)]
pub struct IdentityProtocolSchemaVersionRef(String);

impl Clone for IdentityProtocolSchemaVersionRef {
    fn clone(&self) -> (r: Self)
        ensures
            r == *self,
    {
        IdentityProtocolSchemaVersionRef(self.0.clone())
    }
}

impl PartialEq for IdentityProtocolSchemaVersionRef {
    fn eq(&self, other: &Self) -> (r: bool) {
        self.0 == other.0
    }
}

impl PartialEqSpecImpl for IdentityProtocolSchemaVersionRef {
    open spec fn obeys_eq_spec() -> bool {
        true
    }

    open spec fn eq_spec(&self, other: &Self) -> bool {
        self@ == other@
    }
}

impl View for IdentityProtocolSchemaVersionRef {
    type V = Seq<char>;

    closed spec fn view(&self) -> Seq<char> {
        self.0@
    }
}

impl IdentityProtocolSchemaVersionRef {
    /// Creates a new opaque typed value.
    pub fn new(value: String) -> (r: Self)
        ensures
            r@ == value@,
    {
        IdentityProtocolSchemaVersionRef(value)
    }

    /// Returns the wrapped string.
    pub fn as_str(&self) -> (r: &str)
        ensures
            r@ == self@,
    {
        self.0.as_str()
    }
}

/// Canonical digest algorithm binding marker.
#[derive(Debug, Eq, Hash, PartialOrd, Ord)]
pub struct IdentityDigestAlgorithmMarkerRef(String);

impl Clone for IdentityDigestAlgorithmMarkerRef {
    fn clone(&self) -> (r: Self)
        ensures
            r == *self,
    {
        IdentityDigestAlgorithmMarkerRef(self.0.clone())
    }
}

impl PartialEq for IdentityDigestAlgorithmMarkerRef {
    fn eq(&self, other: &Self) -> (r: bool) {
        self.0 == other.0
    }
}

impl PartialEqSpecImpl for IdentityDigestAlgorithmMarkerRef {
    open spec fn obeys_eq_spec() -> bool {
        true
    }

    open spec fn eq_spec(&self, other: &Self) -> bool {
        self@ == other@
    }
}

impl View for IdentityDigestAlgorithmMarkerRef {
    type V = Seq<char>;

    closed spec fn view(&self) -> Seq<char> {
        self.0@
    }
}

impl IdentityDigestAlgorithmMarkerRef {
    /// Creates a new opaque typed value.
    pub fn new(value: String) -> (r: Self)
        ensures
            r@ == value@,
    {
        IdentityDigestAlgorithmMarkerRef(value)
    }

    /// Returns the wrapped string.
    pub fn as_str(&self) -> (r: &str)
        ensures
            r@ == self@,
    {
        self.0.as_str()
    }
}

} // verus!
