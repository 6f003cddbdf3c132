//! Actor and idempotency markers shared by every identity entry path.
use vstd::prelude::*;

verus! {

/// Category of the actor that requested an identity operation.
#[derive(Clone, Copy, Debug, Eq, Hash, PartialEq, Structural)]
pub enum ActorKind {
    /// A human operator or member.
    Human,
    /// A system process, job, or automated source.
    System,
}

/// Body-free reference to the actor that requested an identity operation.
#[derive(Debug, Eq, Hash, PartialEq)]
pub struct ActorRef {
    /// Opaque actor identifier.
    pub actor_id: String,
    /// Actor category.
    pub actor_kind: ActorKind,
}

impl Clone for ActorRef {
    fn clone(&self) -> (r: Self)
        ensures
            r == *self,
    {
        ActorRef { actor_id: self.actor_id.clone(), actor_kind: self.actor_kind }
    }
}

impl ActorRef {
    /// Creates an actor reference of the given kind.
    pub fn new(actor_id: &str, actor_kind: ActorKind) -> (r: Self)
        ensures
            r.actor_id@ == actor_id@,
            r.actor_kind == actor_kind,
    {
        ActorRef { actor_id: actor_id.to_owned(), actor_kind }
    }

    /// Creates a system actor reference.
    pub fn system(actor_id: &str) -> (r: Self)
        ensures
            r.actor_id@ == actor_id@,
            r.actor_kind == ActorKind::System,
    {
        ActorRef { actor_id: actor_id.to_owned(), actor_kind: ActorKind::System }
    }

    /// Returns whether both references name the same actor.
    pub fn same_actor(&self, other: &ActorRef) -> (r: bool)
        ensures
            r == (self.actor_id@ == other.actor_id@ && self.actor_kind == other.actor_kind),
    {
        self.actor_id == other.actor_id && self.actor_kind == other.actor_kind
    }
}

/// Caller-supplied idempotency key for write and callback entries.
#[derive(Debug, Eq, Hash, PartialOrd, Ord)]
pub struct IdempotencyKey(String);

impl Clone for IdempotencyKey {
    fn clone(&self) -> (r: Self)
        ensures
            r == *self,
    {
        IdempotencyKey(self.0.clone())
    }
}

impl PartialEq for IdempotencyKey {
    fn eq(&self, other: &Self) -> (r: bool) {
        self.0 == other.0
    }
}

impl vstd::std_specs::cmp::PartialEqSpecImpl for IdempotencyKey {
    open spec fn obeys_eq_spec() -> bool {
        true
    }

    open spec fn eq_spec(&self, other: &Self) -> bool {
        self@ == other@
    }
}

impl View for IdempotencyKey {
    type V = Seq<char>;

    closed spec fn view(&self) -> Seq<char> {
        self.0@
    }
}

impl IdempotencyKey {
    /// Creates an idempotency key.
    pub fn new(value: String) -> (r: Self)
        ensures
            r@ == value@,
    {
        IdempotencyKey(value)
    }

    /// Returns the wrapped key.
    pub fn as_str(&self) -> (r: &str)
        ensures
            r@ == self@,
    {
        self.0.as_str()
    }
}

} // verus!
