//! Handles by which actors and their runtime are told apart.
use vstd::prelude::*;

verus! {

/// A shareable handle to one actor. Two handles are equal exactly when they
/// name the same actor.
///
/// A handle is a plain value, and copying it counts nothing. What keeps an
/// actor reachable is the count of holders that the actor itself keeps:
/// one for the party that built it, one more for each handle that
/// `actor_ref` or `retain` gave out, one less for each `release`.
#[derive(Clone, Copy, Debug, PartialEq, Eq, Hash, Structural)]
pub struct ActorRef {
    pub id: u64,
}

/// A back-reference to an actor that does not keep it reachable: it is not
/// counted among the actor's holders. It has to be upgraded before it can be
/// used, and the upgrade fails once the actor has no holder left.
#[derive(Clone, Copy, Debug, PartialEq, Eq, Hash, Structural)]
pub struct WeakRef {
    pub id: u64,
}

/// A handle to the runtime that owns an actor and routes its messages. Actors
/// keep it and hand it back; they never look inside.
#[derive(Clone, Copy, Debug, PartialEq, Eq, Hash, Structural)]
pub struct ActorSystem {
    pub id: u64,
}

/// Why an operation on an actor was refused.
#[derive(Clone, Copy, Debug, PartialEq, Eq, Structural)]
pub enum ActorError {
    /// The actor was asked for its own handle before it was told what that
    /// handle is.
    Uninitialized,
    /// Nobody holds a handle to the actor any more.
    Unreachable,
    /// So many handles to the actor are held that one more cannot be
    /// counted.
    TooManyHolders,
    /// The actor was asked to write to its first peer and knows none.
    NoKnownPeers,
}

impl ActorRef {
    /// The handle of the actor with the given identity.
    pub fn new(id: u64) -> (r: ActorRef)
        ensures
            r.id == id,
    {
        ActorRef { id }
    }

    /// The non-owning back-reference to the same actor.
    pub fn downgrade(&self) -> (w: WeakRef)
        ensures
            w == self.weak(),
    {
        WeakRef { id: self.id }
    }

    /// Whether both handles name the same actor.
    pub fn same_actor(&self, other: &ActorRef) -> (r: bool)
        ensures
            r == (*self == *other),
    {
        self.id == other.id
    }

    /// The back-reference that [`ActorRef::downgrade`] returns.
    pub open spec fn weak(self) -> WeakRef {
        WeakRef { id: self.id }
    }
}

impl WeakRef {
    /// The handle that this back-reference stands for.
    pub open spec fn strong(self) -> ActorRef {
        ActorRef { id: self.id }
    }

    /// What upgrading gives for an actor that `holders` parties hold: the
    /// handle, unless nobody holds the actor or the count has no room for
    /// one more holder.
    pub open spec fn upgrade_at(self, holders: nat) -> Result<ActorRef, ActorError> {
        if holders == 0 {
            Err(ActorError::Unreachable)
        } else if holders >= u64::MAX {
            Err(ActorError::TooManyHolders)
        } else {
            Ok(self.strong())
        }
    }

    /// Turns the back-reference into a handle again, for an actor that
    /// `holders` parties hold. The caller is to count the handle it gets.
    pub fn upgrade(&self, holders: u64) -> (r: Result<ActorRef, ActorError>)
        ensures
            r == self.upgrade_at(holders as nat),
    {
        if holders == 0 {
            Err(ActorError::Unreachable)
        } else if holders == u64::MAX {
            Err(ActorError::TooManyHolders)
        } else {
            Ok(ActorRef { id: self.id })
        }
    }
}

impl ActorSystem {
    /// The handle of the runtime with the given identity.
    pub fn new(id: u64) -> (r: ActorSystem)
        ensures
            r.id == id,
    {
        ActorSystem { id }
    }
}

} // verus!
