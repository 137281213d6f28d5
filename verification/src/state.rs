//! The state that every actor keeps, and the steps that change it.
use vstd::prelude::*;
use vstd::pervasive::unreached;
use std::collections::VecDeque;
use crate::effect::{Delivery, DeliveryView};
use crate::identity::{ActorError, ActorRef, ActorSystem, WeakRef};
use crate::message::{Message, MessageView};

verus! {

/// Where an actor stands in its life.
#[derive(Clone, Copy, Debug, PartialEq, Eq, Structural)]
pub enum Lifecycle {
    /// Built, and not yet told its own handle.
    Uninitialized,
    /// Told its own handle, and held by somebody.
    Ready,
    /// Held by nobody any more.
    Unreachable,
}

/// The mathematical value of an actor's state.
pub struct ActorModel {
    /// The display name.
    pub name: Seq<char>,
    /// The pending messages, oldest first.
    pub inbox: Seq<MessageView>,
    /// The runtime that owns the actor.
    pub system: ActorSystem,
    /// The peers that the actor may write to.
    pub peers: Seq<ActorRef>,
    /// The back-reference to the actor itself, once it is bound.
    pub myself: Option<WeakRef>,
    /// How many holders the actor counts: the party that built it, and
    /// one for each handle that `actor_ref` or `retain` gave out and that
    /// was not released since. The back-reference in `myself` is not one
    /// of them.
    pub holders: nat,
}

impl ActorModel {
    /// An actor as it is right after construction: nothing pending, no
    /// back-reference, and one holder, the party that constructed it.
    pub open spec fn fresh(name: Seq<char>, system: ActorSystem, peers: Seq<ActorRef>) -> ActorModel {
        ActorModel { name, inbox: Seq::empty(), system, peers, myself: None, holders: 1 }
    }

    /// Where the actor stands in its life.
    pub open spec fn lifecycle(self) -> Lifecycle {
        if self.holders == 0 {
            Lifecycle::Unreachable
        } else if self.myself is None {
            Lifecycle::Uninitialized
        } else {
            Lifecycle::Ready
        }
    }

    /// The actor after it was told that `me` is its own handle.
    pub open spec fn bound(self, me: ActorRef) -> ActorModel {
        ActorModel { myself: Some(me.weak()), ..self }
    }

    /// What `actor_ref` answers: the actor's own handle, or the reason why
    /// there is none to give. The back-reference was never bound, or nobody
    /// holds the actor any more, or one more holder cannot be counted.
    pub open spec fn self_ref(self) -> Result<ActorRef, ActorError> {
        match self.myself {
            None => Err(ActorError::Uninitialized),
            Some(weak) => weak.upgrade_at(self.holders),
        }
    }

    /// The actor after `actor_ref` was called: where the call gave out a
    /// handle, that handle is counted as one more holder; where it failed,
    /// nothing has changed.
    pub open spec fn handed_out(self) -> ActorModel {
        if self.self_ref() is Ok {
            self.retained()
        } else {
            self
        }
    }

    /// The actor after `message` was put at the tail of its inbox.
    pub open spec fn received(self, message: MessageView) -> ActorModel {
        ActorModel { inbox: self.inbox.push(message), ..self }
    }

    /// The actor after the oldest pending message was taken out.
    pub open spec fn handled(self) -> ActorModel {
        ActorModel { inbox: self.inbox.drop_first(), ..self }
    }

    /// Where a message for the first peer goes, or the reason why it goes
    /// nowhere.
    pub open spec fn to_first(self, message: MessageView) -> Result<DeliveryView, ActorError> {
        if self.peers.len() > 0 {
            Ok(DeliveryView { target: self.peers[0], message })
        } else {
            Err(ActorError::NoKnownPeers)
        }
    }

    /// Whether one more handle can be taken: somebody must hold one to copy
    /// it from, and the count must have room.
    pub open spec fn can_retain(self) -> bool {
        0 < self.holders < u64::MAX
    }

    /// The actor after one more handle to it was taken.
    pub open spec fn retained(self) -> ActorModel {
        if self.can_retain() {
            ActorModel { holders: self.holders + 1, ..self }
        } else {
            self
        }
    }

    /// The actor after one handle to it was given up.
    pub open spec fn released(self) -> ActorModel {
        if self.holders > 0 {
            ActorModel { holders: (self.holders - 1) as nat, ..self }
        } else {
            self
        }
    }
}

/// The views of the messages in `messages`, in the same order.
pub open spec fn views_of(messages: Seq<Message>) -> Seq<MessageView> {
    messages.map_values(|m: Message| m@)
}

/// The state of one actor: its name, its inbox, the runtime that owns it, the
/// peers it knows, and the slot for the back-reference to itself.
pub struct ActorState {
    name: String,
    inbox: VecDeque<Message>,
    system: ActorSystem,
    known: Vec<ActorRef>,
    myself: Option<WeakRef>,
    holders: u64,
}

impl View for ActorState {
    type V = ActorModel;

    closed spec fn view(&self) -> ActorModel {
        ActorModel {
            name: self.name@,
            inbox: views_of(self.inbox@),
            system: self.system,
            peers: self.known@,
            myself: self.myself,
            holders: self.holders as nat,
        }
    }
}

impl ActorState {
    /// Builds the state of a new actor. Its inbox exists and is empty; its
    /// back-reference is still unbound.
    pub fn new(name: String, system: ActorSystem, known: Vec<ActorRef>) -> (s: ActorState)
        ensures
            s@ == ActorModel::fresh(name@, system, known@),
    {
        let s = ActorState { name, inbox: VecDeque::new(), system, known, myself: None, holders: 1 };
        assert(s@.inbox =~= Seq::empty());
        s
    }

    /// Binds the back-reference: from now on the actor knows that `me` is
    /// its own handle. The back-reference does not count as a holder.
    pub fn init(&mut self, me: ActorRef)
        ensures
            final(self)@ == old(self)@.bound(me),
    {
        self.myself = Some(me.downgrade());
    }

    /// The actor's own handle, turned from the back-reference into a
    /// handle that counts: on success the actor has one more holder, which
    /// the caller gives up again with `release`. On failure nothing changes.
    pub fn actor_ref(&mut self) -> (r: Result<ActorRef, ActorError>)
        ensures
            r == old(self)@.self_ref(),
            final(self)@ == old(self)@.handed_out(),
    {
        match self.myself {
            None => Err(ActorError::Uninitialized),
            Some(weak) => match weak.upgrade(self.holders) {
                Ok(me) => {
                    self.holders = self.holders + 1;
                    Ok(me)
                },
                Err(e) => Err(e),
            },
        }
    }

    /// The content of the back-reference slot.
    pub fn myself(&self) -> (r: Option<WeakRef>)
        ensures
            r == self@.myself,
    {
        self.myself
    }

    /// Puts `message` at the tail of the inbox.
    pub fn receive(&mut self, message: Message)
        ensures
            final(self)@ == old(self)@.received(message@),
    {
        self.inbox.push_back(message);
        assert(views_of(self.inbox@) =~= views_of(old(self).inbox@).push(message@));
    }

    /// Takes the oldest pending message out of the inbox.
    pub fn take_next(&mut self) -> (message: Message)
        requires
            old(self)@.inbox.len() > 0,
        ensures
            message@ == old(self)@.inbox[0],
            final(self)@ == old(self)@.handled(),
    {
        let taken = self.inbox.pop_front();
        assert(views_of(self.inbox@) =~= views_of(old(self).inbox@).drop_first());
        match taken {
            Some(message) => message,
            None => unreached(),
        }
    }

    /// How many messages are pending.
    pub fn pending(&self) -> (n: usize)
        ensures
            n == self@.inbox.len(),
    {
        self.inbox.len()
    }

    /// Addresses `message` to the first known peer.
    pub fn send_to_first(&self, message: Message) -> (r: Result<Delivery, ActorError>)
        ensures
            match r {
                Ok(d) => self@.to_first(message@) == Ok::<DeliveryView, ActorError>(d@),
                Err(e) => self@.to_first(message@) == Err::<DeliveryView, ActorError>(e),
            },
    {
        if self.known.len() > 0 {
            Ok(Delivery { target: self.known[0], message })
        } else {
            Err(ActorError::NoKnownPeers)
        }
    }

    /// The runtime that owns the actor.
    pub fn actor_system(&self) -> (r: ActorSystem)
        ensures
            r == self@.system,
    {
        self.system
    }

    /// The display name.
    pub fn name(&self) -> (r: &String)
        ensures
            r@ == self@.name,
    {
        &self.name
    }

    /// The peers that the actor may write to.
    pub fn known_actors(&self) -> (r: &Vec<ActorRef>)
        ensures
            r@ == self@.peers,
    {
        &self.known
    }

    /// How many handles to the actor are held.
    pub fn holders(&self) -> (n: u64)
        ensures
            n == self@.holders,
    {
        self.holders
    }

    /// Where the actor stands in its life.
    pub fn lifecycle(&self) -> (r: Lifecycle)
        ensures
            r == self@.lifecycle(),
    {
        if self.holders == 0 {
            Lifecycle::Unreachable
        } else if self.myself.is_none() {
            Lifecycle::Uninitialized
        } else {
            Lifecycle::Ready
        }
    }

    /// Counts one more handle to the actor, as when a holder copies its
    /// handle. Returns whether the handle was counted.
    pub fn retain(&mut self) -> (counted: bool)
        ensures
            counted == old(self)@.can_retain(),
            final(self)@ == old(self)@.retained(),
    {
        if 0 < self.holders && self.holders < u64::MAX {
            self.holders = self.holders + 1;
            true
        } else {
            false
        }
    }

    /// Counts one handle less, as when a holder lets go of its handle.
    /// Returns whether there was a handle to let go of.
    pub fn release(&mut self) -> (counted: bool)
        ensures
            counted == (old(self)@.holders > 0),
            final(self)@ == old(self)@.released(),
    {
        if self.holders > 0 {
            self.holders = self.holders - 1;
            true
        } else {
            false
        }
    }
}

} // verus!
