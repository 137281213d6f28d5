//! What every kind of actor can do.
use vstd::prelude::*;
use crate::effect::{Delivery, DeliveryView, Effect, EffectView};
use crate::identity::{ActorError, ActorRef, ActorSystem, WeakRef};
use crate::message::{Message, MessageView};
use crate::state::ActorModel;

verus! {

/// The operations that every kind of actor offers. The kinds differ in one
/// thing only: which messages they accept, and what they make of them.
pub trait Actor: View<V = ActorModel> + Sized {
    /// What this kind of actor makes of a message.
    spec fn reaction(message: MessageView) -> EffectView;

    /// Builds an actor: nothing pending, the back-reference unbound, one
    /// holder. No peer is told of it.
    fn new(name: String, actor_system: ActorSystem, known_actors: Vec<ActorRef>) -> (actor: Self)
        ensures
            actor@ == ActorModel::fresh(name@, actor_system, known_actors@),
    ;

    /// Tells the actor that `me` is its own handle. The actor keeps a
    /// back-reference only, which does not hold it.
    fn init(&mut self, me: ActorRef)
        ensures
            final(self)@ == old(self)@.bound(me),
    ;

    /// The actor's own handle: the one it was last bound to, as long as
    /// somebody holds the actor. The handle given out counts as one more
    /// holder, which the caller gives up again when it lets go of the
    /// handle. A call that fails changes nothing.
    fn actor_ref(&mut self) -> (r: Result<ActorRef, ActorError>)
        ensures
            r == old(self)@.self_ref(),
            final(self)@ == old(self)@.handed_out(),
    ;

    /// The content of the back-reference slot.
    fn myself(&self) -> (r: Option<WeakRef>)
        ensures
            r == self@.myself,
    ;

    /// Takes the oldest pending message out of the inbox and reacts to it.
    /// Nothing but the inbox changes.
    fn handle_message(&mut self) -> (effect: Effect)
        requires
            old(self)@.inbox.len() > 0,
        ensures
            final(self)@ == old(self)@.handled(),
            effect@ == Self::reaction(old(self)@.inbox[0]),
    ;

    /// The runtime that owns the actor.
    fn actor_system(&self) -> (r: ActorSystem)
        ensures
            r == self@.system,
    ;

    /// Puts `message` at the tail of the inbox, and does nothing else.
    fn receive(&mut self, message: Message)
        ensures
            final(self)@ == old(self)@.received(message@),
    ;

    /// Addresses `message` to the first known peer.
    fn send_to_first(&self, message: Message) -> (r: Result<Delivery, ActorError>)
        ensures
            match r {
                Ok(d) => self@.to_first(message@) == Ok::<DeliveryView, ActorError>(d@),
                Err(e) => self@.to_first(message@) == Err::<DeliveryView, ActorError>(e),
            },
    ;
}

} // verus!
