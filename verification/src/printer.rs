//! An actor that understands text.
use vstd::prelude::*;
use crate::actor::Actor;
use crate::effect::{Delivery, Effect, EffectView};
use crate::identity::{ActorError, ActorRef, ActorSystem, WeakRef};
use crate::message::{Message, MessageView, Payload, PayloadView};
use crate::state::{ActorModel, ActorState};

verus! {

/// A very basic actor which deals with textual data by handing the text on
/// to be shown. Data of any other type it drops.
pub struct Printer {
    state: ActorState,
}

impl View for Printer {
    type V = ActorModel;

    closed spec fn view(&self) -> ActorModel {
        self.state@
    }
}

impl Actor for Printer {
    /// What a printer does with a message: text is accepted, a command is
    /// accepted, every other payload is dropped.
    open spec fn reaction(message: MessageView) -> EffectView {
        match message {
            MessageView::Data(PayloadView::Text(text)) => EffectView::Text(text),
            MessageView::Data(_) => EffectView::Dropped,
            MessageView::Command => EffectView::Command,
        }
    }

    fn new(name: String, actor_system: ActorSystem, known_actors: Vec<ActorRef>) -> Printer {
        Printer { state: ActorState::new(name, actor_system, known_actors) }
    }

    fn init(&mut self, me: ActorRef) {
        self.state.init(me);
    }

    fn actor_ref(&mut self) -> Result<ActorRef, ActorError> {
        self.state.actor_ref()
    }

    fn myself(&self) -> Option<WeakRef> {
        self.state.myself()
    }

    fn handle_message(&mut self) -> Effect {
        let message = self.state.take_next();
        Self::react(message)
    }

    fn actor_system(&self) -> ActorSystem {
        self.state.actor_system()
    }

    fn receive(&mut self, message: Message) {
        self.state.receive(message);
    }

    fn send_to_first(&self, message: Message) -> Result<Delivery, ActorError> {
        self.state.send_to_first(message)
    }
}

impl Printer {
    /// Decides what a printer does with `message`.
    pub fn react(message: Message) -> (effect: Effect)
        ensures
            effect@ == Self::reaction(message@),
    {
        match message {
            Message::Data(payload) => match payload {
                Payload::Text(text) => Effect::Text(text),
                _ => Effect::Dropped,
            },
            Message::Command => Effect::Command,
        }
    }

    /// The state that the printer shares with every other kind of actor.
    pub fn state(&self) -> (r: &ActorState)
        ensures
            r@ == self@,
    {
        &self.state
    }

    /// Counts one more handle to the printer. Returns whether the handle
    /// was counted.
    pub fn retain(&mut self) -> (counted: bool)
        ensures
            counted == old(self)@.can_retain(),
            final(self)@ == old(self)@.retained(),
    {
        self.state.retain()
    }

    /// Counts one handle less. Returns whether there was a handle to let
    /// go of.
    pub fn release(&mut self) -> (counted: bool)
        ensures
            counted == (old(self)@.holders > 0),
            final(self)@ == old(self)@.released(),
    {
        self.state.release()
    }
}

} // verus!
