//! What an actor asks its caller to do on its behalf.
use vstd::prelude::*;
use crate::identity::ActorRef;
use crate::message::{Message, MessageView};

verus! {

/// What handling one message came to. The actor decides; the caller makes it
/// visible.
#[derive(Clone, Debug, PartialEq, Eq)]
pub enum Effect {
    /// A textual payload was accepted; this is its text.
    Text(String),
    /// A numeric payload was accepted; `steps` holds every number below
    /// `upto`, in rising order.
    Count { upto: u32, steps: Vec<u32> },
    /// The command signal was accepted.
    Command,
    /// The payload was of a type that the actor does not understand, and
    /// the message was discarded.
    Dropped,
}

/// The mathematical value of an [`Effect`].
pub enum EffectView {
    Text(Seq<char>),
    Count { upto: u32, steps: Seq<u32> },
    Command,
    Dropped,
}

impl View for Effect {
    type V = EffectView;

    open spec fn view(&self) -> EffectView {
        match *self {
            Effect::Text(s) => EffectView::Text(s@),
            Effect::Count { upto, steps } => EffectView::Count { upto, steps: steps@ },
            Effect::Command => EffectView::Command,
            Effect::Dropped => EffectView::Dropped,
        }
    }
}

/// A message on its way: the runtime is to enqueue `message` at `target`.
#[derive(Clone, Debug, PartialEq, Eq)]
pub struct Delivery {
    pub target: ActorRef,
    pub message: Message,
}

/// The mathematical value of a [`Delivery`].
pub struct DeliveryView {
    pub target: ActorRef,
    pub message: MessageView,
}

impl View for Delivery {
    type V = DeliveryView;

    open spec fn view(&self) -> DeliveryView {
        DeliveryView { target: self.target, message: self.message@ }
    }
}

/// The numbers `0, 1, .., upto - 1`.
pub open spec fn steps_below(upto: u32) -> Seq<u32> {
    Seq::new(upto as nat, |i: int| i as u32)
}

/// Counts from zero up to, and not including, `upto`.
pub fn count_up(upto: u32) -> (steps: Vec<u32>)
    ensures
        steps@ == steps_below(upto),
{
    let mut steps: Vec<u32> = Vec::new();
    let mut i: u32 = 0;
    while i < upto
        invariant
            i <= upto,
            steps@ == steps_below(i),
        decreases upto - i,
    {
        steps.push(i);
        i = i + 1;
    }
    steps
}

} // verus!
