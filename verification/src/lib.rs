//! Actors that talk only through messages.
//!
//! An actor owns a private, ordered inbox. Other parties hold an [`ActorRef`]
//! to it and enqueue [`Message`]s; whoever schedules the actor asks it to
//! handle the oldest pending message. Nothing in this crate touches shared
//! memory, a clock or a console: every operation is a function from the
//! actor's state to its next state and an [`Effect`] that the caller carries
//! out.
pub mod actor;
pub mod counter;
pub mod effect;
pub mod identity;
pub mod laws;
pub mod message;
pub mod printer;
pub mod state;

pub use actor::Actor;
pub use counter::Counter;
pub use effect::{count_up, steps_below, Delivery, DeliveryView, Effect, EffectView};
pub use identity::{ActorError, ActorRef, ActorSystem, WeakRef};
pub use message::{Message, MessageView, Payload, PayloadView};
pub use printer::Printer;
pub use state::{ActorModel, ActorState, Lifecycle};
