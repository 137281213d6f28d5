//! What holds of every actor, whatever is done to it.
//!
//! The laws here speak of [`ActorModel`], the value that the contracts of
//! the actors' operations are written over, so each of them holds of every
//! [`Printer`](crate::printer::Printer) and
//! [`Counter`](crate::counter::Counter).
use vstd::prelude::*;
use crate::actor::Actor;
use crate::counter::Counter;
use crate::effect::EffectView;
use crate::identity::{ActorError, ActorRef, ActorSystem};
use crate::message::{MessageView, PayloadView};
use crate::printer::Printer;
use crate::state::{ActorModel, Lifecycle};

verus! {

/// One operation on an actor that may change it.
pub enum Step {
    /// `init` with this handle.
    Bind(ActorRef),
    /// `actor_ref`.
    HandOut,
    /// `receive` of this message.
    Receive(MessageView),
    /// `handle_message`.
    Handle,
    /// `retain`.
    Retain,
    /// `release`.
    Release,
}

impl ActorModel {
    /// The actor after one operation.
    pub open spec fn after(self, step: Step) -> ActorModel {
        match step {
            Step::Bind(me) => self.bound(me),
            Step::HandOut => self.handed_out(),
            Step::Receive(message) => self.received(message),
            Step::Handle => self.handled(),
            Step::Retain => self.retained(),
            Step::Release => self.released(),
        }
    }

    /// The actor after the operations in `steps`, first to last.
    pub open spec fn after_all(self, steps: Seq<Step>) -> ActorModel
        decreases steps.len(),
    {
        if steps.len() == 0 {
            self
        } else {
            self.after(steps[0]).after_all(steps.drop_first())
        }
    }

    /// The actor after it received `messages`, first to last.
    pub open spec fn received_all(self, messages: Seq<MessageView>) -> ActorModel
        decreases messages.len(),
    {
        if messages.len() == 0 {
            self
        } else {
            self.received(messages[0]).received_all(messages.drop_first())
        }
    }

    /// The actor after it handled a message `times` times in a row.
    pub open spec fn handled_times(self, times: nat) -> ActorModel
        decreases times,
    {
        if times == 0 {
            self
        } else {
            self.handled().handled_times((times - 1) as nat)
        }
    }
}

/// Whether none of `steps` binds the back-reference.
pub open spec fn binds_nothing(steps: Seq<Step>) -> bool {
    forall|i: int| 0 <= i < steps.len() ==> !(#[trigger] steps[i] is Bind)
}

/// Operations other than `init` leave the back-reference slot as it is.
pub proof fn lemma_slot_changes_by_init_only(actor: ActorModel, steps: Seq<Step>)
    requires
        binds_nothing(steps),
    ensures
        actor.after_all(steps).myself == actor.myself,
    decreases steps.len(),
{
    if steps.len() > 0 {
        let rest = steps.drop_first();
        assert(!(steps[0] is Bind));
        assert forall|i: int| 0 <= i < rest.len() implies !(#[trigger] rest[i] is Bind) by {
            assert(rest[i] == steps[i + 1]);
        }
        lemma_slot_changes_by_init_only(actor.after(steps[0]), rest);
    }
}

/// After `init`, an actor that somebody still holds answers `actor_ref`
/// with the very handle that `init` was given, whatever else was done to
/// it in between, as long as the count of holders has room for one more.
pub proof fn law_self_reference_is_the_bound_handle(
    actor: ActorModel,
    me: ActorRef,
    steps: Seq<Step>,
)
    requires
        binds_nothing(steps),
        0 < actor.bound(me).after_all(steps).holders < u64::MAX,
    ensures
        actor.bound(me).after_all(steps).self_ref() == Ok::<ActorRef, ActorError>(me),
{
    lemma_slot_changes_by_init_only(actor.bound(me), steps);
}

/// A handle that `actor_ref` gave out is a holder like any other: the call
/// that succeeds counts one more holder and changes nothing else, so the
/// actor stays reachable for as long as that handle is held, and giving
/// the handle back leaves the actor as it was before the call. While the
/// count has room, the next call gives the same handle again.
pub proof fn law_handed_out_handle_is_counted(actor: ActorModel)
    requires
        actor.self_ref() is Ok,
    ensures
        actor.handed_out() == (ActorModel { holders: actor.holders + 1, ..actor }),
        actor.handed_out().released() == actor,
        actor.handed_out().released().lifecycle() == Lifecycle::Ready,
        actor.handed_out().holders < u64::MAX ==> actor.handed_out().self_ref()
            == actor.self_ref(),
{
}

/// A call of `actor_ref` that fails leaves the actor as it was.
pub proof fn law_refused_handle_changes_nothing(actor: ActorModel)
    requires
        actor.self_ref() is Err,
    ensures
        actor.handed_out() == actor,
{
}

/// Binding the back-reference adds no holder: an actor never keeps itself
/// reachable.
pub proof fn law_back_reference_holds_nothing(actor: ActorModel, me: ActorRef)
    ensures
        actor.bound(me).holders == actor.holders,
        actor.bound(me) == (ActorModel { myself: Some(me.weak()), ..actor }),
{
}

/// Before `init`, `actor_ref` fails: a new actor has no handle to give, and
/// nothing but `init` gives it one.
pub proof fn law_no_self_reference_before_init(
    name: Seq<char>,
    system: ActorSystem,
    peers: Seq<ActorRef>,
    steps: Seq<Step>,
)
    requires
        binds_nothing(steps),
    ensures
        ActorModel::fresh(name, system, peers).after_all(steps).self_ref() == Err::<
            ActorRef,
            ActorError,
        >(ActorError::Uninitialized),
{
    lemma_slot_changes_by_init_only(ActorModel::fresh(name, system, peers), steps);
}

/// Receiving loses nothing and reorders nothing: after a run of `receive`
/// calls, from however many senders and in whatever order their calls took
/// effect, the inbox is what it was, followed by the messages in that
/// order. Nothing else about the actor changes.
pub proof fn law_receive_keeps_every_message(actor: ActorModel, messages: Seq<MessageView>)
    ensures
        actor.received_all(messages) == (ActorModel {
            inbox: actor.inbox + messages,
            ..actor
        }),
    decreases messages.len(),
{
    if messages.len() == 0 {
        assert(actor.inbox + messages =~= actor.inbox);
    } else {
        let next = actor.received(messages[0]);
        let rest = messages.drop_first();
        law_receive_keeps_every_message(next, rest);
        assert(next.inbox + rest =~= actor.inbox + messages);
    }
}

/// Handling `times` messages in a row removes the `times` oldest ones and
/// changes nothing else.
pub proof fn lemma_handling_removes_the_oldest(actor: ActorModel, times: nat)
    requires
        times <= actor.inbox.len(),
    ensures
        actor.handled_times(times) == (ActorModel {
            inbox: actor.inbox.skip(times as int),
            ..actor
        }),
    decreases times,
{
    if times == 0 {
        assert(actor.inbox.skip(0) =~= actor.inbox);
    } else {
        lemma_handling_removes_the_oldest(actor.handled(), (times - 1) as nat);
        assert(actor.inbox.drop_first().skip(times - 1) =~= actor.inbox.skip(times as int));
    }
}

/// First in, first out: once `messages` were received in order, the call
/// of `handle_message` that follows `k` earlier ones takes the message at
/// place `k` of what was pending before followed by `messages`, and when as
/// many calls were made as messages were pending, the inbox is empty.
pub proof fn law_first_in_first_out(actor: ActorModel, messages: Seq<MessageView>)
    ensures
        forall|k: nat|
            k < actor.inbox.len() + messages.len() ==> (#[trigger] actor.received_all(
                messages,
            ).handled_times(k)).inbox[0] == (actor.inbox + messages)[k as int],
        actor.received_all(messages).handled_times(actor.inbox.len() + messages.len())
            == (ActorModel { inbox: Seq::empty(), ..actor }),
{
    let full = actor.received_all(messages);
    law_receive_keeps_every_message(actor, messages);
    assert forall|k: nat| k < actor.inbox.len() + messages.len() implies (
    #[trigger] full.handled_times(k)).inbox[0] == (actor.inbox + messages)[k as int] by {
        lemma_handling_removes_the_oldest(full, k);
    }
    let total = actor.inbox.len() + messages.len();
    lemma_handling_removes_the_oldest(full, total);
    assert(full.inbox.skip(total as int) =~= Seq::<MessageView>::empty());
}

/// An actor with an empty inbox that receives `messages` and then handles
/// as many has handled exactly `messages`, in the order of their arrival.
pub proof fn law_delivery_order_is_arrival_order(actor: ActorModel, messages: Seq<MessageView>)
    requires
        actor.inbox.len() == 0,
    ensures
        forall|k: nat|
            k < messages.len() ==> (#[trigger] actor.received_all(messages).handled_times(
                k,
            )).inbox[0] == messages[k as int],
        actor.received_all(messages).handled_times(messages.len()) == actor,
{
    law_first_in_first_out(actor, messages);
    assert(actor.inbox + messages =~= messages);
    assert(actor.inbox =~= Seq::<MessageView>::empty());
}

/// A printer accepts text and the command signal and drops every other
/// payload; a counter accepts numbers and the command signal and drops
/// every other payload. Either way the actor is afterwards what it was,
/// less the message.
pub proof fn law_dispatch_goes_by_payload_type(actor: ActorModel, payload: PayloadView)
    ensures
        Printer::reaction(MessageView::Data(payload)) == (match payload {
            PayloadView::Text(text) => EffectView::Text(text),
            _ => EffectView::Dropped,
        }),
        Counter::reaction(MessageView::Data(payload)) == (match payload {
            PayloadView::Number(upto) => EffectView::Count {
                upto,
                steps: Seq::new(upto as nat, |i: int| i as u32),
            },
            _ => EffectView::Dropped,
        }),
        Printer::reaction(MessageView::Command) == EffectView::Command,
        Counter::reaction(MessageView::Command) == EffectView::Command,
        actor.handled().name == actor.name,
        actor.handled().system == actor.system,
        actor.handled().peers == actor.peers,
        actor.handled().myself == actor.myself,
        actor.handled().holders == actor.holders,
{
}

/// When the last holder lets go, the actor becomes unreachable, and its
/// back-reference can no longer be turned into a handle.
pub proof fn law_last_release_makes_unreachable(actor: ActorModel)
    requires
        actor.holders == 1,
    ensures
        actor.released().lifecycle() == Lifecycle::Unreachable,
        actor.released().self_ref() is Err,
        actor.myself is Some ==> actor.released().self_ref() == Err::<ActorRef, ActorError>(
            ActorError::Unreachable,
        ),
{
}

/// An actor that nobody holds stays unreachable: whatever is done to it,
/// nobody holds it afterwards either, and `actor_ref` fails.
pub proof fn law_unreachable_is_final(actor: ActorModel, steps: Seq<Step>)
    requires
        actor.holders == 0,
    ensures
        actor.after_all(steps).holders == 0,
        actor.after_all(steps).lifecycle() == Lifecycle::Unreachable,
        actor.after_all(steps).self_ref() is Err,
    decreases steps.len(),
{
    if steps.len() > 0 {
        law_unreachable_is_final(actor.after(steps[0]), steps.drop_first());
    }
}

} // verus!
