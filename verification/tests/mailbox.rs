use actors::{
    Actor, ActorError, ActorRef, ActorState, ActorSystem, Counter, Delivery, Effect, Message, Payload,
    Printer,
};

fn text(s: &str) -> Message {
    Message::Data(Payload::Text(String::from(s)))
}

#[test]
fn hello_is_handled_and_the_inbox_is_empty() {
    let mut a = Printer::new(String::from("A"), ActorSystem::new(1), Vec::new());
    a.init(ActorRef::new(1));
    a.receive(text("hello"));
    assert_eq!(a.state().pending(), 1);
    assert_eq!(a.handle_message(), Effect::Text(String::from("hello")));
    assert_eq!(a.state().pending(), 0);
}

#[test]
fn forty_two_is_counted_from_zero_to_forty_one() {
    let mut c = Counter::new(String::from("C"), ActorSystem::new(1), Vec::new());
    c.receive(Message::Data(Payload::Number(42)));
    let effect = c.handle_message();
    let expected: Vec<u32> = (0..42).collect();
    assert_eq!(expected.len(), 42);
    assert_eq!(expected[41], 41);
    assert_eq!(effect, Effect::Count { upto: 42, steps: expected });
    assert_eq!(c.state().pending(), 0);
}

#[test]
fn new_actor_has_nothing_to_handle() {
    let p = Printer::new(String::from("A"), ActorSystem::new(1), Vec::new());
    assert_eq!(p.state().pending(), 0);
    let c = Counter::new(String::from("C"), ActorSystem::new(1), Vec::new());
    assert_eq!(c.state().pending(), 0);
}

#[test]
fn receive_only_enqueues() {
    let mut p = Printer::new(String::from("A"), ActorSystem::new(7), vec![ActorRef::new(2)]);
    p.init(ActorRef::new(1));
    p.receive(text("one"));
    p.receive(Message::Command);
    assert_eq!(p.state().pending(), 2);
    assert_eq!(p.state().holders(), 1);
    assert_eq!(p.myself(), Some(ActorRef::new(1).downgrade()));
    assert_eq!(p.state().known_actors(), &vec![ActorRef::new(2)]);
    assert_eq!(p.actor_system(), ActorSystem::new(7));
}

#[test]
fn messages_are_handled_in_the_order_received() {
    let mut p = Printer::new(String::from("A"), ActorSystem::new(1), Vec::new());
    let words = ["m1", "m2", "m3", "m4", "m5"];
    for w in words {
        p.receive(text(w));
    }
    for w in words {
        assert_eq!(p.handle_message(), Effect::Text(String::from(w)));
    }
    assert_eq!(p.state().pending(), 0);
}

#[test]
fn order_holds_when_receiving_and_handling_alternate() {
    let mut c = Counter::new(String::from("C"), ActorSystem::new(1), Vec::new());
    c.receive(Message::Data(Payload::Number(1)));
    c.receive(Message::Data(Payload::Number(2)));
    assert_eq!(c.handle_message(), Effect::Count { upto: 1, steps: vec![0] });
    c.receive(Message::Data(Payload::Number(3)));
    assert_eq!(c.handle_message(), Effect::Count { upto: 2, steps: vec![0, 1] });
    assert_eq!(c.handle_message(), Effect::Count { upto: 3, steps: vec![0, 1, 2] });
    assert_eq!(c.state().pending(), 0);
}

#[test]
fn every_received_message_is_kept() {
    let mut s = ActorState::new(String::from("S"), ActorSystem::new(1), Vec::new());
    for n in 0..1000u32 {
        s.receive(Message::Data(Payload::Number(n)));
    }
    assert_eq!(s.pending(), 1000);
    for n in 0..1000u32 {
        assert_eq!(s.take_next(), Message::Data(Payload::Number(n)));
    }
    assert_eq!(s.pending(), 0);
}

#[test]
fn send_to_first_addresses_the_first_peer() {
    let p = Printer::new(
        String::from("A"),
        ActorSystem::new(1),
        vec![ActorRef::new(30), ActorRef::new(20)],
    );
    assert_eq!(
        p.send_to_first(text("hi")),
        Ok(Delivery { target: ActorRef::new(30), message: text("hi") })
    );
    let c = Counter::new(String::from("C"), ActorSystem::new(1), vec![ActorRef::new(9)]);
    assert_eq!(
        c.send_to_first(Message::Command),
        Ok(Delivery { target: ActorRef::new(9), message: Message::Command })
    );
    assert_eq!(p.state().pending(), 0);
}

#[test]
fn send_to_first_without_peers_fails() {
    let p = Printer::new(String::from("A"), ActorSystem::new(1), Vec::new());
    assert_eq!(p.send_to_first(Message::Command), Err(ActorError::NoKnownPeers));
    let c = Counter::new(String::from("C"), ActorSystem::new(1), Vec::new());
    assert_eq!(c.send_to_first(text("x")), Err(ActorError::NoKnownPeers));
}

#[test]
fn a_delivery_reaches_the_inbox_of_its_target() {
    let sender = Printer::new(String::from("A"), ActorSystem::new(1), vec![ActorRef::new(2)]);
    let mut target = Counter::new(String::from("B"), ActorSystem::new(1), Vec::new());
    target.init(ActorRef::new(2));
    let delivery = sender.send_to_first(Message::Data(Payload::Number(3))).unwrap();
    assert_eq!(Ok(delivery.target), target.actor_ref());
    target.receive(delivery.message);
    assert_eq!(target.handle_message(), Effect::Count { upto: 3, steps: vec![0, 1, 2] });
}

#[test]
fn two_senders_taking_turns_lose_nothing() {
    let mut p = Printer::new(String::from("A"), ActorSystem::new(1), Vec::new());
    let turns = ["a1", "b1", "b2", "a2", "b3", "a3"];
    for t in turns {
        p.receive(text(t));
    }
    assert_eq!(p.state().pending(), 6);
    let mut from_a = Vec::new();
    let mut from_b = Vec::new();
    for t in turns {
        let effect = p.handle_message();
        assert_eq!(effect, Effect::Text(String::from(t)));
        if t.starts_with('a') {
            from_a.push(t);
        } else {
            from_b.push(t);
        }
    }
    assert_eq!(from_a, vec!["a1", "a2", "a3"]);
    assert_eq!(from_b, vec!["b1", "b2", "b3"]);
    assert_eq!(p.state().pending(), 0);
}
