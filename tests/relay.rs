use massrelay::address::remove_trailing_slash;
use massrelay::config::{RelayConfig, SourceBinding};
use massrelay::relay::{Action, Confirmation, Event, Halt, Outcome, Phase, Relay, CONSUMER_TAG};

fn hello_config(declare: bool) -> RelayConfig {
    let binding = if declare {
        Some(SourceBinding { exchange: "hello".to_string(), routing_key: "hello".to_string() })
    } else {
        None
    };
    RelayConfig::new(
        "amqp://source:5672/",
        "hello".to_string(),
        binding,
        "amqp://target:5672",
        "hello".to_string(),
        "hello".to_string(),
    )
}

/// A relay that has just subscribed and waits for its first delivery.
fn consuming_relay() -> Relay {
    let (mut relay, _) = Relay::start(hello_config(false));
    relay.step(Event::Succeeded);
    relay.step(Event::Succeeded);
    assert_eq!(relay.step(Event::Succeeded), Action::NextDelivery(Outcome::Started));
    assert_eq!(relay.phase(), Phase::Consuming);
    relay
}

fn publish_of(payload: &[u8]) -> Action {
    Action::Publish {
        exchange: "hello".to_string(),
        routing_key: "hello".to_string(),
        payload: payload.to_vec(),
    }
}

#[test]
fn trailing_slash_is_removed() {
    assert_eq!(remove_trailing_slash("amqp://host:5672/"), "amqp://host:5672");
}

#[test]
fn address_without_trailing_slash_is_unchanged() {
    assert_eq!(remove_trailing_slash("amqp://host:5672"), "amqp://host:5672");
}

#[test]
fn only_one_trailing_slash_is_removed() {
    assert_eq!(remove_trailing_slash("amqp://host:5672//"), "amqp://host:5672/");
    assert_eq!(remove_trailing_slash("/"), "");
    assert_eq!(remove_trailing_slash(""), "");
}

#[test]
fn config_normalizes_both_addresses() {
    let c = hello_config(true);
    assert_eq!(c.source_addr, "amqp://source:5672");
    assert_eq!(c.target_addr, "amqp://target:5672");
    assert!(c.declares());
    assert!(!hello_config(false).declares());
}

#[test]
fn consumer_tag_is_fixed() {
    assert_eq!(CONSUMER_TAG, "massrelay");
}

#[test]
fn hello_scenario_relays_ping_once() {
    let (mut relay, first) = Relay::start(hello_config(true));
    assert_eq!(first, Action::ConnectSource("amqp://source:5672".to_string()));
    assert_eq!(relay.step(Event::Succeeded), Action::ConnectTarget("amqp://target:5672".to_string()));
    assert_eq!(relay.step(Event::Succeeded), Action::DeclareQueue { queue: "hello".to_string() });
    assert_eq!(
        relay.step(Event::Succeeded),
        Action::BindQueue {
            queue: "hello".to_string(),
            exchange: "hello".to_string(),
            routing_key: "hello".to_string(),
        }
    );
    assert_eq!(relay.step(Event::Succeeded), Action::Consume { queue: "hello".to_string() });
    assert_eq!(relay.step(Event::Succeeded), Action::NextDelivery(Outcome::Started));

    let mut actions = Vec::new();
    actions.push(relay.step(Event::Delivered(b"ping".to_vec())));
    actions.push(relay.step(Event::Succeeded));
    actions.push(relay.step(Event::Confirmed(Confirmation::Ack)));
    actions.push(relay.step(Event::Succeeded));
    assert_eq!(
        actions,
        vec![
            publish_of(b"ping"),
            Action::AwaitConfirm,
            Action::Ack,
            Action::NextDelivery(Outcome::Relayed),
        ]
    );
    let publishes = actions.iter().filter(|a| matches!(a, Action::Publish { .. })).count();
    assert_eq!(publishes, 1);
}

#[test]
fn without_declaration_the_relay_subscribes_directly() {
    let (mut relay, _) = Relay::start(hello_config(false));
    relay.step(Event::Succeeded);
    assert_eq!(relay.step(Event::Succeeded), Action::Consume { queue: "hello".to_string() });
    assert_eq!(relay.phase(), Phase::Subscribing);
}

#[test]
fn rejected_publish_leaves_delivery_unacknowledged_and_redelivery_is_forwarded() {
    let mut relay = consuming_relay();
    assert_eq!(relay.step(Event::Delivered(b"ping".to_vec())), publish_of(b"ping"));
    assert_eq!(relay.step(Event::Failed), Action::NextDelivery(Outcome::ForwardFailed));
    assert_eq!(relay.phase(), Phase::Consuming);
    // The source broker offers the same message again.
    assert_eq!(relay.step(Event::Delivered(b"ping".to_vec())), publish_of(b"ping"));
    assert_eq!(relay.step(Event::Succeeded), Action::AwaitConfirm);
    assert_eq!(relay.step(Event::Confirmed(Confirmation::Ack)), Action::Ack);
    assert_eq!(relay.step(Event::Succeeded), Action::NextDelivery(Outcome::Relayed));
}

#[test]
fn negative_confirmation_is_a_forward_failure() {
    let mut relay = consuming_relay();
    relay.step(Event::Delivered(b"x".to_vec()));
    relay.step(Event::Succeeded);
    assert_eq!(
        relay.step(Event::Confirmed(Confirmation::Nack)),
        Action::NextDelivery(Outcome::ForwardFailed)
    );
}

#[test]
fn failed_confirmation_is_a_forward_failure() {
    let mut relay = consuming_relay();
    relay.step(Event::Delivered(b"x".to_vec()));
    relay.step(Event::Succeeded);
    assert_eq!(relay.step(Event::Failed), Action::NextDelivery(Outcome::ForwardFailed));
}

#[test]
fn confirms_not_requested_counts_as_success() {
    let mut relay = consuming_relay();
    relay.step(Event::Delivered(b"x".to_vec()));
    relay.step(Event::Succeeded);
    assert_eq!(relay.step(Event::Confirmed(Confirmation::NotRequested)), Action::Ack);
    assert_eq!(relay.phase(), Phase::Acking);
}

#[test]
fn failed_ack_is_reported_and_the_loop_goes_on() {
    let mut relay = consuming_relay();
    relay.step(Event::Delivered(b"x".to_vec()));
    relay.step(Event::Succeeded);
    relay.step(Event::Confirmed(Confirmation::Ack));
    assert_eq!(relay.step(Event::Failed), Action::NextDelivery(Outcome::AckFailed));
    assert_eq!(relay.step(Event::Delivered(b"y".to_vec())), publish_of(b"y"));
}

#[test]
fn messages_are_forwarded_in_order_received() {
    let mut relay = consuming_relay();
    let mut published = Vec::new();
    for (i, msg) in [b"one".to_vec(), b"two".to_vec(), b"three".to_vec()].into_iter().enumerate() {
        if let Action::Publish { payload, .. } = relay.step(Event::Delivered(msg)) {
            published.push(payload);
        }
        if i == 1 {
            relay.step(Event::Failed);
        } else {
            relay.step(Event::Succeeded);
            relay.step(Event::Confirmed(Confirmation::Ack));
            relay.step(Event::Succeeded);
        }
    }
    assert_eq!(published, vec![b"one".to_vec(), b"two".to_vec(), b"three".to_vec()]);
}

#[test]
fn a_delivery_while_one_is_in_flight_halts() {
    let mut relay = consuming_relay();
    relay.step(Event::Delivered(b"x".to_vec()));
    assert_eq!(
        relay.step(Event::Delivered(b"y".to_vec())),
        Action::Exit(Halt::UnexpectedEvent)
    );
    assert_eq!(relay.step(Event::Delivered(b"z".to_vec())), Action::Exit(Halt::UnexpectedEvent));
}

#[test]
fn setup_failures_are_fatal() {
    let (mut relay, _) = Relay::start(hello_config(true));
    assert_eq!(relay.step(Event::Failed), Action::Exit(Halt::SourceUnreachable));
    assert_eq!(relay.phase(), Phase::Halted(Halt::SourceUnreachable));

    let (mut relay, _) = Relay::start(hello_config(true));
    relay.step(Event::Succeeded);
    assert_eq!(relay.step(Event::Failed), Action::Exit(Halt::TargetUnreachable));

    let (mut relay, _) = Relay::start(hello_config(true));
    relay.step(Event::Succeeded);
    relay.step(Event::Succeeded);
    assert_eq!(relay.step(Event::Failed), Action::Exit(Halt::DeclareRejected));

    let (mut relay, _) = Relay::start(hello_config(true));
    relay.step(Event::Succeeded);
    relay.step(Event::Succeeded);
    relay.step(Event::Succeeded);
    assert_eq!(relay.step(Event::Failed), Action::Exit(Halt::BindRejected));

    let (mut relay, _) = Relay::start(hello_config(false));
    relay.step(Event::Succeeded);
    relay.step(Event::Succeeded);
    assert_eq!(relay.step(Event::Failed), Action::Exit(Halt::SubscribeRejected));
}

#[test]
fn end_or_error_of_the_consumption_sequence_halts() {
    let mut relay = consuming_relay();
    assert_eq!(relay.step(Event::Ended), Action::Exit(Halt::StreamEnded));
    assert_eq!(relay.step(Event::Succeeded), Action::Exit(Halt::StreamEnded));
    let mut relay = consuming_relay();
    assert_eq!(relay.step(Event::ConsumerFailed), Action::Exit(Halt::ConsumerFailed));
}

#[test]
fn an_answer_that_does_not_fit_halts() {
    let (mut relay, _) = Relay::start(hello_config(true));
    assert_eq!(relay.step(Event::Ended), Action::Exit(Halt::UnexpectedEvent));
    let mut relay = consuming_relay();
    assert_eq!(relay.step(Event::Succeeded), Action::Exit(Halt::UnexpectedEvent));
}

#[test]
fn declaring_twice_names_the_same_declaration_and_binding() {
    let startup = |relay: &mut Relay| -> Vec<Action> {
        (0..4).map(|_| relay.step(Event::Succeeded)).collect()
    };
    let (mut first, _) = Relay::start(hello_config(true));
    let (mut second, _) = Relay::start(hello_config(true));
    let a = startup(&mut first);
    let b = startup(&mut second);
    assert_eq!(a, b);
    assert_eq!(a[1], Action::DeclareQueue { queue: "hello".to_string() });
}
