use vstd::prelude::*;
use crate::config::RelayConfig;

verus! {

/// The consumer tag under which the relay subscribes to the source queue.
pub const CONSUMER_TAG: &'static str = "massrelay";

/// Why the relay stopped. Every cause ends the process with a failure.
#[derive(Clone, Copy, Debug, PartialEq, Eq, Structural)]
pub enum Halt {
    SourceUnreachable,
    TargetUnreachable,
    DeclareRejected,
    BindRejected,
    SubscribeRejected,
    ConsumerFailed,
    StreamEnded,
    /// The driver reported an event that does not answer the last action.
    UnexpectedEvent,
}

/// Where the relay stands: each phase waits for the answer to one action.
#[derive(Clone, Copy, Debug, PartialEq, Eq, Structural)]
pub enum Phase {
    ConnectingSource,
    ConnectingTarget,
    DeclaringQueue,
    BindingQueue,
    Subscribing,
    /// Waiting for the next delivery; no message is in flight.
    Consuming,
    /// A publish was issued; waiting for the channel to accept it.
    Publishing,
    /// The publish was accepted; waiting for the broker's confirmation.
    Confirming,
    /// The forward is confirmed; waiting for the source acknowledgment.
    Acking,
    Halted(Halt),
}

/// What the broker said of a publish once it was accepted by the channel.
#[derive(Clone, Copy, Debug, PartialEq, Eq, Structural)]
pub enum Confirmation {
    Ack,
    Nack,
    /// The target channel does not use publisher confirms: acceptance by the
    /// channel is the strongest signal there is.
    NotRequested,
}

/// How the previous message ended, reported when the next one is awaited.
#[derive(Clone, Copy, Debug, PartialEq, Eq, Structural)]
pub enum Outcome {
    /// No message yet: consumption has just begun.
    Started,
    /// Forwarded, confirmed and acknowledged.
    Relayed,
    /// The forward failed; the delivery was left unacknowledged.
    ForwardFailed,
    /// Forwarded and confirmed, but the acknowledgment failed.
    AckFailed,
}

/// The answer to the last action, as the driver observed it.
#[derive(Debug, PartialEq, Eq)]
pub enum Event {
    /// A connection, declaration, binding, subscription, publish or
    /// acknowledgment succeeded.
    Succeeded,
    /// It failed.
    Failed,
    /// The consumer yielded a delivery with this payload.
    Delivered(Vec<u8>),
    /// The consumer yielded an error.
    ConsumerFailed,
    /// The consumption sequence ended.
    Ended,
    /// The publisher confirmation resolved.
    Confirmed(Confirmation),
}

/// What the driver is to do next.
#[derive(Clone, Debug, PartialEq, Eq)]
pub enum Action {
    /// Open a connection and a channel to the source broker.
    ConnectSource(String),
    /// Open a connection and a channel to the target broker.
    ConnectTarget(String),
    DeclareQueue { queue: String },
    BindQueue { queue: String, exchange: String, routing_key: String },
    /// Subscribe to the queue under `CONSUMER_TAG`.
    Consume { queue: String },
    /// Wait for the next delivery, the previous message having ended so.
    NextDelivery(Outcome),
    /// Publish the payload, with default properties, on the target channel.
    Publish { exchange: String, routing_key: String, payload: Vec<u8> },
    /// Wait for the confirmation of the publish just accepted.
    AwaitConfirm,
    /// Acknowledge the delivery in flight on the source channel.
    Ack,
    /// Stop the process with a failure.
    Exit(Halt),
}

/// An action as a mathematical value.
pub enum ActionView {
    ConnectSource(Seq<char>),
    ConnectTarget(Seq<char>),
    DeclareQueue { queue: Seq<char> },
    BindQueue { queue: Seq<char>, exchange: Seq<char>, routing_key: Seq<char> },
    Consume { queue: Seq<char> },
    NextDelivery(Outcome),
    Publish { exchange: Seq<char>, routing_key: Seq<char>, payload: Seq<u8> },
    AwaitConfirm,
    Ack,
    Exit(Halt),
}

impl View for Action {
    type V = ActionView;

    open spec fn view(&self) -> ActionView {
        match self {
            Action::ConnectSource(a) => ActionView::ConnectSource(a@),
            Action::ConnectTarget(a) => ActionView::ConnectTarget(a@),
            Action::DeclareQueue { queue } => ActionView::DeclareQueue { queue: queue@ },
            Action::BindQueue { queue, exchange, routing_key } => ActionView::BindQueue {
                queue: queue@,
                exchange: exchange@,
                routing_key: routing_key@,
            },
            Action::Consume { queue } => ActionView::Consume { queue: queue@ },
            Action::NextDelivery(o) => ActionView::NextDelivery(*o),
            Action::Publish { exchange, routing_key, payload } => ActionView::Publish {
                exchange: exchange@,
                routing_key: routing_key@,
                payload: payload@,
            },
            Action::AwaitConfirm => ActionView::AwaitConfirm,
            Action::Ack => ActionView::Ack,
            Action::Exit(h) => ActionView::Exit(*h),
        }
    }
}

/// Stopping for the given cause.
pub open spec fn halt(h: Halt) -> (Phase, ActionView) {
    (Phase::Halted(h), ActionView::Exit(h))
}

/// The first action after the target is reached: declare the source queue
/// when a binding is configured, else subscribe to it directly.
pub open spec fn after_connect(c: RelayConfig) -> (Phase, ActionView) {
    if c.source_binding.is_some() {
        (Phase::DeclaringQueue, ActionView::DeclareQueue { queue: c.source_queue@ })
    } else {
        (Phase::Subscribing, ActionView::Consume { queue: c.source_queue@ })
    }
}

/// Whether a confirmation counts as a successful forward.
pub open spec fn positive(c: Confirmation) -> bool {
    c != Confirmation::Nack
}

/// The transition of the relay on one event: the next phase and the action
/// the driver is to perform.
pub open spec fn next(c: RelayConfig, p: Phase, e: Event) -> (Phase, ActionView) {
    match p {
        Phase::ConnectingSource => match e {
            Event::Succeeded => (
                Phase::ConnectingTarget,
                ActionView::ConnectTarget(c.target_addr@),
            ),
            Event::Failed => halt(Halt::SourceUnreachable),
            _ => halt(Halt::UnexpectedEvent),
        },
        Phase::ConnectingTarget => match e {
            Event::Succeeded => after_connect(c),
            Event::Failed => halt(Halt::TargetUnreachable),
            _ => halt(Halt::UnexpectedEvent),
        },
        Phase::DeclaringQueue => match e {
            Event::Succeeded => match c.source_binding {
                Some(b) => (
                    Phase::BindingQueue,
                    ActionView::BindQueue {
                        queue: c.source_queue@,
                        exchange: b.exchange@,
                        routing_key: b.routing_key@,
                    },
                ),
                // Nothing to bind: go on to subscribe.
                None => (Phase::Subscribing, ActionView::Consume { queue: c.source_queue@ }),
            },
            Event::Failed => halt(Halt::DeclareRejected),
            _ => halt(Halt::UnexpectedEvent),
        },
        Phase::BindingQueue => match e {
            Event::Succeeded => (Phase::Subscribing, ActionView::Consume { queue: c.source_queue@ }),
            Event::Failed => halt(Halt::BindRejected),
            _ => halt(Halt::UnexpectedEvent),
        },
        Phase::Subscribing => match e {
            Event::Succeeded => (Phase::Consuming, ActionView::NextDelivery(Outcome::Started)),
            Event::Failed => halt(Halt::SubscribeRejected),
            _ => halt(Halt::UnexpectedEvent),
        },
        Phase::Consuming => match e {
            Event::Delivered(payload) => (
                Phase::Publishing,
                ActionView::Publish {
                    exchange: c.target_exchange@,
                    routing_key: c.target_routing_key@,
                    payload: payload@,
                },
            ),
            Event::ConsumerFailed => halt(Halt::ConsumerFailed),
            Event::Ended => halt(Halt::StreamEnded),
            _ => halt(Halt::UnexpectedEvent),
        },
        Phase::Publishing => match e {
            Event::Succeeded => (Phase::Confirming, ActionView::AwaitConfirm),
            Event::Failed => (Phase::Consuming, ActionView::NextDelivery(Outcome::ForwardFailed)),
            _ => halt(Halt::UnexpectedEvent),
        },
        Phase::Confirming => match e {
            Event::Confirmed(k) => if positive(k) {
                (Phase::Acking, ActionView::Ack)
            } else {
                (Phase::Consuming, ActionView::NextDelivery(Outcome::ForwardFailed))
            },
            Event::Failed => (Phase::Consuming, ActionView::NextDelivery(Outcome::ForwardFailed)),
            _ => halt(Halt::UnexpectedEvent),
        },
        Phase::Acking => match e {
            Event::Succeeded => (Phase::Consuming, ActionView::NextDelivery(Outcome::Relayed)),
            Event::Failed => (Phase::Consuming, ActionView::NextDelivery(Outcome::AckFailed)),
            _ => halt(Halt::UnexpectedEvent),
        },
        Phase::Halted(h) => halt(h),
    }
}

/// The relay's decisions: given the answer to its last action, it moves to
/// its next phase and names the next action. It performs no I/O itself.
pub struct Relay {
    pub config: RelayConfig,
    pub phase: Phase,
}

impl Relay {
    /// A relay about to connect to the source broker, and that first action.
    pub fn start(config: RelayConfig) -> (r: (Relay, Action))
        ensures
            r.0.config == config,
            r.0.phase == Phase::ConnectingSource,
            r.1@ == ActionView::ConnectSource(config.source_addr@),
    {
        let a = Action::ConnectSource(config.source_addr.clone());
        (Relay { config, phase: Phase::ConnectingSource }, a)
    }

    pub fn phase(&self) -> (r: Phase)
        ensures
            r == self.phase,
    {
        self.phase
    }

    fn halt(&mut self, h: Halt) -> (a: Action)
        ensures
            final(self).config == old(self).config,
            (final(self).phase, a@) == halt(h),
    {
        self.phase = Phase::Halted(h);
        Action::Exit(h)
    }

    fn unexpected(&mut self) -> (a: Action)
        ensures
            final(self).config == old(self).config,
            (final(self).phase, a@) == halt(Halt::UnexpectedEvent),
    {
        self.halt(Halt::UnexpectedEvent)
    }

    fn resume(&mut self, o: Outcome) -> (a: Action)
        ensures
            final(self).config == old(self).config,
            final(self).phase == Phase::Consuming,
            a@ == ActionView::NextDelivery(o),
    {
        self.phase = Phase::Consuming;
        Action::NextDelivery(o)
    }

    /// Takes the answer to the last action and returns the next one.
    pub fn step(&mut self, event: Event) -> (a: Action)
        ensures
            final(self).config == old(self).config,
            (final(self).phase, a@) == next(old(self).config, old(self).phase, event),
    {
        match self.phase {
            Phase::ConnectingSource => match event {
                Event::Succeeded => {
                    self.phase = Phase::ConnectingTarget;
                    Action::ConnectTarget(self.config.target_addr.clone())
                },
                Event::Failed => self.halt(Halt::SourceUnreachable),
                _ => self.unexpected(),
            },
            Phase::ConnectingTarget => match event {
                Event::Succeeded => {
                    let queue = self.config.source_queue.clone();
                    if self.config.declares() {
                        self.phase = Phase::DeclaringQueue;
                        Action::DeclareQueue { queue }
                    } else {
                        self.phase = Phase::Subscribing;
                        Action::Consume { queue }
                    }
                },
                Event::Failed => self.halt(Halt::TargetUnreachable),
                _ => self.unexpected(),
            },
            Phase::DeclaringQueue => match event {
                Event::Succeeded => match &self.config.source_binding {
                    Some(b) => {
                        let a = Action::BindQueue {
                            queue: self.config.source_queue.clone(),
                            exchange: b.exchange.clone(),
                            routing_key: b.routing_key.clone(),
                        };
                        self.phase = Phase::BindingQueue;
                        a
                    },
                    None => {
                        self.phase = Phase::Subscribing;
                        Action::Consume { queue: self.config.source_queue.clone() }
                    },
                },
                Event::Failed => self.halt(Halt::DeclareRejected),
                _ => self.unexpected(),
            },
            Phase::BindingQueue => match event {
                Event::Succeeded => {
                    self.phase = Phase::Subscribing;
                    Action::Consume { queue: self.config.source_queue.clone() }
                },
                Event::Failed => self.halt(Halt::BindRejected),
                _ => self.unexpected(),
            },
            Phase::Subscribing => match event {
                Event::Succeeded => self.resume(Outcome::Started),
                Event::Failed => self.halt(Halt::SubscribeRejected),
                _ => self.unexpected(),
            },
            Phase::Consuming => match event {
                Event::Delivered(payload) => {
                    self.phase = Phase::Publishing;
                    Action::Publish {
                        exchange: self.config.target_exchange.clone(),
                        routing_key: self.config.target_routing_key.clone(),
                        payload,
                    }
                },
                Event::ConsumerFailed => self.halt(Halt::ConsumerFailed),
                Event::Ended => self.halt(Halt::StreamEnded),
                _ => self.unexpected(),
            },
            Phase::Publishing => match event {
                Event::Succeeded => {
                    self.phase = Phase::Confirming;
                    Action::AwaitConfirm
                },
                Event::Failed => self.resume(Outcome::ForwardFailed),
                _ => self.unexpected(),
            },
            Phase::Confirming => match event {
                Event::Confirmed(k) => {
                    if k != Confirmation::Nack {
                        self.phase = Phase::Acking;
                        Action::Ack
                    } else {
                        self.resume(Outcome::ForwardFailed)
                    }
                },
                Event::Failed => self.resume(Outcome::ForwardFailed),
                _ => self.unexpected(),
            },
            Phase::Acking => match event {
                Event::Succeeded => self.resume(Outcome::Relayed),
                Event::Failed => self.resume(Outcome::AckFailed),
                _ => self.unexpected(),
            },
            Phase::Halted(h) => Action::Exit(h),
        }
    }
}

} // verus!
