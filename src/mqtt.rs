//! MQTT session controller: connection handshake and subscription, the
//! receive path with its keep-alive ping and bounded wait, publishing, and
//! the standalone keep-alive ping.
//!
//! The session is a state machine. The firmware performs each action on the
//! broker connection and reports back what happened; the session answers
//! with the next action or with the outcome of the operation.

use vstd::prelude::*;
use rust_mqtt::packet::v5::reason_codes::ReasonCode;

verus! {

/// rust-mqtt's reason code, carried unread inside session faults.
#[verifier::external_type_specification]
#[verifier::external_body]
pub struct ExReasonCode(ReasonCode);

/// How long the receive path waits for an inbound message, in milliseconds.
pub const RECEIVE_TIMEOUT_MS: u64 = 10000;

/// Keep-alive interval announced to the broker, in seconds.
pub const KEEP_ALIVE_SECS: u16 = 60;

/// Largest packet exchanged with the broker, in bytes.
pub const MAX_PACKET_SIZE: u32 = 255;

/// A failed session operation.
#[derive(Debug, PartialEq)]
pub enum SessionFault {
    /// The broker refused the connection, or it failed.
    Connect(ReasonCode),
    /// The subscription to the command topic failed.
    Subscribe(ReasonCode),
    /// A publish failed.
    Publish(ReasonCode),
    /// A keep-alive ping failed.
    Ping(ReasonCode),
    /// Receiving a message failed.
    Receive(ReasonCode),
    /// No message arrived within the receive window.
    Timeout,
    /// The operation needs an established session that is not busy.
    NotReady,
}

/// Delivery guarantee of a publish.
#[derive(Debug, Clone, Copy, PartialEq, Eq, Structural)]
pub enum QualityOfService {
    AtMostOnce,
    AtLeastOnce,
}

/// Where the session stands.
#[derive(Debug, Clone, Copy, PartialEq, Eq, Structural)]
pub enum MqttPhase {
    /// No connection attempt yet.
    Disconnected,
    /// Waiting for the broker's answer to the connect packet.
    Connecting,
    /// Waiting for the subscription to the command topic.
    Subscribing,
    /// Established and idle.
    Ready,
    /// Waiting for a ping's answer; `then_receive` when the ping opens the
    /// receive path.
    Pinging { then_receive: bool },
    /// Waiting for an inbound message.
    AwaitingMessage,
    /// Waiting for a publish to complete.
    Publishing,
    /// The handshake failed; the session must be rebuilt.
    Failed,
}

/// What the firmware reports after performing an action.
#[derive(Debug)]
pub enum MqttEvent {
    Connected(Result<(), ReasonCode>),
    Subscribed(Result<(), ReasonCode>),
    Pinged(Result<(), ReasonCode>),
    Published(Result<(), ReasonCode>),
    /// A message arrived on `topic`.
    Message { topic: String, payload: Vec<u8> },
    /// Receiving failed with the broker's reason.
    ReceiveFailed(ReasonCode),
    /// The receive window ended with no message.
    ReceiveTimedOut,
}

/// The result of a completed session operation.
#[derive(Debug, PartialEq)]
pub enum MqttOutcome {
    /// Connected and subscribed to the command topic.
    Established,
    /// A message arrived on `topic`.
    Message { topic: String, payload: Vec<u8> },
    /// The publish completed.
    Published,
    /// The keep-alive ping was answered.
    PingAnswered,
    /// The operation failed.
    Fault(SessionFault),
}

/// What the firmware does next on the broker connection.
#[derive(Debug, PartialEq)]
pub enum MqttAction {
    /// Send the connect packet.
    Connect,
    /// Subscribe to the command topic, `command_topic()`, with at-least-once
    /// delivery.
    Subscribe,
    /// Send a ping.
    Ping,
    /// Wait for an inbound message, for at most `timeout_ms` milliseconds.
    AwaitMessage { timeout_ms: u64 },
    /// Publish `payload` on `topic`.
    Publish { topic: String, payload: Vec<u8>, qos: QualityOfService, retain: bool },
    /// The operation is over with this outcome.
    Complete(MqttOutcome),
    /// Nothing: the event does not apply in this phase.
    Nothing,
}

/// The topic that inbound angle commands arrive on.
pub open spec fn command_topic_text() -> Seq<char> {
    seq!['e', 's', 'p', '3', '2', '/', 'o', 'p', 'e', 'n']
}

/// The topic of a publish on `subtopic` under `main`: `main/subtopic`.
pub open spec fn topic_under(main: Seq<char>, subtopic: Seq<char>) -> Seq<char> {
    main.push('/') + subtopic
}

/// The topic that inbound angle commands arrive on.
pub fn command_topic() -> (r: String)
    ensures
        r@ == command_topic_text(),
{
    let mut t = String::new();
    t.append("esp32/open");
    proof {
        reveal_strlit("esp32/open");
    }
    t
}

/// Builds `main/subtopic`.
pub fn publish_topic(main: &str, subtopic: &str) -> (r: String)
    ensures
        r@ == topic_under(main@, subtopic@),
{
    let mut t = String::from_str(main);
    t.append("/");
    t.append(subtopic);
    proof {
        reveal_strlit("/");
        assert(t@ == main@ + seq!['/'] + subtopic@);
        assert(main@ + seq!['/'] == main@.push('/'));
    }
    t
}

/// The transition of the session on `event` in `phase`.
pub open spec fn mqtt_step(phase: MqttPhase, event: MqttEvent) -> (MqttPhase, MqttAction) {
    match (phase, event) {
        (MqttPhase::Connecting, MqttEvent::Connected(Ok(()))) => (
            MqttPhase::Subscribing,
            MqttAction::Subscribe,
        ),
        (MqttPhase::Connecting, MqttEvent::Connected(Err(code))) => (
            MqttPhase::Failed,
            MqttAction::Complete(MqttOutcome::Fault(SessionFault::Connect(code))),
        ),
        (MqttPhase::Subscribing, MqttEvent::Subscribed(Ok(()))) => (
            MqttPhase::Ready,
            MqttAction::Complete(MqttOutcome::Established),
        ),
        (MqttPhase::Subscribing, MqttEvent::Subscribed(Err(code))) => (
            MqttPhase::Failed,
            MqttAction::Complete(MqttOutcome::Fault(SessionFault::Subscribe(code))),
        ),
        (MqttPhase::Pinging { then_receive: true }, MqttEvent::Pinged(_)) => (
            MqttPhase::AwaitingMessage,
            MqttAction::AwaitMessage { timeout_ms: RECEIVE_TIMEOUT_MS },
        ),
        (MqttPhase::Pinging { then_receive: false }, MqttEvent::Pinged(Ok(()))) => (
            MqttPhase::Ready,
            MqttAction::Complete(MqttOutcome::PingAnswered),
        ),
        (MqttPhase::Pinging { then_receive: false }, MqttEvent::Pinged(Err(code))) => (
            MqttPhase::Ready,
            MqttAction::Complete(MqttOutcome::Fault(SessionFault::Ping(code))),
        ),
        (MqttPhase::AwaitingMessage, MqttEvent::Message { topic, payload }) => (
            MqttPhase::Ready,
            MqttAction::Complete(MqttOutcome::Message { topic, payload }),
        ),
        (MqttPhase::AwaitingMessage, MqttEvent::ReceiveFailed(code)) => (
            MqttPhase::Ready,
            MqttAction::Complete(MqttOutcome::Fault(SessionFault::Receive(code))),
        ),
        (MqttPhase::AwaitingMessage, MqttEvent::ReceiveTimedOut) => (
            MqttPhase::Ready,
            MqttAction::Complete(MqttOutcome::Fault(SessionFault::Timeout)),
        ),
        (MqttPhase::Publishing, MqttEvent::Published(Ok(()))) => (
            MqttPhase::Ready,
            MqttAction::Complete(MqttOutcome::Published),
        ),
        (MqttPhase::Publishing, MqttEvent::Published(Err(code))) => (
            MqttPhase::Ready,
            MqttAction::Complete(MqttOutcome::Fault(SessionFault::Publish(code))),
        ),
        (p, _) => (p, MqttAction::Nothing),
    }
}

/// The MQTT session of the node: its client identity, the main topic its
/// publishes go under, and where the session stands.
pub struct MqttController {
    main_topic: String,
    client_id: String,
    phase: MqttPhase,
}

impl MqttController {
    /// Where the session stands.
    pub closed spec fn spec_phase(&self) -> MqttPhase {
        self.phase
    }

    /// The topic publishes go under.
    pub closed spec fn spec_main_topic(&self) -> Seq<char> {
        self.main_topic@
    }

    /// The client identifier presented to the broker.
    pub closed spec fn spec_client_id(&self) -> Seq<char> {
        self.client_id@
    }

    /// A session for `client_id` publishing under `main_topic`, with no
    /// connection attempted yet. The firmware builds the broker connection
    /// for protocol version 5 with `MAX_PACKET_SIZE` packets.
    pub fn new(main_topic: &str, client_id: &str) -> (r: MqttController)
        ensures
            r.spec_phase() == MqttPhase::Disconnected,
            r.spec_main_topic() == main_topic@,
            r.spec_client_id() == client_id@,
    {
        MqttController {
            main_topic: String::from_str(main_topic),
            client_id: String::from_str(client_id),
            phase: MqttPhase::Disconnected,
        }
    }

    /// Where the session stands.
    pub fn phase(&self) -> (r: MqttPhase)
        ensures
            r == self.spec_phase(),
    {
        self.phase
    }

    /// The topic publishes go under.
    pub fn main_topic(&self) -> (r: &str)
        ensures
            r@ == self.spec_main_topic(),
    {
        self.main_topic.as_str()
    }

    /// The client identifier presented to the broker.
    pub fn client_id(&self) -> (r: &str)
        ensures
            r@ == self.spec_client_id(),
    {
        self.client_id.as_str()
    }

    /// Opens the session: asks for the connect packet, after which the
    /// subscription follows. Only a session never connected can open.
    pub fn connect(&mut self) -> (r: MqttAction)
        ensures
            old(self).spec_phase() == MqttPhase::Disconnected ==> final(self).spec_phase()
                == MqttPhase::Connecting && r == MqttAction::Connect,
            old(self).spec_phase() != MqttPhase::Disconnected ==> final(self).spec_phase() == old(
                self,
            ).spec_phase() && r == MqttAction::Complete(MqttOutcome::Fault(SessionFault::NotReady)),
            final(self).spec_main_topic() == old(self).spec_main_topic(),
            final(self).spec_client_id() == old(self).spec_client_id(),
    {
        if self.phase == MqttPhase::Disconnected {
            self.phase = MqttPhase::Connecting;
            MqttAction::Connect
        } else {
            MqttAction::Complete(MqttOutcome::Fault(SessionFault::NotReady))
        }
    }

    /// Starts receiving one message: a ping goes first so that the broker
    /// does not time the session out while the node waits, then the wait is
    /// bounded by `RECEIVE_TIMEOUT_MS`.
    pub fn receive_message(&mut self) -> (r: MqttAction)
        ensures
            old(self).spec_phase() == MqttPhase::Ready ==> final(self).spec_phase() == (MqttPhase::Pinging {
                then_receive: true,
            }) && r == MqttAction::Ping,
            old(self).spec_phase() != MqttPhase::Ready ==> final(self).spec_phase() == old(
                self,
            ).spec_phase() && r == MqttAction::Complete(MqttOutcome::Fault(SessionFault::NotReady)),
            final(self).spec_main_topic() == old(self).spec_main_topic(),
            final(self).spec_client_id() == old(self).spec_client_id(),
    {
        if self.phase == MqttPhase::Ready {
            self.phase = MqttPhase::Pinging { then_receive: true };
            MqttAction::Ping
        } else {
            MqttAction::Complete(MqttOutcome::Fault(SessionFault::NotReady))
        }
    }

    /// Starts a keep-alive ping on an idle session.
    pub fn send_ping(&mut self) -> (r: MqttAction)
        ensures
            old(self).spec_phase() == MqttPhase::Ready ==> final(self).spec_phase() == (MqttPhase::Pinging {
                then_receive: false,
            }) && r == MqttAction::Ping,
            old(self).spec_phase() != MqttPhase::Ready ==> final(self).spec_phase() == old(
                self,
            ).spec_phase() && r == MqttAction::Complete(MqttOutcome::Fault(SessionFault::NotReady)),
            final(self).spec_main_topic() == old(self).spec_main_topic(),
            final(self).spec_client_id() == old(self).spec_client_id(),
    {
        if self.phase == MqttPhase::Ready {
            self.phase = MqttPhase::Pinging { then_receive: false };
            MqttAction::Ping
        } else {
            MqttAction::Complete(MqttOutcome::Fault(SessionFault::NotReady))
        }
    }

    /// Starts publishing `payload` on `main_topic/subtopic`, at least once
    /// and not retained.
    pub fn publish_message(&mut self, subtopic: &str, payload: &[u8]) -> (r: MqttAction)
        ensures
            old(self).spec_phase() == MqttPhase::Ready ==> final(self).spec_phase()
                == MqttPhase::Publishing && (r matches MqttAction::Publish { topic, payload: p, qos, retain }
                && topic@ == topic_under(old(self).spec_main_topic(), subtopic@) && p@ == payload@ && qos
                == QualityOfService::AtLeastOnce && !retain),
            old(self).spec_phase() != MqttPhase::Ready ==> final(self).spec_phase() == old(
                self,
            ).spec_phase() && r == MqttAction::Complete(MqttOutcome::Fault(SessionFault::NotReady)),
            final(self).spec_main_topic() == old(self).spec_main_topic(),
            final(self).spec_client_id() == old(self).spec_client_id(),
    {
        if self.phase == MqttPhase::Ready {
            self.phase = MqttPhase::Publishing;
            let topic = publish_topic(self.main_topic.as_str(), subtopic);
            let mut p: Vec<u8> = Vec::new();
            let mut i: usize = 0;
            while i < payload.len()
                invariant
                    i <= payload@.len(),
                    p@ == payload@.subrange(0, i as int),
                decreases payload@.len() - i,
            {
                p.push(payload[i]);
                i = i + 1;
                proof {
                    assert(p@ == payload@.subrange(0, i as int));
                }
            }
            proof {
                assert(payload@.subrange(0, payload@.len() as int) == payload@);
            }
            MqttAction::Publish { topic, payload: p, qos: QualityOfService::AtLeastOnce, retain: false }
        } else {
            MqttAction::Complete(MqttOutcome::Fault(SessionFault::NotReady))
        }
    }

    /// Advances on what the firmware observed and says what to do next.
    pub fn on_event(&mut self, event: MqttEvent) -> (r: MqttAction)
        ensures
            (final(self).spec_phase(), r) == mqtt_step(old(self).spec_phase(), event),
            final(self).spec_main_topic() == old(self).spec_main_topic(),
            final(self).spec_client_id() == old(self).spec_client_id(),
    {
        match (self.phase, event) {
            (MqttPhase::Connecting, MqttEvent::Connected(Ok(()))) => {
                self.phase = MqttPhase::Subscribing;
                MqttAction::Subscribe
            },
            (MqttPhase::Connecting, MqttEvent::Connected(Err(code))) => {
                self.phase = MqttPhase::Failed;
                MqttAction::Complete(MqttOutcome::Fault(SessionFault::Connect(code)))
            },
            (MqttPhase::Subscribing, MqttEvent::Subscribed(Ok(()))) => {
                self.phase = MqttPhase::Ready;
                MqttAction::Complete(MqttOutcome::Established)
            },
            (MqttPhase::Subscribing, MqttEvent::Subscribed(Err(code))) => {
                self.phase = MqttPhase::Failed;
                MqttAction::Complete(MqttOutcome::Fault(SessionFault::Subscribe(code)))
            },
            (MqttPhase::Pinging { then_receive: true }, MqttEvent::Pinged(_)) => {
                self.phase = MqttPhase::AwaitingMessage;
                MqttAction::AwaitMessage { timeout_ms: RECEIVE_TIMEOUT_MS }
            },
            (MqttPhase::Pinging { then_receive: false }, MqttEvent::Pinged(Ok(()))) => {
                self.phase = MqttPhase::Ready;
                MqttAction::Complete(MqttOutcome::PingAnswered)
            },
            (MqttPhase::Pinging { then_receive: false }, MqttEvent::Pinged(Err(code))) => {
                self.phase = MqttPhase::Ready;
                MqttAction::Complete(MqttOutcome::Fault(SessionFault::Ping(code)))
            },
            (MqttPhase::AwaitingMessage, MqttEvent::Message { topic, payload }) => {
                self.phase = MqttPhase::Ready;
                MqttAction::Complete(MqttOutcome::Message { topic, payload })
            },
            (MqttPhase::AwaitingMessage, MqttEvent::ReceiveFailed(code)) => {
                self.phase = MqttPhase::Ready;
                MqttAction::Complete(MqttOutcome::Fault(SessionFault::Receive(code)))
            },
            (MqttPhase::AwaitingMessage, MqttEvent::ReceiveTimedOut) => {
                self.phase = MqttPhase::Ready;
                MqttAction::Complete(MqttOutcome::Fault(SessionFault::Timeout))
            },
            (MqttPhase::Publishing, MqttEvent::Published(Ok(()))) => {
                self.phase = MqttPhase::Ready;
                MqttAction::Complete(MqttOutcome::Published)
            },
            (MqttPhase::Publishing, MqttEvent::Published(Err(code))) => {
                self.phase = MqttPhase::Ready;
                MqttAction::Complete(MqttOutcome::Fault(SessionFault::Publish(code)))
            },
            _ => MqttAction::Nothing,
        }
    }
}

/// On the receive path the ping comes first, whatever its answer the wait
/// that follows is bounded by `RECEIVE_TIMEOUT_MS`, and a window that ends
/// with no message completes with `SessionFault::Timeout`, which no broker
/// reason is reported as.
pub proof fn lemma_receive_pings_then_times_out(ping: Result<(), ReasonCode>, code: ReasonCode)
    ensures
        ({
            let (waiting, wait) = mqtt_step(MqttPhase::Pinging { then_receive: true }, MqttEvent::Pinged(ping));
            let (after, timed_out) = mqtt_step(waiting, MqttEvent::ReceiveTimedOut);
            &&& waiting == MqttPhase::AwaitingMessage
            &&& wait == (MqttAction::AwaitMessage { timeout_ms: RECEIVE_TIMEOUT_MS })
            &&& after == MqttPhase::Ready
            &&& timed_out == MqttAction::Complete(MqttOutcome::Fault(SessionFault::Timeout))
            &&& timed_out != MqttAction::Complete(MqttOutcome::Fault(SessionFault::Receive(code)))
        }),
        mqtt_step(MqttPhase::AwaitingMessage, MqttEvent::ReceiveFailed(code)).1 != MqttAction::Complete(
            MqttOutcome::Fault(SessionFault::Timeout),
        ),
{
}

/// A session whose handshake failed stays failed, whatever is reported: it
/// is replaced as a whole, never repaired.
pub proof fn lemma_failed_session_is_final(event: MqttEvent)
    ensures
        mqtt_step(MqttPhase::Failed, event) == (MqttPhase::Failed, MqttAction::Nothing),
{
}

} // verus!
