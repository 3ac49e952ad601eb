use vstd::prelude::*;
use vstd::string::StringExecFns;
use crate::command::{CommandKind, ControlCommand, decoded};
use crate::status::{StatusMessage, status_json};

verus! {

/// The topic on which a device receives commands: `devices/{id}/commands`.
pub open spec fn command_topic_of(id: Seq<char>) -> Seq<char> {
    "devices/"@ + id + "/commands"@
}

/// The topic on which a device reports its status: `devices/{id}/status`.
pub open spec fn status_topic_of(id: Seq<char>) -> Seq<char> {
    "devices/"@ + id + "/status"@
}

/// The command topic of a device.
pub fn command_topic(device_id: &str) -> (r: String)
    ensures
        r@ == command_topic_of(device_id@),
{
    let mut t = String::from_str("devices/");
    t.append(device_id);
    t.append("/commands");
    t
}

/// The status topic of a device.
pub fn status_topic(device_id: &str) -> (r: String)
    ensures
        r@ == status_topic_of(device_id@),
{
    let mut t = String::from_str("devices/");
    t.append(device_id);
    t.append("/status");
    t
}

/// Delivery guarantee of a subscription or a publish.
#[derive(Debug, Clone, Copy, PartialEq, Eq, Structural)]
pub enum Qos {
    AtMostOnce,
    AtLeastOnce,
}

/// What the caller is to do next on the transport.
#[derive(Debug)]
pub enum Action {
    /// Subscribe to a topic.
    Subscribe { topic: String, qos: Qos },
    /// Publish a status record; `payload` is the record's JSON text.
    Publish { topic: String, qos: Qos, message: StatusMessage, payload: String },
    /// Log a payload that did not decode as a command, and drop it.
    ReportUndecodable { payload: Vec<u8> },
    /// Log an error of the transport, and go on.
    ReportTransportError { description: String },
    /// Nothing to do.
    Idle,
}

/// The model of an action.
pub enum ActionView {
    Subscribe { topic: Seq<char>, qos: Qos },
    Publish {
        topic: Seq<char>,
        qos: Qos,
        message: (Seq<char>, Option<Seq<char>>),
        payload: Seq<char>,
    },
    ReportUndecodable { payload: Seq<u8> },
    ReportTransportError { description: Seq<char> },
    Idle,
}

impl View for Action {
    type V = ActionView;

    open spec fn view(&self) -> ActionView {
        match self {
            Action::Subscribe { topic, qos } => ActionView::Subscribe { topic: topic@, qos: *qos },
            Action::Publish { topic, qos, message, payload } => ActionView::Publish {
                topic: topic@,
                qos: *qos,
                message: message@,
                payload: payload@,
            },
            Action::ReportUndecodable { payload } => ActionView::ReportUndecodable {
                payload: payload@,
            },
            Action::ReportTransportError { description } => ActionView::ReportTransportError {
                description: description@,
            },
            Action::Idle => ActionView::Idle,
        }
    }
}

/// The models of a sequence of actions.
pub open spec fn actions_view(v: Seq<Action>) -> Seq<ActionView> {
    v.map_values(|a: Action| a@)
}

/// A status publish at least once on `topic`, with the record's JSON text.
pub open spec fn publish_view(topic: Seq<char>, m: (Seq<char>, Option<Seq<char>>)) -> ActionView {
    ActionView::Publish { topic, qos: Qos::AtLeastOnce, message: m, payload: status_json(m) }
}

/// The status that answers a command.
pub open spec fn status_of(c: CommandKind) -> Seq<char> {
    match c {
        CommandKind::StartStreaming { .. } => "streaming_started"@,
        CommandKind::StopStreaming => "streaming_stopped"@,
        CommandKind::Ping => "pong"@,
    }
}

/// Frames a status record and publishes it at least once on `topic`.
pub fn send_status(topic: &str, status: &str, details: Option<&str>) -> (r: Action)
    ensures
        r@ == publish_view(
            topic@,
            (
                status@,
                match details {
                    Some(d) => Some(d@),
                    None => None::<Seq<char>>,
                },
            ),
        ),
{
    let message = StatusMessage::new(status, details);
    let payload = message.encode();
    Action::Publish { topic: String::from_str(topic), qos: Qos::AtLeastOnce, message, payload }
}

/// Answers a command with its status, with `details` as the record's details.
/// Streaming parameters are accepted and not acted on.
pub fn handle_command(cmd: ControlCommand, status_topic: &str, details: &str) -> (r: Action)
    ensures
        r@ == publish_view(status_topic@, (status_of(cmd@), Some(details@))),
{
    match cmd {
        ControlCommand::StartStreaming { params: _ } => send_status(
            status_topic,
            "streaming_started",
            Some(details),
        ),
        ControlCommand::StopStreaming => send_status(status_topic, "streaming_stopped", Some(details)),
        ControlCommand::Ping => send_status(status_topic, "pong", Some(details)),
    }
}

/// An event that the transport hands to the agent.
#[derive(Debug)]
pub enum TransportEvent {
    /// A message published to a topic the device subscribed to.
    Publish { topic: String, payload: Vec<u8> },
    /// Any other packet from the broker.
    Other,
    /// An error of the connection.
    Error { description: String },
}

/// The model of a transport event.
pub enum EventView {
    Publish { topic: Seq<char>, payload: Seq<u8> },
    Other,
    Error { description: Seq<char> },
}

impl View for TransportEvent {
    type V = EventView;

    open spec fn view(&self) -> EventView {
        match self {
            TransportEvent::Publish { topic, payload } => EventView::Publish {
                topic: topic@,
                payload: payload@,
            },
            TransportEvent::Other => EventView::Other,
            TransportEvent::Error { description } => EventView::Error { description: description@ },
        }
    }
}

/// The actions that bring a device online: subscribe at most once to its
/// command topic, then publish `online` with its id at least once.
pub open spec fn bootstrap_actions(id: Seq<char>) -> Seq<ActionView> {
    seq![
        ActionView::Subscribe { topic: command_topic_of(id), qos: Qos::AtMostOnce },
        publish_view(status_topic_of(id), ("online"@, Some(id))),
    ]
}

/// The action for one event: a decoded command is answered on the status
/// topic with the device id as details; a payload that does not decode is
/// reported and dropped; errors are reported; anything else is ignored.
/// The topic of an incoming message is not consulted.
pub open spec fn event_action(id: Seq<char>, ev: EventView) -> ActionView {
    match ev {
        EventView::Publish { payload, .. } => match decoded(payload) {
            Some(c) => publish_view(status_topic_of(id), (status_of(c), Some(id))),
            None => ActionView::ReportUndecodable { payload },
        },
        EventView::Other => ActionView::Idle,
        EventView::Error { description } => ActionView::ReportTransportError { description },
    }
}

/// The actions of a session: the bootstrap, then one action for each event
/// in turn.
pub open spec fn session_actions(id: Seq<char>, events: Seq<EventView>) -> Seq<ActionView> {
    bootstrap_actions(id) + events.map_values(|e: EventView| event_action(id, e))
}

/// Whether an action publishes the status `online`.
pub open spec fn is_online_publish(a: ActionView) -> bool {
    match a {
        ActionView::Publish { message, .. } => message.0 == "online"@,
        _ => false,
    }
}

proof fn lemma_reply_not_online(c: CommandKind)
    ensures
        status_of(c) != "online"@,
{
    reveal_strlit("online");
    reveal_strlit("pong");
    reveal_strlit("streaming_started");
    reveal_strlit("streaming_stopped");
    assert("online"@.len() == 6);
    assert("pong"@.len() == 4);
    assert("streaming_started"@.len() == 17);
    assert("streaming_stopped"@.len() == 17);
}

/// Every dispatched command gets exactly one action, and it is a status
/// publish at least once on the device's status topic, with the device id as
/// details: `pong` for `ping`, `streaming_started` for `start_streaming`
/// (whatever its parameters), `streaming_stopped` for `stop_streaming`.
pub proof fn lemma_command_answered(id: Seq<char>, topic: Seq<char>, payload: Seq<u8>)
    requires
        decoded(payload) is Some,
    ensures
        event_action(id, EventView::Publish { topic, payload }) == publish_view(
            status_topic_of(id),
            (status_of(decoded(payload)->0), Some(id)),
        ),
        decoded(payload)->0 is Ping ==> status_of(decoded(payload)->0) == "pong"@,
        decoded(payload)->0 is StartStreaming ==> status_of(decoded(payload)->0)
            == "streaming_started"@,
        decoded(payload)->0 is StopStreaming ==> status_of(decoded(payload)->0)
            == "streaming_stopped"@,
{
}

/// In every session exactly one `online` status is published, and it comes
/// right after the subscription, before the action of any event.
pub proof fn lemma_online_once_first(id: Seq<char>, events: Seq<EventView>)
    ensures
        is_online_publish(session_actions(id, events)[1]),
        forall|i: int|
            0 <= i < session_actions(id, events).len() && i != 1 ==> !is_online_publish(
                #[trigger] session_actions(id, events)[i],
            ),
{
    let s = session_actions(id, events);
    assert forall|i: int| 0 <= i < s.len() && i != 1 implies !is_online_publish(#[trigger] s[i]) by {
        if i >= 2 {
            let e = events[i - 2];
            assert(s[i] == event_action(id, e));
            match e {
                EventView::Publish { payload, .. } => {
                    if let Some(c) = decoded(payload) {
                        lemma_reply_not_online(c);
                    }
                },
                _ => {},
            }
        }
    }
}

/// A device that has been brought online. It holds no state but its identity:
/// each command is answered on its own.
pub struct Agent {
    device_id: String,
    command_topic: String,
    status_topic: String,
}

impl Agent {
    #[verifier::type_invariant]
    spec fn topics_match(&self) -> bool {
        &&& self.command_topic@ == command_topic_of(self.device_id@)
        &&& self.status_topic@ == status_topic_of(self.device_id@)
    }

    /// The device's identity.
    pub closed spec fn id(&self) -> Seq<char> {
        self.device_id@
    }

    /// Brings a device online: the agent, and the actions to perform before
    /// any event is handled.
    pub fn start(device_id: String) -> (r: (Agent, Vec<Action>))
        ensures
            r.0.id() == device_id@,
            actions_view(r.1@) == bootstrap_actions(device_id@),
    {
        let command_topic = command_topic(device_id.as_str());
        let status_topic = status_topic(device_id.as_str());
        let subscribe = Action::Subscribe {
            topic: command_topic.clone(),
            qos: Qos::AtMostOnce,
        };
        let hello = send_status(status_topic.as_str(), "online", Some(device_id.as_str()));
        let mut actions: Vec<Action> = Vec::new();
        actions.push(subscribe);
        actions.push(hello);
        proof {
            assert(actions_view(actions@) =~= bootstrap_actions(device_id@));
        }
        (Agent { device_id, command_topic, status_topic }, actions)
    }

    /// The action for one transport event.
    pub fn on_event(&self, event: TransportEvent) -> (r: Action)
        ensures
            r@ == event_action(self.id(), event@),
    {
        proof {
            use_type_invariant(self);
        }
        match event {
            TransportEvent::Publish { topic: _, payload } => {
                match ControlCommand::decode(payload.as_slice()) {
                    Some(cmd) => handle_command(cmd, self.status_topic.as_str(), self.device_id.as_str()),
                    None => Action::ReportUndecodable { payload },
                }
            },
            TransportEvent::Other => Action::Idle,
            TransportEvent::Error { description } => Action::ReportTransportError { description },
        }
    }

    /// The device's identity.
    pub fn device_id(&self) -> (r: &str)
        ensures
            r@ == self.id(),
    {
        self.device_id.as_str()
    }

    /// The topic on which the device receives commands.
    pub fn command_topic(&self) -> (r: &str)
        ensures
            r@ == command_topic_of(self.id()),
    {
        proof {
            use_type_invariant(self);
        }
        self.command_topic.as_str()
    }

    /// The topic on which the device reports its status.
    pub fn status_topic(&self) -> (r: &str)
        ensures
            r@ == status_topic_of(self.id()),
    {
        proof {
            use_type_invariant(self);
        }
        self.status_topic.as_str()
    }
}

} // verus!
