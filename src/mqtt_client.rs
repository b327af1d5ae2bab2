use crate::config::MqttConfig;
use crate::text::opt_view;
use vstd::prelude::*;

verus! {

/// One message to publish: where it goes, what it says, and whether the broker keeps it.
#[derive(Debug, Clone)]
pub struct MqttPayload {
    pub topic: String,
    pub payload: String,
    pub retain: bool,
}

/// A message as plain values.
pub ghost struct PayloadModel {
    pub topic: Seq<char>,
    pub body: Seq<char>,
    pub retain: bool,
}

impl View for MqttPayload {
    type V = PayloadModel;

    open spec fn view(&self) -> PayloadModel {
        PayloadModel { topic: self.topic@, body: self.payload@, retain: self.retain }
    }
}

/// The three messages of one sensor in one cycle.
#[derive(Debug, Clone)]
pub struct MqttSensorTopics {
    pub name: String,
    pub state: MqttPayload,
    pub discovery: MqttPayload,
    pub availability: MqttPayload,
}

/// The messages of one sensor as plain values.
pub ghost struct TopicsModel {
    pub name: Seq<char>,
    pub state: PayloadModel,
    pub discovery: PayloadModel,
    pub availability: PayloadModel,
}

impl View for MqttSensorTopics {
    type V = TopicsModel;

    open spec fn view(&self) -> TopicsModel {
        TopicsModel {
            name: self.name@,
            state: self.state@,
            discovery: self.discovery@,
            availability: self.availability@,
        }
    }
}

/// A copy of a payload.
pub fn copy_payload(p: &MqttPayload) -> (r: MqttPayload)
    ensures
        r@ == p@,
{
    MqttPayload { topic: p.topic.clone(), payload: p.payload.clone(), retain: p.retain }
}

/// Largest packet the client sends or accepts, in bytes.
pub const MAX_PACKET_SIZE: usize = 10240;

/// Requests the client queues before a publish call waits.
pub const REQUEST_CHANNEL_CAPACITY: usize = 100;

/// Wait after a connection error before polling again; the transport reconnects.
pub const RECONNECT_BACKOFF_SECS: u64 = 5;

/// How to open the broker session.
#[derive(Debug)]
pub struct ConnectionSettings {
    pub client_id: String,
    pub broker: String,
    pub port: u16,
    pub keep_alive_secs: u64,
    /// User name and password, sent only when both are configured.
    pub credentials: Option<(String, String)>,
    pub max_packet_size: usize,
    /// Whether the broker forgets the session between connections.
    pub clean_session: bool,
    pub channel_capacity: usize,
}

/// The session settings for a broker configuration.
pub fn connection_settings(config: &MqttConfig) -> (r: ConnectionSettings)
    ensures
        r.client_id@ == config.client_id@,
        r.broker@ == config.broker@,
        r.port == config.port,
        r.keep_alive_secs == config.keep_alive_secs,
        r.max_packet_size == MAX_PACKET_SIZE,
        !r.clean_session,
        r.channel_capacity == REQUEST_CHANNEL_CAPACITY,
        (r.credentials is Some) == (config.username is Some && config.password is Some),
        r.credentials matches Some((u, p)) ==> opt_view(config.username) == Some(u@) && opt_view(
            config.password,
        ) == Some(p@),
{
    let credentials = match (&config.username, &config.password) {
        (Some(u), Some(p)) => Some((u.clone(), p.clone())),
        _ => None,
    };
    ConnectionSettings {
        client_id: config.client_id.clone(),
        broker: config.broker.clone(),
        port: config.port,
        keep_alive_secs: config.keep_alive_secs,
        credentials,
        max_packet_size: MAX_PACKET_SIZE,
        clean_session: false,
        channel_capacity: REQUEST_CHANNEL_CAPACITY,
    }
}

/// What the broker connection reported.
#[derive(Debug, Clone, Copy, PartialEq, Eq, Structural)]
pub enum ConnectionEvent {
    /// The broker acknowledged a connection.
    Connected,
    /// Any other packet came in.
    Incoming,
    /// A packet went out.
    Outgoing,
    /// The connection failed.
    Failed,
}

/// What the connection supervisor does about an event.
#[derive(Debug, Clone, Copy, PartialEq, Eq, Structural)]
pub enum SupervisorAction {
    /// Report the connection, then keep polling.
    ReportConnected,
    /// Keep polling.
    Continue,
    /// Report the error, wait this long, then keep polling.
    Backoff { secs: u64 },
}

pub open spec fn supervision(e: ConnectionEvent) -> SupervisorAction {
    match e {
        ConnectionEvent::Connected => SupervisorAction::ReportConnected,
        ConnectionEvent::Incoming | ConnectionEvent::Outgoing => SupervisorAction::Continue,
        ConnectionEvent::Failed => SupervisorAction::Backoff { secs: RECONNECT_BACKOFF_SECS },
    }
}

/// The supervisor's decision for one event of the connection.
pub fn supervise(event: ConnectionEvent) -> (r: SupervisorAction)
    ensures
        r == supervision(event),
{
    match event {
        ConnectionEvent::Connected => SupervisorAction::ReportConnected,
        ConnectionEvent::Incoming | ConnectionEvent::Outgoing => SupervisorAction::Continue,
        ConnectionEvent::Failed => SupervisorAction::Backoff { secs: RECONNECT_BACKOFF_SECS },
    }
}

} // verus!
