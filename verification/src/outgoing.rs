//! The broker client's outgoing queue: the messages the game queues, and what
//! the service does with each one it takes. A message taken while the broker
//! has not acknowledged the connection is dropped, not kept for later; one
//! taken while connected becomes exactly one publication.
use vstd::prelude::*;
use crate::multiplayer::{
    block_change_topic, spec_block_change_route, BlockChangeSource, BlockChangeType, MultiplayerMode,
};
use crate::routing::{world_data_topic, world_info_topic, ConnectionState};

verus! {

broadcast use vstd::string::group_string_axioms;

/// MQTT's delivery guarantees.
#[derive(Clone, Copy, Debug, PartialEq, Eq, Structural)]
pub enum QoS {
    AtMostOnce,
    AtLeastOnce,
    ExactlyOnce,
}

/// A message the game queues for the broker.
#[derive(Debug)]
#[allow(inconsistent_fields)]
pub enum OutgoingMqttMessage {
    /// A player's pose (JSON text).
    PublishPose { topic: String, payload: String },
    /// A shared world's description (JSON text), retained or not.
    PublishWorldInfo { topic: String, payload: String, retain: bool },
    /// A world's data or a piece of it.
    PublishWorldChunk { topic: String, payload: Vec<u8> },
    /// Anything else, with its own delivery guarantee and retain flag.
    GenericPublish { topic: String, payload: String, qos: QoS, retain: bool },
}

/// What a publication carries.
#[derive(Debug)]
pub enum Payload {
    /// Text, sent as its UTF-8 bytes.
    Text(String),
    Bytes(Vec<u8>),
}

/// One publish to the broker.
#[derive(Debug)]
pub struct Publication {
    pub topic: String,
    pub payload: Payload,
    pub qos: QoS,
    pub retain: bool,
}

/// Whether `p` carries this text.
pub open spec fn carries_text(p: Payload, text: Seq<char>) -> bool {
    p matches Payload::Text(t) && t@ == text
}

/// Whether `p` carries these bytes.
pub open spec fn carries_bytes(p: Payload, bytes: Seq<u8>) -> bool {
    p matches Payload::Bytes(b) && b@ == bytes
}

/// Whether `p` is the publication that a queued message becomes: poses and
/// world descriptions at most once, descriptions with their own retain flag;
/// world data at most once and not retained; the rest with their own
/// delivery guarantee and retain flag.
pub open spec fn publishes(msg: OutgoingMqttMessage, p: Publication) -> bool {
    match msg {
        OutgoingMqttMessage::PublishPose { topic, payload } => p.topic@ == topic@ && carries_text(
            p.payload,
            payload@,
        ) && p.qos == QoS::AtMostOnce && !p.retain,
        OutgoingMqttMessage::PublishWorldInfo { topic, payload, retain } => p.topic@ == topic@
            && carries_text(p.payload, payload@) && p.qos == QoS::AtMostOnce && p.retain == retain,
        OutgoingMqttMessage::PublishWorldChunk { topic, payload } => p.topic@ == topic@
            && carries_bytes(p.payload, payload@) && p.qos == QoS::AtMostOnce && !p.retain,
        OutgoingMqttMessage::GenericPublish { topic, payload, qos, retain } => p.topic@ == topic@
            && carries_text(p.payload, payload@) && p.qos == qos && p.retain == retain,
    }
}

/// The service took `msg` from the queue: while connected it becomes one
/// publication (see [`publishes`]); otherwise it is dropped.
pub fn outgoing_step(connection: &ConnectionState, msg: OutgoingMqttMessage) -> (p: Option<Publication>)
    ensures
        match p {
            Some(q) => connection.connected && publishes(msg, q),
            None => !connection.connected,
        },
{
    if !connection.may_send() {
        return None;
    }
    let q = match msg {
        OutgoingMqttMessage::PublishPose { topic, payload } => Publication {
            topic,
            payload: Payload::Text(payload),
            qos: QoS::AtMostOnce,
            retain: false,
        },
        OutgoingMqttMessage::PublishWorldInfo { topic, payload, retain } => Publication {
            topic,
            payload: Payload::Text(payload),
            qos: QoS::AtMostOnce,
            retain,
        },
        OutgoingMqttMessage::PublishWorldChunk { topic, payload } => Publication {
            topic,
            payload: Payload::Bytes(payload),
            qos: QoS::AtMostOnce,
            retain: false,
        },
        OutgoingMqttMessage::GenericPublish { topic, payload, qos, retain } => Publication {
            topic,
            payload: Payload::Text(payload),
            qos,
            retain,
        },
    };
    Some(q)
}

/// The message that publishes a block change: the JSON text `payload` on the
/// change's topic (see [`spec_block_change_route`]), at least once, not
/// retained; or `None` where the change is not published.
pub fn block_change_message(
    mode: &MultiplayerMode,
    event_world: &str,
    change: &BlockChangeType,
    source: BlockChangeSource,
    payload: String,
) -> (m: Option<OutgoingMqttMessage>)
    ensures
        match spec_block_change_route(mode@, event_world@, change is Placed, source) {
            Some(t) => m matches Some(OutgoingMqttMessage::GenericPublish { topic, payload: p, qos, retain })
                && topic@ == t && p@ == payload@ && qos == QoS::AtLeastOnce && !retain,
            None => m is None,
        },
{
    match block_change_topic(mode, event_world, change, source) {
        Some(topic) => Some(
            OutgoingMqttMessage::GenericPublish { topic, payload, qos: QoS::AtLeastOnce, retain: false },
        ),
        None => None,
    }
}

/// The message that announces a device: the JSON text `payload` on
/// "devices/announce", at most once, not retained.
pub fn device_announcement_message(payload: String) -> (m: OutgoingMqttMessage)
    ensures
        m matches OutgoingMqttMessage::GenericPublish { topic, payload: p, qos, retain } && topic@
            == "devices/announce"@ && p@ == payload@ && qos == QoS::AtMostOnce && !retain,
{
    OutgoingMqttMessage::GenericPublish {
        topic: String::from_str("devices/announce"),
        payload,
        qos: QoS::AtMostOnce,
        retain: false,
    }
}

/// The messages that publish a world: its description (JSON text, retained)
/// and its data (serialized) on the world's topics.
pub fn world_publish_messages(world_id: &str, info: String, data: Vec<u8>) -> (m: Vec<OutgoingMqttMessage>)
    ensures
        m@.len() == 2,
        m@[0] matches OutgoingMqttMessage::PublishWorldInfo { topic, payload, retain } && topic@
            == "iotcraft/worlds/"@ + world_id@ + "/info"@ && payload@ == info@ && retain,
        m@[1] matches OutgoingMqttMessage::PublishWorldChunk { topic, payload } && topic@
            == "iotcraft/worlds/"@ + world_id@ + "/data"@ && payload@ == data@,
{
    let mut m: Vec<OutgoingMqttMessage> = Vec::new();
    m.push(OutgoingMqttMessage::PublishWorldInfo { topic: world_info_topic(world_id), payload: info, retain: true });
    m.push(OutgoingMqttMessage::PublishWorldChunk { topic: world_data_topic(world_id), payload: data });
    m
}

/// The messages that unpublish a world: an empty retained description and
/// empty data on the world's topics, which clear what the broker kept.
pub fn world_unpublish_messages(world_id: &str) -> (m: Vec<OutgoingMqttMessage>)
    ensures
        m@.len() == 2,
        m@[0] matches OutgoingMqttMessage::PublishWorldInfo { topic, payload, retain } && topic@
            == "iotcraft/worlds/"@ + world_id@ + "/info"@ && payload@.len() == 0 && retain,
        m@[1] matches OutgoingMqttMessage::PublishWorldChunk { topic, payload } && topic@
            == "iotcraft/worlds/"@ + world_id@ + "/data"@ && payload@.len() == 0,
{
    world_publish_messages(world_id, String::new(), Vec::new())
}

} // verus!
