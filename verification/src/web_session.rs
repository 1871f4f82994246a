//! The browser client's broker session over its WebSocket, as a state
//! machine: each event (the socket opened, a timer fired, a packet arrived,
//! the pose publisher ticked) gives the packets to send. The order is:
//! CONNECT; 100 ms later SUBSCRIBE to the temperature (id 1) and the device
//! announcements (id 2) and one initial pose; 200 ms after that SUBSCRIBE to
//! the world's poses (id 3). Queued poses go out only once two subscriptions
//! are confirmed.
use vstd::prelude::*;
use vstd::utf8::encode_utf8;
use crate::mqtt_packet::{
    connect_packet, publish_packet, spec_connect_packet, spec_parse_connack, spec_parse_publish,
    spec_parse_suback, spec_publish_packet, spec_subscribe_packet, subscribe_packet,
    suback_too_short, utf8_lossy,
};
use crate::routing::{
    classify_web_packet, pose_subscription_topic, pose_topic, route_web_message, spec_route_web,
    IncomingRoute, SubscriptionTracker, WebPacket,
};

verus! {

broadcast use vstd::string::group_string_axioms;

/// How far the session got.
#[derive(Clone, Copy, Debug, PartialEq, Eq, Structural)]
pub enum WebSessionPhase {
    /// The socket is not open yet.
    Closed,
    /// CONNECT was sent.
    Connected,
    /// The temperature and device subscriptions and the initial pose were
    /// sent.
    Subscribed,
    /// The pose subscription was sent too.
    PoseSubscribed,
}

/// The browser client's session with the broker.
pub struct WebSession {
    pub phase: WebSessionPhase,
    pub subscriptions: SubscriptionTracker,
}

/// The topic a player's pose is published on.
pub open spec fn spec_pose_topic(world_id: Seq<char>, player_id: Seq<char>) -> Seq<char> {
    "iotcraft/worlds/"@ + world_id + "/players/"@ + player_id + "/pose"@
}

/// A packet as the browser's message handler reads it, trying CONNACK, then
/// SUBACK, then PUBLISH (its topic decoded as text).
pub enum WebPacketKind {
    ConnAck(u8),
    SubAck(u16, Seq<u8>),
    Publish(Seq<char>, Seq<u8>),
    Other,
}

/// How the browser's message handler reads a packet.
pub open spec fn classify_spec(data: Seq<u8>) -> WebPacketKind {
    match spec_parse_connack(data) {
        Some(code) => WebPacketKind::ConnAck(code),
        None => match spec_parse_suback(data) {
            Some((id, codes)) => WebPacketKind::SubAck(id, codes),
            None => match spec_parse_publish(data) {
                Some((t, body)) => WebPacketKind::Publish(utf8_lossy(t), body),
                None => WebPacketKind::Other,
            },
        },
    }
}

/// What a packet the browser received was.
#[derive(Debug)]
pub enum WebReceipt {
    /// CONNACK with its return code.
    ConnAck(u8),
    /// SUBACK: whether the subscription was granted.
    SubAck { packet_id: u16, granted: bool },
    /// PUBLISH, routed.
    Message(IncomingRoute),
    /// Anything else.
    Other,
}

impl WebSession {
    /// A session whose socket is not open yet.
    pub fn new() -> (s: Self)
        ensures
            s.phase == WebSessionPhase::Closed,
            s.subscriptions.confirmed == 0,
            !s.subscriptions.pose_confirmed,
    {
        WebSession { phase: WebSessionPhase::Closed, subscriptions: SubscriptionTracker::new() }
    }

    /// The socket opened: send CONNECT with the client id.
    pub fn on_open(&mut self, client_id: &str) -> (send: Vec<Vec<u8>>)
        ensures
            old(self).phase == WebSessionPhase::Closed ==> {
                &&& final(self).phase == WebSessionPhase::Connected
                &&& send@.len() == 1
                &&& send@[0]@ == spec_connect_packet(encode_utf8(client_id@))
            },
            old(self).phase != WebSessionPhase::Closed ==> final(self).phase == old(self).phase
                && send@.len() == 0,
            final(self).subscriptions == old(self).subscriptions,
    {
        let mut send: Vec<Vec<u8>> = Vec::new();
        if self.phase == WebSessionPhase::Closed {
            send.push(connect_packet(client_id));
            self.phase = WebSessionPhase::Connected;
        }
        send
    }

    /// The first timer fired: subscribe to the temperature (id 1) and the
    /// device announcements (id 2), and publish the initial pose (its JSON
    /// text as bytes) on this player's pose topic.
    pub fn on_subscribe_timer(&mut self, world_id: &str, player_id: &str, initial_pose: &[u8]) -> (send: Vec<
        Vec<u8>,
    >)
        ensures
            old(self).phase == WebSessionPhase::Connected ==> {
                &&& final(self).phase == WebSessionPhase::Subscribed
                &&& send@.len() == 3
                &&& send@[0]@ == spec_subscribe_packet(encode_utf8("home/sensor/temperature"@), 1)
                &&& send@[1]@ == spec_subscribe_packet(encode_utf8("devices/announce"@), 2)
                &&& send@[2]@ == spec_publish_packet(
                    encode_utf8(spec_pose_topic(world_id@, player_id@)),
                    initial_pose@,
                )
            },
            old(self).phase != WebSessionPhase::Connected ==> final(self).phase == old(self).phase
                && send@.len() == 0,
            final(self).subscriptions == old(self).subscriptions,
    {
        let mut send: Vec<Vec<u8>> = Vec::new();
        if self.phase == WebSessionPhase::Connected {
            send.push(subscribe_packet("home/sensor/temperature", 1));
            send.push(subscribe_packet("devices/announce", 2));
            let topic = pose_topic(world_id, player_id);
            send.push(publish_packet(topic.as_str(), initial_pose));
            self.phase = WebSessionPhase::Subscribed;
        }
        send
    }

    /// The second timer fired: subscribe to every player's pose in the
    /// world (id 3).
    pub fn on_pose_subscribe_timer(&mut self, world_id: &str) -> (send: Vec<Vec<u8>>)
        ensures
            old(self).phase == WebSessionPhase::Subscribed ==> {
                &&& final(self).phase == WebSessionPhase::PoseSubscribed
                &&& send@.len() == 1
                &&& send@[0]@ == spec_subscribe_packet(
                    encode_utf8("iotcraft/worlds/"@ + world_id@ + "/players/+/pose"@),
                    3,
                )
            },
            old(self).phase != WebSessionPhase::Subscribed ==> final(self).phase == old(self).phase
                && send@.len() == 0,
            final(self).subscriptions == old(self).subscriptions,
    {
        let mut send: Vec<Vec<u8>> = Vec::new();
        if self.phase == WebSessionPhase::Subscribed {
            let topic = pose_subscription_topic(world_id);
            send.push(subscribe_packet(topic.as_str(), 3));
            self.phase = WebSessionPhase::PoseSubscribed;
        }
        send
    }

    /// Whether queued poses may go out: the subscriptions were sent and two
    /// of them are confirmed.
    pub open spec fn spec_may_publish(&self) -> bool {
        &&& (self.phase == WebSessionPhase::Subscribed || self.phase == WebSessionPhase::PoseSubscribed)
        &&& self.subscriptions.confirmed >= 2
    }

    /// The pose publisher ticked with these queued poses (each its JSON text
    /// as bytes): the PUBLISH packets for all of them, in order, on this
    /// player's pose topic; or `None` while poses may not go out yet, and the
    /// poses stay queued.
    pub fn on_publish_tick(&self, world_id: &str, player_id: &str, poses: &Vec<Vec<u8>>) -> (send: Option<
        Vec<Vec<u8>>,
    >)
        ensures
            match send {
                None => !self.spec_may_publish(),
                Some(packets) => {
                    &&& self.spec_may_publish()
                    &&& packets@.len() == poses@.len()
                    &&& forall|k: int|
                        0 <= k < packets@.len() ==> (#[trigger] packets@[k])@ == spec_publish_packet(
                            encode_utf8(spec_pose_topic(world_id@, player_id@)),
                            poses@[k]@,
                        )
                },
            },
    {
        let ready = (self.phase == WebSessionPhase::Subscribed || self.phase
            == WebSessionPhase::PoseSubscribed) && self.subscriptions.may_publish_poses();
        if !ready {
            return None;
        }
        let topic = pose_topic(world_id, player_id);
        let mut packets: Vec<Vec<u8>> = Vec::new();
        let mut i: usize = 0;
        while i < poses.len()
            invariant
                i <= poses@.len(),
                topic@ == spec_pose_topic(world_id@, player_id@),
                packets@.len() == i,
                forall|k: int|
                    0 <= k < i ==> (#[trigger] packets@[k])@ == spec_publish_packet(
                        encode_utf8(spec_pose_topic(world_id@, player_id@)),
                        poses@[k]@,
                    ),
            decreases poses@.len() - i,
        {
            packets.push(publish_packet(topic.as_str(), poses[i].as_slice()));
            i = i + 1;
        }
        Some(packets)
    }

    /// A packet arrived: a granted SUBACK counts towards the pose gate; a
    /// PUBLISH is routed (see [`spec_route_web`]).
    pub fn on_packet(&mut self, data: &[u8]) -> (r: WebReceipt)
        requires
            !suback_too_short(data@),
            old(self).subscriptions.confirmed < 255,
        ensures
            final(self).phase == old(self).phase,
            match r {
                WebReceipt::SubAck { packet_id, granted } => {
                    &&& final(self).subscriptions.confirmed == old(self).subscriptions.confirmed + (if granted {
                        1int
                    } else {
                        0int
                    })
                    &&& final(self).subscriptions.pose_confirmed == (old(self).subscriptions.pose_confirmed
                        || (granted && packet_id == 3))
                },
                _ => final(self).subscriptions == old(self).subscriptions,
            },
            match classify_spec(data@) {
                WebPacketKind::ConnAck(code) => r == WebReceipt::ConnAck(code),
                WebPacketKind::SubAck(packet_id, codes) => r matches WebReceipt::SubAck { packet_id: p, granted }
                    && p == packet_id && granted == crate::routing::all_granted(codes),
                WebPacketKind::Publish(topic, payload) => r matches WebReceipt::Message(route) && route@
                    == spec_route_web(topic, payload),
                WebPacketKind::Other => r == WebReceipt::Other,
            },
    {
        match classify_web_packet(data) {
            WebPacket::ConnAck(code) => WebReceipt::ConnAck(code),
            WebPacket::SubAck { packet_id, return_codes } => {
                let granted = self.subscriptions.on_suback(packet_id, return_codes.as_slice());
                WebReceipt::SubAck { packet_id, granted }
            },
            WebPacket::Publish { topic, payload } => WebReceipt::Message(
                route_web_message(topic.as_str(), payload.as_slice()),
            ),
            WebPacket::Other => WebReceipt::Other,
        }
    }
}

} // verus!
