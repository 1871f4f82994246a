//! Where incoming MQTT messages go, the topics the client uses, and the
//! connection and subscription bookkeeping of the MQTT clients.
use vstd::prelude::*;
use vstd::utf8::{decode_utf8, encode_utf8, encode_utf8_decode_utf8, encode_utf8_valid_utf8, valid_utf8};
use crate::mqtt_packet::{
    parse_connack_packet, parse_publish_packet, parse_suback_packet, spec_parse_connack,
    spec_parse_publish, spec_parse_suback, suback_too_short, utf8_lossy,
};
use crate::text::{
    concat, contains, ends_with, has_infix, has_prefix, has_suffix, split_char, split_on,
    starts_with, str_eq, views,
};

verus! {

broadcast use vstd::string::group_string_axioms;

/// Calls `String::from_utf8` on a copy of the bytes. Claimed, as std
/// documents: it fails exactly on invalid UTF-8, and otherwise gives the
/// decoded text.
#[verifier::external_body]
fn string_from_utf8(bytes: &[u8]) -> (text: Option<String>)
    ensures
        match text {
            Some(t) => valid_utf8(bytes@) && t@ == decode_utf8(bytes@),
            None => !valid_utf8(bytes@),
        },
{
    String::from_utf8(bytes.to_vec()).ok()
}

/// Where an incoming message goes.
#[derive(Debug)]
pub enum IncomingRoute {
    /// A temperature reading, as text.
    Temperature(String),
    /// A device announcement (JSON text).
    DeviceAnnouncement(String),
    /// A shared world's description (JSON text).
    WorldInfo(String),
    /// An empty description: the world was unpublished.
    WorldUnpublished,
    /// A shared world's full data (JSON text) and the world id from the topic.
    WorldData { world_id: String, json: String },
    /// Empty world data: the world was removed.
    WorldRemoved,
    /// A player's pose (JSON text).
    Pose(String),
    /// The payload is not UTF-8 text; the message is dropped.
    Dropped,
    /// No handler for the topic.
    Unhandled,
}

/// [`IncomingRoute`] with its texts as character sequences.
pub enum RouteView {
    Temperature(Seq<char>),
    DeviceAnnouncement(Seq<char>),
    WorldInfo(Seq<char>),
    WorldUnpublished,
    WorldData { world_id: Seq<char>, json: Seq<char> },
    WorldRemoved,
    Pose(Seq<char>),
    Dropped,
    Unhandled,
}

impl View for IncomingRoute {
    type V = RouteView;

    open spec fn view(&self) -> RouteView {
        match self {
            IncomingRoute::Temperature(t) => RouteView::Temperature(t@),
            IncomingRoute::DeviceAnnouncement(t) => RouteView::DeviceAnnouncement(t@),
            IncomingRoute::WorldInfo(t) => RouteView::WorldInfo(t@),
            IncomingRoute::WorldUnpublished => RouteView::WorldUnpublished,
            IncomingRoute::WorldData { world_id, json } => RouteView::WorldData {
                world_id: world_id@,
                json: json@,
            },
            IncomingRoute::WorldRemoved => RouteView::WorldRemoved,
            IncomingRoute::Pose(t) => RouteView::Pose(t@),
            IncomingRoute::Dropped => RouteView::Dropped,
            IncomingRoute::Unhandled => RouteView::Unhandled,
        }
    }
}

/// The prefix of every shared-world topic.
pub open spec fn worlds_prefix() -> Seq<char> {
    "iotcraft/worlds/"@
}

/// Where the broker client sends a message with this topic and payload.
pub open spec fn spec_route(topic: Seq<char>, payload: Seq<u8>) -> RouteView {
    let text = decode_utf8(payload);
    if topic == "home/sensor/temperature"@ {
        if valid_utf8(payload) {
            RouteView::Temperature(text)
        } else {
            RouteView::Dropped
        }
    } else if topic == "devices/announce"@ {
        if valid_utf8(payload) {
            RouteView::DeviceAnnouncement(text)
        } else {
            RouteView::Dropped
        }
    } else if has_prefix(topic, worlds_prefix()) && has_suffix(topic, "/info"@) {
        if !valid_utf8(payload) {
            RouteView::Dropped
        } else if text.len() == 0 {
            RouteView::WorldUnpublished
        } else {
            RouteView::WorldInfo(text)
        }
    } else if has_prefix(topic, worlds_prefix()) && has_suffix(topic, "/data"@) {
        if !valid_utf8(payload) {
            RouteView::Dropped
        } else if text.len() == 0 {
            RouteView::WorldRemoved
        } else if split_on(topic, '/').len() >= 3 {
            RouteView::WorldData { world_id: split_on(topic, '/')[2], json: text }
        } else {
            RouteView::Dropped
        }
    } else if has_prefix(topic, worlds_prefix()) && has_infix(topic, "/players/"@) && has_suffix(
        topic,
        "/pose"@,
    ) {
        if valid_utf8(payload) {
            RouteView::Pose(text)
        } else {
            RouteView::Dropped
        }
    } else {
        RouteView::Unhandled
    }
}

/// Route an incoming message by its topic: temperature readings, device
/// announcements, shared-world descriptions and data, and player poses.
pub fn route_incoming_message(topic: &str, payload: &[u8]) -> (route: IncomingRoute)
    ensures
        route@ == spec_route(topic@, payload@),
{
    if str_eq(topic, "home/sensor/temperature") {
        match string_from_utf8(payload) {
            Some(t) => IncomingRoute::Temperature(t),
            None => IncomingRoute::Dropped,
        }
    } else if str_eq(topic, "devices/announce") {
        match string_from_utf8(payload) {
            Some(t) => IncomingRoute::DeviceAnnouncement(t),
            None => IncomingRoute::Dropped,
        }
    } else if starts_with(topic, "iotcraft/worlds/") && ends_with(topic, "/info") {
        match string_from_utf8(payload) {
            Some(t) => if t.as_str().is_empty() {
                IncomingRoute::WorldUnpublished
            } else {
                IncomingRoute::WorldInfo(t)
            },
            None => IncomingRoute::Dropped,
        }
    } else if starts_with(topic, "iotcraft/worlds/") && ends_with(topic, "/data") {
        match string_from_utf8(payload) {
            Some(t) => if t.as_str().is_empty() {
                IncomingRoute::WorldRemoved
            } else {
                let parts = split_char(topic, '/');
                if parts.len() >= 3 {
                    proof {
                        assert(views(parts@)[2] == parts@[2]@);
                    }
                    IncomingRoute::WorldData { world_id: parts[2].clone(), json: t }
                } else {
                    IncomingRoute::Dropped
                }
            },
            None => IncomingRoute::Dropped,
        }
    } else if starts_with(topic, "iotcraft/worlds/") && contains(topic, "/players/") && ends_with(
        topic,
        "/pose",
    ) {
        match string_from_utf8(payload) {
            Some(t) => IncomingRoute::Pose(t),
            None => IncomingRoute::Dropped,
        }
    } else {
        IncomingRoute::Unhandled
    }
}

/// Where the browser client sends a message with this topic and payload.
pub open spec fn spec_route_web(topic: Seq<char>, payload: Seq<u8>) -> RouteView {
    let text = decode_utf8(payload);
    if has_prefix(topic, worlds_prefix()) && has_infix(topic, "/pose"@) {
        if valid_utf8(payload) {
            RouteView::Pose(text)
        } else {
            RouteView::Dropped
        }
    } else if topic == "home/sensor/temperature"@ {
        if valid_utf8(payload) {
            RouteView::Temperature(text)
        } else {
            RouteView::Dropped
        }
    } else if topic == "devices/announce"@ {
        if valid_utf8(payload) {
            RouteView::DeviceAnnouncement(text)
        } else {
            RouteView::Dropped
        }
    } else {
        RouteView::Unhandled
    }
}

/// Route a message the browser client received: poses of shared worlds,
/// temperature readings and device announcements.
pub fn route_web_message(topic: &str, payload: &[u8]) -> (route: IncomingRoute)
    ensures
        route@ == spec_route_web(topic@, payload@),
{
    if starts_with(topic, "iotcraft/worlds/") && contains(topic, "/pose") {
        match string_from_utf8(payload) {
            Some(t) => IncomingRoute::Pose(t),
            None => IncomingRoute::Dropped,
        }
    } else if str_eq(topic, "home/sensor/temperature") {
        match string_from_utf8(payload) {
            Some(t) => IncomingRoute::Temperature(t),
            None => IncomingRoute::Dropped,
        }
    } else if str_eq(topic, "devices/announce") {
        match string_from_utf8(payload) {
            Some(t) => IncomingRoute::DeviceAnnouncement(t),
            None => IncomingRoute::Dropped,
        }
    } else {
        IncomingRoute::Unhandled
    }
}

} // verus!

verus! {

/// A packet the browser client received over its WebSocket.
#[derive(Debug)]
pub enum WebPacket {
    /// CONNACK with its return code.
    ConnAck(u8),
    /// SUBACK with its packet id and return codes.
    SubAck { packet_id: u16, return_codes: Vec<u8> },
    /// PUBLISH with its topic and payload.
    Publish { topic: String, payload: Vec<u8> },
    /// Anything else; it is ignored.
    Other,
}

/// Recognise a packet, trying CONNACK, then SUBACK, then PUBLISH, as the
/// browser client's message handler does.
pub fn classify_web_packet(data: &[u8]) -> (p: WebPacket)
    requires
        !suback_too_short(data@),
    ensures
        match p {
            WebPacket::ConnAck(code) => spec_parse_connack(data@) == Some(code),
            WebPacket::SubAck { packet_id, return_codes } => spec_parse_connack(data@) is None
                && spec_parse_suback(data@) == Some((packet_id, return_codes@)),
            WebPacket::Publish { topic, payload } => spec_parse_connack(data@) is None
                && spec_parse_suback(data@) is None && match spec_parse_publish(data@) {
                Some((t, body)) => topic@ == utf8_lossy(t) && (valid_utf8(t) ==> topic@
                    == decode_utf8(t)) && payload@ == body,
                None => false,
            },
            WebPacket::Other => spec_parse_connack(data@) is None && spec_parse_suback(data@) is None
                && spec_parse_publish(data@) is None,
        },
{
    if let Some(code) = parse_connack_packet(data) {
        return WebPacket::ConnAck(code);
    }
    if let Some((packet_id, return_codes)) = parse_suback_packet(data) {
        return WebPacket::SubAck { packet_id, return_codes };
    }
    if let Some((topic, payload)) = parse_publish_packet(data) {
        return WebPacket::Publish { topic, payload };
    }
    WebPacket::Other
}

/// Whether every SUBACK return code grants QoS 0 or 1.
pub open spec fn all_granted(codes: Seq<u8>) -> bool {
    forall|i: int| 0 <= i < codes.len() ==> codes[i] <= 1
}

/// The packet id of the pose subscription, the third one the browser sends.
pub const POSE_SUBSCRIPTION_ID: u16 = 3;

/// How many subscriptions the broker confirmed to the browser client.
pub struct SubscriptionTracker {
    /// Confirmed subscriptions.
    pub confirmed: u8,
    /// Whether the pose subscription is among them.
    pub pose_confirmed: bool,
}

impl SubscriptionTracker {
    /// Nothing confirmed yet.
    pub fn new() -> (t: Self)
        ensures
            t.confirmed == 0,
            !t.pose_confirmed,
    {
        SubscriptionTracker { confirmed: 0, pose_confirmed: false }
    }

    /// Count a SUBACK: when every return code grants the subscription, one
    /// more is confirmed, and packet id 3 confirms the pose subscription.
    /// Gives whether the subscription was granted.
    pub fn on_suback(&mut self, packet_id: u16, return_codes: &[u8]) -> (granted: bool)
        requires
            old(self).confirmed < 255,
        ensures
            granted == all_granted(return_codes@),
            final(self).confirmed == old(self).confirmed + (if granted {
                1int
            } else {
                0int
            }),
            final(self).pose_confirmed == (old(self).pose_confirmed || (granted && packet_id
                == POSE_SUBSCRIPTION_ID)),
    {
        let mut i: usize = 0;
        while i < return_codes.len()
            invariant
                i <= return_codes@.len(),
                forall|k: int| 0 <= k < i ==> return_codes@[k] <= 1,
            decreases return_codes@.len() - i,
        {
            if return_codes[i] > 1 {
                return false;
            }
            i = i + 1;
        }
        self.confirmed = self.confirmed + 1;
        if packet_id == POSE_SUBSCRIPTION_ID {
            self.pose_confirmed = true;
        }
        true
    }

    /// Poses are published once two subscriptions are confirmed
    /// (temperature and pose).
    pub fn may_publish_poses(&self) -> (b: bool)
        ensures
            b == (self.confirmed >= 2),
    {
        self.confirmed >= 2
    }
}

/// The broker client's connection bookkeeping.
pub struct ConnectionState {
    /// Whether the broker acknowledged the current connection.
    pub connected: bool,
    /// Failed connections since the last success.
    pub reconnect_attempts: u64,
}

impl ConnectionState {
    /// Not connected, no attempt failed yet.
    pub fn new() -> (s: Self)
        ensures
            !s.connected,
            s.reconnect_attempts == 0,
    {
        ConnectionState { connected: false, reconnect_attempts: 0 }
    }

    /// The broker acknowledged the connection. Gives whether this is news to
    /// report (the first acknowledgement of this connection).
    pub fn on_connack(&mut self) -> (report: bool)
        ensures
            report == !old(self).connected,
            final(self).connected,
            final(self).reconnect_attempts == (if old(self).connected {
                old(self).reconnect_attempts
            } else {
                0
            }),
    {
        if !self.connected {
            self.connected = true;
            self.reconnect_attempts = 0;
            true
        } else {
            false
        }
    }

    /// The connection failed: count the attempt and give the seconds to wait
    /// before reconnecting, twice the attempts so far, at most 30.
    pub fn on_connection_error(&mut self) -> (backoff_secs: u64)
        requires
            old(self).reconnect_attempts < u64::MAX / 2,
        ensures
            !final(self).connected,
            final(self).reconnect_attempts == old(self).reconnect_attempts + 1,
            backoff_secs == (if 2 * final(self).reconnect_attempts < 30 {
                2 * final(self).reconnect_attempts
            } else {
                30
            }),
    {
        self.connected = false;
        self.reconnect_attempts = self.reconnect_attempts + 1;
        let doubled: u64 = self.reconnect_attempts * 2;
        if doubled < 30 {
            doubled
        } else {
            30
        }
    }

    /// Outgoing messages are sent only while connected; others are dropped.
    pub fn may_send(&self) -> (b: bool)
        ensures
            b == self.connected,
    {
        self.connected
    }
}

/// The topics the broker client subscribes to.
pub fn core_subscriptions() -> (topics: Vec<&'static str>)
    ensures
        topics@.len() == 5,
        topics@[0]@ == "home/sensor/temperature"@,
        topics@[1]@ == "devices/announce"@,
        topics@[2]@ == "iotcraft/worlds/+/info"@,
        topics@[3]@ == "iotcraft/worlds/+/data"@,
        topics@[4]@ == "iotcraft/worlds/+/players/+/pose"@,
{
    let mut topics: Vec<&'static str> = Vec::new();
    topics.push("home/sensor/temperature");
    topics.push("devices/announce");
    topics.push("iotcraft/worlds/+/info");
    topics.push("iotcraft/worlds/+/data");
    topics.push("iotcraft/worlds/+/players/+/pose");
    topics
}

/// The topic a player's pose is published on in a world.
pub fn pose_topic(world_id: &str, player_id: &str) -> (t: String)
    ensures
        t@ == "iotcraft/worlds/"@ + world_id@ + "/players/"@ + player_id@ + "/pose"@,
{
    let mut t = concat("iotcraft/worlds/", world_id);
    t.append("/players/");
    t.append(player_id);
    t.append("/pose");
    t
}

/// The filter that subscribes to every player's pose in a world.
pub fn pose_subscription_topic(world_id: &str) -> (t: String)
    ensures
        t@ == "iotcraft/worlds/"@ + world_id@ + "/players/+/pose"@,
{
    let mut t = concat("iotcraft/worlds/", world_id);
    t.append("/players/+/pose");
    t
}

/// The retained topic that describes a shared world.
pub fn world_info_topic(world_id: &str) -> (t: String)
    ensures
        t@ == "iotcraft/worlds/"@ + world_id@ + "/info"@,
{
    let mut t = concat("iotcraft/worlds/", world_id);
    t.append("/info");
    t
}

/// The topic that carries a shared world's data.
pub fn world_data_topic(world_id: &str) -> (t: String)
    ensures
        t@ == "iotcraft/worlds/"@ + world_id@ + "/data"@,
{
    let mut t = concat("iotcraft/worlds/", world_id);
    t.append("/data");
    t
}

/// The topic on which changes to a shared world are broadcast.
pub fn world_changes_topic(world_id: &str) -> (t: String)
    ensures
        t@ == "iotcraft/worlds/"@ + world_id@ + "/changes"@,
{
    let mut t = concat("iotcraft/worlds/", world_id);
    t.append("/changes");
    t
}

proof fn lemma_split_plain(w: Seq<char>, sep: char)
    requires
        !w.contains(sep),
    ensures
        split_on(w, sep) == seq![w],
    decreases w.len(),
{
    if w.len() > 0 {
        assert(!w.drop_last().contains(sep)) by {
            if w.drop_last().contains(sep) {
                let i = choose|i: int| 0 <= i < w.drop_last().len() && w.drop_last()[i] == sep;
                assert(w[i] == sep);
            }
        }
        lemma_split_plain(w.drop_last(), sep);
        assert(w.last() != sep) by {
            assert(w[w.len() - 1] == w.last());
        }
        assert(w.drop_last().push(w.last()) =~= w);
    } else {
        assert(w =~= Seq::<char>::empty());
    }
}

proof fn lemma_split_concat(a: Seq<char>, b: Seq<char>, sep: char)
    ensures
        split_on(a + seq![sep] + b, sep) == split_on(a, sep) + split_on(b, sep),
    decreases b.len(),
{
    let s = a + seq![sep] + b;
    if b.len() == 0 {
        assert(s.drop_last() =~= a);
        assert(split_on(b, sep) =~= seq![Seq::<char>::empty()]);
        assert(split_on(a, sep).push(Seq::<char>::empty()) =~= split_on(a, sep) + split_on(b, sep));
    } else {
        lemma_split_concat(a, b.drop_last(), sep);
        assert(s.drop_last() =~= a + seq![sep] + b.drop_last());
        assert(s.last() == b.last());
        crate::text::lemma_split_on_nonempty(b.drop_last(), sep);
        let x = split_on(a, sep);
        let y = split_on(b.drop_last(), sep);
        if b.last() == sep {
            assert((x + y).push(Seq::<char>::empty()) =~= x + y.push(Seq::<char>::empty()));
        } else {
            assert((x + y).update((x + y).len() - 1, (x + y).last().push(b.last())) =~= x + y.update(
                y.len() - 1,
                y.last().push(b.last()),
            ));
        }
    }
}

/// Every topic the clients subscribe to reaches its handler, on the desktop
/// and in the browser: temperature readings, device announcements and the
/// poses of any player in any world come out as the payload's text, and a
/// payload that is not UTF-8 is dropped; none of them is left unhandled.
pub proof fn law_subscribed_topics_reach_their_handlers(
    payload: Seq<u8>,
    world_id: Seq<char>,
    player: Seq<char>,
)
    ensures
        ({
            let text = decode_utf8(payload);
            let pose_topic = "iotcraft/worlds/"@ + world_id + "/players/"@ + player + "/pose"@;
            &&& spec_route_web("home/sensor/temperature"@, payload) == if valid_utf8(payload) {
                RouteView::Temperature(text)
            } else {
                RouteView::Dropped
            }
            &&& spec_route_web("devices/announce"@, payload) == if valid_utf8(payload) {
                RouteView::DeviceAnnouncement(text)
            } else {
                RouteView::Dropped
            }
            &&& spec_route_web(pose_topic, payload) == if valid_utf8(payload) {
                RouteView::Pose(text)
            } else {
                RouteView::Dropped
            }
            &&& spec_route("home/sensor/temperature"@, payload) == if valid_utf8(payload) {
                RouteView::Temperature(text)
            } else {
                RouteView::Dropped
            }
            &&& spec_route("devices/announce"@, payload) == if valid_utf8(payload) {
                RouteView::DeviceAnnouncement(text)
            } else {
                RouteView::Dropped
            }
            &&& spec_route(pose_topic, payload) == if valid_utf8(payload) {
                RouteView::Pose(text)
            } else {
                RouteView::Dropped
            }
        }),
{
    reveal_strlit("iotcraft/worlds/");
    reveal_strlit("home/sensor/temperature");
    reveal_strlit("devices/announce");
    reveal_strlit("/players/");
    reveal_strlit("/pose");
    reveal_strlit("/info");
    reveal_strlit("/data");
    let temp = "home/sensor/temperature"@;
    let announce = "devices/announce"@;
    let pose_topic = "iotcraft/worlds/"@ + world_id + "/players/"@ + player + "/pose"@;
    assert(!has_prefix(temp, worlds_prefix())) by {
        assert(temp.subrange(0, 16)[0] != worlds_prefix()[0]);
    }
    assert(!has_prefix(announce, worlds_prefix())) by {
        assert(announce.subrange(0, 16)[0] != worlds_prefix()[0]);
    }
    assert(temp != announce) by {
        assert(temp.len() != announce.len());
    }
    assert(pose_topic[0] == 'i');
    assert(pose_topic != temp);
    assert(pose_topic != announce);
    assert(has_prefix(pose_topic, worlds_prefix())) by {
        assert(pose_topic.subrange(0, 16) =~= "iotcraft/worlds/"@);
    }
    let n = pose_topic.len() as int;
    assert(pose_topic.subrange(n - 5, n) =~= "/pose"@);
    assert(has_suffix(pose_topic, "/pose"@));
    assert(crate::text::occurs_at(pose_topic, "/pose"@, n - 5));
    assert(has_infix(pose_topic, "/pose"@));
    let k: int = 16 + world_id.len() as int;
    assert(pose_topic.subrange(k, k + 9) =~= "/players/"@);
    assert(crate::text::occurs_at(pose_topic, "/players/"@, k));
    assert(has_infix(pose_topic, "/players/"@));
    assert(!has_suffix(pose_topic, "/info"@)) by {
        assert(pose_topic[n - 1] == 'e');
        assert(pose_topic.subrange(n - 5, n)[4] != "/info"@[4]);
    }
    assert(!has_suffix(pose_topic, "/data"@)) by {
        assert(pose_topic.subrange(n - 5, n)[4] != "/data"@[4]);
    }
}

/// World sharing: what a host publishes about a world reaches every client
/// as that world's description and data. The broker delivers a
/// publication's text as its UTF-8 bytes, and routing those bytes on the
/// world's topics gives back the same text, with the world's id taken from
/// the data topic.
pub proof fn law_shared_world_roundtrip(world_id: Seq<char>, info: Seq<char>, data_json: Seq<char>)
    requires
        !world_id.contains('/'),
        info.len() > 0,
        data_json.len() > 0,
    ensures
        spec_route("iotcraft/worlds/"@ + world_id + "/info"@, encode_utf8(info)) == RouteView::WorldInfo(info),
        spec_route("iotcraft/worlds/"@ + world_id + "/data"@, encode_utf8(data_json)) == (RouteView::WorldData {
            world_id,
            json: data_json,
        }),
{
    reveal_strlit("iotcraft/worlds/");
    reveal_strlit("/info");
    reveal_strlit("/data");
    reveal_strlit("home/sensor/temperature");
    reveal_strlit("devices/announce");
    reveal_strlit("/players/");
    reveal_strlit("/pose");
    encode_utf8_valid_utf8(info);
    encode_utf8_decode_utf8(info);
    encode_utf8_valid_utf8(data_json);
    encode_utf8_decode_utf8(data_json);
    let info_topic = "iotcraft/worlds/"@ + world_id + "/info"@;
    let data_topic = "iotcraft/worlds/"@ + world_id + "/data"@;
    assert(info_topic[0] == 'i' && data_topic[0] == 'i');
    assert(info_topic != "home/sensor/temperature"@);
    assert(info_topic != "devices/announce"@);
    assert(data_topic != "home/sensor/temperature"@);
    assert(data_topic != "devices/announce"@);
    assert(has_prefix(info_topic, worlds_prefix())) by {
        assert(info_topic.subrange(0, 16) =~= "iotcraft/worlds/"@);
    }
    assert(has_suffix(info_topic, "/info"@)) by {
        assert(info_topic.subrange(info_topic.len() - 5, info_topic.len() as int) =~= "/info"@);
    }
    assert(has_prefix(data_topic, worlds_prefix())) by {
        assert(data_topic.subrange(0, 16) =~= "iotcraft/worlds/"@);
    }
    assert(!has_suffix(data_topic, "/info"@)) by {
        assert(data_topic[data_topic.len() - 1] == 'a');
        if has_suffix(data_topic, "/info"@) {
            assert(data_topic.subrange(data_topic.len() - 5, data_topic.len() as int)[4] == 'o');
        }
    }
    assert(has_suffix(data_topic, "/data"@)) by {
        assert(data_topic.subrange(data_topic.len() - 5, data_topic.len() as int) =~= "/data"@);
    }
    let iot = seq!['i', 'o', 't', 'c', 'r', 'a', 'f', 't'];
    let worlds = seq!['w', 'o', 'r', 'l', 'd', 's'];
    let data = seq!['d', 'a', 't', 'a'];
    assert(data_topic =~= iot + seq!['/'] + (worlds + seq!['/'] + (world_id + seq!['/'] + data)));
    lemma_split_concat(iot, worlds + seq!['/'] + (world_id + seq!['/'] + data), '/');
    lemma_split_concat(worlds, world_id + seq!['/'] + data, '/');
    lemma_split_concat(world_id, data, '/');
    lemma_split_plain(iot, '/');
    lemma_split_plain(worlds, '/');
    lemma_split_plain(world_id, '/');
    lemma_split_plain(data, '/');
    assert(split_on(data_topic, '/') =~= seq![iot, worlds, world_id, data]);
}

} // verus!
