use iotcraft_client::commands::{parse_command, spawn_reply};
use iotcraft_client::mqtt_packet::{connect_packet, publish_packet, subscribe_packet};
use iotcraft_client::multiplayer::{BlockChangeSource, BlockChangeType, MultiplayerMode};
use iotcraft_client::outgoing::{
    block_change_message, device_announcement_message, outgoing_step, world_publish_messages,
    world_unpublish_messages, OutgoingMqttMessage, Payload, QoS,
};
use iotcraft_client::routing::{ConnectionState, IncomingRoute};
use iotcraft_client::web_session::{WebReceipt, WebSession, WebSessionPhase};
use iotcraft_client::world::BlockType;

fn suback(packet_id: u16, code: u8) -> Vec<u8> {
    vec![0x90, 0x03, (packet_id >> 8) as u8, (packet_id & 0xff) as u8, code]
}

#[test]
fn web_session_sends_in_order() {
    let mut s = WebSession::new();
    let poses = vec![b"{\"p\":1}".to_vec()];
    // Nothing goes out before the socket opens.
    assert!(s.on_subscribe_timer("default", "web-1", b"{}").is_empty());
    assert_eq!(s.on_publish_tick("default", "web-1", &poses), None);
    assert_eq!(s.on_open("web-mqtt-client-1"), vec![connect_packet("web-mqtt-client-1")]);
    assert_eq!(s.phase, WebSessionPhase::Connected);
    assert!(s.on_open("again").is_empty());
    assert!(s.on_pose_subscribe_timer("default").is_empty());
    assert_eq!(
        s.on_subscribe_timer("default", "web-1", b"{\"init\":true}"),
        vec![
            subscribe_packet("home/sensor/temperature", 1),
            subscribe_packet("devices/announce", 2),
            publish_packet("iotcraft/worlds/default/players/web-1/pose", b"{\"init\":true}"),
        ]
    );
    assert_eq!(
        s.on_pose_subscribe_timer("default"),
        vec![subscribe_packet("iotcraft/worlds/default/players/+/pose", 3)]
    );
    // Poses wait for two granted subscriptions.
    assert_eq!(s.on_publish_tick("default", "web-1", &poses), None);
    assert!(matches!(s.on_packet(&suback(1, 0)), WebReceipt::SubAck { packet_id: 1, granted: true }));
    assert!(matches!(s.on_packet(&suback(2, 0x80)), WebReceipt::SubAck { packet_id: 2, granted: false }));
    assert_eq!(s.on_publish_tick("default", "web-1", &poses), None);
    assert!(matches!(s.on_packet(&suback(3, 1)), WebReceipt::SubAck { packet_id: 3, granted: true }));
    assert!(s.subscriptions.pose_confirmed);
    assert_eq!(
        s.on_publish_tick("default", "web-1", &poses),
        Some(vec![publish_packet("iotcraft/worlds/default/players/web-1/pose", b"{\"p\":1}")])
    );
    assert!(matches!(s.on_packet(&[0x20, 0x02, 0x00, 0x00]), WebReceipt::ConnAck(0)));
    let reading = publish_packet("home/sensor/temperature", b"21.5");
    match s.on_packet(&reading) {
        WebReceipt::Message(IncomingRoute::Temperature(t)) => assert_eq!(t, "21.5"),
        other => panic!("unexpected {:?}", other),
    }
}

#[test]
fn outgoing_messages_need_a_connection() {
    let offline = ConnectionState { connected: false, reconnect_attempts: 0 };
    let online = ConnectionState { connected: true, reconnect_attempts: 0 };
    let pose = || OutgoingMqttMessage::PublishPose { topic: "t".to_string(), payload: "{}".to_string() };
    assert!(outgoing_step(&offline, pose()).is_none());
    let p = outgoing_step(&online, pose()).unwrap();
    assert_eq!((p.topic.as_str(), p.qos, p.retain), ("t", QoS::AtMostOnce, false));
    assert!(matches!(p.payload, Payload::Text(ref t) if t == "{}"));
    let info = OutgoingMqttMessage::PublishWorldInfo { topic: "i".to_string(), payload: String::new(), retain: true };
    let p = outgoing_step(&online, info).unwrap();
    assert_eq!((p.qos, p.retain), (QoS::AtMostOnce, true));
    let chunk = OutgoingMqttMessage::PublishWorldChunk { topic: "d".to_string(), payload: vec![1, 2] };
    let p = outgoing_step(&online, chunk).unwrap();
    assert!(matches!(p.payload, Payload::Bytes(ref b) if b == &vec![1u8, 2]));
    assert!(!p.retain);
    let generic = OutgoingMqttMessage::GenericPublish {
        topic: "g".to_string(),
        payload: "ON".to_string(),
        qos: QoS::ExactlyOnce,
        retain: true,
    };
    let p = outgoing_step(&online, generic).unwrap();
    assert_eq!((p.qos, p.retain), (QoS::ExactlyOnce, true));
}

#[test]
fn block_changes_and_announcements() {
    let host = MultiplayerMode::HostingWorld { world_id: "castle".to_string(), is_published: true };
    let change = BlockChangeType::Placed { x: 1, y: 2, z: 3, block_type: BlockType::Stone };
    match block_change_message(&host, "castle", &change, BlockChangeSource::Local, "{}".to_string()) {
        Some(OutgoingMqttMessage::GenericPublish { topic, payload, qos, retain }) => {
            assert_eq!(topic, "iotcraft/worlds/castle/state/blocks/placed");
            assert_eq!(payload, "{}");
            assert_eq!(qos, QoS::AtLeastOnce);
            assert!(!retain);
        }
        other => panic!("unexpected {:?}", other),
    }
    assert!(block_change_message(&host, "castle", &change, BlockChangeSource::Remote, "{}".to_string()).is_none());
    assert!(block_change_message(&host, "other", &change, BlockChangeSource::Local, "{}".to_string()).is_none());
    match device_announcement_message("{}".to_string()) {
        OutgoingMqttMessage::GenericPublish { topic, qos, retain, .. } => {
            assert_eq!(topic, "devices/announce");
            assert_eq!(qos, QoS::AtMostOnce);
            assert!(!retain);
        }
        other => panic!("unexpected {:?}", other),
    }
    let m = world_publish_messages("castle_1", "{\"w\":1}".to_string(), vec![7]);
    assert!(matches!(&m[0], OutgoingMqttMessage::PublishWorldInfo { topic, retain: true, .. } if topic == "iotcraft/worlds/castle_1/info"));
    assert!(matches!(&m[1], OutgoingMqttMessage::PublishWorldChunk { topic, payload } if topic == "iotcraft/worlds/castle_1/data" && payload == &vec![7u8]));
    let m = world_unpublish_messages("castle_1");
    assert!(matches!(&m[0], OutgoingMqttMessage::PublishWorldInfo { payload, retain: true, .. } if payload.is_empty()));
    assert!(matches!(&m[1], OutgoingMqttMessage::PublishWorldChunk { payload, .. } if payload.is_empty()));
}

#[test]
fn spawn_commands_reply_once_read() {
    let cmd = parse_command("spawn lamp-1 1.0 2.0 3.0");
    assert_eq!(spawn_reply(&cmd, true), Some("Spawn command sent for device lamp-1".to_string()));
    assert_eq!(spawn_reply(&cmd, false), None);
    let door = parse_command("spawn_door door-1 1 2 3");
    assert_eq!(spawn_reply(&door, true), Some("Spawn door command sent for device door-1".to_string()));
    assert_eq!(spawn_reply(&parse_command("list"), true), None);
}
