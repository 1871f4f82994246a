use iotcraft_client::mqtt_packet::{publish_packet, subscribe_packet};
use iotcraft_client::routing::{
    classify_web_packet, core_subscriptions, pose_subscription_topic, pose_topic,
    route_incoming_message, route_web_message, world_changes_topic, world_data_topic,
    world_info_topic, ConnectionState, IncomingRoute, SubscriptionTracker, WebPacket,
};

#[test]
fn incoming_messages_are_routed() {
    assert!(matches!(
        route_incoming_message("home/sensor/temperature", b"21.5"),
        IncomingRoute::Temperature(t) if t == "21.5"
    ));
    assert!(matches!(
        route_incoming_message("devices/announce", b"{}"),
        IncomingRoute::DeviceAnnouncement(t) if t == "{}"
    ));
    assert!(matches!(
        route_incoming_message("iotcraft/worlds/w1/info", b"{\"a\":1}"),
        IncomingRoute::WorldInfo(t) if t == "{\"a\":1}"
    ));
    assert!(matches!(
        route_incoming_message("iotcraft/worlds/w1/info", b""),
        IncomingRoute::WorldUnpublished
    ));
    match route_incoming_message("iotcraft/worlds/w1/data", b"{}") {
        IncomingRoute::WorldData { world_id, json } => {
            assert_eq!(world_id, "w1");
            assert_eq!(json, "{}");
        }
        other => panic!("unexpected {:?}", other),
    }
    assert!(matches!(
        route_incoming_message("iotcraft/worlds/w1/data", b""),
        IncomingRoute::WorldRemoved
    ));
    assert!(matches!(
        route_incoming_message("iotcraft/worlds/w1/players/p1/pose", b"{}"),
        IncomingRoute::Pose(_)
    ));
    assert!(matches!(
        route_incoming_message("iotcraft/worlds/w1/pose", b"{}"),
        IncomingRoute::Unhandled
    ));
    assert!(matches!(
        route_incoming_message("devices/announce", &[0xFF, 0xFE]),
        IncomingRoute::Dropped
    ));
    assert!(matches!(route_incoming_message("other", b"x"), IncomingRoute::Unhandled));
}

#[test]
fn web_messages_are_routed() {
    assert!(matches!(
        route_web_message("iotcraft/worlds/default/players/p/pose", b"{}"),
        IncomingRoute::Pose(_)
    ));
    assert!(matches!(
        route_web_message("home/sensor/temperature", b"3"),
        IncomingRoute::Temperature(_)
    ));
    assert!(matches!(
        route_web_message("iotcraft/worlds/w1/info", b"{}"),
        IncomingRoute::Unhandled
    ));
}

#[test]
fn web_packets_are_classified() {
    assert!(matches!(classify_web_packet(&[0x20, 0x02, 0x00, 0x00]), WebPacket::ConnAck(0)));
    match classify_web_packet(&[0x90, 0x03, 0x00, 0x03, 0x01]) {
        WebPacket::SubAck { packet_id, return_codes } => {
            assert_eq!(packet_id, 3);
            assert_eq!(return_codes, vec![0x01]);
        }
        other => panic!("unexpected {:?}", other),
    }
    match classify_web_packet(&publish_packet("t", b"p")) {
        WebPacket::Publish { topic, payload } => {
            assert_eq!(topic, "t");
            assert_eq!(payload, b"p".to_vec());
        }
        other => panic!("unexpected {:?}", other),
    }
    assert!(matches!(classify_web_packet(&subscribe_packet("t", 1)), WebPacket::Other));
}

#[test]
fn subscriptions_are_counted() {
    let mut t = SubscriptionTracker::new();
    assert!(!t.may_publish_poses());
    assert!(t.on_suback(1, &[0x00]));
    assert!(!t.on_suback(2, &[0x80]));
    assert_eq!(t.confirmed, 1);
    assert!(!t.pose_confirmed);
    assert!(t.on_suback(3, &[0x01]));
    assert!(t.pose_confirmed);
    assert!(t.may_publish_poses());
}

#[test]
fn reconnect_backoff_grows_to_thirty_seconds() {
    let mut c = ConnectionState::new();
    assert!(c.on_connack());
    assert!(!c.on_connack());
    assert!(c.may_send());
    assert_eq!(c.on_connection_error(), 2);
    assert!(!c.may_send());
    assert_eq!(c.on_connection_error(), 4);
    for _ in 0..20 {
        c.on_connection_error();
    }
    assert_eq!(c.on_connection_error(), 30);
    assert!(c.on_connack());
    assert_eq!(c.reconnect_attempts, 0);
}

#[test]
fn topics_are_built() {
    assert_eq!(pose_topic("w", "p"), "iotcraft/worlds/w/players/p/pose");
    assert_eq!(pose_subscription_topic("default"), "iotcraft/worlds/default/players/+/pose");
    assert_eq!(world_info_topic("w"), "iotcraft/worlds/w/info");
    assert_eq!(world_data_topic("w"), "iotcraft/worlds/w/data");
    assert_eq!(world_changes_topic("w"), "iotcraft/worlds/w/changes");
    assert_eq!(core_subscriptions().len(), 5);
}
