use iotcraft_client::client_id::{extract_client_number, format_client_id, generate_unique_client_id};
use iotcraft_client::devices::{announcement_action, is_registered, AnnouncementAction, DeviceType};
use std::collections::HashSet;
use std::time::{SystemTime, UNIX_EPOCH};

fn now_millis() -> u128 {
    SystemTime::now().duration_since(UNIX_EPOCH).unwrap_or_default().as_millis()
}

#[test]
fn test_unique_client_id_generation() {
    let mut ids = HashSet::new();

    for _ in 0..100 {
        let start = now_millis();
        let mut millis = now_millis();
        while millis == start {
            millis = now_millis();
        }
        let id = generate_unique_client_id("test", millis, 4242);
        assert!(!ids.contains(&id), "Duplicate ID generated: {}", id);
        ids.insert(id);
    }
}

#[test]
fn test_client_id_format() {
    let id = generate_unique_client_id("iotcraft-discovery", now_millis(), 4242);

    assert!(id.starts_with("iotcraft-discovery-"));

    let parts: Vec<&str> = id.split('-').collect();
    assert!(parts.len() >= 4, "ID should have at least 4 parts: {}", id);

    assert!(id.len() > 10 && id.len() < 100);
}

#[test]
fn client_ids_are_formatted() {
    assert_eq!(format_client_id("web", 1700000000123, 77, 65535), "web-1700000000123-77-65535");
}

#[test]
fn client_numbers_are_extracted() {
    assert_eq!(extract_client_number("player-1"), Some(1));
    assert_eq!(extract_client_number("client-42"), Some(42));
    assert_eq!(extract_client_number("2"), Some(2));
    assert_eq!(extract_client_number("player7"), Some(7));
    assert_eq!(extract_client_number("test-123"), Some(123));
    assert_eq!(extract_client_number("abc"), None);
    assert_eq!(extract_client_number("player-"), None);
    assert_eq!(extract_client_number("x99999999999"), None);
}

#[test]
fn device_types_and_announcements() {
    assert_eq!(DeviceType::from_str("door"), Some(DeviceType::Door));
    assert_eq!(DeviceType::from_str("Door"), None);
    assert_eq!(DeviceType::Sensor.as_str(), "sensor");
    assert_eq!(
        announcement_action("online", "lamp", false),
        AnnouncementAction::Spawn(DeviceType::Lamp)
    );
    assert_eq!(announcement_action("online", "lamp", true), AnnouncementAction::AlreadyRegistered);
    assert_eq!(announcement_action("online", "fridge", false), AnnouncementAction::UnknownType);
    assert_eq!(announcement_action("offline", "fridge", true), AnnouncementAction::Remove);
    assert_eq!(announcement_action("sleeping", "lamp", false), AnnouncementAction::Ignore);
    let ids = vec!["lamp_1".to_string(), "door_2".to_string()];
    assert!(is_registered(&ids, "door_2"));
    assert!(!is_registered(&ids, "door_3"));
}

#[test]
fn distinct_parts_give_distinct_ids() {
    let a = iotcraft_client::client_id::format_client_id("p", 12, 3, 4);
    let b = iotcraft_client::client_id::format_client_id("p", 1, 23, 4);
    let c = iotcraft_client::client_id::format_client_id("p", 12, 34, 0);
    assert_ne!(a, b);
    assert_ne!(a, c);
    assert_eq!(a, "p-12-3-4");
}
