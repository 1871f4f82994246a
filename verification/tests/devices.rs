use iotcraft_client::devices::{blink_commands, light_topic, BlinkState};
use iotcraft_client::platform::is_mobile_device;
use iotcraft_client::world::{BlockType, VoxelWorld};

fn devices() -> Vec<(String, String)> {
    vec![
        ("lamp-1".to_string(), "lamp".to_string()),
        ("door-1".to_string(), "door".to_string()),
        ("lamp-2".to_string(), "lamp".to_string()),
    ]
}

#[test]
fn light_topic_names_the_device() {
    assert_eq!(light_topic("lamp-7"), "home/lamp-7/light");
}

#[test]
fn blink_sends_to_lamps_once() {
    let mut state = BlinkState { light_state: true, last_sent: false };
    let out = blink_commands(&mut state, &devices());
    assert_eq!(
        out,
        vec![("home/lamp-1/light".to_string(), "ON"), ("home/lamp-2/light".to_string(), "ON")]
    );
    assert_eq!(state, BlinkState { light_state: true, last_sent: true });
    // Nothing changed since: nothing is sent.
    assert!(blink_commands(&mut state, &devices()).is_empty());
    state.light_state = false;
    let out = blink_commands(&mut state, &devices());
    assert_eq!(out.len(), 2);
    assert!(out.iter().all(|(_, p)| *p == "OFF"));
    assert!(!state.last_sent);
}

#[test]
fn mobile_devices_are_recognised() {
    assert!(is_mobile_device(Some("Mozilla/5.0 (iPhone; CPU iPhone OS 17_0 like Mac OS X)"), false));
    assert!(is_mobile_device(Some("Mozilla/5.0 (Linux; ANDROID 14)"), false));
    assert!(!is_mobile_device(Some("Mozilla/5.0 (X11; Linux x86_64) Firefox/128.0"), false));
    assert!(is_mobile_device(Some("Mozilla/5.0 (X11; Linux x86_64) Firefox/128.0"), true));
    assert!(!is_mobile_device(None, false));
}

#[test]
fn block_textures() {
    assert_eq!(BlockType::Grass.texture_path(), "textures/grass.webp");
    assert_eq!(BlockType::CyanTerracotta.texture_path(), "textures/cyan_terracotta.webp");
    assert_eq!(BlockType::Water.texture_path(), "textures/water.webp");
}

#[test]
fn clearing_the_world_removes_every_block() {
    let mut world = VoxelWorld::new();
    world.set_block((1, 2, 3), BlockType::Stone);
    world.set_block((4, 5, 6), BlockType::Dirt);
    world.clear();
    assert_eq!(world.block_count(), 0);
    assert!(!world.is_block_at((1, 2, 3)));
}
