use iotcraft_client::commands::GameState;
use iotcraft_client::multiplayer::{
    apply_remote_block_change, apply_world_change, block_change_topic,
    shared_world_info_for_publish, BlockChangeSource, BlockChangeType,
    MultiplayerConnectionStatus, MultiplayerMode, PublishWorldEvent, WorldChangeType,
};
use iotcraft_client::world::{BlockType, VoxelWorld};

#[test]
fn test_multiplayer_mode_default() {
    let mode = MultiplayerMode::default();
    assert_eq!(mode, MultiplayerMode::SinglePlayer);
}

#[test]
fn test_multiplayer_mode_equality() {
    let single_player = MultiplayerMode::SinglePlayer;
    let hosting = MultiplayerMode::HostingWorld {
        world_id: "world_123".to_string(),
        is_published: true,
    };
    let hosting_same = MultiplayerMode::HostingWorld {
        world_id: "world_123".to_string(),
        is_published: true,
    };
    let hosting_different = MultiplayerMode::HostingWorld {
        world_id: "world_456".to_string(),
        is_published: true,
    };
    let joined = MultiplayerMode::JoinedWorld {
        world_id: "world_123".to_string(),
        host_player: "host_001".to_string(),
    };

    assert_eq!(single_player, MultiplayerMode::SinglePlayer);
    assert_eq!(hosting, hosting_same);
    assert_ne!(hosting, hosting_different);
    assert_ne!(hosting, joined);
    assert_ne!(single_player, hosting);
}

#[test]
fn publish_uses_the_loaded_world_name() {
    let mut m = MultiplayerMode::default();
    m.publish_world(Some("Castle"), "Ignored", true);
    assert_eq!(
        m,
        MultiplayerMode::HostingWorld { world_id: "Castle".to_string(), is_published: true }
    );
    m.publish_world(None, "Meadow", false);
    assert_eq!(
        m,
        MultiplayerMode::HostingWorld { world_id: "Meadow".to_string(), is_published: false }
    );
    m.unpublish_world();
    assert_eq!(m, MultiplayerMode::SinglePlayer);
}

#[test]
fn join_and_leave() {
    let mut m = MultiplayerMode::default();
    assert!(m.join_shared_world("w1", Some("alice"), true));
    assert_eq!(
        m,
        MultiplayerMode::JoinedWorld { world_id: "w1".to_string(), host_player: "alice".to_string() }
    );
    assert!(m.loads_world_state("w1"));
    assert!(!m.loads_world_state("w2"));
    assert!(!m.join_shared_world("w2", None, true));
    assert_eq!(
        m,
        MultiplayerMode::JoinedWorld {
            world_id: "w2".to_string(),
            host_player: "unknown_host".to_string()
        }
    );
    m.leave_shared_world();
    assert_eq!(m, MultiplayerMode::SinglePlayer);
    assert!(!m.loads_world_state("w2"));
}

#[test]
fn auto_enable_only_when_all_conditions_hold() {
    let mut m = MultiplayerMode::default();
    m.auto_enable(false, true, Some("World"));
    assert_eq!(m, MultiplayerMode::SinglePlayer);
    m.auto_enable(true, false, Some("World"));
    assert_eq!(m, MultiplayerMode::SinglePlayer);
    m.auto_enable(true, true, None);
    assert_eq!(m, MultiplayerMode::SinglePlayer);
    m.auto_enable(true, true, Some("World"));
    let enabled = MultiplayerMode::HostingWorld { world_id: "World".to_string(), is_published: false };
    assert_eq!(m, enabled);
    m.auto_enable(true, true, Some("Other"));
    assert_eq!(m, enabled);
}

#[test]
fn auto_transition_from_world_selection() {
    let single = MultiplayerMode::SinglePlayer;
    let hosting = MultiplayerMode::HostingWorld { world_id: "a".to_string(), is_published: true };
    assert_eq!(hosting.auto_transition(GameState::WorldSelection), Some(GameState::InGame));
    assert_eq!(hosting.auto_transition(GameState::MainMenu), None);
    assert_eq!(single.auto_transition(GameState::WorldSelection), None);
    assert!(hosting.broadcasts_world_changes());
    assert!(!single.tracks_player_positions());
}

#[test]
fn block_changes_are_routed() {
    let hosting = MultiplayerMode::HostingWorld { world_id: "w".to_string(), is_published: true };
    let placed = BlockChangeType::Placed { x: 1, y: 2, z: 3, block_type: BlockType::Stone };
    let removed = BlockChangeType::Removed { x: 1, y: 2, z: 3 };
    assert_eq!(
        block_change_topic(&hosting, "w", &placed, BlockChangeSource::Local),
        Some("iotcraft/worlds/w/state/blocks/placed".to_string())
    );
    assert_eq!(
        block_change_topic(&hosting, "w", &removed, BlockChangeSource::Local),
        Some("iotcraft/worlds/w/state/blocks/removed".to_string())
    );
    assert_eq!(block_change_topic(&hosting, "w", &placed, BlockChangeSource::Remote), None);
    assert_eq!(block_change_topic(&hosting, "x", &placed, BlockChangeSource::Local), None);
    assert_eq!(
        block_change_topic(&MultiplayerMode::SinglePlayer, "w", &placed, BlockChangeSource::Local),
        None
    );
}

#[test]
fn connection_status_enables_multiplayer() {
    assert!(MultiplayerConnectionStatus { connection_available: true }.is_multiplayer_enabled());
    assert!(!MultiplayerConnectionStatus { connection_available: false }.is_multiplayer_enabled());
}

#[test]
fn remote_changes_are_applied_local_ones_skipped() {
    let mut w = VoxelWorld::new();
    let placed = BlockChangeType::Placed { x: 48, y: 16, z: 80, block_type: BlockType::QuartzBlock };
    assert!(!apply_remote_block_change(&mut w, &placed, BlockChangeSource::Local));
    assert_eq!(w.block_count(), 0);
    assert!(apply_remote_block_change(&mut w, &placed, BlockChangeSource::Remote));
    assert_eq!(w.get_block((48, 16, 80)), Some(BlockType::QuartzBlock));
    let removed = BlockChangeType::Removed { x: 48, y: 16, z: 80 };
    assert!(apply_remote_block_change(&mut w, &removed, BlockChangeSource::Remote));
    assert_eq!(w.block_count(), 0);
}

#[test]
fn world_changes_edit_blocks_only() {
    let mut w = VoxelWorld::new();
    apply_world_change(&mut w, &WorldChangeType::BlockPlaced { x: 10, y: 5, z: -3, block_type: BlockType::Stone });
    assert_eq!(w.get_block((10, 5, -3)), Some(BlockType::Stone));
    apply_world_change(
        &mut w,
        &WorldChangeType::PlayerJoined { player_id: "p".to_string(), player_name: "P".to_string() },
    );
    assert_eq!(w.block_count(), 1);
    apply_world_change(&mut w, &WorldChangeType::BlockRemoved { x: -2, y: 5, z: 8 });
    assert_eq!(w.block_count(), 1);
    apply_world_change(&mut w, &WorldChangeType::BlockRemoved { x: 10, y: 5, z: -3 });
    assert_eq!(w.block_count(), 0);
}

#[test]
fn published_world_description() {
    let event = PublishWorldEvent { world_name: "Castle".to_string(), max_players: 4, is_public: true };
    let info = shared_world_info_for_publish(&event, 1704067200000, "player_001", "2024-01-01T00:00:00Z");
    assert_eq!(info.world_id, "Castle_1704067200000");
    assert_eq!(info.description, "World shared from desktop: Castle");
    assert_eq!(info.host_name, "DesktopHost");
    assert_eq!(info.host_player, "player_001");
    assert_eq!(info.player_count, 1);
    assert_eq!(info.max_players, 4);
    assert!(info.is_public);
    assert_eq!(info.version, "1.0.0");
    assert_eq!(info.created_at, "2024-01-01T00:00:00Z");
}
