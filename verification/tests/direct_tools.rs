use iotcraft_client::commands::GameState;
use iotcraft_client::mcp::reply_is_error;
use iotcraft_client::mcp_direct::{
    check_template_fits, control_device_reply, create_world_request, direct_create_wall,
    direct_load_world, direct_load_world_by_name, direct_place_block, direct_publish_world,
    direct_set_game_state, load_world_by_file_reply, run_world_template, save_world_reply,
    start_new_world, template_missing_message, template_path, template_step,
    wait_for_condition_reply, world_created_message, TemplateStep,
};
use iotcraft_client::world::{BlockType, VoxelWorld};

const TEMPLATE: &str = "# Medieval Template\n\
# A small castle\n\
\n\
place stone 0 0 0\r\n\
wall stone 2 1 0 0 0 0\n\
tp 1.5 2 3\n\
look 90 -10\n\
give grass 5\n\
place water 5 5 5\n\
place lava 1 1 1\n\
wall stone 0 0\n";

#[test]
fn template_lines_are_read() {
    assert!(matches!(template_step("   # place stone 1 2 3"), TemplateStep::Skip));
    assert!(matches!(template_step(""), TemplateStep::Skip));
    assert!(matches!(
        template_step("  place grass 1 -2 3  "),
        TemplateStep::Place { block: BlockType::Grass, pos: (1, -2, 3) }
    ));
    assert!(matches!(
        template_step("wall dirt 3 0 5 1 2 4"),
        TemplateStep::Wall { block: BlockType::Dirt, from: (1, 0, 4), to: (3, 2, 5) }
    ));
    match template_step("tp 1.5 2 3") {
        TemplateStep::Teleport { x, y, z } => {
            assert_eq!((x.as_str(), y.as_str(), z.as_str()), ("1.5", "2", "3"));
        }
        other => panic!("unexpected step {:?}", other),
    }
    match template_step("look 90 -10") {
        TemplateStep::Look { yaw, pitch } => assert_eq!((yaw.as_str(), pitch.as_str()), ("90", "-10")),
        other => panic!("unexpected step {:?}", other),
    }
    assert!(matches!(template_step("teleport 1 2 3"), TemplateStep::Skip));
    assert!(matches!(template_step("place Grass 1 2 3"), TemplateStep::Skip));
    assert!(matches!(template_step("give grass 5"), TemplateStep::Skip));
}

#[test]
fn template_builds_its_blocks() {
    assert!(check_template_fits(TEMPLATE));
    let mut world = VoxelWorld::new();
    world.set_block((9, 9, 9), BlockType::Dirt);
    let (created, steps) = run_world_template(&mut world, TEMPLATE);
    // One placed block, a 3 x 2 x 1 wall and one water block.
    assert_eq!(created, 1 + 6 + 1);
    // The wall covers the placed block; the dirt block stays.
    assert_eq!(world.block_count(), 6 + 1 + 1);
    assert_eq!(world.get_block((0, 0, 0)), Some(BlockType::Stone));
    assert_eq!(world.get_block((2, 1, 0)), Some(BlockType::Stone));
    assert_eq!(world.get_block((5, 5, 5)), Some(BlockType::Water));
    assert_eq!(world.get_block((1, 1, 1)), None);
    assert_eq!(world.get_block((9, 9, 9)), Some(BlockType::Dirt));
    assert_eq!(steps.len(), 12);
    assert!(steps.iter().filter(|s| matches!(s, TemplateStep::Teleport { .. })).count() == 1);
    assert!(steps.iter().filter(|s| matches!(s, TemplateStep::Look { .. })).count() == 1);
}

#[test]
fn new_world_starts_empty() {
    let mut world = VoxelWorld::new();
    world.set_block((9, 9, 9), BlockType::Dirt);
    assert!(start_new_world(&mut world, None).is_none());
    assert_eq!(world.block_count(), 0);
    world.set_block((9, 9, 9), BlockType::Dirt);
    let (created, _) = start_new_world(&mut world, Some("place grass 1 1 1\nplace grass 1 1 1\n")).unwrap();
    assert_eq!(created, 2);
    assert_eq!(world.block_count(), 1);
    assert_eq!(world.get_block((9, 9, 9)), None);
}

#[test]
fn oversized_template_is_refused() {
    assert!(!check_template_fits("wall stone 0 0 0 2000 2000 2000"));
    assert!(check_template_fits("wall stone 0 0 0 9 9 9\nplace stone 1 1 1"));
}

#[test]
fn create_world_arguments() {
    assert_eq!(
        create_world_request(None, None, None).err().unwrap(),
        "Error: world_name is required for create_world"
    );
    let req = create_world_request(Some("castle"), None, None).ok().unwrap();
    assert_eq!(req.world_name, "castle");
    assert_eq!(req.description, "A new world created via MCP");
    assert_eq!(req.template, "default");
    assert_eq!(template_path(&req.template), "scripts/world_templates/default.txt");
    assert_eq!(
        world_created_message(&req),
        "Created new world: castle (A new world created via MCP) using template 'default' and transitioned to InGame"
    );
    assert_eq!(
        template_missing_message("moon"),
        "Error: Template 'moon' not found. Available templates: default, medieval, modern, creative"
    );
}

#[test]
fn direct_place_refuses_water() {
    let mut world = VoxelWorld::new();
    assert_eq!(
        direct_place_block(&mut world, Some("Water"), Some(1), Some(2), Some(3)),
        "Error: Unknown block type 'Water'. Valid types: grass, dirt, stone, quartz_block, glass_pane, cyan_terracotta"
    );
    assert_eq!(world.block_count(), 0);
    assert_eq!(
        direct_place_block(&mut world, Some("STONE"), Some(1), Some(2), Some(-3)),
        "Placed STONE block at (1, 2, -3)"
    );
    assert_eq!(world.get_block((1, 2, -3)), Some(BlockType::Stone));
    assert_eq!(
        direct_place_block(&mut world, Some("stone"), None, Some(2), Some(3)),
        "Error: place_block requires block_type, x, y, z parameters"
    );
}

#[test]
fn direct_wall_counts_blocks() {
    let mut world = VoxelWorld::new();
    let reply = direct_create_wall(&mut world, Some("stone"), Some(5), Some(2), Some(1), Some(0), Some(0), Some(-1));
    assert_eq!(reply, "Created stone wall from (5,2,1) to (0,0,-1) - 54 blocks placed");
    assert_eq!(world.block_count(), 54);
    assert!(world.is_block_at((0, 0, -1)));
    assert!(world.is_block_at((5, 2, 1)));
}

#[test]
fn direct_game_state() {
    assert_eq!(
        direct_set_game_state(Some("Main_Menu"), true),
        ("Game state will be set to MainMenu on next frame (MCP transition)".to_string(), Some(GameState::MainMenu))
    );
    assert_eq!(
        direct_set_game_state(Some("ingame"), false),
        ("Error: Game state resource not available".to_string(), None)
    );
    assert_eq!(direct_set_game_state(Some("flying"), true).1, None);
    assert_eq!(
        direct_set_game_state(None, true).0,
        "Error: state parameter is required for set_game_state"
    );
}

#[test]
fn direct_publish_needs_a_name() {
    assert_eq!(
        direct_publish_world(None, Some(4), None).err().unwrap(),
        "Error: world_name is required for publish_world"
    );
    let (req, msg) = direct_publish_world(Some("castle"), None, Some(false)).ok().unwrap();
    assert_eq!(req.world_name, "castle");
    assert_eq!(req.max_players, 10);
    assert!(!req.is_public);
    assert_eq!(msg, "World 'castle' published for multiplayer (max_players: 10, public: false)");
}

#[test]
fn direct_text_replies() {
    assert_eq!(
        direct_load_world_by_name(Some("castle")),
        ("Loaded world 'castle' and transitioned to InGame".to_string(), Some("castle".to_string()))
    );
    assert_eq!(direct_load_world_by_name(None).1, None);
    assert_eq!(
        direct_load_world(Some("castle")).0,
        "Loading world 'castle' from filesystem and transitioning to InGame state"
    );
    assert_eq!(direct_load_world(None).0, "Error: load_world requires world_name parameter");
    assert_eq!(save_world_reply(Some("a.json")), "World saved to file: a.json");
    assert_eq!(load_world_by_file_reply(Some("a.json")), "World loaded from file: a.json");
    assert_eq!(load_world_by_file_reply(None), "Error: load_world_by_file requires filename parameter");
    assert_eq!(control_device_reply(Some("lamp-1"), Some("ON")), "Sent 'ON' command to device 'lamp-1'");
    assert_eq!(
        control_device_reply(Some("lamp-1"), None),
        "Error: control_device requires device_id and command parameters"
    );
    assert_eq!(
        wait_for_condition_reply(Some("door_open"), None, None),
        "Waiting for condition 'door_open' (timeout: 30s)"
    );
    assert_eq!(
        wait_for_condition_reply(Some("door_open"), Some(5), Some("true")),
        "Waiting for condition 'door_open' = 'true' (timeout: 5s)"
    );
    assert_eq!(
        wait_for_condition_reply(None, None, None),
        "Error: wait_for_condition requires condition parameter"
    );
}

#[test]
fn error_replies_are_flagged() {
    assert!(reply_is_error("Error: No camera found to teleport"));
    assert!(!reply_is_error("Placed stone block at (1, 2, 3)"));
    assert!(!reply_is_error("error: lower case"));
}
