use iotcraft_client::world::{block_type_from_name, parse_block_type, BlockType, VoxelWorld};

#[test]
fn test_parse_block_type() {
    assert_eq!(parse_block_type("grass"), Some(BlockType::Grass));
    assert_eq!(parse_block_type("STONE"), Some(BlockType::Stone));
    assert_eq!(parse_block_type("invalid"), None);
}

#[test]
fn test_invalid_command_arguments() {
    let mut invalid_args = serde_json::Map::new();
    invalid_args.insert("block_type".to_string(), serde_json::Value::String("stone".to_string()));
    let invalid_args = serde_json::Value::Object(invalid_args);

    assert!(invalid_args.get("x").is_none());

    assert_eq!(parse_block_type("nonexistent"), None);
}

#[test]
fn test_place_block_command_validation() {
    let mut valid_args = serde_json::Map::new();
    valid_args.insert("block_type".to_string(), serde_json::Value::String("stone".to_string()));
    valid_args.insert("x".to_string(), serde_json::Value::from(1));
    valid_args.insert("y".to_string(), serde_json::Value::from(2));
    valid_args.insert("z".to_string(), serde_json::Value::from(3));
    let valid_args = serde_json::Value::Object(valid_args);

    assert!(valid_args.get("block_type").is_some());
    assert!(valid_args.get("x").and_then(|v| v.as_i64()).is_some());
}

#[test]
fn block_names_are_exact() {
    assert_eq!(block_type_from_name("quartz_block"), Some(BlockType::QuartzBlock));
    assert_eq!(block_type_from_name("glass_pane"), Some(BlockType::GlassPane));
    assert_eq!(block_type_from_name("cyan_terracotta"), Some(BlockType::CyanTerracotta));
    assert_eq!(block_type_from_name("water"), Some(BlockType::Water));
    assert_eq!(block_type_from_name("dirt"), Some(BlockType::Dirt));
    assert_eq!(block_type_from_name("Stone"), None);
    assert_eq!(BlockType::CyanTerracotta.name(), "cyan_terracotta");
    assert_eq!(parse_block_type("Quartz_Block"), Some(BlockType::QuartzBlock));
}

#[test]
fn test_wall_command_coordinate_ordering_regression() {
    let mut voxel_world = VoxelWorld::new();
    let initial_count = voxel_world.block_count();

    let (x1, y1, z1) = (21, 1, -21);
    let (x2, y2, z2) = (26, 1, -26);

    let mut blocks_added = 0;
    for x in x1..=x2 {
        for y in y1..=y2 {
            for z in z1..=z2 {
                voxel_world.set_block((x, y, z), BlockType::Stone);
                blocks_added += 1;
            }
        }
    }

    assert_eq!(
        blocks_added, 0,
        "Backwards Z coordinates (-21 to -26) should create 0 blocks"
    );
    assert_eq!(
        voxel_world.block_count(),
        initial_count,
        "VoxelWorld should have no new blocks with invalid coordinate range"
    );

    let (x1, y1, z1) = (21, 1, -26);
    let (x2, y2, z2) = (26, 1, -21);

    let mut blocks_added_correct = 0;
    for x in x1..=x2 {
        for y in y1..=y2 {
            for z in z1..=z2 {
                voxel_world.set_block((x, y, z), BlockType::Stone);
                blocks_added_correct += 1;
            }
        }
    }

    assert_eq!(
        blocks_added_correct, 36,
        "Correctly ordered coordinates should create 36 blocks"
    );
    assert_eq!(
        voxel_world.block_count(),
        initial_count + 36,
        "VoxelWorld should have 36 new blocks with valid coordinate range"
    );
}

#[test]
fn test_new_world_script_pond_coordinates() {
    let mut voxel_world = VoxelWorld::new();

    let mut north_wall_blocks = 0;
    for x in 21..=26 {
        for y in 1..=1 {
            for z in -26..=-26 {
                voxel_world.set_block((x, y, z), BlockType::Stone);
                north_wall_blocks += 1;
            }
        }
    }
    assert_eq!(north_wall_blocks, 6, "North wall should have 6 blocks");

    let mut water_blocks = 0;
    for x in 22..=25 {
        for y in 1..=1 {
            for z in -25..=-22 {
                voxel_world.set_block((x, y, z), BlockType::Water);
                water_blocks += 1;
            }
        }
    }
    assert_eq!(water_blocks, 16, "Water area should have 4x4 = 16 blocks");
}

#[test]
fn set_get_remove_blocks() {
    let mut w = VoxelWorld::new();
    assert_eq!(w.block_count(), 0);
    w.set_block((1, 2, 3), BlockType::Dirt);
    w.set_block((1, 2, 3), BlockType::Stone);
    assert_eq!(w.block_count(), 1);
    assert_eq!(w.get_block((1, 2, 3)), Some(BlockType::Stone));
    assert!(w.is_block_at((1, 2, 3)));
    assert!(!w.is_block_at((3, 2, 1)));
    assert_eq!(w.remove_block((1, 2, 3)), Some(BlockType::Stone));
    assert_eq!(w.remove_block((1, 2, 3)), None);
    assert_eq!(w.block_count(), 0);
}

#[test]
fn fill_box_counts_and_places() {
    let mut w = VoxelWorld::new();
    assert_eq!(w.fill_box((0, 0, 0), (5, 3, 2), BlockType::Stone), 72);
    assert_eq!(w.block_count(), 72);
    assert_eq!(w.get_block((5, 3, 2)), Some(BlockType::Stone));
    assert_eq!(w.get_block((6, 3, 2)), None);
    assert_eq!(w.fill_box((0, 0, 0), (5, 3, 2), BlockType::Stone), 72);
    assert_eq!(w.block_count(), 72);
    assert_eq!(w.fill_box((21, 1, -21), (26, 1, -26), BlockType::Water), 0);
    assert_eq!(w.block_count(), 72);
    assert_eq!(w.fill_box((-1, -1, -1), (-1, -1, -1), BlockType::Grass), 1);
    assert_eq!(w.block_count(), 73);
}

#[test]
fn place_then_remove_leaves_no_block() {
    let mut w = VoxelWorld::new();
    w.set_block((7, 7, 7), BlockType::GlassPane);
    w.set_block((8, 8, 8), BlockType::Dirt);
    w.remove_block((7, 7, 7));
    assert!(!w.is_block_at((7, 7, 7)));
    assert_eq!(w.get_block((8, 8, 8)), Some(BlockType::Dirt));
}

#[test]
fn saved_block_lists_reload() {
    let mut w = VoxelWorld::new();
    w.fill_box((0, 0, 0), (2, 2, 2), BlockType::Dirt);
    w.set_block((9, 9, 9), BlockType::Water);
    let saved = w.blocks();
    assert_eq!(saved.len(), 28);
    let mut other = VoxelWorld::new();
    other.set_block((100, 100, 100), BlockType::Grass);
    other.replace_blocks(&saved);
    assert_eq!(other.block_count(), 28);
    assert_eq!(other.get_block((9, 9, 9)), Some(BlockType::Water));
    assert!(!other.is_block_at((100, 100, 100)));
    let list = vec![((1, 1, 1), BlockType::Stone), ((1, 1, 1), BlockType::Grass)];
    other.replace_blocks(&list);
    assert_eq!(other.block_count(), 1);
    assert_eq!(other.get_block((1, 1, 1)), Some(BlockType::Grass));
}

#[test]
fn basic_terrain_is_built_once() {
    let mut world = VoxelWorld::new();
    let mut done = false;
    assert!(iotcraft_client::scene::setup_basic_scene_once(&mut world, &mut done));
    assert!(done);
    // 31 x 31 ground, a 6 x 2 x 6 hill and a 6 x 3 x 6 hill with a 6 x 6 top.
    assert_eq!(world.block_count(), 961 + 72 + 108 + 36);
    assert_eq!(world.get_block((-7, 0, -7)), Some(BlockType::Grass));
    assert_eq!(world.get_block((-7, 2, -7)), Some(BlockType::Dirt));
    assert_eq!(world.get_block((-7, 3, -7)), None);
    assert_eq!(world.get_block((7, 3, 7)), Some(BlockType::Dirt));
    assert_eq!(world.get_block((7, 4, 7)), Some(BlockType::Grass));
    assert_eq!(world.get_block((15, 0, -15)), Some(BlockType::Grass));
    assert_eq!(world.get_block((16, 0, 0)), None);
    assert!(!iotcraft_client::scene::setup_basic_scene_once(&mut world, &mut done));
    assert_eq!(world.block_count(), 1177);
}
