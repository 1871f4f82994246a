use iotcraft_client::commands::{answers_request, console_reply, request_answer, take_console_commands};
use iotcraft_client::commands::{
    check_line_fits, execute_command, execute_pending_commands, execute_pending_commands_web,
    parse_command, parse_web_command, split_request_id, web_guard, BlinkAction, ConsoleCommand,
    GameState, MqttAction, WebCommand,
};
use iotcraft_client::world::{BlockType, VoxelWorld};

#[test]
fn request_ids_are_split_at_the_last_marker() {
    assert_eq!(
        split_request_id("place stone 1 2 3 #req-7"),
        ("place stone 1 2 3".to_string(), Some("req-7".to_string()))
    );
    assert_eq!(split_request_id("list"), ("list".to_string(), None));
    assert_eq!(
        split_request_id("a #b #c"),
        ("a #b".to_string(), Some("c".to_string()))
    );
    assert_eq!(split_request_id("x#y"), ("x#y".to_string(), None));
    assert_eq!(split_request_id(" #"), ("".to_string(), Some("".to_string())));
}

#[test]
fn commands_are_parsed() {
    match parse_command("place stone 1 -2 3") {
        ConsoleCommand::Place { block, pos } => {
            assert_eq!(block, BlockType::Stone);
            assert_eq!(pos, (1, -2, 3));
        }
        other => panic!("unexpected {:?}", other),
    }
    match parse_command("place lava 1 2 3") {
        ConsoleCommand::InvalidPlaceBlock { name } => assert_eq!(name, "lava"),
        other => panic!("unexpected {:?}", other),
    }
    assert!(matches!(parse_command("place stone 1 2"), ConsoleCommand::Ignored));
    assert!(matches!(parse_command("place lava x 2 3"), ConsoleCommand::Ignored));
    assert!(matches!(parse_command("place stone 1 2 99999999999"), ConsoleCommand::Ignored));
    assert!(matches!(parse_command("   "), ConsoleCommand::Empty));
    assert!(matches!(parse_command("dance"), ConsoleCommand::Unknown));
    assert!(matches!(parse_command("blink start"), ConsoleCommand::Blink(BlinkAction::Start)));
    assert!(matches!(parse_command("blink faster"), ConsoleCommand::Blink(BlinkAction::Usage)));
    assert!(matches!(parse_command("blink"), ConsoleCommand::Ignored));
    assert!(matches!(parse_command("mqtt temp"), ConsoleCommand::Mqtt(MqttAction::Temperature)));
    assert!(matches!(parse_command("remove +4 5 -6"), ConsoleCommand::Remove { pos: (4, 5, -6) }));
    assert!(matches!(
        parse_command("give water 12"),
        ConsoleCommand::Give { block: BlockType::Water, quantity: 12 }
    ));
    assert!(matches!(parse_command("give water -1"), ConsoleCommand::Ignored));
    match parse_command("create_world Pond  a small\tpond") {
        ConsoleCommand::CreateWorld { name, description } => {
            assert_eq!(name, "Pond");
            assert_eq!(description, "a small pond");
        }
        other => panic!("unexpected {:?}", other),
    }
    assert!(matches!(parse_command("create_world Pond"), ConsoleCommand::CreateWorldUsage));
    assert!(matches!(
        parse_command("set_game_state InGame"),
        ConsoleCommand::SetGameState(GameState::InGame)
    ));
    assert!(matches!(
        parse_command("set_game_state ingame"),
        ConsoleCommand::InvalidGameState { .. }
    ));
    match parse_command("spawn lamp1 1.5 2 -3") {
        ConsoleCommand::Spawn { device_id, x, y, z } => {
            assert_eq!((device_id.as_str(), x.as_str(), y.as_str(), z.as_str()), ("lamp1", "1.5", "2", "-3"));
        }
        other => panic!("unexpected {:?}", other),
    }
}

#[test]
fn world_commands_reply_and_edit() {
    let mut w = VoxelWorld::new();
    let r = execute_command(&mut w, "place stone 1 2 3 #abc", true);
    assert_eq!(r.request_id, Some("abc".to_string()));
    assert_eq!(r.console_text, Some("Placed stone block at (1, 2, 3)".to_string()));
    assert!(w.is_block_at((1, 2, 3)));

    let r = execute_command(&mut w, "remove 1 2 3", true);
    assert_eq!(r.console_text, Some("Removed block at (1, 2, 3)".to_string()));
    let r = execute_command(&mut w, "remove 1 2 3", true);
    assert_eq!(r.console_text, Some("No block found at (1, 2, 3)".to_string()));

    let r = execute_command(&mut w, "wall stone 21 1 -26 26 1 -21", true);
    assert_eq!(
        r.console_text,
        Some("Created a wall of stone from (21, 1, -26) to (26, 1, -21) - 36 blocks".to_string())
    );
    assert_eq!(w.block_count(), 36);

    let r = execute_command(&mut w, "wall stone 21 1 -21 26 1 -26", true);
    assert_eq!(
        r.console_text,
        Some("Created a wall of stone from (21, 1, -21) to (26, 1, -26) - 0 blocks".to_string())
    );
    assert_eq!(w.block_count(), 36);

    let r = execute_command(&mut w, "wall lava 0 0 0 1 1 1", true);
    assert_eq!(r.console_text, Some("Invalid block type: lava".to_string()));
    let r = execute_command(&mut w, "give dirt 5", true);
    assert_eq!(r.console_text, Some("Added 5 x dirt".to_string()));
    let r = execute_command(&mut w, "give gold 5", true);
    assert_eq!(r.console_text, Some("Invalid item type: gold".to_string()));
    let r = execute_command(&mut w, "fly away #q1", true);
    assert_eq!(r.console_text, Some("Unknown command: fly away #q1".to_string()));
    assert_eq!(r.request_id, Some("q1".to_string()));
    let r = execute_command(&mut w, "set_game_state Settings", true);
    assert_eq!(r.console_text, Some("Game state set to Settings".to_string()));
    let r = execute_command(&mut w, "set_game_state Settings", false);
    assert_eq!(
        r.console_text,
        Some("NextState<GameState> resource not available for state transition".to_string())
    );
    let r = execute_command(&mut w, "set_game_state", true);
    assert_eq!(r.console_text, Some("Usage: set_game_state <state>".to_string()));
    let r = execute_command(&mut w, "create_world Home my cosy home", true);
    assert_eq!(
        r.console_text,
        Some("Created new world: Home (my cosy home) and transitioned to InGame".to_string())
    );
    let r = execute_command(&mut w, "publish_world", true);
    assert_eq!(r.console_text, Some("Publishing world (multiplayer command executed)".to_string()));
    let r = execute_command(&mut w, "join_world x", true);
    assert_eq!(r.console_text, Some("Joining world (multiplayer command executed)".to_string()));
    let r = execute_command(&mut w, "mqtt what", true);
    assert_eq!(r.console_text, Some("Usage: mqtt [status|temp]".to_string()));
    let r = execute_command(&mut w, "list", true);
    assert_eq!(r.console_text, None);
}

#[test]
fn only_some_commands_answer_their_request() {
    let mut w = VoxelWorld::new();
    let r = execute_command(&mut w, "place stone 1 2 3 #abc", true);
    assert_eq!(
        request_answer(&r),
        Some(("abc".to_string(), "Placed stone block at (1, 2, 3)".to_string()))
    );
    let r = execute_command(&mut w, "place lava 1 2 3 #e1", true);
    assert_eq!(request_answer(&r), Some(("e1".to_string(), "Invalid block type: lava".to_string())));
    let r = execute_command(&mut w, "give dirt 5 #g1", true);
    assert_eq!(r.console_text, Some("Added 5 x dirt".to_string()));
    assert_eq!(request_answer(&r), None);
    let r = execute_command(&mut w, "give gold 5 #g2", true);
    assert_eq!(request_answer(&r), None);
    let r = execute_command(&mut w, "wall lava 0 0 0 1 1 1 #w1", true);
    assert_eq!(r.console_text, Some("Invalid block type: lava".to_string()));
    assert_eq!(request_answer(&r), None);
    let r = execute_command(&mut w, "mqtt what #m1", true);
    assert_eq!(request_answer(&r), None);
    let r = execute_command(&mut w, "place stone 4 4 4", true);
    assert_eq!(request_answer(&r), None);

    assert!(answers_request(&parse_command("list"), false));
    assert!(answers_request(&parse_command("get_client_info"), false));
    assert!(!answers_request(&parse_command("tp 1 2 3"), true));
    assert!(!answers_request(&parse_command("blink start"), true));
    assert!(answers_request(&parse_command("spawn lamp 1 2 3"), true));
    assert!(!answers_request(&parse_command("spawn lamp 1 2 3"), false));
}

#[test]
fn queue_stops_after_an_unknown_game_state() {
    let mut w = VoxelWorld::new();
    let mut pending = vec![
        "place dirt 0 0 0".to_string(),
        "set_game_state Nowhere #r1".to_string(),
        "place dirt 1 1 1".to_string(),
    ];
    let done = execute_pending_commands(&mut w, &mut pending, true);
    assert_eq!(done.len(), 2);
    assert!(pending.is_empty());
    assert_eq!(
        done[1].console_text,
        Some(
            "Invalid game state: Nowhere. Valid states: MainMenu, WorldSelection, InGame, Settings, GameplayMenu"
                .to_string()
        )
    );
    assert!(w.is_block_at((0, 0, 0)));
    assert!(!w.is_block_at((1, 1, 1)));
}

#[test]
fn queue_runs_every_line() {
    let mut w = VoxelWorld::new();
    let mut pending = vec![
        "wall grass 0 0 0 2 0 2".to_string(),
        "".to_string(),
        "remove 1 0 1".to_string(),
    ];
    let done = execute_pending_commands(&mut w, &mut pending, true);
    assert_eq!(done.len(), 3);
    assert!(matches!(done[1].command, ConsoleCommand::Empty));
    assert_eq!(w.block_count(), 8);
}

#[test]
fn huge_walls_do_not_fit() {
    assert!(!check_line_fits("wall stone -2000000000 0 0 2000000000 0 0"));
    assert!(check_line_fits("wall stone 0 0 0 5 3 2"));
    assert!(check_line_fits("list"));
}

#[test]
fn web_commands_normalise_walls() {
    match parse_web_command("wall stone 26 1 -21 21 1 -26") {
        WebCommand::Wall { block, from, to } => {
            assert_eq!(block, BlockType::Stone);
            assert_eq!(from, (21, 1, -26));
            assert_eq!(to, (26, 1, -21));
        }
        other => panic!("unexpected {:?}", other),
    }
    assert!(matches!(parse_web_command("teleport 1 2 3"), WebCommand::Teleport { .. }));
    assert!(matches!(parse_web_command("place lava 1 2 3"), WebCommand::Ignored));
    assert!(matches!(parse_web_command("give stone 3"), WebCommand::Give { block: BlockType::Stone, count: 3 }));
    assert!(matches!(parse_web_command("jump"), WebCommand::Unknown));
}

#[test]
fn web_guard_decisions() {
    assert_eq!(web_guard(true, 5), (false, true));
    assert_eq!(web_guard(true, 20), (true, false));
    assert_eq!(web_guard(false, 5), (true, false));
}

#[test]
fn web_queue_respects_the_guard() {
    let mut w = VoxelWorld::new();
    let mut guard = true;
    let mut pending = vec!["place stone 0 0 0".to_string()];
    let done = execute_pending_commands_web(&mut w, &mut pending, &mut guard);
    assert!(done.is_empty());
    assert!(pending.is_empty());
    assert!(guard);
    assert_eq!(w.block_count(), 0);

    let mut pending: Vec<String> = (0..20).map(|i| format!("place stone {} 0 0", i)).collect();
    let done = execute_pending_commands_web(&mut w, &mut pending, &mut guard);
    assert_eq!(done.len(), 20);
    assert!(!guard);
    assert_eq!(w.block_count(), 20);
}

#[test]
fn console_lines_leave_the_queue() {
    let mut pending = vec![
        "place stone 1 2 3".to_string(),
        "CONSOLE_COMMAND:blink start #req-1".to_string(),
        "CONSOLE_COMMAND:CONSOLE_COMMAND:list".to_string(),
        "wall stone 0 0 0 1 1 1 #req-2".to_string(),
        "CONSOLE_COMMAND:tp 1 # 2 #req-3".to_string(),
    ];
    let taken = take_console_commands(&mut pending);
    assert_eq!(
        pending,
        vec!["place stone 1 2 3".to_string(), "wall stone 0 0 0 1 1 1 #req-2".to_string()]
    );
    assert_eq!(
        taken,
        vec![
            ("blink start".to_string(), Some("req-1".to_string())),
            ("list".to_string(), None),
            ("tp 1 # 2".to_string(), Some("req-3".to_string())),
        ]
    );
    assert_eq!(console_reply("blink start", true), "Attempted to execute console command: blink start");
    assert_eq!(console_reply("blink start", false), "Console not available");
}
