use iotcraft_client::mcp::{
    count_block_types, mcp_load_world_from_mqtt, mqtt_health, JsonRpcNotification, JsonRpcRequest,
    JsonRpcResponse, LoadFromMqtt,
};
use iotcraft_client::commands::GameState;
use iotcraft_client::mcp::{
    check_wall_fits, classify_message, classify_tool, mcp_create_wall, mcp_join_world,
    mcp_leave_world, mcp_place_block, mcp_publish_world, mcp_remove_block, mcp_set_game_state,
    mcp_unpublish_world, method_not_found_message, precheck_request, reply_for, route_method,
    route_tool_call, unknown_tool_message, Delivery, McpMessageKind, McpMethod, McpTool, RpcReply,
    ToolCallRoute, INTERNAL_ERROR, INVALID_PARAMS, INVALID_REQUEST, METHOD_NOT_FOUND, MCP_VERSION,
};
use iotcraft_client::multiplayer::MultiplayerMode;
use iotcraft_client::world::{BlockType, VoxelWorld};

#[test]
fn error_codes_follow_json_rpc() {
    assert_eq!(METHOD_NOT_FOUND, -32601);
    assert_eq!(INVALID_PARAMS, -32602);
    assert_eq!(INVALID_REQUEST, -32600);
    assert_eq!(INTERNAL_ERROR, -32603);
    assert_eq!(MCP_VERSION, "2024-11-05");
}

#[test]
fn messages_are_classified() {
    assert_eq!(classify_message(true, true, false, false), Some(McpMessageKind::Request));
    assert_eq!(classify_message(true, false, true, false), Some(McpMessageKind::Response));
    assert_eq!(classify_message(true, false, false, true), Some(McpMessageKind::Response));
    assert_eq!(classify_message(false, true, false, false), Some(McpMessageKind::Notification));
    assert_eq!(classify_message(true, false, false, false), None);
}

#[test]
fn requests_are_answered() {
    assert_eq!(
        precheck_request(false, true),
        Some(RpcReply::Error { code: -32600, message: "Missing method field" })
    );
    assert_eq!(precheck_request(true, false), Some(RpcReply::Nothing));
    assert_eq!(precheck_request(true, true), None);
    assert_eq!(reply_for(Delivery::Answered), RpcReply::Result);
    assert_eq!(
        reply_for(Delivery::TimedOut),
        RpcReply::Error { code: -32603, message: "Request timeout" }
    );
    assert_eq!(
        reply_for(Delivery::SendFailed),
        RpcReply::Error { code: -32603, message: "Internal server error" }
    );
    assert_eq!(
        reply_for(Delivery::ChannelClosed),
        RpcReply::Error { code: -32603, message: "Response channel closed" }
    );
}

#[test]
fn methods_and_tools_are_routed() {
    assert_eq!(route_method("initialize"), McpMethod::Initialize);
    assert_eq!(route_method("tools/call"), McpMethod::ToolsCall);
    assert_eq!(route_method("resources/list"), McpMethod::ResourcesList);
    assert_eq!(route_method("nope"), McpMethod::NotFound);
    assert_eq!(method_not_found_message("nope"), "Method 'nope' not found");
    assert_eq!(route_tool_call(None), ToolCallRoute::MissingName);
    assert_eq!(route_tool_call(Some("ping")), ToolCallRoute::Ping);
    assert_eq!(route_tool_call(Some("place_block")), ToolCallRoute::Queue);
    assert_eq!(classify_tool("create_wall"), McpTool::CreateWall);
    assert_eq!(classify_tool("unknown_tool"), McpTool::Unknown);
    assert_eq!(unknown_tool_message("unknown_tool"), "Error: Unknown MCP command: unknown_tool");
}

#[test]
fn place_and_remove_blocks() {
    let mut w = VoxelWorld::new();
    assert_eq!(
        mcp_place_block(&mut w, Some("Dirt"), Some(10), Some(5), Some(-3)),
        "Placed Dirt block at (10, 5, -3)"
    );
    assert_eq!(w.get_block((10, 5, -3)), Some(BlockType::Dirt));
    assert_eq!(
        mcp_place_block(&mut w, Some("lava"), Some(1), Some(1), Some(1)),
        "Error: Unknown block type 'lava'. Valid types: grass, dirt, stone, quartz_block, glass_pane, cyan_terracotta"
    );
    assert_eq!(
        mcp_place_block(&mut w, Some("stone"), None, Some(1), Some(1)),
        "Error: place_block requires block_type, x, y, z parameters"
    );
    assert_eq!(mcp_remove_block(&mut w, Some(10), Some(5), Some(-3)), "Removed block at (10, 5, -3)");
    assert_eq!(
        mcp_remove_block(&mut w, Some(10), Some(5), Some(-3)),
        "No block found at (10, 5, -3) to remove"
    );
    assert_eq!(
        mcp_remove_block(&mut w, Some(1), None, Some(1)),
        "Error: remove_block requires x, y, z parameters"
    );
}

#[test]
fn create_wall_orders_the_corners() {
    let mut w = VoxelWorld::new();
    let r = mcp_create_wall(&mut w, Some("stone"), Some(21), Some(1), Some(-21), Some(26), Some(1), Some(-26));
    assert_eq!(r, "Created stone wall with 36 stone blocks from (21,1,-21) to (26,1,-26)");
    assert_eq!(w.block_count(), 36);
    let r = mcp_create_wall(&mut w, Some("grass"), Some(2), Some(1), Some(0), Some(-3), Some(-1), Some(-2));
    assert!(r.contains("54 grass blocks"));
    let r = mcp_create_wall(&mut w, Some("stone"), Some(0), Some(0), Some(0), None, Some(0), Some(0));
    assert_eq!(r, "Error: create_wall requires block_type, x1, y1, z1, x2, y2, z2 parameters");
    assert!(check_wall_fits(0, 0, 0, 5, 3, 2));
    assert!(!check_wall_fits(-2000000000, 0, 0, 2000000000, 0, 0));
}

#[test]
fn game_state_and_multiplayer_tools() {
    let (m, s) = mcp_set_game_state(Some("In_Game"), true);
    assert_eq!(s, Some(GameState::InGame));
    assert_eq!(m, "Game state set to InGame (MCP transition)");
    let (m, s) = mcp_set_game_state(Some("ConsoleOpen"), true);
    assert_eq!(s, Some(GameState::ConsoleOpen));
    assert_eq!(m, "Game state set to ConsoleOpen (MCP transition)");
    let (m, s) = mcp_set_game_state(Some("Lobby"), true);
    assert_eq!(s, None);
    assert!(m.starts_with("Error: Invalid game state 'Lobby'"));
    let (m, _) = mcp_set_game_state(Some("settings"), false);
    assert_eq!(m, "Error: Game state resource not available");
    let (m, _) = mcp_set_game_state(None, true);
    assert_eq!(m, "Error: state parameter is required for set_game_state");

    assert_eq!(
        mcp_join_world(Some("w9")),
        "Attempting to join multiplayer world 'w9' and transitioning to InGame state"
    );
    assert_eq!(mcp_join_world(None), "Error: join_world requires world_id parameter");
    assert_eq!(mcp_leave_world(), "Left shared world and returned to single-player mode");

    let (req, msg) = mcp_publish_world(None, Some("Home"), None, None).unwrap();
    assert_eq!(req.world_name, "Home");
    assert_eq!(req.max_players, 10);
    assert!(req.is_public);
    assert_eq!(msg, "World 'Home' published for multiplayer (max_players: 10, public: true)");
    let (req, _) = mcp_publish_world(Some("Named"), Some("Home"), Some(4), Some(false)).unwrap();
    assert_eq!(req.world_name, "Named");
    assert_eq!(req.max_players, 4);
    assert!(!req.is_public);
    assert_eq!(
        mcp_publish_world(None, None, None, None).err(),
        Some("Error: No current world loaded and no world_name provided".to_string())
    );

    let hosting = MultiplayerMode::HostingWorld { world_id: "w1".to_string(), is_published: true };
    let (m, id) = mcp_unpublish_world(Some(&hosting));
    assert_eq!(m, "World 'w1' unpublished and returned to single-player mode");
    assert_eq!(id, Some("w1".to_string()));
    let joined = MultiplayerMode::JoinedWorld { world_id: "w1".to_string(), host_player: "h".to_string() };
    assert_eq!(
        mcp_unpublish_world(Some(&joined)).0,
        "Error: Cannot unpublish a joined world - use leave_world instead"
    );
    assert_eq!(
        mcp_unpublish_world(Some(&MultiplayerMode::SinglePlayer)).0,
        "Error: No world is currently published"
    );
    assert_eq!(mcp_unpublish_world(None).0, "Error: Multiplayer mode not available");
}

#[test]
fn load_world_from_mqtt_decisions() {
    let joined = MultiplayerMode::JoinedWorld { world_id: "w7".to_string(), host_player: "bob".to_string() };
    let blocks = vec![BlockType::Stone, BlockType::Stone, BlockType::Water];
    assert_eq!(count_block_types(&blocks), 2);
    let (msg, action) = mcp_load_world_from_mqtt(Some("Pond"), Some(&joined), true, Some(&blocks));
    assert_eq!(
        msg,
        "Reconstructed world 'Pond' from MQTT shared data (3 blocks, 2 unique block types) - hosted by: bob"
    );
    assert!(matches!(action, LoadFromMqtt::Reconstruct { world_id } if world_id == "w7"));
    let (msg, action) = mcp_load_world_from_mqtt(Some("Pond"), Some(&joined), true, None);
    assert_eq!(msg, "Joined world 'Pond' - loaded from filesystem as MQTT data fallback (testing mode)");
    assert!(matches!(action, LoadFromMqtt::LoadFromDisk { world_name } if world_name == "Pond"));
    let (msg, action) = mcp_load_world_from_mqtt(Some("Pond"), Some(&joined), false, None);
    assert_eq!(msg, "Error: load_world_from_mqtt requires being in JoinedWorld multiplayer mode");
    assert!(matches!(action, LoadFromMqtt::Nothing));
    let hosting = MultiplayerMode::HostingWorld { world_id: "h1".to_string(), is_published: false };
    assert_eq!(
        mcp_load_world_from_mqtt(Some("Pond"), Some(&hosting), true, None).0,
        "Error: Host should use load_world_from_fs instead of load_world_from_mqtt for world: h1"
    );
    assert_eq!(
        mcp_load_world_from_mqtt(Some("Pond"), Some(&MultiplayerMode::SinglePlayer), true, None).0,
        "Error: Single-player mode should use load_world_from_fs instead of load_world_from_mqtt"
    );
    assert_eq!(
        mcp_load_world_from_mqtt(None, Some(&joined), true, None).0,
        "Error: load_world_from_mqtt requires world_name parameter"
    );
    assert_eq!(mqtt_health(true, true), "healthy");
    assert_eq!(mqtt_health(true, false), "degraded");
}

#[test]
fn json_rpc_builders() {
    let ok = JsonRpcResponse::success(Some(serde_json::Value::from(1)), serde_json::Value::from("pong"));
    assert_eq!(ok.jsonrpc, "2.0");
    assert_eq!(ok.result, Some(serde_json::Value::from("pong")));
    assert!(ok.error.is_none());
    let err = JsonRpcResponse::error(None, METHOD_NOT_FOUND, "Method 'x' not found".to_string(), None);
    assert!(err.result.is_none());
    let e = err.error.unwrap();
    assert_eq!(e.code, -32601);
    assert_eq!(e.message, "Method 'x' not found");
    let req = JsonRpcRequest::new(serde_json::Value::from(7), "tools/list".to_string(), None);
    assert_eq!(req.id, Some(serde_json::Value::from(7)));
    assert_eq!(req.method, "tools/list");
    let n = JsonRpcNotification::new("initialized".to_string(), None);
    assert_eq!(n.jsonrpc, "2.0");
    assert_eq!(n.method, "initialized");
}

#[test]
fn load_world_from_fs_replies() {
    assert_eq!(
        iotcraft_client::mcp::mcp_load_world_from_fs(Some("castle")),
        (
            "Loading world 'castle' from filesystem and transitioning to InGame state".to_string(),
            Some("castle".to_string())
        )
    );
    assert_eq!(
        iotcraft_client::mcp::mcp_load_world_from_fs(None),
        ("Error: load_world_from_fs requires world_name parameter".to_string(), None)
    );
}
