//! The Model Context Protocol server's decisions: JSON-RPC error codes, which
//! method or tool a request names, and the tools that edit the world or the
//! multiplayer mode. JSON itself is read and written by the caller.
use vstd::prelude::*;
use crate::commands::{spec_coords, spec_game_state_name, GameState};
use crate::multiplayer::{ModeView, MultiplayerMode};
use crate::text::{
    concat, format_i64, format_u64, has_prefix, int_decimal, nat_decimal, starts_with, str_eq,
};
use crate::world::{
    box_volume, filled, lowered, parse_block_type, spec_block_from_name, volume_between,
    BlockPos, BlockType, VoxelWorld,
};

verus! {

broadcast use vstd::string::group_string_axioms;

/// JSON-RPC: the text is not JSON.
pub const PARSE_ERROR: i32 = -32700;
/// JSON-RPC: the JSON is not a request.
pub const INVALID_REQUEST: i32 = -32600;
/// JSON-RPC: no such method.
pub const METHOD_NOT_FOUND: i32 = -32601;
/// JSON-RPC: the parameters do not fit the method.
pub const INVALID_PARAMS: i32 = -32602;
/// JSON-RPC: the server failed.
pub const INTERNAL_ERROR: i32 = -32603;
/// A tool failed.
pub const TOOL_EXECUTION_ERROR: i32 = -32000;
/// No such resource.
pub const RESOURCE_NOT_FOUND: i32 = -32001;
/// Not allowed.
pub const UNAUTHORIZED: i32 = -32002;

/// The protocol version the server speaks.
pub const MCP_VERSION: &'static str = "2024-11-05";

/// The kinds of message on the wire.
#[derive(Clone, Copy, Debug, PartialEq, Eq, Structural)]
pub enum McpMessageKind {
    Request,
    Response,
    Notification,
}

/// What a JSON object is, by the fields it has: a request has an id and a
/// method, a response an id and a result or an error, a notification a
/// method and no id. Anything else is not a protocol message.
pub fn classify_message(has_id: bool, has_method: bool, has_result: bool, has_error: bool) -> (k: Option<McpMessageKind>)
    ensures
        k == (if has_id && has_method {
            Some(McpMessageKind::Request)
        } else if has_id && (has_result || has_error) {
            Some(McpMessageKind::Response)
        } else if has_method && !has_id {
            Some(McpMessageKind::Notification)
        } else {
            None
        }),
{
    if has_id && has_method {
        Some(McpMessageKind::Request)
    } else if has_id && (has_result || has_error) {
        Some(McpMessageKind::Response)
    } else if has_method && !has_id {
        Some(McpMessageKind::Notification)
    } else {
        None
    }
}

/// How a JSON-RPC request was answered by the game.
#[derive(Clone, Copy, Debug, PartialEq, Eq, Structural)]
pub enum Delivery {
    /// The request could not be handed to the game.
    SendFailed,
    /// The game answered.
    Answered,
    /// The game dropped the reply channel.
    ChannelClosed,
    /// No answer within the time limit.
    TimedOut,
}

/// The reply to a JSON-RPC request.
#[derive(Clone, Copy, Debug, PartialEq, Eq)]
pub enum RpcReply {
    /// Nothing is sent back (a notification).
    Nothing,
    /// The game's result is sent back.
    Result,
    /// An error with a code and a message.
    Error { code: i32, message: &'static str },
}

/// The reply owed before the request reaches the game: an error for a
/// missing method, nothing for a notification (no id); `None` when the
/// request goes on to the game.
pub fn precheck_request(has_method: bool, has_id: bool) -> (r: Option<RpcReply>)
    ensures
        match r {
            Some(RpcReply::Error { code, message }) => !has_method && code == INVALID_REQUEST
                && message@ == "Missing method field"@,
            Some(RpcReply::Nothing) => has_method && !has_id,
            Some(RpcReply::Result) => false,
            None => has_method && has_id,
        },
{
    if !has_method {
        Some(RpcReply::Error { code: INVALID_REQUEST, message: "Missing method field" })
    } else if !has_id {
        Some(RpcReply::Nothing)
    } else {
        None
    }
}

/// The reply once the request went to the game.
pub fn reply_for(delivery: Delivery) -> (r: RpcReply)
    ensures
        match delivery {
            Delivery::Answered => r == RpcReply::Result,
            Delivery::SendFailed => r matches RpcReply::Error { code, message } && code
                == INTERNAL_ERROR && message@ == "Internal server error"@,
            Delivery::ChannelClosed => r matches RpcReply::Error { code, message } && code
                == INTERNAL_ERROR && message@ == "Response channel closed"@,
            Delivery::TimedOut => r matches RpcReply::Error { code, message } && code
                == INTERNAL_ERROR && message@ == "Request timeout"@,
        },
{
    match delivery {
        Delivery::Answered => RpcReply::Result,
        Delivery::SendFailed => RpcReply::Error { code: INTERNAL_ERROR, message: "Internal server error" },
        Delivery::ChannelClosed => RpcReply::Error {
            code: INTERNAL_ERROR,
            message: "Response channel closed",
        },
        Delivery::TimedOut => RpcReply::Error { code: INTERNAL_ERROR, message: "Request timeout" },
    }
}

/// Whether a tool's reply reports a failure: it starts with "Error:".
pub fn reply_is_error(reply: &str) -> (b: bool)
    ensures
        b == has_prefix(reply@, "Error:"@),
{
    starts_with(reply, "Error:")
}

/// The methods the server handles.
#[derive(Clone, Copy, Debug, PartialEq, Eq, Structural)]
pub enum McpMethod {
    Initialize,
    ToolsList,
    ToolsCall,
    Ping,
    ResourcesList,
    NotFound,
}

/// The method a request names.
pub fn route_method(method: &str) -> (m: McpMethod)
    ensures
        m == (if method@ == "initialize"@ {
            McpMethod::Initialize
        } else if method@ == "tools/list"@ {
            McpMethod::ToolsList
        } else if method@ == "tools/call"@ {
            McpMethod::ToolsCall
        } else if method@ == "ping"@ {
            McpMethod::Ping
        } else if method@ == "resources/list"@ {
            McpMethod::ResourcesList
        } else {
            McpMethod::NotFound
        }),
{
    if str_eq(method, "initialize") {
        McpMethod::Initialize
    } else if str_eq(method, "tools/list") {
        McpMethod::ToolsList
    } else if str_eq(method, "tools/call") {
        McpMethod::ToolsCall
    } else if str_eq(method, "ping") {
        McpMethod::Ping
    } else if str_eq(method, "resources/list") {
        McpMethod::ResourcesList
    } else {
        McpMethod::NotFound
    }
}

/// The message of the error for an unknown method.
pub fn method_not_found_message(method: &str) -> (m: String)
    ensures
        m@ == "Method '"@ + method@ + "' not found"@,
{
    let mut m = concat("Method '", method);
    m.append("' not found");
    m
}

/// What happens to a `tools/call` request.
#[derive(Clone, Copy, Debug, PartialEq, Eq, Structural)]
pub enum ToolCallRoute {
    /// No tool name: an invalid-parameters error.
    MissingName,
    /// "ping" is answered at once with "pong".
    Ping,
    /// Any other tool is queued for the game to run.
    Queue,
}

/// Where a tool call with this name goes.
pub fn route_tool_call(name: Option<&str>) -> (r: ToolCallRoute)
    ensures
        r == match name {
            None => ToolCallRoute::MissingName,
            Some(n) => if n@ == "ping"@ {
                ToolCallRoute::Ping
            } else {
                ToolCallRoute::Queue
            },
        },
{
    match name {
        None => ToolCallRoute::MissingName,
        Some(n) => if str_eq(n, "ping") {
            ToolCallRoute::Ping
        } else {
            ToolCallRoute::Queue
        },
    }
}

} // verus!

verus! {

/// The tools the game runs for the MCP server.
#[derive(Clone, Copy, Debug, PartialEq, Eq, Structural)]
pub enum McpTool {
    GetClientInfo,
    GetGameState,
    HealthCheck,
    GetSystemInfo,
    GetMqttStatus,
    GetWorldStatus,
    SetGameState,
    LoadWorldFromFs,
    LoadWorldFromMqtt,
    GetMultiplayerStatus,
    ListOnlineWorlds,
    JoinWorld,
    LeaveWorld,
    PublishWorld,
    UnpublishWorld,
    PlaceBlock,
    RemoveBlock,
    CreateWall,
    PlayerMove,
    SetCameraAngle,
    ListDevices,
    ListWorldTemplates,
    CreateWorld,
    Unknown,
}

/// The tool a name selects.
pub open spec fn spec_tool(name: Seq<char>) -> McpTool {
    if name == "get_client_info"@ {
        McpTool::GetClientInfo
    } else if name == "get_game_state"@ {
        McpTool::GetGameState
    } else if name == "health_check"@ {
        McpTool::HealthCheck
    } else if name == "get_system_info"@ {
        McpTool::GetSystemInfo
    } else if name == "get_mqtt_status"@ {
        McpTool::GetMqttStatus
    } else if name == "get_world_status"@ {
        McpTool::GetWorldStatus
    } else if name == "set_game_state"@ {
        McpTool::SetGameState
    } else if name == "load_world_from_fs"@ {
        McpTool::LoadWorldFromFs
    } else if name == "load_world_from_mqtt"@ {
        McpTool::LoadWorldFromMqtt
    } else if name == "get_multiplayer_status"@ {
        McpTool::GetMultiplayerStatus
    } else if name == "list_online_worlds"@ {
        McpTool::ListOnlineWorlds
    } else if name == "join_world"@ {
        McpTool::JoinWorld
    } else if name == "leave_world"@ {
        McpTool::LeaveWorld
    } else if name == "publish_world"@ {
        McpTool::PublishWorld
    } else if name == "unpublish_world"@ {
        McpTool::UnpublishWorld
    } else if name == "place_block"@ {
        McpTool::PlaceBlock
    } else if name == "remove_block"@ {
        McpTool::RemoveBlock
    } else if name == "create_wall"@ {
        McpTool::CreateWall
    } else if name == "player_move"@ {
        McpTool::PlayerMove
    } else if name == "set_camera_angle"@ {
        McpTool::SetCameraAngle
    } else if name == "list_devices"@ {
        McpTool::ListDevices
    } else if name == "list_world_templates"@ {
        McpTool::ListWorldTemplates
    } else if name == "create_world"@ {
        McpTool::CreateWorld
    } else {
        McpTool::Unknown
    }
}

/// The tool a name selects.
pub fn classify_tool(name: &str) -> (t: McpTool)
    ensures
        t == spec_tool(name@),
{
    if str_eq(name, "get_client_info") {
        McpTool::GetClientInfo
    } else if str_eq(name, "get_game_state") {
        McpTool::GetGameState
    } else if str_eq(name, "health_check") {
        McpTool::HealthCheck
    } else if str_eq(name, "get_system_info") {
        McpTool::GetSystemInfo
    } else if str_eq(name, "get_mqtt_status") {
        McpTool::GetMqttStatus
    } else if str_eq(name, "get_world_status") {
        McpTool::GetWorldStatus
    } else if str_eq(name, "set_game_state") {
        McpTool::SetGameState
    } else if str_eq(name, "load_world_from_fs") {
        McpTool::LoadWorldFromFs
    } else if str_eq(name, "load_world_from_mqtt") {
        McpTool::LoadWorldFromMqtt
    } else if str_eq(name, "get_multiplayer_status") {
        McpTool::GetMultiplayerStatus
    } else if str_eq(name, "list_online_worlds") {
        McpTool::ListOnlineWorlds
    } else if str_eq(name, "join_world") {
        McpTool::JoinWorld
    } else if str_eq(name, "leave_world") {
        McpTool::LeaveWorld
    } else if str_eq(name, "publish_world") {
        McpTool::PublishWorld
    } else if str_eq(name, "unpublish_world") {
        McpTool::UnpublishWorld
    } else if str_eq(name, "place_block") {
        McpTool::PlaceBlock
    } else if str_eq(name, "remove_block") {
        McpTool::RemoveBlock
    } else if str_eq(name, "create_wall") {
        McpTool::CreateWall
    } else if str_eq(name, "player_move") {
        McpTool::PlayerMove
    } else if str_eq(name, "set_camera_angle") {
        McpTool::SetCameraAngle
    } else if str_eq(name, "list_devices") {
        McpTool::ListDevices
    } else if str_eq(name, "list_world_templates") {
        McpTool::ListWorldTemplates
    } else if str_eq(name, "create_world") {
        McpTool::CreateWorld
    } else {
        McpTool::Unknown
    }
}

/// The answer to a tool name that no tool has.
pub fn unknown_tool_message(name: &str) -> (m: String)
    ensures
        m@ == "Error: Unknown MCP command: "@ + name@,
{
    concat("Error: Unknown MCP command: ", name)
}

/// The answer to `create_world` on the synchronous path, which does not run it.
pub fn create_world_not_here_message() -> (m: String)
    ensures
        m@ == "Error: create_world should be handled by async execution system"@,
{
    String::from_str("Error: create_world should be handled by async execution system")
}

/// The answer listing the block types, for an unknown one.
pub open spec fn spec_unknown_block_message(name: Seq<char>) -> Seq<char> {
    "Error: Unknown block type '"@ + name
        + "'. Valid types: grass, dirt, stone, quartz_block, glass_pane, cyan_terracotta"@
}

pub(crate) fn unknown_block_message(name: &str) -> (m: String)
    ensures
        m@ == spec_unknown_block_message(name@),
{
    let mut m = concat("Error: Unknown block type '", name);
    m.append("'. Valid types: grass, dirt, stone, quartz_block, glass_pane, cyan_terracotta");
    m
}

/// "(x<sep>y<sep>z)" for 64-bit coordinates.
pub open spec fn spec_coords_sep(x: i64, y: i64, z: i64, sep: Seq<char>) -> Seq<char> {
    "("@ + int_decimal(x as int) + sep + int_decimal(y as int) + sep + int_decimal(z as int) + ")"@
}

/// "(x, y, z)" for 64-bit coordinates.
pub open spec fn spec_coords64(x: i64, y: i64, z: i64) -> Seq<char> {
    spec_coords_sep(x, y, z, ", "@)
}

pub(crate) fn coords64(x: i64, y: i64, z: i64, sep: &str) -> (s: String)
    ensures
        s@ == spec_coords_sep(x, y, z, sep@),
{
    let mut s = String::from_str("(");
    s.append(format_i64(x).as_str());
    s.append(sep);
    s.append(format_i64(y).as_str());
    s.append(sep);
    s.append(format_i64(z).as_str());
    s.append(")");
    s
}

/// The position a tool's 64-bit coordinates name: each truncated to 32 bits.
pub open spec fn spec_truncated_pos(x: i64, y: i64, z: i64) -> BlockPos {
    (x as i32, y as i32, z as i32)
}

/// The `place_block` tool: a block type (any letter case) and a position.
pub fn mcp_place_block(
    world: &mut VoxelWorld,
    block_type: Option<&str>,
    x: Option<i64>,
    y: Option<i64>,
    z: Option<i64>,
) -> (reply: String)
    requires
        old(world).wf(),
    ensures
        final(world).wf(),
        match (block_type, x, y, z) {
            (Some(b), Some(x), Some(y), Some(z)) => match spec_block_from_name(lowered(b@)) {
                Some(block) => {
                    &&& final(world)@ == old(world)@.insert(spec_truncated_pos(x, y, z), block)
                    &&& reply@ == "Placed "@ + b@ + " block at "@ + spec_coords64(x, y, z)
                },
                None => final(world)@ == old(world)@ && reply@ == spec_unknown_block_message(b@),
            },
            _ => final(world)@ == old(world)@ && reply@
                == "Error: place_block requires block_type, x, y, z parameters"@,
        },
{
    match (block_type, x, y, z) {
        (Some(b), Some(x), Some(y), Some(z)) => match parse_block_type(b) {
            Some(block) => {
                world.set_block(
                    (
                        #[verifier::truncate] (x as i32),
                        #[verifier::truncate] (y as i32),
                        #[verifier::truncate] (z as i32),
                    ),
                    block,
                );
                let mut r = concat("Placed ", b);
                r.append(" block at ");
                r.append(coords64(x, y, z, ", ").as_str());
                r
            },
            None => unknown_block_message(b),
        },
        _ => String::from_str("Error: place_block requires block_type, x, y, z parameters"),
    }
}

/// The `remove_block` tool.
pub fn mcp_remove_block(world: &mut VoxelWorld, x: Option<i64>, y: Option<i64>, z: Option<i64>) -> (reply: String)
    requires
        old(world).wf(),
    ensures
        final(world).wf(),
        match (x, y, z) {
            (Some(x), Some(y), Some(z)) => {
                &&& final(world)@ == old(world)@.remove(spec_truncated_pos(x, y, z))
                &&& reply@ == if old(world)@.contains_key(spec_truncated_pos(x, y, z)) {
                    "Removed block at "@ + spec_coords64(x, y, z)
                } else {
                    "No block found at "@ + spec_coords64(x, y, z) + " to remove"@
                }
            },
            _ => final(world)@ == old(world)@ && reply@
                == "Error: remove_block requires x, y, z parameters"@,
        },
{
    match (x, y, z) {
        (Some(x), Some(y), Some(z)) => {
            let removed = world.remove_block(
                (
                    #[verifier::truncate] (x as i32),
                    #[verifier::truncate] (y as i32),
                    #[verifier::truncate] (z as i32),
                ),
            );
            if removed.is_some() {
                concat("Removed block at ", coords64(x, y, z, ", ").as_str())
            } else {
                let mut r = concat("No block found at ", coords64(x, y, z, ", ").as_str());
                r.append(" to remove");
                r
            }
        },
        _ => String::from_str("Error: remove_block requires x, y, z parameters"),
    }
}

/// The smaller of two numbers.
pub open spec fn min64(a: i64, b: i64) -> i64 {
    if a <= b {
        a
    } else {
        b
    }
}

/// The larger of two numbers.
pub open spec fn max64(a: i64, b: i64) -> i64 {
    if a >= b {
        a
    } else {
        b
    }
}

/// The corners of the wall a `create_wall` call fills: per axis the smaller
/// and the larger coordinate, each truncated to 32 bits.
pub open spec fn spec_wall_corners(x1: i64, y1: i64, z1: i64, x2: i64, y2: i64, z2: i64) -> (BlockPos, BlockPos) {
    (
        (min64(x1, x2) as i32, min64(y1, y2) as i32, min64(z1, z2) as i32),
        (max64(x1, x2) as i32, max64(y1, y2) as i32, max64(z1, z2) as i32),
    )
}

/// Whether a `create_wall` call fits the block counter (`i32`).
pub open spec fn wall_fits(x1: i64, y1: i64, z1: i64, x2: i64, y2: i64, z2: i64) -> bool {
    let (a, b) = spec_wall_corners(x1, y1, z1, x2, y2, z2);
    box_volume(a, b) <= i32::MAX
}

/// The `create_wall` tool: the corners may come in any order; the wall fills
/// the box between them.
pub fn mcp_create_wall(
    world: &mut VoxelWorld,
    block_type: Option<&str>,
    x1: Option<i64>,
    y1: Option<i64>,
    z1: Option<i64>,
    x2: Option<i64>,
    y2: Option<i64>,
    z2: Option<i64>,
) -> (reply: String)
    requires
        old(world).wf(),
        match (x1, y1, z1, x2, y2, z2) {
            (Some(a), Some(b), Some(c), Some(d), Some(e), Some(f)) => wall_fits(a, b, c, d, e, f),
            _ => true,
        },
    ensures
        final(world).wf(),
        match (block_type, x1, y1, z1, x2, y2, z2) {
            (Some(bt), Some(x1), Some(y1), Some(z1), Some(x2), Some(y2), Some(z2)) => match spec_block_from_name(
                lowered(bt@),
            ) {
                Some(block) => {
                    let (lo, hi) = spec_wall_corners(x1, y1, z1, x2, y2, z2);
                    &&& final(world)@ == filled(old(world)@, lo, hi, block)
                    &&& reply@ == "Created "@ + bt@ + " wall with "@ + nat_decimal(box_volume(lo, hi))
                        + " "@ + bt@ + " blocks from "@ + spec_coords_sep(x1, y1, z1, ","@)
                        + " to "@ + spec_coords_sep(x2, y2, z2, ","@)
                },
                None => final(world)@ == old(world)@ && reply@ == spec_unknown_block_message(bt@),
            },
            _ => final(world)@ == old(world)@ && reply@
                == "Error: create_wall requires block_type, x1, y1, z1, x2, y2, z2 parameters"@,
        },
{
    match (block_type, x1, y1, z1, x2, y2, z2) {
        (Some(bt), Some(x1), Some(y1), Some(z1), Some(x2), Some(y2), Some(z2)) => match parse_block_type(bt) {
            Some(block) => {
                let min_x: i32 = #[verifier::truncate] ((if x1 <= x2 { x1 } else { x2 }) as i32);
                let max_x: i32 = #[verifier::truncate] ((if x1 >= x2 { x1 } else { x2 }) as i32);
                let min_y: i32 = #[verifier::truncate] ((if y1 <= y2 { y1 } else { y2 }) as i32);
                let max_y: i32 = #[verifier::truncate] ((if y1 >= y2 { y1 } else { y2 }) as i32);
                let min_z: i32 = #[verifier::truncate] ((if z1 <= z2 { z1 } else { z2 }) as i32);
                let max_z: i32 = #[verifier::truncate] ((if z1 >= z2 { z1 } else { z2 }) as i32);
                let count = world.fill_box((min_x, min_y, min_z), (max_x, max_y, max_z), block);
                let mut r = concat("Created ", bt);
                r.append(" wall with ");
                r.append(format_u64(count).as_str());
                r.append(" ");
                r.append(bt);
                r.append(" blocks from ");
                r.append(coords64(x1, y1, z1, ",").as_str());
                r.append(" to ");
                r.append(coords64(x2, y2, z2, ",").as_str());
                r
            },
            None => unknown_block_message(bt),
        },
        _ => String::from_str("Error: create_wall requires block_type, x1, y1, z1, x2, y2, z2 parameters"),
    }
}

} // verus!

verus! {

/// Whether a `create_wall` call with these corners fits (see [`wall_fits`]).
pub fn check_wall_fits(x1: i64, y1: i64, z1: i64, x2: i64, y2: i64, z2: i64) -> (b: bool)
    ensures
        b == wall_fits(x1, y1, z1, x2, y2, z2),
{
    let min_x: i32 = #[verifier::truncate] ((if x1 <= x2 { x1 } else { x2 }) as i32);
    let max_x: i32 = #[verifier::truncate] ((if x1 >= x2 { x1 } else { x2 }) as i32);
    let min_y: i32 = #[verifier::truncate] ((if y1 <= y2 { y1 } else { y2 }) as i32);
    let max_y: i32 = #[verifier::truncate] ((if y1 >= y2 { y1 } else { y2 }) as i32);
    let min_z: i32 = #[verifier::truncate] ((if z1 <= z2 { z1 } else { z2 }) as i32);
    let max_z: i32 = #[verifier::truncate] ((if z1 >= z2 { z1 } else { z2 }) as i32);
    volume_between((min_x, min_y, min_z), (max_x, max_y, max_z)) <= i32::MAX as u128
}

/// The game state a name selects, in any letter case, with or without '_'
/// between the words.
pub open spec fn spec_mcp_game_state(lower: Seq<char>) -> Option<GameState> {
    if lower == "mainmenu"@ || lower == "main_menu"@ {
        Some(GameState::MainMenu)
    } else if lower == "ingame"@ || lower == "in_game"@ {
        Some(GameState::InGame)
    } else if lower == "settings"@ {
        Some(GameState::Settings)
    } else if lower == "worldselection"@ || lower == "world_selection"@ {
        Some(GameState::WorldSelection)
    } else if lower == "gameplaymenu"@ || lower == "gameplay_menu"@ {
        Some(GameState::GameplayMenu)
    } else if lower == "consoleopen"@ || lower == "console_open"@ {
        Some(GameState::ConsoleOpen)
    } else {
        None
    }
}

pub(crate) fn mcp_game_state(lower: &str) -> (s: Option<GameState>)
    ensures
        s == spec_mcp_game_state(lower@),
{
    if str_eq(lower, "mainmenu") || str_eq(lower, "main_menu") {
        Some(GameState::MainMenu)
    } else if str_eq(lower, "ingame") || str_eq(lower, "in_game") {
        Some(GameState::InGame)
    } else if str_eq(lower, "settings") {
        Some(GameState::Settings)
    } else if str_eq(lower, "worldselection") || str_eq(lower, "world_selection") {
        Some(GameState::WorldSelection)
    } else if str_eq(lower, "gameplaymenu") || str_eq(lower, "gameplay_menu") {
        Some(GameState::GameplayMenu)
    } else if str_eq(lower, "consoleopen") || str_eq(lower, "console_open") {
        Some(GameState::ConsoleOpen)
    } else {
        None
    }
}

/// The `set_game_state` tool: gives the reply and the state to switch to.
/// `state_settable` says whether the game lets its state be set.
pub fn mcp_set_game_state(state: Option<&str>, state_settable: bool) -> (r: (String, Option<GameState>))
    ensures
        match state {
            Some(s) => match spec_mcp_game_state(lowered(s@)) {
                Some(g) => if state_settable {
                    r.1 == Some(g) && r.0@ == "Game state set to "@ + spec_game_state_name(g)
                        + " (MCP transition)"@
                } else {
                    r.1 is None && r.0@ == "Error: Game state resource not available"@
                },
                None => r.1 is None && r.0@ == "Error: Invalid game state '"@ + s@
                    + "'. Valid states: MainMenu, InGame, Settings, WorldSelection, GameplayMenu, ConsoleOpen"@,
            },
            None => r.1 is None && r.0@ == "Error: state parameter is required for set_game_state"@,
        },
{
    match state {
        Some(s) => {
            let lower = crate::world::to_lowercase_text(s);
            match mcp_game_state(lower.as_str()) {
                Some(g) => if state_settable {
                    let mut m = concat("Game state set to ", crate::commands::game_state_label(g));
                    m.append(" (MCP transition)");
                    (m, Some(g))
                } else {
                    (String::from_str("Error: Game state resource not available"), None)
                },
                None => {
                    let mut m = concat("Error: Invalid game state '", s);
                    m.append(
                        "'. Valid states: MainMenu, InGame, Settings, WorldSelection, GameplayMenu, ConsoleOpen",
                    );
                    (m, None)
                },
            }
        },
        None => (String::from_str("Error: state parameter is required for set_game_state"), None),
    }
}

/// The `join_world` tool's reply; a world id means the join goes ahead.
pub fn mcp_join_world(world_id: Option<&str>) -> (reply: String)
    ensures
        reply@ == match world_id {
            Some(w) => "Attempting to join multiplayer world '"@ + w@
                + "' and transitioning to InGame state"@,
            None => "Error: join_world requires world_id parameter"@,
        },
{
    match world_id {
        Some(w) => {
            let mut m = concat("Attempting to join multiplayer world '", w);
            m.append("' and transitioning to InGame state");
            m
        },
        None => String::from_str("Error: join_world requires world_id parameter"),
    }
}

/// The `load_world_from_fs` tool: the reply, and the world to load from disk.
pub fn mcp_load_world_from_fs(world_name: Option<&str>) -> (r: (String, Option<String>))
    ensures
        match world_name {
            Some(n) => r.1 matches Some(w) && w@ == n@ && r.0@ == "Loading world '"@ + n@
                + "' from filesystem and transitioning to InGame state"@,
            None => r.1 is None && r.0@ == "Error: load_world_from_fs requires world_name parameter"@,
        },
{
    match world_name {
        Some(n) => {
            let mut m = concat("Loading world '", n);
            m.append("' from filesystem and transitioning to InGame state");
            (m, Some(String::from_str(n)))
        },
        None => (String::from_str("Error: load_world_from_fs requires world_name parameter"), None),
    }
}

/// The `leave_world` tool's reply.
pub fn mcp_leave_world() -> (reply: String)
    ensures
        reply@ == "Left shared world and returned to single-player mode"@,
{
    String::from_str("Left shared world and returned to single-player mode")
}

/// A request to publish a world.
pub struct PublishRequest {
    pub world_name: String,
    pub max_players: u32,
    pub is_public: bool,
}

/// "true" or "false".
pub open spec fn bool_text(b: bool) -> Seq<char> {
    if b {
        "true"@
    } else {
        "false"@
    }
}

/// The `publish_world` tool: the world is the one named, else the loaded
/// one; at most 10 players and public unless told otherwise (the player
/// count is cut to 32 bits). Gives the request and the reply, or the error.
pub fn mcp_publish_world(
    world_name: Option<&str>,
    current_world: Option<&str>,
    max_players: Option<u64>,
    is_public: Option<bool>,
) -> (r: Result<(PublishRequest, String), String>)
    ensures
        match (world_name, current_world) {
            (None, None) => r matches Err(e) && e@
                == "Error: No current world loaded and no world_name provided"@,
            _ => {
                let name = match world_name {
                    Some(n) => n@,
                    None => current_world->0@,
                };
                let players = (match max_players {
                    Some(m) => m,
                    None => 10u64,
                }) as u32;
                let public = match is_public {
                    Some(p) => p,
                    None => true,
                };
                r matches Ok((req, msg)) && req.world_name@ == name && req.max_players == players
                    && req.is_public == public && msg@ == "World '"@ + name
                    + "' published for multiplayer (max_players: "@ + nat_decimal(players as nat)
                    + ", public: "@ + bool_text(public) + ")"@
            },
        },
{
    let name: String = match world_name {
        Some(n) => String::from_str(n),
        None => match current_world {
            Some(c) => String::from_str(c),
            None => {
                return Err(String::from_str("Error: No current world loaded and no world_name provided"));
            },
        },
    };
    let players: u32 = #[verifier::truncate] ((match max_players {
        Some(m) => m,
        None => 10u64,
    }) as u32);
    let public: bool = match is_public {
        Some(p) => p,
        None => true,
    };
    let mut msg = concat("World '", name.as_str());
    msg.append("' published for multiplayer (max_players: ");
    msg.append(format_u64(players as u64).as_str());
    msg.append(", public: ");
    msg.append(if public { "true" } else { "false" });
    msg.append(")");
    Ok((PublishRequest { world_name: name, max_players: players, is_public: public }, msg))
}

/// The `unpublish_world` tool: only a hosted world can be unpublished. Gives
/// the reply and the id of the world to unpublish.
pub fn mcp_unpublish_world(mode: Option<&MultiplayerMode>) -> (r: (String, Option<String>))
    ensures
        match mode {
            Some(m) => match m@ {
                ModeView::HostingWorld { world_id, .. } => r.1 matches Some(id) && id@ == world_id
                    && r.0@ == "World '"@ + world_id
                    + "' unpublished and returned to single-player mode"@,
                ModeView::JoinedWorld { .. } => r.1 is None && r.0@
                    == "Error: Cannot unpublish a joined world - use leave_world instead"@,
                ModeView::SinglePlayer => r.1 is None && r.0@
                    == "Error: No world is currently published"@,
            },
            None => r.1 is None && r.0@ == "Error: Multiplayer mode not available"@,
        },
{
    match mode {
        Some(m) => match m {
            MultiplayerMode::HostingWorld { world_id, .. } => {
                let mut msg = concat("World '", world_id.as_str());
                msg.append("' unpublished and returned to single-player mode");
                (msg, Some(world_id.clone()))
            },
            MultiplayerMode::JoinedWorld { .. } => (
                String::from_str("Error: Cannot unpublish a joined world - use leave_world instead"),
                None,
            ),
            MultiplayerMode::SinglePlayer => (
                String::from_str("Error: No world is currently published"),
                None,
            ),
        },
        None => (String::from_str("Error: Multiplayer mode not available"), None),
    }
}

} // verus!

verus! {

/// The `create_wall` tool fills the same box whichever order the corners
/// come in.
pub proof fn law_create_wall_corner_order(x1: i64, y1: i64, z1: i64, x2: i64, y2: i64, z2: i64)
    ensures
        spec_wall_corners(x1, y1, z1, x2, y2, z2) == spec_wall_corners(x2, y2, z2, x1, y1, z1),
{
}

} // verus!

verus! {

/// Whether `blocks` holds a block of type `t`.
pub open spec fn has_type(blocks: Seq<BlockType>, t: BlockType) -> bool {
    exists|i: int| 0 <= i < blocks.len() && blocks[i] == t
}

/// How many different block types `blocks` holds.
pub open spec fn distinct_block_types(blocks: Seq<BlockType>) -> nat {
    (if has_type(blocks, BlockType::Grass) { 1nat } else { 0nat }) + (if has_type(blocks, BlockType::Dirt) {
        1nat
    } else {
        0nat
    }) + (if has_type(blocks, BlockType::Stone) { 1nat } else { 0nat }) + (if has_type(
        blocks,
        BlockType::QuartzBlock,
    ) {
        1nat
    } else {
        0nat
    }) + (if has_type(blocks, BlockType::GlassPane) { 1nat } else { 0nat }) + (if has_type(
        blocks,
        BlockType::CyanTerracotta,
    ) {
        1nat
    } else {
        0nat
    }) + (if has_type(blocks, BlockType::Water) { 1nat } else { 0nat })
}

fn contains_type(blocks: &Vec<BlockType>, t: BlockType) -> (b: bool)
    ensures
        b == has_type(blocks@, t),
{
    let mut i: usize = 0;
    while i < blocks.len()
        invariant
            i <= blocks@.len(),
            forall|k: int| 0 <= k < i ==> blocks@[k] != t,
        decreases blocks@.len() - i,
    {
        if blocks[i] == t {
            return true;
        }
        i = i + 1;
    }
    false
}

/// How many different block types the list holds.
pub fn count_block_types(blocks: &Vec<BlockType>) -> (n: u64)
    ensures
        n == distinct_block_types(blocks@),
{
    let mut n: u64 = 0;
    if contains_type(blocks, BlockType::Grass) {
        n = n + 1;
    }
    if contains_type(blocks, BlockType::Dirt) {
        n = n + 1;
    }
    if contains_type(blocks, BlockType::Stone) {
        n = n + 1;
    }
    if contains_type(blocks, BlockType::QuartzBlock) {
        n = n + 1;
    }
    if contains_type(blocks, BlockType::GlassPane) {
        n = n + 1;
    }
    if contains_type(blocks, BlockType::CyanTerracotta) {
        n = n + 1;
    }
    if contains_type(blocks, BlockType::Water) {
        n = n + 1;
    }
    n
}

/// What `load_world_from_mqtt` asks the game to do.
#[derive(Debug)]
pub enum LoadFromMqtt {
    /// Nothing.
    Nothing,
    /// Rebuild the joined world from its shared data, then play.
    Reconstruct { world_id: String },
    /// Load the named world from disk instead, then play.
    LoadFromDisk { world_name: String },
}

/// The `load_world_from_mqtt` tool. Only a client that joined a world loads
/// it from the broker's data: from the shared data when it arrived (given as
/// the types of its blocks), else from disk as a fallback. `online_worlds`
/// says whether the discovery records are available at all. Gives the reply
/// and the action.
pub fn mcp_load_world_from_mqtt(
    world_name: Option<&str>,
    mode: Option<&MultiplayerMode>,
    online_worlds: bool,
    cached_blocks: Option<&Vec<BlockType>>,
) -> (r: (String, LoadFromMqtt))
    ensures
        match world_name {
            None => r.0@ == "Error: load_world_from_mqtt requires world_name parameter"@ && r.1 is Nothing,
            Some(name) => match mode {
                None => r.0@ == "Error: load_world_from_mqtt requires being in JoinedWorld multiplayer mode"@
                    && r.1 is Nothing,
                Some(m) => match m@ {
                    ModeView::HostingWorld { world_id, .. } => r.0@
                        == "Error: Host should use load_world_from_fs instead of load_world_from_mqtt for world: "@
                        + world_id && r.1 is Nothing,
                    ModeView::SinglePlayer => r.0@
                        == "Error: Single-player mode should use load_world_from_fs instead of load_world_from_mqtt"@
                        && r.1 is Nothing,
                    ModeView::JoinedWorld { world_id, host_player } => if !online_worlds {
                        r.0@ == "Error: load_world_from_mqtt requires being in JoinedWorld multiplayer mode"@
                            && r.1 is Nothing
                    } else {
                        match cached_blocks {
                            Some(blocks) => {
                                &&& r.0@ == "Reconstructed world '"@ + name@
                                    + "' from MQTT shared data ("@ + nat_decimal(blocks@.len())
                                    + " blocks, "@ + nat_decimal(distinct_block_types(blocks@))
                                    + " unique block types) - hosted by: "@ + host_player
                                &&& r.1 is Reconstruct
                                &&& r.1->Reconstruct_world_id@ == world_id
                            },
                            None => {
                                &&& r.0@ == "Joined world '"@ + name@
                                    + "' - loaded from filesystem as MQTT data fallback (testing mode)"@
                                &&& r.1 is LoadFromDisk
                                &&& r.1->LoadFromDisk_world_name@ == name@
                            },
                        }
                    },
                },
            },
        },
{
    let name = match world_name {
        Some(n) => n,
        None => {
            return (
                String::from_str("Error: load_world_from_mqtt requires world_name parameter"),
                LoadFromMqtt::Nothing,
            );
        },
    };
    let not_joined = "Error: load_world_from_mqtt requires being in JoinedWorld multiplayer mode";
    match mode {
        None => (String::from_str(not_joined), LoadFromMqtt::Nothing),
        Some(MultiplayerMode::HostingWorld { world_id, .. }) => (
            concat(
                "Error: Host should use load_world_from_fs instead of load_world_from_mqtt for world: ",
                world_id.as_str(),
            ),
            LoadFromMqtt::Nothing,
        ),
        Some(MultiplayerMode::SinglePlayer) => (
            String::from_str(
                "Error: Single-player mode should use load_world_from_fs instead of load_world_from_mqtt",
            ),
            LoadFromMqtt::Nothing,
        ),
        Some(MultiplayerMode::JoinedWorld { world_id, host_player }) => {
            if !online_worlds {
                return (String::from_str(not_joined), LoadFromMqtt::Nothing);
            }
            match cached_blocks {
                Some(blocks) => {
                    let mut m = concat("Reconstructed world '", name);
                    m.append("' from MQTT shared data (");
                    m.append(format_u64(blocks.len() as u64).as_str());
                    m.append(" blocks, ");
                    m.append(format_u64(count_block_types(blocks)).as_str());
                    m.append(" unique block types) - hosted by: ");
                    m.append(host_player.as_str());
                    (m, LoadFromMqtt::Reconstruct { world_id: world_id.clone() })
                },
                None => {
                    let mut m = concat("Joined world '", name);
                    m.append("' - loaded from filesystem as MQTT data fallback (testing mode)");
                    (m, LoadFromMqtt::LoadFromDisk { world_name: String::from_str(name) })
                },
            }
        },
    }
}

/// The MQTT status the `get_mqtt_status` tool reports: healthy only when the
/// broker client exists and is connected.
pub fn mqtt_health(connected: bool, service_available: bool) -> (s: &'static str)
    ensures
        s@ == (if connected && service_available {
            "healthy"@
        } else {
            "degraded"@
        }),
{
    if connected && service_available {
        "healthy"
    } else {
        "degraded"
    }
}

} // verus!

verus! {

#[verifier::external_type_specification]
#[verifier::external_body]
pub struct ExJsonValue(serde_json::Value);

/// A JSON-RPC 2.0 request.
#[derive(Debug, Clone)]
pub struct JsonRpcRequest {
    pub jsonrpc: String,
    pub id: Option<serde_json::Value>,
    pub method: String,
    pub params: Option<serde_json::Value>,
}

/// A JSON-RPC 2.0 error.
#[derive(Debug, Clone)]
pub struct JsonRpcError {
    pub code: i32,
    pub message: String,
    pub data: Option<serde_json::Value>,
}

/// A JSON-RPC 2.0 response: a result or an error.
#[derive(Debug, Clone)]
pub struct JsonRpcResponse {
    pub jsonrpc: String,
    pub id: Option<serde_json::Value>,
    pub result: Option<serde_json::Value>,
    pub error: Option<JsonRpcError>,
}

/// A JSON-RPC 2.0 notification (no id, no reply).
#[derive(Debug, Clone)]
pub struct JsonRpcNotification {
    pub jsonrpc: String,
    pub method: String,
    pub params: Option<serde_json::Value>,
}

impl JsonRpcResponse {
    /// A successful response.
    pub fn success(id: Option<serde_json::Value>, result: serde_json::Value) -> (r: Self)
        ensures
            r.jsonrpc@ == "2.0"@,
            r.id == id,
            r.result == Some(result),
            r.error is None,
    {
        JsonRpcResponse { jsonrpc: String::from_str("2.0"), id, result: Some(result), error: None }
    }

    /// An error response.
    pub fn error(id: Option<serde_json::Value>, code: i32, message: String, data: Option<serde_json::Value>) -> (r: Self)
        ensures
            r.jsonrpc@ == "2.0"@,
            r.id == id,
            r.result is None,
            r.error matches Some(e) && e.code == code && e.message@ == message@ && e.data == data,
    {
        JsonRpcResponse {
            jsonrpc: String::from_str("2.0"),
            id,
            result: None,
            error: Some(JsonRpcError { code, message, data }),
        }
    }
}

impl JsonRpcRequest {
    /// A request with an id.
    pub fn new(id: serde_json::Value, method: String, params: Option<serde_json::Value>) -> (r: Self)
        ensures
            r.jsonrpc@ == "2.0"@,
            r.id == Some(id),
            r.method@ == method@,
            r.params == params,
    {
        JsonRpcRequest { jsonrpc: String::from_str("2.0"), id: Some(id), method, params }
    }
}

impl JsonRpcNotification {
    /// A notification.
    pub fn new(method: String, params: Option<serde_json::Value>) -> (r: Self)
        ensures
            r.jsonrpc@ == "2.0"@,
            r.method@ == method@,
            r.params == params,
    {
        JsonRpcNotification { jsonrpc: String::from_str("2.0"), method, params }
    }
}

} // verus!
