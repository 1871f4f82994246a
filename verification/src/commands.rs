//! The console and script command language: a line is a command, optionally
//! followed by " #" and a request id, and its words are separated by white
//! space. Commands that edit the world run here against a [`VoxelWorld`];
//! the others are handed to the caller, parsed.
use vstd::prelude::*;
use crate::text::{
    chars_of, concat, format_i64, format_u64, has_prefix, int_decimal, join_from, join_with,
    nat_decimal, parse_i32, parse_usize, spec_parse_i32, spec_parse_usize, split_whitespace,
    starts_with, str_eq, string_of, views, ws_tokens,
};
use crate::world::{
    block_type_from_name, box_volume, filled, spec_block_from_name, spec_block_name,
    volume_between, BlockPos, BlockType, VoxelWorld,
};

verus! {

broadcast use vstd::string::group_string_axioms;

/// The screens and modes of the game.
#[derive(Clone, Copy, Debug, PartialEq, Eq, Hash, Structural)]
pub enum GameState {
    MainMenu,
    WorldSelection,
    InGame,
    Settings,
    GameplayMenu,
    ConsoleOpen,
}

/// What `blink` was asked to do.
#[derive(Clone, Copy, Debug, PartialEq, Eq, Structural)]
pub enum BlinkAction {
    Start,
    Stop,
    Usage,
}

/// What `mqtt` was asked to do.
#[derive(Clone, Copy, Debug, PartialEq, Eq, Structural)]
pub enum MqttAction {
    Status,
    Temperature,
    Usage,
}

/// A parsed command line. Numbers the game reads as floating point are kept
/// as the words that were typed.
#[derive(Debug)]
pub enum ConsoleCommand {
    /// A line without words; it is skipped.
    Empty,
    GetClientInfo,
    GetGameState,
    HealthCheck,
    GetSystemInfo,
    GetWorldStatus,
    GetSensorData,
    GetMqttStatus,
    Blink(BlinkAction),
    Mqtt(MqttAction),
    Spawn { device_id: String, x: String, y: String, z: String },
    SpawnDoor { device_id: String, x: String, y: String, z: String },
    Place { block: BlockType, pos: BlockPos },
    InvalidPlaceBlock { name: String },
    Remove { pos: BlockPos },
    Give { block: BlockType, quantity: usize },
    InvalidItem { name: String },
    Wall { block: BlockType, from: BlockPos, to: BlockPos },
    InvalidWallBlock { name: String },
    Teleport { x: String, y: String, z: String },
    Look { yaw: String, pitch: String },
    List,
    PublishWorld,
    JoinWorld,
    CreateWorld { name: String, description: String },
    CreateWorldUsage,
    SetGameState(GameState),
    InvalidGameState { name: String },
    SetGameStateUsage,
    /// A known command whose arguments do not fit; nothing happens.
    Ignored,
    Unknown,
}

/// [`ConsoleCommand`] with its texts as character sequences.
pub enum CommandView {
    Empty,
    GetClientInfo,
    GetGameState,
    HealthCheck,
    GetSystemInfo,
    GetWorldStatus,
    GetSensorData,
    GetMqttStatus,
    Blink(BlinkAction),
    Mqtt(MqttAction),
    Spawn { device_id: Seq<char>, x: Seq<char>, y: Seq<char>, z: Seq<char> },
    SpawnDoor { device_id: Seq<char>, x: Seq<char>, y: Seq<char>, z: Seq<char> },
    Place { block: BlockType, pos: BlockPos },
    InvalidPlaceBlock { name: Seq<char> },
    Remove { pos: BlockPos },
    Give { block: BlockType, quantity: usize },
    InvalidItem { name: Seq<char> },
    Wall { block: BlockType, from: BlockPos, to: BlockPos },
    InvalidWallBlock { name: Seq<char> },
    Teleport { x: Seq<char>, y: Seq<char>, z: Seq<char> },
    Look { yaw: Seq<char>, pitch: Seq<char> },
    List,
    PublishWorld,
    JoinWorld,
    CreateWorld { name: Seq<char>, description: Seq<char> },
    CreateWorldUsage,
    SetGameState(GameState),
    InvalidGameState { name: Seq<char> },
    SetGameStateUsage,
    Ignored,
    Unknown,
}

impl View for ConsoleCommand {
    type V = CommandView;

    open spec fn view(&self) -> CommandView {
        match self {
            ConsoleCommand::Empty => CommandView::Empty,
            ConsoleCommand::GetClientInfo => CommandView::GetClientInfo,
            ConsoleCommand::GetGameState => CommandView::GetGameState,
            ConsoleCommand::HealthCheck => CommandView::HealthCheck,
            ConsoleCommand::GetSystemInfo => CommandView::GetSystemInfo,
            ConsoleCommand::GetWorldStatus => CommandView::GetWorldStatus,
            ConsoleCommand::GetSensorData => CommandView::GetSensorData,
            ConsoleCommand::GetMqttStatus => CommandView::GetMqttStatus,
            ConsoleCommand::Blink(a) => CommandView::Blink(*a),
            ConsoleCommand::Mqtt(a) => CommandView::Mqtt(*a),
            ConsoleCommand::Spawn { device_id, x, y, z } => CommandView::Spawn {
                device_id: device_id@,
                x: x@,
                y: y@,
                z: z@,
            },
            ConsoleCommand::SpawnDoor { device_id, x, y, z } => CommandView::SpawnDoor {
                device_id: device_id@,
                x: x@,
                y: y@,
                z: z@,
            },
            ConsoleCommand::Place { block, pos } => CommandView::Place { block: *block, pos: *pos },
            ConsoleCommand::InvalidPlaceBlock { name } => CommandView::InvalidPlaceBlock {
                name: name@,
            },
            ConsoleCommand::Remove { pos } => CommandView::Remove { pos: *pos },
            ConsoleCommand::Give { block, quantity } => CommandView::Give {
                block: *block,
                quantity: *quantity,
            },
            ConsoleCommand::InvalidItem { name } => CommandView::InvalidItem { name: name@ },
            ConsoleCommand::Wall { block, from, to } => CommandView::Wall {
                block: *block,
                from: *from,
                to: *to,
            },
            ConsoleCommand::InvalidWallBlock { name } => CommandView::InvalidWallBlock {
                name: name@,
            },
            ConsoleCommand::Teleport { x, y, z } => CommandView::Teleport { x: x@, y: y@, z: z@ },
            ConsoleCommand::Look { yaw, pitch } => CommandView::Look { yaw: yaw@, pitch: pitch@ },
            ConsoleCommand::List => CommandView::List,
            ConsoleCommand::PublishWorld => CommandView::PublishWorld,
            ConsoleCommand::JoinWorld => CommandView::JoinWorld,
            ConsoleCommand::CreateWorld { name, description } => CommandView::CreateWorld {
                name: name@,
                description: description@,
            },
            ConsoleCommand::CreateWorldUsage => CommandView::CreateWorldUsage,
            ConsoleCommand::SetGameState(s) => CommandView::SetGameState(*s),
            ConsoleCommand::InvalidGameState { name } => CommandView::InvalidGameState {
                name: name@,
            },
            ConsoleCommand::SetGameStateUsage => CommandView::SetGameStateUsage,
            ConsoleCommand::Ignored => CommandView::Ignored,
            ConsoleCommand::Unknown => CommandView::Unknown,
        }
    }
}

/// The game state named exactly `name`, as the console writes them.
pub open spec fn spec_console_game_state(name: Seq<char>) -> Option<GameState> {
    if name == "MainMenu"@ {
        Some(GameState::MainMenu)
    } else if name == "WorldSelection"@ {
        Some(GameState::WorldSelection)
    } else if name == "InGame"@ {
        Some(GameState::InGame)
    } else if name == "Settings"@ {
        Some(GameState::Settings)
    } else if name == "GameplayMenu"@ {
        Some(GameState::GameplayMenu)
    } else {
        None
    }
}

/// Three coordinates, when all three words are `i32` numbers.
pub open spec fn spec_parse_pos(x: Seq<char>, y: Seq<char>, z: Seq<char>) -> Option<BlockPos> {
    match (spec_parse_i32(x), spec_parse_i32(y), spec_parse_i32(z)) {
        (Some(a), Some(b), Some(c)) => Some((a, b, c)),
        _ => None,
    }
}

/// The command that the words `w` of a line make.
pub open spec fn spec_parse_command(w: Seq<Seq<char>>) -> CommandView {
    if w.len() == 0 {
        CommandView::Empty
    } else if w[0] == "get_client_info"@ {
        CommandView::GetClientInfo
    } else if w[0] == "get_game_state"@ {
        CommandView::GetGameState
    } else if w[0] == "health_check"@ {
        CommandView::HealthCheck
    } else if w[0] == "get_system_info"@ {
        CommandView::GetSystemInfo
    } else if w[0] == "get_world_status"@ {
        CommandView::GetWorldStatus
    } else if w[0] == "get_sensor_data"@ {
        CommandView::GetSensorData
    } else if w[0] == "get_mqtt_status"@ {
        CommandView::GetMqttStatus
    } else if w[0] == "blink"@ {
        if w.len() != 2 {
            CommandView::Ignored
        } else if w[1] == "start"@ {
            CommandView::Blink(BlinkAction::Start)
        } else if w[1] == "stop"@ {
            CommandView::Blink(BlinkAction::Stop)
        } else {
            CommandView::Blink(BlinkAction::Usage)
        }
    } else if w[0] == "mqtt"@ {
        if w.len() != 2 {
            CommandView::Ignored
        } else if w[1] == "status"@ {
            CommandView::Mqtt(MqttAction::Status)
        } else if w[1] == "temp"@ {
            CommandView::Mqtt(MqttAction::Temperature)
        } else {
            CommandView::Mqtt(MqttAction::Usage)
        }
    } else if w[0] == "spawn"@ {
        if w.len() == 5 {
            CommandView::Spawn { device_id: w[1], x: w[2], y: w[3], z: w[4] }
        } else {
            CommandView::Ignored
        }
    } else if w[0] == "spawn_door"@ {
        if w.len() == 5 {
            CommandView::SpawnDoor { device_id: w[1], x: w[2], y: w[3], z: w[4] }
        } else {
            CommandView::Ignored
        }
    } else if w[0] == "place"@ {
        if w.len() != 5 {
            CommandView::Ignored
        } else {
            match spec_parse_pos(w[2], w[3], w[4]) {
                Some(pos) => match spec_block_from_name(w[1]) {
                    Some(block) => CommandView::Place { block, pos },
                    None => CommandView::InvalidPlaceBlock { name: w[1] },
                },
                None => CommandView::Ignored,
            }
        }
    } else if w[0] == "remove"@ {
        if w.len() != 4 {
            CommandView::Ignored
        } else {
            match spec_parse_pos(w[1], w[2], w[3]) {
                Some(pos) => CommandView::Remove { pos },
                None => CommandView::Ignored,
            }
        }
    } else if w[0] == "give"@ {
        if w.len() != 3 {
            CommandView::Ignored
        } else {
            match spec_parse_usize(w[2]) {
                Some(quantity) => match spec_block_from_name(w[1]) {
                    Some(block) => CommandView::Give { block, quantity },
                    None => CommandView::InvalidItem { name: w[1] },
                },
                None => CommandView::Ignored,
            }
        }
    } else if w[0] == "wall"@ {
        if w.len() != 8 {
            CommandView::Ignored
        } else {
            match (spec_parse_pos(w[2], w[3], w[4]), spec_parse_pos(w[5], w[6], w[7])) {
                (Some(from), Some(to)) => match spec_block_from_name(w[1]) {
                    Some(block) => CommandView::Wall { block, from, to },
                    None => CommandView::InvalidWallBlock { name: w[1] },
                },
                _ => CommandView::Ignored,
            }
        }
    } else if w[0] == "tp"@ {
        if w.len() == 4 {
            CommandView::Teleport { x: w[1], y: w[2], z: w[3] }
        } else {
            CommandView::Ignored
        }
    } else if w[0] == "look"@ {
        if w.len() == 3 {
            CommandView::Look { yaw: w[1], pitch: w[2] }
        } else {
            CommandView::Ignored
        }
    } else if w[0] == "list"@ {
        CommandView::List
    } else if w[0] == "publish_world"@ {
        CommandView::PublishWorld
    } else if w[0] == "join_world"@ {
        CommandView::JoinWorld
    } else if w[0] == "create_world"@ {
        if w.len() >= 3 {
            CommandView::CreateWorld {
                name: w[1],
                description: join_with(w.subrange(2, w.len() as int), " "@),
            }
        } else {
            CommandView::CreateWorldUsage
        }
    } else if w[0] == "set_game_state"@ {
        if w.len() >= 2 {
            match spec_console_game_state(w[1]) {
                Some(s) => CommandView::SetGameState(s),
                None => CommandView::InvalidGameState { name: w[1] },
            }
        } else {
            CommandView::SetGameStateUsage
        }
    } else {
        CommandView::Unknown
    }
}

} // verus!

verus! {

/// The game state named exactly `name` (console spelling).
pub fn console_game_state(name: &str) -> (s: Option<GameState>)
    ensures
        s == spec_console_game_state(name@),
{
    if str_eq(name, "MainMenu") {
        Some(GameState::MainMenu)
    } else if str_eq(name, "WorldSelection") {
        Some(GameState::WorldSelection)
    } else if str_eq(name, "InGame") {
        Some(GameState::InGame)
    } else if str_eq(name, "Settings") {
        Some(GameState::Settings)
    } else if str_eq(name, "GameplayMenu") {
        Some(GameState::GameplayMenu)
    } else {
        None
    }
}

/// Three `i32` coordinates.
pub fn parse_pos(x: &str, y: &str, z: &str) -> (p: Option<BlockPos>)
    ensures
        p == spec_parse_pos(x@, y@, z@),
{
    match (parse_i32(x), parse_i32(y), parse_i32(z)) {
        (Some(a), Some(b), Some(c)) => Some((a, b, c)),
        _ => None,
    }
}

/// Parse the words of a command (the line without its request id).
pub fn parse_command(command: &str) -> (c: ConsoleCommand)
    ensures
        c@ == spec_parse_command(ws_tokens(command@)),
{
    let w = split_whitespace(command);
    let ghost ws = ws_tokens(command@);
    proof {
        assert forall|i: int| 0 <= i < w@.len() implies #[trigger] w@[i]@ == ws[i] by {
            assert(views(w@)[i] == w@[i]@);
        }
    }
    if w.len() == 0 {
        return ConsoleCommand::Empty;
    }
    let head = w[0].as_str();
    let n = w.len();
    if str_eq(head, "get_client_info") {
        ConsoleCommand::GetClientInfo
    } else if str_eq(head, "get_game_state") {
        ConsoleCommand::GetGameState
    } else if str_eq(head, "health_check") {
        ConsoleCommand::HealthCheck
    } else if str_eq(head, "get_system_info") {
        ConsoleCommand::GetSystemInfo
    } else if str_eq(head, "get_world_status") {
        ConsoleCommand::GetWorldStatus
    } else if str_eq(head, "get_sensor_data") {
        ConsoleCommand::GetSensorData
    } else if str_eq(head, "get_mqtt_status") {
        ConsoleCommand::GetMqttStatus
    } else if str_eq(head, "blink") {
        if n != 2 {
            ConsoleCommand::Ignored
        } else if str_eq(w[1].as_str(), "start") {
            ConsoleCommand::Blink(BlinkAction::Start)
        } else if str_eq(w[1].as_str(), "stop") {
            ConsoleCommand::Blink(BlinkAction::Stop)
        } else {
            ConsoleCommand::Blink(BlinkAction::Usage)
        }
    } else if str_eq(head, "mqtt") {
        if n != 2 {
            ConsoleCommand::Ignored
        } else if str_eq(w[1].as_str(), "status") {
            ConsoleCommand::Mqtt(MqttAction::Status)
        } else if str_eq(w[1].as_str(), "temp") {
            ConsoleCommand::Mqtt(MqttAction::Temperature)
        } else {
            ConsoleCommand::Mqtt(MqttAction::Usage)
        }
    } else if str_eq(head, "spawn") {
        if n == 5 {
            ConsoleCommand::Spawn {
                device_id: w[1].clone(),
                x: w[2].clone(),
                y: w[3].clone(),
                z: w[4].clone(),
            }
        } else {
            ConsoleCommand::Ignored
        }
    } else if str_eq(head, "spawn_door") {
        if n == 5 {
            ConsoleCommand::SpawnDoor {
                device_id: w[1].clone(),
                x: w[2].clone(),
                y: w[3].clone(),
                z: w[4].clone(),
            }
        } else {
            ConsoleCommand::Ignored
        }
    } else if str_eq(head, "place") {
        if n != 5 {
            ConsoleCommand::Ignored
        } else {
            match parse_pos(w[2].as_str(), w[3].as_str(), w[4].as_str()) {
                Some(pos) => match block_type_from_name(w[1].as_str()) {
                    Some(block) => ConsoleCommand::Place { block, pos },
                    None => ConsoleCommand::InvalidPlaceBlock { name: w[1].clone() },
                },
                None => ConsoleCommand::Ignored,
            }
        }
    } else if str_eq(head, "remove") {
        if n != 4 {
            ConsoleCommand::Ignored
        } else {
            match parse_pos(w[1].as_str(), w[2].as_str(), w[3].as_str()) {
                Some(pos) => ConsoleCommand::Remove { pos },
                None => ConsoleCommand::Ignored,
            }
        }
    } else if str_eq(head, "give") {
        if n != 3 {
            ConsoleCommand::Ignored
        } else {
            match parse_usize(w[2].as_str()) {
                Some(quantity) => match block_type_from_name(w[1].as_str()) {
                    Some(block) => ConsoleCommand::Give { block, quantity },
                    None => ConsoleCommand::InvalidItem { name: w[1].clone() },
                },
                None => ConsoleCommand::Ignored,
            }
        }
    } else if str_eq(head, "wall") {
        if n != 8 {
            ConsoleCommand::Ignored
        } else {
            let from = parse_pos(w[2].as_str(), w[3].as_str(), w[4].as_str());
            let to = parse_pos(w[5].as_str(), w[6].as_str(), w[7].as_str());
            match (from, to) {
                (Some(from), Some(to)) => match block_type_from_name(w[1].as_str()) {
                    Some(block) => ConsoleCommand::Wall { block, from, to },
                    None => ConsoleCommand::InvalidWallBlock { name: w[1].clone() },
                },
                _ => ConsoleCommand::Ignored,
            }
        }
    } else if str_eq(head, "tp") {
        if n == 4 {
            ConsoleCommand::Teleport { x: w[1].clone(), y: w[2].clone(), z: w[3].clone() }
        } else {
            ConsoleCommand::Ignored
        }
    } else if str_eq(head, "look") {
        if n == 3 {
            ConsoleCommand::Look { yaw: w[1].clone(), pitch: w[2].clone() }
        } else {
            ConsoleCommand::Ignored
        }
    } else if str_eq(head, "list") {
        ConsoleCommand::List
    } else if str_eq(head, "publish_world") {
        ConsoleCommand::PublishWorld
    } else if str_eq(head, "join_world") {
        ConsoleCommand::JoinWorld
    } else if str_eq(head, "create_world") {
        if n >= 3 {
            let description = join_from(&w, 2, " ");
            ConsoleCommand::CreateWorld { name: w[1].clone(), description }
        } else {
            ConsoleCommand::CreateWorldUsage
        }
    } else if str_eq(head, "set_game_state") {
        if n >= 2 {
            match console_game_state(w[1].as_str()) {
                Some(s) => ConsoleCommand::SetGameState(s),
                None => ConsoleCommand::InvalidGameState { name: w[1].clone() },
            }
        } else {
            ConsoleCommand::SetGameStateUsage
        }
    } else {
        ConsoleCommand::Unknown
    }
}

} // verus!

verus! {

/// Whether " #" starts at `i` in `s`.
pub open spec fn marker_at(s: Seq<char>, i: int) -> bool {
    0 <= i && i + 1 < s.len() && s[i] == ' ' && s[i + 1] == '#'
}

/// The last position at or before `end` where " #" starts.
pub open spec fn last_marker(s: Seq<char>, end: int) -> Option<int>
    decreases end,
{
    if end < 0 {
        None
    } else if marker_at(s, end) {
        Some(end)
    } else if end == 0 {
        None
    } else {
        last_marker(s, end - 1)
    }
}

/// A line split at its last " #": the command and the request id.
pub open spec fn spec_split_request(line: Seq<char>) -> (Seq<char>, Option<Seq<char>>) {
    match last_marker(line, line.len() - 2) {
        Some(i) => (line.subrange(0, i), Some(line.subrange(i + 2, line.len() as int))),
        None => (line, None),
    }
}

/// Split a line at its last " #" into the command and the request id that
/// follows; a line without " #" has no request id.
pub fn split_request_id(line: &str) -> (res: (String, Option<String>))
    ensures
        res.0@ == spec_split_request(line@).0,
        match res.1 {
            Some(id) => spec_split_request(line@).1 == Some(id@),
            None => spec_split_request(line@).1 is None,
        },
{
    let cs = chars_of(line);
    if cs.len() < 2 {
        return (string_of(cs.as_slice()), None);
    }
    let mut i: usize = cs.len() - 2;
    loop
        invariant
            cs@ == line@,
            cs@.len() == cs.len(),
            i + 2 <= cs@.len(),
            last_marker(line@, line@.len() - 2) == last_marker(line@, i as int),
        decreases i,
    {
        if cs[i] == ' ' && cs[i + 1] == '#' {
            let cmd = string_of(vstd::slice::slice_subrange(cs.as_slice(), 0, i));
            let id = string_of(vstd::slice::slice_subrange(cs.as_slice(), i + 2, cs.len()));
            return (cmd, Some(id));
        }
        if i == 0 {
            return (string_of(cs.as_slice()), None);
        }
        i = i - 1;
    }
}

/// How a position is written in replies: "(x, y, z)".
pub open spec fn spec_coords(p: BlockPos) -> Seq<char> {
    "("@ + int_decimal(p.0 as int) + ", "@ + int_decimal(p.1 as int) + ", "@ + int_decimal(
        p.2 as int,
    ) + ")"@
}

/// The game state's name as the console writes it.
pub open spec fn spec_game_state_name(s: GameState) -> Seq<char> {
    match s {
        GameState::MainMenu => "MainMenu"@,
        GameState::WorldSelection => "WorldSelection"@,
        GameState::InGame => "InGame"@,
        GameState::Settings => "Settings"@,
        GameState::GameplayMenu => "GameplayMenu"@,
        GameState::ConsoleOpen => "ConsoleOpen"@,
    }
}

/// What a command does to the world's blocks.
pub open spec fn spec_apply(cmd: CommandView, m: Map<BlockPos, BlockType>) -> Map<BlockPos, BlockType> {
    match cmd {
        CommandView::Place { block, pos } => m.insert(pos, block),
        CommandView::Remove { pos } => m.remove(pos),
        CommandView::Wall { block, from, to } => filled(m, from, to, block),
        _ => m,
    }
}

/// The text a command writes to the console, for the commands whose text
/// depends on the world and the line alone. `line` is the whole line, request
/// id included; `state_settable` says whether the game lets its state be set.
/// Whether the text also answers the line's request is
/// [`spec_answers_request`].
pub open spec fn spec_console_text(
    cmd: CommandView,
    m: Map<BlockPos, BlockType>,
    line: Seq<char>,
    state_settable: bool,
) -> Option<Seq<char>> {
    match cmd {
        CommandView::Place { block, pos } => Some(
            "Placed "@ + spec_block_name(block) + " block at "@ + spec_coords(pos),
        ),
        CommandView::InvalidPlaceBlock { name } => Some("Invalid block type: "@ + name),
        CommandView::Remove { pos } => Some(
            if m.contains_key(pos) {
                "Removed block at "@ + spec_coords(pos)
            } else {
                "No block found at "@ + spec_coords(pos)
            },
        ),
        CommandView::Give { block, quantity } => Some(
            "Added "@ + nat_decimal(quantity as nat) + " x "@ + spec_block_name(block),
        ),
        CommandView::InvalidItem { name } => Some("Invalid item type: "@ + name),
        CommandView::Wall { block, from, to } => Some(
            "Created a wall of "@ + spec_block_name(block) + " from "@ + spec_coords(from) + " to "@
                + spec_coords(to) + " - "@ + nat_decimal(box_volume(from, to)) + " blocks"@,
        ),
        CommandView::InvalidWallBlock { name } => Some("Invalid block type: "@ + name),
        CommandView::Mqtt(MqttAction::Usage) => Some("Usage: mqtt [status|temp]"@),
        CommandView::PublishWorld => Some("Publishing world (multiplayer command executed)"@),
        CommandView::JoinWorld => Some("Joining world (multiplayer command executed)"@),
        CommandView::CreateWorld { name, description } => Some(
            "Created new world: "@ + name + " ("@ + description + ") and transitioned to InGame"@,
        ),
        CommandView::CreateWorldUsage => Some("Usage: create_world <world_name> <description>"@),
        CommandView::SetGameState(s) => Some(
            if state_settable {
                "Game state set to "@ + spec_game_state_name(s)
            } else {
                "NextState<GameState> resource not available for state transition"@
            },
        ),
        CommandView::InvalidGameState { name } => Some(
            "Invalid game state: "@ + name
                + ". Valid states: MainMenu, WorldSelection, InGame, Settings, GameplayMenu"@,
        ),
        CommandView::SetGameStateUsage => Some("Usage: set_game_state <state>"@),
        CommandView::Unknown => Some("Unknown command: "@ + line),
        _ => None,
    }
}

/// The command a whole line makes.
pub open spec fn spec_line_command(line: Seq<char>) -> CommandView {
    spec_parse_command(ws_tokens(spec_split_request(line).0))
}

/// Whether a line can run without its block count overflowing (a wall of
/// more than `i32::MAX` blocks cannot).
pub open spec fn line_fits(line: Seq<char>) -> bool {
    match spec_line_command(line) {
        CommandView::Wall { from, to, .. } => box_volume(from, to) <= i32::MAX,
        _ => true,
    }
}

/// A command line after it ran.
pub struct ExecutedCommand {
    /// The request id that followed " #", if any.
    pub request_id: Option<String>,
    /// The parsed command.
    pub command: ConsoleCommand,
    /// The text written to the console, for the commands whose text this
    /// module can write.
    pub console_text: Option<String>,
}

fn coords(p: BlockPos) -> (s: String)
    ensures
        s@ == spec_coords(p),
{
    let mut s = String::from_str("(");
    s.append(format_i64(p.0 as i64).as_str());
    s.append(", ");
    s.append(format_i64(p.1 as i64).as_str());
    s.append(", ");
    s.append(format_i64(p.2 as i64).as_str());
    s.append(")");
    s
}

pub(crate) fn game_state_label(s: GameState) -> (n: &'static str)
    ensures
        n@ == spec_game_state_name(s),
{
    match s {
        GameState::MainMenu => "MainMenu",
        GameState::WorldSelection => "WorldSelection",
        GameState::InGame => "InGame",
        GameState::Settings => "Settings",
        GameState::GameplayMenu => "GameplayMenu",
        GameState::ConsoleOpen => "ConsoleOpen",
    }
}

/// Whether the line can run (see [`line_fits`]).
pub fn check_line_fits(line: &str) -> (b: bool)
    ensures
        b == line_fits(line@),
{
    let (cmd_text, _) = split_request_id(line);
    let cmd = parse_command(cmd_text.as_str());
    match cmd {
        ConsoleCommand::Wall { from, to, .. } => volume_between(from, to) <= i32::MAX as u128,
        _ => true,
    }
}

/// Run one command line against the world.
pub fn execute_command(world: &mut VoxelWorld, line: &str, state_settable: bool) -> (done: ExecutedCommand)
    requires
        old(world).wf(),
        line_fits(line@),
    ensures
        final(world).wf(),
        done.command@ == spec_line_command(line@),
        match done.request_id {
            Some(id) => spec_split_request(line@).1 == Some(id@),
            None => spec_split_request(line@).1 is None,
        },
        match done.console_text {
            Some(r) => spec_console_text(done.command@, old(world)@, line@, state_settable) == Some(r@),
            None => spec_console_text(done.command@, old(world)@, line@, state_settable) is None,
        },
        final(world)@ == spec_apply(done.command@, old(world)@),
{
    let (cmd_text, request_id) = split_request_id(line);
    let command = parse_command(cmd_text.as_str());
    let console_text: Option<String> = match &command {
        ConsoleCommand::Place { block, pos } => {
            world.set_block(*pos, *block);
            let mut r = String::from_str("Placed ");
            r.append(block.name());
            r.append(" block at ");
            r.append(coords(*pos).as_str());
            Some(r)
        },
        ConsoleCommand::InvalidPlaceBlock { name } => Some(concat("Invalid block type: ", name.as_str())),
        ConsoleCommand::Remove { pos } => {
            let removed = world.remove_block(*pos);
            let head = if removed.is_some() {
                "Removed block at "
            } else {
                "No block found at "
            };
            Some(concat(head, coords(*pos).as_str()))
        },
        ConsoleCommand::Give { block, quantity } => {
            let mut r = String::from_str("Added ");
            r.append(format_u64(*quantity as u64).as_str());
            r.append(" x ");
            r.append(block.name());
            Some(r)
        },
        ConsoleCommand::InvalidItem { name } => Some(concat("Invalid item type: ", name.as_str())),
        ConsoleCommand::Wall { block, from, to } => {
            let count = world.fill_box(*from, *to, *block);
            let mut r = String::from_str("Created a wall of ");
            r.append(block.name());
            r.append(" from ");
            r.append(coords(*from).as_str());
            r.append(" to ");
            r.append(coords(*to).as_str());
            r.append(" - ");
            r.append(format_u64(count).as_str());
            r.append(" blocks");
            Some(r)
        },
        ConsoleCommand::InvalidWallBlock { name } => Some(concat("Invalid block type: ", name.as_str())),
        ConsoleCommand::Mqtt(MqttAction::Usage) => Some(String::from_str("Usage: mqtt [status|temp]")),
        ConsoleCommand::PublishWorld => Some(String::from_str("Publishing world (multiplayer command executed)")),
        ConsoleCommand::JoinWorld => Some(String::from_str("Joining world (multiplayer command executed)")),
        ConsoleCommand::CreateWorld { name, description } => {
            let mut r = String::from_str("Created new world: ");
            r.append(name.as_str());
            r.append(" (");
            r.append(description.as_str());
            r.append(") and transitioned to InGame");
            Some(r)
        },
        ConsoleCommand::CreateWorldUsage => Some(String::from_str("Usage: create_world <world_name> <description>")),
        ConsoleCommand::SetGameState(s) => {
            if state_settable {
                Some(concat("Game state set to ", game_state_label(*s)))
            } else {
                Some(String::from_str("NextState<GameState> resource not available for state transition"))
            }
        },
        ConsoleCommand::InvalidGameState { name } => {
            let mut r = String::from_str("Invalid game state: ");
            r.append(name.as_str());
            r.append(". Valid states: MainMenu, WorldSelection, InGame, Settings, GameplayMenu");
            Some(r)
        },
        ConsoleCommand::SetGameStateUsage => Some(String::from_str("Usage: set_game_state <state>")),
        ConsoleCommand::Unknown => Some(concat("Unknown command: ", line)),
        _ => None,
    };
    ExecutedCommand { request_id, command, console_text }
}

} // verus!

verus! {

/// Whether a line ends the batch it is in: an unknown game state stops the
/// processing of the queue, and the lines after it are dropped.
pub open spec fn stops_batch(line: Seq<char>) -> bool {
    spec_line_command(line) is InvalidGameState
}

/// The world after the lines ran in order.
pub open spec fn spec_run_lines(m: Map<BlockPos, BlockType>, lines: Seq<Seq<char>>) -> Map<
    BlockPos,
    BlockType,
>
    decreases lines.len(),
{
    if lines.len() == 0 {
        m
    } else {
        spec_apply(spec_line_command(lines.last()), spec_run_lines(m, lines.drop_last()))
    }
}

/// Whether `e` is what running `line` on a world holding `before` reports.
pub open spec fn reports(e: ExecutedCommand, line: Seq<char>, before: Map<BlockPos, BlockType>, state_settable: bool) -> bool {
    &&& e.command@ == spec_line_command(line)
    &&& match e.request_id {
        Some(id) => spec_split_request(line).1 == Some(id@),
        None => spec_split_request(line).1 is None,
    }
    &&& match e.console_text {
        Some(r) => spec_console_text(e.command@, before, line, state_settable) == Some(r@),
        None => spec_console_text(e.command@, before, line, state_settable) is None,
    }
}

/// Run the queued command lines in order against the world, and drain the
/// queue. Processing stops after a line that names an unknown game state; the
/// lines after it are dropped with the rest of the queue.
pub fn execute_pending_commands(
    world: &mut VoxelWorld,
    pending: &mut Vec<String>,
    state_settable: bool,
) -> (done: Vec<ExecutedCommand>)
    requires
        old(world).wf(),
        forall|i: int| 0 <= i < old(pending)@.len() ==> line_fits(#[trigger] old(pending)@[i]@),
    ensures
        final(world).wf(),
        final(pending)@.len() == 0,
        done@.len() <= old(pending)@.len(),
        forall|k: int| 0 <= k < done@.len() - 1 ==> !stops_batch(#[trigger] old(pending)@[k]@),
        done@.len() < old(pending)@.len() ==> done@.len() > 0 && stops_batch(
            old(pending)@[done@.len() - 1]@,
        ),
        forall|k: int|
            0 <= k < done@.len() ==> reports(
                #[trigger] done@[k],
                old(pending)@[k]@,
                spec_run_lines(old(world)@, views(old(pending)@).subrange(0, k)),
                state_settable,
            ),
        final(world)@ == spec_run_lines(old(world)@, views(old(pending)@).subrange(0, done@.len() as int)),
{
    let ghost start = world@;
    let ghost lines = views(pending@);
    let ghost queue = pending@;
    let mut done: Vec<ExecutedCommand> = Vec::new();
    let mut i: usize = 0;
    assert(lines.subrange(0, 0) =~= Seq::<Seq<char>>::empty());
    while i < pending.len()
        invariant
            world.wf(),
            start == old(world)@,
            queue == old(pending)@,
            pending@ == queue,
            lines == views(queue),
            forall|j: int| 0 <= j < queue.len() ==> line_fits(#[trigger] queue[j]@),
            i <= queue.len(),
            done@.len() == i,
            forall|k: int| 0 <= k < i ==> !stops_batch(#[trigger] queue[k]@),
            world@ == spec_run_lines(start, lines.subrange(0, i as int)),
            forall|k: int|
                0 <= k < i ==> reports(
                    #[trigger] done@[k],
                    queue[k]@,
                    spec_run_lines(start, lines.subrange(0, k)),
                    state_settable,
                ),
        decreases queue.len() - i,
    {
        proof {
            assert(lines[i as int] == queue[i as int]@);
            assert(lines.subrange(0, i + 1).drop_last() == lines.subrange(0, i as int));
            assert(lines.subrange(0, i + 1).last() == queue[i as int]@);
        }
        let executed = execute_command(world, pending[i].as_str(), state_settable);
        let stop = matches!(executed.command, ConsoleCommand::InvalidGameState { .. });
        let ghost old_done = done@;
        done.push(executed);
        proof {
            assert forall|k: int| 0 <= k < i + 1 implies reports(
                #[trigger] done@[k],
                queue[k]@,
                spec_run_lines(start, lines.subrange(0, k)),
                state_settable,
            ) by {
                if k < i {
                    assert(done@[k] == old_done[k]);
                }
            }
        }
        i = i + 1;
        if stop {
            pending.clear();
            return done;
        }
    }
    pending.clear();
    done
}

} // verus!

verus! {

/// A command line as the browser client reads it.
#[derive(Debug)]
pub enum WebCommand {
    /// A line without words.
    Empty,
    Blink(BlinkAction),
    Mqtt(MqttAction),
    /// Place a block.
    Place { block: BlockType, pos: BlockPos },
    /// Fill the box between two corners, given in any order.
    Wall { block: BlockType, from: BlockPos, to: BlockPos },
    Teleport { x: String, y: String, z: String },
    Look { yaw: String, pitch: String },
    Give { block: BlockType, count: u32 },
    /// A known command whose arguments do not fit; nothing happens.
    Ignored,
    Unknown,
}

/// [`WebCommand`] with its texts as character sequences.
pub enum WebCommandView {
    Empty,
    Blink(BlinkAction),
    Mqtt(MqttAction),
    Place { block: BlockType, pos: BlockPos },
    Wall { block: BlockType, from: BlockPos, to: BlockPos },
    Teleport { x: Seq<char>, y: Seq<char>, z: Seq<char> },
    Look { yaw: Seq<char>, pitch: Seq<char> },
    Give { block: BlockType, count: u32 },
    Ignored,
    Unknown,
}

impl View for WebCommand {
    type V = WebCommandView;

    open spec fn view(&self) -> WebCommandView {
        match self {
            WebCommand::Empty => WebCommandView::Empty,
            WebCommand::Blink(a) => WebCommandView::Blink(*a),
            WebCommand::Mqtt(a) => WebCommandView::Mqtt(*a),
            WebCommand::Place { block, pos } => WebCommandView::Place { block: *block, pos: *pos },
            WebCommand::Wall { block, from, to } => WebCommandView::Wall {
                block: *block,
                from: *from,
                to: *to,
            },
            WebCommand::Teleport { x, y, z } => WebCommandView::Teleport { x: x@, y: y@, z: z@ },
            WebCommand::Look { yaw, pitch } => WebCommandView::Look { yaw: yaw@, pitch: pitch@ },
            WebCommand::Give { block, count } => WebCommandView::Give { block: *block, count: *count },
            WebCommand::Ignored => WebCommandView::Ignored,
            WebCommand::Unknown => WebCommandView::Unknown,
        }
    }
}

/// The corner with the smaller coordinate on each axis.
pub open spec fn min_corner(a: BlockPos, b: BlockPos) -> BlockPos {
    (
        if a.0 <= b.0 { a.0 } else { b.0 },
        if a.1 <= b.1 { a.1 } else { b.1 },
        if a.2 <= b.2 { a.2 } else { b.2 },
    )
}

/// The corner with the larger coordinate on each axis.
pub open spec fn max_corner(a: BlockPos, b: BlockPos) -> BlockPos {
    (
        if a.0 >= b.0 { a.0 } else { b.0 },
        if a.1 >= b.1 { a.1 } else { b.1 },
        if a.2 >= b.2 { a.2 } else { b.2 },
    )
}

/// The browser's reading of the words of a line.
pub open spec fn spec_parse_web_command(w: Seq<Seq<char>>) -> WebCommandView {
    if w.len() == 0 {
        WebCommandView::Empty
    } else if w[0] == "blink"@ {
        if w.len() != 2 {
            WebCommandView::Ignored
        } else if w[1] == "start"@ {
            WebCommandView::Blink(BlinkAction::Start)
        } else if w[1] == "stop"@ {
            WebCommandView::Blink(BlinkAction::Stop)
        } else {
            WebCommandView::Blink(BlinkAction::Usage)
        }
    } else if w[0] == "mqtt"@ {
        if w.len() != 2 {
            WebCommandView::Ignored
        } else if w[1] == "status"@ {
            WebCommandView::Mqtt(MqttAction::Status)
        } else if w[1] == "temp"@ {
            WebCommandView::Mqtt(MqttAction::Temperature)
        } else {
            WebCommandView::Mqtt(MqttAction::Usage)
        }
    } else if w[0] == "place"@ {
        if w.len() != 5 {
            WebCommandView::Ignored
        } else {
            match (spec_parse_pos(w[2], w[3], w[4]), spec_block_from_name(w[1])) {
                (Some(pos), Some(block)) => WebCommandView::Place { block, pos },
                _ => WebCommandView::Ignored,
            }
        }
    } else if w[0] == "wall"@ {
        if w.len() != 8 {
            WebCommandView::Ignored
        } else {
            match (
                spec_parse_pos(w[2], w[3], w[4]),
                spec_parse_pos(w[5], w[6], w[7]),
                spec_block_from_name(w[1]),
            ) {
                (Some(a), Some(b), Some(block)) => WebCommandView::Wall {
                    block,
                    from: min_corner(a, b),
                    to: max_corner(a, b),
                },
                _ => WebCommandView::Ignored,
            }
        }
    } else if w[0] == "tp"@ || w[0] == "teleport"@ {
        if w.len() == 4 {
            WebCommandView::Teleport { x: w[1], y: w[2], z: w[3] }
        } else {
            WebCommandView::Ignored
        }
    } else if w[0] == "look"@ {
        if w.len() == 3 {
            WebCommandView::Look { yaw: w[1], pitch: w[2] }
        } else {
            WebCommandView::Ignored
        }
    } else if w[0] == "give"@ {
        if w.len() != 3 {
            WebCommandView::Ignored
        } else {
            match (crate::text::spec_parse_u32(w[2]), spec_block_from_name(w[1])) {
                (Some(count), Some(block)) => WebCommandView::Give { block, count },
                _ => WebCommandView::Ignored,
            }
        }
    } else {
        WebCommandView::Unknown
    }
}

/// Parse a line the way the browser client does.
pub fn parse_web_command(line: &str) -> (c: WebCommand)
    ensures
        c@ == spec_parse_web_command(ws_tokens(line@)),
{
    let w = split_whitespace(line);
    let ghost ws = ws_tokens(line@);
    proof {
        assert forall|i: int| 0 <= i < w@.len() implies #[trigger] w@[i]@ == ws[i] by {
            assert(views(w@)[i] == w@[i]@);
        }
    }
    if w.len() == 0 {
        return WebCommand::Empty;
    }
    let head = w[0].as_str();
    let n = w.len();
    if str_eq(head, "blink") {
        if n != 2 {
            WebCommand::Ignored
        } else if str_eq(w[1].as_str(), "start") {
            WebCommand::Blink(BlinkAction::Start)
        } else if str_eq(w[1].as_str(), "stop") {
            WebCommand::Blink(BlinkAction::Stop)
        } else {
            WebCommand::Blink(BlinkAction::Usage)
        }
    } else if str_eq(head, "mqtt") {
        if n != 2 {
            WebCommand::Ignored
        } else if str_eq(w[1].as_str(), "status") {
            WebCommand::Mqtt(MqttAction::Status)
        } else if str_eq(w[1].as_str(), "temp") {
            WebCommand::Mqtt(MqttAction::Temperature)
        } else {
            WebCommand::Mqtt(MqttAction::Usage)
        }
    } else if str_eq(head, "place") {
        if n != 5 {
            WebCommand::Ignored
        } else {
            match (
                parse_pos(w[2].as_str(), w[3].as_str(), w[4].as_str()),
                block_type_from_name(w[1].as_str()),
            ) {
                (Some(pos), Some(block)) => WebCommand::Place { block, pos },
                _ => WebCommand::Ignored,
            }
        }
    } else if str_eq(head, "wall") {
        if n != 8 {
            WebCommand::Ignored
        } else {
            match (
                parse_pos(w[2].as_str(), w[3].as_str(), w[4].as_str()),
                parse_pos(w[5].as_str(), w[6].as_str(), w[7].as_str()),
                block_type_from_name(w[1].as_str()),
            ) {
                (Some(a), Some(b), Some(block)) => {
                    let from = (
                        if a.0 <= b.0 { a.0 } else { b.0 },
                        if a.1 <= b.1 { a.1 } else { b.1 },
                        if a.2 <= b.2 { a.2 } else { b.2 },
                    );
                    let to = (
                        if a.0 >= b.0 { a.0 } else { b.0 },
                        if a.1 >= b.1 { a.1 } else { b.1 },
                        if a.2 >= b.2 { a.2 } else { b.2 },
                    );
                    WebCommand::Wall { block, from, to }
                },
                _ => WebCommand::Ignored,
            }
        }
    } else if str_eq(head, "tp") || str_eq(head, "teleport") {
        if n == 4 {
            WebCommand::Teleport { x: w[1].clone(), y: w[2].clone(), z: w[3].clone() }
        } else {
            WebCommand::Ignored
        }
    } else if str_eq(head, "look") {
        if n == 3 {
            WebCommand::Look { yaw: w[1].clone(), pitch: w[2].clone() }
        } else {
            WebCommand::Ignored
        }
    } else if str_eq(head, "give") {
        if n != 3 {
            WebCommand::Ignored
        } else {
            match (crate::text::parse_u32(w[2].as_str()), block_type_from_name(w[1].as_str())) {
                (Some(count), Some(block)) => WebCommand::Give { block, count },
                _ => WebCommand::Ignored,
            }
        }
    } else {
        WebCommand::Unknown
    }
}

/// What the browser does with a queue of `count` lines while the built-in
/// scene guard is `guard`: whether the lines run, and the guard after. A
/// guarded queue of fewer than 20 lines is dropped; a longer one (a world
/// template) lifts the guard and runs.
pub fn web_guard(guard: bool, count: usize) -> (r: (bool, bool))
    ensures
        r == (if guard && count < 20 {
            (false, true)
        } else {
            (true, false)
        }),
{
    if guard && count < 20 {
        (false, true)
    } else {
        (true, false)
    }
}

/// What a browser command does to the world's blocks.
pub open spec fn spec_apply_web(cmd: WebCommandView, m: Map<BlockPos, BlockType>) -> Map<BlockPos, BlockType> {
    match cmd {
        WebCommandView::Place { block, pos } => m.insert(pos, block),
        WebCommandView::Wall { block, from, to } => filled(m, from, to, block),
        _ => m,
    }
}

/// Whether a browser line can run without its block count overflowing.
pub open spec fn web_line_fits(line: Seq<char>) -> bool {
    match spec_parse_web_command(ws_tokens(line)) {
        WebCommandView::Wall { from, to, .. } => box_volume(from, to) <= i32::MAX,
        _ => true,
    }
}

/// Run one line in the browser client: blocks go into the world; the other
/// commands are handed back. For a wall, also the number of blocks placed.
pub fn execute_web_command(world: &mut VoxelWorld, line: &str) -> (r: (WebCommand, Option<u64>))
    requires
        old(world).wf(),
        web_line_fits(line@),
    ensures
        final(world).wf(),
        r.0@ == spec_parse_web_command(ws_tokens(line@)),
        final(world)@ == spec_apply_web(r.0@, old(world)@),
        match r.0@ {
            WebCommandView::Wall { from, to, .. } => r.1 == Some(box_volume(from, to) as u64),
            _ => r.1 is None,
        },
{
    let cmd = parse_web_command(line);
    let count = match &cmd {
        WebCommand::Place { block, pos } => {
            world.set_block(*pos, *block);
            None
        },
        WebCommand::Wall { block, from, to } => Some(world.fill_box(*from, *to, *block)),
        _ => None,
    };
    (cmd, count)
}

} // verus!

verus! {

/// The world after the browser ran the lines in order.
pub open spec fn spec_run_web_lines(m: Map<BlockPos, BlockType>, lines: Seq<Seq<char>>) -> Map<
    BlockPos,
    BlockType,
>
    decreases lines.len(),
{
    if lines.len() == 0 {
        m
    } else {
        spec_apply_web(
            spec_parse_web_command(ws_tokens(lines.last())),
            spec_run_web_lines(m, lines.drop_last()),
        )
    }
}

/// Run the browser's queued lines, honouring the built-in scene guard (see
/// [`web_guard`]), and drain the queue. Gives the commands that ran.
pub fn execute_pending_commands_web(
    world: &mut VoxelWorld,
    pending: &mut Vec<String>,
    guard: &mut bool,
) -> (done: Vec<WebCommand>)
    requires
        old(world).wf(),
        !(*old(guard) && old(pending)@.len() < 20) ==> forall|i: int|
            0 <= i < old(pending)@.len() ==> web_line_fits(#[trigger] old(pending)@[i]@),
    ensures
        final(world).wf(),
        final(pending)@.len() == 0,
        *final(guard) == (*old(guard) && old(pending)@.len() < 20),
        if *old(guard) && old(pending)@.len() < 20 {
            done@.len() == 0 && final(world)@ == old(world)@
        } else {
            &&& done@.len() == old(pending)@.len()
            &&& forall|k: int|
                0 <= k < done@.len() ==> (#[trigger] done@[k])@ == spec_parse_web_command(
                    ws_tokens(old(pending)@[k]@),
                )
            &&& final(world)@ == spec_run_web_lines(old(world)@, views(old(pending)@))
        },
{
    let (run, new_guard) = web_guard(*guard, pending.len());
    *guard = new_guard;
    let mut done: Vec<WebCommand> = Vec::new();
    if !run {
        pending.clear();
        return done;
    }
    let ghost start = world@;
    let ghost lines = views(pending@);
    let ghost queue = pending@;
    let mut i: usize = 0;
    assert(lines.subrange(0, 0) =~= Seq::<Seq<char>>::empty());
    while i < pending.len()
        invariant
            world.wf(),
            start == old(world)@,
            queue == old(pending)@,
            pending@ == queue,
            lines == views(queue),
            forall|j: int| 0 <= j < queue.len() ==> web_line_fits(#[trigger] queue[j]@),
            i <= queue.len(),
            done@.len() == i,
            world@ == spec_run_web_lines(start, lines.subrange(0, i as int)),
            forall|k: int|
                0 <= k < i ==> (#[trigger] done@[k])@ == spec_parse_web_command(ws_tokens(queue[k]@)),
        decreases queue.len() - i,
    {
        proof {
            assert(lines[i as int] == queue[i as int]@);
            assert(lines.subrange(0, i + 1).drop_last() == lines.subrange(0, i as int));
            assert(lines.subrange(0, i + 1).last() == queue[i as int]@);
        }
        let (cmd, _) = execute_web_command(world, pending[i].as_str());
        done.push(cmd);
        i = i + 1;
    }
    assert(lines.subrange(0, queue.len() as int) == lines);
    pending.clear();
    done
}

} // verus!

verus! {

proof fn lemma_last_marker_at(s: Seq<char>, k: int, end: int)
    requires
        marker_at(s, k),
        k <= end,
        forall|j: int| k < j <= end ==> !marker_at(s, j),
    ensures
        last_marker(s, end) == Some(k),
    decreases end,
{
    if end > k {
        lemma_last_marker_at(s, k, end - 1);
    }
}

/// A request id written after a command with " #" comes back out, and the
/// command with it, as long as the id itself holds no " #".
pub proof fn law_request_id_roundtrip(command: Seq<char>, id: Seq<char>)
    requires
        !crate::text::has_infix(id, " #"@),
    ensures
        spec_split_request(command + " #"@ + id) == (command, Some(id)),
{
    reveal_strlit(" #");
    let line = command + " #"@ + id;
    let k = command.len() as int;
    assert(line[k] == ' ' && line[k + 1] == '#');
    assert forall|j: int| k < j <= line.len() - 2 implies !marker_at(line, j) by {
        if j > k + 1 {
            if marker_at(line, j) {
                let i = j - k - 2;
                assert(line[j] == id[i]);
                assert(line[j + 1] == id[i + 1]);
                assert(id.subrange(i, i + 2) =~= " #"@);
                assert(crate::text::occurs_at(id, " #"@, i));
            }
        }
    }
    lemma_last_marker_at(line, k, line.len() - 2);
    assert(line.subrange(0, k) =~= command);
    assert(line.subrange(k + 2, line.len() as int) =~= id);
}

/// The arguments of the console's positional commands come from the words in
/// the order they were typed: `tp x y z` moves the camera to x, y, z;
/// `look yaw pitch` turns it; `spawn id x y z` and `spawn_door id x y z` name
/// the device and its coordinates; `place block x y z` and `remove x y z`
/// act at x, y, z; `wall block x1 y1 z1 x2 y2 z2` runs from the first three
/// numbers to the last three.
pub proof fn law_command_arguments_in_order(w: Seq<Seq<char>>)
    ensures
        w.len() == 4 && w[0] == "tp"@ ==> spec_parse_command(w) == (CommandView::Teleport {
            x: w[1],
            y: w[2],
            z: w[3],
        }),
        w.len() == 3 && w[0] == "look"@ ==> spec_parse_command(w) == (CommandView::Look {
            yaw: w[1],
            pitch: w[2],
        }),
        w.len() == 5 && w[0] == "spawn"@ ==> spec_parse_command(w) == (CommandView::Spawn {
            device_id: w[1],
            x: w[2],
            y: w[3],
            z: w[4],
        }),
        w.len() == 5 && w[0] == "spawn_door"@ ==> spec_parse_command(w) == (CommandView::SpawnDoor {
            device_id: w[1],
            x: w[2],
            y: w[3],
            z: w[4],
        }),
        w.len() == 5 && w[0] == "place"@ && spec_block_from_name(w[1]) is Some && spec_parse_i32(
            w[2],
        ) is Some && spec_parse_i32(w[3]) is Some && spec_parse_i32(w[4]) is Some
            ==> spec_parse_command(w) == (CommandView::Place {
            block: spec_block_from_name(w[1])->0,
            pos: (spec_parse_i32(w[2])->0, spec_parse_i32(w[3])->0, spec_parse_i32(w[4])->0),
        }),
        w.len() == 4 && w[0] == "remove"@ && spec_parse_i32(w[1]) is Some && spec_parse_i32(w[2])
            is Some && spec_parse_i32(w[3]) is Some ==> spec_parse_command(w) == (CommandView::Remove {
            pos: (spec_parse_i32(w[1])->0, spec_parse_i32(w[2])->0, spec_parse_i32(w[3])->0),
        }),
        w.len() == 8 && w[0] == "wall"@ && spec_block_from_name(w[1]) is Some && spec_parse_i32(w[2])
            is Some && spec_parse_i32(w[3]) is Some && spec_parse_i32(w[4]) is Some && spec_parse_i32(
            w[5],
        ) is Some && spec_parse_i32(w[6]) is Some && spec_parse_i32(w[7]) is Some
            ==> spec_parse_command(w) == (CommandView::Wall {
            block: spec_block_from_name(w[1])->0,
            from: (spec_parse_i32(w[2])->0, spec_parse_i32(w[3])->0, spec_parse_i32(w[4])->0),
            to: (spec_parse_i32(w[5])->0, spec_parse_i32(w[6])->0, spec_parse_i32(w[7])->0),
        }),
{
    reveal_strlit("get_client_info");
    reveal_strlit("get_game_state");
    reveal_strlit("health_check");
    reveal_strlit("get_system_info");
    reveal_strlit("get_world_status");
    reveal_strlit("get_sensor_data");
    reveal_strlit("get_mqtt_status");
    reveal_strlit("blink");
    reveal_strlit("mqtt");
    reveal_strlit("spawn");
    reveal_strlit("spawn_door");
    reveal_strlit("place");
    reveal_strlit("remove");
    reveal_strlit("give");
    reveal_strlit("wall");
    reveal_strlit("tp");
    reveal_strlit("look");
    reveal_strlit("list");
    reveal_strlit("publish_world");
    reveal_strlit("join_world");
    reveal_strlit("create_world");
    assert("tp"@ != "get_client_info"@) by { assert("tp"@.len() != "get_client_info"@.len()); }
    assert("tp"@ != "get_game_state"@) by { assert("tp"@.len() != "get_game_state"@.len()); }
    assert("tp"@ != "health_check"@) by { assert("tp"@.len() != "health_check"@.len()); }
    assert("tp"@ != "get_system_info"@) by { assert("tp"@.len() != "get_system_info"@.len()); }
    assert("tp"@ != "get_world_status"@) by { assert("tp"@.len() != "get_world_status"@.len()); }
    assert("tp"@ != "get_sensor_data"@) by { assert("tp"@.len() != "get_sensor_data"@.len()); }
    assert("tp"@ != "get_mqtt_status"@) by { assert("tp"@.len() != "get_mqtt_status"@.len()); }
    assert("tp"@ != "blink"@) by { assert("tp"@.len() != "blink"@.len()); }
    assert("tp"@ != "mqtt"@) by { assert("tp"@.len() != "mqtt"@.len()); }
    assert("tp"@ != "spawn"@) by { assert("tp"@.len() != "spawn"@.len()); }
    assert("tp"@ != "spawn_door"@) by { assert("tp"@.len() != "spawn_door"@.len()); }
    assert("tp"@ != "place"@) by { assert("tp"@.len() != "place"@.len()); }
    assert("tp"@ != "remove"@) by { assert("tp"@.len() != "remove"@.len()); }
    assert("tp"@ != "give"@) by { assert("tp"@.len() != "give"@.len()); }
    assert("tp"@ != "wall"@) by { assert("tp"@.len() != "wall"@.len()); }
    assert("look"@ != "get_client_info"@) by { assert("look"@.len() != "get_client_info"@.len()); }
    assert("look"@ != "get_game_state"@) by { assert("look"@.len() != "get_game_state"@.len()); }
    assert("look"@ != "health_check"@) by { assert("look"@.len() != "health_check"@.len()); }
    assert("look"@ != "get_system_info"@) by { assert("look"@.len() != "get_system_info"@.len()); }
    assert("look"@ != "get_world_status"@) by { assert("look"@.len() != "get_world_status"@.len()); }
    assert("look"@ != "get_sensor_data"@) by { assert("look"@.len() != "get_sensor_data"@.len()); }
    assert("look"@ != "get_mqtt_status"@) by { assert("look"@.len() != "get_mqtt_status"@.len()); }
    assert("look"@ != "blink"@) by { assert("look"@.len() != "blink"@.len()); }
    assert("look"@ != "mqtt"@) by { assert("look"@[0] != "mqtt"@[0]); }
    assert("look"@ != "spawn"@) by { assert("look"@.len() != "spawn"@.len()); }
    assert("look"@ != "spawn_door"@) by { assert("look"@.len() != "spawn_door"@.len()); }
    assert("look"@ != "place"@) by { assert("look"@.len() != "place"@.len()); }
    assert("look"@ != "remove"@) by { assert("look"@.len() != "remove"@.len()); }
    assert("look"@ != "give"@) by { assert("look"@[0] != "give"@[0]); }
    assert("look"@ != "wall"@) by { assert("look"@[0] != "wall"@[0]); }
    assert("look"@ != "tp"@) by { assert("look"@.len() != "tp"@.len()); }
    assert("spawn"@ != "get_client_info"@) by { assert("spawn"@.len() != "get_client_info"@.len()); }
    assert("spawn"@ != "get_game_state"@) by { assert("spawn"@.len() != "get_game_state"@.len()); }
    assert("spawn"@ != "health_check"@) by { assert("spawn"@.len() != "health_check"@.len()); }
    assert("spawn"@ != "get_system_info"@) by { assert("spawn"@.len() != "get_system_info"@.len()); }
    assert("spawn"@ != "get_world_status"@) by { assert("spawn"@.len() != "get_world_status"@.len()); }
    assert("spawn"@ != "get_sensor_data"@) by { assert("spawn"@.len() != "get_sensor_data"@.len()); }
    assert("spawn"@ != "get_mqtt_status"@) by { assert("spawn"@.len() != "get_mqtt_status"@.len()); }
    assert("spawn"@ != "blink"@) by { assert("spawn"@[0] != "blink"@[0]); }
    assert("spawn"@ != "mqtt"@) by { assert("spawn"@.len() != "mqtt"@.len()); }
    assert("spawn_door"@ != "get_client_info"@) by { assert("spawn_door"@.len() != "get_client_info"@.len()); }
    assert("spawn_door"@ != "get_game_state"@) by { assert("spawn_door"@.len() != "get_game_state"@.len()); }
    assert("spawn_door"@ != "health_check"@) by { assert("spawn_door"@.len() != "health_check"@.len()); }
    assert("spawn_door"@ != "get_system_info"@) by { assert("spawn_door"@.len() != "get_system_info"@.len()); }
    assert("spawn_door"@ != "get_world_status"@) by { assert("spawn_door"@.len() != "get_world_status"@.len()); }
    assert("spawn_door"@ != "get_sensor_data"@) by { assert("spawn_door"@.len() != "get_sensor_data"@.len()); }
    assert("spawn_door"@ != "get_mqtt_status"@) by { assert("spawn_door"@.len() != "get_mqtt_status"@.len()); }
    assert("spawn_door"@ != "blink"@) by { assert("spawn_door"@.len() != "blink"@.len()); }
    assert("spawn_door"@ != "mqtt"@) by { assert("spawn_door"@.len() != "mqtt"@.len()); }
    assert("spawn_door"@ != "spawn"@) by { assert("spawn_door"@.len() != "spawn"@.len()); }
    assert("place"@ != "get_client_info"@) by { assert("place"@.len() != "get_client_info"@.len()); }
    assert("place"@ != "get_game_state"@) by { assert("place"@.len() != "get_game_state"@.len()); }
    assert("place"@ != "health_check"@) by { assert("place"@.len() != "health_check"@.len()); }
    assert("place"@ != "get_system_info"@) by { assert("place"@.len() != "get_system_info"@.len()); }
    assert("place"@ != "get_world_status"@) by { assert("place"@.len() != "get_world_status"@.len()); }
    assert("place"@ != "get_sensor_data"@) by { assert("place"@.len() != "get_sensor_data"@.len()); }
    assert("place"@ != "get_mqtt_status"@) by { assert("place"@.len() != "get_mqtt_status"@.len()); }
    assert("place"@ != "blink"@) by { assert("place"@[0] != "blink"@[0]); }
    assert("place"@ != "mqtt"@) by { assert("place"@.len() != "mqtt"@.len()); }
    assert("place"@ != "spawn"@) by { assert("place"@[0] != "spawn"@[0]); }
    assert("place"@ != "spawn_door"@) by { assert("place"@.len() != "spawn_door"@.len()); }
    assert("remove"@ != "get_client_info"@) by { assert("remove"@.len() != "get_client_info"@.len()); }
    assert("remove"@ != "get_game_state"@) by { assert("remove"@.len() != "get_game_state"@.len()); }
    assert("remove"@ != "health_check"@) by { assert("remove"@.len() != "health_check"@.len()); }
    assert("remove"@ != "get_system_info"@) by { assert("remove"@.len() != "get_system_info"@.len()); }
    assert("remove"@ != "get_world_status"@) by { assert("remove"@.len() != "get_world_status"@.len()); }
    assert("remove"@ != "get_sensor_data"@) by { assert("remove"@.len() != "get_sensor_data"@.len()); }
    assert("remove"@ != "get_mqtt_status"@) by { assert("remove"@.len() != "get_mqtt_status"@.len()); }
    assert("remove"@ != "blink"@) by { assert("remove"@.len() != "blink"@.len()); }
    assert("remove"@ != "mqtt"@) by { assert("remove"@.len() != "mqtt"@.len()); }
    assert("remove"@ != "spawn"@) by { assert("remove"@.len() != "spawn"@.len()); }
    assert("remove"@ != "spawn_door"@) by { assert("remove"@.len() != "spawn_door"@.len()); }
    assert("remove"@ != "place"@) by { assert("remove"@.len() != "place"@.len()); }
    assert("wall"@ != "get_client_info"@) by { assert("wall"@.len() != "get_client_info"@.len()); }
    assert("wall"@ != "get_game_state"@) by { assert("wall"@.len() != "get_game_state"@.len()); }
    assert("wall"@ != "health_check"@) by { assert("wall"@.len() != "health_check"@.len()); }
    assert("wall"@ != "get_system_info"@) by { assert("wall"@.len() != "get_system_info"@.len()); }
    assert("wall"@ != "get_world_status"@) by { assert("wall"@.len() != "get_world_status"@.len()); }
    assert("wall"@ != "get_sensor_data"@) by { assert("wall"@.len() != "get_sensor_data"@.len()); }
    assert("wall"@ != "get_mqtt_status"@) by { assert("wall"@.len() != "get_mqtt_status"@.len()); }
    assert("wall"@ != "blink"@) by { assert("wall"@.len() != "blink"@.len()); }
    assert("wall"@ != "mqtt"@) by { assert("wall"@[0] != "mqtt"@[0]); }
    assert("wall"@ != "spawn"@) by { assert("wall"@.len() != "spawn"@.len()); }
    assert("wall"@ != "spawn_door"@) by { assert("wall"@.len() != "spawn_door"@.len()); }
    assert("wall"@ != "place"@) by { assert("wall"@.len() != "place"@.len()); }
    assert("wall"@ != "remove"@) by { assert("wall"@.len() != "remove"@.len()); }
    assert("wall"@ != "give"@) by { assert("wall"@[0] != "give"@[0]); }
}

/// The first word selects the command and the others its options: each
/// status command, `list`, `publish_world` and `join_world` whatever follows;
/// `blink start|stop`, `mqtt status|temp`; `give block n` with the block and
/// the count typed; `create_world name ...` named by its second word; and
/// `set_game_state` with each state's name.
pub proof fn law_command_words_choose_the_command(w: Seq<Seq<char>>)
    ensures
        w.len() > 0 && w[0] == "get_client_info"@ ==> spec_parse_command(w) == CommandView::GetClientInfo,
        w.len() > 0 && w[0] == "get_game_state"@ ==> spec_parse_command(w) == CommandView::GetGameState,
        w.len() > 0 && w[0] == "health_check"@ ==> spec_parse_command(w) == CommandView::HealthCheck,
        w.len() > 0 && w[0] == "get_system_info"@ ==> spec_parse_command(w) == CommandView::GetSystemInfo,
        w.len() > 0 && w[0] == "get_world_status"@ ==> spec_parse_command(w) == CommandView::GetWorldStatus,
        w.len() > 0 && w[0] == "get_sensor_data"@ ==> spec_parse_command(w) == CommandView::GetSensorData,
        w.len() > 0 && w[0] == "get_mqtt_status"@ ==> spec_parse_command(w) == CommandView::GetMqttStatus,
        w.len() > 0 && w[0] == "list"@ ==> spec_parse_command(w) == CommandView::List,
        w.len() > 0 && w[0] == "publish_world"@ ==> spec_parse_command(w) == CommandView::PublishWorld,
        w.len() > 0 && w[0] == "join_world"@ ==> spec_parse_command(w) == CommandView::JoinWorld,
        w.len() >= 2 && w[0] == "set_game_state"@ && w[1] == "MainMenu"@ ==> spec_parse_command(w)
            == CommandView::SetGameState(GameState::MainMenu),
        w.len() >= 2 && w[0] == "set_game_state"@ && w[1] == "WorldSelection"@ ==> spec_parse_command(w)
            == CommandView::SetGameState(GameState::WorldSelection),
        w.len() >= 2 && w[0] == "set_game_state"@ && w[1] == "InGame"@ ==> spec_parse_command(w)
            == CommandView::SetGameState(GameState::InGame),
        w.len() >= 2 && w[0] == "set_game_state"@ && w[1] == "Settings"@ ==> spec_parse_command(w)
            == CommandView::SetGameState(GameState::Settings),
        w.len() >= 2 && w[0] == "set_game_state"@ && w[1] == "GameplayMenu"@ ==> spec_parse_command(w)
            == CommandView::SetGameState(GameState::GameplayMenu),
        w.len() == 2 && w[0] == "blink"@ && w[1] == "start"@ ==> spec_parse_command(w)
            == CommandView::Blink(BlinkAction::Start),
        w.len() == 2 && w[0] == "blink"@ && w[1] == "stop"@ ==> spec_parse_command(w)
            == CommandView::Blink(BlinkAction::Stop),
        w.len() == 2 && w[0] == "mqtt"@ && w[1] == "status"@ ==> spec_parse_command(w)
            == CommandView::Mqtt(MqttAction::Status),
        w.len() == 2 && w[0] == "mqtt"@ && w[1] == "temp"@ ==> spec_parse_command(w)
            == CommandView::Mqtt(MqttAction::Temperature),
        w.len() == 3 && w[0] == "give"@ && spec_block_from_name(w[1]) is Some && spec_parse_usize(
            w[2],
        ) is Some ==> spec_parse_command(w) == (CommandView::Give {
            block: spec_block_from_name(w[1])->0,
            quantity: spec_parse_usize(w[2])->0,
        }),
        w.len() >= 3 && w[0] == "create_world"@ ==> spec_parse_command(w) is CreateWorld
            && spec_parse_command(w)->CreateWorld_name == w[1],
        w.len() < 3 && w.len() > 0 && w[0] == "create_world"@ ==> spec_parse_command(w)
            == CommandView::CreateWorldUsage,
{
    reveal_strlit("get_client_info");
    reveal_strlit("get_game_state");
    reveal_strlit("health_check");
    reveal_strlit("get_system_info");
    reveal_strlit("get_world_status");
    reveal_strlit("get_sensor_data");
    reveal_strlit("get_mqtt_status");
    reveal_strlit("blink");
    reveal_strlit("mqtt");
    reveal_strlit("spawn");
    reveal_strlit("spawn_door");
    reveal_strlit("place");
    reveal_strlit("remove");
    reveal_strlit("give");
    reveal_strlit("wall");
    reveal_strlit("tp");
    reveal_strlit("look");
    reveal_strlit("list");
    reveal_strlit("publish_world");
    reveal_strlit("join_world");
    reveal_strlit("create_world");
    reveal_strlit("set_game_state");
    reveal_strlit("MainMenu");
    reveal_strlit("WorldSelection");
    reveal_strlit("InGame");
    reveal_strlit("Settings");
    reveal_strlit("GameplayMenu");
    reveal_strlit("start");
    reveal_strlit("stop");
    reveal_strlit("status");
    reveal_strlit("temp");
    assert("get_game_state"@ != "get_client_info"@) by { assert("get_game_state"@.len() != "get_client_info"@.len()); }
    assert("health_check"@ != "get_client_info"@) by { assert("health_check"@.len() != "get_client_info"@.len()); }
    assert("health_check"@ != "get_game_state"@) by { assert("health_check"@.len() != "get_game_state"@.len()); }
    assert("get_system_info"@ != "get_client_info"@) by { assert("get_system_info"@[4] != "get_client_info"@[4]); }
    assert("get_system_info"@ != "get_game_state"@) by { assert("get_system_info"@.len() != "get_game_state"@.len()); }
    assert("get_system_info"@ != "health_check"@) by { assert("get_system_info"@.len() != "health_check"@.len()); }
    assert("get_world_status"@ != "get_client_info"@) by { assert("get_world_status"@.len() != "get_client_info"@.len()); }
    assert("get_world_status"@ != "get_game_state"@) by { assert("get_world_status"@.len() != "get_game_state"@.len()); }
    assert("get_world_status"@ != "health_check"@) by { assert("get_world_status"@.len() != "health_check"@.len()); }
    assert("get_world_status"@ != "get_system_info"@) by { assert("get_world_status"@.len() != "get_system_info"@.len()); }
    assert("get_sensor_data"@ != "get_client_info"@) by { assert("get_sensor_data"@[4] != "get_client_info"@[4]); }
    assert("get_sensor_data"@ != "get_game_state"@) by { assert("get_sensor_data"@.len() != "get_game_state"@.len()); }
    assert("get_sensor_data"@ != "health_check"@) by { assert("get_sensor_data"@.len() != "health_check"@.len()); }
    assert("get_sensor_data"@ != "get_system_info"@) by { assert("get_sensor_data"@[5] != "get_system_info"@[5]); }
    assert("get_sensor_data"@ != "get_world_status"@) by { assert("get_sensor_data"@.len() != "get_world_status"@.len()); }
    assert("get_mqtt_status"@ != "get_client_info"@) by { assert("get_mqtt_status"@[4] != "get_client_info"@[4]); }
    assert("get_mqtt_status"@ != "get_game_state"@) by { assert("get_mqtt_status"@.len() != "get_game_state"@.len()); }
    assert("get_mqtt_status"@ != "health_check"@) by { assert("get_mqtt_status"@.len() != "health_check"@.len()); }
    assert("get_mqtt_status"@ != "get_system_info"@) by { assert("get_mqtt_status"@[4] != "get_system_info"@[4]); }
    assert("get_mqtt_status"@ != "get_world_status"@) by { assert("get_mqtt_status"@.len() != "get_world_status"@.len()); }
    assert("get_mqtt_status"@ != "get_sensor_data"@) by { assert("get_mqtt_status"@[4] != "get_sensor_data"@[4]); }
    assert("blink"@ != "get_client_info"@) by { assert("blink"@.len() != "get_client_info"@.len()); }
    assert("blink"@ != "get_game_state"@) by { assert("blink"@.len() != "get_game_state"@.len()); }
    assert("blink"@ != "health_check"@) by { assert("blink"@.len() != "health_check"@.len()); }
    assert("blink"@ != "get_system_info"@) by { assert("blink"@.len() != "get_system_info"@.len()); }
    assert("blink"@ != "get_world_status"@) by { assert("blink"@.len() != "get_world_status"@.len()); }
    assert("blink"@ != "get_sensor_data"@) by { assert("blink"@.len() != "get_sensor_data"@.len()); }
    assert("blink"@ != "get_mqtt_status"@) by { assert("blink"@.len() != "get_mqtt_status"@.len()); }
    assert("mqtt"@ != "get_client_info"@) by { assert("mqtt"@.len() != "get_client_info"@.len()); }
    assert("mqtt"@ != "get_game_state"@) by { assert("mqtt"@.len() != "get_game_state"@.len()); }
    assert("mqtt"@ != "health_check"@) by { assert("mqtt"@.len() != "health_check"@.len()); }
    assert("mqtt"@ != "get_system_info"@) by { assert("mqtt"@.len() != "get_system_info"@.len()); }
    assert("mqtt"@ != "get_world_status"@) by { assert("mqtt"@.len() != "get_world_status"@.len()); }
    assert("mqtt"@ != "get_sensor_data"@) by { assert("mqtt"@.len() != "get_sensor_data"@.len()); }
    assert("mqtt"@ != "get_mqtt_status"@) by { assert("mqtt"@.len() != "get_mqtt_status"@.len()); }
    assert("mqtt"@ != "blink"@) by { assert("mqtt"@.len() != "blink"@.len()); }
    assert("spawn"@ != "get_client_info"@) by { assert("spawn"@.len() != "get_client_info"@.len()); }
    assert("spawn"@ != "get_game_state"@) by { assert("spawn"@.len() != "get_game_state"@.len()); }
    assert("spawn"@ != "health_check"@) by { assert("spawn"@.len() != "health_check"@.len()); }
    assert("spawn"@ != "get_system_info"@) by { assert("spawn"@.len() != "get_system_info"@.len()); }
    assert("spawn"@ != "get_world_status"@) by { assert("spawn"@.len() != "get_world_status"@.len()); }
    assert("spawn"@ != "get_sensor_data"@) by { assert("spawn"@.len() != "get_sensor_data"@.len()); }
    assert("spawn"@ != "get_mqtt_status"@) by { assert("spawn"@.len() != "get_mqtt_status"@.len()); }
    assert("spawn"@ != "blink"@) by { assert("spawn"@[0] != "blink"@[0]); }
    assert("spawn"@ != "mqtt"@) by { assert("spawn"@.len() != "mqtt"@.len()); }
    assert("spawn_door"@ != "get_client_info"@) by { assert("spawn_door"@.len() != "get_client_info"@.len()); }
    assert("spawn_door"@ != "get_game_state"@) by { assert("spawn_door"@.len() != "get_game_state"@.len()); }
    assert("spawn_door"@ != "health_check"@) by { assert("spawn_door"@.len() != "health_check"@.len()); }
    assert("spawn_door"@ != "get_system_info"@) by { assert("spawn_door"@.len() != "get_system_info"@.len()); }
    assert("spawn_door"@ != "get_world_status"@) by { assert("spawn_door"@.len() != "get_world_status"@.len()); }
    assert("spawn_door"@ != "get_sensor_data"@) by { assert("spawn_door"@.len() != "get_sensor_data"@.len()); }
    assert("spawn_door"@ != "get_mqtt_status"@) by { assert("spawn_door"@.len() != "get_mqtt_status"@.len()); }
    assert("spawn_door"@ != "blink"@) by { assert("spawn_door"@.len() != "blink"@.len()); }
    assert("spawn_door"@ != "mqtt"@) by { assert("spawn_door"@.len() != "mqtt"@.len()); }
    assert("spawn_door"@ != "spawn"@) by { assert("spawn_door"@.len() != "spawn"@.len()); }
    assert("place"@ != "get_client_info"@) by { assert("place"@.len() != "get_client_info"@.len()); }
    assert("place"@ != "get_game_state"@) by { assert("place"@.len() != "get_game_state"@.len()); }
    assert("place"@ != "health_check"@) by { assert("place"@.len() != "health_check"@.len()); }
    assert("place"@ != "get_system_info"@) by { assert("place"@.len() != "get_system_info"@.len()); }
    assert("place"@ != "get_world_status"@) by { assert("place"@.len() != "get_world_status"@.len()); }
    assert("place"@ != "get_sensor_data"@) by { assert("place"@.len() != "get_sensor_data"@.len()); }
    assert("place"@ != "get_mqtt_status"@) by { assert("place"@.len() != "get_mqtt_status"@.len()); }
    assert("place"@ != "blink"@) by { assert("place"@[0] != "blink"@[0]); }
    assert("place"@ != "mqtt"@) by { assert("place"@.len() != "mqtt"@.len()); }
    assert("place"@ != "spawn"@) by { assert("place"@[0] != "spawn"@[0]); }
    assert("place"@ != "spawn_door"@) by { assert("place"@.len() != "spawn_door"@.len()); }
    assert("remove"@ != "get_client_info"@) by { assert("remove"@.len() != "get_client_info"@.len()); }
    assert("remove"@ != "get_game_state"@) by { assert("remove"@.len() != "get_game_state"@.len()); }
    assert("remove"@ != "health_check"@) by { assert("remove"@.len() != "health_check"@.len()); }
    assert("remove"@ != "get_system_info"@) by { assert("remove"@.len() != "get_system_info"@.len()); }
    assert("remove"@ != "get_world_status"@) by { assert("remove"@.len() != "get_world_status"@.len()); }
    assert("remove"@ != "get_sensor_data"@) by { assert("remove"@.len() != "get_sensor_data"@.len()); }
    assert("remove"@ != "get_mqtt_status"@) by { assert("remove"@.len() != "get_mqtt_status"@.len()); }
    assert("remove"@ != "blink"@) by { assert("remove"@.len() != "blink"@.len()); }
    assert("remove"@ != "mqtt"@) by { assert("remove"@.len() != "mqtt"@.len()); }
    assert("remove"@ != "spawn"@) by { assert("remove"@.len() != "spawn"@.len()); }
    assert("remove"@ != "spawn_door"@) by { assert("remove"@.len() != "spawn_door"@.len()); }
    assert("remove"@ != "place"@) by { assert("remove"@.len() != "place"@.len()); }
    assert("give"@ != "get_client_info"@) by { assert("give"@.len() != "get_client_info"@.len()); }
    assert("give"@ != "get_game_state"@) by { assert("give"@.len() != "get_game_state"@.len()); }
    assert("give"@ != "health_check"@) by { assert("give"@.len() != "health_check"@.len()); }
    assert("give"@ != "get_system_info"@) by { assert("give"@.len() != "get_system_info"@.len()); }
    assert("give"@ != "get_world_status"@) by { assert("give"@.len() != "get_world_status"@.len()); }
    assert("give"@ != "get_sensor_data"@) by { assert("give"@.len() != "get_sensor_data"@.len()); }
    assert("give"@ != "get_mqtt_status"@) by { assert("give"@.len() != "get_mqtt_status"@.len()); }
    assert("give"@ != "blink"@) by { assert("give"@.len() != "blink"@.len()); }
    assert("give"@ != "mqtt"@) by { assert("give"@[0] != "mqtt"@[0]); }
    assert("give"@ != "spawn"@) by { assert("give"@.len() != "spawn"@.len()); }
    assert("give"@ != "spawn_door"@) by { assert("give"@.len() != "spawn_door"@.len()); }
    assert("give"@ != "place"@) by { assert("give"@.len() != "place"@.len()); }
    assert("give"@ != "remove"@) by { assert("give"@.len() != "remove"@.len()); }
    assert("wall"@ != "get_client_info"@) by { assert("wall"@.len() != "get_client_info"@.len()); }
    assert("wall"@ != "get_game_state"@) by { assert("wall"@.len() != "get_game_state"@.len()); }
    assert("wall"@ != "health_check"@) by { assert("wall"@.len() != "health_check"@.len()); }
    assert("wall"@ != "get_system_info"@) by { assert("wall"@.len() != "get_system_info"@.len()); }
    assert("wall"@ != "get_world_status"@) by { assert("wall"@.len() != "get_world_status"@.len()); }
    assert("wall"@ != "get_sensor_data"@) by { assert("wall"@.len() != "get_sensor_data"@.len()); }
    assert("wall"@ != "get_mqtt_status"@) by { assert("wall"@.len() != "get_mqtt_status"@.len()); }
    assert("wall"@ != "blink"@) by { assert("wall"@.len() != "blink"@.len()); }
    assert("wall"@ != "mqtt"@) by { assert("wall"@[0] != "mqtt"@[0]); }
    assert("wall"@ != "spawn"@) by { assert("wall"@.len() != "spawn"@.len()); }
    assert("wall"@ != "spawn_door"@) by { assert("wall"@.len() != "spawn_door"@.len()); }
    assert("wall"@ != "place"@) by { assert("wall"@.len() != "place"@.len()); }
    assert("wall"@ != "remove"@) by { assert("wall"@.len() != "remove"@.len()); }
    assert("wall"@ != "give"@) by { assert("wall"@[0] != "give"@[0]); }
    assert("tp"@ != "get_client_info"@) by { assert("tp"@.len() != "get_client_info"@.len()); }
    assert("tp"@ != "get_game_state"@) by { assert("tp"@.len() != "get_game_state"@.len()); }
    assert("tp"@ != "health_check"@) by { assert("tp"@.len() != "health_check"@.len()); }
    assert("tp"@ != "get_system_info"@) by { assert("tp"@.len() != "get_system_info"@.len()); }
    assert("tp"@ != "get_world_status"@) by { assert("tp"@.len() != "get_world_status"@.len()); }
    assert("tp"@ != "get_sensor_data"@) by { assert("tp"@.len() != "get_sensor_data"@.len()); }
    assert("tp"@ != "get_mqtt_status"@) by { assert("tp"@.len() != "get_mqtt_status"@.len()); }
    assert("tp"@ != "blink"@) by { assert("tp"@.len() != "blink"@.len()); }
    assert("tp"@ != "mqtt"@) by { assert("tp"@.len() != "mqtt"@.len()); }
    assert("tp"@ != "spawn"@) by { assert("tp"@.len() != "spawn"@.len()); }
    assert("tp"@ != "spawn_door"@) by { assert("tp"@.len() != "spawn_door"@.len()); }
    assert("tp"@ != "place"@) by { assert("tp"@.len() != "place"@.len()); }
    assert("tp"@ != "remove"@) by { assert("tp"@.len() != "remove"@.len()); }
    assert("tp"@ != "give"@) by { assert("tp"@.len() != "give"@.len()); }
    assert("tp"@ != "wall"@) by { assert("tp"@.len() != "wall"@.len()); }
    assert("look"@ != "get_client_info"@) by { assert("look"@.len() != "get_client_info"@.len()); }
    assert("look"@ != "get_game_state"@) by { assert("look"@.len() != "get_game_state"@.len()); }
    assert("look"@ != "health_check"@) by { assert("look"@.len() != "health_check"@.len()); }
    assert("look"@ != "get_system_info"@) by { assert("look"@.len() != "get_system_info"@.len()); }
    assert("look"@ != "get_world_status"@) by { assert("look"@.len() != "get_world_status"@.len()); }
    assert("look"@ != "get_sensor_data"@) by { assert("look"@.len() != "get_sensor_data"@.len()); }
    assert("look"@ != "get_mqtt_status"@) by { assert("look"@.len() != "get_mqtt_status"@.len()); }
    assert("look"@ != "blink"@) by { assert("look"@.len() != "blink"@.len()); }
    assert("look"@ != "mqtt"@) by { assert("look"@[0] != "mqtt"@[0]); }
    assert("look"@ != "spawn"@) by { assert("look"@.len() != "spawn"@.len()); }
    assert("look"@ != "spawn_door"@) by { assert("look"@.len() != "spawn_door"@.len()); }
    assert("look"@ != "place"@) by { assert("look"@.len() != "place"@.len()); }
    assert("look"@ != "remove"@) by { assert("look"@.len() != "remove"@.len()); }
    assert("look"@ != "give"@) by { assert("look"@[0] != "give"@[0]); }
    assert("look"@ != "wall"@) by { assert("look"@[0] != "wall"@[0]); }
    assert("look"@ != "tp"@) by { assert("look"@.len() != "tp"@.len()); }
    assert("list"@ != "get_client_info"@) by { assert("list"@.len() != "get_client_info"@.len()); }
    assert("list"@ != "get_game_state"@) by { assert("list"@.len() != "get_game_state"@.len()); }
    assert("list"@ != "health_check"@) by { assert("list"@.len() != "health_check"@.len()); }
    assert("list"@ != "get_system_info"@) by { assert("list"@.len() != "get_system_info"@.len()); }
    assert("list"@ != "get_world_status"@) by { assert("list"@.len() != "get_world_status"@.len()); }
    assert("list"@ != "get_sensor_data"@) by { assert("list"@.len() != "get_sensor_data"@.len()); }
    assert("list"@ != "get_mqtt_status"@) by { assert("list"@.len() != "get_mqtt_status"@.len()); }
    assert("list"@ != "blink"@) by { assert("list"@.len() != "blink"@.len()); }
    assert("list"@ != "mqtt"@) by { assert("list"@[0] != "mqtt"@[0]); }
    assert("list"@ != "spawn"@) by { assert("list"@.len() != "spawn"@.len()); }
    assert("list"@ != "spawn_door"@) by { assert("list"@.len() != "spawn_door"@.len()); }
    assert("list"@ != "place"@) by { assert("list"@.len() != "place"@.len()); }
    assert("list"@ != "remove"@) by { assert("list"@.len() != "remove"@.len()); }
    assert("list"@ != "give"@) by { assert("list"@[0] != "give"@[0]); }
    assert("list"@ != "wall"@) by { assert("list"@[0] != "wall"@[0]); }
    assert("list"@ != "tp"@) by { assert("list"@.len() != "tp"@.len()); }
    assert("list"@ != "look"@) by { assert("list"@[1] != "look"@[1]); }
    assert("publish_world"@ != "get_client_info"@) by { assert("publish_world"@.len() != "get_client_info"@.len()); }
    assert("publish_world"@ != "get_game_state"@) by { assert("publish_world"@.len() != "get_game_state"@.len()); }
    assert("publish_world"@ != "health_check"@) by { assert("publish_world"@.len() != "health_check"@.len()); }
    assert("publish_world"@ != "get_system_info"@) by { assert("publish_world"@.len() != "get_system_info"@.len()); }
    assert("publish_world"@ != "get_world_status"@) by { assert("publish_world"@.len() != "get_world_status"@.len()); }
    assert("publish_world"@ != "get_sensor_data"@) by { assert("publish_world"@.len() != "get_sensor_data"@.len()); }
    assert("publish_world"@ != "get_mqtt_status"@) by { assert("publish_world"@.len() != "get_mqtt_status"@.len()); }
    assert("publish_world"@ != "blink"@) by { assert("publish_world"@.len() != "blink"@.len()); }
    assert("publish_world"@ != "mqtt"@) by { assert("publish_world"@.len() != "mqtt"@.len()); }
    assert("publish_world"@ != "spawn"@) by { assert("publish_world"@.len() != "spawn"@.len()); }
    assert("publish_world"@ != "spawn_door"@) by { assert("publish_world"@.len() != "spawn_door"@.len()); }
    assert("publish_world"@ != "place"@) by { assert("publish_world"@.len() != "place"@.len()); }
    assert("publish_world"@ != "remove"@) by { assert("publish_world"@.len() != "remove"@.len()); }
    assert("publish_world"@ != "give"@) by { assert("publish_world"@.len() != "give"@.len()); }
    assert("publish_world"@ != "wall"@) by { assert("publish_world"@.len() != "wall"@.len()); }
    assert("publish_world"@ != "tp"@) by { assert("publish_world"@.len() != "tp"@.len()); }
    assert("publish_world"@ != "look"@) by { assert("publish_world"@.len() != "look"@.len()); }
    assert("publish_world"@ != "list"@) by { assert("publish_world"@.len() != "list"@.len()); }
    assert("join_world"@ != "get_client_info"@) by { assert("join_world"@.len() != "get_client_info"@.len()); }
    assert("join_world"@ != "get_game_state"@) by { assert("join_world"@.len() != "get_game_state"@.len()); }
    assert("join_world"@ != "health_check"@) by { assert("join_world"@.len() != "health_check"@.len()); }
    assert("join_world"@ != "get_system_info"@) by { assert("join_world"@.len() != "get_system_info"@.len()); }
    assert("join_world"@ != "get_world_status"@) by { assert("join_world"@.len() != "get_world_status"@.len()); }
    assert("join_world"@ != "get_sensor_data"@) by { assert("join_world"@.len() != "get_sensor_data"@.len()); }
    assert("join_world"@ != "get_mqtt_status"@) by { assert("join_world"@.len() != "get_mqtt_status"@.len()); }
    assert("join_world"@ != "blink"@) by { assert("join_world"@.len() != "blink"@.len()); }
    assert("join_world"@ != "mqtt"@) by { assert("join_world"@.len() != "mqtt"@.len()); }
    assert("join_world"@ != "spawn"@) by { assert("join_world"@.len() != "spawn"@.len()); }
    assert("join_world"@ != "spawn_door"@) by { assert("join_world"@[0] != "spawn_door"@[0]); }
    assert("join_world"@ != "place"@) by { assert("join_world"@.len() != "place"@.len()); }
    assert("join_world"@ != "remove"@) by { assert("join_world"@.len() != "remove"@.len()); }
    assert("join_world"@ != "give"@) by { assert("join_world"@.len() != "give"@.len()); }
    assert("join_world"@ != "wall"@) by { assert("join_world"@.len() != "wall"@.len()); }
    assert("join_world"@ != "tp"@) by { assert("join_world"@.len() != "tp"@.len()); }
    assert("join_world"@ != "look"@) by { assert("join_world"@.len() != "look"@.len()); }
    assert("join_world"@ != "list"@) by { assert("join_world"@.len() != "list"@.len()); }
    assert("join_world"@ != "publish_world"@) by { assert("join_world"@.len() != "publish_world"@.len()); }
    assert("create_world"@ != "get_client_info"@) by { assert("create_world"@.len() != "get_client_info"@.len()); }
    assert("create_world"@ != "get_game_state"@) by { assert("create_world"@.len() != "get_game_state"@.len()); }
    assert("create_world"@ != "health_check"@) by { assert("create_world"@[0] != "health_check"@[0]); }
    assert("create_world"@ != "get_system_info"@) by { assert("create_world"@.len() != "get_system_info"@.len()); }
    assert("create_world"@ != "get_world_status"@) by { assert("create_world"@.len() != "get_world_status"@.len()); }
    assert("create_world"@ != "get_sensor_data"@) by { assert("create_world"@.len() != "get_sensor_data"@.len()); }
    assert("create_world"@ != "get_mqtt_status"@) by { assert("create_world"@.len() != "get_mqtt_status"@.len()); }
    assert("create_world"@ != "blink"@) by { assert("create_world"@.len() != "blink"@.len()); }
    assert("create_world"@ != "mqtt"@) by { assert("create_world"@.len() != "mqtt"@.len()); }
    assert("create_world"@ != "spawn"@) by { assert("create_world"@.len() != "spawn"@.len()); }
    assert("create_world"@ != "spawn_door"@) by { assert("create_world"@.len() != "spawn_door"@.len()); }
    assert("create_world"@ != "place"@) by { assert("create_world"@.len() != "place"@.len()); }
    assert("create_world"@ != "remove"@) by { assert("create_world"@.len() != "remove"@.len()); }
    assert("create_world"@ != "give"@) by { assert("create_world"@.len() != "give"@.len()); }
    assert("create_world"@ != "wall"@) by { assert("create_world"@.len() != "wall"@.len()); }
    assert("create_world"@ != "tp"@) by { assert("create_world"@.len() != "tp"@.len()); }
    assert("create_world"@ != "look"@) by { assert("create_world"@.len() != "look"@.len()); }
    assert("create_world"@ != "list"@) by { assert("create_world"@.len() != "list"@.len()); }
    assert("create_world"@ != "publish_world"@) by { assert("create_world"@.len() != "publish_world"@.len()); }
    assert("create_world"@ != "join_world"@) by { assert("create_world"@.len() != "join_world"@.len()); }
    assert("set_game_state"@ != "get_client_info"@) by { assert("set_game_state"@.len() != "get_client_info"@.len()); }
    assert("set_game_state"@ != "get_game_state"@) by { assert("set_game_state"@[0] != "get_game_state"@[0]); }
    assert("set_game_state"@ != "health_check"@) by { assert("set_game_state"@.len() != "health_check"@.len()); }
    assert("set_game_state"@ != "get_system_info"@) by { assert("set_game_state"@.len() != "get_system_info"@.len()); }
    assert("set_game_state"@ != "get_world_status"@) by { assert("set_game_state"@.len() != "get_world_status"@.len()); }
    assert("set_game_state"@ != "get_sensor_data"@) by { assert("set_game_state"@.len() != "get_sensor_data"@.len()); }
    assert("set_game_state"@ != "get_mqtt_status"@) by { assert("set_game_state"@.len() != "get_mqtt_status"@.len()); }
    assert("set_game_state"@ != "blink"@) by { assert("set_game_state"@.len() != "blink"@.len()); }
    assert("set_game_state"@ != "mqtt"@) by { assert("set_game_state"@.len() != "mqtt"@.len()); }
    assert("set_game_state"@ != "spawn"@) by { assert("set_game_state"@.len() != "spawn"@.len()); }
    assert("set_game_state"@ != "spawn_door"@) by { assert("set_game_state"@.len() != "spawn_door"@.len()); }
    assert("set_game_state"@ != "place"@) by { assert("set_game_state"@.len() != "place"@.len()); }
    assert("set_game_state"@ != "remove"@) by { assert("set_game_state"@.len() != "remove"@.len()); }
    assert("set_game_state"@ != "give"@) by { assert("set_game_state"@.len() != "give"@.len()); }
    assert("set_game_state"@ != "wall"@) by { assert("set_game_state"@.len() != "wall"@.len()); }
    assert("set_game_state"@ != "tp"@) by { assert("set_game_state"@.len() != "tp"@.len()); }
    assert("set_game_state"@ != "look"@) by { assert("set_game_state"@.len() != "look"@.len()); }
    assert("set_game_state"@ != "list"@) by { assert("set_game_state"@.len() != "list"@.len()); }
    assert("set_game_state"@ != "publish_world"@) by { assert("set_game_state"@.len() != "publish_world"@.len()); }
    assert("set_game_state"@ != "join_world"@) by { assert("set_game_state"@.len() != "join_world"@.len()); }
    assert("set_game_state"@ != "create_world"@) by { assert("set_game_state"@.len() != "create_world"@.len()); }
    assert("WorldSelection"@ != "MainMenu"@) by { assert("WorldSelection"@.len() != "MainMenu"@.len()); }
    assert("InGame"@ != "MainMenu"@) by { assert("InGame"@.len() != "MainMenu"@.len()); }
    assert("InGame"@ != "WorldSelection"@) by { assert("InGame"@.len() != "WorldSelection"@.len()); }
    assert("Settings"@ != "MainMenu"@) by { assert("Settings"@[0] != "MainMenu"@[0]); }
    assert("Settings"@ != "WorldSelection"@) by { assert("Settings"@.len() != "WorldSelection"@.len()); }
    assert("Settings"@ != "InGame"@) by { assert("Settings"@.len() != "InGame"@.len()); }
    assert("GameplayMenu"@ != "MainMenu"@) by { assert("GameplayMenu"@.len() != "MainMenu"@.len()); }
    assert("GameplayMenu"@ != "WorldSelection"@) by { assert("GameplayMenu"@.len() != "WorldSelection"@.len()); }
    assert("GameplayMenu"@ != "InGame"@) by { assert("GameplayMenu"@.len() != "InGame"@.len()); }
    assert("GameplayMenu"@ != "Settings"@) by { assert("GameplayMenu"@.len() != "Settings"@.len()); }
    assert("stop"@ != "start"@) by { assert("stop"@.len() != "start"@.len()); }
    assert("temp"@ != "status"@) by { assert("temp"@.len() != "status"@.len()); }
}

/// Every game state the console can set is read back from the name the
/// console writes for it; the console cannot open itself by name.
pub proof fn law_game_state_names_read_back(g: GameState)
    ensures
        g != GameState::ConsoleOpen ==> spec_console_game_state(spec_game_state_name(g)) == Some(g),
        spec_console_game_state(spec_game_state_name(GameState::ConsoleOpen)) is None,
{
    reveal_strlit("ConsoleOpen");
    reveal_strlit("MainMenu");
    reveal_strlit("WorldSelection");
    reveal_strlit("InGame");
    reveal_strlit("Settings");
    reveal_strlit("GameplayMenu");
    assert("WorldSelection"@ != "MainMenu"@) by { assert("WorldSelection"@.len() != "MainMenu"@.len()); }
    assert("InGame"@ != "MainMenu"@) by { assert("InGame"@.len() != "MainMenu"@.len()); }
    assert("InGame"@ != "WorldSelection"@) by { assert("InGame"@.len() != "WorldSelection"@.len()); }
    assert("Settings"@ != "MainMenu"@) by { assert("Settings"@[0] != "MainMenu"@[0]); }
    assert("Settings"@ != "WorldSelection"@) by { assert("Settings"@.len() != "WorldSelection"@.len()); }
    assert("Settings"@ != "InGame"@) by { assert("Settings"@.len() != "InGame"@.len()); }
    assert("GameplayMenu"@ != "MainMenu"@) by { assert("GameplayMenu"@.len() != "MainMenu"@.len()); }
    assert("GameplayMenu"@ != "WorldSelection"@) by { assert("GameplayMenu"@.len() != "WorldSelection"@.len()); }
    assert("GameplayMenu"@ != "InGame"@) by { assert("GameplayMenu"@.len() != "InGame"@.len()); }
    assert("GameplayMenu"@ != "Settings"@) by { assert("GameplayMenu"@.len() != "Settings"@.len()); }
    assert("ConsoleOpen"@ != "MainMenu"@) by { assert("ConsoleOpen"@.len() != "MainMenu"@.len()); }
    assert("ConsoleOpen"@ != "WorldSelection"@) by { assert("ConsoleOpen"@.len() != "WorldSelection"@.len()); }
    assert("ConsoleOpen"@ != "InGame"@) by { assert("ConsoleOpen"@.len() != "InGame"@.len()); }
    assert("ConsoleOpen"@ != "Settings"@) by { assert("ConsoleOpen"@.len() != "Settings"@.len()); }
    assert("ConsoleOpen"@ != "GameplayMenu"@) by { assert("ConsoleOpen"@.len() != "GameplayMenu"@.len()); }
}

/// The browser client reads its commands' arguments in the order they were
/// typed: `tp x y z` (or `teleport x y z`) moves the camera to x, y, z,
/// `look yaw pitch` turns it, `place block x y z` places at x, y, z and
/// `give block n` gives n of the block.
pub proof fn law_web_command_arguments_in_order(w: Seq<Seq<char>>)
    ensures
        w.len() == 4 && (w[0] == "tp"@ || w[0] == "teleport"@) ==> spec_parse_web_command(w) == (
        WebCommandView::Teleport { x: w[1], y: w[2], z: w[3] }),
        w.len() == 3 && w[0] == "look"@ ==> spec_parse_web_command(w) == (WebCommandView::Look {
            yaw: w[1],
            pitch: w[2],
        }),
        w.len() == 5 && w[0] == "place"@ && spec_block_from_name(w[1]) is Some && spec_parse_i32(
            w[2],
        ) is Some && spec_parse_i32(w[3]) is Some && spec_parse_i32(w[4]) is Some
            ==> spec_parse_web_command(w) == (WebCommandView::Place {
            block: spec_block_from_name(w[1])->0,
            pos: (spec_parse_i32(w[2])->0, spec_parse_i32(w[3])->0, spec_parse_i32(w[4])->0),
        }),
        w.len() == 3 && w[0] == "give"@ && spec_block_from_name(w[1]) is Some
            && crate::text::spec_parse_u32(w[2]) is Some ==> spec_parse_web_command(w) == (
        WebCommandView::Give {
            block: spec_block_from_name(w[1])->0,
            count: crate::text::spec_parse_u32(w[2])->0,
        }),
{
    reveal_strlit("blink");
    reveal_strlit("mqtt");
    reveal_strlit("place");
    reveal_strlit("wall");
    reveal_strlit("tp");
    reveal_strlit("teleport");
    reveal_strlit("look");
    reveal_strlit("give");
    assert("tp"@ != "blink"@) by { assert("tp"@.len() != "blink"@.len()); }
    assert("tp"@ != "mqtt"@) by { assert("tp"@.len() != "mqtt"@.len()); }
    assert("tp"@ != "place"@) by { assert("tp"@.len() != "place"@.len()); }
    assert("tp"@ != "wall"@) by { assert("tp"@.len() != "wall"@.len()); }
    assert("teleport"@ != "blink"@) by { assert("teleport"@.len() != "blink"@.len()); }
    assert("teleport"@ != "mqtt"@) by { assert("teleport"@.len() != "mqtt"@.len()); }
    assert("teleport"@ != "place"@) by { assert("teleport"@.len() != "place"@.len()); }
    assert("teleport"@ != "wall"@) by { assert("teleport"@.len() != "wall"@.len()); }
    assert("look"@ != "blink"@) by { assert("look"@.len() != "blink"@.len()); }
    assert("look"@ != "mqtt"@) by { assert("look"@[0] != "mqtt"@[0]); }
    assert("look"@ != "place"@) by { assert("look"@.len() != "place"@.len()); }
    assert("look"@ != "wall"@) by { assert("look"@[0] != "wall"@[0]); }
    assert("look"@ != "tp"@) by { assert("look"@.len() != "tp"@.len()); }
    assert("look"@ != "teleport"@) by { assert("look"@.len() != "teleport"@.len()); }
    assert("place"@ != "blink"@) by { assert("place"@[0] != "blink"@[0]); }
    assert("place"@ != "mqtt"@) by { assert("place"@.len() != "mqtt"@.len()); }
    assert("give"@ != "blink"@) by { assert("give"@.len() != "blink"@.len()); }
    assert("give"@ != "mqtt"@) by { assert("give"@[0] != "mqtt"@[0]); }
    assert("give"@ != "place"@) by { assert("give"@.len() != "place"@.len()); }
    assert("give"@ != "wall"@) by { assert("give"@[0] != "wall"@[0]); }
    assert("give"@ != "tp"@) by { assert("give"@.len() != "tp"@.len()); }
    assert("give"@ != "teleport"@) by { assert("give"@.len() != "teleport"@.len()); }
    assert("give"@ != "look"@) by { assert("give"@[0] != "look"@[0]); }
}

/// The browser fills the same box whichever order the corners come in.
pub proof fn law_web_wall_corner_order(a: BlockPos, b: BlockPos)
    ensures
        min_corner(a, b) == min_corner(b, a),
        max_corner(a, b) == max_corner(b, a),
        min_corner(a, b).0 <= max_corner(a, b).0,
        min_corner(a, b).1 <= max_corner(a, b).1,
        min_corner(a, b).2 <= max_corner(a, b).2,
{
}

} // verus!

verus! {

/// The mark of a queued line meant for the in-game console.
pub open spec fn console_mark() -> Seq<char> {
    "CONSOLE_COMMAND:"@
}

/// `s` without the console mark, removed as often as it repeats at the start.
pub open spec fn strip_console_mark(s: Seq<char>) -> Seq<char>
    decreases s.len(),
{
    if has_prefix(s, console_mark()) && console_mark().len() > 0 {
        strip_console_mark(s.subrange(console_mark().len() as int, s.len() as int))
    } else {
        s
    }
}

/// The console lines of a queue, in order, each without its mark.
pub open spec fn console_lines(q: Seq<Seq<char>>) -> Seq<Seq<char>>
    decreases q.len(),
{
    if q.len() == 0 {
        Seq::empty()
    } else if has_prefix(q.last(), console_mark()) {
        console_lines(q.drop_last()).push(strip_console_mark(q.last()))
    } else {
        console_lines(q.drop_last())
    }
}

/// The lines of a queue that are not for the console, in order.
pub open spec fn other_lines(q: Seq<Seq<char>>) -> Seq<Seq<char>>
    decreases q.len(),
{
    if q.len() == 0 {
        Seq::empty()
    } else if has_prefix(q.last(), console_mark()) {
        other_lines(q.drop_last())
    } else {
        other_lines(q.drop_last()).push(q.last())
    }
}

fn strip_mark(line: &str) -> (r: String)
    ensures
        r@ == strip_console_mark(line@),
{
    proof {
        reveal_strlit("CONSOLE_COMMAND:");
    }
    let mut cur = String::from_str(line);
    while starts_with(cur.as_str(), "CONSOLE_COMMAND:")
        invariant
            strip_console_mark(cur@) == strip_console_mark(line@),
        decreases cur@.len(),
    {
        proof {
            reveal_strlit("CONSOLE_COMMAND:");
        }
        let cs = chars_of(cur.as_str());
        let ghost before = cur@;
        assert(console_mark().len() == 16);
        cur = string_of(vstd::slice::slice_subrange(cs.as_slice(), 16, cs.len()));
        assert(cur@ == before.subrange(16, before.len() as int));
    }
    cur
}

/// A console line split into the command and its request id.
pub open spec fn split_view(r: (String, Option<String>)) -> (Seq<char>, Option<Seq<char>>) {
    (
        r.0@,
        match r.1 {
            Some(id) => Some(id@),
            None => None,
        },
    )
}

/// Take the console lines out of the queue: each leaves without its mark and
/// split at its last " #" into the command and the request id; the other
/// lines stay in the queue, in order.
pub fn take_console_commands(pending: &mut Vec<String>) -> (taken: Vec<(String, Option<String>)>)
    ensures
        views(final(pending)@) == other_lines(views(old(pending)@)),
        taken@.len() == console_lines(views(old(pending)@)).len(),
        forall|k: int|
            0 <= k < taken@.len() ==> split_view(#[trigger] taken@[k]) == spec_split_request(
                console_lines(views(old(pending)@))[k],
            ),
{
    let ghost q = views(pending@);
    let mut taken: Vec<(String, Option<String>)> = Vec::new();
    let mut rest: Vec<String> = Vec::new();
    let mut i: usize = 0;
    assert(q.take(0) =~= Seq::<Seq<char>>::empty());
    assert(views(rest@) =~= Seq::<Seq<char>>::empty());
    while i < pending.len()
        invariant
            q == views(pending@),
            i <= q.len(),
            views(rest@) == other_lines(q.take(i as int)),
            taken@.len() == console_lines(q.take(i as int)).len(),
            forall|k: int|
                0 <= k < taken@.len() ==> split_view(#[trigger] taken@[k]) == spec_split_request(
                    console_lines(q.take(i as int))[k],
                ),
        decreases q.len() - i,
    {
        proof {
            assert(q[i as int] == pending@[i as int]@);
            assert(q.take(i + 1).drop_last() == q.take(i as int));
            assert(q.take(i + 1).last() == q[i as int]);
        }
        let line = pending[i].as_str();
        if starts_with(line, "CONSOLE_COMMAND:") {
            let stripped = strip_mark(line);
            let (cmd, id) = split_request_id(stripped.as_str());
            let ghost before = taken@;
            taken.push((cmd, id));
            proof {
                assert forall|k: int| 0 <= k < taken@.len() implies split_view(#[trigger] taken@[k])
                    == spec_split_request(console_lines(q.take(i + 1))[k]) by {
                    if k < before.len() {
                        assert(taken@[k] == before[k]);
                    }
                }
            }
        } else {
            let ghost before = rest@;
            rest.push(String::from_str(line));
            assert(views(rest@) =~= views(before).push(q[i as int]));
        }
        i = i + 1;
    }
    assert(q.take(q.len() as int) == q);
    *pending = rest;
    taken
}

/// The reply to a console line that carries a request id.
pub fn console_reply(command: &str, console_available: bool) -> (r: String)
    ensures
        r@ == if console_available {
            "Attempted to execute console command: "@ + command@
        } else {
            "Console not available"@
        },
{
    if console_available {
        concat("Attempted to execute console command: ", command)
    } else {
        String::from_str("Console not available")
    }
}

} // verus!

verus! {

/// The reply to a `spawn` or `spawn_door` command once its coordinates were
/// read as numbers by the caller (`coordinates_read`): the device is then
/// announced and the reply names it; otherwise nothing happens. Other
/// commands get no reply here.
pub fn spawn_reply(command: &ConsoleCommand, coordinates_read: bool) -> (r: Option<String>)
    ensures
        match command@ {
            CommandView::Spawn { device_id, .. } => if coordinates_read {
                r matches Some(t) && t@ == "Spawn command sent for device "@ + device_id
            } else {
                r is None
            },
            CommandView::SpawnDoor { device_id, .. } => if coordinates_read {
                r matches Some(t) && t@ == "Spawn door command sent for device "@ + device_id
            } else {
                r is None
            },
            _ => r is None,
        },
{
    match command {
        ConsoleCommand::Spawn { device_id, .. } => if coordinates_read {
            Some(concat("Spawn command sent for device ", device_id.as_str()))
        } else {
            None
        },
        ConsoleCommand::SpawnDoor { device_id, .. } => if coordinates_read {
            Some(concat("Spawn door command sent for device ", device_id.as_str()))
        } else {
            None
        },
        _ => None,
    }
}


/// Whether a command answers the request id that came with its line. The
/// commands that only write to the console (`give`, an unknown item or wall
/// block, `mqtt`, `blink`, `tp`, `look`) and the lines that do nothing leave
/// the request unanswered; `spawn` and `spawn_door` answer once their
/// coordinates were read as numbers (`coordinates_read`).
pub open spec fn spec_answers_request(cmd: CommandView, coordinates_read: bool) -> bool {
    match cmd {
        CommandView::GetClientInfo | CommandView::GetGameState | CommandView::HealthCheck
        | CommandView::GetSystemInfo | CommandView::GetWorldStatus | CommandView::GetSensorData
        | CommandView::GetMqttStatus => true,
        CommandView::Spawn { .. } | CommandView::SpawnDoor { .. } => coordinates_read,
        CommandView::Place { .. } | CommandView::InvalidPlaceBlock { .. } | CommandView::Remove {
            ..
        } | CommandView::Wall { .. } => true,
        CommandView::List | CommandView::PublishWorld | CommandView::JoinWorld => true,
        CommandView::CreateWorld { .. } | CommandView::CreateWorldUsage => true,
        CommandView::SetGameState(_) | CommandView::InvalidGameState { .. }
        | CommandView::SetGameStateUsage => true,
        CommandView::Unknown => true,
        _ => false,
    }
}

/// Whether the command answers its line's request id (see
/// [`spec_answers_request`]).
pub fn answers_request(command: &ConsoleCommand, coordinates_read: bool) -> (b: bool)
    ensures
        b == spec_answers_request(command@, coordinates_read),
{
    match command {
        ConsoleCommand::GetClientInfo | ConsoleCommand::GetGameState | ConsoleCommand::HealthCheck
        | ConsoleCommand::GetSystemInfo | ConsoleCommand::GetWorldStatus
        | ConsoleCommand::GetSensorData | ConsoleCommand::GetMqttStatus => true,
        ConsoleCommand::Spawn { .. } | ConsoleCommand::SpawnDoor { .. } => coordinates_read,
        ConsoleCommand::Place { .. } | ConsoleCommand::InvalidPlaceBlock { .. }
        | ConsoleCommand::Remove { .. } | ConsoleCommand::Wall { .. } => true,
        ConsoleCommand::List | ConsoleCommand::PublishWorld | ConsoleCommand::JoinWorld => true,
        ConsoleCommand::CreateWorld { .. } | ConsoleCommand::CreateWorldUsage => true,
        ConsoleCommand::SetGameState(_) | ConsoleCommand::InvalidGameState { .. }
        | ConsoleCommand::SetGameStateUsage => true,
        ConsoleCommand::Unknown => true,
        _ => false,
    }
}

/// The answer a run command gives its request, where the text is one this
/// module writes: the request id and the console text, for a line with a
/// request id whose command answers it. Commands whose answer is built from
/// the game's state (client info, device lists, spawns) get `None` here.
pub fn request_answer(done: &ExecutedCommand) -> (r: Option<(String, String)>)
    ensures
        match r {
            Some((id, text)) => spec_answers_request(done.command@, false) && done.request_id
                == Some(id) && done.console_text == Some(text),
            None => !spec_answers_request(done.command@, false) || done.request_id is None
                || done.console_text is None,
        },
{
    if !answers_request(&done.command, false) {
        return None;
    }
    match (&done.request_id, &done.console_text) {
        (Some(id), Some(text)) => Some((id.clone(), text.clone())),
        _ => None,
    }
}

} // verus!
