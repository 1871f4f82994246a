//! The tool set that runs against the game's resources directly: world
//! templates and the creation of worlds from them, and the tools whose
//! replies differ from those of the scheduled tool set in [`crate::mcp`].
//! Files, JSON, the camera and the clock stay with the caller.
use vstd::prelude::*;
use crate::commands::{
    game_state_label, max_corner, min_corner, parse_pos, spec_game_state_name, spec_parse_pos,
    GameState,
};
use crate::mcp::{
    bool_text, coords64, mcp_game_state, mcp_publish_world, spec_coords64, spec_coords_sep,
    spec_mcp_game_state, spec_truncated_pos, spec_unknown_block_message, spec_wall_corners,
    unknown_block_message, wall_fits, PublishRequest,
};
use crate::text::{
    chars_of, concat, format_u64, nat_decimal, split_char, split_on, split_whitespace, str_eq,
    trim, trim_ws, views, ws_tokens,
};
use crate::world::{
    block_type_from_name, box_volume, filled, lowered, parse_block_type, spec_block_from_name,
    to_lowercase_text, volume_between, BlockPos, BlockType, VoxelWorld,
};

verus! {

broadcast use vstd::string::group_string_axioms;

/// What one line of a world template does.
#[derive(Debug)]
pub enum TemplateStep {
    /// Place a block.
    Place { block: BlockType, pos: BlockPos },
    /// Fill the box between two corners (the corners already ordered).
    Wall { block: BlockType, from: BlockPos, to: BlockPos },
    /// Move the camera; the coordinates are the line's words.
    Teleport { x: String, y: String, z: String },
    /// Turn the camera; the angles are the line's words.
    Look { yaw: String, pitch: String },
    /// A blank line, a comment, a `give`, an unknown command, or a command
    /// whose arguments do not fit: nothing happens.
    Skip,
}

/// [`TemplateStep`] with its texts as character sequences.
pub enum TemplateStepView {
    Place { block: BlockType, pos: BlockPos },
    Wall { block: BlockType, from: BlockPos, to: BlockPos },
    Teleport { x: Seq<char>, y: Seq<char>, z: Seq<char> },
    Look { yaw: Seq<char>, pitch: Seq<char> },
    Skip,
}

impl View for TemplateStep {
    type V = TemplateStepView;

    open spec fn view(&self) -> TemplateStepView {
        match self {
            TemplateStep::Place { block, pos } => TemplateStepView::Place { block: *block, pos: *pos },
            TemplateStep::Wall { block, from, to } => TemplateStepView::Wall {
                block: *block,
                from: *from,
                to: *to,
            },
            TemplateStep::Teleport { x, y, z } => TemplateStepView::Teleport { x: x@, y: y@, z: z@ },
            TemplateStep::Look { yaw, pitch } => TemplateStepView::Look { yaw: yaw@, pitch: pitch@ },
            TemplateStep::Skip => TemplateStepView::Skip,
        }
    }
}

/// The step a template line makes. The line is trimmed; blank lines and
/// lines starting with '#' are skipped; block names are exact.
pub open spec fn spec_template_step(line: Seq<char>) -> TemplateStepView {
    let t = trim_ws(line);
    if t.len() == 0 || t[0] == '#' {
        TemplateStepView::Skip
    } else {
        let w = ws_tokens(t);
        if w.len() == 0 {
            TemplateStepView::Skip
        } else if w[0] == "place"@ {
            if w.len() != 5 {
                TemplateStepView::Skip
            } else {
                match (spec_parse_pos(w[2], w[3], w[4]), spec_block_from_name(w[1])) {
                    (Some(pos), Some(block)) => TemplateStepView::Place { block, pos },
                    _ => TemplateStepView::Skip,
                }
            }
        } else if w[0] == "wall"@ {
            if w.len() != 8 {
                TemplateStepView::Skip
            } else {
                match (
                    spec_parse_pos(w[2], w[3], w[4]),
                    spec_parse_pos(w[5], w[6], w[7]),
                    spec_block_from_name(w[1]),
                ) {
                    (Some(a), Some(b), Some(block)) => TemplateStepView::Wall {
                        block,
                        from: min_corner(a, b),
                        to: max_corner(a, b),
                    },
                    _ => TemplateStepView::Skip,
                }
            }
        } else if w[0] == "tp"@ {
            if w.len() == 4 {
                TemplateStepView::Teleport { x: w[1], y: w[2], z: w[3] }
            } else {
                TemplateStepView::Skip
            }
        } else if w[0] == "look"@ {
            if w.len() == 3 {
                TemplateStepView::Look { yaw: w[1], pitch: w[2] }
            } else {
                TemplateStepView::Skip
            }
        } else {
            TemplateStepView::Skip
        }
    }
}

/// Read one template line.
pub fn template_step(line: &str) -> (s: TemplateStep)
    ensures
        s@ == spec_template_step(line@),
{
    let t = trim(line);
    let cs = chars_of(t.as_str());
    if cs.len() == 0 || cs[0] == '#' {
        return TemplateStep::Skip;
    }
    let w = split_whitespace(t.as_str());
    let ghost ws = ws_tokens(t@);
    proof {
        assert forall|i: int| 0 <= i < w@.len() implies #[trigger] w@[i]@ == ws[i] by {
            assert(views(w@)[i] == w@[i]@);
        }
    }
    let n = w.len();
    if n == 0 {
        return TemplateStep::Skip;
    }
    let head = w[0].as_str();
    if str_eq(head, "place") {
        if n != 5 {
            TemplateStep::Skip
        } else {
            match (
                parse_pos(w[2].as_str(), w[3].as_str(), w[4].as_str()),
                block_type_from_name(w[1].as_str()),
            ) {
                (Some(pos), Some(block)) => TemplateStep::Place { block, pos },
                _ => TemplateStep::Skip,
            }
        }
    } else if str_eq(head, "wall") {
        if n != 8 {
            TemplateStep::Skip
        } else {
            match (
                parse_pos(w[2].as_str(), w[3].as_str(), w[4].as_str()),
                parse_pos(w[5].as_str(), w[6].as_str(), w[7].as_str()),
                block_type_from_name(w[1].as_str()),
            ) {
                (Some(a), Some(b), Some(block)) => {
                    let from = (
                        if a.0 <= b.0 { a.0 } else { b.0 },
                        if a.1 <= b.1 { a.1 } else { b.1 },
                        if a.2 <= b.2 { a.2 } else { b.2 },
                    );
                    let to = (
                        if a.0 >= b.0 { a.0 } else { b.0 },
                        if a.1 >= b.1 { a.1 } else { b.1 },
                        if a.2 >= b.2 { a.2 } else { b.2 },
                    );
                    TemplateStep::Wall { block, from, to }
                },
                _ => TemplateStep::Skip,
            }
        }
    } else if str_eq(head, "tp") {
        if n == 4 {
            TemplateStep::Teleport { x: w[1].clone(), y: w[2].clone(), z: w[3].clone() }
        } else {
            TemplateStep::Skip
        }
    } else if str_eq(head, "look") {
        if n == 3 {
            TemplateStep::Look { yaw: w[1].clone(), pitch: w[2].clone() }
        } else {
            TemplateStep::Skip
        }
    } else {
        TemplateStep::Skip
    }
}

/// What a step does to the world's blocks.
pub open spec fn spec_apply_step(step: TemplateStepView, m: Map<BlockPos, BlockType>) -> Map<BlockPos, BlockType> {
    match step {
        TemplateStepView::Place { block, pos } => m.insert(pos, block),
        TemplateStepView::Wall { block, from, to } => filled(m, from, to, block),
        _ => m,
    }
}

/// How many blocks a step creates.
pub open spec fn step_blocks(step: TemplateStepView) -> nat {
    match step {
        TemplateStepView::Place { .. } => 1,
        TemplateStepView::Wall { from, to, .. } => box_volume(from, to),
        _ => 0,
    }
}

/// The lines of a template: the text split at each '\n'. A '\r' before a
/// line break is white space and is trimmed away, so every line reads as it
/// does in `str::lines`; a text that ends with a line break has one more,
/// empty, line, which is skipped.
pub open spec fn template_lines(content: Seq<char>) -> Seq<Seq<char>> {
    split_on(content, '\n')
}

/// The world after the lines ran in order.
pub open spec fn spec_run_template(m: Map<BlockPos, BlockType>, lines: Seq<Seq<char>>) -> Map<BlockPos, BlockType>
    decreases lines.len(),
{
    if lines.len() == 0 {
        m
    } else {
        spec_apply_step(spec_template_step(lines.last()), spec_run_template(m, lines.drop_last()))
    }
}

/// How many blocks the lines create, counting each placement.
pub open spec fn template_blocks(lines: Seq<Seq<char>>) -> nat
    decreases lines.len(),
{
    if lines.len() == 0 {
        0
    } else {
        template_blocks(lines.drop_last()) + step_blocks(spec_template_step(lines.last()))
    }
}

/// Whether running the template keeps its block counter (`i32`) in range.
pub open spec fn template_fits(content: Seq<char>) -> bool {
    template_blocks(template_lines(content)) <= i32::MAX
}

proof fn lemma_template_blocks_prefix(lines: Seq<Seq<char>>, i: int, j: int)
    requires
        0 <= i <= j <= lines.len(),
    ensures
        template_blocks(lines.take(i)) <= template_blocks(lines.take(j)),
    decreases j - i,
{
    if i < j {
        lemma_template_blocks_prefix(lines, i, j - 1);
        assert(lines.take(j).drop_last() == lines.take(j - 1));
    }
}

/// Whether the template can run (see [`template_fits`]).
pub fn check_template_fits(content: &str) -> (b: bool)
    ensures
        b == template_fits(content@),
{
    let lines = split_char(content, '\n');
    let ghost ls = template_lines(content@);
    let mut total: u128 = 0;
    let mut i: usize = 0;
    assert(ls.take(0) =~= Seq::<Seq<char>>::empty());
    while i < lines.len()
        invariant
            views(lines@) == ls,
            ls == template_lines(content@),
            i <= ls.len(),
            total == template_blocks(ls.take(i as int)),
            total <= i32::MAX,
        decreases ls.len() - i,
    {
        proof {
            assert(views(lines@)[i as int] == lines@[i as int]@);
            assert(ls.take(i + 1).drop_last() == ls.take(i as int));
            assert(ls.take(i + 1).last() == ls[i as int]);
        }
        let step = template_step(lines[i].as_str());
        let add: u128 = match &step {
            TemplateStep::Place { .. } => 1,
            TemplateStep::Wall { from, to, .. } => volume_between(*from, *to),
            _ => 0,
        };
        assert(add == step_blocks(step@));
        assert(total + add == template_blocks(ls.take(i + 1)));
        total = total + add;
        i = i + 1;
        if total > i32::MAX as u128 {
            proof {
                lemma_template_blocks_prefix(ls, i as int, ls.len() as int);
                assert(ls.take(ls.len() as int) == ls);
            }
            return false;
        }
    }
    assert(ls.take(ls.len() as int) == ls);
    true
}

/// Run a world template against the world, line by line: blocks go into the
/// world, the other steps are handed back in order. Gives the number of
/// blocks created (a placement counts each time) and the steps.
pub fn run_world_template(world: &mut VoxelWorld, content: &str) -> (r: (u64, Vec<TemplateStep>))
    requires
        old(world).wf(),
        template_fits(content@),
    ensures
        final(world).wf(),
        final(world)@ == spec_run_template(old(world)@, template_lines(content@)),
        r.0 == template_blocks(template_lines(content@)),
        r.1@.len() == template_lines(content@).len(),
        forall|k: int|
            0 <= k < r.1@.len() ==> (#[trigger] r.1@[k])@ == spec_template_step(template_lines(content@)[k]),
{
    let lines = split_char(content, '\n');
    let ghost ls = template_lines(content@);
    let ghost start = world@;
    let mut created: u64 = 0;
    let mut steps: Vec<TemplateStep> = Vec::new();
    let mut i: usize = 0;
    assert(ls.take(0) =~= Seq::<Seq<char>>::empty());
    while i < lines.len()
        invariant
            world.wf(),
            views(lines@) == ls,
            template_blocks(ls) <= i32::MAX,
            i <= ls.len(),
            created == template_blocks(ls.take(i as int)),
            world@ == spec_run_template(start, ls.take(i as int)),
            steps@.len() == i,
            forall|k: int| 0 <= k < i ==> (#[trigger] steps@[k])@ == spec_template_step(ls[k]),
        decreases ls.len() - i,
    {
        proof {
            assert(views(lines@)[i as int] == lines@[i as int]@);
            assert(ls.take(i + 1).drop_last() == ls.take(i as int));
            assert(ls.take(i + 1).last() == ls[i as int]);
            lemma_template_blocks_prefix(ls, i + 1, ls.len() as int);
            assert(ls.take(ls.len() as int) == ls);
        }
        let step = template_step(lines[i].as_str());
        match &step {
            TemplateStep::Place { block, pos } => {
                world.set_block(*pos, *block);
                created = created + 1;
            },
            TemplateStep::Wall { block, from, to } => {
                let n = world.fill_box(*from, *to, *block);
                created = created + n;
            },
            _ => {},
        }
        steps.push(step);
        i = i + 1;
    }
    assert(ls.take(ls.len() as int) == ls);
    (created, steps)
}

} // verus!

verus! {

/// The block type the direct tools accept: any letter case, and not water.
pub open spec fn spec_direct_block(name: Seq<char>) -> Option<BlockType> {
    match spec_block_from_name(lowered(name)) {
        Some(BlockType::Water) => None,
        other => other,
    }
}

fn direct_block(name: &str) -> (b: Option<BlockType>)
    ensures
        b == spec_direct_block(name@),
{
    match parse_block_type(name) {
        Some(BlockType::Water) => None,
        other => other,
    }
}

/// The direct `place_block` tool.
pub fn direct_place_block(
    world: &mut VoxelWorld,
    block_type: Option<&str>,
    x: Option<i64>,
    y: Option<i64>,
    z: Option<i64>,
) -> (reply: String)
    requires
        old(world).wf(),
    ensures
        final(world).wf(),
        match (block_type, x, y, z) {
            (Some(b), Some(x), Some(y), Some(z)) => match spec_direct_block(b@) {
                Some(block) => {
                    &&& final(world)@ == old(world)@.insert(spec_truncated_pos(x, y, z), block)
                    &&& reply@ == "Placed "@ + b@ + " block at "@ + spec_coords64(x, y, z)
                },
                None => final(world)@ == old(world)@ && reply@ == spec_unknown_block_message(b@),
            },
            _ => final(world)@ == old(world)@ && reply@
                == "Error: place_block requires block_type, x, y, z parameters"@,
        },
{
    match (block_type, x, y, z) {
        (Some(b), Some(x), Some(y), Some(z)) => match direct_block(b) {
            Some(block) => {
                world.set_block(
                    (
                        #[verifier::truncate] (x as i32),
                        #[verifier::truncate] (y as i32),
                        #[verifier::truncate] (z as i32),
                    ),
                    block,
                );
                let mut r = concat("Placed ", b);
                r.append(" block at ");
                r.append(coords64(x, y, z, ", ").as_str());
                r
            },
            None => unknown_block_message(b),
        },
        _ => String::from_str("Error: place_block requires block_type, x, y, z parameters"),
    }
}

/// The direct `create_wall` tool: the corners may come in any order; the wall
/// fills the box between them, and the reply counts its blocks.
pub fn direct_create_wall(
    world: &mut VoxelWorld,
    block_type: Option<&str>,
    x1: Option<i64>,
    y1: Option<i64>,
    z1: Option<i64>,
    x2: Option<i64>,
    y2: Option<i64>,
    z2: Option<i64>,
) -> (reply: String)
    requires
        old(world).wf(),
        match (x1, y1, z1, x2, y2, z2) {
            (Some(a), Some(b), Some(c), Some(d), Some(e), Some(f)) => wall_fits(a, b, c, d, e, f),
            _ => true,
        },
    ensures
        final(world).wf(),
        match (block_type, x1, y1, z1, x2, y2, z2) {
            (Some(bt), Some(x1), Some(y1), Some(z1), Some(x2), Some(y2), Some(z2)) => match spec_direct_block(
                bt@,
            ) {
                Some(block) => {
                    let (lo, hi) = spec_wall_corners(x1, y1, z1, x2, y2, z2);
                    &&& final(world)@ == filled(old(world)@, lo, hi, block)
                    &&& reply@ == "Created "@ + bt@ + " wall from "@ + spec_coords_sep(x1, y1, z1, ","@)
                        + " to "@ + spec_coords_sep(x2, y2, z2, ","@) + " - "@ + nat_decimal(
                        box_volume(lo, hi),
                    ) + " blocks placed"@
                },
                None => final(world)@ == old(world)@ && reply@ == spec_unknown_block_message(bt@),
            },
            _ => final(world)@ == old(world)@ && reply@
                == "Error: create_wall requires block_type, x1, y1, z1, x2, y2, z2 parameters"@,
        },
{
    match (block_type, x1, y1, z1, x2, y2, z2) {
        (Some(bt), Some(x1), Some(y1), Some(z1), Some(x2), Some(y2), Some(z2)) => match direct_block(bt) {
            Some(block) => {
                let min_x: i32 = #[verifier::truncate] ((if x1 <= x2 { x1 } else { x2 }) as i32);
                let max_x: i32 = #[verifier::truncate] ((if x1 >= x2 { x1 } else { x2 }) as i32);
                let min_y: i32 = #[verifier::truncate] ((if y1 <= y2 { y1 } else { y2 }) as i32);
                let max_y: i32 = #[verifier::truncate] ((if y1 >= y2 { y1 } else { y2 }) as i32);
                let min_z: i32 = #[verifier::truncate] ((if z1 <= z2 { z1 } else { z2 }) as i32);
                let max_z: i32 = #[verifier::truncate] ((if z1 >= z2 { z1 } else { z2 }) as i32);
                let count = world.fill_box((min_x, min_y, min_z), (max_x, max_y, max_z), block);
                let mut r = concat("Created ", bt);
                r.append(" wall from ");
                r.append(coords64(x1, y1, z1, ",").as_str());
                r.append(" to ");
                r.append(coords64(x2, y2, z2, ",").as_str());
                r.append(" - ");
                r.append(format_u64(count).as_str());
                r.append(" blocks placed");
                r
            },
            None => unknown_block_message(bt),
        },
        _ => String::from_str("Error: create_wall requires block_type, x1, y1, z1, x2, y2, z2 parameters"),
    }
}

/// The direct `set_game_state` tool: gives the reply and the state to switch
/// to on the next frame. `state_settable` says whether the game lets its
/// state be set.
pub fn direct_set_game_state(state: Option<&str>, state_settable: bool) -> (r: (String, Option<GameState>))
    ensures
        match state {
            Some(s) => match spec_mcp_game_state(lowered(s@)) {
                Some(g) => if state_settable {
                    r.1 == Some(g) && r.0@ == "Game state will be set to "@ + spec_game_state_name(g)
                        + " on next frame (MCP transition)"@
                } else {
                    r.1 is None && r.0@ == "Error: Game state resource not available"@
                },
                None => r.1 is None && r.0@ == "Error: Invalid game state '"@ + s@
                    + "'. Valid states: MainMenu, InGame, Settings, WorldSelection, GameplayMenu, ConsoleOpen"@,
            },
            None => r.1 is None && r.0@ == "Error: state parameter is required for set_game_state"@,
        },
{
    match state {
        Some(s) => {
            let lower = to_lowercase_text(s);
            match mcp_game_state(lower.as_str()) {
                Some(g) => if state_settable {
                    let mut m = concat("Game state will be set to ", game_state_label(g));
                    m.append(" on next frame (MCP transition)");
                    (m, Some(g))
                } else {
                    (String::from_str("Error: Game state resource not available"), None)
                },
                None => {
                    let mut m = concat("Error: Invalid game state '", s);
                    m.append(
                        "'. Valid states: MainMenu, InGame, Settings, WorldSelection, GameplayMenu, ConsoleOpen",
                    );
                    (m, None)
                },
            }
        },
        None => (String::from_str("Error: state parameter is required for set_game_state"), None),
    }
}

/// The direct `publish_world` tool: the world must be named; at most 10
/// players and public unless told otherwise (the player count is cut to 32
/// bits). Gives the request and the reply, or the error.
pub fn direct_publish_world(
    world_name: Option<&str>,
    max_players: Option<u64>,
    is_public: Option<bool>,
) -> (r: Result<(PublishRequest, String), String>)
    ensures
        match world_name {
            None => r matches Err(e) && e@ == "Error: world_name is required for publish_world"@,
            Some(name) => {
                let players = (match max_players {
                    Some(m) => m,
                    None => 10u64,
                }) as u32;
                let public = match is_public {
                    Some(p) => p,
                    None => true,
                };
                r matches Ok((req, msg)) && req.world_name@ == name@ && req.max_players == players
                    && req.is_public == public && msg@ == "World '"@ + name@
                    + "' published for multiplayer (max_players: "@ + nat_decimal(players as nat)
                    + ", public: "@ + bool_text(public) + ")"@
            },
        },
{
    match world_name {
        None => Err(String::from_str("Error: world_name is required for publish_world")),
        Some(_) => mcp_publish_world(world_name, None, max_players, is_public),
    }
}

/// The direct `load_world_by_name` tool: the reply, and the world to load.
pub fn direct_load_world_by_name(world_name: Option<&str>) -> (r: (String, Option<String>))
    ensures
        match world_name {
            Some(n) => r.1 matches Some(w) && w@ == n@ && r.0@ == "Loaded world '"@ + n@
                + "' and transitioned to InGame"@,
            None => r.1 is None && r.0@ == "Error: world_name is required for load_world_by_name"@,
        },
{
    match world_name {
        Some(n) => {
            let mut m = concat("Loaded world '", n);
            m.append("' and transitioned to InGame");
            (m, Some(String::from_str(n)))
        },
        None => (String::from_str("Error: world_name is required for load_world_by_name"), None),
    }
}

/// The direct `load_world` tool: the reply, and the world to load from disk.
pub fn direct_load_world(world_name: Option<&str>) -> (r: (String, Option<String>))
    ensures
        match world_name {
            Some(n) => r.1 matches Some(w) && w@ == n@ && r.0@ == "Loading world '"@ + n@
                + "' from filesystem and transitioning to InGame state"@,
            None => r.1 is None && r.0@ == "Error: load_world requires world_name parameter"@,
        },
{
    match world_name {
        Some(n) => {
            let mut m = concat("Loading world '", n);
            m.append("' from filesystem and transitioning to InGame state");
            (m, Some(String::from_str(n)))
        },
        None => (String::from_str("Error: load_world requires world_name parameter"), None),
    }
}

/// The `save_world` tool's reply.
pub fn save_world_reply(filename: Option<&str>) -> (reply: String)
    ensures
        reply@ == match filename {
            Some(f) => "World saved to file: "@ + f@,
            None => "Error: save_world requires filename parameter"@,
        },
{
    match filename {
        Some(f) => concat("World saved to file: ", f),
        None => String::from_str("Error: save_world requires filename parameter"),
    }
}

/// The `load_world_by_file` tool's reply.
pub fn load_world_by_file_reply(filename: Option<&str>) -> (reply: String)
    ensures
        reply@ == match filename {
            Some(f) => "World loaded from file: "@ + f@,
            None => "Error: load_world_by_file requires filename parameter"@,
        },
{
    match filename {
        Some(f) => concat("World loaded from file: ", f),
        None => String::from_str("Error: load_world_by_file requires filename parameter"),
    }
}

/// The `control_device` tool's reply.
pub fn control_device_reply(device_id: Option<&str>, command: Option<&str>) -> (reply: String)
    ensures
        reply@ == match (device_id, command) {
            (Some(d), Some(c)) => "Sent '"@ + c@ + "' command to device '"@ + d@ + "'"@,
            _ => "Error: control_device requires device_id and command parameters"@,
        },
{
    match (device_id, command) {
        (Some(d), Some(c)) => {
            let mut m = concat("Sent '", c);
            m.append("' command to device '");
            m.append(d);
            m.append("'");
            m
        },
        _ => String::from_str("Error: control_device requires device_id and command parameters"),
    }
}

/// The `wait_for_condition` tool's reply: 30 seconds and no expected value
/// unless told otherwise.
pub fn wait_for_condition_reply(
    condition: Option<&str>,
    timeout_seconds: Option<u64>,
    expected_value: Option<&str>,
) -> (reply: String)
    ensures
        reply@ == match condition {
            Some(c) => {
                let t = match timeout_seconds {
                    Some(t) => t,
                    None => 30u64,
                };
                let e = match expected_value {
                    Some(e) => e@,
                    None => Seq::<char>::empty(),
                };
                if e.len() == 0 {
                    "Waiting for condition '"@ + c@ + "' (timeout: "@ + nat_decimal(t as nat) + "s)"@
                } else {
                    "Waiting for condition '"@ + c@ + "' = '"@ + e + "' (timeout: "@ + nat_decimal(
                        t as nat,
                    ) + "s)"@
                }
            },
            None => "Error: wait_for_condition requires condition parameter"@,
        },
{
    match condition {
        Some(c) => {
            let t: u64 = match timeout_seconds {
                Some(t) => t,
                None => 30,
            };
            let e: &str = match expected_value {
                Some(e) => e,
                None => "",
            };
            proof {
                reveal_strlit("");
            }
            let mut m = concat("Waiting for condition '", c);
            if e.unicode_len() == 0 {
                m.append("' (timeout: ");
            } else {
                m.append("' = '");
                m.append(e);
                m.append("' (timeout: ");
            }
            m.append(format_u64(t).as_str());
            m.append("s)");
            m
        },
        None => String::from_str("Error: wait_for_condition requires condition parameter"),
    }
}

/// A world to create and the template to fill it from.
pub struct CreateWorldRequest {
    pub world_name: String,
    pub description: String,
    pub template: String,
}

/// The direct `create_world` tool's arguments: the world must be named; the
/// description and the template have defaults.
pub fn create_world_request(
    world_name: Option<&str>,
    description: Option<&str>,
    template: Option<&str>,
) -> (r: Result<CreateWorldRequest, String>)
    ensures
        match world_name {
            None => r matches Err(e) && e@ == "Error: world_name is required for create_world"@,
            Some(n) => r matches Ok(req) && req.world_name@ == n@ && req.description@ == (
            match description {
                Some(d) => d@,
                None => "A new world created via MCP"@,
            }) && req.template@ == (match template {
                Some(t) => t@,
                None => "default"@,
            }),
        },
{
    match world_name {
        None => Err(String::from_str("Error: world_name is required for create_world")),
        Some(n) => {
            let description = match description {
                Some(d) => String::from_str(d),
                None => String::from_str("A new world created via MCP"),
            };
            let template = match template {
                Some(t) => String::from_str(t),
                None => String::from_str("default"),
            };
            Ok(CreateWorldRequest { world_name: String::from_str(n), description, template })
        },
    }
}

/// Where a template's file lies, relative to the working directory.
pub fn template_path(template: &str) -> (p: String)
    ensures
        p@ == "scripts/world_templates/"@ + template@ + ".txt"@,
{
    let mut p = concat("scripts/world_templates/", template);
    p.append(".txt");
    p
}

/// The reply when a template's file does not exist.
pub fn template_missing_message(template: &str) -> (m: String)
    ensures
        m@ == "Error: Template '"@ + template@
            + "' not found. Available templates: default, medieval, modern, creative"@,
{
    let mut m = concat("Error: Template '", template);
    m.append("' not found. Available templates: default, medieval, modern, creative");
    m
}

/// The reply once the world was created.
pub fn world_created_message(req: &CreateWorldRequest) -> (m: String)
    ensures
        m@ == "Created new world: "@ + req.world_name@ + " ("@ + req.description@ + ") using template '"@
            + req.template@ + "' and transitioned to InGame"@,
{
    let mut m = concat("Created new world: ", req.world_name.as_str());
    m.append(" (");
    m.append(req.description.as_str());
    m.append(") using template '");
    m.append(req.template.as_str());
    m.append("' and transitioned to InGame");
    m
}

/// Start a new world: every block goes, then the template runs, when its
/// text could be read. Gives what [`run_world_template`] gives, or nothing.
pub fn start_new_world(world: &mut VoxelWorld, template_text: Option<&str>) -> (r: Option<(u64, Vec<TemplateStep>)>)
    requires
        old(world).wf(),
        match template_text {
            Some(t) => template_fits(t@),
            None => true,
        },
    ensures
        final(world).wf(),
        match template_text {
            Some(t) => {
                &&& final(world)@ == spec_run_template(Map::empty(), template_lines(t@))
                &&& r matches Some((n, steps)) && n == template_blocks(template_lines(t@))
                    && steps@.len() == template_lines(t@).len()
                    && forall|k: int| 0 <= k < steps@.len() ==> (#[trigger] steps@[k])@
                        == spec_template_step(template_lines(t@)[k])
            },
            None => final(world)@ == Map::<BlockPos, BlockType>::empty() && r is None,
        },
{
    world.clear();
    match template_text {
        Some(t) => Some(run_world_template(world, t)),
        None => None,
    }
}

} // verus!
