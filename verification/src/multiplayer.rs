//! The multiplayer mode of a client and the decisions that depend on it:
//! publishing, joining and leaving shared worlds, and which block changes are
//! sent to the other players.
use vstd::prelude::*;
use crate::commands::GameState;
use crate::text::{concat, format_u128, nat_decimal, str_eq};
use crate::world::{BlockPos, BlockType, VoxelWorld};

verus! {

broadcast use vstd::string::group_string_axioms;

/// Whether this client plays alone, hosts a shared world, or joined one.
#[derive(Debug, Clone)]
pub enum MultiplayerMode {
    /// Changes stay local.
    SinglePlayer,
    /// Hosting a world that others can join.
    HostingWorld { world_id: String, is_published: bool },
    /// Joined someone else's world.
    JoinedWorld { world_id: String, host_player: String },
}

/// [`MultiplayerMode`] with its texts as character sequences.
pub enum ModeView {
    SinglePlayer,
    HostingWorld { world_id: Seq<char>, is_published: bool },
    JoinedWorld { world_id: Seq<char>, host_player: Seq<char> },
}

impl View for MultiplayerMode {
    type V = ModeView;

    open spec fn view(&self) -> ModeView {
        match self {
            MultiplayerMode::SinglePlayer => ModeView::SinglePlayer,
            MultiplayerMode::HostingWorld { world_id, is_published } => ModeView::HostingWorld {
                world_id: world_id@,
                is_published: *is_published,
            },
            MultiplayerMode::JoinedWorld { world_id, host_player } => ModeView::JoinedWorld {
                world_id: world_id@,
                host_player: host_player@,
            },
        }
    }
}

impl PartialEq for MultiplayerMode {
    fn eq(&self, other: &Self) -> (r: bool) {
        match (self, other) {
            (MultiplayerMode::SinglePlayer, MultiplayerMode::SinglePlayer) => true,
            (
                MultiplayerMode::HostingWorld { world_id: a, is_published: p },
                MultiplayerMode::HostingWorld { world_id: b, is_published: q },
            ) => str_eq(a.as_str(), b.as_str()) && *p == *q,
            (
                MultiplayerMode::JoinedWorld { world_id: a, host_player: h },
                MultiplayerMode::JoinedWorld { world_id: b, host_player: k },
            ) => str_eq(a.as_str(), b.as_str()) && str_eq(h.as_str(), k.as_str()),
            _ => false,
        }
    }
}

impl vstd::std_specs::cmp::PartialEqSpecImpl for MultiplayerMode {
    open spec fn obeys_eq_spec() -> bool {
        true
    }

    open spec fn eq_spec(&self, other: &Self) -> bool {
        self@ == other@
    }
}

impl Default for MultiplayerMode {
    fn default() -> (m: Self)
        ensures
            m@ == ModeView::SinglePlayer,
    {
        MultiplayerMode::SinglePlayer
    }
}

} // verus!

verus! {

/// The host recorded for a world that discovery has not seen.
pub open spec fn unknown_host() -> Seq<char> {
    "unknown_host"@
}

/// The mode after a world is published: hosted under the current world's
/// name when a world is loaded, else under the published name.
pub open spec fn spec_publish(current_world: Option<Seq<char>>, world_name: Seq<char>, is_public: bool) -> ModeView {
    ModeView::HostingWorld {
        world_id: match current_world {
            Some(n) => n,
            None => world_name,
        },
        is_published: is_public,
    }
}

/// The mode after joining `world_id`, whose host discovery may know.
pub open spec fn spec_join(world_id: Seq<char>, known_host: Option<Seq<char>>) -> ModeView {
    ModeView::JoinedWorld {
        world_id,
        host_player: match known_host {
            Some(h) => h,
            None => unknown_host(),
        },
    }
}

/// Whether the mode shares the world with others.
pub open spec fn spec_is_multiplayer(m: ModeView) -> bool {
    !(m is SinglePlayer)
}

/// The mode after the automatic switch to hosting: it happens only from
/// single player, in game, with a broker connection and a loaded world.
pub open spec fn spec_auto_enable(
    m: ModeView,
    in_game: bool,
    connection_available: bool,
    current_world: Option<Seq<char>>,
) -> ModeView {
    match (m, current_world) {
        (ModeView::SinglePlayer, Some(name)) => if in_game && connection_available {
            ModeView::HostingWorld { world_id: name, is_published: false }
        } else {
            m
        },
        _ => m,
    }
}

/// Whether world data received for `world_id` is loaded in mode `m`.
pub open spec fn spec_loads_world_state(m: ModeView, world_id: Seq<char>) -> bool {
    match m {
        ModeView::JoinedWorld { world_id: joined, .. } => joined == world_id,
        _ => false,
    }
}

/// The world id that the mode shares, if any.
pub open spec fn spec_shared_world_id(m: ModeView) -> Option<Seq<char>> {
    match m {
        ModeView::SinglePlayer => None,
        ModeView::HostingWorld { world_id, .. } => Some(world_id),
        ModeView::JoinedWorld { world_id, .. } => Some(world_id),
    }
}

impl MultiplayerMode {
    /// Publish a world: host it. Its id is the loaded world's name when there
    /// is one, else the name the publish request gave.
    pub fn publish_world(&mut self, current_world: Option<&str>, world_name: &str, is_public: bool)
        ensures
            final(self)@ == spec_publish(
                match current_world {
                    Some(n) => Some(n@),
                    None => None,
                },
                world_name@,
                is_public,
            ),
    {
        let world_id = match current_world {
            Some(n) => String::from_str(n),
            None => String::from_str(world_name),
        };
        *self = MultiplayerMode::HostingWorld { world_id, is_published: is_public };
    }

    /// Stop publishing: back to single player.
    pub fn unpublish_world(&mut self)
        ensures
            final(self)@ == ModeView::SinglePlayer,
    {
        *self = MultiplayerMode::SinglePlayer;
    }

    /// Leave the shared world: back to single player.
    pub fn leave_shared_world(&mut self)
        ensures
            final(self)@ == ModeView::SinglePlayer,
    {
        *self = MultiplayerMode::SinglePlayer;
    }

    /// Join `world_id`. `known_host` is the host that discovery recorded for
    /// it, `has_cached_data` whether its data already arrived. Gives whether
    /// that cached data is to be loaded now: only for a discovered world.
    pub fn join_shared_world(&mut self, world_id: &str, known_host: Option<&str>, has_cached_data: bool) -> (load_cached: bool)
        ensures
            final(self)@ == spec_join(
                world_id@,
                match known_host {
                    Some(h) => Some(h@),
                    None => None,
                },
            ),
            load_cached == (known_host is Some && has_cached_data),
    {
        match known_host {
            Some(h) => {
                *self = MultiplayerMode::JoinedWorld {
                    world_id: String::from_str(world_id),
                    host_player: String::from_str(h),
                };
                has_cached_data
            },
            None => {
                *self = MultiplayerMode::JoinedWorld {
                    world_id: String::from_str(world_id),
                    host_player: String::from_str("unknown_host"),
                };
                false
            },
        }
    }

    /// Whether the world is shared: hosting or joined.
    pub fn is_multiplayer(&self) -> (b: bool)
        ensures
            b == spec_is_multiplayer(self@),
    {
        match self {
            MultiplayerMode::SinglePlayer => false,
            _ => true,
        }
    }

    /// Whether a world change is broadcast to the other players.
    pub fn broadcasts_world_changes(&self) -> (b: bool)
        ensures
            b == spec_is_multiplayer(self@),
    {
        self.is_multiplayer()
    }

    /// Whether the local player's position is tracked for the others.
    pub fn tracks_player_positions(&self) -> (b: bool)
        ensures
            b == spec_is_multiplayer(self@),
    {
        self.is_multiplayer()
    }

    /// The id of the world this client shares, if any.
    pub fn shared_world_id(&self) -> (id: Option<&str>)
        ensures
            match id {
                Some(s) => spec_shared_world_id(self@) == Some(s@),
                None => spec_shared_world_id(self@) is None,
            },
    {
        match self {
            MultiplayerMode::SinglePlayer => None,
            MultiplayerMode::HostingWorld { world_id, .. } => Some(world_id.as_str()),
            MultiplayerMode::JoinedWorld { world_id, .. } => Some(world_id.as_str()),
        }
    }

    /// Switch to hosting the loaded world, unpublished, when in single
    /// player, in game, with a broker connection and a world loaded; any other
    /// mode is left alone.
    pub fn auto_enable(&mut self, in_game: bool, connection_available: bool, current_world: Option<&str>)
        ensures
            final(self)@ == spec_auto_enable(
                old(self)@,
                in_game,
                connection_available,
                match current_world {
                    Some(n) => Some(n@),
                    None => None,
                },
            ),
    {
        if let MultiplayerMode::SinglePlayer = self {
            if !in_game {
                return;
            }
            if connection_available {
                if let Some(name) = current_world {
                    *self = MultiplayerMode::HostingWorld {
                        world_id: String::from_str(name),
                        is_published: false,
                    };
                }
            }
        }
    }

    /// Whether world data received for `world_id` is loaded: only when this
    /// client joined that very world.
    pub fn loads_world_state(&self, world_id: &str) -> (b: bool)
        ensures
            b == spec_loads_world_state(self@, world_id@),
    {
        match self {
            MultiplayerMode::JoinedWorld { world_id: joined, .. } => str_eq(joined.as_str(), world_id),
            _ => false,
        }
    }

    /// The game state to switch to: in world selection, an active shared world
    /// moves the game on to playing; nothing changes otherwise.
    pub fn auto_transition(&self, current: GameState) -> (next: Option<GameState>)
        ensures
            next == (if current == GameState::WorldSelection && spec_is_multiplayer(self@) {
                Some(GameState::InGame)
            } else {
                None
            }),
    {
        if current == GameState::WorldSelection && self.is_multiplayer() {
            Some(GameState::InGame)
        } else {
            None
        }
    }
}

/// Where a block change was made.
#[derive(Clone, Copy, Debug, PartialEq, Eq, Structural)]
pub enum BlockChangeSource {
    /// By the local player.
    Local,
    /// By another player, received from the broker.
    Remote,
}

/// The topic a block change is published on.
pub open spec fn spec_block_change_topic(world_id: Seq<char>, placed: bool) -> Seq<char> {
    "iotcraft/worlds/"@ + world_id + if placed {
        "/state/blocks/placed"@
    } else {
        "/state/blocks/removed"@
    }
}

/// Where a block change in `event_world` is to be published: local changes
/// only, and only while sharing that same world.
pub open spec fn spec_block_change_route(
    m: ModeView,
    event_world: Seq<char>,
    placed: bool,
    source: BlockChangeSource,
) -> Option<Seq<char>> {
    match (source, spec_shared_world_id(m)) {
        (BlockChangeSource::Local, Some(id)) => if id == event_world {
            Some(spec_block_change_topic(id, placed))
        } else {
            None
        },
        _ => None,
    }
}

/// The topic on which to publish a block change made in `event_world`, or
/// `None` when it is not published: changes from other players are never
/// sent back, and nothing is sent in single player or for another world.
pub fn block_change_topic(
    mode: &MultiplayerMode,
    event_world: &str,
    change: &BlockChangeType,
    source: BlockChangeSource,
) -> (topic: Option<String>)
    ensures
        match topic {
            Some(t) => spec_block_change_route(mode@, event_world@, change is Placed, source)
                == Some(t@),
            None => spec_block_change_route(mode@, event_world@, change is Placed, source) is None,
        },
{
    let placed = match change {
        BlockChangeType::Placed { .. } => true,
        BlockChangeType::Removed { .. } => false,
    };
    if source == BlockChangeSource::Remote {
        return None;
    }
    match mode.shared_world_id() {
        Some(id) => {
            if str_eq(id, event_world) {
                let mut t = concat("iotcraft/worlds/", id);
                if placed {
                    t.append("/state/blocks/placed");
                } else {
                    t.append("/state/blocks/removed");
                }
                Some(t)
            } else {
                None
            }
        },
        None => None,
    }
}

/// A block placed or removed in a shared world.
#[derive(Clone, Copy, Debug, PartialEq, Eq, Structural)]
pub enum BlockChangeType {
    Placed { x: i32, y: i32, z: i32, block_type: BlockType },
    Removed { x: i32, y: i32, z: i32 },
}

/// What a block change does to the world's blocks.
pub open spec fn spec_apply_block_change(m: Map<BlockPos, BlockType>, change: BlockChangeType) -> Map<
    BlockPos,
    BlockType,
> {
    match change {
        BlockChangeType::Placed { x, y, z, block_type } => m.insert((x, y, z), block_type),
        BlockChangeType::Removed { x, y, z } => m.remove((x, y, z)),
    }
}

/// Apply a block change to the world.
pub fn apply_block_change(world: &mut VoxelWorld, change: &BlockChangeType)
    requires
        old(world).wf(),
    ensures
        final(world).wf(),
        final(world)@ == spec_apply_block_change(old(world)@, *change),
{
    match change {
        BlockChangeType::Placed { x, y, z, block_type } => world.set_block((*x, *y, *z), *block_type),
        BlockChangeType::Removed { x, y, z } => {
            world.remove_block((*x, *y, *z));
        },
    }
}

/// Apply a block change received from the broker: only changes made by other
/// players are applied; local ones are already in the world. Gives whether
/// the change was applied.
pub fn apply_remote_block_change(world: &mut VoxelWorld, change: &BlockChangeType, source: BlockChangeSource) -> (applied: bool)
    requires
        old(world).wf(),
    ensures
        final(world).wf(),
        applied == (source == BlockChangeSource::Remote),
        final(world)@ == if applied {
            spec_apply_block_change(old(world)@, *change)
        } else {
            old(world)@
        },
{
    if source == BlockChangeSource::Local {
        return false;
    }
    apply_block_change(world, change);
    true
}

/// A change to a shared world.
#[derive(Debug, Clone)]
pub enum WorldChangeType {
    BlockPlaced { x: i32, y: i32, z: i32, block_type: BlockType },
    BlockRemoved { x: i32, y: i32, z: i32 },
    PlayerJoined { player_id: String, player_name: String },
    PlayerLeft { player_id: String, player_name: String },
}

/// Apply a shared-world change: block changes edit the world, player
/// changes leave it alone.
pub fn apply_world_change(world: &mut VoxelWorld, change: &WorldChangeType)
    requires
        old(world).wf(),
    ensures
        final(world).wf(),
        final(world)@ == match change {
            WorldChangeType::BlockPlaced { x, y, z, block_type } => old(world)@.insert(
                (*x, *y, *z),
                *block_type,
            ),
            WorldChangeType::BlockRemoved { x, y, z } => old(world)@.remove((*x, *y, *z)),
            _ => old(world)@,
        },
{
    match change {
        WorldChangeType::BlockPlaced { x, y, z, block_type } => world.set_block((*x, *y, *z), *block_type),
        WorldChangeType::BlockRemoved { x, y, z } => {
            world.remove_block((*x, *y, *z));
        },
        _ => {},
    }
}

/// The description of a shared world that other players discover.
#[derive(Debug, Clone)]
pub struct SharedWorldInfo {
    pub world_id: String,
    pub world_name: String,
    pub description: String,
    pub host_player: String,
    pub host_name: String,
    pub created_at: String,
    pub last_updated: String,
    pub player_count: u32,
    pub max_players: u32,
    pub is_public: bool,
    pub version: String,
}

/// A request to publish the current world.
#[derive(Debug, Clone)]
pub struct PublishWorldEvent {
    pub world_name: String,
    pub max_players: u32,
    pub is_public: bool,
}

/// The description the broker client publishes for a world it shares: the
/// id is the world's name and the time in milliseconds, the host is this
/// player, one player is in, and `now` (a timestamp) is both creation and
/// update time.
pub fn shared_world_info_for_publish(
    event: &PublishWorldEvent,
    millis: u128,
    host_player: &str,
    now: &str,
) -> (info: SharedWorldInfo)
    ensures
        info.world_id@ == event.world_name@ + "_"@ + nat_decimal(millis as nat),
        info.world_name@ == event.world_name@,
        info.description@ == "World shared from desktop: "@ + event.world_name@,
        info.host_player@ == host_player@,
        info.host_name@ == "DesktopHost"@,
        info.created_at@ == now@,
        info.last_updated@ == now@,
        info.player_count == 1,
        info.max_players == event.max_players,
        info.is_public == event.is_public,
        info.version@ == "1.0.0"@,
{
    let mut world_id = concat(event.world_name.as_str(), "_");
    world_id.append(format_u128(millis).as_str());
    SharedWorldInfo {
        world_id,
        world_name: event.world_name.clone(),
        description: concat("World shared from desktop: ", event.world_name.as_str()),
        host_player: String::from_str(host_player),
        host_name: String::from_str("DesktopHost"),
        created_at: String::from_str(now),
        last_updated: String::from_str(now),
        player_count: 1,
        max_players: event.max_players,
        is_public: event.is_public,
        version: String::from_str("1.0.0"),
    }
}

/// Whether the broker connection allows multiplayer.
pub struct MultiplayerConnectionStatus {
    pub connection_available: bool,
}

impl MultiplayerConnectionStatus {
    /// Multiplayer is enabled exactly when the broker connection is available.
    pub fn is_multiplayer_enabled(&self) -> (b: bool)
        ensures
            b == self.connection_available,
    {
        self.connection_available
    }
}

} // verus!

verus! {

/// The automatic switch to hosting changes nothing the second time.
pub proof fn law_auto_enable_idempotent(
    m: ModeView,
    in_game: bool,
    connection_available: bool,
    current_world: Option<Seq<char>>,
)
    ensures
        spec_auto_enable(
            spec_auto_enable(m, in_game, connection_available, current_world),
            in_game,
            connection_available,
            current_world,
        ) == spec_auto_enable(m, in_game, connection_available, current_world),
{
}

/// The automatic switch never changes a mode that already shares a world, and
/// when it acts it hosts the loaded world unpublished.
pub proof fn law_auto_enable_only_from_single_player(
    m: ModeView,
    in_game: bool,
    connection_available: bool,
    current_world: Option<Seq<char>>,
)
    ensures
        spec_is_multiplayer(m) ==> spec_auto_enable(m, in_game, connection_available, current_world)
            == m,
        spec_auto_enable(m, in_game, connection_available, current_world) != m ==> (m
            is SinglePlayer && in_game && connection_available && current_world is Some
            && spec_auto_enable(m, in_game, connection_available, current_world)
            == ModeView::HostingWorld { world_id: current_world->0, is_published: false }),
{
}

/// Publishing makes the world shared: its changes are broadcast, and a
/// client in world selection moves on to playing.
pub proof fn law_publish_enters_multiplayer(
    current_world: Option<Seq<char>>,
    world_name: Seq<char>,
    is_public: bool,
)
    ensures
        spec_is_multiplayer(spec_publish(current_world, world_name, is_public)),
        spec_shared_world_id(spec_publish(current_world, world_name, is_public)) == Some(
            match current_world {
                Some(n) => n,
                None => world_name,
            },
        ),
{
}

/// A client that joined a world loads the state received for that world and
/// for no other.
pub proof fn law_join_loads_only_that_world(
    world_id: Seq<char>,
    known_host: Option<Seq<char>>,
    other: Seq<char>,
)
    ensures
        spec_loads_world_state(spec_join(world_id, known_host), world_id),
        other != world_id ==> !spec_loads_world_state(spec_join(world_id, known_host), other),
{
}

/// Block changes that came from other players are never published again,
/// and nothing is published in single player.
pub proof fn law_no_echo_of_remote_changes(m: ModeView, world: Seq<char>, placed: bool)
    ensures
        spec_block_change_route(m, world, placed, BlockChangeSource::Remote) is None,
        spec_block_change_route(ModeView::SinglePlayer, world, placed, BlockChangeSource::Local)
            is None,
{
}

/// Every player who shares a world, host or joined, publishes their own
/// block changes in that world on the world's block topics, and nothing for
/// another world: a change reaches the other players whichever side made it.
pub proof fn law_sharing_players_publish_local_changes(
    m: ModeView,
    other_world: Seq<char>,
    placed: bool,
    world_id: Seq<char>,
    known_host: Option<Seq<char>>,
)
    ensures
        ({
            let topic = |w: Seq<char>|
                "iotcraft/worlds/"@ + w + if placed {
                    "/state/blocks/placed"@
                } else {
                    "/state/blocks/removed"@
                };
            &&& m matches ModeView::HostingWorld { world_id: w, .. } ==> spec_block_change_route(
                m,
                w,
                placed,
                BlockChangeSource::Local,
            ) == Some(topic(w))
            &&& m matches ModeView::JoinedWorld { world_id: w, .. } ==> spec_block_change_route(
                m,
                w,
                placed,
                BlockChangeSource::Local,
            ) == Some(topic(w))
            &&& spec_block_change_route(
                spec_join(world_id, known_host),
                world_id,
                placed,
                BlockChangeSource::Local,
            ) == Some(topic(world_id))
            &&& other_world != world_id ==> spec_block_change_route(
                spec_join(world_id, known_host),
                other_world,
                placed,
                BlockChangeSource::Local,
            ) is None
        }),
{
}

/// A host publishes its own local block changes on its world's topics.
pub proof fn law_host_publishes_local_changes(
    current_world: Option<Seq<char>>,
    world_name: Seq<char>,
    is_public: bool,
    placed: bool,
)
    ensures
        ({
            let m = spec_publish(current_world, world_name, is_public);
            let id = spec_shared_world_id(m)->0;
            spec_block_change_route(m, id, placed, BlockChangeSource::Local) == Some(
                spec_block_change_topic(id, placed),
            )
        }),
{
}

} // verus!
