//! Block types and the voxel world that the console, script and MCP commands
//! edit: a map from integer positions to blocks.
use vstd::prelude::*;
use crate::text::str_eq;
use std::collections::HashMap;
use vstd::std_specs::hash::spec_hash_map_iter;
use vstd::std_specs::iter::IteratorSpec;

verus! {

/// The kinds of block that can be placed.
#[derive(Clone, Copy, Debug, PartialEq, Eq, Hash, Structural)]
pub enum BlockType {
    Grass,
    Dirt,
    Stone,
    QuartzBlock,
    GlassPane,
    CyanTerracotta,
    Water,
}

/// A block position `(x, y, z)`.
pub type BlockPos = (i32, i32, i32);

/// The command-line name of each block type.
pub open spec fn spec_block_name(b: BlockType) -> Seq<char> {
    match b {
        BlockType::Grass => "grass"@,
        BlockType::Dirt => "dirt"@,
        BlockType::Stone => "stone"@,
        BlockType::QuartzBlock => "quartz_block"@,
        BlockType::GlassPane => "glass_pane"@,
        BlockType::CyanTerracotta => "cyan_terracotta"@,
        BlockType::Water => "water"@,
    }
}

/// The block type whose command-line name is exactly `name`.
pub open spec fn spec_block_from_name(name: Seq<char>) -> Option<BlockType> {
    if name == "grass"@ {
        Some(BlockType::Grass)
    } else if name == "dirt"@ {
        Some(BlockType::Dirt)
    } else if name == "stone"@ {
        Some(BlockType::Stone)
    } else if name == "quartz_block"@ {
        Some(BlockType::QuartzBlock)
    } else if name == "glass_pane"@ {
        Some(BlockType::GlassPane)
    } else if name == "cyan_terracotta"@ {
        Some(BlockType::CyanTerracotta)
    } else if name == "water"@ {
        Some(BlockType::Water)
    } else {
        None
    }
}

impl BlockType {
    /// The command-line name of this block type.
    pub fn name(self) -> (s: &'static str)
        ensures
            s@ == spec_block_name(self),
    {
        match self {
            BlockType::Grass => "grass",
            BlockType::Dirt => "dirt",
            BlockType::Stone => "stone",
            BlockType::QuartzBlock => "quartz_block",
            BlockType::GlassPane => "glass_pane",
            BlockType::CyanTerracotta => "cyan_terracotta",
            BlockType::Water => "water",
        }
    }

    /// The texture a block of this type is drawn with.
    pub fn texture_path(self) -> (s: &'static str)
        ensures
            s@ == "textures/"@ + spec_block_name(self) + ".webp"@,
    {
        let s = match self {
            BlockType::Grass => "textures/grass.webp",
            BlockType::Dirt => "textures/dirt.webp",
            BlockType::Stone => "textures/stone.webp",
            BlockType::QuartzBlock => "textures/quartz_block.webp",
            BlockType::GlassPane => "textures/glass_pane.webp",
            BlockType::CyanTerracotta => "textures/cyan_terracotta.webp",
            BlockType::Water => "textures/water.webp",
        };
        proof {
            reveal_strlit("textures/");
            reveal_strlit(".webp");
            reveal_strlit("grass");
            reveal_strlit("dirt");
            reveal_strlit("stone");
            reveal_strlit("quartz_block");
            reveal_strlit("glass_pane");
            reveal_strlit("cyan_terracotta");
            reveal_strlit("water");
            reveal_strlit("textures/grass.webp");
            reveal_strlit("textures/dirt.webp");
            reveal_strlit("textures/stone.webp");
            reveal_strlit("textures/quartz_block.webp");
            reveal_strlit("textures/glass_pane.webp");
            reveal_strlit("textures/cyan_terracotta.webp");
            reveal_strlit("textures/water.webp");
        }
        assert(s@ =~= "textures/"@ + spec_block_name(self) + ".webp"@);
        s
    }
}

/// The block type named exactly `name` ("grass", "dirt", "stone",
/// "quartz_block", "glass_pane", "cyan_terracotta" or "water").
pub fn block_type_from_name(name: &str) -> (b: Option<BlockType>)
    ensures
        b == spec_block_from_name(name@),
{
    if str_eq(name, "grass") {
        Some(BlockType::Grass)
    } else if str_eq(name, "dirt") {
        Some(BlockType::Dirt)
    } else if str_eq(name, "stone") {
        Some(BlockType::Stone)
    } else if str_eq(name, "quartz_block") {
        Some(BlockType::QuartzBlock)
    } else if str_eq(name, "glass_pane") {
        Some(BlockType::GlassPane)
    } else if str_eq(name, "cyan_terracotta") {
        Some(BlockType::CyanTerracotta)
    } else if str_eq(name, "water") {
        Some(BlockType::Water)
    } else {
        None
    }
}

/// What `str::to_lowercase` makes of a text.
pub uninterp spec fn lowercase(s: Seq<char>) -> Seq<char>;

/// Each block type's name reads back as that block type, and distinct
/// types have distinct names.
pub proof fn law_block_names_read_back(b: BlockType, c: BlockType)
    ensures
        spec_block_from_name(spec_block_name(b)) == Some(b),
        b != c ==> spec_block_name(b) != spec_block_name(c),
{
    reveal_strlit("grass");
    reveal_strlit("dirt");
    reveal_strlit("stone");
    reveal_strlit("quartz_block");
    reveal_strlit("glass_pane");
    reveal_strlit("cyan_terracotta");
    reveal_strlit("water");
    assert("dirt"@ != "grass"@) by { assert("dirt"@.len() != "grass"@.len()); }
    assert("stone"@ != "grass"@) by { assert("stone"@[0] != "grass"@[0]); }
    assert("stone"@ != "dirt"@) by { assert("stone"@.len() != "dirt"@.len()); }
    assert("quartz_block"@ != "grass"@) by { assert("quartz_block"@.len() != "grass"@.len()); }
    assert("quartz_block"@ != "dirt"@) by { assert("quartz_block"@.len() != "dirt"@.len()); }
    assert("quartz_block"@ != "stone"@) by { assert("quartz_block"@.len() != "stone"@.len()); }
    assert("glass_pane"@ != "grass"@) by { assert("glass_pane"@.len() != "grass"@.len()); }
    assert("glass_pane"@ != "dirt"@) by { assert("glass_pane"@.len() != "dirt"@.len()); }
    assert("glass_pane"@ != "stone"@) by { assert("glass_pane"@.len() != "stone"@.len()); }
    assert("glass_pane"@ != "quartz_block"@) by { assert("glass_pane"@.len() != "quartz_block"@.len()); }
    assert("cyan_terracotta"@ != "grass"@) by { assert("cyan_terracotta"@.len() != "grass"@.len()); }
    assert("cyan_terracotta"@ != "dirt"@) by { assert("cyan_terracotta"@.len() != "dirt"@.len()); }
    assert("cyan_terracotta"@ != "stone"@) by { assert("cyan_terracotta"@.len() != "stone"@.len()); }
    assert("cyan_terracotta"@ != "quartz_block"@) by { assert("cyan_terracotta"@.len() != "quartz_block"@.len()); }
    assert("cyan_terracotta"@ != "glass_pane"@) by { assert("cyan_terracotta"@.len() != "glass_pane"@.len()); }
    assert("water"@ != "grass"@) by { assert("water"@[0] != "grass"@[0]); }
    assert("water"@ != "dirt"@) by { assert("water"@.len() != "dirt"@.len()); }
    assert("water"@ != "stone"@) by { assert("water"@[0] != "stone"@[0]); }
    assert("water"@ != "quartz_block"@) by { assert("water"@.len() != "quartz_block"@.len()); }
    assert("water"@ != "glass_pane"@) by { assert("water"@.len() != "glass_pane"@.len()); }
    assert("water"@ != "cyan_terracotta"@) by { assert("water"@.len() != "cyan_terracotta"@.len()); }
}

/// A character in lower case as ASCII has it: `A` to `Z` become `a` to `z`,
/// every other character stays.
pub open spec fn ascii_lower(c: char) -> char {
    if 'A' <= c && c <= 'Z' {
        ((c as u32) + 32) as char
    } else {
        c
    }
}

/// Whether every character of a text is ASCII.
pub open spec fn all_ascii(s: Seq<char>) -> bool {
    forall|i: int| 0 <= i < s.len() ==> (#[trigger] s[i] as u32) < 128
}

/// A text in lower case: on ASCII text, `A` to `Z` made `a` to `z`; beyond
/// ASCII, what `str::to_lowercase` makes of it.
pub open spec fn lowered(s: Seq<char>) -> Seq<char> {
    if all_ascii(s) {
        s.map_values(|c: char| ascii_lower(c))
    } else {
        lowercase(s)
    }
}

/// Calls `str::to_lowercase`. Claimed: the result depends on the text alone,
/// and on ASCII text it is the text with `A` to `Z` made `a` to `z` (the
/// Unicode lowercase mapping, which std documents, maps the ASCII capitals
/// to the ASCII small letters and leaves the other ASCII characters alone).
/// What the mapping gives beyond ASCII is left unsaid.
#[verifier::external_body]
pub(crate) fn to_lowercase_text(s: &str) -> (r: String)
    ensures
        r@ == lowercase(s@),
        all_ascii(s@) ==> r@ == s@.map_values(|c: char| ascii_lower(c)),
{
    s.to_lowercase()
}

/// The block type named by `name` in any letter case.
pub fn parse_block_type(name: &str) -> (b: Option<BlockType>)
    ensures
        b == spec_block_from_name(lowered(name@)),
{
    let lower = to_lowercase_text(name);
    block_type_from_name(lower.as_str())
}

} // verus!

verus! {

/// The map that a list of placements describes, later entries winning.
pub open spec fn map_of(s: Seq<(BlockPos, BlockType)>) -> Map<BlockPos, BlockType>
    decreases s.len(),
{
    if s.len() == 0 {
        Map::empty()
    } else {
        map_of(s.drop_last()).insert(s.last().0, s.last().1)
    }
}

/// No position occurs twice.
pub open spec fn distinct_positions(s: Seq<(BlockPos, BlockType)>) -> bool {
    forall|i: int, j: int| 0 <= i < j < s.len() ==> #[trigger] s[i].0 != #[trigger] s[j].0
}

proof fn lemma_map_of_contains(s: Seq<(BlockPos, BlockType)>, p: BlockPos)
    requires
        distinct_positions(s),
    ensures
        map_of(s).contains_key(p) <==> exists|i: int| 0 <= i < s.len() && s[i].0 == p,
        forall|i: int| 0 <= i < s.len() && s[i].0 == p ==> map_of(s)[p] == s[i].1,
    decreases s.len(),
{
    if s.len() > 0 {
        let t = s.drop_last();
        assert(distinct_positions(t));
        lemma_map_of_contains(t, p);
        if map_of(s).contains_key(p) {
            if s.last().0 != p {
                let i = choose|i: int| 0 <= i < t.len() && t[i].0 == p;
                assert(s[i].0 == p);
            } else {
                assert(s[s.len() - 1].0 == p);
            }
        }
        if exists|i: int| 0 <= i < s.len() && s[i].0 == p {
            let i = choose|i: int| 0 <= i < s.len() && s[i].0 == p;
            if i < s.len() - 1 {
                assert(t[i].0 == p);
            }
        }
    }
}

/// The key a position is stored under: each coordinate moved up by 2^31 into
/// 32 bits, x in the highest of the 96 bits, z in the lowest.
spec fn pos_key(p: BlockPos) -> u128 {
    ((p.0 + 0x8000_0000) * 0x1_0000_0000_0000_0000 + (p.1 + 0x8000_0000) * 0x1_0000_0000 + (p.2
        + 0x8000_0000)) as u128
}

/// The position stored under a key.
spec fn key_pos(k: u128) -> BlockPos {
    (
        (k / 0x1_0000_0000_0000_0000 - 0x8000_0000) as i32,
        ((k / 0x1_0000_0000) % 0x1_0000_0000 - 0x8000_0000) as i32,
        (k % 0x1_0000_0000 - 0x8000_0000) as i32,
    )
}

proof fn lemma_key_roundtrip(p: BlockPos)
    ensures
        key_pos(pos_key(p)) == p,
        pos_key(p) < 0x1_0000_0000_0000_0000_0000_0000,
{
    let a: int = p.0 + 0x8000_0000;
    let b: int = p.1 + 0x8000_0000;
    let c: int = p.2 + 0x8000_0000;
    let k: int = a * 0x1_0000_0000_0000_0000 + b * 0x1_0000_0000 + c;
    assert(0 <= k < 0x1_0000_0000_0000_0000_0000_0000);
    assert(k / 0x1_0000_0000_0000_0000 == a);
    assert(k / 0x1_0000_0000 == a * 0x1_0000_0000 + b);
    assert((a * 0x1_0000_0000 + b) % 0x1_0000_0000 == b);
    assert(k % 0x1_0000_0000 == c);
}

/// Distinct positions have distinct keys.
proof fn lemma_keys_distinct()
    ensures
        forall|p: BlockPos, q: BlockPos| #[trigger] pos_key(p) == #[trigger] pos_key(q) ==> p == q,
{
    assert forall|p: BlockPos, q: BlockPos| #[trigger] pos_key(p) == #[trigger] pos_key(q) implies p == q by {
        lemma_key_roundtrip(p);
        lemma_key_roundtrip(q);
    }
}

/// The key of a position, as stored.
fn key_of(p: BlockPos) -> (k: u128)
    ensures
        k == pos_key(p),
{
    let a: u128 = ((p.0 as i64) + 0x8000_0000) as u128;
    let b: u128 = ((p.1 as i64) + 0x8000_0000) as u128;
    let c: u128 = ((p.2 as i64) + 0x8000_0000) as u128;
    a * 0x1_0000_0000_0000_0000 + b * 0x1_0000_0000 + c
}

/// The position stored under a key that some position has.
fn pos_of_key(k: u128) -> (p: BlockPos)
    requires
        pos_key(key_pos(k)) == k,
    ensures
        p == key_pos(k),
{
    proof {
        lemma_key_roundtrip(key_pos(k));
    }
    let x: i64 = (k / 0x1_0000_0000_0000_0000) as i64 - 0x8000_0000;
    let y: i64 = ((k / 0x1_0000_0000) % 0x1_0000_0000) as i64 - 0x8000_0000;
    let z: i64 = (k % 0x1_0000_0000) as i64 - 0x8000_0000;
    (x as i32, y as i32, z as i32)
}

/// The blocks of a world, in a hash map keyed by each position's key.
pub struct VoxelWorld {
    blocks: HashMap<u128, BlockType>,
}

impl View for VoxelWorld {
    type V = Map<BlockPos, BlockType>;

    closed spec fn view(&self) -> Map<BlockPos, BlockType> {
        Map::new(
            |p: BlockPos| self.blocks@.contains_key(pos_key(p)),
            |p: BlockPos| self.blocks@[pos_key(p)],
        )
    }
}

impl VoxelWorld {
    /// The internal invariant: every stored key is the key of a position.
    pub closed spec fn wf(&self) -> bool {
        forall|k: u128| #[trigger] self.blocks@.contains_key(k) ==> pos_key(key_pos(k)) == k
    }

    /// An empty world.
    pub fn new() -> (w: Self)
        ensures
            w.wf(),
            w@ == Map::<BlockPos, BlockType>::empty(),
    {
        broadcast use vstd::std_specs::hash::group_hash_axioms;

        let w = VoxelWorld { blocks: HashMap::new() };
        assert(w@ =~= Map::<BlockPos, BlockType>::empty());
        w
    }

    /// Remove every block.
    pub fn clear(&mut self)
        ensures
            final(self).wf(),
            final(self)@ == Map::<BlockPos, BlockType>::empty(),
    {
        self.blocks.clear();
        assert(self@ =~= Map::<BlockPos, BlockType>::empty());
    }

    /// Place `block` at `pos`, replacing what was there.
    pub fn set_block(&mut self, pos: BlockPos, block: BlockType)
        requires
            old(self).wf(),
        ensures
            final(self).wf(),
            final(self)@ == old(self)@.insert(pos, block),
    {
        broadcast use vstd::std_specs::hash::group_hash_axioms;

        let k = key_of(pos);
        self.blocks.insert(k, block);
        proof {
            lemma_key_roundtrip(pos);
            lemma_keys_distinct();
            assert(self@ =~= old(self)@.insert(pos, block));
        }
    }

    /// Remove the block at `pos`; gives the block that was there.
    pub fn remove_block(&mut self, pos: BlockPos) -> (removed: Option<BlockType>)
        requires
            old(self).wf(),
        ensures
            final(self).wf(),
            final(self)@ == old(self)@.remove(pos),
            removed == (if old(self)@.contains_key(pos) {
                Some(old(self)@[pos])
            } else {
                None
            }),
    {
        broadcast use vstd::std_specs::hash::group_hash_axioms;

        let k = key_of(pos);
        let r = self.blocks.remove(&k);
        proof {
            lemma_keys_distinct();
            assert(self@ =~= old(self)@.remove(pos));
        }
        r
    }

    /// Whether a block stands at `pos`.
    pub fn is_block_at(&self, pos: BlockPos) -> (b: bool)
        requires
            self.wf(),
        ensures
            b == self@.contains_key(pos),
    {
        broadcast use vstd::std_specs::hash::group_hash_axioms;

        let k = key_of(pos);
        self.blocks.contains_key(&k)
    }

    /// The block at `pos`, if any.
    pub fn get_block(&self, pos: BlockPos) -> (b: Option<BlockType>)
        requires
            self.wf(),
        ensures
            b == (if self@.contains_key(pos) {
                Some(self@[pos])
            } else {
                None
            }),
    {
        broadcast use vstd::std_specs::hash::group_hash_axioms;

        let k = key_of(pos);
        match self.blocks.get(&k) {
            Some(b) => Some(*b),
            None => None,
        }
    }

    proof fn lemma_dom(&self)
        requires
            self.wf(),
        ensures
            self@.dom() == self.blocks@.dom().map(|k: u128| key_pos(k)),
            self@.dom().finite(),
            self@.dom().len() == self.blocks@.dom().len(),
    {
        broadcast use vstd::std_specs::hash::group_hash_axioms;

        let keys = self.blocks@.dom();
        let f = |k: u128| key_pos(k);
        assert forall|p: BlockPos| #[trigger] self@.dom().contains(p) implies keys.map(f).contains(p) by {
            lemma_key_roundtrip(p);
            assert(keys.contains(pos_key(p)));
            assert(f(pos_key(p)) == p);
        }
        assert forall|p: BlockPos| #[trigger] keys.map(f).contains(p) implies self@.dom().contains(p) by {
            let k = choose|k: u128| keys.contains(k) && f(k) == p;
            assert(pos_key(key_pos(k)) == k);
        }
        assert(self@.dom() =~= keys.map(f));
        assert(vstd::relations::injective_on(f, keys)) by {
            assert forall|a: u128, b: u128| keys.contains(a) && keys.contains(b) && #[trigger] f(a)
                == #[trigger] f(b) implies a == b by {
                assert(pos_key(key_pos(a)) == a);
                assert(pos_key(key_pos(b)) == b);
            }
        }
        vstd::set_lib::lemma_map_size(keys, self@.dom(), f);
    }

    /// A list made from the hash map's entries, each key read back as its
    /// position, holds each position once and describes the world.
    proof fn lemma_listed(&self, list: Seq<(BlockPos, BlockType)>, v: Seq<(&u128, &BlockType)>)
        requires
            self.wf(),
            v == spec_hash_map_iter(&self.blocks).remaining(),
            v.no_duplicates(),
            list.len() == v.len(),
            forall|j: int| 0 <= j < list.len() ==> #[trigger] list[j] == (key_pos(*v[j].0), *v[j].1),
        ensures
            map_of(list) == self@,
            distinct_positions(list),
            list.len() == self@.len(),
    {
        broadcast use vstd::std_specs::hash::group_hash_axioms;

        let m = self.blocks@;
        assert(distinct_positions(list)) by {
            assert forall|i: int, j: int| 0 <= i < j < list.len() implies #[trigger] list[i].0
                != #[trigger] list[j].0 by {
                assert(m.contains_key(*v[i].0));
                assert(m.contains_key(*v[j].0));
                if list[i].0 == list[j].0 {
                    assert(pos_key(key_pos(*v[i].0)) == *v[i].0);
                    assert(pos_key(key_pos(*v[j].0)) == *v[j].0);
                    assert(v[i] == v[j]);
                }
            }
        }
        assert forall|p: BlockPos| #[trigger] map_of(list).contains_key(p) == self@.contains_key(p)
            && (self@.contains_key(p) ==> map_of(list)[p] == self@[p]) by {
            lemma_map_of_contains(list, p);
            lemma_key_roundtrip(p);
            if m.contains_key(pos_key(p)) {
                let k = pos_key(p);
                assert(v.contains((&k, &m[k])));
                let i = choose|i: int| 0 <= i < v.len() && v[i] == (&k, &m[k]);
                assert(list[i].0 == p);
            }
            if map_of(list).contains_key(p) {
                let i = choose|i: int| 0 <= i < list.len() && list[i].0 == p;
                assert(m.contains_key(*v[i].0));
                assert(pos_key(key_pos(*v[i].0)) == *v[i].0);
                assert(map_of(list)[p] == list[i].1);
            }
        }
        assert(map_of(list) =~= self@);
        self.lemma_dom();
    }

    /// How many blocks the world holds.
    pub fn block_count(&self) -> (n: usize)
        requires
            self.wf(),
        ensures
            self@.dom().finite(),
            n == self@.len(),
    {
        broadcast use vstd::std_specs::hash::group_hash_axioms;

        proof {
            self.lemma_dom();
        }
        self.blocks.len()
    }
}

} // verus!

verus! {

/// Whether `p` lies in the box whose corners are `a` and `b`; the box is
/// empty along an axis where `a` exceeds `b`.
pub open spec fn in_box(p: BlockPos, a: BlockPos, b: BlockPos) -> bool {
    &&& a.0 <= p.0 <= b.0
    &&& a.1 <= p.1 <= b.1
    &&& a.2 <= p.2 <= b.2
}

/// The number of integers from `lo` to `hi`.
pub open spec fn extent(lo: i32, hi: i32) -> nat {
    if lo <= hi {
        (hi - lo + 1) as nat
    } else {
        0
    }
}

/// The number of positions in the box from `a` to `b`.
pub open spec fn box_volume(a: BlockPos, b: BlockPos) -> nat {
    extent(a.0, b.0) * extent(a.1, b.1) * extent(a.2, b.2)
}

fn extent_between(lo: i32, hi: i32) -> (e: u128)
    ensures
        e == extent(lo, hi),
{
    if lo <= hi {
        ((hi as i64) - (lo as i64) + 1) as u128
    } else {
        0
    }
}

/// The number of positions in the box from `a` to `b`.
pub(crate) fn volume_between(a: BlockPos, b: BlockPos) -> (v: u128)
    ensures
        v == box_volume(a, b),
        v <= 0x1_0000_0000 * 0x1_0000_0000 * 0x1_0000_0000,
{
    let ex = extent_between(a.0, b.0);
    let ey = extent_between(a.1, b.1);
    let ez = extent_between(a.2, b.2);
    assert(ex * ey <= 0x1_0000_0000 * 0x1_0000_0000) by (nonlinear_arith)
        requires
            ex <= 0x1_0000_0000,
            ey <= 0x1_0000_0000,
    ;
    assert(ex * ey * ez <= 0x1_0000_0000 * 0x1_0000_0000 * 0x1_0000_0000) by (nonlinear_arith)
        requires
            ex * ey <= 0x1_0000_0000 * 0x1_0000_0000,
            ez <= 0x1_0000_0000,
    ;
    ex * ey * ez
}

/// `m` with every position of the box from `a` to `b` set to `block`.
pub open spec fn filled(m: Map<BlockPos, BlockType>, a: BlockPos, b: BlockPos, block: BlockType) -> Map<
    BlockPos,
    BlockType,
> {
    Map::new(
        |p: BlockPos| m.contains_key(p) || in_box(p, a, b),
        |p: BlockPos|
            if in_box(p, a, b) {
                block
            } else {
                m[p]
            },
    )
}

/// The positions of the box that come before `(x, y, z)` in the order the
/// fill visits them (x, then y, then z).
spec fn done_before(p: BlockPos, a: BlockPos, b: BlockPos, x: int, y: int, z: int) -> bool {
    in_box(p, a, b) && (p.0 < x || (p.0 == x && (p.1 < y || (p.1 == y && p.2 < z))))
}

spec fn partly_filled(
    m: Map<BlockPos, BlockType>,
    a: BlockPos,
    b: BlockPos,
    block: BlockType,
    x: int,
    y: int,
    z: int,
) -> Map<BlockPos, BlockType> {
    Map::new(
        |p: BlockPos| m.contains_key(p) || done_before(p, a, b, x, y, z),
        |p: BlockPos|
            if done_before(p, a, b, x, y, z) {
                block
            } else {
                m[p]
            },
    )
}

/// How many positions come before `(x, y, z)` in the fill order.
spec fn visited(a: BlockPos, b: BlockPos, x: int, y: int, z: int) -> int {
    (x - a.0) * extent(a.1, b.1) * extent(a.2, b.2) + (y - a.1) * extent(a.2, b.2) + (z - a.2)
}

impl VoxelWorld {
    /// Fill every position from `a` to `b`, x outermost, then y, then z, with
    /// `block`; gives the number of blocks placed. Nothing is placed along an
    /// axis where `a` exceeds `b`: the corners are not reordered.
    pub fn fill_box(&mut self, a: BlockPos, b: BlockPos, block: BlockType) -> (count: u64)
        requires
            old(self).wf(),
            box_volume(a, b) <= i32::MAX,
        ensures
            final(self).wf(),
            final(self)@ == filled(old(self)@, a, b, block),
            count == box_volume(a, b),
    {
        let ghost start = self@;
        let ghost ey = extent(a.1, b.1) as int;
        let ghost ez = extent(a.2, b.2) as int;
        if a.0 > b.0 || a.1 > b.1 || a.2 > b.2 {
            assert(filled(start, a, b, block) =~= start);
            assert(box_volume(a, b) == 0) by (nonlinear_arith)
                requires
                    extent(a.0, b.0) == 0 || extent(a.1, b.1) == 0 || extent(a.2, b.2) == 0,
                    box_volume(a, b) == extent(a.0, b.0) * extent(a.1, b.1) * extent(a.2, b.2),
            ;
            return 0;
        }
        let ghost ex = extent(a.0, b.0) as int;
        let mut count: u64 = 0;
        let mut x: i32 = a.0;
        assert(partly_filled(start, a, b, block, x as int, a.1 as int, a.2 as int) =~= start);
        loop
            invariant_except_break
                a.0 <= x <= b.0,
                self@ == partly_filled(start, a, b, block, x as int, a.1 as int, a.2 as int),
                count == visited(a, b, x as int, a.1 as int, a.2 as int),
            invariant
                self.wf(),
                a.0 <= b.0 && a.1 <= b.1 && a.2 <= b.2,
                ex == b.0 - a.0 + 1 && ey == b.1 - a.1 + 1 && ez == b.2 - a.2 + 1,
                box_volume(a, b) == ex * ey * ez,
                box_volume(a, b) <= i32::MAX,
            ensures
                self.wf(),
                self@ == partly_filled(start, a, b, block, b.0 + 1, a.1 as int, a.2 as int),
                count == visited(a, b, b.0 + 1, a.1 as int, a.2 as int),
            decreases b.0 - x,
        {
            let mut y: i32 = a.1;
            loop
                invariant_except_break
                    a.1 <= y <= b.1,
                    self@ == partly_filled(start, a, b, block, x as int, y as int, a.2 as int),
                    count == visited(a, b, x as int, y as int, a.2 as int),
                invariant
                    self.wf(),
                    a.0 <= x <= b.0,
                    a.0 <= b.0 && a.1 <= b.1 && a.2 <= b.2,
                    ex == b.0 - a.0 + 1 && ey == b.1 - a.1 + 1 && ez == b.2 - a.2 + 1,
                    box_volume(a, b) == ex * ey * ez,
                    box_volume(a, b) <= i32::MAX,
                ensures
                    self.wf(),
                    self@ == partly_filled(start, a, b, block, x as int, b.1 + 1, a.2 as int),
                    count == visited(a, b, x as int, b.1 + 1, a.2 as int),
                decreases b.1 - y,
            {
                let mut z: i32 = a.2;
                loop
                    invariant_except_break
                        a.2 <= z <= b.2,
                        self@ == partly_filled(start, a, b, block, x as int, y as int, z as int),
                        count == visited(a, b, x as int, y as int, z as int),
                    invariant
                        self.wf(),
                        a.0 <= x <= b.0,
                        a.1 <= y <= b.1,
                        a.0 <= b.0 && a.1 <= b.1 && a.2 <= b.2,
                        ex == b.0 - a.0 + 1 && ey == b.1 - a.1 + 1 && ez == b.2 - a.2 + 1,
                        box_volume(a, b) == ex * ey * ez,
                        box_volume(a, b) <= i32::MAX,
                    ensures
                        self.wf(),
                        self@ == partly_filled(start, a, b, block, x as int, y as int, b.2 + 1),
                        count == visited(a, b, x as int, y as int, b.2 + 1),
                    decreases b.2 - z,
                {
                    assert(visited(a, b, x as int, y as int, z as int) < ex * ey * ez) by (nonlinear_arith)
                        requires
                            visited(a, b, x as int, y as int, z as int) == (x - a.0) * ey * ez + (y
                                - a.1) * ez + (z - a.2),
                            0 <= x - a.0 < ex,
                            0 <= y - a.1 < ey,
                            0 <= z - a.2 < ez,
                    ;
                    let ghost before = self@;
                    self.set_block((x, y, z), block);
                    count = count + 1;
                    assert(self@ =~= partly_filled(start, a, b, block, x as int, y as int, z + 1));
                    if z == b.2 {
                        break;
                    }
                    z = z + 1;
                }
                assert(partly_filled(start, a, b, block, x as int, y as int, b.2 + 1)
                    =~= partly_filled(start, a, b, block, x as int, y + 1, a.2 as int));
                assert(visited(a, b, x as int, y as int, b.2 + 1) == visited(a, b, x as int, y + 1, a.2 as int)) by (nonlinear_arith)
                    requires
                        ez == b.2 - a.2 + 1,
                        visited(a, b, x as int, y as int, b.2 + 1) == (x - a.0) * ey * ez + (y - a.1) * ez + (b.2 + 1 - a.2),
                        visited(a, b, x as int, y + 1, a.2 as int) == (x - a.0) * ey * ez + (y + 1 - a.1) * ez + (a.2 - a.2),
                ;
                if y == b.1 {
                    break;
                }
                y = y + 1;
            }
            assert(partly_filled(start, a, b, block, x as int, b.1 + 1, a.2 as int)
                =~= partly_filled(start, a, b, block, x + 1, a.1 as int, a.2 as int));
            assert(visited(a, b, x as int, b.1 + 1, a.2 as int) == visited(a, b, x + 1, a.1 as int, a.2 as int)) by (nonlinear_arith)
                requires
                    ey == b.1 - a.1 + 1,
                    visited(a, b, x as int, b.1 + 1, a.2 as int) == (x - a.0) * ey * ez + (b.1 + 1 - a.1) * ez + (a.2 - a.2),
                    visited(a, b, x + 1, a.1 as int, a.2 as int) == (x + 1 - a.0) * ey * ez + (a.1 - a.1) * ez + (a.2 - a.2),
            ;
            if x == b.0 {
                break;
            }
            x = x + 1;
        }
        assert(partly_filled(start, a, b, block, b.0 + 1, a.1 as int, a.2 as int) =~= filled(start, a, b, block));
        assert(visited(a, b, b.0 + 1, a.1 as int, a.2 as int) == ex * ey * ez) by (nonlinear_arith)
            requires
                ex == b.0 - a.0 + 1,
                visited(a, b, b.0 + 1, a.1 as int, a.2 as int) == (b.0 + 1 - a.0) * ey * ez + (a.1 - a.1) * ez + (a.2 - a.2),
        ;
        count
    }
}

} // verus!

verus! {

/// A box whose first corner exceeds its second along some axis is empty:
/// filling it changes nothing and places no block.
pub proof fn law_reversed_box_is_empty(m: Map<BlockPos, BlockType>, a: BlockPos, b: BlockPos, block: BlockType)
    requires
        a.0 > b.0 || a.1 > b.1 || a.2 > b.2,
    ensures
        box_volume(a, b) == 0,
        filled(m, a, b, block) == m,
{
    assert(box_volume(a, b) == 0) by (nonlinear_arith)
        requires
            extent(a.0, b.0) == 0 || extent(a.1, b.1) == 0 || extent(a.2, b.2) == 0,
            box_volume(a, b) == extent(a.0, b.0) * extent(a.1, b.1) * extent(a.2, b.2),
    ;
    assert(filled(m, a, b, block) =~= m);
}

/// After a fill, every position of the box holds the block, and every other
/// position is as it was.
pub proof fn law_fill_sets_exactly_the_box(
    m: Map<BlockPos, BlockType>,
    a: BlockPos,
    b: BlockPos,
    block: BlockType,
    p: BlockPos,
)
    ensures
        in_box(p, a, b) ==> filled(m, a, b, block).contains_key(p) && filled(m, a, b, block)[p]
            == block,
        !in_box(p, a, b) ==> (filled(m, a, b, block).contains_key(p) == m.contains_key(p) && (
        m.contains_key(p) ==> filled(m, a, b, block)[p] == m[p])),
{
}

/// Filling the same box with the same block twice is the same as once.
pub proof fn law_fill_idempotent(m: Map<BlockPos, BlockType>, a: BlockPos, b: BlockPos, block: BlockType)
    ensures
        filled(filled(m, a, b, block), a, b, block) == filled(m, a, b, block),
{
    assert(filled(filled(m, a, b, block), a, b, block) =~= filled(m, a, b, block));
}

/// Removing a block that was just placed leaves the world as it was without
/// that position; a removed position holds no block.
pub proof fn law_place_then_remove(m: Map<BlockPos, BlockType>, p: BlockPos, block: BlockType)
    ensures
        m.insert(p, block).remove(p) == m.remove(p),
        !m.remove(p).contains_key(p),
        m.insert(p, block).contains_key(p) && m.insert(p, block)[p] == block,
{
    assert(m.insert(p, block).remove(p) =~= m.remove(p));
}

} // verus!

verus! {

impl VoxelWorld {
    /// Every block with its position, each position once, in the order the
    /// hash map holds them.
    pub fn blocks(&self) -> (list: Vec<(BlockPos, BlockType)>)
        requires
            self.wf(),
        ensures
            map_of(list@) == self@,
            distinct_positions(list@),
            list@.len() == self@.len(),
    {
        broadcast use vstd::std_specs::hash::group_hash_axioms;

        let ghost m = self.blocks@;
        let mut list: Vec<(BlockPos, BlockType)> = Vec::new();
        let it = self.blocks.iter();
        let ghost v = it.remaining();
        for entry in iter: it
            invariant
                self.wf(),
                m == self.blocks@,
                v == iter.seq(),
                v == spec_hash_map_iter(&self.blocks).remaining(),
                list@.len() == iter.index(),
                forall|j: int|
                    0 <= j < list@.len() ==> #[trigger] list@[j] == (
                        key_pos(*v[j].0),
                        *v[j].1,
                    ),
        {
            let (k, b) = entry;
            proof {
                assert(entry == v[list@.len() as int]);
                assert(m.contains_key(*v[list@.len() as int].0));
            }
            list.push((pos_of_key(*k), *b));
        }
        proof {
            self.lemma_listed(list@, v);
        }
        list
    }

    /// Replace every block with the listed ones, placed in order (a later
    /// entry for a position wins), as loading a saved or shared world does.
    pub fn replace_blocks(&mut self, list: &Vec<(BlockPos, BlockType)>)
        requires
            old(self).wf(),
        ensures
            final(self).wf(),
            final(self)@ == map_of(list@),
    {
        self.clear();
        let mut i: usize = 0;
        assert(list@.take(0) =~= Seq::<(BlockPos, BlockType)>::empty());
        while i < list.len()
            invariant
                self.wf(),
                i <= list@.len(),
                self@ == map_of(list@.take(i as int)),
            decreases list@.len() - i,
        {
            let (pos, block) = list[i];
            self.set_block(pos, block);
            assert(list@.take(i + 1).drop_last() == list@.take(i as int));
            assert(list@.take(i + 1).last() == (pos, block));
            i = i + 1;
        }
        assert(list@.take(list@.len() as int) == list@);
    }
}

} // verus!
