//! The terrain the browser client starts with: a grass field with two
//! grass-topped dirt hills. Only the blocks are built here; decorations that
//! are drawn but not part of the world stay with the renderer.
use vstd::prelude::*;
use crate::world::{box_volume, extent, filled, BlockPos, BlockType, VoxelWorld};

verus! {

/// The blocks of the starting terrain, put onto `m` in order.
pub open spec fn spec_basic_terrain(m: Map<BlockPos, BlockType>) -> Map<BlockPos, BlockType> {
    let ground = filled(m, (-15i32, 0i32, -15i32), (15i32, 0i32, 15i32), BlockType::Grass);
    let hill1 = filled(ground, (-10i32, 1i32, -10i32), (-5i32, 2i32, -5i32), BlockType::Dirt);
    let hill1_grass = filled(hill1, (-10i32, 0i32, -10i32), (-5i32, 0i32, -5i32), BlockType::Grass);
    let hill2 = filled(hill1_grass, (5i32, 1i32, 5i32), (10i32, 3i32, 10i32), BlockType::Dirt);
    filled(hill2, (5i32, 4i32, 5i32), (10i32, 4i32, 10i32), BlockType::Grass)
}

proof fn lemma_small_box(a: BlockPos, b: BlockPos)
    requires
        extent(a.0, b.0) <= 31,
        extent(a.1, b.1) <= 31,
        extent(a.2, b.2) <= 31,
    ensures
        box_volume(a, b) <= i32::MAX,
{
    let (x, y, z) = (extent(a.0, b.0), extent(a.1, b.1), extent(a.2, b.2));
    assert(x * y * z <= 31 * 31 * 31) by (nonlinear_arith)
        requires
            x <= 31,
            y <= 31,
            z <= 31,
    ;
}

/// Build the starting terrain: a 31 x 31 grass field at height 0; a dirt
/// hill two blocks high over x and z from -10 to -5 (whose grass is set at
/// height 0); and a dirt hill three blocks high over x and z from 5 to 10
/// with grass on top at height 4.
pub fn build_basic_terrain(world: &mut VoxelWorld)
    requires
        old(world).wf(),
    ensures
        final(world).wf(),
        final(world)@ == spec_basic_terrain(old(world)@),
{
    proof {
        lemma_small_box((-15i32, 0i32, -15i32), (15i32, 0i32, 15i32));
        lemma_small_box((-10i32, 1i32, -10i32), (-5i32, 2i32, -5i32));
        lemma_small_box((-10i32, 0i32, -10i32), (-5i32, 0i32, -5i32));
        lemma_small_box((5i32, 1i32, 5i32), (10i32, 3i32, 10i32));
        lemma_small_box((5i32, 4i32, 5i32), (10i32, 4i32, 10i32));
    }
    world.fill_box((-15, 0, -15), (15, 0, 15), BlockType::Grass);
    world.fill_box((-10, 1, -10), (-5, 2, -5), BlockType::Dirt);
    world.fill_box((-10, 0, -10), (-5, 0, -5), BlockType::Grass);
    world.fill_box((5, 1, 5), (10, 3, 10), BlockType::Dirt);
    world.fill_box((5, 4, 5), (10, 4, 10), BlockType::Grass);
}

/// Set up the scene once: the first call builds the terrain and sets the
/// guard; later calls change nothing. Gives whether the terrain was built.
pub fn setup_basic_scene_once(world: &mut VoxelWorld, setup_done: &mut bool) -> (built: bool)
    requires
        old(world).wf(),
    ensures
        final(world).wf(),
        built == !*old(setup_done),
        *final(setup_done),
        final(world)@ == if built {
            spec_basic_terrain(old(world)@)
        } else {
            old(world)@
        },
{
    if *setup_done {
        return false;
    }
    *setup_done = true;
    build_basic_terrain(world);
    true
}

} // verus!
