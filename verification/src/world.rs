//! The static world: the grid's footprint rectangle and the tile entities.
//!
//! `WorldBorders` is derived once from the arena configuration and never
//! mutated afterwards; tiles are created once at world-build time and never
//! destroyed. Each tile carries its immutable grid coordinates and two
//! material handles, plus the handle currently applied to it.

use vstd::prelude::*;

verus! {

use crate::config::ArenaConfig;
use crate::fixed::COORD_LIMIT;
use crate::fixed::FX_ONE;
use crate::fixed::TILE_LIMIT;
use crate::fixed::div_trunc;
use crate::fixed::div_trunc_s;
use crate::fixed::fits;
use crate::fixed::lemma_mul_abs_bound;
use vstd::arithmetic::div_mod::lemma_fundamental_div_mod;
use vstd::arithmetic::div_mod::lemma_fundamental_div_mod_converse;
use vstd::arithmetic::mul::lemma_mul_is_distributive_add_other_way;

/// The fixed world-space rectangle covering the tile grid's footprint,
/// in world `x` (left/right) and `z` (bottom/top).
#[derive(Clone, Copy, PartialEq, Eq, Debug)]
pub struct WorldBorders {
    pub right: i64,
    pub left: i64,
    pub bottom: i64,
    pub top: i64,
}

impl WorldBorders {
    /// All four borders are representable world coordinates.
    pub open spec fn in_range(self) -> bool {
        fits(self.left as int, COORD_LIMIT as int) && fits(self.right as int, COORD_LIMIT as int)
            && fits(self.bottom as int, COORD_LIMIT as int) && fits(
            self.top as int,
            COORD_LIMIT as int,
        )
    }

    /// Builds the footprint rectangle of a `width` by `depth` grid of
    /// `tile_size` tiles, centered at the world origin: each side spans
    /// exactly the grid extent, and whenever that extent is even in raw
    /// fixed-point units (it always is for whole-unit tile sizes) the
    /// rectangle is exactly symmetric about the origin.
    pub fn new(arena: &ArenaConfig) -> (wb: WorldBorders)
        requires
            arena.wf(),
        ensures
            wb.right - wb.left == arena.width * arena.tile_size,
            wb.top - wb.bottom == arena.depth * arena.tile_size,
            wb.left == -div_trunc_s(arena.width * arena.tile_size, 2),
            wb.bottom == -div_trunc_s(arena.depth * arena.tile_size, 2),
            (arena.width * arena.tile_size) % 2 == 0 ==> wb.left == -wb.right,
            (arena.depth * arena.tile_size) % 2 == 0 ==> wb.bottom == -wb.top,
            wb.in_range(),
    {
        proof {
            lemma_mul_abs_bound(
                arena.width as int,
                arena.tile_size as int,
                0x8000,
                TILE_LIMIT as int,
            );
            lemma_mul_abs_bound(
                arena.depth as int,
                arena.tile_size as int,
                0x8000,
                TILE_LIMIT as int,
            );
        }
        let span_x: i64 = (arena.width as i64) * arena.tile_size;
        let span_z: i64 = (arena.depth as i64) * arena.tile_size;
        let half_x: i64 = div_trunc(span_x, 2);
        let half_z: i64 = div_trunc(span_z, 2);
        proof {
            lemma_fundamental_div_mod(span_x as int, 2);
            lemma_fundamental_div_mod(span_z as int, 2);
        }
        WorldBorders {
            left: -half_x,
            right: span_x - half_x,
            bottom: -half_z,
            top: span_z - half_z,
        }
    }
}

impl Default for WorldBorders {
    /// The unit rectangle the world resource starts with before the grid
    /// is built.
    fn default() -> (wb: Self)
        ensures
            wb.right == FX_ONE,
            wb.left == -FX_ONE,
            wb.bottom == -FX_ONE,
            wb.top == FX_ONE,
    {
        WorldBorders { right: FX_ONE, left: -FX_ONE, bottom: -FX_ONE, top: FX_ONE }
    }
}

/// Immutable data of one grid tile: its integer coordinates and its two
/// material handles, the plain one and the hover highlight.
#[derive(Clone, Copy, PartialEq, Eq, Debug)]
pub struct PieceInfo {
    pub x: i16,
    pub z: i16,
    pub basic_material: u64,
    pub hover_material: u64,
}

impl PieceInfo {
    pub fn new(x: i16, z: i16, basic_material: u64, hover_material: u64) -> (p: Self)
        ensures
            p.x == x,
            p.z == z,
            p.basic_material == basic_material,
            p.hover_material == hover_material,
    {
        PieceInfo { x, z, basic_material, hover_material }
    }
}

/// One tile entity: its immutable piece data together with the material
/// handle currently applied to it.
#[derive(Clone, Copy, PartialEq, Eq, Debug)]
pub struct TileEntity {
    pub piece: PieceInfo,
    pub material: u64,
}

/// The tile at flat index `i` of a freshly built grid of the given depth:
/// rows of `depth` tiles in `x`-major order, every tile wearing its basic
/// material.
pub open spec fn grid_tile(t: TileEntity, i: int, depth: int, basic: u64, hover: u64) -> bool {
    &&& t.piece.x == i / depth
    &&& t.piece.z == i % depth
    &&& t.piece.basic_material == basic
    &&& t.piece.hover_material == hover
    &&& t.material == basic
}

/// Builds the tile entities of the grid, one per cell, in `x`-major order,
/// each starting with its basic material applied.
pub fn build_grid(arena: &ArenaConfig, basic_material: u64, hover_material: u64) -> (tiles: Vec<
    TileEntity,
>)
    requires
        arena.wf(),
    ensures
        tiles@.len() == arena.width * arena.depth,
        forall|i: int|
            0 <= i < tiles@.len() ==> grid_tile(
                #[trigger] tiles@[i],
                i,
                arena.depth as int,
                basic_material,
                hover_material,
            ),
{
    let width = arena.width;
    let depth = arena.depth;
    let mut tiles: Vec<TileEntity> = Vec::new();
    let mut x: i16 = 0;
    while x < width
        invariant
            0 < depth,
            0 < width,
            0 <= x <= width,
            tiles@.len() == x * depth,
            forall|i: int|
                0 <= i < tiles@.len() ==> grid_tile(
                    #[trigger] tiles@[i],
                    i,
                    depth as int,
                    basic_material,
                    hover_material,
                ),
        decreases width - x,
    {
        let mut z: i16 = 0;
        while z < depth
            invariant
                0 < depth,
                0 <= x < width,
                0 <= z <= depth,
                tiles@.len() == x * depth + z,
                forall|i: int|
                    0 <= i < tiles@.len() ==> grid_tile(
                        #[trigger] tiles@[i],
                        i,
                        depth as int,
                        basic_material,
                        hover_material,
                    ),
            decreases depth - z,
        {
            proof {
                lemma_mul_abs_bound(x as int, depth as int, 0x8000, 0x8000);
                lemma_fundamental_div_mod_converse(
                    x as int * depth as int + z as int,
                    depth as int,
                    x as int,
                    z as int,
                );
            }
            let piece = PieceInfo::new(x, z, basic_material, hover_material);
            tiles.push(TileEntity { piece, material: basic_material });
            z = z + 1;
        }
        proof {
            lemma_mul_is_distributive_add_other_way(depth as int, x as int, 1);
        }
        x = x + 1;
    }
    tiles
}

/// Distinct flat indices of a freshly built grid carry distinct grid
/// coordinates: a tile is unique within `[0, width) x [0, depth)`.
pub proof fn lemma_grid_coords_unique(
    tiles: Seq<TileEntity>,
    depth: int,
    basic: u64,
    hover: u64,
    i: int,
    j: int,
)
    requires
        0 < depth,
        0 <= i < tiles.len(),
        0 <= j < tiles.len(),
        i != j,
        grid_tile(tiles[i], i, depth, basic, hover),
        grid_tile(tiles[j], j, depth, basic, hover),
    ensures
        tiles[i].piece.x != tiles[j].piece.x || tiles[i].piece.z != tiles[j].piece.z,
{
    if tiles[i].piece.x == tiles[j].piece.x && tiles[i].piece.z == tiles[j].piece.z {
        lemma_fundamental_div_mod(i, depth);
        lemma_fundamental_div_mod(j, depth);
        assert(i == depth * (i / depth) + i % depth);
        assert(j == depth * (j / depth) + j % depth);
        assert(false);
    }
}

} // verus!
