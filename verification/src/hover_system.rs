//! The tile picker: resolves the mouse cursor to the grid tile under it
//! and keeps the hover highlight on exactly that tile.
//!
//! A state machine with two states: idle (no tile highlighted) and
//! hovering one tile. Per tick it casts a ray from the selected camera
//! through the mouse position onto the ground plane; a hit strictly inside
//! the world borders selects a tile by flooring the hit coordinates over
//! the tile size, while a miss or a hit outside the borders restores the
//! previous highlight and goes idle. An absent mouse position preserves
//! the state untouched.

use vstd::prelude::*;

verus! {

use crate::camera::ActiveCamera;
use crate::camera::CameraEntity;
use crate::camera::ScreenDimensions;
use crate::camera::camera_ray_s;
use crate::camera::screen_ray;
use crate::config::ArenaConfig;
use crate::fixed::abs64;
use crate::fixed::div_floor;
use crate::geometry::ground_hit;
use crate::geometry::ground_hit_x_s;
use crate::geometry::ground_hit_z_s;
use crate::geometry::hits_ground;
use crate::systems::InputState;
use crate::systems::select_camera;
use crate::world::TileEntity;
use crate::world::WorldBorders;
use vstd::math::abs;

/// A tile restored to its basic material.
pub open spec fn restored(t: TileEntity) -> TileEntity {
    TileEntity { piece: t.piece, material: t.piece.basic_material }
}

/// A tile wearing its hover material.
pub open spec fn highlighted(t: TileEntity) -> TileEntity {
    TileEntity { piece: t.piece, material: t.piece.hover_material }
}

/// State and tiles after the cursor leaves the valid grid area: the
/// hovered tile, if any, is restored to its basic material exactly once,
/// and the picker reports idle.
pub open spec fn leave_grid(cur: Option<int>, tiles: Seq<TileEntity>) -> (Option<
    int,
>, Seq<TileEntity>) {
    match cur {
        Some(k) => (None, tiles.update(k, restored(tiles[k]))),
        None => (None, tiles),
    }
}

/// Index of the first tile whose grid coordinates equal `(ix, iz)`;
/// indices outside the grid match no tile.
pub open spec fn find_tile(tiles: Seq<TileEntity>, ix: int, iz: int) -> Option<int>
    decreases tiles.len(),
{
    if tiles.len() == 0 {
        None
    } else if tiles[0].piece.x == ix && tiles[0].piece.z == iz {
        Some(0)
    } else {
        match find_tile(tiles.skip(1), ix, iz) {
            None => None,
            Some(i) => Some(i + 1),
        }
    }
}

proof fn lemma_find_tile_found(tiles: Seq<TileEntity>, ix: int, iz: int, k: int)
    requires
        0 <= k < tiles.len(),
        tiles[k].piece.x == ix && tiles[k].piece.z == iz,
        forall|j: int|
            0 <= j < k ==> !((#[trigger] tiles[j]).piece.x == ix && tiles[j].piece.z == iz),
    ensures
        find_tile(tiles, ix, iz) == Some(k),
    decreases k,
{
    if k > 0 {
        let tail = tiles.skip(1);
        assert(forall|j: int| 0 <= j < k - 1 ==> #[trigger] tail[j] == tiles[j + 1]);
        lemma_find_tile_found(tail, ix, iz, k - 1);
    }
}

proof fn lemma_find_tile_none(tiles: Seq<TileEntity>, ix: int, iz: int)
    requires
        forall|j: int|
            0 <= j < tiles.len() ==> !((#[trigger] tiles[j]).piece.x == ix && tiles[j].piece.z
                == iz),
    ensures
        find_tile(tiles, ix, iz) is None,
    decreases tiles.len(),
{
    if tiles.len() > 0 {
        let tail = tiles.skip(1);
        assert(forall|j: int| 0 <= j < tail.len() ==> #[trigger] tail[j] == tiles[j + 1]);
        lemma_find_tile_none(tail, ix, iz);
    }
}

/// A found tile index is in range and carries the searched coordinates.
proof fn lemma_find_tile_props(tiles: Seq<TileEntity>, ix: int, iz: int)
    ensures
        match find_tile(tiles, ix, iz) {
            Some(j) => 0 <= j < tiles.len() && tiles[j].piece.x == ix && tiles[j].piece.z == iz,
            None => true,
        },
    decreases tiles.len(),
{
    if tiles.len() > 0 && !(tiles[0].piece.x == ix && tiles[0].piece.z == iz) {
        let tail = tiles.skip(1);
        assert(forall|i: int| 0 <= i < tail.len() ==> #[trigger] tail[i] == tiles[i + 1]);
        lemma_find_tile_props(tail, ix, iz);
    }
}

/// Which tile a sequence holds at an index depends only on the pieces, so
/// material changes never move the found tile.
proof fn lemma_find_tile_same_pieces(a: Seq<TileEntity>, b: Seq<TileEntity>, ix: int, iz: int)
    requires
        a.len() == b.len(),
        forall|i: int| 0 <= i < a.len() ==> (#[trigger] a[i]).piece == b[i].piece,
    ensures
        find_tile(a, ix, iz) == find_tile(b, ix, iz),
    decreases a.len(),
{
    if a.len() > 0 {
        let ta = a.skip(1);
        let tb = b.skip(1);
        assert(forall|i: int| 0 <= i < ta.len() ==> #[trigger] ta[i] == a[i + 1]);
        assert(forall|i: int| 0 <= i < tb.len() ==> #[trigger] tb[i] == b[i + 1]);
        lemma_find_tile_same_pieces(ta, tb, ix, iz);
    }
}

/// The grid index of a ground-plane hit coordinate: the coordinate shifted
/// by the magnitude of the lower border, floored over the tile size.
pub open spec fn tile_index_s(coord: int, border: int, tile_size: int) -> int
    recommends
        tile_size > 0,
{
    (coord + abs(border)) / tile_size
}

/// The picker's state transition for one tick, given the snapshot the
/// frame driver supplies; yields the new hover state and tile sequence.
pub open spec fn hover_step(
    cur: Option<int>,
    tiles: Seq<TileEntity>,
    cams: Seq<CameraEntity>,
    active: Option<usize>,
    input: InputState,
    screen: ScreenDimensions,
    arena: ArenaConfig,
    wb: WorldBorders,
) -> (Option<int>, Seq<TileEntity>) {
    match input.mouse {
        None => (cur, tiles),
        Some(m) => match select_camera(cams, active) {
            None => (cur, tiles),
            Some(ci) => {
                let ray = camera_ray_s(cams[ci], m.0 as int, m.1 as int, screen);
                if !hits_ground(ray) {
                    leave_grid(cur, tiles)
                } else {
                    let px = ground_hit_x_s(ray);
                    let pz = ground_hit_z_s(ray);
                    if wb.left < px < wb.right && wb.bottom < pz < wb.top {
                        let ix = tile_index_s(px, wb.left as int, arena.tile_size as int);
                        let iz = tile_index_s(pz, wb.bottom as int, arena.tile_size as int);
                        match find_tile(tiles, ix, iz) {
                            None => (cur, tiles),
                            Some(j) => if cur == Some(j) {
                                (cur, tiles)
                            } else {
                                let cleared = match cur {
                                    Some(k) => tiles.update(k, restored(tiles[k])),
                                    None => tiles,
                                };
                                (Some(j), cleared.update(j, highlighted(cleared[j])))
                            },
                        }
                    } else {
                        leave_grid(cur, tiles)
                    }
                }
            },
        },
    }
}

/// The hover state as the specification sees it.
pub open spec fn cur_int(c: Option<usize>) -> Option<int> {
    match c {
        Some(k) => Some(k as int),
        None => None,
    }
}

/// Executable counterpart of [`select_camera`].
fn select_camera_exec(cameras: &Vec<CameraEntity>, active: &ActiveCamera) -> (r: Option<usize>)
    ensures
        match r {
            None => select_camera(cameras@, active.entity) is None,
            Some(i) => i < cameras@.len() && select_camera(cameras@, active.entity) == Some(
                i as int,
            ),
        },
{
    if let Some(a) = active.entity {
        if a < cameras.len() {
            return Some(a);
        }
    }
    if cameras.len() > 0 {
        Some(0)
    } else {
        None
    }
}

/// Executable counterpart of [`find_tile`]: scans the tiles for the first
/// one at the computed grid coordinates, as the entity join does.
fn find_tile_exec(tiles: &Vec<TileEntity>, ix: i64, iz: i64) -> (r: Option<usize>)
    ensures
        match r {
            None => find_tile(tiles@, ix as int, iz as int) is None,
            Some(j) => j < tiles@.len() && find_tile(tiles@, ix as int, iz as int) == Some(
                j as int,
            ),
        },
{
    let mut j: usize = 0;
    while j < tiles.len()
        invariant
            j <= tiles@.len(),
            forall|k: int|
                0 <= k < j ==> !((#[trigger] tiles@[k]).piece.x == ix && tiles@[k].piece.z == iz),
        decreases tiles@.len() - j,
    {
        let t = tiles[j];
        if t.piece.x as i64 == ix && t.piece.z as i64 == iz {
            proof {
                lemma_find_tile_found(tiles@, ix as int, iz as int, j as int);
            }
            return Some(j);
        }
        j = j + 1;
    }
    proof {
        lemma_find_tile_none(tiles@, ix as int, iz as int);
    }
    None
}

/// Swaps the hover material onto the tile under the cursor, restoring the
/// previously hovered tile.
pub struct HoverSystem {
    pub current_hover: Option<usize>,
}

impl Default for HoverSystem {
    /// Starts idle.
    fn default() -> (s: Self)
        ensures
            s.current_hover is None,
    {
        HoverSystem { current_hover: None }
    }
}

impl HoverSystem {
    /// The held index, if any, points into the tile sequence.
    pub open spec fn wf(self, tiles: Seq<TileEntity>) -> bool {
        self.current_hover matches Some(k) ==> (k as int) < tiles.len()
    }

    /// Restores the hovered tile, if any, and goes idle.
    fn clear_hover(&mut self, tiles: &mut Vec<TileEntity>)
        requires
            old(self).wf(old(tiles)@),
        ensures
            (cur_int(final(self).current_hover), final(tiles)@) == leave_grid(
                cur_int(old(self).current_hover),
                old(tiles)@,
            ),
    {
        if let Some(k) = self.current_hover {
            let t = tiles[k];
            tiles[k] = TileEntity { piece: t.piece, material: t.piece.basic_material };
        }
        self.current_hover = None;
    }

    /// One tick of the tile picker: the hover state and the tile materials
    /// become exactly what [`hover_step`] states for the supplied
    /// snapshot. A ray that misses the ground plane is absorbed as
    /// "outside the borders" rather than aborting the tick.
    pub fn run(
        &mut self,
        tiles: &mut Vec<TileEntity>,
        cameras: &Vec<CameraEntity>,
        active: &ActiveCamera,
        input: &InputState,
        screen: &ScreenDimensions,
        arena: &ArenaConfig,
        world_borders: &WorldBorders,
    )
        requires
            arena.wf(),
            screen.wf(),
            input.wf(*screen),
            world_borders.in_range(),
            forall|i: int| 0 <= i < cameras@.len() ==> (#[trigger] cameras@[i]).wf(),
            old(self).wf(old(tiles)@),
        ensures
            (cur_int(final(self).current_hover), final(tiles)@) == hover_step(
                cur_int(old(self).current_hover),
                old(tiles)@,
                cameras@,
                active.entity,
                *input,
                *screen,
                *arena,
                *world_borders,
            ),
            final(tiles)@.len() == old(tiles)@.len(),
            final(self).wf(final(tiles)@),
    {
        let mouse = input.mouse;
        if let Some(m) = mouse {
            let selected = select_camera_exec(cameras, active);
            if let Some(ci) = selected {
                let e = cameras[ci];
                let ray = screen_ray(&e.camera, &e.transform, m.0, m.1, screen);
                proof {
                    assert(ray == camera_ray_s(e, m.0 as int, m.1 as int, *screen));
                }
                match ground_hit(&ray) {
                    Some(p) => {
                        if world_borders.left < p.x && p.x < world_borders.right
                            && world_borders.bottom < p.z && p.z < world_borders.top {
                            let ax = abs64(world_borders.left);
                            let az = abs64(world_borders.bottom);
                            let ix = div_floor(p.x + ax, arena.tile_size);
                            let iz = div_floor(p.z + az, arena.tile_size);
                            match find_tile_exec(tiles, ix, iz) {
                                Some(j) => {
                                    let same = match self.current_hover {
                                        Some(k) => k == j,
                                        None => false,
                                    };
                                    if !same {
                                        if let Some(k) = self.current_hover {
                                            let t = tiles[k];
                                            tiles[k] = TileEntity {
                                                piece: t.piece,
                                                material: t.piece.basic_material,
                                            };
                                        }
                                        let t = tiles[j];
                                        tiles[j] = TileEntity {
                                            piece: t.piece,
                                            material: t.piece.hover_material,
                                        };
                                        self.current_hover = Some(j);
                                    }
                                },
                                None => {},
                            }
                        } else {
                            self.clear_hover(tiles);
                        }
                    },
                    None => {
                        self.clear_hover(tiles);
                    },
                }
            }
        }
    }
}

/// At most one tile wears its hover material: the hovered one when the
/// picker reports hovering, and none at all when it reports idle — every
/// other tile wears its basic material.
pub open spec fn hover_inv(cur: Option<int>, tiles: Seq<TileEntity>) -> bool {
    &&& cur matches Some(k) ==> 0 <= k < tiles.len() && tiles[k].material
        == tiles[k].piece.hover_material
    &&& forall|i: int|
        0 <= i < tiles.len() && cur != Some(i) ==> (#[trigger] tiles[i]).material
            == tiles[i].piece.basic_material
}

/// One picker tick preserves the hover invariant: whatever the snapshot,
/// afterwards exactly the reported tile (if any) wears the hover material.
pub proof fn lemma_hover_step_preserves_inv(
    cur: Option<int>,
    tiles: Seq<TileEntity>,
    cams: Seq<CameraEntity>,
    active: Option<usize>,
    input: InputState,
    screen: ScreenDimensions,
    arena: ArenaConfig,
    wb: WorldBorders,
)
    requires
        hover_inv(cur, tiles),
    ensures
        ({
            let (c2, t2) = hover_step(cur, tiles, cams, active, input, screen, arena, wb);
            hover_inv(c2, t2) && t2.len() == tiles.len()
        }),
{
    let (c2, t2) = hover_step(cur, tiles, cams, active, input, screen, arena, wb);
    assert(hover_inv(c2, t2) && t2.len() == tiles.len()) by {
        match (input.mouse, select_camera(cams, active)) {
            (Some(m), Some(ci)) => {
                let ray = camera_ray_s(cams[ci], m.0 as int, m.1 as int, screen);
                if hits_ground(ray) {
                    let px = ground_hit_x_s(ray);
                    let pz = ground_hit_z_s(ray);
                    if wb.left < px < wb.right && wb.bottom < pz < wb.top {
                        let ix = tile_index_s(px, wb.left as int, arena.tile_size as int);
                        let iz = tile_index_s(pz, wb.bottom as int, arena.tile_size as int);
                        lemma_find_tile_props(tiles, ix, iz);
                        match find_tile(tiles, ix, iz) {
                            Some(j) => if cur != Some(j) {
                                let cleared = match cur {
                                    Some(k) => tiles.update(k, restored(tiles[k])),
                                    None => tiles,
                                };
                                assert(forall|i: int|
                                    0 <= i < cleared.len() && i != j ==> (
                                    #[trigger] cleared[i]).material
                                        == cleared[i].piece.basic_material);
                                assert(t2 == cleared.update(j, highlighted(cleared[j])));
                                assert(t2[j].material == t2[j].piece.hover_material);
                                assert(forall|i: int|
                                    0 <= i < t2.len() && i != j ==> (#[trigger] t2[i]).material
                                        == t2[i].piece.basic_material);
                            },
                            None => {},
                        }
                    }
                }
            },
            _ => {},
        }
    }
}

/// The picker is idempotent: a second tick on an unchanged snapshot keeps
/// the hover state and performs no further material change.
pub proof fn lemma_hover_step_idempotent(
    cur: Option<int>,
    tiles: Seq<TileEntity>,
    cams: Seq<CameraEntity>,
    active: Option<usize>,
    input: InputState,
    screen: ScreenDimensions,
    arena: ArenaConfig,
    wb: WorldBorders,
)
    requires
        cur matches Some(k) ==> 0 <= k < tiles.len(),
    ensures
        ({
            let (c1, t1) = hover_step(cur, tiles, cams, active, input, screen, arena, wb);
            hover_step(c1, t1, cams, active, input, screen, arena, wb) == (c1, t1)
        }),
{
    let (c1, t1) = hover_step(cur, tiles, cams, active, input, screen, arena, wb);
    match (input.mouse, select_camera(cams, active)) {
        (Some(m), Some(ci)) => {
            let ray = camera_ray_s(cams[ci], m.0 as int, m.1 as int, screen);
            if hits_ground(ray) {
                let px = ground_hit_x_s(ray);
                let pz = ground_hit_z_s(ray);
                if wb.left < px < wb.right && wb.bottom < pz < wb.top {
                    let ix = tile_index_s(px, wb.left as int, arena.tile_size as int);
                    let iz = tile_index_s(pz, wb.bottom as int, arena.tile_size as int);
                    lemma_find_tile_props(tiles, ix, iz);
                    match find_tile(tiles, ix, iz) {
                        Some(j) => {
                            if cur == Some(j) {
                                assert(c1 == cur && t1 == tiles);
                            } else {
                                let cleared = match cur {
                                    Some(k) => tiles.update(k, restored(tiles[k])),
                                    None => tiles,
                                };
                                assert(c1 == Some(j));
                                assert(t1 == cleared.update(j, highlighted(cleared[j])));
                                assert(forall|i: int|
                                    0 <= i < t1.len() ==> (#[trigger] t1[i]).piece
                                        == tiles[i].piece);
                            }
                            lemma_find_tile_same_pieces(t1, tiles, ix, iz);
                            assert(find_tile(t1, ix, iz) == Some(j));
                            assert(hover_step(c1, t1, cams, active, input, screen, arena, wb) == (
                            c1,
                            t1,
                            ));
                        },
                        None => {
                            assert((c1, t1) == (cur, tiles));
                        },
                    }
                } else {
                    assert(c1 is None);
                }
            } else {
                assert(c1 is None);
            }
        },
        _ => {},
    }
}

/// Leaving the grid always restores every tile to its basic material and
/// reports idle, while the pieces themselves are untouched.
pub proof fn lemma_leave_grid_restores(cur: Option<int>, tiles: Seq<TileEntity>)
    requires
        hover_inv(cur, tiles),
    ensures
        ({
            let (c2, t2) = leave_grid(cur, tiles);
            &&& c2 is None
            &&& t2.len() == tiles.len()
            &&& forall|i: int|
                0 <= i < t2.len() ==> (#[trigger] t2[i]).material == t2[i].piece.basic_material
            &&& forall|i: int| 0 <= i < t2.len() ==> (#[trigger] t2[i]).piece == tiles[i].piece
        }),
{
}

} // verus!
