//! The per-tick camera systems: the bounds calculator and the camera rig.
//!
//! The bounds calculator keeps each camera's `CameraBorders` consistent
//! with its current zoom by casting two rays against the ground plane; it
//! re-runs only when the zoom axis is non-zero or on the very first tick.
//! The camera rig then translates per-frame input into a camera transform
//! update, clamped into those borders. The calculator must complete before
//! the rig reads the borders within one tick.

use vstd::prelude::*;

verus! {

use vstd::math::abs;
use crate::camera::ActiveCamera;
use crate::camera::CameraBorders;
use crate::camera::CameraEntity;
use crate::camera::ScreenDimensions;
use crate::camera::Transform;
use crate::camera::screen_ray;
use crate::camera::camera_ray_s;
use crate::config::ArenaConfig;
use crate::config::CameraConfig;
use crate::fixed::COORD_LIMIT;
use crate::fixed::DELTA_LIMIT;
use crate::fixed::FACTOR_LIMIT;
use crate::fixed::FX_ONE;
use crate::fixed::clamp64;
use crate::fixed::clamp_s;
use crate::fixed::div_floor;
use crate::fixed::fits;
use crate::fixed::fx_mul;
use crate::fixed::fx_mul_s;
use crate::fixed::lemma_div_trunc_bound;
use crate::fixed::lemma_mul_abs_bound;
use crate::fixed::abs64;
use crate::geometry::Vec3;
use crate::geometry::ground_hit;
use crate::geometry::ground_hit_x_s;
use crate::geometry::ground_hit_z_s;
use crate::geometry::hits_ground;
use crate::world::WorldBorders;

/// Lowest camera height the rig permits.
pub const HEIGHT_MIN: i64 = FX_ONE;

/// Highest camera height the rig permits.
pub const HEIGHT_MAX: i64 = 10 * FX_ONE;

/// The per-tick input snapshot: the three bound axis values (zero where
/// unbound) and the mouse cursor position in pixels, absent when the
/// cursor has left the window.
#[derive(Clone, Copy, PartialEq, Eq, Debug)]
pub struct InputState {
    pub zoom: i64,
    pub right: i64,
    pub forward: i64,
    pub mouse: Option<(i64, i64)>,
}

impl InputState {
    /// Axis values lie in `[-1, 1]`.
    pub open spec fn axes_wf(self) -> bool {
        fits(self.zoom as int, FX_ONE as int) && fits(self.right as int, FX_ONE as int) && fits(
            self.forward as int,
            FX_ONE as int,
        )
    }

    /// Axes well-formed and the mouse position, if any, inside the screen.
    pub open spec fn wf(self, screen: ScreenDimensions) -> bool {
        &&& self.axes_wf()
        &&& self.mouse matches Some(m) ==> 0 <= m.0 <= screen.width && 0 <= m.1 <= screen.height
    }
}

/// Index of the first camera entity carrying a borders component.
pub open spec fn first_bordered(cams: Seq<CameraEntity>) -> Option<int>
    decreases cams.len(),
{
    if cams.len() == 0 {
        None
    } else if cams[0].borders is Some {
        Some(0)
    } else {
        match first_bordered(cams.skip(1)) {
            None => None,
            Some(i) => Some(i + 1),
        }
    }
}

proof fn lemma_first_bordered_found(cams: Seq<CameraEntity>, k: int)
    requires
        0 <= k < cams.len(),
        cams[k].borders is Some,
        forall|j: int| 0 <= j < k ==> !((#[trigger] cams[j]).borders is Some),
    ensures
        first_bordered(cams) == Some(k),
    decreases k,
{
    if k > 0 {
        assert(!(cams[0].borders is Some));
        let tail = cams.skip(1);
        assert(forall|j: int| 0 <= j < k - 1 ==> #[trigger] tail[j] == cams[j + 1]);
        lemma_first_bordered_found(tail, k - 1);
    }
}

proof fn lemma_first_bordered_none(cams: Seq<CameraEntity>)
    requires
        forall|j: int| 0 <= j < cams.len() ==> !((#[trigger] cams[j]).borders is Some),
    ensures
        first_bordered(cams) is None,
    decreases cams.len(),
{
    if cams.len() > 0 {
        let tail = cams.skip(1);
        assert(forall|j: int| 0 <= j < tail.len() ==> #[trigger] tail[j] == cams[j + 1]);
        lemma_first_bordered_none(tail);
    }
}

/// The camera the bounds calculator updates: the designated active one if
/// it exists and carries a borders component, else the first entity that
/// does, else none.
pub open spec fn select_bordered(cams: Seq<CameraEntity>, active: Option<usize>) -> Option<int> {
    match active {
        Some(a) => if a < cams.len() && cams[a as int].borders is Some {
            Some(a as int)
        } else {
            first_bordered(cams)
        },
        None => first_bordered(cams),
    }
}

/// The camera the tile picker casts from: the designated active one if its
/// index is valid, else the first camera entity, else none.
pub open spec fn select_camera(cams: Seq<CameraEntity>, active: Option<usize>) -> Option<int> {
    match active {
        Some(a) => if a < cams.len() {
            Some(a as int)
        } else if cams.len() > 0 {
            Some(0)
        } else {
            None
        },
        None => if cams.len() > 0 {
            Some(0)
        } else {
            None
        },
    }
}

/// Executable counterpart of [`select_bordered`].
fn select_bordered_exec(cameras: &Vec<CameraEntity>, active: &ActiveCamera) -> (r: Option<usize>)
    ensures
        match r {
            None => select_bordered(cameras@, active.entity) is None,
            Some(i) => {
                &&& i < cameras@.len()
                &&& cameras@[i as int].borders is Some
                &&& select_bordered(cameras@, active.entity) == Some(i as int)
            },
        },
{
    if let Some(a) = active.entity {
        if a < cameras.len() {
            if cameras[a].borders.is_some() {
                return Some(a);
            }
        }
    }
    let mut j: usize = 0;
    while j < cameras.len()
        invariant
            j <= cameras@.len(),
            forall|k: int| 0 <= k < j ==> !((#[trigger] cameras@[k]).borders is Some),
            match active.entity {
                Some(a) => !(a < cameras@.len() && cameras@[a as int].borders is Some),
                None => true,
            },
        decreases cameras@.len() - j,
    {
        if cameras[j].borders.is_some() {
            proof {
                lemma_first_bordered_found(cameras@, j as int);
            }
            return Some(j);
        }
        j = j + 1;
    }
    proof {
        lemma_first_bordered_none(cameras@);
    }
    None
}

/// Top and bottom borders after the ray through the bottom-center screen
/// point: the forward distance is `camera.z - hit.z + tile_size` and both
/// borders move by it. A parallel ray, or a result outside the
/// representable coordinate range, leaves the axis untouched.
pub open spec fn borders_after_z(
    b: CameraBorders,
    e: CameraEntity,
    wb: WorldBorders,
    tile_size: int,
    screen: ScreenDimensions,
) -> CameraBorders {
    let ray = camera_ray_s(e, screen.width as int / 2, screen.height as int, screen);
    if !hits_ground(ray) {
        b
    } else {
        let distance = e.transform.translation.z - ground_hit_z_s(ray) + tile_size;
        let nt = wb.top + distance;
        let nb = wb.bottom + distance;
        if fits(nt, COORD_LIMIT as int) && fits(nb, COORD_LIMIT as int) {
            CameraBorders { right: b.right, left: b.left, top: nt as i64, bottom: nb as i64 }
        } else {
            b
        }
    }
}

/// Left and right borders after the ray through the bottom-left screen
/// point: the lateral distance is `|camera.x - hit.x|`, the usable range
/// shrinks by it and is widened one tile size beyond the grid edge.
pub open spec fn borders_after_x(
    b: CameraBorders,
    e: CameraEntity,
    wb: WorldBorders,
    tile_size: int,
    screen: ScreenDimensions,
) -> CameraBorders {
    let ray = camera_ray_s(e, 0, screen.height as int, screen);
    if !hits_ground(ray) {
        b
    } else {
        let distance = abs(e.transform.translation.x - ground_hit_x_s(ray)) as int;
        let nl = wb.left + distance - tile_size;
        let nr = wb.right - distance + tile_size;
        if fits(nl, COORD_LIMIT as int) && fits(nr, COORD_LIMIT as int) {
            CameraBorders { right: nr as i64, left: nl as i64, top: b.top, bottom: b.bottom }
        } else {
            b
        }
    }
}

/// The selected camera entity after one bounds recomputation.
pub open spec fn border_update(
    e: CameraEntity,
    wb: WorldBorders,
    tile_size: int,
    screen: ScreenDimensions,
) -> CameraEntity {
    let b0 = e.borders.unwrap();
    let b1 = borders_after_z(b0, e, wb, tile_size, screen);
    let b2 = borders_after_x(b1, e, wb, tile_size, screen);
    CameraEntity { camera: e.camera, transform: e.transform, borders: Some(b2), control: e.control }
}

/// The bounds calculator's whole transition for one tick: the dirty flag
/// and the camera entities after [`BorderSystem::run`].
pub open spec fn border_step(
    first_run: bool,
    cams: Seq<CameraEntity>,
    active: Option<usize>,
    wb: WorldBorders,
    tile_size: int,
    screen: ScreenDimensions,
    zoom: int,
) -> (bool, Seq<CameraEntity>) {
    if zoom == 0 && !first_run {
        (first_run, cams)
    } else {
        match select_bordered(cams, active) {
            None => (false, cams),
            Some(i) => (false, cams.update(i, border_update(cams[i], wb, tile_size, screen))),
        }
    }
}

/// Recomputes one camera's movement borders from the current zoom; runs on
/// the very first tick and then only while the zoom axis is live.
pub struct BorderSystem {
    pub first_run: bool,
}

impl Default for BorderSystem {
    /// Starts dirty, so that the borders are computed on startup.
    fn default() -> (s: Self)
        ensures
            s.first_run,
    {
        BorderSystem { first_run: true }
    }
}

impl BorderSystem {
    /// One tick of the bounds calculator. When the zoom axis is non-zero,
    /// or on the first tick, exactly the selected camera's borders are
    /// recomputed as [`border_update`] states; every other tick, and every
    /// tick without a selectable camera, changes nothing.
    pub fn run(
        &mut self,
        cameras: &mut Vec<CameraEntity>,
        active: &ActiveCamera,
        world_borders: &WorldBorders,
        arena: &ArenaConfig,
        screen: &ScreenDimensions,
        input: &InputState,
    )
        requires
            arena.wf(),
            screen.wf(),
            input.axes_wf(),
            world_borders.in_range(),
            forall|i: int| 0 <= i < old(cameras)@.len() ==> (#[trigger] old(cameras)@[i]).wf(),
        ensures
            final(cameras)@.len() == old(cameras)@.len(),
            forall|i: int| 0 <= i < final(cameras)@.len() ==> (#[trigger] final(cameras)@[i]).wf(),
            input.zoom == 0 && !old(self).first_run ==> final(cameras)@ == old(cameras)@ && *final(self)
                == *old(self),
            input.zoom != 0 || old(self).first_run ==> {
                &&& !final(self).first_run
                &&& match select_bordered(old(cameras)@, active.entity) {
                    None => final(cameras)@ == old(cameras)@,
                    Some(i) => final(cameras)@ == old(cameras)@.update(
                        i,
                        border_update(
                            old(cameras)@[i],
                            *world_borders,
                            arena.tile_size as int,
                            *screen,
                        ),
                    ),
                }
            },
            (final(self).first_run, final(cameras)@) == border_step(
                old(self).first_run,
                old(cameras)@,
                active.entity,
                *world_borders,
                arena.tile_size as int,
                *screen,
                input.zoom as int,
            ),
    {
        if input.zoom == 0 && !self.first_run {
            return;
        }
        self.first_run = false;
        let selected = select_bordered_exec(cameras, active);
        if let Some(i) = selected {
            let e = cameras[i];
            let mut b = e.borders.unwrap();
            let ghost b0 = b;

            // Bottom and top borders, from the bottom-center screen point.
            let sx = div_floor(screen.width, 2);
            proof {
                vstd::arithmetic::div_mod::lemma_div_pos_is_pos(screen.width as int, 2);
                vstd::arithmetic::div_mod::lemma_div_nonincreasing(screen.width as int, 2);
            }
            let ray_a = screen_ray(&e.camera, &e.transform, sx, screen.height, screen);
            proof {
                assert(ray_a == camera_ray_s(
                    e,
                    screen.width as int / 2,
                    screen.height as int,
                    *screen,
                ));
            }
            match ground_hit(&ray_a) {
                Some(p) => {
                    let distance = e.transform.translation.z - p.z + arena.tile_size;
                    let nt = world_borders.top + distance;
                    let nb = world_borders.bottom + distance;
                    if -COORD_LIMIT <= nt && nt <= COORD_LIMIT && -COORD_LIMIT <= nb && nb
                        <= COORD_LIMIT {
                        b = CameraBorders { right: b.right, left: b.left, top: nt, bottom: nb };
                    }
                },
                None => {},
            }
            proof {
                assert(b == borders_after_z(
                    b0,
                    e,
                    *world_borders,
                    arena.tile_size as int,
                    *screen,
                ));
            }
            let ghost b1 = b;

            // Left and right borders, from the bottom-left screen point.
            let ray_b = screen_ray(&e.camera, &e.transform, 0, screen.height, screen);
            proof {
                assert(ray_b == camera_ray_s(e, 0, screen.height as int, *screen));
            }
            match ground_hit(&ray_b) {
                Some(p) => {
                    let distance = abs64(e.transform.translation.x - p.x);
                    let nl = world_borders.left + distance - arena.tile_size;
                    let nr = world_borders.right - distance + arena.tile_size;
                    if -COORD_LIMIT <= nl && nl <= COORD_LIMIT && -COORD_LIMIT <= nr && nr
                        <= COORD_LIMIT {
                        b = CameraBorders { right: nr, left: nl, top: b.top, bottom: b.bottom };
                    }
                },
                None => {},
            }
            proof {
                assert(b == borders_after_x(
                    b1,
                    e,
                    *world_borders,
                    arena.tile_size as int,
                    *screen,
                ));
            }
            cameras[i] = CameraEntity {
                camera: e.camera,
                transform: e.transform,
                borders: Some(b),
                control: e.control,
            };
        }
    }
}

/// The lateral movement applied in one tick: the axis value times the
/// movement factor, scaled by the elapsed seconds.
pub open spec fn pan_delta_s(axis: int, factor: int, delta: int) -> int {
    fx_mul_s(fx_mul_s(axis, factor), delta)
}

/// A camera entity the rig moves: it carries the control tag and a borders
/// component.
pub open spec fn rig_qualifies(e: CameraEntity) -> bool {
    e.control is Some && e.borders is Some
}

/// One camera rig tick for a single entity. An unfocused window, or an
/// entity the rig does not move, is left untouched. Otherwise the camera
/// first zooms along its facing direction — unless already pressed against
/// a height or forward border in the zoom direction — then its height is
/// clamped into `[HEIGHT_MIN, HEIGHT_MAX]` and its lateral position is
/// moved by the strafe and pan axes and clamped into the borders.
pub open spec fn rig_step(
    e: CameraEntity,
    focused: bool,
    input: InputState,
    config: CameraConfig,
    delta: int,
) -> CameraEntity {
    if !focused || !rig_qualifies(e) {
        e
    } else {
        let b = e.borders.unwrap();
        let t = e.transform;
        let zoom = input.zoom as int;
        let blocked = (t.translation.y >= HEIGHT_MAX && zoom < 0) || (t.translation.y <= HEIGHT_MIN
            && zoom > 0) || (t.translation.z >= b.top && zoom < 0) || (t.translation.z <= b.bottom
            && zoom > 0);
        let x1 = if blocked {
            t.translation.x as int
        } else {
            t.translation.x + fx_mul_s(zoom, t.facing.x as int)
        };
        let y1 = if blocked {
            t.translation.y as int
        } else {
            t.translation.y + fx_mul_s(zoom, t.facing.y as int)
        };
        let z1 = if blocked {
            t.translation.z as int
        } else {
            t.translation.z + fx_mul_s(zoom, t.facing.z as int)
        };
        let y2 = clamp_s(y1, HEIGHT_MIN as int, HEIGHT_MAX as int);
        let x2 = clamp_s(
            x1 + pan_delta_s(input.right as int, config.movement_factor as int, delta),
            b.left as int,
            b.right as int,
        );
        let z2 = clamp_s(
            z1 + pan_delta_s(-(input.forward as int), config.movement_factor as int, delta),
            b.bottom as int,
            b.top as int,
        );
        CameraEntity {
            camera: e.camera,
            transform: Transform {
                translation: Vec3 { x: x2 as i64, y: y2 as i64, z: z2 as i64 },
                right: t.right,
                up: t.up,
                facing: t.facing,
            },
            borders: e.borders,
            control: e.control,
        }
    }
}

/// The camera rig's whole transition for one tick: every entity stepped by
/// [`rig_step`].
pub open spec fn rig_all(
    cams: Seq<CameraEntity>,
    focused: bool,
    input: InputState,
    config: CameraConfig,
    delta: int,
) -> Seq<CameraEntity> {
    cams.map(|i: int, e: CameraEntity| rig_step(e, focused, input, config, delta))
}

/// Applies per-tick input to every controlled camera transform, clamping
/// it into the current camera borders.
#[derive(Clone, Copy, Debug, Default)]
pub struct CameraSystem;

impl CameraSystem {
    /// One camera rig tick: every entity becomes exactly [`rig_step`] of
    /// its old value; in particular nothing moves while the window is
    /// unfocused.
    pub fn run(
        &self,
        cameras: &mut Vec<CameraEntity>,
        focused: bool,
        input: &InputState,
        config: &CameraConfig,
        delta: i64,
    )
        requires
            input.axes_wf(),
            config.wf(),
            0 <= delta <= DELTA_LIMIT,
            forall|i: int| 0 <= i < old(cameras)@.len() ==> (#[trigger] old(cameras)@[i]).wf(),
        ensures
            final(cameras)@.len() == old(cameras)@.len(),
            forall|i: int|
                0 <= i < final(cameras)@.len() ==> final(cameras)@[i] == rig_step(
                    #[trigger] old(cameras)@[i],
                    focused,
                    *input,
                    *config,
                    delta as int,
                ),
            forall|i: int| 0 <= i < final(cameras)@.len() ==> (#[trigger] final(cameras)@[i]).wf(),
            final(cameras)@ == rig_all(old(cameras)@, focused, *input, *config, delta as int),
    {
        let mut j: usize = 0;
        while j < cameras.len()
            invariant
                input.axes_wf(),
                config.wf(),
                0 <= delta <= DELTA_LIMIT,
                j <= cameras@.len(),
                cameras@.len() == old(cameras)@.len(),
                forall|i: int| j <= i < cameras@.len() ==> cameras@[i] == old(cameras)@[i],
                forall|i: int| 0 <= i < cameras@.len() ==> (#[trigger] old(cameras)@[i]).wf(),
                forall|i: int|
                    0 <= i < j ==> cameras@[i] == rig_step(
                        #[trigger] old(cameras)@[i],
                        focused,
                        *input,
                        *config,
                        delta as int,
                    ),
                forall|i: int| 0 <= i < j ==> (#[trigger] cameras@[i]).wf(),
            decreases cameras@.len() - j,
        {
            let e = cameras[j];
            if focused && e.control.is_some() && e.borders.is_some() {
                let b = e.borders.unwrap();
                let mut t = e.transform;
                let zoom = input.zoom;
                let blocked = (t.translation.y >= HEIGHT_MAX && zoom < 0) || (t.translation.y
                    <= HEIGHT_MIN && zoom > 0) || (t.translation.z >= b.top && zoom < 0) || (
                t.translation.z <= b.bottom && zoom > 0);
                if !blocked {
                    t.move_forward(zoom);
                }
                t.translation.y = clamp64(t.translation.y, HEIGHT_MIN, HEIGHT_MAX);
                proof {
                    lemma_mul_abs_bound(
                        input.right as int,
                        config.movement_factor as int,
                        FX_ONE as int,
                        FACTOR_LIMIT as int,
                    );
                    lemma_div_trunc_bound(
                        input.right as int * config.movement_factor as int,
                        FX_ONE as int,
                        FACTOR_LIMIT as int,
                    );
                }
                let step_x = fx_mul(input.right, config.movement_factor);
                proof {
                    lemma_mul_abs_bound(
                        step_x as int,
                        delta as int,
                        FACTOR_LIMIT as int,
                        DELTA_LIMIT as int,
                    );
                    lemma_div_trunc_bound(
                        step_x as int * delta as int,
                        FX_ONE as int,
                        COORD_LIMIT as int,
                    );
                }
                let pd_x = fx_mul(step_x, delta);
                t.translation.x = clamp64(t.translation.x + pd_x, b.left, b.right);
                let neg_forward = -input.forward;
                proof {
                    lemma_mul_abs_bound(
                        neg_forward as int,
                        config.movement_factor as int,
                        FX_ONE as int,
                        FACTOR_LIMIT as int,
                    );
                    lemma_div_trunc_bound(
                        neg_forward as int * config.movement_factor as int,
                        FX_ONE as int,
                        FACTOR_LIMIT as int,
                    );
                }
                let step_z = fx_mul(neg_forward, config.movement_factor);
                proof {
                    lemma_mul_abs_bound(
                        step_z as int,
                        delta as int,
                        FACTOR_LIMIT as int,
                        DELTA_LIMIT as int,
                    );
                    lemma_div_trunc_bound(
                        step_z as int * delta as int,
                        FX_ONE as int,
                        COORD_LIMIT as int,
                    );
                }
                let pd_z = fx_mul(step_z, delta);
                t.translation.z = clamp64(t.translation.z + pd_z, b.bottom, b.top);
                cameras[j] = CameraEntity {
                    camera: e.camera,
                    transform: t,
                    borders: e.borders,
                    control: e.control,
                };
            }
            j = j + 1;
        }
        proof {
            assert(cameras@ =~= rig_all(old(cameras)@, focused, *input, *config, delta as int));
        }
    }
}

/// After a focused rig tick, a moved camera's height lies within the
/// permitted band, whatever the borders hold.
pub proof fn lemma_rig_height_in_range(
    e: CameraEntity,
    input: InputState,
    config: CameraConfig,
    delta: int,
)
    requires
        rig_qualifies(e),
    ensures
        HEIGHT_MIN <= rig_step(e, true, input, config, delta).transform.translation.y
            <= HEIGHT_MAX,
{
}

/// After a focused rig tick against non-empty border intervals, a moved
/// camera's lateral position lies inside them: the clamps land in
/// `[left, right]` and `[bottom, top]`.
pub proof fn lemma_rig_position_in_borders(
    e: CameraEntity,
    input: InputState,
    config: CameraConfig,
    delta: int,
)
    requires
        rig_qualifies(e),
        e.borders.unwrap().ordered(),
    ensures
        ({
            let moved = rig_step(e, true, input, config, delta);
            let b = e.borders.unwrap();
            &&& b.left <= moved.transform.translation.x <= b.right
            &&& b.bottom <= moved.transform.translation.z <= b.top
        }),
{
}

} // verus!
