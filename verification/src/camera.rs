//! Camera entities: transform, projection, movement borders and the screen
//! ray they cast.
//!
//! A camera's transform holds its translation together with the three basis
//! vectors of its orientation; a camera's projection is reduced to the two
//! frustum half-extents at unit distance (the tangents of half the fields
//! of view), which is exactly what casting a ray through a screen point
//! reads. Screen coordinates grow rightward and downward, as window systems
//! report them.

use vstd::prelude::*;

verus! {

use vstd::math::abs;
use crate::fixed::COORD_LIMIT;
use crate::fixed::DIR_LIMIT;
use crate::fixed::FX_ONE;
use crate::fixed::SCREEN_LIMIT;
use crate::fixed::TAN_LIMIT;
use crate::fixed::div_trunc;
use crate::fixed::div_trunc_s;
use crate::fixed::fits;
use crate::fixed::fx_mul;
use crate::fixed::fx_mul_s;
use crate::fixed::lemma_div_trunc_bound;
use crate::fixed::lemma_mul_abs_bound;
use crate::geometry::Ray;
use crate::geometry::TiltAngle;
use crate::geometry::Vec3;

/// Marker for the camera entity the rig is allowed to move.
#[derive(Clone, Copy, PartialEq, Eq, Debug, Default)]
pub struct CameraControlTag;

/// The rectangle, in world-space `x`/`z`, that clamps camera panning; it is
/// recomputed from the current zoom by the bounds calculator and read by
/// the camera rig. Before the first recomputation it is all zero.
#[derive(Clone, Copy, PartialEq, Eq, Debug)]
pub struct CameraBorders {
    pub right: i64,
    pub left: i64,
    pub top: i64,
    pub bottom: i64,
}

impl CameraBorders {
    /// All four borders are representable world coordinates.
    pub open spec fn in_range(self) -> bool {
        fits(self.left as int, COORD_LIMIT as int) && fits(self.right as int, COORD_LIMIT as int)
            && fits(self.bottom as int, COORD_LIMIT as int) && fits(
            self.top as int,
            COORD_LIMIT as int,
        )
    }

    /// Both intervals are non-empty. Not an invariant: a camera high above
    /// a small grid can legitimately produce an inverted interval, which
    /// clamping then collapses to its upper end.
    pub open spec fn ordered(self) -> bool {
        self.left <= self.right && self.bottom <= self.top
    }
}

impl Default for CameraBorders {
    /// The all-zero rectangle cameras start with; it is useless until the
    /// bounds calculator runs, which the first tick forces.
    fn default() -> (b: Self)
        ensures
            b.left == 0 && b.right == 0 && b.top == 0 && b.bottom == 0,
    {
        CameraBorders { right: 0, left: 0, top: 0, bottom: 0 }
    }
}

/// Perspective projection data: the frustum half-extents at unit distance
/// along the view axis, i.e. `tan_x = tan(fov_x / 2)` and
/// `tan_y = tan(fov_y / 2)` in fixed point.
#[derive(Clone, Copy, PartialEq, Eq, Debug)]
pub struct Camera {
    pub tan_x: i64,
    pub tan_y: i64,
}

impl Camera {
    pub open spec fn wf(self) -> bool {
        0 < self.tan_x <= TAN_LIMIT && 0 < self.tan_y <= TAN_LIMIT
    }
}

/// Position and orientation of a camera. The orientation is held as the
/// three basis vectors of camera space: `right` and `up` span the image
/// plane and `facing` is the view direction.
#[derive(Clone, Copy, PartialEq, Eq, Debug)]
pub struct Transform {
    pub translation: Vec3,
    pub right: Vec3,
    pub up: Vec3,
    pub facing: Vec3,
}

impl Transform {
    /// Basis components fit one fixed-point unit.
    pub open spec fn basis_wf(self) -> bool {
        self.right.in_range(FX_ONE as int) && self.up.in_range(FX_ONE as int)
            && self.facing.in_range(FX_ONE as int)
    }

    pub open spec fn wf(self) -> bool {
        self.basis_wf() && self.translation.in_range(COORD_LIMIT as int)
    }

    /// A transform at `(x, y, z)` rotated about the `x` axis by a downward
    /// tilt: `right` stays the world `x` axis, while `up` and `facing` are
    /// the rotated `y` and `-z` axes.
    pub fn tilted(tilt: &TiltAngle, x: i64, y: i64, z: i64) -> (t: Transform)
        requires
            tilt.wf(),
            fits(x as int, COORD_LIMIT as int),
            fits(y as int, COORD_LIMIT as int),
            fits(z as int, COORD_LIMIT as int),
        ensures
            t.translation == (Vec3 { x, y, z }),
            t.right == (Vec3 { x: FX_ONE, y: 0, z: 0 }),
            t.up == (Vec3 { x: 0, y: tilt.cos, z: tilt.sin }),
            t.facing.x == 0 && t.facing.y == tilt.sin && t.facing.z == -tilt.cos,
            t.wf(),
    {
        Transform {
            translation: Vec3 { x, y, z },
            right: Vec3 { x: FX_ONE, y: 0, z: 0 },
            up: Vec3 { x: 0, y: tilt.cos, z: tilt.sin },
            facing: Vec3 { x: 0, y: tilt.sin, z: -tilt.cos },
        }
    }

    /// Moves the translation along the facing direction by `amount` units;
    /// the basis is untouched. The translation may leave the coordinate
    /// range by at most one unit, which callers re-establish by clamping.
    pub fn move_forward(&mut self, amount: i64)
        requires
            old(self).basis_wf(),
            old(self).translation.in_range(COORD_LIMIT as int),
            fits(amount as int, FX_ONE as int),
        ensures
            final(self).translation.x == old(self).translation.x + fx_mul_s(
                amount as int,
                old(self).facing.x as int,
            ),
            final(self).translation.y == old(self).translation.y + fx_mul_s(
                amount as int,
                old(self).facing.y as int,
            ),
            final(self).translation.z == old(self).translation.z + fx_mul_s(
                amount as int,
                old(self).facing.z as int,
            ),
            final(self).right == old(self).right,
            final(self).up == old(self).up,
            final(self).facing == old(self).facing,
            final(self).translation.in_range(COORD_LIMIT + FX_ONE),
    {
        proof {
            lemma_mul_abs_bound(
                amount as int,
                old(self).facing.x as int,
                FX_ONE as int,
                FX_ONE as int,
            );
            lemma_mul_abs_bound(
                amount as int,
                old(self).facing.y as int,
                FX_ONE as int,
                FX_ONE as int,
            );
            lemma_mul_abs_bound(
                amount as int,
                old(self).facing.z as int,
                FX_ONE as int,
                FX_ONE as int,
            );
            lemma_div_trunc_bound(
                amount as int * old(self).facing.x as int,
                FX_ONE as int,
                FX_ONE as int,
            );
            lemma_div_trunc_bound(
                amount as int * old(self).facing.y as int,
                FX_ONE as int,
                FX_ONE as int,
            );
            lemma_div_trunc_bound(
                amount as int * old(self).facing.z as int,
                FX_ONE as int,
                FX_ONE as int,
            );
        }
        let dx = fx_mul(amount, self.facing.x);
        let dy = fx_mul(amount, self.facing.y);
        let dz = fx_mul(amount, self.facing.z);
        self.translation.x = self.translation.x + dx;
        self.translation.y = self.translation.y + dy;
        self.translation.z = self.translation.z + dz;
    }
}

/// Per-tick window size in pixels.
#[derive(Clone, Copy, PartialEq, Eq, Debug)]
pub struct ScreenDimensions {
    pub width: i64,
    pub height: i64,
}

impl ScreenDimensions {
    pub open spec fn wf(self) -> bool {
        0 < self.width <= SCREEN_LIMIT && 0 < self.height <= SCREEN_LIMIT
    }
}

/// A camera entity: projection and transform are always present, while the
/// borders component and the control tag may be absent, mirroring separate
/// component storages.
#[derive(Clone, Copy, PartialEq, Eq, Debug)]
pub struct CameraEntity {
    pub camera: Camera,
    pub transform: Transform,
    pub borders: Option<CameraBorders>,
    pub control: Option<CameraControlTag>,
}

impl CameraEntity {
    pub open spec fn wf(self) -> bool {
        &&& self.camera.wf()
        &&& self.transform.wf()
        &&& self.borders matches Some(b) ==> b.in_range()
    }
}

/// The designated primary camera, as an index into the camera entities; it
/// may be absent or dangling, in which case consumers fall back to the
/// first suitable entity.
#[derive(Clone, Copy, PartialEq, Eq, Debug)]
pub struct ActiveCamera {
    pub entity: Option<usize>,
}

impl Default for ActiveCamera {
    fn default() -> (a: Self)
        ensures
            a.entity is None,
    {
        ActiveCamera { entity: None }
    }
}

/// Normalized device `x` of a screen point: `(2 * sx - w) / w` scaled to
/// fixed point, `-FX_ONE` at the left edge and `FX_ONE` at the right.
pub open spec fn ndc_x_s(sx: int, w: int) -> int
    recommends
        0 < w,
{
    div_trunc_s((2 * sx - w) * FX_ONE, w)
}

/// Normalized device `y` of a screen point: `(h - 2 * sy) / h` scaled to
/// fixed point, `FX_ONE` at the top edge and `-FX_ONE` at the bottom.
pub open spec fn ndc_y_s(sy: int, h: int) -> int
    recommends
        0 < h,
{
    div_trunc_s((h - 2 * sy) * FX_ONE, h)
}

/// Camera-space image-plane offset along `right` for a screen `x`.
pub open spec fn frustum_x_s(cam: Camera, sx: int, w: int) -> int {
    fx_mul_s(ndc_x_s(sx, w), cam.tan_x as int)
}

/// Camera-space image-plane offset along `up` for a screen `y`.
pub open spec fn frustum_y_s(cam: Camera, sy: int, h: int) -> int {
    fx_mul_s(ndc_y_s(sy, h), cam.tan_y as int)
}

/// One world component of a screen-ray direction: the image-plane offsets
/// applied to the matching components of the basis, plus the facing
/// component (the ray passes the image plane at unit distance).
pub open spec fn dir_component_s(cx: int, cy: int, r: int, u: int, f: int) -> int {
    fx_mul_s(cx, r) + fx_mul_s(cy, u) + f
}

/// The world-space direction of the ray from `t` through screen point
/// `(sx, sy)` of a `w` by `h` screen, as `(x, y, z)`.
pub open spec fn screen_ray_dir_s(
    cam: Camera,
    t: Transform,
    sx: int,
    sy: int,
    w: int,
    h: int,
) -> (int, int, int) {
    let cx = frustum_x_s(cam, sx, w);
    let cy = frustum_y_s(cam, sy, h);
    (
        dir_component_s(cx, cy, t.right.x as int, t.up.x as int, t.facing.x as int),
        dir_component_s(cx, cy, t.right.y as int, t.up.y as int, t.facing.y as int),
        dir_component_s(cx, cy, t.right.z as int, t.up.z as int, t.facing.z as int),
    )
}

/// The ray a camera entity casts through screen point `(sx, sy)`: the
/// value [`screen_ray`] returns, stated as a specification over the
/// entity.
pub open spec fn camera_ray_s(e: CameraEntity, sx: int, sy: int, screen: ScreenDimensions) -> Ray {
    let (dx, dy, dz) = screen_ray_dir_s(
        e.camera,
        e.transform,
        sx,
        sy,
        screen.width as int,
        screen.height as int,
    );
    Ray {
        origin: e.transform.translation,
        dir: Vec3 { x: dx as i64, y: dy as i64, z: dz as i64 },
    }
}

/// One executable world component of a screen-ray direction.
fn dir_component(cx: i64, cy: i64, r: i64, u: i64, f: i64) -> (d: i64)
    requires
        fits(cx as int, TAN_LIMIT as int),
        fits(cy as int, TAN_LIMIT as int),
        fits(r as int, FX_ONE as int),
        fits(u as int, FX_ONE as int),
        fits(f as int, FX_ONE as int),
    ensures
        d == dir_component_s(cx as int, cy as int, r as int, u as int, f as int),
        fits(d as int, DIR_LIMIT as int),
{
    proof {
        lemma_mul_abs_bound(cx as int, r as int, TAN_LIMIT as int, FX_ONE as int);
        lemma_mul_abs_bound(cy as int, u as int, TAN_LIMIT as int, FX_ONE as int);
        lemma_div_trunc_bound(cx as int * r as int, FX_ONE as int, TAN_LIMIT as int);
        lemma_div_trunc_bound(cy as int * u as int, FX_ONE as int, TAN_LIMIT as int);
    }
    fx_mul(cx, r) + fx_mul(cy, u) + f
}

/// Casts the ray from the camera through a screen point, as the picking and
/// bounds computations require: the ray starts at the camera translation
/// and its direction is the screen point unprojected through the frustum
/// extents and the orientation basis.
pub fn screen_ray(
    camera: &Camera,
    transform: &Transform,
    sx: i64,
    sy: i64,
    screen: &ScreenDimensions,
) -> (ray: Ray)
    requires
        camera.wf(),
        transform.wf(),
        screen.wf(),
        0 <= sx <= screen.width,
        0 <= sy <= screen.height,
    ensures
        ray.origin == transform.translation,
        (ray.dir.x as int, ray.dir.y as int, ray.dir.z as int) == screen_ray_dir_s(
            *camera,
            *transform,
            sx as int,
            sy as int,
            screen.width as int,
            screen.height as int,
        ),
        ray.dir.in_range(DIR_LIMIT as int),
{
    let w = screen.width;
    let h = screen.height;
    proof {
        lemma_mul_abs_bound(2 * sx - w, FX_ONE as int, w as int, FX_ONE as int);
        lemma_mul_abs_bound(h - 2 * sy, FX_ONE as int, h as int, FX_ONE as int);
        lemma_div_trunc_bound((2 * sx - w) * FX_ONE, w as int, FX_ONE as int);
        lemma_div_trunc_bound((h - 2 * sy) * FX_ONE, h as int, FX_ONE as int);
    }
    let nx = div_trunc((2 * sx - w) * FX_ONE, w);
    let ny = div_trunc((h - 2 * sy) * FX_ONE, h);
    proof {
        lemma_mul_abs_bound(nx as int, camera.tan_x as int, FX_ONE as int, TAN_LIMIT as int);
        lemma_mul_abs_bound(ny as int, camera.tan_y as int, FX_ONE as int, TAN_LIMIT as int);
        lemma_div_trunc_bound(nx as int * camera.tan_x as int, FX_ONE as int, TAN_LIMIT as int);
        lemma_div_trunc_bound(ny as int * camera.tan_y as int, FX_ONE as int, TAN_LIMIT as int);
    }
    let cx = fx_mul(nx, camera.tan_x);
    let cy = fx_mul(ny, camera.tan_y);
    let dx = dir_component(cx, cy, transform.right.x, transform.up.x, transform.facing.x);
    let dy = dir_component(cx, cy, transform.right.y, transform.up.y, transform.facing.y);
    let dz = dir_component(cx, cy, transform.right.z, transform.up.z, transform.facing.z);
    Ray { origin: transform.translation, dir: Vec3 { x: dx, y: dy, z: dz } }
}

} // verus!
