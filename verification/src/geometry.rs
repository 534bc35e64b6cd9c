//! World-space vectors, rays and the ground plane.
//!
//! The ground plane is the horizontal plane `y = 0`; both the bounds
//! calculator and the tile picker resolve screen points to it by casting a
//! ray and intersecting. A ray parallel to the plane has no intersection
//! and yields `None`, which callers must absorb by skipping the dependent
//! update for the tick rather than aborting.

use vstd::prelude::*;

verus! {

use vstd::math::abs;
use crate::fixed::COORD_LIMIT;
use crate::fixed::DIR_LIMIT;
use crate::fixed::FX_ONE;
use crate::fixed::HIT_LIMIT;
use crate::fixed::div_trunc;
use crate::fixed::div_trunc_s;
use crate::fixed::fits;
use crate::fixed::lemma_mul_abs_bound;

/// A world-space vector in fixed-point coordinates.
#[derive(Clone, Copy, PartialEq, Eq, Debug)]
pub struct Vec3 {
    pub x: i64,
    pub y: i64,
    pub z: i64,
}

impl Vec3 {
    /// Every component lies within `[-lim, lim]`.
    pub open spec fn in_range(self, lim: int) -> bool {
        fits(self.x as int, lim) && fits(self.y as int, lim) && fits(self.z as int, lim)
    }
}

/// A half-line from `origin` along `dir`; `dir` need not be normalized.
#[derive(Clone, Copy, PartialEq, Eq, Debug)]
pub struct Ray {
    pub origin: Vec3,
    pub dir: Vec3,
}

/// A downward camera tilt, held as the fixed-point sine and cosine of the
/// angle — the only trigonometric data the geometry reads. Well-formed
/// tilts lie strictly between level and straight down, so the sine is
/// negative and the cosine positive.
#[derive(Clone, Copy, PartialEq, Eq, Debug)]
pub struct TiltAngle {
    pub sin: i64,
    pub cos: i64,
}

impl TiltAngle {
    /// The angle lies strictly inside `(-pi/2, 0)` and both components fit
    /// one fixed-point unit.
    pub open spec fn wf(self) -> bool {
        -FX_ONE <= self.sin < 0 < self.cos <= FX_ONE
    }
}

/// The ray meets the ground plane, i.e. is not parallel to it.
pub open spec fn hits_ground(r: Ray) -> bool {
    r.dir.y != 0
}

/// `x` coordinate of the ground-plane intersection: the ray parameter is
/// `-origin.y / dir.y`, so the hit is `origin.x - (origin.y * dir.x) / dir.y`
/// with the quotient truncated toward zero.
pub open spec fn ground_hit_x_s(r: Ray) -> int
    recommends
        hits_ground(r),
{
    r.origin.x - div_trunc_s(r.origin.y * r.dir.x, r.dir.y as int)
}

/// `z` coordinate of the ground-plane intersection.
pub open spec fn ground_hit_z_s(r: Ray) -> int
    recommends
        hits_ground(r),
{
    r.origin.z - div_trunc_s(r.origin.y * r.dir.z, r.dir.y as int)
}

/// Intersects a ray with the ground plane. A parallel ray yields `None`;
/// any other ray meets the plane at exactly one point (possibly behind the
/// origin), whose `y` coordinate is zero by construction.
pub fn ground_hit(ray: &Ray) -> (hit: Option<Vec3>)
    requires
        ray.origin.in_range(COORD_LIMIT as int),
        ray.dir.in_range(DIR_LIMIT as int),
    ensures
        match hit {
            None => !hits_ground(*ray),
            Some(p) => {
                &&& hits_ground(*ray)
                &&& p.x == ground_hit_x_s(*ray)
                &&& p.y == 0
                &&& p.z == ground_hit_z_s(*ray)
                &&& p.in_range(HIT_LIMIT as int)
            },
        },
{
    if ray.dir.y == 0 {
        return None;
    }
    proof {
        lemma_mul_abs_bound(
            ray.origin.y as int,
            ray.dir.x as int,
            COORD_LIMIT as int,
            DIR_LIMIT as int,
        );
        lemma_mul_abs_bound(
            ray.origin.y as int,
            ray.dir.z as int,
            COORD_LIMIT as int,
            DIR_LIMIT as int,
        );
    }
    let qx: i64 = div_trunc(ray.origin.y * ray.dir.x, ray.dir.y);
    let qz: i64 = div_trunc(ray.origin.y * ray.dir.z, ray.dir.y);
    proof {
        assert(abs(qx as int) <= COORD_LIMIT * DIR_LIMIT);
        assert(abs(qz as int) <= COORD_LIMIT * DIR_LIMIT);
    }
    Some(Vec3 { x: ray.origin.x - qx, y: 0, z: ray.origin.z - qz })
}

} // verus!
