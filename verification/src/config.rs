//! Static configuration of the arena grid and the camera rig.
//!
//! Non-positive grid dimensions or tile sizes are a configuration-time
//! contract violation: they are rejected before this core runs, which the
//! well-formedness predicates below express.

use vstd::prelude::*;

verus! {

use crate::fixed::FACTOR_LIMIT;
use crate::fixed::TILE_LIMIT;
use crate::geometry::TiltAngle;

/// Dimensions of the tile grid: `width` columns by `depth` rows of square
/// tiles with fixed-point side length `tile_size`.
#[derive(Clone, Copy, PartialEq, Eq, Debug)]
pub struct ArenaConfig {
    pub depth: i16,
    pub width: i16,
    pub tile_size: i64,
}

impl ArenaConfig {
    /// Positive dimensions and a positive, bounded tile size.
    pub open spec fn wf(self) -> bool {
        0 < self.depth && 0 < self.width && 0 < self.tile_size <= TILE_LIMIT
    }
}

/// Camera rig configuration: the fixed downward tilt and the lateral
/// movement speed in units per second.
#[derive(Clone, Copy, PartialEq, Eq, Debug)]
pub struct CameraConfig {
    pub camera_tilt: TiltAngle,
    pub movement_factor: i64,
}

impl CameraConfig {
    /// A strictly downward tilt and a non-negative, bounded speed factor.
    pub open spec fn wf(self) -> bool {
        self.camera_tilt.wf() && 0 <= self.movement_factor <= FACTOR_LIMIT
    }
}

/// The complete configuration consumed at world-build time.
#[derive(Clone, Copy, PartialEq, Eq, Debug)]
pub struct MinionsConfig {
    pub arena: ArenaConfig,
    pub camera: CameraConfig,
}

impl MinionsConfig {
    pub open spec fn wf(self) -> bool {
        self.arena.wf() && self.camera.wf()
    }
}

} // verus!
