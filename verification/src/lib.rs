//! Viewport-interaction core of a grid-based board visualizer.
//!
//! The crate bounds a free-floating camera to a rectangular tabletop region
//! and resolves mouse screen coordinates to the grid tile under the cursor.
//! All geometry is carried in fixed-point coordinates (see [`fixed`]), so
//! every computation here has an exact arithmetic contract: world borders
//! derived from the grid configuration, camera borders recomputed from
//! ray-casts against the ground plane, per-tick camera movement with closed
//! interval clamping, and the hover state machine of the tile picker.

pub mod fixed;
pub mod geometry;
pub mod config;
pub mod camera;
pub mod world;
pub mod systems;
pub mod hover_system;
pub mod bundle;
