//! The per-tick schedule that ties the systems together.
//!
//! The dispatcher order is fixed: the bounds calculator completes before
//! the camera rig reads the borders in the same tick, and the tile picker
//! runs after both. `GameState` gathers the shared resources with their
//! single-writer discipline: the world borders are read-only after
//! construction, the camera borders are written only by the bounds
//! calculator, and the tile materials only by the picker.

use vstd::prelude::*;

verus! {

use crate::camera::ActiveCamera;
use crate::camera::CameraEntity;
use crate::camera::ScreenDimensions;
use crate::config::ArenaConfig;
use crate::config::CameraConfig;
use crate::fixed::DELTA_LIMIT;
use crate::hover_system::HoverSystem;
use crate::hover_system::cur_int;
use crate::hover_system::hover_step;
use crate::systems::BorderSystem;
use crate::systems::CameraSystem;
use crate::systems::InputState;
use crate::systems::border_step;
use crate::systems::rig_all;
use crate::world::TileEntity;
use crate::world::WorldBorders;

/// Everything the systems share across one session: the entities and the
/// immutable resources built at startup.
pub struct GameState {
    pub cameras: Vec<CameraEntity>,
    pub tiles: Vec<TileEntity>,
    pub active: ActiveCamera,
    pub world_borders: WorldBorders,
    pub arena: ArenaConfig,
    pub camera_config: CameraConfig,
}

impl GameState {
    pub open spec fn wf(self) -> bool {
        &&& self.arena.wf()
        &&& self.camera_config.wf()
        &&& self.world_borders.in_range()
        &&& forall|i: int| 0 <= i < self.cameras@.len() ==> (#[trigger] self.cameras@[i]).wf()
    }
}

/// The already-resolved snapshot one tick consumes: window size and focus,
/// input axes and mouse, and the elapsed seconds since the last tick.
#[derive(Clone, Copy, PartialEq, Eq, Debug)]
pub struct FrameInput {
    pub screen: ScreenDimensions,
    pub input: InputState,
    pub focused: bool,
    pub delta: i64,
}

impl FrameInput {
    pub open spec fn wf(self) -> bool {
        self.screen.wf() && self.input.wf(self.screen) && 0 <= self.delta <= DELTA_LIMIT
    }
}

/// The three systems in their fixed dependency order.
pub struct MinionsBundle {
    pub border: BorderSystem,
    pub camera: CameraSystem,
    pub hover: HoverSystem,
}

impl Default for MinionsBundle {
    /// A fresh schedule: the bounds calculator is dirty and the picker
    /// idle.
    fn default() -> (b: Self)
        ensures
            b.border.first_run,
            b.hover.current_hover is None,
    {
        MinionsBundle {
            border: BorderSystem::default(),
            camera: CameraSystem,
            hover: HoverSystem::default(),
        }
    }
}

impl MinionsBundle {
    /// One simulated frame: bounds calculator, then camera rig, then tile
    /// picker, each stepping the state exactly as its transition function
    /// states; the configuration resources are untouched.
    pub fn run_tick(&mut self, state: &mut GameState, frame: &FrameInput)
        requires
            old(state).wf(),
            frame.wf(),
            old(self).hover.wf(old(state).tiles@),
        ensures
            ({
                let (dirty, cams1) = border_step(
                    old(self).border.first_run,
                    old(state).cameras@,
                    old(state).active.entity,
                    old(state).world_borders,
                    old(state).arena.tile_size as int,
                    frame.screen,
                    frame.input.zoom as int,
                );
                let cams2 = rig_all(
                    cams1,
                    frame.focused,
                    frame.input,
                    old(state).camera_config,
                    frame.delta as int,
                );
                let (hov, tiles2) = hover_step(
                    cur_int(old(self).hover.current_hover),
                    old(state).tiles@,
                    cams2,
                    old(state).active.entity,
                    frame.input,
                    frame.screen,
                    old(state).arena,
                    old(state).world_borders,
                );
                &&& final(self).border.first_run == dirty
                &&& final(state).cameras@ == cams2
                &&& cur_int(final(self).hover.current_hover) == hov
                &&& final(state).tiles@ == tiles2
            }),
            final(state).active == old(state).active,
            final(state).world_borders == old(state).world_borders,
            final(state).arena == old(state).arena,
            final(state).camera_config == old(state).camera_config,
            final(state).wf(),
            final(self).hover.wf(final(state).tiles@),
    {
        self.border.run(
            &mut state.cameras,
            &state.active,
            &state.world_borders,
            &state.arena,
            &frame.screen,
            &frame.input,
        );
        self.camera.run(
            &mut state.cameras,
            frame.focused,
            &frame.input,
            &state.camera_config,
            frame.delta,
        );
        self.hover.run(
            &mut state.tiles,
            &state.cameras,
            &state.active,
            &frame.input,
            &frame.screen,
            &state.arena,
            &state.world_borders,
        );
    }
}

} // verus!
