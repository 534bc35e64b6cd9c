use minions::bundle::{FrameInput, GameState, MinionsBundle};
use minions::camera::{
    ActiveCamera, Camera, CameraBorders, CameraControlTag, CameraEntity, ScreenDimensions,
    Transform,
};
use minions::config::{ArenaConfig, CameraConfig, MinionsConfig};
use minions::geometry::TiltAngle;
use minions::world::{build_grid, WorldBorders};

fn fresh_state() -> GameState {
    let arena = ArenaConfig { depth: 5, width: 5, tile_size: 1000 };
    let tilt = TiltAngle { sin: -500, cos: 500 };
    let config = MinionsConfig {
        arena,
        camera: CameraConfig { camera_tilt: tilt, movement_factor: 2000 },
    };
    let world_borders = WorldBorders::new(&config.arena);
    let cam = CameraEntity {
        camera: Camera { tan_x: 1000, tan_y: 1000 },
        transform: Transform::tilted(&tilt, 0, 2000, 1000),
        borders: Some(CameraBorders::default()),
        control: Some(CameraControlTag),
    };
    GameState {
        cameras: vec![cam],
        tiles: build_grid(&config.arena, 1, 2),
        active: ActiveCamera { entity: Some(0) },
        world_borders,
        arena: config.arena,
        camera_config: config.camera,
    }
}

fn frame(mouse: Option<(i64, i64)>) -> FrameInput {
    FrameInput {
        screen: ScreenDimensions { width: 800, height: 600 },
        input: minions::systems::InputState { zoom: 0, right: 0, forward: 0, mouse },
        focused: true,
        delta: 16,
    }
}

#[test]
fn tick_runs_border_rig_and_picker_in_order() {
    let mut state = fresh_state();
    let mut bundle = MinionsBundle::default();
    bundle.run_tick(&mut state, &frame(Some((400, 300))));

    // First tick: the dirty flag forces the border computation even with
    // no zoom input.
    let b = state.cameras[0].borders.unwrap();
    assert_eq!(b.top, 3500);
    assert_eq!(b.bottom, -1500);
    assert_eq!(b.left, -1500);
    assert_eq!(b.right, 1500);

    // The rig then clamps against the freshly computed borders.
    let t = state.cameras[0].transform.translation;
    assert!(b.left <= t.x && t.x <= b.right);
    assert!(b.bottom <= t.z && t.z <= b.top);
    assert_eq!(t.x, 0);
    assert_eq!(t.y, 2000);
    assert_eq!(t.z, 1000);

    // The picker sees the moved camera: its center ray hits (0, 0, -1),
    // tile (2, 1), flat index 11.
    assert_eq!(bundle.hover.current_hover, Some(11));
    assert_eq!(state.tiles[11].material, state.tiles[11].piece.hover_material);
}

#[test]
fn tick_is_stable_without_input_changes() {
    let mut state = fresh_state();
    let mut bundle = MinionsBundle::default();
    let f = frame(Some((400, 300)));
    bundle.run_tick(&mut state, &f);
    let borders = state.cameras[0].borders;
    let translation = state.cameras[0].transform.translation;
    let hover = bundle.hover.current_hover;
    let tiles = state.tiles.clone();
    bundle.run_tick(&mut state, &f);
    assert_eq!(state.cameras[0].borders, borders);
    assert_eq!(state.cameras[0].transform.translation, translation);
    assert_eq!(bundle.hover.current_hover, hover);
    assert_eq!(state.tiles, tiles);
}

#[test]
fn tick_without_mouse_keeps_picker_idle() {
    let mut state = fresh_state();
    let mut bundle = MinionsBundle::default();
    bundle.run_tick(&mut state, &frame(None));
    assert_eq!(bundle.hover.current_hover, None);
    for t in state.tiles.iter() {
        assert_eq!(t.material, t.piece.basic_material);
    }
}
