use minions::camera::{
    ActiveCamera, Camera, CameraBorders, CameraControlTag, CameraEntity, ScreenDimensions,
    Transform,
};
use minions::config::ArenaConfig;
use minions::geometry::TiltAngle;
use minions::systems::{BorderSystem, InputState};
use minions::world::WorldBorders;

fn border_scene(cam_y: i64, cam_z: i64) -> (Vec<CameraEntity>, ActiveCamera, WorldBorders, ArenaConfig, ScreenDimensions) {
    let arena = ArenaConfig { depth: 5, width: 5, tile_size: 1000 };
    let wb = WorldBorders::new(&arena);
    let tilt = TiltAngle { sin: -500, cos: 500 };
    let cam = CameraEntity {
        camera: Camera { tan_x: 1000, tan_y: 1000 },
        transform: Transform::tilted(&tilt, 0, cam_y, cam_z),
        borders: Some(CameraBorders::default()),
        control: Some(CameraControlTag),
    };
    (vec![cam], ActiveCamera { entity: Some(0) }, wb, arena, ScreenDimensions { width: 800, height: 600 })
}

fn idle_axes() -> InputState {
    InputState { zoom: 0, right: 0, forward: 0, mouse: None }
}

#[test]
fn borders_computed_on_first_tick() {
    // For this camera the bottom-center ray goes straight down, so the
    // forward distance is exactly one tile size; the bottom-left ray hits
    // the ground a camera-height to the left, so the lateral distance is
    // the height.
    let (mut cams, active, wb, arena, screen) = border_scene(7000, 10000);
    let mut sys = BorderSystem::default();
    sys.run(&mut cams, &active, &wb, &arena, &screen, &idle_axes());
    let b = cams[0].borders.unwrap();
    assert_eq!(b.top, 3500);
    assert_eq!(b.bottom, -1500);
    assert_eq!(b.left, 3500);
    assert_eq!(b.right, -3500);
}

#[test]
fn borders_shrink_when_camera_descends() {
    let (mut cams, active, wb, arena, screen) = border_scene(2000, 1000);
    let mut sys = BorderSystem::default();
    sys.run(&mut cams, &active, &wb, &arena, &screen, &idle_axes());
    let b = cams[0].borders.unwrap();
    assert_eq!(b.top, 3500);
    assert_eq!(b.bottom, -1500);
    assert_eq!(b.left, -1500);
    assert_eq!(b.right, 1500);
}

#[test]
fn borders_not_recomputed_without_zoom() {
    let (mut cams, active, wb, arena, screen) = border_scene(7000, 10000);
    let mut sys = BorderSystem::default();
    sys.run(&mut cams, &active, &wb, &arena, &screen, &idle_axes());
    let before = cams[0].borders.unwrap();
    // Move the camera; without a zoom input the borders stay stale.
    let tilt = TiltAngle { sin: -500, cos: 500 };
    cams[0].transform = Transform::tilted(&tilt, 0, 2000, 1000);
    sys.run(&mut cams, &active, &wb, &arena, &screen, &idle_axes());
    assert_eq!(cams[0].borders.unwrap(), before);
}

#[test]
fn borders_recomputed_on_zoom() {
    let (mut cams, active, wb, arena, screen) = border_scene(7000, 10000);
    let mut sys = BorderSystem::default();
    sys.run(&mut cams, &active, &wb, &arena, &screen, &idle_axes());
    let tilt = TiltAngle { sin: -500, cos: 500 };
    cams[0].transform = Transform::tilted(&tilt, 0, 2000, 1000);
    let zooming = InputState { zoom: -1000, right: 0, forward: 0, mouse: None };
    sys.run(&mut cams, &active, &wb, &arena, &screen, &zooming);
    let b = cams[0].borders.unwrap();
    assert_eq!(b.left, -1500);
    assert_eq!(b.right, 1500);
}

#[test]
fn borders_fall_back_to_first_bordered_camera() {
    let (cams, _, wb, arena, screen) = border_scene(2000, 1000);
    // The first entity has no borders storage; the dangling active index
    // falls back to the first entity that has one.
    let mut bare = cams[0];
    bare.borders = None;
    let mut both = vec![bare, cams[0]];
    let dangling = ActiveCamera { entity: Some(9) };
    let mut sys = BorderSystem::default();
    sys.run(&mut both, &dangling, &wb, &arena, &screen, &idle_axes());
    assert_eq!(both[0].borders, None);
    let b = both[1].borders.unwrap();
    assert_eq!(b.left, -1500);
    assert_eq!(b.right, 1500);
}

#[test]
fn borders_without_cameras_is_noop() {
    let (_, active, wb, arena, screen) = border_scene(2000, 1000);
    let mut none: Vec<CameraEntity> = Vec::new();
    let mut sys = BorderSystem::default();
    sys.run(&mut none, &active, &wb, &arena, &screen, &idle_axes());
    assert!(none.is_empty());
}
