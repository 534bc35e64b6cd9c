use minions::camera::{ActiveCamera, Camera, CameraControlTag, CameraEntity, ScreenDimensions, Transform};
use minions::config::ArenaConfig;
use minions::geometry::TiltAngle;
use minions::hover_system::HoverSystem;
use minions::systems::InputState;
use minions::world::{build_grid, TileEntity, WorldBorders};

// A 5x5 grid of unit tiles (borders at +-2.5), one camera tilted 45
// degrees downward whose center-screen ray runs along (0, -1, -1): from
// position (x, y, z) that ray hits the ground at (x, 0, z - y).
fn picker_scene(
    cam_x: i64,
    cam_y: i64,
    cam_z: i64,
) -> (Vec<CameraEntity>, ActiveCamera, ScreenDimensions, ArenaConfig, WorldBorders, Vec<TileEntity>)
{
    let arena = ArenaConfig { depth: 5, width: 5, tile_size: 1000 };
    let wb = WorldBorders::new(&arena);
    let tilt = TiltAngle { sin: -500, cos: 500 };
    let transform = Transform::tilted(&tilt, cam_x, cam_y, cam_z);
    let cam = CameraEntity {
        camera: Camera { tan_x: 1000, tan_y: 1000 },
        transform,
        borders: None,
        control: Some(CameraControlTag),
    };
    let screen = ScreenDimensions { width: 800, height: 600 };
    let tiles = build_grid(&arena, 1, 2);
    (vec![cam], ActiveCamera { entity: Some(0) }, screen, arena, wb, tiles)
}

fn mouse_center() -> InputState {
    InputState { zoom: 0, right: 0, forward: 0, mouse: Some((400, 300)) }
}

fn assert_only_hovered(tiles: &[TileEntity], hovered: Option<usize>) {
    for (i, t) in tiles.iter().enumerate() {
        if Some(i) == hovered {
            assert_eq!(t.material, t.piece.hover_material);
        } else {
            assert_eq!(t.material, t.piece.basic_material);
        }
    }
}

#[test]
fn picker_selects_tile_under_cursor() {
    // Ground hit at (0.3, 0, -0.2): index_x = floor((0.3 + 2.5) / 1.0) = 2,
    // index_z = floor((-0.2 + 2.5) / 1.0) = 2, i.e. tile (2, 2).
    let (cams, active, screen, arena, wb, mut tiles) = picker_scene(300, 5000, 4800);
    let mut picker = HoverSystem::default();
    picker.run(&mut tiles, &cams, &active, &mouse_center(), &screen, &arena, &wb);
    assert_eq!(picker.current_hover, Some(12));
    assert_eq!(tiles[12].piece.x, 2);
    assert_eq!(tiles[12].piece.z, 2);
    assert_only_hovered(&tiles, Some(12));
}

#[test]
fn picker_idempotent_for_unchanged_input() {
    let (cams, active, screen, arena, wb, mut tiles) = picker_scene(300, 5000, 4800);
    let mut picker = HoverSystem::default();
    picker.run(&mut tiles, &cams, &active, &mouse_center(), &screen, &arena, &wb);
    let state_after_first = picker.current_hover;
    let tiles_after_first = tiles.clone();
    picker.run(&mut tiles, &cams, &active, &mouse_center(), &screen, &arena, &wb);
    assert_eq!(picker.current_hover, state_after_first);
    assert_eq!(tiles, tiles_after_first);
}

#[test]
fn picker_outside_borders_reports_idle() {
    // Ground hit at (3.0, 0, -0.2), outside right = 2.5: idle regardless
    // of prior state.
    let (cams, active, screen, arena, wb, mut tiles) = picker_scene(3000, 5000, 4800);
    let mut picker = HoverSystem::default();
    picker.run(&mut tiles, &cams, &active, &mouse_center(), &screen, &arena, &wb);
    assert_eq!(picker.current_hover, None);
    assert_only_hovered(&tiles, None);
}

#[test]
fn picker_leaving_grid_restores_hovered_tile() {
    let (cams, active, screen, arena, wb, mut tiles) = picker_scene(300, 5000, 4800);
    let mut picker = HoverSystem::default();
    picker.run(&mut tiles, &cams, &active, &mouse_center(), &screen, &arena, &wb);
    assert_eq!(picker.current_hover, Some(12));
    // The same cursor now resolves outside the borders.
    let (cams_out, ..) = picker_scene(3000, 5000, 4800);
    picker.run(&mut tiles, &cams_out, &active, &mouse_center(), &screen, &arena, &wb);
    assert_eq!(picker.current_hover, None);
    assert_only_hovered(&tiles, None);
}

#[test]
fn picker_missing_mouse_preserves_state() {
    let (cams, active, screen, arena, wb, mut tiles) = picker_scene(300, 5000, 4800);
    let mut picker = HoverSystem::default();
    picker.run(&mut tiles, &cams, &active, &mouse_center(), &screen, &arena, &wb);
    let no_mouse = InputState { zoom: 0, right: 0, forward: 0, mouse: None };
    picker.run(&mut tiles, &cams, &active, &no_mouse, &screen, &arena, &wb);
    assert_eq!(picker.current_hover, Some(12));
    assert_only_hovered(&tiles, Some(12));
}

#[test]
fn picker_parallel_ray_clears_hover() {
    let (cams, active, screen, arena, wb, mut tiles) = picker_scene(300, 5000, 4800);
    let mut picker = HoverSystem::default();
    picker.run(&mut tiles, &cams, &active, &mouse_center(), &screen, &arena, &wb);
    assert_eq!(picker.current_hover, Some(12));
    // Through the top screen edge the ray direction has no vertical
    // component for this camera: no ground intersection, treated as
    // outside the borders rather than aborting.
    let mouse_top = InputState { zoom: 0, right: 0, forward: 0, mouse: Some((400, 0)) };
    picker.run(&mut tiles, &cams, &active, &mouse_top, &screen, &arena, &wb);
    assert_eq!(picker.current_hover, None);
    assert_only_hovered(&tiles, None);
}

#[test]
fn picker_moves_highlight_between_tiles() {
    let (cams, active, screen, arena, wb, mut tiles) = picker_scene(300, 5000, 4800);
    let mut picker = HoverSystem::default();
    picker.run(&mut tiles, &cams, &active, &mouse_center(), &screen, &arena, &wb);
    assert_eq!(picker.current_hover, Some(12));
    // Hit moves to (1.3, 0, -0.2): tile (3, 2), flat index 17.
    let (cams_moved, ..) = picker_scene(1300, 5000, 4800);
    picker.run(&mut tiles, &cams_moved, &active, &mouse_center(), &screen, &arena, &wb);
    assert_eq!(picker.current_hover, Some(17));
    assert_only_hovered(&tiles, Some(17));
}

#[test]
fn picker_without_camera_preserves_state() {
    let (_, active, screen, arena, wb, mut tiles) = picker_scene(300, 5000, 4800);
    let no_cams: Vec<CameraEntity> = Vec::new();
    let mut picker = HoverSystem::default();
    picker.run(&mut tiles, &no_cams, &active, &mouse_center(), &screen, &arena, &wb);
    assert_eq!(picker.current_hover, None);
    assert_only_hovered(&tiles, None);
}
