use minions::camera::{screen_ray, Camera, ScreenDimensions, Transform};
use minions::geometry::{ground_hit, Ray, TiltAngle, Vec3};

fn tilted_camera() -> (Camera, Transform, ScreenDimensions) {
    let tilt = TiltAngle { sin: -500, cos: 500 };
    (
        Camera { tan_x: 1000, tan_y: 1000 },
        Transform::tilted(&tilt, 0, 7000, 10000),
        ScreenDimensions { width: 800, height: 600 },
    )
}

#[test]
fn tilted_transform_basis() {
    let tilt = TiltAngle { sin: -500, cos: 500 };
    let t = Transform::tilted(&tilt, 1, 2, 3);
    assert_eq!(t.translation, Vec3 { x: 1, y: 2, z: 3 });
    assert_eq!(t.right, Vec3 { x: 1000, y: 0, z: 0 });
    assert_eq!(t.up, Vec3 { x: 0, y: 500, z: -500 });
    assert_eq!(t.facing, Vec3 { x: 0, y: -500, z: -500 });
}

#[test]
fn move_forward_follows_facing() {
    let tilt = TiltAngle { sin: -500, cos: 500 };
    let mut t = Transform::tilted(&tilt, 0, 7000, 10000);
    t.move_forward(1000);
    assert_eq!(t.translation, Vec3 { x: 0, y: 6500, z: 9500 });
    t.move_forward(-1000);
    assert_eq!(t.translation, Vec3 { x: 0, y: 7000, z: 10000 });
}

#[test]
fn screen_ray_through_center_is_facing() {
    let (cam, t, screen) = tilted_camera();
    let ray = screen_ray(&cam, &t, 400, 300, &screen);
    assert_eq!(ray.origin, t.translation);
    assert_eq!(ray.dir, Vec3 { x: 0, y: -500, z: -500 });
}

#[test]
fn screen_ray_through_bottom_center_points_down() {
    let (cam, t, screen) = tilted_camera();
    let ray = screen_ray(&cam, &t, 400, 600, &screen);
    assert_eq!(ray.dir, Vec3 { x: 0, y: -1000, z: 0 });
}

#[test]
fn screen_ray_through_bottom_left_leans_left() {
    let (cam, t, screen) = tilted_camera();
    let ray = screen_ray(&cam, &t, 0, 600, &screen);
    assert_eq!(ray.dir, Vec3 { x: -1000, y: -1000, z: 0 });
}

#[test]
fn ground_hit_meets_plane_at_zero_height() {
    let ray = Ray { origin: Vec3 { x: 0, y: 7000, z: 10000 }, dir: Vec3 { x: 0, y: -500, z: -500 } };
    let hit = ground_hit(&ray).unwrap();
    assert_eq!(hit, Vec3 { x: 0, y: 0, z: 3000 });
}

#[test]
fn ground_hit_parallel_ray_misses() {
    let ray = Ray { origin: Vec3 { x: 0, y: 7000, z: 10000 }, dir: Vec3 { x: 1000, y: 0, z: -500 } };
    assert_eq!(ground_hit(&ray), None);
}
