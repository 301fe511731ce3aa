//! The character controller: jump, gravity, speed ramp, rotation.

use voxel_world::camera::{Camera, PressedKeys, JUMP_IMPULSE, PITCH_LIMIT, UNITS_PER_BLOCK};
use voxel_world::chunk::Chunk;

fn no_keys() -> PressedKeys {
    PressedKeys { forward: false, back: false, left: false, right: false, jump: false }
}

/// A chunk with a solid voxel directly beneath the default camera's feet.
///
/// The default eye stands at (1.0, 3.0, 1.0) blocks, so the feet voxel is
/// (1, ceil(3.0 - 1.8), 1) = (1, 2, 1).
fn ground_under_default_feet() -> Chunk {
    let mut chunk = Chunk::new();
    chunk.set(1, 2, 1, 1).unwrap();
    chunk
}

#[test]
fn grounded_jump_sets_exactly_the_jump_impulse() {
    let chunk = ground_under_default_feet();
    let mut camera = Camera::default();
    let keys = PressedKeys { jump: true, ..no_keys() };
    camera.handle_keys(&keys, &chunk, 0, 0);
    assert_eq!(camera.vertical_speed, JUMP_IMPULSE);
}

#[test]
fn grounded_rest_keeps_vertical_speed_zero() {
    let chunk = ground_under_default_feet();
    let mut camera = Camera::default();
    for _ in 0..10 {
        camera.handle_keys(&no_keys(), &chunk, 0, 0);
        assert_eq!(camera.vertical_speed, 0);
        assert_eq!(camera.position.1, 300000);
    }
}

#[test]
fn free_fall_accumulates_gravity_each_step() {
    let chunk = Chunk::new();
    let mut camera = Camera::default();
    let mut previous = camera.vertical_speed;
    for n in 1..=5 {
        camera.handle_keys(&no_keys(), &chunk, 0, 0);
        assert_eq!(camera.vertical_speed, -30 * n);
        assert!(camera.vertical_speed < previous);
        previous = camera.vertical_speed;
    }
    // The jump key does nothing without ground beneath the feet.
    let keys = PressedKeys { jump: true, ..no_keys() };
    camera.handle_keys(&keys, &chunk, 0, 0);
    assert_eq!(camera.vertical_speed, -30 * 6);
}

#[test]
fn speed_never_exceeds_the_maximum() {
    let chunk = ground_under_default_feet();
    let mut camera = Camera::default();
    let keys = PressedKeys { forward: true, ..no_keys() };
    for _ in 0..400 {
        camera.handle_keys(&keys, &chunk, 0, 0);
        assert!(camera.speed <= camera.max_speed);
    }
    assert_eq!(camera.speed, camera.max_speed);
}

#[test]
fn conflicting_keys_do_not_accelerate() {
    let chunk = ground_under_default_feet();
    let mut camera = Camera::default();
    let keys = PressedKeys { forward: true, back: true, ..no_keys() };
    camera.handle_keys(&keys, &chunk, 0, 0);
    assert_eq!(camera.speed, 0);
    let keys = PressedKeys { forward: true, back: true, left: true, ..no_keys() };
    camera.handle_keys(&keys, &chunk, 0, 0);
    assert_eq!(camera.speed, camera.acceleration);
}

#[test]
fn movement_scales_the_direction_by_speed() {
    let chunk = ground_under_default_feet();
    let mut camera = Camera::default();
    let keys = PressedKeys { forward: true, ..no_keys() };
    // A unit +x direction: one step at speed 2 moves 2 micro-blocks.
    camera.handle_keys(&keys, &chunk, UNITS_PER_BLOCK, 0);
    assert_eq!(camera.speed, 2);
    assert_eq!(camera.position.0, 100002);
    assert_eq!(camera.position.2, 100000);
    camera.handle_keys(&keys, &chunk, UNITS_PER_BLOCK, 0);
    assert_eq!(camera.position.0, 100006);
}

#[test]
fn rotation_clamps_pitch_and_not_yaw() {
    let mut camera = Camera::default();
    camera.rotate(500, 2000000);
    assert_eq!(camera.angle.0, 500);
    assert_eq!(camera.angle.1, PITCH_LIMIT);
    camera.rotate(-1500, -4000000);
    assert_eq!(camera.angle.0, -1000);
    assert_eq!(camera.angle.1, -PITCH_LIMIT);
    camera.rotate(0, 1500000);
    assert_eq!(camera.angle.1, 0);
}

#[test]
fn feet_voxel_outside_the_extent_counts_as_empty() {
    let chunk = ground_under_default_feet();
    let mut camera = Camera::default();
    // Move the eye far outside the chunk: the feet query must not fail, it
    // reads as empty and the camera falls.
    camera.position = (-5000000, 300000, 300000);
    camera.handle_keys(&no_keys(), &chunk, 0, 0);
    assert_eq!(camera.vertical_speed, -30);
}
