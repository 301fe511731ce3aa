//! World-coordinate addressing: floor division and true modulo.

use voxel_world::world::{chunk_coord_of, local_coord_of};

#[test]
fn chunk_coord_floor_division() {
    assert_eq!(chunk_coord_of(-1), -1);
    assert_eq!(chunk_coord_of(-16), -1);
    assert_eq!(chunk_coord_of(-17), -2);
    assert_eq!(chunk_coord_of(0), 0);
    assert_eq!(chunk_coord_of(15), 0);
    assert_eq!(chunk_coord_of(16), 1);
    assert_eq!(chunk_coord_of(31), 1);
    assert_eq!(chunk_coord_of(32), 2);
}

#[test]
fn local_coord_true_modulo() {
    assert_eq!(local_coord_of(-1), 15);
    assert_eq!(local_coord_of(-16), 0);
    assert_eq!(local_coord_of(-17), 15);
    assert_eq!(local_coord_of(0), 0);
    assert_eq!(local_coord_of(15), 15);
    assert_eq!(local_coord_of(16), 0);
}

#[test]
fn chunk_and_local_decompose_world_coordinate() {
    for w in [-33, -17, -16, -1, 0, 1, 15, 16, 17, 31, 32, 1000, -1000] {
        let c = chunk_coord_of(w);
        let l = local_coord_of(w);
        assert!((0..16).contains(&l));
        assert_eq!(c * 16 + l, w);
    }
}
