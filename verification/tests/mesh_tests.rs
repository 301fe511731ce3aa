//! Face-culling mesh generation: counts, contents, ordering, caching.

use voxel_world::chunk::{Chunk, ChunkError};
use voxel_world::cube::Cube;
use voxel_world::mesh::Face;
use voxel_world::vertex::Vertex;

#[test]
fn empty_chunk_produces_no_geometry() {
    let chunk = Chunk::new();
    let mesh = chunk.build_mesh();
    assert_eq!(mesh.faces.len(), 0);
    assert_eq!(mesh.vertices.len(), 0);
    assert_eq!(mesh.indices.len(), 0);
}

#[test]
fn single_voxel_produces_six_faces() {
    let mut chunk = Chunk::new();
    chunk.set(5, 100, 5, 1).unwrap();
    let mesh = chunk.build_mesh();
    assert_eq!(mesh.faces.len(), 6);
    assert_eq!(mesh.vertices.len(), 24);
    assert_eq!(mesh.indices.len(), 36);
}

#[test]
fn single_voxel_on_chunk_corner_produces_six_faces() {
    // Boundary faces are always drawn: neighbouring chunks are not consulted.
    let mut chunk = Chunk::new();
    chunk.set(0, 0, 0, 7).unwrap();
    let mesh = chunk.build_mesh();
    assert_eq!(mesh.faces.len(), 6);
    assert_eq!(mesh.vertices.len(), 24);
    assert_eq!(mesh.indices.len(), 36);
}

#[test]
fn adjacent_voxels_suppress_the_shared_face() {
    let mut chunk = Chunk::new();
    chunk.set(5, 100, 5, 1).unwrap();
    chunk.set(6, 100, 5, 1).unwrap();
    let mesh = chunk.build_mesh();
    assert_eq!(mesh.faces.len(), 10);
    assert_eq!(mesh.vertices.len(), 40);
    assert_eq!(mesh.indices.len(), 60);
}

#[test]
fn vertically_adjacent_voxels_suppress_the_shared_face() {
    let mut chunk = Chunk::new();
    chunk.set(5, 100, 5, 1).unwrap();
    chunk.set(5, 101, 5, 1).unwrap();
    let mesh = chunk.build_mesh();
    assert_eq!(mesh.faces.len(), 10);
}

#[test]
fn depth_adjacent_voxels_suppress_the_shared_face() {
    let mut chunk = Chunk::new();
    chunk.set(5, 100, 5, 1).unwrap();
    chunk.set(5, 100, 6, 1).unwrap();
    let mesh = chunk.build_mesh();
    assert_eq!(mesh.faces.len(), 10);
}

#[test]
fn single_voxel_first_face_contents() {
    let mut chunk = Chunk::new();
    chunk.set(5, 100, 5, 1).unwrap();
    let mesh = chunk.build_mesh();
    // The first face is the -x face of the voxel.
    assert_eq!(mesh.faces[0], Face { x: 5, y: 100, z: 5, dir: 0 });
    // Its first vertex: the (0, 1, 1) corner translated by (5, 100, 5).
    assert_eq!(
        mesh.vertices[0],
        Vertex { px: 5, py: 101, pz: 6, nx: -1, ny: 0, nz: 0, tu: 0, tv: 0 }
    );
    // Two counter-clockwise triangles per quad.
    assert_eq!(&mesh.indices[0..6], &[0, 1, 2, 1, 3, 2]);
    assert_eq!(&mesh.indices[6..12], &[4, 5, 6, 5, 7, 6]);
}

#[test]
fn rebuilding_an_unchanged_chunk_gives_identical_geometry() {
    let mut chunk = Chunk::new();
    chunk.set(3, 40, 9, 2).unwrap();
    chunk.set(3, 41, 9, 2).unwrap();
    chunk.set(12, 7, 1, 5).unwrap();
    let first = chunk.build_mesh();
    let second = chunk.build_mesh();
    assert_eq!(first.faces, second.faces);
    assert_eq!(first.vertices, second.vertices);
    assert_eq!(first.indices, second.indices);
}

#[test]
fn prepare_caches_and_mutation_invalidates() {
    let mut chunk = Chunk::new();
    chunk.set(5, 100, 5, 1).unwrap();
    assert!(chunk.mesh.is_none());
    chunk.prepare();
    let cached = chunk.mesh.as_ref().expect("prepare stores the mesh");
    assert_eq!(cached.faces.len(), 6);
    // Mutating a voxel drops the cache, so it can never go stale.
    chunk.set(6, 100, 5, 1).unwrap();
    assert!(chunk.mesh.is_none());
    chunk.prepare();
    assert_eq!(chunk.mesh.as_ref().unwrap().faces.len(), 10);
}

#[test]
fn get_and_set_round_trip() {
    let mut chunk = Chunk::new();
    assert_eq!(chunk.get(4, 200, 11), Ok(0));
    chunk.set(4, 200, 11, 9).unwrap();
    assert_eq!(chunk.get(4, 200, 11), Ok(9));
    assert_eq!(chunk.get(4, 201, 11), Ok(0));
}

#[test]
fn out_of_extent_access_is_an_error() {
    let mut chunk = Chunk::new();
    assert_eq!(chunk.get(16, 0, 0), Err(ChunkError::IndexOutOfRange));
    assert_eq!(chunk.get(0, 256, 0), Err(ChunkError::IndexOutOfRange));
    assert_eq!(chunk.get(0, 0, 16), Err(ChunkError::IndexOutOfRange));
    assert_eq!(chunk.set(16, 0, 0, 1), Err(ChunkError::IndexOutOfRange));
    assert_eq!(chunk.set(0, 0, 16, 1), Err(ChunkError::IndexOutOfRange));
    // A failed set changes nothing.
    assert_eq!(chunk.get(15, 0, 15), Ok(0));
}

#[test]
fn cube_templates_lie_on_the_unit_cube() {
    let left = Cube::left();
    assert_eq!((left[0].px, left[0].py, left[0].pz), (0, 1, 1));
    assert_eq!((left[0].nx, left[0].ny, left[0].nz), (-1, 0, 0));
    assert_eq!((left[3].px, left[3].py, left[3].pz), (0, 0, 0));
    assert_eq!((left[3].tu, left[3].tv), (1, 1));
    let right = Cube::right();
    assert_eq!((right[0].px, right[0].py, right[0].pz), (1, 1, 0));
    assert_eq!((right[0].nx, right[0].ny, right[0].nz), (1, 0, 0));
    let top = Cube::top();
    assert_eq!((top[0].nx, top[0].ny, top[0].nz), (0, 1, 0));
    let bottom = Cube::bottom();
    assert_eq!((bottom[0].nx, bottom[0].ny, bottom[0].nz), (0, -1, 0));
    let front = Cube::front();
    assert_eq!((front[0].nx, front[0].ny, front[0].nz), (0, 0, -1));
    let back = Cube::back();
    assert_eq!((back[0].nx, back[0].ny, back[0].nz), (0, 0, 1));
}
