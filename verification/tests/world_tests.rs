//! The chunk manager: lazy creation, lookup, registry resolution.

use voxel_world::chunk::Chunk;
use voxel_world::world::{BlockType, World};

#[test]
fn fresh_world_query_self_heals() {
    // A query on a world with no chunks must not fail: it creates chunk
    // (0, 0) empty, reads block identifier 0, and 0 is never registered.
    let mut world = World::new();
    assert!(!world.chunk_exists(0, 0));
    let looked_up = world.block_at(5, 0, 5);
    assert_eq!(looked_up, None);
    assert!(world.chunk_exists(0, 0));
}

#[test]
fn negative_world_coordinates_address_negative_chunks() {
    let mut world = World::new();
    world.block_at(-1, 0, -1);
    assert!(world.chunk_exists(-1, -1));
    assert!(!world.chunk_exists(0, 0));
    world.block_at(-17, 0, 5);
    assert!(world.chunk_exists(-2, 0));
}

#[test]
fn registered_block_resolves_to_its_type() {
    let mut world = World::new();
    let mut contents = Chunk::new();
    contents.set(5, 10, 5, 1).unwrap();
    world.generate_chunk(0, 0, contents);
    assert_eq!(world.block_at(5, 10, 5), Some(BlockType { id: 1 }));
    assert_eq!(world.block_at(5, 11, 5), None);
}

#[test]
fn unregistered_nonzero_identifier_reads_as_no_value() {
    let mut world = World::new();
    let mut contents = Chunk::new();
    contents.set(2, 30, 3, 200).unwrap();
    world.generate_chunk(0, 0, contents);
    assert_eq!(world.block_at(2, 30, 3), None);
}

#[test]
fn block_in_a_negative_chunk_is_found() {
    let mut world = World::new();
    let mut contents = Chunk::new();
    // World x = -1 lies in chunk -1 at local x = 15.
    contents.set(15, 10, 0, 1).unwrap();
    world.generate_chunk(-1, 0, contents);
    assert_eq!(world.block_at(-1, 10, 0), Some(BlockType { id: 1 }));
}

#[test]
fn vertical_coordinate_outside_the_world_reads_as_no_block() {
    let mut world = World::new();
    let mut contents = Chunk::new();
    contents.set(5, 10, 5, 1).unwrap();
    world.generate_chunk(0, 0, contents);
    assert_eq!(world.block_at(5, -1, 5), None);
    assert_eq!(world.block_at(5, 256, 5), None);
    assert_eq!(world.block_at(5, 10, 5), Some(BlockType { id: 1 }));
}

#[test]
fn chunk_at_pos_finds_the_containing_chunk() {
    let mut world = World::new();
    assert!(world.chunk_at_pos(20, 3).is_none());
    world.chunk_at_pos_create(20, 3);
    assert!(world.chunk_exists(1, 0));
    let chunk = world.chunk_at_pos(20, 3).expect("chunk was created");
    assert_eq!(chunk.get(0, 0, 0), Ok(0));
    // Other positions in the same chunk resolve to it as well.
    assert!(world.chunk_at_pos(31, 15).is_some());
    assert!(world.chunk_at_pos(32, 0).is_none());
}

#[test]
fn chunk_creation_is_idempotent() {
    let mut world = World::new();
    world.chunk_at_pos_create(5, 5);
    world.chunk_at_pos_create(7, 2);
    world.chunk_at_pos_create(5, 5);
    assert_eq!(world.chunks.len(), 1);
}

#[test]
fn create_empty_chunk_replaces_existing_contents() {
    let mut world = World::new();
    let mut contents = Chunk::new();
    contents.set(5, 10, 5, 1).unwrap();
    world.generate_chunk(0, 0, contents);
    assert_eq!(world.block_at(5, 10, 5), Some(BlockType { id: 1 }));
    world.create_empty_chunk(0, 0);
    assert_eq!(world.chunks.len(), 1);
    assert_eq!(world.block_at(5, 10, 5), None);
}

#[test]
fn generate_chunk_replaces_an_existing_entry() {
    let mut world = World::new();
    world.create_empty_chunk(2, 3);
    let mut contents = Chunk::new();
    contents.set(0, 0, 0, 1).unwrap();
    world.generate_chunk(2, 3, contents);
    assert_eq!(world.chunks.len(), 1);
    assert_eq!(world.block_at(32, 0, 48), Some(BlockType { id: 1 }));
}
