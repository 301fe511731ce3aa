//! Dense voxel storage.
//!
//! A chunk is a fixed 16 x 256 x 16 grid of block identifiers, stored flat in
//! x-major order. Identifier 0 means empty air. A chunk also owns an optional
//! cached mesh; the cache is invalidated on every mutation, so a cached mesh
//! always matches the current grid.

use vstd::prelude::*;

use crate::mesh::{mesh_matches, Mesh};

verus! {

/// Chunk extent along the x axis, in blocks.
pub const CHUNK_W: usize = 16;

/// Chunk extent along the y axis (the full world height), in blocks.
pub const CHUNK_H: usize = 256;

/// Chunk extent along the z axis, in blocks.
pub const CHUNK_D: usize = 16;

/// Number of voxels in one chunk.
pub const CHUNK_VOLUME: usize = 65536;

/// Whether a local voxel coordinate lies inside the chunk's fixed extent.
pub open spec fn voxel_in_bounds(x: int, y: int, z: int) -> bool {
    0 <= x < 16 && 0 <= y < 256 && 0 <= z < 16
}

/// Flat index of local voxel coordinate `(x, y, z)`: x-major, then y, then z.
pub open spec fn voxel_index(x: int, y: int, z: int) -> int {
    (x * 256 + y) * 16 + z
}

/// The grid of a chunk that holds no blocks at all.
pub open spec fn empty_grid() -> Seq<u8> {
    Seq::new(65536, |i: int| 0u8)
}

/// Error of a voxel access outside the chunk's fixed extent.
#[derive(Clone, Copy, Debug, PartialEq, Eq, Structural)]
pub enum ChunkError {
    /// The local coordinate lies outside the 16 x 256 x 16 extent.
    IndexOutOfRange,
}

/// A dense 16 x 256 x 16 grid of block identifiers, with an optional cached
/// mesh.
pub struct Chunk {
    /// Block identifiers, indexed by `voxel_index`.
    pub blocks: Vec<u8>,
    /// Geometry built from the grid, kept only while it is current.
    pub mesh: Option<Mesh>,
}

impl Chunk {
    /// The grid of block identifiers, as a flat sequence in `voxel_index`
    /// order.
    pub open spec fn grid(&self) -> Seq<u8> {
        self.blocks@
    }

    /// The cached mesh, if one has been built since the last mutation.
    pub open spec fn mesh_cache(&self) -> Option<Mesh> {
        self.mesh
    }

    /// Well-formed: the grid has the full extent, and any cached mesh matches
    /// the current grid.
    pub open spec fn wf(&self) -> bool {
        &&& self.blocks@.len() == 65536
        &&& match self.mesh {
            Option::Some(m) => mesh_matches(self.blocks@, m),
            Option::None => true,
        }
    }

    /// A fully empty chunk: every voxel 0, no cached mesh.
    pub fn new() -> (c: Chunk)
        ensures
            c.wf(),
            c.grid() == empty_grid(),
            c.mesh_cache() is None,
    {
        let mut blocks: Vec<u8> = Vec::new();
        let mut i: usize = 0;
        while i < CHUNK_VOLUME
            invariant
                i <= 65536,
                blocks@.len() == i,
                forall|j: int| 0 <= j < i ==> blocks@[j] == 0u8,
            decreases 65536 - i,
        {
            blocks.push(0);
            i += 1;
        }
        proof {
            assert(blocks@ =~= empty_grid());
        }
        Chunk { blocks, mesh: None }
    }

    /// The block identifier at local coordinate `(x, y, z)`; a coordinate
    /// outside the fixed extent fails with `IndexOutOfRange`.
    pub fn get(&self, x: usize, y: usize, z: usize) -> (r: Result<u8, ChunkError>)
        requires
            self.wf(),
        ensures
            voxel_in_bounds(x as int, y as int, z as int) ==> r == Ok::<u8, ChunkError>(
                self.grid()[voxel_index(x as int, y as int, z as int)],
            ),
            !voxel_in_bounds(x as int, y as int, z as int) ==> r == Err::<u8, ChunkError>(
                ChunkError::IndexOutOfRange,
            ),
    {
        if x < CHUNK_W && y < CHUNK_H && z < CHUNK_D {
            Ok(self.blocks[(x * 256 + y) * 16 + z])
        } else {
            Err(ChunkError::IndexOutOfRange)
        }
    }

    /// Overwrites the block at `(x, y, z)` and drops the cached mesh, so a
    /// cached mesh never goes stale. A coordinate outside the fixed extent
    /// fails with `IndexOutOfRange` and changes nothing.
    pub fn set(&mut self, x: usize, y: usize, z: usize, id: u8) -> (r: Result<(), ChunkError>)
        requires
            old(self).wf(),
        ensures
            final(self).wf(),
            voxel_in_bounds(x as int, y as int, z as int) ==> {
                &&& r == Ok::<(), ChunkError>(())
                &&& final(self).grid() == old(self).grid().update(
                    voxel_index(x as int, y as int, z as int),
                    id,
                )
                &&& final(self).mesh_cache() is None
            },
            !voxel_in_bounds(x as int, y as int, z as int) ==> {
                &&& r == Err::<(), ChunkError>(ChunkError::IndexOutOfRange)
                &&& *final(self) == *old(self)
            },
    {
        if x < CHUNK_W && y < CHUNK_H && z < CHUNK_D {
            let i: usize = (x * 256 + y) * 16 + z;
            self.blocks.set(i, id);
            self.mesh = None;
            Ok(())
        } else {
            Err(ChunkError::IndexOutOfRange)
        }
    }
}

impl Default for Chunk {
    /// Same as `Chunk::new`: a fully empty chunk.
    fn default() -> (c: Chunk)
        ensures
            c.wf(),
            c.grid() == empty_grid(),
            c.mesh_cache() is None,
    {
        Chunk::new()
    }
}

} // verus!
