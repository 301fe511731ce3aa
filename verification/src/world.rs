//! World-coordinate addressing and the chunk manager.
//!
//! The world is an infinite horizontal grid of chunks, each spanning
//! `16 x 256 x 16` blocks. A world coordinate maps to a chunk coordinate by
//! floor division and to a local coordinate by true modulo, so negative
//! coordinates address chunks correctly.

use vstd::prelude::*;
use vstd::arithmetic::div_mod::lemma_fundamental_div_mod;

use crate::chunk::{empty_grid, Chunk};
use crate::fixed::lemma_truncating_vs_euclidean;
use crate::mesh::block_at_local;

verus! {

/// Horizontal extent of a chunk in blocks, along both the x and z axes.
pub const CHUNK_EXTENT: i32 = 16;

/// The chunk coordinate whose chunk contains world coordinate `w`:
/// floor division by the chunk extent (Euclidean, so `-1` maps to chunk `-1`).
pub open spec fn chunk_of(w: int) -> int {
    w / 16
}

/// The local coordinate of world coordinate `w` inside its chunk:
/// the true modulo, always in `[0, 16)`, even for negative `w`.
pub open spec fn local_of(w: int) -> int {
    w % 16
}

/// Chunk and local coordinates decompose a world coordinate exactly:
/// the local part lies in `[0, 16)` and `chunk_of(w) * 16 + local_of(w) == w`.
pub proof fn lemma_chunk_local_decompose(w: int)
    ensures
        0 <= local_of(w) < 16,
        chunk_of(w) * 16 + local_of(w) == w,
{
    lemma_fundamental_div_mod(w, 16);
}

/// Returns the chunk coordinate containing world coordinate `w`:
/// floor division by the chunk extent, correct for negative coordinates.
pub fn chunk_coord_of(w: i32) -> (c: i32)
    ensures
        c == chunk_of(w as int),
{
    let t: i32 = w / 16;
    proof {
        if w < 0 {
            lemma_truncating_vs_euclidean(w as int, 16);
        }
    }
    if w % 16 != 0 && w < 0 {
        t - 1
    } else {
        t
    }
}

/// Returns the local coordinate of world coordinate `w` inside its chunk:
/// the true modulo, always in `[0, 16)`, correct for negative coordinates.
pub fn local_coord_of(w: i32) -> (l: i32)
    ensures
        l == local_of(w as int),
{
    let r: i32 = w % 16;
    proof {
        if w < 0 {
            lemma_truncating_vs_euclidean(w as int, 16);
        }
    }
    if r < 0 {
        r + 16
    } else {
        r
    }
}

/// A chunk's position in the infinite horizontal grid of chunks.
#[derive(Clone, Copy, Debug, PartialEq, Eq, Structural)]
pub struct ChunkCoord {
    pub x: i32,
    pub z: i32,
}

/// Metadata of a registered block type; currently just its identity.
#[derive(Clone, Copy, Debug, PartialEq, Eq, Structural)]
pub struct BlockType {
    pub id: u8,
}

/// Whether an entry's coordinate is exactly `(cx, cz)`.
pub open spec fn coord_matches(c: ChunkCoord, cx: int, cz: int) -> bool {
    c.x == cx && c.z == cz
}

/// The world: chunks keyed by chunk coordinate (keys unique, insertion order
/// irrelevant) and the registry of block types.
pub struct World {
    /// The chunk store; coordinates are unique.
    pub chunks: Vec<(ChunkCoord, Chunk)>,
    /// Registered block identifiers; 0 is never registered.
    pub block_types: Vec<u8>,
}

impl World {
    /// Whether a chunk exists at chunk coordinate `(cx, cz)`.
    pub open spec fn has_chunk(&self, cx: int, cz: int) -> bool {
        exists|i: int|
            0 <= i < self.chunks@.len() && coord_matches(#[trigger] self.chunks@[i].0, cx, cz)
    }

    /// The store index of the chunk at `(cx, cz)`, when one exists.
    pub open spec fn chunk_index_of(&self, cx: int, cz: int) -> int {
        choose|i: int|
            0 <= i < self.chunks@.len() && coord_matches(#[trigger] self.chunks@[i].0, cx, cz)
    }

    /// The grid of the chunk at `(cx, cz)`, when one exists.
    pub open spec fn grid_at(&self, cx: int, cz: int) -> Seq<u8> {
        self.chunks@[self.chunk_index_of(cx, cz)].1.grid()
    }

    /// The world's chunks as a map from chunk coordinate to grid.
    pub open spec fn chunk_map(&self) -> Map<(int, int), Seq<u8>> {
        Map::new(
            |c: (int, int)| self.has_chunk(c.0, c.1),
            |c: (int, int)| self.grid_at(c.0, c.1),
        )
    }

    /// Whether the identifier is registered in the block-type registry.
    pub open spec fn registered(&self, id: u8) -> bool {
        self.block_types@.contains(id)
    }

    /// Well-formed: chunk coordinates are unique, every stored chunk is
    /// well-formed, and identifier 0 is never registered.
    pub open spec fn wf(&self) -> bool {
        &&& forall|i: int, j: int|
            0 <= i < j < self.chunks@.len() ==> (#[trigger] self.chunks@[i]).0 != (
            #[trigger] self.chunks@[j]).0
        &&& forall|i: int| 0 <= i < self.chunks@.len() ==> (#[trigger] self.chunks@[i]).1.wf()
        &&& forall|i: int|
            0 <= i < self.block_types@.len() ==> #[trigger] self.block_types@[i] != 0
    }

    /// Two store indices holding the same coordinate are the same index.
    proof fn lemma_unique_match(&self, cx: int, cz: int, i: int, j: int)
        requires
            self.wf(),
            0 <= i < self.chunks@.len(),
            0 <= j < self.chunks@.len(),
            coord_matches(self.chunks@[i].0, cx, cz),
            coord_matches(self.chunks@[j].0, cx, cz),
        ensures
            i == j,
    {
        if i < j {
            assert(self.chunks@[i].0 != self.chunks@[j].0);
        } else if j < i {
            assert(self.chunks@[j].0 != self.chunks@[i].0);
        }
    }

    /// The entry at store index `i` is the one the chunk map reads for its
    /// coordinate.
    proof fn lemma_index_resolves(&self, i: int)
        requires
            self.wf(),
            0 <= i < self.chunks@.len(),
        ensures
            self.has_chunk(self.chunks@[i].0.x as int, self.chunks@[i].0.z as int),
            self.chunk_index_of(self.chunks@[i].0.x as int, self.chunks@[i].0.z as int) == i,
            self.grid_at(self.chunks@[i].0.x as int, self.chunks@[i].0.z as int)
                == self.chunks@[i].1.grid(),
    {
        let cx = self.chunks@[i].0.x as int;
        let cz = self.chunks@[i].0.z as int;
        assert(coord_matches(self.chunks@[i].0, cx, cz));
        assert(self.has_chunk(cx, cz));
        let j = self.chunk_index_of(cx, cz);
        assert(0 <= j < self.chunks@.len() && coord_matches(self.chunks@[j].0, cx, cz));
        self.lemma_unique_match(cx, cz, i, j);
    }

    /// Appending an entry with a fresh coordinate adds exactly that entry to
    /// the chunk map.
    proof fn lemma_chunk_map_push(pre: World, post: World, entry: (ChunkCoord, Chunk))
        requires
            pre.wf(),
            entry.1.wf(),
            !pre.has_chunk(entry.0.x as int, entry.0.z as int),
            post.chunks@ == pre.chunks@.push(entry),
            post.block_types@ == pre.block_types@,
        ensures
            post.wf(),
            post.chunk_map() == pre.chunk_map().insert(
                (entry.0.x as int, entry.0.z as int),
                entry.1.grid(),
            ),
    {
        let key = (entry.0.x as int, entry.0.z as int);
        let n = pre.chunks@.len() as int;
        assert forall|i: int, j: int| 0 <= i < j < post.chunks@.len() implies (
        #[trigger] post.chunks@[i]).0 != (#[trigger] post.chunks@[j]).0 by {
            if j < n {
                assert(pre.chunks@[i].0 != pre.chunks@[j].0);
            } else {
                if post.chunks@[i].0 == entry.0 {
                    assert(coord_matches(pre.chunks@[i].0, key.0, key.1));
                    assert(pre.has_chunk(key.0, key.1));
                }
            }
        };
        assert forall|c: (int, int)| #[trigger] post.has_chunk(c.0, c.1) implies (c == key
            || pre.has_chunk(c.0, c.1)) by {
            let i = choose|i: int|
                0 <= i < post.chunks@.len() && coord_matches(#[trigger] post.chunks@[i].0, c.0, c.1);
            if i < n {
                assert(coord_matches(pre.chunks@[i].0, c.0, c.1));
            } else {
                assert(coord_matches(entry.0, c.0, c.1));
            }
        };
        assert forall|c: (int, int)| c == key || pre.has_chunk(c.0, c.1) implies
            #[trigger] post.has_chunk(c.0, c.1) by {
            if c == key {
                assert(coord_matches(post.chunks@[n].0, c.0, c.1));
            } else {
                let i = choose|i: int|
                    0 <= i < pre.chunks@.len() && coord_matches(
                        #[trigger] pre.chunks@[i].0,
                        c.0,
                        c.1,
                    );
                assert(coord_matches(post.chunks@[i].0, c.0, c.1));
            }
        };
        assert(post.grid_at(key.0, key.1) == entry.1.grid()) by {
            post.lemma_index_resolves(n);
        };
        assert forall|c: (int, int)| pre.has_chunk(c.0, c.1) && c != key implies
            #[trigger] post.grid_at(c.0, c.1) == pre.grid_at(c.0, c.1) by {
            let i = pre.chunk_index_of(c.0, c.1);
            assert(0 <= i < n && coord_matches(pre.chunks@[i].0, c.0, c.1));
            assert(coord_matches(post.chunks@[i].0, c.0, c.1));
            let j = post.chunk_index_of(c.0, c.1);
            assert(0 <= j < post.chunks@.len() && coord_matches(post.chunks@[j].0, c.0, c.1));
            if j == n {
                assert(coord_matches(entry.0, c.0, c.1));
                assert(false);
            }
            pre.lemma_unique_match(c.0, c.1, i, j);
        };
        assert(post.chunk_map() =~= pre.chunk_map().insert(key, entry.1.grid()));
    }

    /// Replacing the entry at a coordinate's index updates exactly that entry
    /// of the chunk map.
    proof fn lemma_chunk_map_set(pre: World, post: World, i: int, entry: (ChunkCoord, Chunk))
        requires
            pre.wf(),
            entry.1.wf(),
            0 <= i < pre.chunks@.len(),
            entry.0 == pre.chunks@[i].0,
            post.chunks@ == pre.chunks@.update(i, entry),
            post.block_types@ == pre.block_types@,
        ensures
            post.wf(),
            post.chunk_map() == pre.chunk_map().insert(
                (entry.0.x as int, entry.0.z as int),
                entry.1.grid(),
            ),
    {
        let key = (entry.0.x as int, entry.0.z as int);
        let n = pre.chunks@.len() as int;
        assert forall|a: int, b: int| 0 <= a < b < post.chunks@.len() implies (
        #[trigger] post.chunks@[a]).0 != (#[trigger] post.chunks@[b]).0 by {
            assert(post.chunks@[a].0 == pre.chunks@[a].0);
            assert(post.chunks@[b].0 == pre.chunks@[b].0);
            assert(pre.chunks@[a].0 != pre.chunks@[b].0);
        };
        assert forall|c: (int, int)| #[trigger] post.has_chunk(c.0, c.1) implies (c == key
            || pre.has_chunk(c.0, c.1)) by {
            let a = choose|a: int|
                0 <= a < post.chunks@.len() && coord_matches(#[trigger] post.chunks@[a].0, c.0, c.1);
            assert(coord_matches(pre.chunks@[a].0, c.0, c.1));
        };
        assert forall|c: (int, int)| c == key || pre.has_chunk(c.0, c.1) implies
            #[trigger] post.has_chunk(c.0, c.1) by {
            if c == key {
                assert(coord_matches(post.chunks@[i].0, c.0, c.1));
            } else {
                let a = choose|a: int|
                    0 <= a < pre.chunks@.len() && coord_matches(
                        #[trigger] pre.chunks@[a].0,
                        c.0,
                        c.1,
                    );
                assert(coord_matches(post.chunks@[a].0, c.0, c.1));
            }
        };
        assert(post.grid_at(key.0, key.1) == entry.1.grid()) by {
            post.lemma_index_resolves(i);
        };
        assert forall|c: (int, int)| pre.has_chunk(c.0, c.1) && c != key implies
            #[trigger] post.grid_at(c.0, c.1) == pre.grid_at(c.0, c.1) by {
            let a = pre.chunk_index_of(c.0, c.1);
            assert(0 <= a < n && coord_matches(pre.chunks@[a].0, c.0, c.1));
            if a == i {
                assert(c == key);
            }
            assert(coord_matches(post.chunks@[a].0, c.0, c.1));
            let b = post.chunk_index_of(c.0, c.1);
            assert(0 <= b < post.chunks@.len() && coord_matches(post.chunks@[b].0, c.0, c.1));
            if b == i {
                assert(coord_matches(entry.0, c.0, c.1));
                assert(c == key);
            }
            pre.lemma_unique_match(c.0, c.1, a, b);
        };
        assert(post.chunk_map() =~= pre.chunk_map().insert(key, entry.1.grid()));
    }

    /// A fresh world: no chunks, and exactly block identifier 1 registered.
    pub fn new() -> (w: World)
        ensures
            w.wf(),
            w.chunks@.len() == 0,
            w.chunk_map() == Map::<(int, int), Seq<u8>>::empty(),
            w.registered(1),
            forall|id: u8| id != 1 ==> !w.registered(id),
    {
        let mut block_types: Vec<u8> = Vec::new();
        block_types.push(1);
        let w = World { chunks: Vec::new(), block_types };
        proof {
            assert(w.chunk_map() =~= Map::<(int, int), Seq<u8>>::empty());
            assert(w.block_types@[0] == 1u8);
            assert forall|id: u8| id != 1 implies !w.registered(id) by {
                assert(w.block_types@.len() == 1);
            };
        }
        w
    }

    /// The store index of the chunk at chunk coordinate `(chunk_x, chunk_z)`,
    /// if one exists.
    fn find_chunk(&self, chunk_x: i32, chunk_z: i32) -> (r: Option<usize>)
        ensures
            match r {
                Some(i) => {
                    &&& i < self.chunks@.len()
                    &&& coord_matches(self.chunks@[i as int].0, chunk_x as int, chunk_z as int)
                    &&& self.has_chunk(chunk_x as int, chunk_z as int)
                },
                None => !self.has_chunk(chunk_x as int, chunk_z as int),
            },
    {
        let mut i: usize = 0;
        while i < self.chunks.len()
            invariant
                i <= self.chunks@.len(),
                forall|j: int|
                    0 <= j < i ==> !coord_matches(
                        (#[trigger] self.chunks@[j]).0,
                        chunk_x as int,
                        chunk_z as int,
                    ),
            decreases self.chunks@.len() - i,
        {
            if self.chunks[i].0.x == chunk_x && self.chunks[i].0.z == chunk_z {
                proof {
                    assert(coord_matches(self.chunks@[i as int].0, chunk_x as int, chunk_z as int));
                }
                return Some(i);
            }
            i += 1;
        }
        None
    }

    /// Whether a chunk exists at chunk coordinate `(chunk_x, chunk_z)`; no
    /// side effects.
    pub fn chunk_exists(&self, chunk_x: i32, chunk_z: i32) -> (r: bool)
        ensures
            r == self.has_chunk(chunk_x as int, chunk_z as int),
    {
        match self.find_chunk(chunk_x, chunk_z) {
            Some(_) => true,
            None => false,
        }
    }

    /// The chunk containing world position `(x, _, z)`, if it exists.
    pub fn chunk_at_pos(&self, x: i32, z: i32) -> (r: Option<&Chunk>)
        requires
            self.wf(),
        ensures
            match r {
                Some(c) => {
                    &&& self.has_chunk(chunk_of(x as int), chunk_of(z as int))
                    &&& c.wf()
                    &&& c.grid() == self.grid_at(chunk_of(x as int), chunk_of(z as int))
                },
                None => !self.has_chunk(chunk_of(x as int), chunk_of(z as int)),
            },
    {
        let cx = chunk_coord_of(x);
        let cz = chunk_coord_of(z);
        match self.find_chunk(cx, cz) {
            Some(i) => {
                proof {
                    self.lemma_index_resolves(i as int);
                }
                Some(&self.chunks[i].1)
            },
            None => None,
        }
    }

    /// Installs externally generated contents as the chunk at chunk
    /// coordinate `(chunk_x, chunk_z)`, replacing any chunk already there.
    /// The terrain generator itself is an external collaborator; this takes
    /// its fully populated grid.
    pub fn generate_chunk(&mut self, chunk_x: i32, chunk_z: i32, contents: Chunk)
        requires
            old(self).wf(),
            contents.wf(),
        ensures
            final(self).wf(),
            final(self).block_types@ == old(self).block_types@,
            final(self).chunk_map() == old(self).chunk_map().insert(
                (chunk_x as int, chunk_z as int),
                contents.grid(),
            ),
    {
        let ghost pre = *self;
        let ghost g = contents.grid();
        let entry = (ChunkCoord { x: chunk_x, z: chunk_z }, contents);
        match self.find_chunk(chunk_x, chunk_z) {
            Some(i) => {
                self.chunks.set(i, entry);
                proof {
                    World::lemma_chunk_map_set(
                        pre,
                        *self,
                        i as int,
                        (ChunkCoord { x: chunk_x, z: chunk_z }, self.chunks@[i as int].1),
                    );
                }
            },
            None => {
                self.chunks.push(entry);
                proof {
                    let n = pre.chunks@.len() as int;
                    World::lemma_chunk_map_push(
                        pre,
                        *self,
                        (ChunkCoord { x: chunk_x, z: chunk_z }, self.chunks@[n].1),
                    );
                }
            },
        }
    }

    /// Inserts an empty chunk at chunk coordinate `(chunk_x, chunk_z)`,
    /// replacing any chunk already there.
    pub fn create_empty_chunk(&mut self, chunk_x: i32, chunk_z: i32)
        requires
            old(self).wf(),
        ensures
            final(self).wf(),
            final(self).block_types@ == old(self).block_types@,
            final(self).chunk_map() == old(self).chunk_map().insert(
                (chunk_x as int, chunk_z as int),
                empty_grid(),
            ),
    {
        self.generate_chunk(chunk_x, chunk_z, Chunk::new());
    }

    /// Ensures the chunk containing world position `(x, _, z)` exists,
    /// creating it empty if absent; idempotent.
    pub fn chunk_at_pos_create(&mut self, x: i32, z: i32)
        requires
            old(self).wf(),
        ensures
            final(self).wf(),
            final(self).block_types@ == old(self).block_types@,
            final(self).has_chunk(chunk_of(x as int), chunk_of(z as int)),
            final(self).chunk_map() == if old(self).has_chunk(
                chunk_of(x as int),
                chunk_of(z as int),
            ) {
                old(self).chunk_map()
            } else {
                old(self).chunk_map().insert(
                    (chunk_of(x as int), chunk_of(z as int)),
                    empty_grid(),
                )
            },
    {
        let cx = chunk_coord_of(x);
        let cz = chunk_coord_of(z);
        if !self.chunk_exists(cx, cz) {
            self.create_empty_chunk(cx, cz);
            proof {
                assert(self.chunk_map().dom().contains((cx as int, cz as int)));
            }
        }
    }

    /// Whether the identifier is registered.
    fn is_registered(&self, id: u8) -> (r: bool)
        ensures
            r == self.registered(id),
    {
        let mut i: usize = 0;
        while i < self.block_types.len()
            invariant
                i <= self.block_types@.len(),
                forall|j: int| 0 <= j < i ==> #[trigger] self.block_types@[j] != id,
            decreases self.block_types@.len() - i,
        {
            if self.block_types[i] == id {
                return true;
            }
            i += 1;
        }
        false
    }
}

/// What `block_at` returns once the containing chunk exists: the registered
/// block type at the world coordinate, or nothing if the vertical coordinate
/// lies outside the world or the identifier is unregistered (identifier 0,
/// empty air, is never registered).
pub open spec fn block_at_result(w: World, x: int, y: int, z: int) -> Option<BlockType> {
    if 0 <= y < 256 {
        let id = block_at_local(w.grid_at(chunk_of(x), chunk_of(z)), local_of(x), y, local_of(z));
        if w.registered(id) {
            Some(BlockType { id })
        } else {
            None
        }
    } else {
        None
    }
}

impl World {
    /// The registered block type at world coordinate `(x, y, z)`. Total and
    /// self-healing: the containing chunk is created empty when absent, a
    /// vertical coordinate outside `[0, 256)` reads as no block, and an
    /// unregistered identifier (including 0, empty air) reads as no block.
    pub fn block_at(&mut self, x: i32, y: i32, z: i32) -> (r: Option<BlockType>)
        requires
            old(self).wf(),
        ensures
            final(self).wf(),
            final(self).block_types@ == old(self).block_types@,
            final(self).chunk_map() == if old(self).has_chunk(
                chunk_of(x as int),
                chunk_of(z as int),
            ) {
                old(self).chunk_map()
            } else {
                old(self).chunk_map().insert(
                    (chunk_of(x as int), chunk_of(z as int)),
                    empty_grid(),
                )
            },
            r == block_at_result(*final(self), x as int, y as int, z as int),
    {
        self.chunk_at_pos_create(x, z);
        if y < 0 || y >= 256 {
            return None;
        }
        let cx = chunk_coord_of(x);
        let cz = chunk_coord_of(z);
        let lx = local_coord_of(x);
        let lz = local_coord_of(z);
        let i = match self.find_chunk(cx, cz) {
            Some(i) => i,
            None => {
                // Unreachable: the chunk was just ensured to exist.
                proof {
                    assert(false);
                }
                0
            },
        };
        proof {
            self.lemma_index_resolves(i as int);
            lemma_chunk_local_decompose(x as int);
            lemma_chunk_local_decompose(z as int);
        }
        let id = match self.chunks[i].1.get(lx as usize, y as usize, lz as usize) {
            Ok(id) => id,
            Err(_) => {
                // Unreachable: the local coordinate lies inside the extent.
                proof {
                    assert(false);
                }
                0
            },
        };
        if self.is_registered(id) {
            Some(BlockType { id })
        } else {
            None
        }
    }
}

} // verus!
