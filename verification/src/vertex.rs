//! Mesh vertices.
//!
//! Every vertex the face-culling mesh builder emits lies on the integer block
//! lattice: positions are whole block coordinates, normals are unit axis
//! vectors, and texture coordinates are corners of the unit square. The fields
//! are therefore exact integers; a renderer converts them to its own floating
//! point formats.

use vstd::prelude::*;

verus! {

/// One mesh vertex: integer lattice position, unit axis normal, and a corner
/// of the unit texture square.
#[derive(Clone, Copy, Debug, PartialEq, Eq, Structural)]
pub struct Vertex {
    /// Position, in blocks.
    pub px: i32,
    pub py: i32,
    pub pz: i32,
    /// Outward face normal; each component is -1, 0 or 1.
    pub nx: i32,
    pub ny: i32,
    pub nz: i32,
    /// Texture coordinate; each component is 0 or 1.
    pub tu: i32,
    pub tv: i32,
}

impl Vertex {
    /// This vertex translated by `(dx, dy, dz)` blocks; normal and texture
    /// coordinates are unchanged.
    pub fn translated(self, dx: i32, dy: i32, dz: i32) -> (r: Vertex)
        requires
            i32::MIN <= self.px + dx <= i32::MAX,
            i32::MIN <= self.py + dy <= i32::MAX,
            i32::MIN <= self.pz + dz <= i32::MAX,
        ensures
            r == (Vertex {
                px: (self.px + dx) as i32,
                py: (self.py + dy) as i32,
                pz: (self.pz + dz) as i32,
                ..self
            }),
    {
        Vertex { px: self.px + dx, py: self.py + dy, pz: self.pz + dz, ..self }
    }
}

} // verus!
