//! Face-culling mesh generation.
//!
//! For every occupied voxel the builder tests its six axis-aligned neighbours;
//! a face is emitted when the neighbour lies outside the chunk (boundary faces
//! are always drawn, since neighbouring chunks are not consulted) or is empty.
//! Each face is a quad of four vertices and two counter-clockwise triangles.
//! Emission order is fixed: x outer, then y, then z, then direction
//! (-x, +x, -y, +y, -z, +z), so the produced geometry is a function of the
//! grid alone.

use vstd::prelude::*;
use vstd::arithmetic::div_mod::{lemma_fundamental_div_mod, lemma_mod_bound};

use crate::chunk::{voxel_in_bounds, voxel_index, Chunk};
use crate::cube::{dir_dx, dir_dy, dir_dz, template_vertex, Cube};
use crate::vertex::Vertex;

verus! {

/// A visible voxel face: the voxel's local coordinate plus a direction index
/// in 0..6 (-x, +x, -y, +y, -z, +z).
#[derive(Clone, Copy, Debug, PartialEq, Eq, Structural)]
pub struct Face {
    pub x: usize,
    pub y: usize,
    pub z: usize,
    pub dir: usize,
}

/// The block identifier at local coordinate `(x, y, z)` of grid `g`.
pub open spec fn block_at_local(g: Seq<u8>, x: int, y: int, z: int) -> u8 {
    g[voxel_index(x, y, z)]
}

/// A face is visible when its voxel is occupied and the neighbour on that side
/// lies outside the chunk or is empty.
pub open spec fn face_visible(g: Seq<u8>, x: int, y: int, z: int, d: int) -> bool {
    &&& block_at_local(g, x, y, z) != 0
    &&& (!voxel_in_bounds(x + dir_dx(d), y + dir_dy(d), z + dir_dz(d)) || block_at_local(
        g,
        x + dir_dx(d),
        y + dir_dy(d),
        z + dir_dz(d),
    ) == 0)
}

/// The faces that direction `d` contributes for voxel `(x, y, z)`: one face
/// when visible, none otherwise.
pub open spec fn cell_step(g: Seq<u8>, x: int, y: int, z: int, d: int) -> Seq<Face> {
    if face_visible(g, x, y, z, d) {
        seq![Face { x: x as usize, y: y as usize, z: z as usize, dir: d as usize }]
    } else {
        Seq::empty()
    }
}

/// The visible faces of voxel `(x, y, z)` among directions `0..d`, in
/// direction order.
pub open spec fn cell_faces_upto(g: Seq<u8>, x: int, y: int, z: int, d: int) -> Seq<Face>
    decreases d,
{
    if d <= 0 {
        Seq::empty()
    } else {
        cell_faces_upto(g, x, y, z, d - 1) + cell_step(g, x, y, z, d - 1)
    }
}

/// All visible faces of voxel `(x, y, z)`, in direction order.
pub open spec fn cell_faces(g: Seq<u8>, x: int, y: int, z: int) -> Seq<Face> {
    cell_faces_upto(g, x, y, z, 6)
}

/// The visible faces of voxels `(x, y, 0..z)`, in emission order.
pub open spec fn faces_to_z(g: Seq<u8>, x: int, y: int, z: int) -> Seq<Face>
    decreases z,
{
    if z <= 0 {
        Seq::empty()
    } else {
        faces_to_z(g, x, y, z - 1) + cell_faces(g, x, y, z - 1)
    }
}

/// The visible faces of voxels `(x, 0..y, *)`, in emission order.
pub open spec fn faces_to_y(g: Seq<u8>, x: int, y: int) -> Seq<Face>
    decreases y,
{
    if y <= 0 {
        Seq::empty()
    } else {
        faces_to_y(g, x, y - 1) + faces_to_z(g, x, y - 1, 16)
    }
}

/// The visible faces of voxels `(0..x, *, *)`, in emission order.
pub open spec fn faces_to_x(g: Seq<u8>, x: int) -> Seq<Face>
    decreases x,
{
    if x <= 0 {
        Seq::empty()
    } else {
        faces_to_x(g, x - 1) + faces_to_y(g, x - 1, 256)
    }
}

/// All visible faces of grid `g`, in emission order: x outer, then y, then z,
/// then direction.
pub open spec fn mesh_faces(g: Seq<u8>) -> Seq<Face> {
    faces_to_x(g, 16)
}

/// The `k`-th vertex of the quad for face `f`: the face template translated by
/// the voxel's coordinate.
pub open spec fn quad_vertex(f: Face, k: int) -> Vertex {
    let t = template_vertex(f.dir as int, k);
    Vertex {
        px: (t.px + f.x) as i32,
        py: (t.py + f.y) as i32,
        pz: (t.pz + f.z) as i32,
        ..t
    }
}

/// Vertex offset `j` (0..6) within a quad of the two counter-clockwise
/// triangles covering it: 0, 1, 2 and 1, 3, 2.
pub open spec fn tri_offset(j: int) -> int {
    if j == 0 {
        0
    } else if j == 1 {
        1
    } else if j == 2 {
        2
    } else if j == 3 {
        1
    } else if j == 4 {
        3
    } else {
        2
    }
}

/// The `j`-th index entry of face number `k`: the face's vertex base `4 * k`
/// plus the triangle pattern offset.
pub open spec fn tri_index(k: int, j: int) -> u32 {
    (k * 4 + tri_offset(j)) as u32
}

/// All quad vertices of grid `g`, four per visible face, in face order.
pub open spec fn mesh_vertices(g: Seq<u8>) -> Seq<Vertex> {
    Seq::new(mesh_faces(g).len() * 4, |i: int| quad_vertex(mesh_faces(g)[i / 4], i % 4))
}

/// All triangle index entries of grid `g`, six per visible face, in face
/// order.
pub open spec fn mesh_indices(g: Seq<u8>) -> Seq<u32> {
    Seq::new(mesh_faces(g).len() * 6, |i: int| tri_index(i / 6, i % 6))
}

/// Renderable geometry of one chunk.
#[derive(Clone, Debug, PartialEq)]
pub struct Mesh {
    /// The visible faces, in emission order.
    pub faces: Vec<Face>,
    /// Four vertices per face, in face order.
    pub vertices: Vec<Vertex>,
    /// Six triangle index entries per face, in face order.
    pub indices: Vec<u32>,
}

/// The geometry that the face-culling algorithm produces for grid `g`; it is
/// a function of the grid alone.
pub open spec fn mesh_matches(g: Seq<u8>, m: Mesh) -> bool {
    &&& m.faces@ == mesh_faces(g)
    &&& m.vertices@ == mesh_vertices(g)
    &&& m.indices@ == mesh_indices(g)
}

/// Vertices and index entries line up with the face list: four quad vertices
/// and six index entries per face.
spec fn geometry_consistent(fs: Seq<Face>, vs: Seq<Vertex>, is: Seq<u32>) -> bool {
    &&& vs.len() == fs.len() * 4
    &&& is.len() == fs.len() * 6
    &&& (forall|k: int, j: int|
        0 <= k < fs.len() && 0 <= j < 4 ==> vs[k * 4 + j] == #[trigger] quad_vertex(fs[k], j))
    &&& (forall|k: int, j: int|
        0 <= k < fs.len() && 0 <= j < 6 ==> is[k * 6 + j] == #[trigger] tri_index(k, j))
}

/// A consistent geometry is determined by its face list.
proof fn lemma_geometry_determined(fs: Seq<Face>, vs: Seq<Vertex>, is: Seq<u32>)
    requires
        geometry_consistent(fs, vs, is),
    ensures
        vs == Seq::new(fs.len() * 4, |i: int| quad_vertex(fs[i / 4], i % 4)),
        is == Seq::new(fs.len() * 6, |i: int| tri_index(i / 6, i % 6)),
{
    assert forall|i: int| 0 <= i < fs.len() * 4 implies vs[i] == quad_vertex(fs[i / 4], i % 4) by {
        lemma_fundamental_div_mod(i, 4);
        lemma_mod_bound(i, 4);
        let k = i / 4;
        let j = i % 4;
        assert(0 <= k < fs.len());
        assert(vs[k * 4 + j] == quad_vertex(fs[k], j));
    };
    assert(vs =~= Seq::new(fs.len() * 4, |i: int| quad_vertex(fs[i / 4], i % 4)));
    assert forall|i: int| 0 <= i < fs.len() * 6 implies is[i] == tri_index(i / 6, i % 6) by {
        lemma_fundamental_div_mod(i, 6);
        lemma_mod_bound(i, 6);
        let k = i / 6;
        let j = i % 6;
        assert(0 <= k < fs.len());
        assert(is[k * 6 + j] == tri_index(k, j));
    };
    assert(is =~= Seq::new(fs.len() * 6, |i: int| tri_index(i / 6, i % 6)));
}

/// At most `d` faces are visible among the first `d` directions of one voxel.
proof fn lemma_cell_faces_upto_len(g: Seq<u8>, x: int, y: int, z: int, d: int)
    requires
        0 <= d <= 6,
    ensures
        cell_faces_upto(g, x, y, z, d).len() <= d,
    decreases d,
{
    if d > 0 {
        lemma_cell_faces_upto_len(g, x, y, z, d - 1);
    }
}

/// At most 6 faces per voxel of a z column.
proof fn lemma_faces_to_z_len(g: Seq<u8>, x: int, y: int, z: int)
    requires
        0 <= z <= 16,
    ensures
        faces_to_z(g, x, y, z).len() <= 6 * z,
    decreases z,
{
    if z > 0 {
        lemma_faces_to_z_len(g, x, y, z - 1);
        lemma_cell_faces_upto_len(g, x, y, z - 1, 6);
    }
}

/// At most 96 faces per y layer of an x slice.
proof fn lemma_faces_to_y_len(g: Seq<u8>, x: int, y: int)
    requires
        0 <= y <= 256,
    ensures
        faces_to_y(g, x, y).len() <= 96 * y,
    decreases y,
{
    if y > 0 {
        lemma_faces_to_y_len(g, x, y - 1);
        lemma_faces_to_z_len(g, x, y - 1, 16);
    }
}

/// At most 24576 faces per x slice.
proof fn lemma_faces_to_x_len(g: Seq<u8>, x: int)
    requires
        0 <= x <= 16,
    ensures
        faces_to_x(g, x).len() <= 24576 * x,
    decreases x,
{
    if x > 0 {
        lemma_faces_to_x_len(g, x - 1);
        lemma_faces_to_y_len(g, x - 1, 256);
    }
}

/// An empty voxel contributes no faces.
proof fn lemma_cell_faces_empty(g: Seq<u8>, x: int, y: int, z: int, d: int)
    requires
        0 <= d <= 6,
        block_at_local(g, x, y, z) == 0,
    ensures
        cell_faces_upto(g, x, y, z, d) == Seq::<Face>::empty(),
    decreases d,
{
    if d > 0 {
        lemma_cell_faces_empty(g, x, y, z, d - 1);
        assert(!face_visible(g, x, y, z, d - 1));
        assert(cell_faces_upto(g, x, y, z, d) =~= Seq::<Face>::empty());
    }
}

/// A grid with exactly one occupied voxel, at `(x0, y0, z0)`.
pub open spec fn single_voxel_grid(g: Seq<u8>, x0: int, y0: int, z0: int) -> bool {
    &&& g.len() == 65536
    &&& voxel_in_bounds(x0, y0, z0)
    &&& block_at_local(g, x0, y0, z0) != 0
    &&& forall|x: int, y: int, z: int|
        voxel_in_bounds(x, y, z) && !(x == x0 && y == y0 && z == z0)
            ==> #[trigger] block_at_local(g, x, y, z) == 0
}

/// All six faces of an isolated voxel are visible.
proof fn lemma_single_cell_six(g: Seq<u8>, x0: int, y0: int, z0: int)
    requires
        single_voxel_grid(g, x0, y0, z0),
    ensures
        cell_faces(g, x0, y0, z0).len() == 6,
{
    assert(face_visible(g, x0, y0, z0, 0));
    assert(face_visible(g, x0, y0, z0, 1));
    assert(face_visible(g, x0, y0, z0, 2));
    assert(face_visible(g, x0, y0, z0, 3));
    assert(face_visible(g, x0, y0, z0, 4));
    assert(face_visible(g, x0, y0, z0, 5));
    assert(cell_faces_upto(g, x0, y0, z0, 0).len() == 0);
    assert(cell_faces_upto(g, x0, y0, z0, 1).len() == 1);
    assert(cell_faces_upto(g, x0, y0, z0, 2).len() == 2);
    assert(cell_faces_upto(g, x0, y0, z0, 3).len() == 3);
    assert(cell_faces_upto(g, x0, y0, z0, 4).len() == 4);
    assert(cell_faces_upto(g, x0, y0, z0, 5).len() == 5);
    assert(cell_faces_upto(g, x0, y0, z0, 6).len() == 6);
}

/// Face count of the z columns of a single-voxel grid.
proof fn lemma_single_faces_to_z(g: Seq<u8>, x0: int, y0: int, z0: int, x: int, y: int, z: int)
    requires
        single_voxel_grid(g, x0, y0, z0),
        0 <= x < 16,
        0 <= y < 256,
        0 <= z <= 16,
    ensures
        faces_to_z(g, x, y, z).len() == if x == x0 && y == y0 && z0 < z {
            6int
        } else {
            0int
        },
    decreases z,
{
    if z > 0 {
        lemma_single_faces_to_z(g, x0, y0, z0, x, y, z - 1);
        if x == x0 && y == y0 && z - 1 == z0 {
            lemma_single_cell_six(g, x0, y0, z0);
        } else {
            assert(block_at_local(g, x, y, z - 1) == 0);
            lemma_cell_faces_empty(g, x, y, z - 1, 6);
        }
    }
}

/// Face count of the y layers of a single-voxel grid.
proof fn lemma_single_faces_to_y(g: Seq<u8>, x0: int, y0: int, z0: int, x: int, y: int)
    requires
        single_voxel_grid(g, x0, y0, z0),
        0 <= x < 16,
        0 <= y <= 256,
    ensures
        faces_to_y(g, x, y).len() == if x == x0 && y0 < y {
            6int
        } else {
            0int
        },
    decreases y,
{
    if y > 0 {
        lemma_single_faces_to_y(g, x0, y0, z0, x, y - 1);
        lemma_single_faces_to_z(g, x0, y0, z0, x, y - 1, 16);
    }
}

/// Face count of the x slices of a single-voxel grid.
proof fn lemma_single_faces_to_x(g: Seq<u8>, x0: int, y0: int, z0: int, x: int)
    requires
        single_voxel_grid(g, x0, y0, z0),
        0 <= x <= 16,
    ensures
        faces_to_x(g, x).len() == if x0 < x {
            6int
        } else {
            0int
        },
    decreases x,
{
    if x > 0 {
        lemma_single_faces_to_x(g, x0, y0, z0, x - 1);
        lemma_single_faces_to_y(g, x0, y0, z0, x - 1, 256);
    }
}

/// Mesh face count (law): a grid with exactly one occupied voxel produces
/// exactly 6 faces — 24 vertices and 36 triangle index entries.
pub proof fn lemma_single_voxel_face_count(g: Seq<u8>, x0: int, y0: int, z0: int)
    requires
        single_voxel_grid(g, x0, y0, z0),
    ensures
        mesh_faces(g).len() == 6,
        mesh_vertices(g).len() == 24,
        mesh_indices(g).len() == 36,
{
    lemma_single_faces_to_x(g, x0, y0, z0, 16);
}

/// A grid with exactly two occupied voxels sharing a face: `(x0, y0, z0)`
/// and its neighbour `(x1, y1, z1)` one step along a positive axis.
pub open spec fn adjacent_pair_grid(
    g: Seq<u8>,
    x0: int,
    y0: int,
    z0: int,
    x1: int,
    y1: int,
    z1: int,
) -> bool {
    &&& g.len() == 65536
    &&& voxel_in_bounds(x0, y0, z0)
    &&& voxel_in_bounds(x1, y1, z1)
    &&& ((x1 == x0 + 1 && y1 == y0 && z1 == z0) || (x1 == x0 && y1 == y0 + 1 && z1 == z0) || (x1
        == x0 && y1 == y0 && z1 == z0 + 1))
    &&& block_at_local(g, x0, y0, z0) != 0
    &&& block_at_local(g, x1, y1, z1) != 0
    &&& forall|x: int, y: int, z: int|
        voxel_in_bounds(x, y, z) && !(x == x0 && y == y0 && z == z0) && !(x == x1 && y == y1 && z
            == z1) ==> #[trigger] block_at_local(g, x, y, z) == 0
}

/// The voxel on the negative side of an adjacent pair shows five faces: the
/// face towards the other voxel is suppressed.
proof fn lemma_pair_lower_cell(g: Seq<u8>, x0: int, y0: int, z0: int, x1: int, y1: int, z1: int)
    requires
        adjacent_pair_grid(g, x0, y0, z0, x1, y1, z1),
    ensures
        cell_faces(g, x0, y0, z0).len() == 5,
{
    assert(cell_faces_upto(g, x0, y0, z0, 0).len() == 0);
    if x1 == x0 + 1 && y1 == y0 && z1 == z0 {
        assert(face_visible(g, x0, y0, z0, 0));
        assert(!face_visible(g, x0, y0, z0, 1));
        assert(face_visible(g, x0, y0, z0, 2));
        assert(face_visible(g, x0, y0, z0, 3));
        assert(face_visible(g, x0, y0, z0, 4));
        assert(face_visible(g, x0, y0, z0, 5));
        assert(cell_faces_upto(g, x0, y0, z0, 1).len() == 1);
        assert(cell_faces_upto(g, x0, y0, z0, 2).len() == 1);
        assert(cell_faces_upto(g, x0, y0, z0, 3).len() == 2);
        assert(cell_faces_upto(g, x0, y0, z0, 4).len() == 3);
        assert(cell_faces_upto(g, x0, y0, z0, 5).len() == 4);
        assert(cell_faces_upto(g, x0, y0, z0, 6).len() == 5);
    } else if x1 == x0 && y1 == y0 + 1 && z1 == z0 {
        assert(face_visible(g, x0, y0, z0, 0));
        assert(face_visible(g, x0, y0, z0, 1));
        assert(face_visible(g, x0, y0, z0, 2));
        assert(!face_visible(g, x0, y0, z0, 3));
        assert(face_visible(g, x0, y0, z0, 4));
        assert(face_visible(g, x0, y0, z0, 5));
        assert(cell_faces_upto(g, x0, y0, z0, 1).len() == 1);
        assert(cell_faces_upto(g, x0, y0, z0, 2).len() == 2);
        assert(cell_faces_upto(g, x0, y0, z0, 3).len() == 3);
        assert(cell_faces_upto(g, x0, y0, z0, 4).len() == 3);
        assert(cell_faces_upto(g, x0, y0, z0, 5).len() == 4);
        assert(cell_faces_upto(g, x0, y0, z0, 6).len() == 5);
    } else {
        assert(face_visible(g, x0, y0, z0, 0));
        assert(face_visible(g, x0, y0, z0, 1));
        assert(face_visible(g, x0, y0, z0, 2));
        assert(face_visible(g, x0, y0, z0, 3));
        assert(face_visible(g, x0, y0, z0, 4));
        assert(!face_visible(g, x0, y0, z0, 5));
        assert(cell_faces_upto(g, x0, y0, z0, 1).len() == 1);
        assert(cell_faces_upto(g, x0, y0, z0, 2).len() == 2);
        assert(cell_faces_upto(g, x0, y0, z0, 3).len() == 3);
        assert(cell_faces_upto(g, x0, y0, z0, 4).len() == 4);
        assert(cell_faces_upto(g, x0, y0, z0, 5).len() == 5);
        assert(cell_faces_upto(g, x0, y0, z0, 6).len() == 5);
    }
}

/// The voxel on the positive side of an adjacent pair shows five faces: the
/// face towards the other voxel is suppressed.
proof fn lemma_pair_upper_cell(g: Seq<u8>, x0: int, y0: int, z0: int, x1: int, y1: int, z1: int)
    requires
        adjacent_pair_grid(g, x0, y0, z0, x1, y1, z1),
    ensures
        cell_faces(g, x1, y1, z1).len() == 5,
{
    assert(cell_faces_upto(g, x1, y1, z1, 0).len() == 0);
    if x1 == x0 + 1 && y1 == y0 && z1 == z0 {
        assert(!face_visible(g, x1, y1, z1, 0));
        assert(face_visible(g, x1, y1, z1, 1));
        assert(face_visible(g, x1, y1, z1, 2));
        assert(face_visible(g, x1, y1, z1, 3));
        assert(face_visible(g, x1, y1, z1, 4));
        assert(face_visible(g, x1, y1, z1, 5));
        assert(cell_faces_upto(g, x1, y1, z1, 1).len() == 0);
        assert(cell_faces_upto(g, x1, y1, z1, 2).len() == 1);
        assert(cell_faces_upto(g, x1, y1, z1, 3).len() == 2);
        assert(cell_faces_upto(g, x1, y1, z1, 4).len() == 3);
        assert(cell_faces_upto(g, x1, y1, z1, 5).len() == 4);
        assert(cell_faces_upto(g, x1, y1, z1, 6).len() == 5);
    } else if x1 == x0 && y1 == y0 + 1 && z1 == z0 {
        assert(face_visible(g, x1, y1, z1, 0));
        assert(face_visible(g, x1, y1, z1, 1));
        assert(!face_visible(g, x1, y1, z1, 2));
        assert(face_visible(g, x1, y1, z1, 3));
        assert(face_visible(g, x1, y1, z1, 4));
        assert(face_visible(g, x1, y1, z1, 5));
        assert(cell_faces_upto(g, x1, y1, z1, 1).len() == 1);
        assert(cell_faces_upto(g, x1, y1, z1, 2).len() == 2);
        assert(cell_faces_upto(g, x1, y1, z1, 3).len() == 2);
        assert(cell_faces_upto(g, x1, y1, z1, 4).len() == 3);
        assert(cell_faces_upto(g, x1, y1, z1, 5).len() == 4);
        assert(cell_faces_upto(g, x1, y1, z1, 6).len() == 5);
    } else {
        assert(face_visible(g, x1, y1, z1, 0));
        assert(face_visible(g, x1, y1, z1, 1));
        assert(face_visible(g, x1, y1, z1, 2));
        assert(face_visible(g, x1, y1, z1, 3));
        assert(!face_visible(g, x1, y1, z1, 4));
        assert(face_visible(g, x1, y1, z1, 5));
        assert(cell_faces_upto(g, x1, y1, z1, 1).len() == 1);
        assert(cell_faces_upto(g, x1, y1, z1, 2).len() == 2);
        assert(cell_faces_upto(g, x1, y1, z1, 3).len() == 3);
        assert(cell_faces_upto(g, x1, y1, z1, 4).len() == 4);
        assert(cell_faces_upto(g, x1, y1, z1, 5).len() == 4);
        assert(cell_faces_upto(g, x1, y1, z1, 6).len() == 5);
    }
}

/// Face count of the z columns of an adjacent-pair grid.
proof fn lemma_pair_faces_to_z(
    g: Seq<u8>,
    x0: int,
    y0: int,
    z0: int,
    x1: int,
    y1: int,
    z1: int,
    x: int,
    y: int,
    z: int,
)
    requires
        adjacent_pair_grid(g, x0, y0, z0, x1, y1, z1),
        0 <= x < 16,
        0 <= y < 256,
        0 <= z <= 16,
    ensures
        faces_to_z(g, x, y, z).len() == (if x == x0 && y == y0 && z0 < z {
            5int
        } else {
            0int
        }) + (if x == x1 && y == y1 && z1 < z {
            5int
        } else {
            0int
        }),
    decreases z,
{
    if z > 0 {
        lemma_pair_faces_to_z(g, x0, y0, z0, x1, y1, z1, x, y, z - 1);
        if x == x0 && y == y0 && z - 1 == z0 {
            lemma_pair_lower_cell(g, x0, y0, z0, x1, y1, z1);
        } else if x == x1 && y == y1 && z - 1 == z1 {
            lemma_pair_upper_cell(g, x0, y0, z0, x1, y1, z1);
        } else {
            assert(block_at_local(g, x, y, z - 1) == 0);
            lemma_cell_faces_empty(g, x, y, z - 1, 6);
        }
    }
}

/// Face count of the y layers of an adjacent-pair grid.
proof fn lemma_pair_faces_to_y(
    g: Seq<u8>,
    x0: int,
    y0: int,
    z0: int,
    x1: int,
    y1: int,
    z1: int,
    x: int,
    y: int,
)
    requires
        adjacent_pair_grid(g, x0, y0, z0, x1, y1, z1),
        0 <= x < 16,
        0 <= y <= 256,
    ensures
        faces_to_y(g, x, y).len() == (if x == x0 && y0 < y {
            5int
        } else {
            0int
        }) + (if x == x1 && y1 < y {
            5int
        } else {
            0int
        }),
    decreases y,
{
    if y > 0 {
        lemma_pair_faces_to_y(g, x0, y0, z0, x1, y1, z1, x, y - 1);
        lemma_pair_faces_to_z(g, x0, y0, z0, x1, y1, z1, x, y - 1, 16);
    }
}

/// Face count of the x slices of an adjacent-pair grid.
proof fn lemma_pair_faces_to_x(
    g: Seq<u8>,
    x0: int,
    y0: int,
    z0: int,
    x1: int,
    y1: int,
    z1: int,
    x: int,
)
    requires
        adjacent_pair_grid(g, x0, y0, z0, x1, y1, z1),
        0 <= x <= 16,
    ensures
        faces_to_x(g, x).len() == (if x0 < x {
            5int
        } else {
            0int
        }) + (if x1 < x {
            5int
        } else {
            0int
        }),
    decreases x,
{
    if x > 0 {
        lemma_pair_faces_to_x(g, x0, y0, z0, x1, y1, z1, x - 1);
        lemma_pair_faces_to_y(g, x0, y0, z0, x1, y1, z1, x - 1, 256);
    }
}

/// Face suppression (law): two adjacent occupied voxels sharing a face, along
/// any axis, produce 10 faces, not 12 — the shared internal face is emitted
/// by neither voxel.
pub proof fn lemma_adjacent_pair_face_count(
    g: Seq<u8>,
    x0: int,
    y0: int,
    z0: int,
    x1: int,
    y1: int,
    z1: int,
)
    requires
        adjacent_pair_grid(g, x0, y0, z0, x1, y1, z1),
    ensures
        mesh_faces(g).len() == 10,
        mesh_vertices(g).len() == 40,
        mesh_indices(g).len() == 60,
{
    lemma_pair_faces_to_x(g, x0, y0, z0, x1, y1, z1, 16);
}

/// Idempotence (law): the produced geometry is a function of the grid alone,
/// so any two meshes built from equal grids are equal.
pub proof fn lemma_mesh_deterministic(g: Seq<u8>, m1: Mesh, m2: Mesh)
    requires
        mesh_matches(g, m1),
        mesh_matches(g, m2),
    ensures
        m1.faces@ == m2.faces@,
        m1.vertices@ == m2.vertices@,
        m1.indices@ == m2.indices@,
{
}

/// A voxel's six direction contributions, accumulated left to right, make up
/// its face list.
proof fn lemma_cell_faces_parts(base: Seq<Face>, g: Seq<u8>, x: int, y: int, z: int)
    ensures
        base + cell_faces(g, x, y, z) == (((((base + cell_step(g, x, y, z, 0)) + cell_step(
            g,
            x,
            y,
            z,
            1,
        )) + cell_step(g, x, y, z, 2)) + cell_step(g, x, y, z, 3)) + cell_step(g, x, y, z, 4))
            + cell_step(g, x, y, z, 5),
{
    reveal_with_fuel(cell_faces_upto, 7);
    assert(base + cell_faces(g, x, y, z) =~= (((((base + cell_step(g, x, y, z, 0)) + cell_step(
        g,
        x,
        y,
        z,
        1,
    )) + cell_step(g, x, y, z, 2)) + cell_step(g, x, y, z, 3)) + cell_step(g, x, y, z, 4))
        + cell_step(g, x, y, z, 5));
}

/// Appends one face's quad and triangle indices to the geometry under
/// construction.
fn emit_face(
    faces: &mut Vec<Face>,
    vertices: &mut Vec<Vertex>,
    indices: &mut Vec<u32>,
    x: usize,
    y: usize,
    z: usize,
    d: usize,
)
    requires
        x < 16,
        y < 256,
        z < 16,
        d < 6,
        old(faces)@.len() <= 393215,
        geometry_consistent(old(faces)@, old(vertices)@, old(indices)@),
    ensures
        final(faces)@ == old(faces)@.push(Face { x, y, z, dir: d }),
        geometry_consistent(final(faces)@, final(vertices)@, final(indices)@),
{
    let ghost f = Face { x, y, z, dir: d };
    let ghost n = faces@.len() as int;
    let quad: [Vertex; 4] = if d == 0 {
        Cube::left()
    } else if d == 1 {
        Cube::right()
    } else if d == 2 {
        Cube::bottom()
    } else if d == 3 {
        Cube::top()
    } else if d == 4 {
        Cube::front()
    } else {
        Cube::back()
    };
    let base: u32 = (faces.len() * 4) as u32;
    faces.push(Face { x, y, z, dir: d });
    proof {
        crate::cube::lemma_template_vertex_bounds(d as int, 0);
        crate::cube::lemma_template_vertex_bounds(d as int, 1);
        crate::cube::lemma_template_vertex_bounds(d as int, 2);
        crate::cube::lemma_template_vertex_bounds(d as int, 3);
    }
    let v0 = quad[0].translated(x as i32, y as i32, z as i32);
    let v1 = quad[1].translated(x as i32, y as i32, z as i32);
    let v2 = quad[2].translated(x as i32, y as i32, z as i32);
    let v3 = quad[3].translated(x as i32, y as i32, z as i32);
    vertices.push(v0);
    vertices.push(v1);
    vertices.push(v2);
    vertices.push(v3);
    indices.push(base);
    indices.push(base + 1);
    indices.push(base + 2);
    indices.push(base + 1);
    indices.push(base + 3);
    indices.push(base + 2);
    proof {
        assert(v0 == quad_vertex(f, 0));
        assert(v1 == quad_vertex(f, 1));
        assert(v2 == quad_vertex(f, 2));
        assert(v3 == quad_vertex(f, 3));
        assert(faces@ =~= old(faces)@.push(f));
        assert(vertices@ =~= old(vertices)@ + seq![v0, v1, v2, v3]);
        assert(indices@ =~= old(indices)@ + seq![
            base,
            (base + 1) as u32,
            (base + 2) as u32,
            (base + 1) as u32,
            (base + 3) as u32,
            (base + 2) as u32,
        ]);
        assert forall|k: int, j: int| 0 <= k < faces@.len() && 0 <= j < 4 implies vertices@[k * 4
            + j] == #[trigger] quad_vertex(faces@[k], j) by {
            if k < n {
                assert(old(vertices)@[k * 4 + j] == quad_vertex(old(faces)@[k], j));
            } else {
                assert(k == n);
                assert(vertices@[n * 4 + j] == seq![v0, v1, v2, v3][j]);
                if j == 0 {
                } else if j == 1 {
                } else if j == 2 {
                } else {
                    assert(j == 3);
                }
            }
        };
        assert forall|k: int, j: int| 0 <= k < faces@.len() && 0 <= j < 6 implies indices@[k * 6
            + j] == #[trigger] tri_index(k, j) by {
            if k < n {
                assert(old(indices)@[k * 6 + j] == tri_index(k, j));
            } else {
                assert(k == n);
            }
        };
    }
}

impl Chunk {
    /// Appends direction `d`'s contribution for voxel `(x, y, z)`: the face
    /// when it is visible, nothing otherwise.
    fn emit_if_visible(
        &self,
        faces: &mut Vec<Face>,
        vertices: &mut Vec<Vertex>,
        indices: &mut Vec<u32>,
        x: usize,
        y: usize,
        z: usize,
        d: usize,
        visible: bool,
    )
        requires
            self.grid().len() == 65536,
            x < 16,
            y < 256,
            z < 16,
            d < 6,
            visible == face_visible(self.grid(), x as int, y as int, z as int, d as int),
            old(faces)@.len() <= 393215,
            geometry_consistent(old(faces)@, old(vertices)@, old(indices)@),
        ensures
            final(faces)@ == old(faces)@ + cell_step(
                self.grid(),
                x as int,
                y as int,
                z as int,
                d as int,
            ),
            geometry_consistent(final(faces)@, final(vertices)@, final(indices)@),
    {
        let ghost step = cell_step(self.grid(), x as int, y as int, z as int, d as int);
        if visible {
            emit_face(faces, vertices, indices, x, y, z, d);
            proof {
                assert(faces@ =~= old(faces)@ + step);
            }
        } else {
            proof {
                assert(faces@ =~= old(faces)@ + step);
            }
        }
    }

    /// Emits the visible faces of voxel `(x, y, z)`, testing the six
    /// neighbours in direction order.
    #[verifier::rlimit(50)]
    fn emit_cell_faces(
        &self,
        faces: &mut Vec<Face>,
        vertices: &mut Vec<Vertex>,
        indices: &mut Vec<u32>,
        x: usize,
        y: usize,
        z: usize,
    )
        requires
            self.grid().len() == 65536,
            x < 16,
            y < 256,
            z < 16,
            old(faces)@.len() + 6 <= 393216,
            geometry_consistent(old(faces)@, old(vertices)@, old(indices)@),
        ensures
            final(faces)@ == old(faces)@ + cell_faces(self.grid(), x as int, y as int, z as int),
            geometry_consistent(final(faces)@, final(vertices)@, final(indices)@),
    {
        let ghost g = self.grid();
        let ghost xi = x as int;
        let ghost yi = y as int;
        let ghost zi = z as int;
        let id = self.blocks[(x * 256 + y) * 16 + z];
        if id == 0 {
            proof {
                lemma_cell_faces_empty(g, xi, yi, zi, 6);
                assert(faces@ =~= old(faces)@ + cell_faces(g, xi, yi, zi));
            }
            return ;
        }
        let vis0 = x == 0 || self.blocks[((x - 1) * 256 + y) * 16 + z] == 0;
        self.emit_if_visible(faces, vertices, indices, x, y, z, 0, vis0);
        let vis1 = x == 15 || self.blocks[((x + 1) * 256 + y) * 16 + z] == 0;
        self.emit_if_visible(faces, vertices, indices, x, y, z, 1, vis1);
        let vis2 = y == 0 || self.blocks[(x * 256 + (y - 1)) * 16 + z] == 0;
        self.emit_if_visible(faces, vertices, indices, x, y, z, 2, vis2);
        let vis3 = y == 255 || self.blocks[(x * 256 + (y + 1)) * 16 + z] == 0;
        self.emit_if_visible(faces, vertices, indices, x, y, z, 3, vis3);
        let vis4 = z == 0 || self.blocks[(x * 256 + y) * 16 + (z - 1)] == 0;
        self.emit_if_visible(faces, vertices, indices, x, y, z, 4, vis4);
        let vis5 = z == 15 || self.blocks[(x * 256 + y) * 16 + (z + 1)] == 0;
        self.emit_if_visible(faces, vertices, indices, x, y, z, 5, vis5);
        proof {
            lemma_cell_faces_parts(old(faces)@, g, xi, yi, zi);
        }
    }

    /// Builds the renderable geometry for the current grid: one quad per
    /// visible face, in the fixed emission order.
    pub fn build_mesh(&self) -> (m: Mesh)
        requires
            self.wf(),
        ensures
            mesh_matches(self.grid(), m),
    {
        let ghost g = self.grid();
        let mut faces: Vec<Face> = Vec::new();
        let mut vertices: Vec<Vertex> = Vec::new();
        let mut indices: Vec<u32> = Vec::new();
        let mut x: usize = 0;
        while x < 16
            invariant
                self.wf(),
                g == self.grid(),
                x <= 16,
                faces@ == faces_to_x(g, x as int),
                geometry_consistent(faces@, vertices@, indices@),
            decreases 16 - x,
        {
            let mut y: usize = 0;
            while y < 256
                invariant
                    self.wf(),
                    g == self.grid(),
                    x < 16,
                    y <= 256,
                    faces@ == faces_to_x(g, x as int) + faces_to_y(g, x as int, y as int),
                    geometry_consistent(faces@, vertices@, indices@),
                decreases 256 - y,
            {
                let mut z: usize = 0;
                while z < 16
                    invariant
                        self.wf(),
                        g == self.grid(),
                        x < 16,
                        y < 256,
                        z <= 16,
                        faces@ == faces_to_x(g, x as int) + faces_to_y(g, x as int, y as int)
                            + faces_to_z(g, x as int, y as int, z as int),
                        geometry_consistent(faces@, vertices@, indices@),
                    decreases 16 - z,
                {
                    proof {
                        lemma_faces_to_x_len(g, x as int);
                        lemma_faces_to_y_len(g, x as int, y as int);
                        lemma_faces_to_z_len(g, x as int, y as int, z as int);
                    }
                    self.emit_cell_faces(&mut faces, &mut vertices, &mut indices, x, y, z);
                    proof {
                        assert(faces_to_z(g, x as int, y as int, z as int + 1) =~= faces_to_z(
                            g,
                            x as int,
                            y as int,
                            z as int,
                        ) + cell_faces(g, x as int, y as int, z as int));
                        assert(faces@ =~= faces_to_x(g, x as int) + faces_to_y(
                            g,
                            x as int,
                            y as int,
                        ) + faces_to_z(g, x as int, y as int, z as int + 1));
                    }
                    z += 1;
                }
                proof {
                    assert(faces_to_y(g, x as int, y as int + 1) =~= faces_to_y(
                        g,
                        x as int,
                        y as int,
                    ) + faces_to_z(g, x as int, y as int, 16));
                    assert(faces@ =~= faces_to_x(g, x as int) + faces_to_y(
                        g,
                        x as int,
                        y as int + 1,
                    ));
                }
                y += 1;
            }
            proof {
                assert(faces_to_x(g, x as int + 1) =~= faces_to_x(g, x as int) + faces_to_y(
                    g,
                    x as int,
                    256,
                ));
                assert(faces@ =~= faces_to_x(g, x as int + 1));
            }
            x += 1;
        }
        proof {
            assert(faces@ == mesh_faces(g));
            lemma_geometry_determined(faces@, vertices@, indices@);
        }
        Mesh { faces, vertices, indices }
    }

    /// Builds the mesh for the current grid and stores it in the chunk's
    /// cache, replacing any previous cache; the grid is unchanged.
    pub fn prepare(&mut self)
        requires
            old(self).wf(),
        ensures
            final(self).wf(),
            final(self).grid() == old(self).grid(),
            final(self).mesh_cache() matches Some(m) && mesh_matches(final(self).grid(), m),
    {
        let m = self.build_mesh();
        self.mesh = Some(m);
    }
}

} // verus!
