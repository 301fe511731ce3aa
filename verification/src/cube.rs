//! The quad templates of a unit cube's six faces.
//!
//! Directions are indexed 0..6 in the order the mesh builder tests them:
//! -x (left), +x (right), -y (bottom), +y (top), -z (front), +z (back).
//! Each face is a quad of four vertices in a fixed order; two counter-clockwise
//! triangles (vertex offsets 0,1,2 and 1,3,2) cover it.

use vstd::prelude::*;

use crate::vertex::Vertex;

verus! {

/// Offset of the neighbouring voxel in direction `d`, x component.
pub open spec fn dir_dx(d: int) -> int {
    if d == 0 {
        -1
    } else if d == 1 {
        1
    } else {
        0
    }
}

/// Offset of the neighbouring voxel in direction `d`, y component.
pub open spec fn dir_dy(d: int) -> int {
    if d == 2 {
        -1
    } else if d == 3 {
        1
    } else {
        0
    }
}

/// Offset of the neighbouring voxel in direction `d`, z component.
pub open spec fn dir_dz(d: int) -> int {
    if d == 4 {
        -1
    } else if d == 5 {
        1
    } else {
        0
    }
}

/// Corner `k` (0..4) of the quad for face direction `d` (0..6), as offsets in
/// `{0, 1}` from the voxel's minimum corner.
pub open spec fn face_corner(d: int, k: int) -> (int, int, int) {
    if d == 0 {
        // left, -x
        if k == 0 {
            (0, 1, 1)
        } else if k == 1 {
            (0, 0, 1)
        } else if k == 2 {
            (0, 1, 0)
        } else {
            (0, 0, 0)
        }
    } else if d == 1 {
        // right, +x
        if k == 0 {
            (1, 1, 0)
        } else if k == 1 {
            (1, 0, 0)
        } else if k == 2 {
            (1, 1, 1)
        } else {
            (1, 0, 1)
        }
    } else if d == 2 {
        // bottom, -y
        if k == 0 {
            (0, 0, 0)
        } else if k == 1 {
            (0, 0, 1)
        } else if k == 2 {
            (1, 0, 0)
        } else {
            (1, 0, 1)
        }
    } else if d == 3 {
        // top, +y
        if k == 0 {
            (0, 1, 1)
        } else if k == 1 {
            (0, 1, 0)
        } else if k == 2 {
            (1, 1, 1)
        } else {
            (1, 1, 0)
        }
    } else if d == 4 {
        // front, -z
        if k == 0 {
            (0, 1, 0)
        } else if k == 1 {
            (0, 0, 0)
        } else if k == 2 {
            (1, 1, 0)
        } else {
            (1, 0, 0)
        }
    } else {
        // back, +z
        if k == 0 {
            (1, 1, 1)
        } else if k == 1 {
            (1, 0, 1)
        } else if k == 2 {
            (0, 1, 1)
        } else {
            (0, 0, 1)
        }
    }
}

/// Texture coordinate of corner `k` of any face quad.
pub open spec fn corner_tex(k: int) -> (int, int) {
    if k == 0 {
        (0, 0)
    } else if k == 1 {
        (0, 1)
    } else if k == 2 {
        (1, 0)
    } else {
        (1, 1)
    }
}

/// Corner `k` of the untranslated quad template for face direction `d`: the
/// corner position, the face's outward normal, and the corner's texture
/// coordinate.
pub open spec fn template_vertex(d: int, k: int) -> Vertex {
    let c = face_corner(d, k);
    let t = corner_tex(k);
    Vertex {
        px: c.0 as i32,
        py: c.1 as i32,
        pz: c.2 as i32,
        nx: dir_dx(d) as i32,
        ny: dir_dy(d) as i32,
        nz: dir_dz(d) as i32,
        tu: t.0 as i32,
        tv: t.1 as i32,
    }
}

/// The template corner offsets lie on the unit cube.
pub proof fn lemma_template_vertex_bounds(d: int, k: int)
    ensures
        0 <= template_vertex(d, k).px <= 1,
        0 <= template_vertex(d, k).py <= 1,
        0 <= template_vertex(d, k).pz <= 1,
{
}

/// The quad templates of a unit cube's faces.
pub struct Cube;

impl Cube {
    /// The -x face quad.
    pub fn left() -> (r: [Vertex; 4])
        ensures
            forall|k: int| 0 <= k < 4 ==> r@[k] == template_vertex(0, k),
    {
        let r = [
            Vertex { px: 0, py: 1, pz: 1, nx: -1, ny: 0, nz: 0, tu: 0, tv: 0 },
            Vertex { px: 0, py: 0, pz: 1, nx: -1, ny: 0, nz: 0, tu: 0, tv: 1 },
            Vertex { px: 0, py: 1, pz: 0, nx: -1, ny: 0, nz: 0, tu: 1, tv: 0 },
            Vertex { px: 0, py: 0, pz: 0, nx: -1, ny: 0, nz: 0, tu: 1, tv: 1 },
        ];
        proof {
            assert(r@[0] == template_vertex(0, 0));
            assert(r@[1] == template_vertex(0, 1));
            assert(r@[2] == template_vertex(0, 2));
            assert(r@[3] == template_vertex(0, 3));
        }
        r
    }

    /// The +x face quad.
    pub fn right() -> (r: [Vertex; 4])
        ensures
            forall|k: int| 0 <= k < 4 ==> r@[k] == template_vertex(1, k),
    {
        let r = [
            Vertex { px: 1, py: 1, pz: 0, nx: 1, ny: 0, nz: 0, tu: 0, tv: 0 },
            Vertex { px: 1, py: 0, pz: 0, nx: 1, ny: 0, nz: 0, tu: 0, tv: 1 },
            Vertex { px: 1, py: 1, pz: 1, nx: 1, ny: 0, nz: 0, tu: 1, tv: 0 },
            Vertex { px: 1, py: 0, pz: 1, nx: 1, ny: 0, nz: 0, tu: 1, tv: 1 },
        ];
        proof {
            assert(r@[0] == template_vertex(1, 0));
            assert(r@[1] == template_vertex(1, 1));
            assert(r@[2] == template_vertex(1, 2));
            assert(r@[3] == template_vertex(1, 3));
        }
        r
    }

    /// The -y face quad.
    pub fn bottom() -> (r: [Vertex; 4])
        ensures
            forall|k: int| 0 <= k < 4 ==> r@[k] == template_vertex(2, k),
    {
        let r = [
            Vertex { px: 0, py: 0, pz: 0, nx: 0, ny: -1, nz: 0, tu: 0, tv: 0 },
            Vertex { px: 0, py: 0, pz: 1, nx: 0, ny: -1, nz: 0, tu: 0, tv: 1 },
            Vertex { px: 1, py: 0, pz: 0, nx: 0, ny: -1, nz: 0, tu: 1, tv: 0 },
            Vertex { px: 1, py: 0, pz: 1, nx: 0, ny: -1, nz: 0, tu: 1, tv: 1 },
        ];
        proof {
            assert(r@[0] == template_vertex(2, 0));
            assert(r@[1] == template_vertex(2, 1));
            assert(r@[2] == template_vertex(2, 2));
            assert(r@[3] == template_vertex(2, 3));
        }
        r
    }

    /// The +y face quad.
    pub fn top() -> (r: [Vertex; 4])
        ensures
            forall|k: int| 0 <= k < 4 ==> r@[k] == template_vertex(3, k),
    {
        let r = [
            Vertex { px: 0, py: 1, pz: 1, nx: 0, ny: 1, nz: 0, tu: 0, tv: 0 },
            Vertex { px: 0, py: 1, pz: 0, nx: 0, ny: 1, nz: 0, tu: 0, tv: 1 },
            Vertex { px: 1, py: 1, pz: 1, nx: 0, ny: 1, nz: 0, tu: 1, tv: 0 },
            Vertex { px: 1, py: 1, pz: 0, nx: 0, ny: 1, nz: 0, tu: 1, tv: 1 },
        ];
        proof {
            assert(r@[0] == template_vertex(3, 0));
            assert(r@[1] == template_vertex(3, 1));
            assert(r@[2] == template_vertex(3, 2));
            assert(r@[3] == template_vertex(3, 3));
        }
        r
    }

    /// The -z face quad.
    pub fn front() -> (r: [Vertex; 4])
        ensures
            forall|k: int| 0 <= k < 4 ==> r@[k] == template_vertex(4, k),
    {
        let r = [
            Vertex { px: 0, py: 1, pz: 0, nx: 0, ny: 0, nz: -1, tu: 0, tv: 0 },
            Vertex { px: 0, py: 0, pz: 0, nx: 0, ny: 0, nz: -1, tu: 0, tv: 1 },
            Vertex { px: 1, py: 1, pz: 0, nx: 0, ny: 0, nz: -1, tu: 1, tv: 0 },
            Vertex { px: 1, py: 0, pz: 0, nx: 0, ny: 0, nz: -1, tu: 1, tv: 1 },
        ];
        proof {
            assert(r@[0] == template_vertex(4, 0));
            assert(r@[1] == template_vertex(4, 1));
            assert(r@[2] == template_vertex(4, 2));
            assert(r@[3] == template_vertex(4, 3));
        }
        r
    }

    /// The +z face quad.
    pub fn back() -> (r: [Vertex; 4])
        ensures
            forall|k: int| 0 <= k < 4 ==> r@[k] == template_vertex(5, k),
    {
        let r = [
            Vertex { px: 1, py: 1, pz: 1, nx: 0, ny: 0, nz: 1, tu: 0, tv: 0 },
            Vertex { px: 1, py: 0, pz: 1, nx: 0, ny: 0, nz: 1, tu: 0, tv: 1 },
            Vertex { px: 0, py: 1, pz: 1, nx: 0, ny: 0, nz: 1, tu: 1, tv: 0 },
            Vertex { px: 0, py: 0, pz: 1, nx: 0, ny: 0, nz: 1, tu: 1, tv: 1 },
        ];
        proof {
            assert(r@[0] == template_vertex(5, 0));
            assert(r@[1] == template_vertex(5, 1));
            assert(r@[2] == template_vertex(5, 2));
            assert(r@[3] == template_vertex(5, 3));
        }
        r
    }
}

} // verus!
