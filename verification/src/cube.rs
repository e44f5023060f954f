//! The mesh of the cube: six faces of four corners each, two triangles per
//! face, and one outward normal per corner.
//!
//! The cube has side 1 and is centred at the origin, so every coordinate of a
//! corner is plus or minus one half. The mesh stores the numerators, plus or
//! minus one; the denominator is 2. Faces come in the order +X, -X, +Y, -Y,
//! +Z, -Z, and the corners of a face run counter-clockwise when the face is
//! seen from outside the cube.

use vstd::prelude::*;

verus! {

/// The axis that face `face` is perpendicular to: 0 for X, 1 for Y, 2 for Z.
pub open spec fn face_axis(face: int) -> int {
    face / 2
}

/// The side of the cube on which face `face` lies: 1 or -1.
pub open spec fn face_sign(face: int) -> int {
    if face % 2 == 0 {
        1
    } else {
        -1
    }
}

/// Entry `i` of the position buffer, as a numerator over 2. Vertex `i / 3` is
/// corner `(i / 3) % 4` of face `i / 12`. Along the axis of its face it lies
/// on the face's side; along the two other axes its four corners run through
/// (-1, -1), (1, -1), (1, 1), (-1, 1), the two axes changing places on a
/// negative face so that the corners still run counter-clockwise from
/// outside.
pub open spec fn cube_position(i: int) -> int {
    let component = i % 3;
    let corner = (i / 3) % 4;
    let face = i / 12;
    let u: int = if corner == 1 || corner == 2 {
        1
    } else {
        -1
    };
    let v: int = if corner >= 2 {
        1
    } else {
        -1
    };
    if component == face_axis(face) {
        face_sign(face)
    } else if (component == (face_axis(face) + 1) % 3) == (face_sign(face) == 1) {
        u
    } else {
        v
    }
}

/// Entry `i` of the normal buffer: the normal of vertex `i / 3` is the unit
/// vector along the axis of its face, towards the face's side.
pub open spec fn cube_normal(i: int) -> int {
    if i % 3 == face_axis(i / 12) {
        face_sign(i / 12)
    } else {
        0
    }
}

/// Entry `k` of the index buffer. Face `k / 6` contributes six entries: with
/// its corners numbered 0 to 3, the triangle (0, 1, 2) and then the triangle
/// (0, 2, 3).
pub open spec fn cube_index(k: int) -> int {
    let slot = k % 6;
    let corner: int = if slot == 0 || slot == 3 {
        0
    } else if slot == 1 {
        1
    } else if slot == 5 {
        3
    } else {
        2
    };
    4 * (k / 6) + corner
}

/// Corner positions, corner normals and triangle indices of the cube.
#[derive(Debug, PartialEq, Eq)]
pub struct CubeMesh {
    /// Three numerators over 2 per vertex (X, Y, Z), 24 vertices.
    pub positions: Vec<i32>,
    /// Three components per vertex (X, Y, Z), 24 vertices.
    pub normals: Vec<i32>,
    /// Three vertex numbers per triangle, two triangles per face.
    pub indices: Vec<u16>,
}

impl CubeMesh {
    /// The mesh is exactly the cube.
    pub open spec fn is_cube(&self) -> bool {
        &&& self.positions@.len() == 72
        &&& forall|i: int| 0 <= i < 72 ==> #[trigger] self.positions@[i] == cube_position(i)
        &&& self.normals@.len() == 72
        &&& forall|i: int| 0 <= i < 72 ==> #[trigger] self.normals@[i] == cube_normal(i)
        &&& self.indices@.len() == 36
        &&& forall|k: int| 0 <= k < 36 ==> #[trigger] self.indices@[k] == cube_index(k)
    }
}

/// Every corner lies on the face that its normal names: each of its
/// coordinates is plus or minus one half, its normal is a unit vector along
/// one axis, and the corner's coordinate along that axis is on the normal's
/// side.
pub proof fn lemma_corner_on_its_face(vertex: int)
    requires
        0 <= vertex < 24,
    ensures
        forall|c: int|
            0 <= c < 3 ==> #[trigger] cube_position(3 * vertex + c) == 1 || cube_position(
                3 * vertex + c,
            ) == -1,
        cube_normal(3 * vertex) * cube_normal(3 * vertex) + cube_normal(3 * vertex + 1)
            * cube_normal(3 * vertex + 1) + cube_normal(3 * vertex + 2) * cube_normal(
            3 * vertex + 2,
        ) == 1,
        cube_position(3 * vertex) * cube_normal(3 * vertex) + cube_position(3 * vertex + 1)
            * cube_normal(3 * vertex + 1) + cube_position(3 * vertex + 2) * cube_normal(
            3 * vertex + 2,
        ) == 1,
{
    let face = vertex / 4;
    assert((3 * vertex) / 12 == face && (3 * vertex + 1) / 12 == face && (3 * vertex + 2) / 12
        == face);
    assert(0 <= face < 6);
}

/// Every triangle names three different corners of one face: the face of
/// triangle `t` is `t / 2`.
pub proof fn lemma_triangle_on_one_face(t: int)
    requires
        0 <= t < 12,
    ensures
        0 <= cube_index(3 * t) < 24,
        0 <= cube_index(3 * t + 1) < 24,
        0 <= cube_index(3 * t + 2) < 24,
        cube_index(3 * t) / 4 == t / 2,
        cube_index(3 * t + 1) / 4 == t / 2,
        cube_index(3 * t + 2) / 4 == t / 2,
        cube_index(3 * t) != cube_index(3 * t + 1),
        cube_index(3 * t + 1) != cube_index(3 * t + 2),
        cube_index(3 * t) != cube_index(3 * t + 2),
{
}

/// Builds the mesh of the cube.
pub fn get_cube_mesh() -> (mesh: CubeMesh)
    ensures
        mesh.is_cube(),
        forall|k: int| 0 <= k < 36 ==> 0 <= #[trigger] mesh.indices@[k] < 24,
{
    let mut positions: Vec<i32> = Vec::new();
    let mut normals: Vec<i32> = Vec::new();
    let mut i: usize = 0;
    while i < 72
        invariant
            i <= 72,
            positions@.len() == i,
            normals@.len() == i,
            forall|j: int| 0 <= j < i ==> #[trigger] positions@[j] == cube_position(j),
            forall|j: int| 0 <= j < i ==> #[trigger] normals@[j] == cube_normal(j),
        decreases 72 - i,
    {
        let component: usize = i % 3;
        let corner: usize = (i / 3) % 4;
        let face: usize = i / 12;
        let axis: usize = face / 2;
        let positive: bool = face % 2 == 0;
        let sign: i32 = if positive {
            1
        } else {
            -1
        };
        let u: i32 = if corner == 1 || corner == 2 {
            1
        } else {
            -1
        };
        let v: i32 = if corner >= 2 {
            1
        } else {
            -1
        };
        if component == axis {
            positions.push(sign);
            normals.push(sign);
        } else {
            if (component == (axis + 1) % 3) == positive {
                positions.push(u);
            } else {
                positions.push(v);
            }
            normals.push(0);
        }
        i += 1;
    }
    let mut indices: Vec<u16> = Vec::new();
    let mut face: u16 = 0;
    while face < 6
        invariant
            face <= 6,
            indices@.len() == 6 * face,
            forall|k: int| 0 <= k < indices@.len() ==> #[trigger] indices@[k] == cube_index(k),
        decreases 6 - face,
    {
        let first: u16 = 4 * face;
        indices.push(first);
        indices.push(first + 1);
        indices.push(first + 2);
        indices.push(first);
        indices.push(first + 2);
        indices.push(first + 3);
        face += 1;
    }
    CubeMesh { positions, normals, indices }
}

} // verus!
