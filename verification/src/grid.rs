//! The static mesh of the graph: a square lattice of vertices and the two
//! triangles that cover each of its cells.
//!
//! A grid of resolution `n` has `n` cells and `n + 1` vertices along each
//! side. It covers the square from -1 to 1 in X and Z, so a vertex in column
//! `col` sits at X = `-1 + 2 * col / n`, which is `(2 * col - n) / n`. The mesh
//! stores the numerators; the denominator is the resolution.

use vstd::prelude::*;
use vstd::arithmetic::div_mod::lemma_fundamental_div_mod;
use vstd::arithmetic::div_mod::lemma_fundamental_div_mod_converse;
use crate::constants::MAX_RESOLUTION;
use crate::error::GeometryError;

verus! {

/// Number of vertices of a grid of resolution `n`.
pub open spec fn vertex_count(n: int) -> int {
    (n + 1) * (n + 1)
}

/// Row-major number of the vertex in row `row` and column `col`.
pub open spec fn vertex_index(n: int, row: int, col: int) -> int {
    row * (n + 1) + col
}

/// Entry `i` of the flattened position buffer, as a numerator over `n`:
/// vertex `i / 3` contributes its X, Y and Z in that order, and Y is zero.
pub open spec fn position_numerator(n: int, i: int) -> int {
    let vertex = i / 3;
    if i % 3 == 0 {
        2 * (vertex % (n + 1)) - n
    } else if i % 3 == 1 {
        0
    } else {
        2 * (vertex / (n + 1)) - n
    }
}

/// Entry `k` of the index buffer. Cell `k / 6` contributes six entries: the
/// triangle (top-left, bottom-left, bottom-right) and then the triangle
/// (top-left, bottom-right, top-right).
pub open spec fn triangle_corner(n: int, k: int) -> int {
    let cell = k / 6;
    let slot = k % 6;
    let top_left = (cell / n) * (n + 1) + cell % n;
    if slot == 0 || slot == 3 {
        top_left
    } else if slot == 1 {
        top_left + n + 1
    } else if slot == 5 {
        top_left + 1
    } else {
        top_left + n + 2
    }
}

/// Vertex positions and triangle indices of a grid.
#[derive(Debug, PartialEq, Eq)]
pub struct Mesh {
    /// Cells along each side; the denominator of every position.
    pub resolution: usize,
    /// Three numerators per vertex (X, Y, Z), vertices in row-major order.
    pub positions: Vec<i32>,
    /// Three vertex numbers per triangle, two triangles per cell, cells in
    /// row-major order.
    pub indices: Vec<u16>,
}

impl Mesh {
    /// The mesh is exactly the grid of resolution `n`.
    pub open spec fn is_grid(&self, n: int) -> bool {
        &&& self.resolution == n
        &&& self.positions@.len() == 3 * vertex_count(n)
        &&& forall|i: int|
            0 <= i < self.positions@.len() ==> #[trigger] self.positions@[i] == position_numerator(
                n,
                i,
            )
        &&& self.indices@.len() == 6 * (n * n)
        &&& forall|k: int|
            0 <= k < self.indices@.len() ==> #[trigger] self.indices@[k] == triangle_corner(n, k)
    }

    /// The mesh is the grid of its own resolution.
    pub open spec fn wf(&self) -> bool {
        self.is_grid(self.resolution as int)
    }
}

/// Row-major numbering: the vertex in row `row` and column `col` has a number
/// below the vertex count, and that number gives back the row and the column.
pub proof fn lemma_vertex_place(n: int, row: int, col: int)
    requires
        0 <= row <= n,
        0 <= col <= n,
    ensures
        0 <= vertex_index(n, row, col) < vertex_count(n),
        vertex_index(n, row, col) / (n + 1) == row,
        vertex_index(n, row, col) % (n + 1) == col,
{
    let side = n + 1;
    lemma_fundamental_div_mod_converse(vertex_index(n, row, col), side, row, col);
    assert(0 <= row * side && row * side + side <= side * side) by (nonlinear_arith)
        requires
            0 <= row < side,
    ;
}

/// Where a vertex lies: the three entries of the vertex in row `row` and
/// column `col` in the position buffer are `2 * col - n`, `0` and
/// `2 * row - n`.
pub proof fn lemma_vertex_position(n: int, row: int, col: int)
    requires
        0 <= row <= n,
        0 <= col <= n,
    ensures
        position_numerator(n, 3 * vertex_index(n, row, col)) == 2 * col - n,
        position_numerator(n, 3 * vertex_index(n, row, col) + 1) == 0,
        position_numerator(n, 3 * vertex_index(n, row, col) + 2) == 2 * row - n,
{
    lemma_vertex_place(n, row, col);
}

/// The supported resolutions are exactly those whose vertices can all be
/// named by a 16-bit index.
pub proof fn lemma_resolution_limit(n: int)
    requires
        0 <= n,
    ensures
        n <= MAX_RESOLUTION <==> vertex_count(n) <= 0x1_0000,
{
    assert(n <= 255 <==> (n + 1) * (n + 1) <= 0x1_0000) by (nonlinear_arith)
        requires
            0 <= n,
    ;
}

/// How a cell is covered: the six index entries of the cell in row `row` and
/// column `col` name its corners in the order top-left, bottom-left,
/// bottom-right, top-left, bottom-right, top-right.
pub proof fn lemma_cell_triangles(n: int, row: int, col: int)
    requires
        0 <= row < n,
        0 <= col < n,
    ensures
        triangle_corner(n, 6 * (row * n + col)) == vertex_index(n, row, col),
        triangle_corner(n, 6 * (row * n + col) + 1) == vertex_index(n, row + 1, col),
        triangle_corner(n, 6 * (row * n + col) + 2) == vertex_index(n, row + 1, col + 1),
        triangle_corner(n, 6 * (row * n + col) + 3) == vertex_index(n, row, col),
        triangle_corner(n, 6 * (row * n + col) + 4) == vertex_index(n, row + 1, col + 1),
        triangle_corner(n, 6 * (row * n + col) + 5) == vertex_index(n, row, col + 1),
{
    let cell = row * n + col;
    lemma_fundamental_div_mod_converse(cell, n, row, col);
    assert((row + 1) * (n + 1) == row * (n + 1) + n + 1) by (nonlinear_arith);
}

/// Every entry of the index buffer names a vertex of the grid.
pub proof fn lemma_triangle_corner_in_range(n: int, k: int)
    requires
        0 <= n,
        0 <= k < 6 * (n * n),
    ensures
        0 <= triangle_corner(n, k) < vertex_count(n),
{
    let cell = k / 6;
    let row = cell / n;
    let col = cell % n;
    assert(n > 0) by (nonlinear_arith)
        requires
            0 <= n,
            0 < 6 * (n * n),
    ;
    lemma_fundamental_div_mod(cell, n);
    assert(0 <= row < n) by (nonlinear_arith)
        requires
            0 <= cell < n * n,
            cell == n * row + col,
            0 <= col < n,
    ;
    lemma_cell_triangles(n, row, col);
    assert(n * row == row * n) by (nonlinear_arith);
    assert(6 * (row * n + col) <= k < 6 * (row * n + col) + 6);
    lemma_vertex_place(n, row, col);
    lemma_vertex_place(n, row + 1, col);
    lemma_vertex_place(n, row + 1, col + 1);
    lemma_vertex_place(n, row, col + 1);
}

/// The size of a grid: three position entries per vertex, six index entries
/// per cell, and no index entry outside the vertices.
pub proof fn lemma_grid_shape(mesh: Mesh, n: int)
    requires
        0 <= n,
        mesh.is_grid(n),
    ensures
        mesh.positions@.len() == 3 * ((n + 1) * (n + 1)),
        mesh.indices@.len() == 6 * (n * n),
        forall|k: int|
            0 <= k < mesh.indices@.len() ==> 0 <= #[trigger] mesh.indices@[k] < (n + 1) * (n + 1),
{
    assert forall|k: int| 0 <= k < mesh.indices@.len() implies 0 <= #[trigger] mesh.indices@[k] < (n
        + 1) * (n + 1) by {
        lemma_triangle_corner_in_range(n, k);
    }
}

/// A grid is a function of its resolution alone: two meshes of the same
/// resolution hold the same buffers, entry for entry.
pub proof fn lemma_grid_unique(a: Mesh, b: Mesh, n: int)
    requires
        a.is_grid(n),
        b.is_grid(n),
    ensures
        a.resolution == b.resolution,
        a.positions@ == b.positions@,
        a.indices@ == b.indices@,
{
    assert(a.positions@ =~= b.positions@);
    assert(a.indices@ =~= b.indices@);
}

/// Bounds that keep the buffers of a supported grid within machine integers.
proof fn lemma_supported_sizes(n: int, row: int)
    requires
        0 <= n <= MAX_RESOLUTION,
        0 <= row <= n + 1,
    ensures
        row * (n + 1) <= vertex_count(n) <= 65536,
{
    assert(row * (n + 1) <= (n + 1) * (n + 1) <= 65536) by (nonlinear_arith)
        requires
            0 <= n <= 255,
            0 <= row <= n + 1,
    ;
}

/// Fills the position buffer of the grid of resolution `n`, row by row.
fn grid_positions(n: usize) -> (positions: Vec<i32>)
    requires
        n <= MAX_RESOLUTION,
    ensures
        positions@.len() == 3 * vertex_count(n as int),
        forall|i: int|
            0 <= i < positions@.len() ==> #[trigger] positions@[i] == position_numerator(
                n as int,
                i,
            ),
{
    let side: usize = n + 1;
    let mut positions: Vec<i32> = Vec::new();
    let mut row: usize = 0;
    while row < side
        invariant
            n <= MAX_RESOLUTION,
            side == n + 1,
            row <= side,
            positions@.len() == 3 * (row * side),
            forall|i: int|
                0 <= i < positions@.len() ==> #[trigger] positions@[i] == position_numerator(
                    n as int,
                    i,
                ),
        decreases side - row,
    {
        let mut col: usize = 0;
        while col < side
            invariant
                n <= MAX_RESOLUTION,
                side == n + 1,
                row < side,
                col <= side,
                positions@.len() == 3 * (row * side + col),
                forall|i: int|
                    0 <= i < positions@.len() ==> #[trigger] positions@[i] == position_numerator(
                        n as int,
                        i,
                    ),
            decreases side - col,
        {
            proof {
                lemma_vertex_place(n as int, row as int, col as int);
                lemma_vertex_position(n as int, row as int, col as int);
            }
            let x: i32 = 2 * (col as i32) - (n as i32);
            let z: i32 = 2 * (row as i32) - (n as i32);
            positions.push(x);
            positions.push(0);
            positions.push(z);
            col += 1;
        }
        proof {
            assert((row + 1) * side == row * side + side) by (nonlinear_arith);
        }
        row += 1;
    }
    positions
}

/// Fills the index buffer of the grid of resolution `n`, cell by cell.
fn grid_indices(n: usize) -> (indices: Vec<u16>)
    requires
        n <= MAX_RESOLUTION,
    ensures
        indices@.len() == 6 * (n * n),
        forall|k: int|
            0 <= k < indices@.len() ==> #[trigger] indices@[k] == triangle_corner(n as int, k),
{
    let side: usize = n + 1;
    let mut indices: Vec<u16> = Vec::new();
    let mut row: usize = 0;
    while row < n
        invariant
            n <= MAX_RESOLUTION,
            side == n + 1,
            row <= n,
            indices@.len() == 6 * (row * n),
            forall|k: int|
                0 <= k < indices@.len() ==> #[trigger] indices@[k] == triangle_corner(n as int, k),
        decreases n - row,
    {
        let mut col: usize = 0;
        while col < n
            invariant
                n <= MAX_RESOLUTION,
                side == n + 1,
                row < n,
                col <= n,
                indices@.len() == 6 * (row * n + col),
                forall|k: int|
                    0 <= k < indices@.len() ==> #[trigger] indices@[k] == triangle_corner(
                        n as int,
                        k,
                    ),
            decreases n - col,
        {
            proof {
                lemma_cell_triangles(n as int, row as int, col as int);
                lemma_vertex_place(n as int, row as int, col as int);
                lemma_vertex_place(n as int, row + 1, col + 1);
                lemma_supported_sizes(n as int, row as int);
                assert((row + 1) * (n + 1) == row * (n + 1) + n + 1) by (nonlinear_arith);
            }
            let top_left: u16 = (row * side + col) as u16;
            let bottom_left: u16 = top_left + side as u16;
            let top_right: u16 = top_left + 1;
            let bottom_right: u16 = bottom_left + 1;
            indices.push(top_left);
            indices.push(bottom_left);
            indices.push(bottom_right);
            indices.push(top_left);
            indices.push(bottom_right);
            indices.push(top_right);
            col += 1;
        }
        proof {
            assert((row + 1) * n == row * n + n) by (nonlinear_arith);
        }
        row += 1;
    }
    indices
}

/// `value` is entry `i` of the position buffer in the caller's numbers: an
/// outcome of `coordinate_of` on the vertex's column for X and on its row for
/// Z, and `zero` for Y.
pub open spec fn is_world_entry<T, F: Fn(usize) -> T>(
    coordinate_of: F,
    zero: T,
    n: int,
    i: int,
    value: T,
) -> bool {
    let vertex = i / 3;
    if i % 3 == 0 {
        call_ensures(coordinate_of, ((vertex % (n + 1)) as usize,), value)
    } else if i % 3 == 1 {
        value == zero
    } else {
        call_ensures(coordinate_of, ((vertex / (n + 1)) as usize,), value)
    }
}

/// The positions are those of the grid of resolution `n` in the caller's
/// numbers, three per vertex, vertices in row-major order.
pub open spec fn is_world_positions<T, F: Fn(usize) -> T>(
    coordinate_of: F,
    zero: T,
    n: int,
    positions: Seq<T>,
) -> bool {
    &&& positions.len() == 3 * vertex_count(n)
    &&& forall|i: int|
        0 <= i < positions.len() ==> is_world_entry(
            coordinate_of,
            zero,
            n,
            i,
            #[trigger] positions[i],
        )
}

/// Fills the position buffer of a grid in the caller's numbers.
///
/// `coordinate_of` turns the number of a column, or of a row, into the
/// coordinate along X, or along Z; Y is `zero` everywhere. Resolutions above
/// [`MAX_RESOLUTION`] are refused, as they are for the mesh.
pub fn get_world_positions<T: Copy, F: Fn(usize) -> T>(
    n: usize,
    zero: T,
    coordinate_of: &F,
) -> (result: Result<Vec<T>, GeometryError>)
    requires
        forall|x: usize| x <= n ==> call_requires(*coordinate_of, (x,)),
    ensures
        n <= MAX_RESOLUTION ==> result is Ok,
        n > MAX_RESOLUTION ==> result == Err::<Vec<T>, GeometryError>(
            GeometryError::ResolutionTooLarge,
        ),
        result matches Ok(positions) ==> is_world_positions(
            *coordinate_of,
            zero,
            n as int,
            positions@,
        ),
{
    if n > MAX_RESOLUTION {
        return Err(GeometryError::ResolutionTooLarge);
    }
    let side: usize = n + 1;
    let mut positions: Vec<T> = Vec::new();
    let mut row: usize = 0;
    while row < side
        invariant
            n <= MAX_RESOLUTION,
            side == n + 1,
            row <= side,
            forall|x: usize| x <= n ==> call_requires(*coordinate_of, (x,)),
            positions@.len() == 3 * (row * side),
            forall|i: int|
                0 <= i < positions@.len() ==> is_world_entry(
                    *coordinate_of,
                    zero,
                    n as int,
                    i,
                    #[trigger] positions@[i],
                ),
        decreases side - row,
    {
        let mut col: usize = 0;
        while col < side
            invariant
                n <= MAX_RESOLUTION,
                side == n + 1,
                row < side,
                col <= side,
                forall|x: usize| x <= n ==> call_requires(*coordinate_of, (x,)),
                positions@.len() == 3 * (row * side + col),
                forall|i: int|
                    0 <= i < positions@.len() ==> is_world_entry(
                        *coordinate_of,
                        zero,
                        n as int,
                        i,
                        #[trigger] positions@[i],
                    ),
            decreases side - col,
        {
            proof {
                lemma_vertex_place(n as int, row as int, col as int);
            }
            let x = coordinate_of(col);
            let z = coordinate_of(row);
            positions.push(x);
            positions.push(zero);
            positions.push(z);
            col += 1;
        }
        proof {
            assert((row + 1) * side == row * side + side) by (nonlinear_arith);
        }
        row += 1;
    }
    Ok(positions)
}

/// Builds the mesh of a grid of `n` by `n` cells.
///
/// Resolutions up to [`MAX_RESOLUTION`] give the grid of that resolution,
/// entry for entry; larger ones are refused, because a 16-bit index could not
/// name every vertex.
///
/// A position is its numerator over `n`, so positions are defined from
/// `n == 1` on. For `n == 0` the mesh is the degenerate grid: one vertex, no
/// cell and no index, with the numerators `0, 0, 0` standing over a
/// denominator of zero, so that its vertex has no position in the plane.
pub fn get_position_grid_n_by_n(n: usize) -> (result: Result<Mesh, GeometryError>)
    ensures
        n <= MAX_RESOLUTION ==> result is Ok,
        n > MAX_RESOLUTION ==> result == Err::<Mesh, GeometryError>(
            GeometryError::ResolutionTooLarge,
        ),
        result matches Ok(mesh) ==> {
            &&& mesh.is_grid(n as int)
            &&& mesh.wf()
            &&& mesh.positions@.len() == 3 * ((n + 1) * (n + 1))
            &&& mesh.indices@.len() == 6 * (n * n)
            &&& forall|k: int|
                0 <= k < mesh.indices@.len() ==> 0 <= #[trigger] mesh.indices@[k] < (n + 1) * (n
                    + 1)
        },
{
    if n > MAX_RESOLUTION {
        return Err(GeometryError::ResolutionTooLarge);
    }
    let positions = grid_positions(n);
    let indices = grid_indices(n);
    let mesh = Mesh { resolution: n, positions, indices };
    proof {
        lemma_grid_shape(mesh, n as int);
    }
    Ok(mesh)
}

} // verus!
