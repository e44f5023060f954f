//! Layout of the height field: one sample per grid vertex, in row-major order,
//! each placed relative to the centre of the field.
//!
//! With `side = resolution + 1` samples along each side and `half = side / 2`
//! (not rounded), the sample in column `x` lies at `(x - half) / half` of the
//! way from the centre to the edge, which is `(2 * x - side) / side`. The
//! offsets below are those numerators; the denominator is `side`.

use vstd::prelude::*;
use crate::grid::lemma_vertex_place;
use crate::grid::vertex_count;
use crate::grid::vertex_index;

verus! {

/// Offset from the centre of the sample in column or row `t`, as a numerator
/// over `resolution + 1`.
pub open spec fn centred(resolution: int, t: int) -> int {
    2 * t - (resolution + 1)
}

/// Where one sample lies relative to the centre of the field.
#[derive(Clone, Copy, Debug, PartialEq, Eq)]
pub struct SampleOffset {
    /// Numerator of the offset along X, over `resolution + 1`.
    pub dx: i64,
    /// Numerator of the offset along Z, over `resolution + 1`.
    pub dz: i64,
}

/// The offsets are those of a field of the given resolution: there is one per
/// vertex, and sample `i` belongs to column `i % side` of row `i / side`.
pub open spec fn is_sample_layout(offsets: Seq<SampleOffset>, resolution: int) -> bool {
    &&& offsets.len() == vertex_count(resolution)
    &&& forall|i: int|
        0 <= i < offsets.len() ==> {
            &&& (#[trigger] offsets[i]).dx == centred(resolution, i % (resolution + 1))
            &&& offsets[i].dz == centred(resolution, i / (resolution + 1))
        }
}

/// In a sample layout, the sample of column `x` and row `z` stands at place
/// `z * side + x` and holds the offsets `2 * x - side` and `2 * z - side`.
pub proof fn lemma_sample_at(offsets: Seq<SampleOffset>, resolution: int, x: int, z: int)
    requires
        is_sample_layout(offsets, resolution),
        0 <= x <= resolution,
        0 <= z <= resolution,
    ensures
        0 <= vertex_index(resolution, z, x) < offsets.len(),
        offsets[vertex_index(resolution, z, x)].dx == 2 * x - (resolution + 1),
        offsets[vertex_index(resolution, z, x)].dz == 2 * z - (resolution + 1),
{
    lemma_vertex_place(resolution, z, x);
}

/// A sample has a zero offset exactly when its column, or its row, is half
/// the side. A field of even resolution has an odd side, and so no sample
/// with a zero offset: the centre falls between its samples.
pub proof fn lemma_centre_sample(offsets: Seq<SampleOffset>, resolution: int, x: int, z: int)
    requires
        is_sample_layout(offsets, resolution),
        0 <= x <= resolution,
        0 <= z <= resolution,
    ensures
        0 <= vertex_index(resolution, z, x) < offsets.len(),
        offsets[vertex_index(resolution, z, x)].dx == 0 <==> 2 * x == resolution + 1,
        offsets[vertex_index(resolution, z, x)].dz == 0 <==> 2 * z == resolution + 1,
        resolution % 2 == 0 ==> offsets[vertex_index(resolution, z, x)].dx != 0
            && offsets[vertex_index(resolution, z, x)].dz != 0,
{
    lemma_sample_at(offsets, resolution, x, z);
}

/// The heights are those of a field of the given resolution under the height
/// function `height_at`: there is one per vertex, and height `i` is an outcome
/// of `height_at` on the offsets of sample `i`.
pub open spec fn is_height_field<T, F: Fn(i64, i64) -> T>(
    height_at: F,
    resolution: int,
    heights: Seq<T>,
) -> bool {
    &&& heights.len() == vertex_count(resolution)
    &&& forall|i: int|
        0 <= i < heights.len() ==> call_ensures(
            height_at,
            (
                centred(resolution, i % (resolution + 1)) as i64,
                centred(resolution, i / (resolution + 1)) as i64,
            ),
            #[trigger] heights[i],
        )
}

/// With a height function that has one outcome at each offset, the height
/// field is a function of the resolution alone.
pub proof fn lemma_height_field_unique<T, F: Fn(i64, i64) -> T>(
    height_at: F,
    resolution: int,
    first: Seq<T>,
    second: Seq<T>,
)
    requires
        forall|dx: i64, dz: i64, h1: T, h2: T|
            #[trigger] call_ensures(height_at, (dx, dz), h1) && #[trigger] call_ensures(
                height_at,
                (dx, dz),
                h2,
            ) ==> h1 == h2,
        is_height_field(height_at, resolution, first),
        is_height_field(height_at, resolution, second),
    ensures
        first == second,
{
    assert(first =~= second);
}

/// A side whose square fits in a machine word is itself at most `2^32`.
proof fn lemma_side_bound(side: int)
    requires
        0 <= side,
        side * side <= usize::MAX,
    ensures
        side <= 0x1_0000_0000,
        side <= usize::MAX,
{
    assert(side <= 0x1_0000_0000 && side <= side * side) by (nonlinear_arith)
        requires
            0 <= side,
            side * side <= 0xffff_ffff_ffff_ffff,
    ;
}

/// Place of the sample in column `x` of row `z` in a height field.
pub fn sample_index_of(resolution: usize, x: usize, z: usize) -> (index: usize)
    requires
        vertex_count(resolution as int) <= usize::MAX,
        x <= resolution,
        z <= resolution,
    ensures
        index == vertex_index(resolution as int, z as int, x as int),
        index < vertex_count(resolution as int),
{
    proof {
        lemma_side_bound(resolution + 1);
        lemma_vertex_place(resolution as int, z as int, x as int);
        assert(0 <= z * (resolution + 1)) by (nonlinear_arith);
    }
    z * (resolution + 1) + x
}

/// Lays out the samples of a height field, row by row.
///
/// The result has one entry per vertex of the grid of the same resolution,
/// and entry `z * side + x` holds the offsets of column `x` and row `z`.
pub fn get_sample_offsets(resolution: usize) -> (offsets: Vec<SampleOffset>)
    requires
        vertex_count(resolution as int) <= usize::MAX,
    ensures
        is_sample_layout(offsets@, resolution as int),
{
    proof {
        lemma_side_bound(resolution + 1);
    }
    let side: usize = resolution + 1;
    let mut offsets: Vec<SampleOffset> = Vec::new();
    let mut z: usize = 0;
    while z < side
        invariant
            side == resolution + 1,
            side <= 0x1_0000_0000,
            z <= side,
            offsets@.len() == z * side,
            forall|i: int|
                0 <= i < offsets@.len() ==> {
                    &&& (#[trigger] offsets@[i]).dx == centred(
                        resolution as int,
                        i % (resolution + 1),
                    )
                    &&& offsets@[i].dz == centred(resolution as int, i / (resolution + 1))
                },
        decreases side - z,
    {
        let mut x: usize = 0;
        while x < side
            invariant
                side == resolution + 1,
                side <= 0x1_0000_0000,
                z < side,
                x <= side,
                offsets@.len() == z * side + x,
                forall|i: int|
                    0 <= i < offsets@.len() ==> {
                        &&& (#[trigger] offsets@[i]).dx == centred(
                            resolution as int,
                            i % (resolution + 1),
                        )
                        &&& offsets@[i].dz == centred(resolution as int, i / (resolution + 1))
                    },
            decreases side - x,
        {
            proof {
                lemma_vertex_place(resolution as int, z as int, x as int);
            }
            let dx: i64 = 2 * (x as i64) - (side as i64);
            let dz: i64 = 2 * (z as i64) - (side as i64);
            offsets.push(SampleOffset { dx, dz });
            x += 1;
        }
        proof {
            assert((z + 1) * side == z * side + side) by (nonlinear_arith);
        }
        z += 1;
    }
    offsets
}

/// Computes the height field: the height function applied to the offsets of
/// every sample, row by row.
///
/// The height function receives the two numerators of a sample's offset from
/// the centre, over `resolution + 1`, and returns the height there.
pub fn get_updated_3d_y_values<T, F: Fn(i64, i64) -> T>(resolution: usize, height_at: &F) -> (heights:
    Vec<T>)
    requires
        vertex_count(resolution as int) <= usize::MAX,
        forall|dx: i64, dz: i64| call_requires(*height_at, (dx, dz)),
    ensures
        is_height_field(*height_at, resolution as int, heights@),
{
    let offsets = get_sample_offsets(resolution);
    let mut heights: Vec<T> = Vec::new();
    let mut i: usize = 0;
    while i < offsets.len()
        invariant
            is_sample_layout(offsets@, resolution as int),
            i <= offsets@.len(),
            heights@.len() == i,
            forall|dx: i64, dz: i64| call_requires(*height_at, (dx, dz)),
            forall|j: int|
                0 <= j < i ==> call_ensures(
                    *height_at,
                    (offsets@[j].dx, offsets@[j].dz),
                    #[trigger] heights@[j],
                ),
        decreases offsets@.len() - i,
    {
        let offset = offsets[i];
        heights.push(height_at(offset.dx, offset.dz));
        i += 1;
    }
    heights
}

} // verus!
