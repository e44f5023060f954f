//! Composition of the projection: two rotations, a uniform scale, a
//! translation and a perspective, multiplied in exactly that order.
//!
//! The caller supplies the viewport, the cosines and sines of the two angles,
//! the depth of the scene, the arithmetic, and the function that gives the
//! perspective matrix of an aspect ratio. The functions here refuse a canvas
//! with a zero side, place the viewport, and fix where each number stands and
//! the order of the products.

use vstd::prelude::*;
use crate::matrix::is_function;
use crate::matrix::is_product;
use crate::matrix::lemma_product_unique;
use crate::matrix::mult_matrix_4;
use crate::matrix::scaling_entries;
use crate::matrix::scaling_matrix;
use crate::matrix::translation_entries;
use crate::matrix::translation_matrix;
use crate::error::GeometryError;
use crate::viewport::is_placement;
use crate::viewport::lemma_zero_test_decides;
use crate::viewport::place_viewport;
use crate::viewport::tested_nonzero;
use crate::viewport::tested_zero;
use crate::viewport::Placement;
use crate::viewport::ViewportSpec;

verus! {

/// The cosine and the sine of an angle, and the negated sine.
pub struct Turn<T> {
    pub cos: T,
    pub sin: T,
    pub neg_sin: T,
}

/// Everything the projection is composed of.
pub struct ProjectionParts<T> {
    /// Rotation about the X axis.
    pub turn_x: Turn<T>,
    /// Rotation about the Y axis.
    pub turn_y: Turn<T>,
    /// The uniform scale, applied along X and Y.
    pub scale: T,
    /// Translation along X.
    pub tx: T,
    /// Translation along Y.
    pub ty: T,
    /// Translation along Z: the depth of the scene in front of the camera.
    pub tz: T,
    /// The perspective matrix.
    pub perspective: [T; 16],
    pub zero: T,
    pub one: T,
}

/// The rotation that turns the normals, and the full projection.
pub struct Matrices3D<T> {
    pub normals_rotation: [T; 16],
    pub projection: [T; 16],
}

/// The entries of a rotation about the X axis.
pub open spec fn rotation_x_entries<T>(turn: Turn<T>, zero: T, one: T) -> Seq<T> {
    seq![
        one, zero, zero, zero,
        zero, turn.cos, turn.neg_sin, zero,
        zero, turn.sin, turn.cos, zero,
        zero, zero, zero, one,
    ]
}

/// The entries of a rotation about the Y axis.
pub open spec fn rotation_y_entries<T>(turn: Turn<T>, zero: T, one: T) -> Seq<T> {
    seq![
        turn.cos, zero, turn.sin, zero,
        zero, one, zero, zero,
        turn.neg_sin, zero, turn.cos, zero,
        zero, zero, zero, one,
    ]
}

/// The entries of the scale matrix: the uniform scale along X and Y, and
/// zero along Z, so that depth comes from the perspective alone.
pub open spec fn scale_entries<T>(parts: ProjectionParts<T>) -> Seq<T> {
    scaling_entries(parts.scale, parts.scale, parts.zero, parts.zero, parts.one)
}

/// `rotation` is an outcome of the rotation about X times the rotation about
/// Y.
pub open spec fn is_rotation<T, M: Fn(T, T) -> T, A: Fn(T, T) -> T>(
    times: M,
    plus: A,
    parts: ProjectionParts<T>,
    rotation: Seq<T>,
) -> bool {
    is_product(
        times,
        plus,
        rotation_x_entries(parts.turn_x, parts.zero, parts.one),
        rotation_y_entries(parts.turn_y, parts.zero, parts.one),
        rotation,
    )
}

/// `projection` is an outcome of `rotation` times the scale, times the
/// translation, times the perspective, taken from left to right.
pub open spec fn is_projection<T, M: Fn(T, T) -> T, A: Fn(T, T) -> T>(
    times: M,
    plus: A,
    parts: ProjectionParts<T>,
    rotation: Seq<T>,
    projection: Seq<T>,
) -> bool {
    exists|rotation_scale: Seq<T>, combined: Seq<T>|
        {
            &&& #[trigger] is_product(times, plus, rotation, scale_entries(parts), rotation_scale)
            &&& #[trigger] is_product(
                times,
                plus,
                rotation_scale,
                translation_entries(parts.tx, parts.ty, parts.tz, parts.zero, parts.one),
                combined,
            )
            &&& is_product(times, plus, combined, parts.perspective@, projection)
        }
}

/// With operations that have one outcome each, the rotation and the
/// projection are functions of the parts alone.
pub proof fn lemma_projection_unique<T, M: Fn(T, T) -> T, A: Fn(T, T) -> T>(
    times: M,
    plus: A,
    parts: ProjectionParts<T>,
    first: (Seq<T>, Seq<T>),
    second: (Seq<T>, Seq<T>),
)
    requires
        is_function(times),
        is_function(plus),
        is_rotation(times, plus, parts, first.0),
        is_projection(times, plus, parts, first.0, first.1),
        is_rotation(times, plus, parts, second.0),
        is_projection(times, plus, parts, second.0, second.1),
    ensures
        first == second,
{
    let rotation_x = rotation_x_entries(parts.turn_x, parts.zero, parts.one);
    let rotation_y = rotation_y_entries(parts.turn_y, parts.zero, parts.one);
    let scale = scale_entries(parts);
    let translation = translation_entries(parts.tx, parts.ty, parts.tz, parts.zero, parts.one);
    lemma_product_unique(times, plus, rotation_x, rotation_y, first.0, second.0);
    let (scaled_1, combined_1) = choose|scaled: Seq<T>, combined: Seq<T>|
        {
            &&& #[trigger] is_product(times, plus, first.0, scale, scaled)
            &&& #[trigger] is_product(times, plus, scaled, translation, combined)
            &&& is_product(times, plus, combined, parts.perspective@, first.1)
        };
    let (scaled_2, combined_2) = choose|scaled: Seq<T>, combined: Seq<T>|
        {
            &&& #[trigger] is_product(times, plus, second.0, scale, scaled)
            &&& #[trigger] is_product(times, plus, scaled, translation, combined)
            &&& is_product(times, plus, combined, parts.perspective@, second.1)
        };
    lemma_product_unique(times, plus, first.0, scale, scaled_1, scaled_2);
    lemma_product_unique(times, plus, scaled_1, translation, combined_1, combined_2);
    lemma_product_unique(times, plus, combined_1, parts.perspective@, first.1, second.1);
}

/// Builds the matrix of a rotation about the X axis.
pub fn rotation_x_matrix<T: Copy>(turn: &Turn<T>, zero: T, one: T) -> (mat: [T; 16])
    ensures
        mat@ == rotation_x_entries(*turn, zero, one),
{
    let mat = [
        one, zero, zero, zero,
        zero, turn.cos, turn.neg_sin, zero,
        zero, turn.sin, turn.cos, zero,
        zero, zero, zero, one,
    ];
    assert(mat@ =~= rotation_x_entries(*turn, zero, one));
    mat
}

/// Builds the matrix of a rotation about the Y axis.
pub fn rotation_y_matrix<T: Copy>(turn: &Turn<T>, zero: T, one: T) -> (mat: [T; 16])
    ensures
        mat@ == rotation_y_entries(*turn, zero, one),
{
    let mat = [
        turn.cos, zero, turn.sin, zero,
        zero, one, zero, zero,
        turn.neg_sin, zero, turn.cos, zero,
        zero, zero, zero, one,
    ];
    assert(mat@ =~= rotation_y_entries(*turn, zero, one));
    mat
}

/// Composes the rotation of the normals and the projection from parts that
/// are already at hand.
///
/// The rotation is the rotation about X times the rotation about Y. The
/// projection is that rotation times the scale, times the translation, times
/// the perspective.
pub fn compose_matrices<T: Copy, M: Fn(T, T) -> T, A: Fn(T, T) -> T>(
    parts: &ProjectionParts<T>,
    times: &M,
    plus: &A,
) -> (matrices: Matrices3D<T>)
    requires
        forall|x: T, y: T| call_requires(*times, (x, y)),
        forall|x: T, y: T| call_requires(*plus, (x, y)),
    ensures
        is_rotation(*times, *plus, *parts, matrices.normals_rotation@),
        is_projection(*times, *plus, *parts, matrices.normals_rotation@, matrices.projection@),
{
    let rotation_x = rotation_x_matrix(&parts.turn_x, parts.zero, parts.one);
    let rotation_y = rotation_y_matrix(&parts.turn_y, parts.zero, parts.one);
    let rotation = mult_matrix_4(&rotation_x, &rotation_y, times, plus);

    let translation = translation_matrix(parts.tx, parts.ty, parts.tz, parts.zero, parts.one);
    let scale = scaling_matrix(parts.scale, parts.scale, parts.zero, parts.zero, parts.one);
    let rotation_scale = mult_matrix_4(&rotation, &scale, times, plus);
    let combined = mult_matrix_4(&rotation_scale, &translation, times, plus);
    let projection = mult_matrix_4(&combined, &parts.perspective, times, plus);

    proof {
        assert(is_product(*times, *plus, rotation@, scale_entries(*parts), rotation_scale@));
        assert(is_product(
            *times,
            *plus,
            rotation_scale@,
            translation_entries(parts.tx, parts.ty, parts.tz, parts.zero, parts.one),
            combined@,
        ));
    }
    Matrices3D { normals_rotation: rotation, projection }
}

/// The numbers of a scene, besides its viewport: the two rotations, the depth
/// at which the scene stands, and the constants of the arithmetic.
pub struct Scene<T> {
    /// Rotation about the X axis.
    pub turn_x: Turn<T>,
    /// Rotation about the Y axis.
    pub turn_y: Turn<T>,
    /// Translation along Z: the depth of the scene in front of the camera.
    pub tz: T,
    pub minus_one: T,
    pub two: T,
    pub zero: T,
    pub one: T,
}

/// The parts of the projection of a scene, once its viewport is placed and
/// the perspective of its aspect ratio is known.
pub open spec fn scene_parts<T>(
    scene: Scene<T>,
    placement: Placement<T>,
    perspective: [T; 16],
) -> ProjectionParts<T> {
    ProjectionParts {
        turn_x: scene.turn_x,
        turn_y: scene.turn_y,
        scale: placement.scale,
        tx: placement.tx,
        ty: placement.ty,
        tz: scene.tz,
        perspective,
        zero: scene.zero,
        one: scene.one,
    }
}

/// `rotation` and `projection` are an outcome of projecting the scene
/// through the viewport: the canvas has tested as different from zero, the
/// scale and the translation in the plane are those of the viewport's
/// placement, the perspective is that of the placement's aspect ratio, and
/// the matrices are composed of these parts.
pub open spec fn is_scene_projection<
    T,
    Z: Fn(T) -> bool,
    P: Fn(T, T) -> T,
    S: Fn(T, T) -> T,
    M: Fn(T, T) -> T,
    D: Fn(T, T) -> T,
    V: Fn(T) -> [T; 16],
>(
    is_zero: Z,
    plus: P,
    minus: S,
    times: M,
    divide: D,
    perspective_of: V,
    viewport: ViewportSpec<T>,
    scene: Scene<T>,
    rotation: Seq<T>,
    projection: Seq<T>,
) -> bool {
    &&& tested_nonzero(is_zero, viewport)
    &&& exists|placement: Placement<T>, perspective: [T; 16]|
        {
            &&& #[trigger] is_placement(
                plus,
                minus,
                times,
                divide,
                viewport,
                scene.minus_one,
                scene.two,
                placement,
            )
            &&& #[trigger] call_ensures(perspective_of, (placement.aspect,), perspective)
            &&& is_rotation(times, plus, scene_parts(scene, placement, perspective), rotation)
            &&& is_projection(
                times,
                plus,
                scene_parts(scene, placement, perspective),
                rotation,
                projection,
            )
        }
}

/// `result` is an outcome of `get_3d_matrices`: a refusal as an invalid
/// viewport after the height or the width of the canvas has tested as zero,
/// or the two matrices of the scene's projection.
pub open spec fn is_matrices_result<
    T,
    Z: Fn(T) -> bool,
    P: Fn(T, T) -> T,
    S: Fn(T, T) -> T,
    M: Fn(T, T) -> T,
    D: Fn(T, T) -> T,
    V: Fn(T) -> [T; 16],
>(
    is_zero: Z,
    plus: P,
    minus: S,
    times: M,
    divide: D,
    perspective_of: V,
    viewport: ViewportSpec<T>,
    scene: Scene<T>,
    result: Result<Matrices3D<T>, GeometryError>,
) -> bool {
    match result {
        Ok(matrices) => is_scene_projection(
            is_zero,
            plus,
            minus,
            times,
            divide,
            perspective_of,
            viewport,
            scene,
            matrices.normals_rotation@,
            matrices.projection@,
        ),
        Err(error) => error == GeometryError::InvalidViewport && tested_zero(is_zero, viewport),
    }
}

/// `result` is an outcome of `get_3d_projection_matrix`: a refusal as an
/// invalid viewport after the height or the width of the canvas has tested
/// as zero, or the projection of the scene.
pub open spec fn is_projection_result<
    T,
    Z: Fn(T) -> bool,
    P: Fn(T, T) -> T,
    S: Fn(T, T) -> T,
    M: Fn(T, T) -> T,
    D: Fn(T, T) -> T,
    V: Fn(T) -> [T; 16],
>(
    is_zero: Z,
    plus: P,
    minus: S,
    times: M,
    divide: D,
    perspective_of: V,
    viewport: ViewportSpec<T>,
    scene: Scene<T>,
    result: Result<[T; 16], GeometryError>,
) -> bool {
    match result {
        Ok(projection) => exists|rotation: Seq<T>| #[trigger]
            is_scene_projection(
                is_zero,
                plus,
                minus,
                times,
                divide,
                perspective_of,
                viewport,
                scene,
                rotation,
                projection@,
            ),
        Err(error) => error == GeometryError::InvalidViewport && tested_zero(is_zero, viewport),
    }
}

/// Builds the rotation of the normals and the projection of a scene shown
/// through a viewport.
///
/// A canvas whose height or width tests as zero is refused as an invalid
/// viewport, before anything is divided by it. For any other canvas the
/// viewport is placed, the perspective of its aspect ratio is asked for, and
/// the matrices are composed. The division needs to accept only divisors that
/// have tested as different from zero, and the perspective only the aspect
/// ratio of a canvas that has. The rotation is the rotation about X times the
/// rotation about Y, and the projection is that rotation times the scale,
/// times the translation, times the perspective. The scale along X and Y is
/// the vertical ratio of the placement; the horizontal ratio enters the
/// translation along X and nothing else.
pub fn get_3d_matrices<
    T: Copy,
    Z: Fn(T) -> bool,
    P: Fn(T, T) -> T,
    S: Fn(T, T) -> T,
    M: Fn(T, T) -> T,
    D: Fn(T, T) -> T,
    V: Fn(T) -> [T; 16],
>(
    viewport: &ViewportSpec<T>,
    scene: &Scene<T>,
    is_zero: &Z,
    plus: &P,
    minus: &S,
    times: &M,
    divide: &D,
    perspective_of: &V,
) -> (result: Result<Matrices3D<T>, GeometryError>)
    requires
        forall|x: T| call_requires(*is_zero, (x,)),
        forall|x: T, y: T| call_requires(*plus, (x, y)),
        forall|x: T, y: T| call_requires(*minus, (x, y)),
        forall|x: T, y: T| call_requires(*times, (x, y)),
        forall|x: T, y: T|
            call_ensures(*is_zero, (y,), false) ==> #[trigger] call_requires(*divide, (x, y)),
        forall|aspect: T|
            tested_nonzero(*is_zero, *viewport) && call_ensures(
                *divide,
                (viewport.canvas_width, viewport.canvas_height),
                aspect,
            ) ==> #[trigger] call_requires(*perspective_of, (aspect,)),
    ensures
        is_matrices_result(
            *is_zero,
            *plus,
            *minus,
            *times,
            *divide,
            *perspective_of,
            *viewport,
            *scene,
            result,
        ),
{
    let placement = match place_viewport(
        viewport,
        scene.minus_one,
        scene.two,
        is_zero,
        plus,
        minus,
        times,
        divide,
    ) {
        Ok(placement) => placement,
        Err(error) => {
            return Err(error);
        },
    };
    let perspective = perspective_of(placement.aspect);
    let parts = ProjectionParts {
        turn_x: Turn { cos: scene.turn_x.cos, sin: scene.turn_x.sin, neg_sin: scene.turn_x.neg_sin },
        turn_y: Turn { cos: scene.turn_y.cos, sin: scene.turn_y.sin, neg_sin: scene.turn_y.neg_sin },
        scale: placement.scale,
        tx: placement.tx,
        ty: placement.ty,
        tz: scene.tz,
        perspective,
        zero: scene.zero,
        one: scene.one,
    };
    let matrices = compose_matrices(&parts, times, plus);
    proof {
        assert(parts == scene_parts(*scene, placement, perspective));
        assert(is_placement(
            *plus,
            *minus,
            *times,
            *divide,
            *viewport,
            scene.minus_one,
            scene.two,
            placement,
        ));
        assert(call_ensures(*perspective_of, (placement.aspect,), perspective));
    }
    Ok(matrices)
}

/// Builds the projection of a scene shown through a viewport: the projection
/// that `get_3d_matrices` gives, refused on the same canvases.
pub fn get_3d_projection_matrix<
    T: Copy,
    Z: Fn(T) -> bool,
    P: Fn(T, T) -> T,
    S: Fn(T, T) -> T,
    M: Fn(T, T) -> T,
    D: Fn(T, T) -> T,
    V: Fn(T) -> [T; 16],
>(
    viewport: &ViewportSpec<T>,
    scene: &Scene<T>,
    is_zero: &Z,
    plus: &P,
    minus: &S,
    times: &M,
    divide: &D,
    perspective_of: &V,
) -> (result: Result<[T; 16], GeometryError>)
    requires
        forall|x: T| call_requires(*is_zero, (x,)),
        forall|x: T, y: T| call_requires(*plus, (x, y)),
        forall|x: T, y: T| call_requires(*minus, (x, y)),
        forall|x: T, y: T| call_requires(*times, (x, y)),
        forall|x: T, y: T|
            call_ensures(*is_zero, (y,), false) ==> #[trigger] call_requires(*divide, (x, y)),
        forall|aspect: T|
            tested_nonzero(*is_zero, *viewport) && call_ensures(
                *divide,
                (viewport.canvas_width, viewport.canvas_height),
                aspect,
            ) ==> #[trigger] call_requires(*perspective_of, (aspect,)),
    ensures
        is_projection_result(
            *is_zero,
            *plus,
            *minus,
            *times,
            *divide,
            *perspective_of,
            *viewport,
            *scene,
            result,
        ),
{
    let matrices = match get_3d_matrices(
        viewport,
        scene,
        is_zero,
        plus,
        minus,
        times,
        divide,
        perspective_of,
    ) {
        Ok(matrices) => matrices,
        Err(error) => {
            return Err(error);
        },
    };
    let projection = matrices.projection;
    let result: Result<[T; 16], GeometryError> = Ok(projection);
    proof {
        assert(is_scene_projection(
            *is_zero,
            *plus,
            *minus,
            *times,
            *divide,
            *perspective_of,
            *viewport,
            *scene,
            matrices.normals_rotation@,
            projection@,
        ));
        assert(exists|rotation: Seq<T>| #[trigger]
            is_scene_projection(
                *is_zero,
                *plus,
                *minus,
                *times,
                *divide,
                *perspective_of,
                *viewport,
                *scene,
                rotation,
                projection@,
            ));
        assert(result matches Ok(p) && p@ == projection@);
        assert(is_projection_result(
            *is_zero,
            *plus,
            *minus,
            *times,
            *divide,
            *perspective_of,
            *viewport,
            *scene,
            result,
        ));
    }
    result
}

/// With a zero test that has one answer for each number, the projection is
/// refused exactly when the height or the width of the canvas is zero, and
/// then as an invalid viewport.
pub proof fn lemma_projection_refused_iff_zero<
    T,
    Z: Fn(T) -> bool,
    P: Fn(T, T) -> T,
    S: Fn(T, T) -> T,
    M: Fn(T, T) -> T,
    D: Fn(T, T) -> T,
    V: Fn(T) -> [T; 16],
>(
    is_zero: Z,
    plus: P,
    minus: S,
    times: M,
    divide: D,
    perspective_of: V,
    viewport: ViewportSpec<T>,
    scene: Scene<T>,
    result: Result<[T; 16], GeometryError>,
    zero: spec_fn(T) -> bool,
)
    requires
        forall|x: T, answer: bool| #[trigger]
            call_ensures(is_zero, (x,), answer) ==> answer == zero(x),
        is_projection_result(
            is_zero,
            plus,
            minus,
            times,
            divide,
            perspective_of,
            viewport,
            scene,
            result,
        ),
    ensures
        result is Err <==> zero(viewport.canvas_height) || zero(viewport.canvas_width),
        result is Err ==> result == Err::<[T; 16], GeometryError>(GeometryError::InvalidViewport),
{
    lemma_zero_test_decides(is_zero, viewport, zero);
}

} // verus!
