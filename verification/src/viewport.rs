//! Placement of the scene on the canvas: from the viewport rectangle and the
//! canvas size to the aspect ratio, the uniform scale and the translation in
//! the plane.
//!
//! The numbers are of the caller's type and so is the arithmetic; the
//! functions here fix which quantity is divided by which, and that a canvas
//! with a zero side is refused before any ratio is taken.

use vstd::prelude::*;
use crate::error::GeometryError;

verus! {

/// Where on the canvas the scene is shown, and how large the canvas is.
pub struct ViewportSpec<T> {
    pub bottom: T,
    pub top: T,
    pub left: T,
    pub right: T,
    pub canvas_height: T,
    pub canvas_width: T,
}

/// What the projection takes from the viewport.
pub struct Placement<T> {
    /// Canvas width over canvas height.
    pub aspect: T,
    /// The uniform scale: the height of the viewport over that of the canvas.
    pub scale: T,
    /// Translation along X.
    pub tx: T,
    /// Translation along Y.
    pub ty: T,
}

/// `ratio` is an outcome of `(high - low) / extent`.
pub open spec fn is_span_ratio<T, S: Fn(T, T) -> T, D: Fn(T, T) -> T>(
    minus: S,
    divide: D,
    high: T,
    low: T,
    extent: T,
    ratio: T,
) -> bool {
    exists|span: T|
        {
            &&& #[trigger] call_ensures(minus, (high, low), span)
            &&& call_ensures(divide, (span, extent), ratio)
        }
}

/// `shift` is an outcome of `(minus_one + ratio) + (two * low) / extent`.
pub open spec fn is_shift<T, P: Fn(T, T) -> T, M: Fn(T, T) -> T, D: Fn(T, T) -> T>(
    plus: P,
    times: M,
    divide: D,
    minus_one: T,
    two: T,
    ratio: T,
    low: T,
    extent: T,
    shift: T,
) -> bool {
    exists|base: T, doubled: T, offset: T|
        {
            &&& #[trigger] call_ensures(plus, (minus_one, ratio), base)
            &&& #[trigger] call_ensures(times, (two, low), doubled)
            &&& #[trigger] call_ensures(divide, (doubled, extent), offset)
            &&& call_ensures(plus, (base, offset), shift)
        }
}

/// `placement` is an outcome of placing the viewport: the aspect is the
/// canvas width over its height; the scale is the vertical ratio, whatever
/// the horizontal one is; each translation starts from its own ratio.
pub open spec fn is_placement<
    T,
    P: Fn(T, T) -> T,
    S: Fn(T, T) -> T,
    M: Fn(T, T) -> T,
    D: Fn(T, T) -> T,
>(
    plus: P,
    minus: S,
    times: M,
    divide: D,
    viewport: ViewportSpec<T>,
    minus_one: T,
    two: T,
    placement: Placement<T>,
) -> bool {
    &&& call_ensures(divide, (viewport.canvas_width, viewport.canvas_height), placement.aspect)
    &&& is_span_ratio(
        minus,
        divide,
        viewport.top,
        viewport.bottom,
        viewport.canvas_height,
        placement.scale,
    )
    &&& exists|scale_x: T|
        {
            &&& #[trigger] is_span_ratio(
                minus,
                divide,
                viewport.right,
                viewport.left,
                viewport.canvas_width,
                scale_x,
            )
            &&& is_shift(
                plus,
                times,
                divide,
                minus_one,
                two,
                scale_x,
                viewport.left,
                viewport.canvas_width,
                placement.tx,
            )
        }
    &&& is_shift(
        plus,
        times,
        divide,
        minus_one,
        two,
        placement.scale,
        viewport.bottom,
        viewport.canvas_height,
        placement.ty,
    )
}

/// Computes `(high - low) / extent`.
fn span_ratio<T: Copy, S: Fn(T, T) -> T, D: Fn(T, T) -> T>(
    minus: &S,
    divide: &D,
    high: T,
    low: T,
    extent: T,
) -> (ratio: T)
    requires
        forall|x: T, y: T| call_requires(*minus, (x, y)),
        forall|x: T| call_requires(*divide, (x, extent)),
    ensures
        is_span_ratio(*minus, *divide, high, low, extent, ratio),
{
    let span = minus(high, low);
    divide(span, extent)
}

/// Computes `(minus_one + ratio) + (two * low) / extent`.
fn plane_shift<T: Copy, P: Fn(T, T) -> T, M: Fn(T, T) -> T, D: Fn(T, T) -> T>(
    plus: &P,
    times: &M,
    divide: &D,
    minus_one: T,
    two: T,
    ratio: T,
    low: T,
    extent: T,
) -> (moved: T)
    requires
        forall|x: T, y: T| call_requires(*plus, (x, y)),
        forall|x: T, y: T| call_requires(*times, (x, y)),
        forall|x: T| call_requires(*divide, (x, extent)),
    ensures
        is_shift(*plus, *times, *divide, minus_one, two, ratio, low, extent, moved),
{
    let base = plus(minus_one, ratio);
    let doubled = times(two, low);
    let offset = divide(doubled, extent);
    plus(base, offset)
}

/// The height or the width of the canvas has tested as zero.
pub open spec fn tested_zero<T, Z: Fn(T) -> bool>(is_zero: Z, viewport: ViewportSpec<T>) -> bool {
    call_ensures(is_zero, (viewport.canvas_height,), true) || call_ensures(
        is_zero,
        (viewport.canvas_width,),
        true,
    )
}

/// Both the height and the width of the canvas have tested as different from
/// zero.
pub open spec fn tested_nonzero<T, Z: Fn(T) -> bool>(
    is_zero: Z,
    viewport: ViewportSpec<T>,
) -> bool {
    call_ensures(is_zero, (viewport.canvas_height,), false) && call_ensures(
        is_zero,
        (viewport.canvas_width,),
        false,
    )
}

/// With a zero test that has one answer for each number, the canvas tests as
/// zero only if its height or its width is zero, and as different from zero
/// only if neither is.
pub proof fn lemma_zero_test_decides<T, Z: Fn(T) -> bool>(
    is_zero: Z,
    viewport: ViewportSpec<T>,
    zero: spec_fn(T) -> bool,
)
    requires
        forall|x: T, answer: bool| #[trigger]
            call_ensures(is_zero, (x,), answer) ==> answer == zero(x),
    ensures
        tested_zero(is_zero, viewport) ==> zero(viewport.canvas_height) || zero(
            viewport.canvas_width,
        ),
        tested_nonzero(is_zero, viewport) ==> !zero(viewport.canvas_height) && !zero(
            viewport.canvas_width,
        ),
{
}

/// `result` is an outcome of placing the viewport: a refusal as an invalid
/// viewport after the height or the width has tested as zero, or a placement
/// after both have tested as different from zero.
pub open spec fn is_placed<
    T,
    Z: Fn(T) -> bool,
    P: Fn(T, T) -> T,
    S: Fn(T, T) -> T,
    M: Fn(T, T) -> T,
    D: Fn(T, T) -> T,
>(
    is_zero: Z,
    plus: P,
    minus: S,
    times: M,
    divide: D,
    viewport: ViewportSpec<T>,
    minus_one: T,
    two: T,
    result: Result<Placement<T>, GeometryError>,
) -> bool {
    match result {
        Ok(placement) => {
            &&& tested_nonzero(is_zero, viewport)
            &&& is_placement(plus, minus, times, divide, viewport, minus_one, two, placement)
        },
        Err(error) => {
            &&& error == GeometryError::InvalidViewport
            &&& tested_zero(is_zero, viewport)
        },
    }
}

/// Places the viewport on the canvas.
///
/// A canvas whose height or width tests as zero is refused as an invalid
/// viewport, and nothing is divided by it. Any other canvas gives the aspect
/// ratio, the uniform scale and the translation in the plane. The division
/// needs to accept only divisors that have tested as different from zero.
pub fn place_viewport<
    T: Copy,
    Z: Fn(T) -> bool,
    P: Fn(T, T) -> T,
    S: Fn(T, T) -> T,
    M: Fn(T, T) -> T,
    D: Fn(T, T) -> T,
>(
    viewport: &ViewportSpec<T>,
    minus_one: T,
    two: T,
    is_zero: &Z,
    plus: &P,
    minus: &S,
    times: &M,
    divide: &D,
) -> (result: Result<Placement<T>, GeometryError>)
    requires
        forall|x: T| call_requires(*is_zero, (x,)),
        forall|x: T, y: T| call_requires(*plus, (x, y)),
        forall|x: T, y: T| call_requires(*minus, (x, y)),
        forall|x: T, y: T| call_requires(*times, (x, y)),
        forall|x: T, y: T|
            call_ensures(*is_zero, (y,), false) ==> #[trigger] call_requires(*divide, (x, y)),
    ensures
        is_placed(
            *is_zero,
            *plus,
            *minus,
            *times,
            *divide,
            *viewport,
            minus_one,
            two,
            result,
        ),
{
    if is_zero(viewport.canvas_height) {
        return Err(GeometryError::InvalidViewport);
    }
    if is_zero(viewport.canvas_width) {
        return Err(GeometryError::InvalidViewport);
    }
    let aspect = divide(viewport.canvas_width, viewport.canvas_height);
    let scale_x = span_ratio(minus, divide, viewport.right, viewport.left, viewport.canvas_width);
    let scale_y = span_ratio(minus, divide, viewport.top, viewport.bottom, viewport.canvas_height);
    let tx = plane_shift(
        plus,
        times,
        divide,
        minus_one,
        two,
        scale_x,
        viewport.left,
        viewport.canvas_width,
    );
    let ty = plane_shift(
        plus,
        times,
        divide,
        minus_one,
        two,
        scale_y,
        viewport.bottom,
        viewport.canvas_height,
    );
    proof {
        assert(is_span_ratio(
            *minus,
            *divide,
            viewport.right,
            viewport.left,
            viewport.canvas_width,
            scale_x,
        ));
    }
    Ok(Placement { aspect, scale: scale_y, tx, ty })
}

/// With a zero test that has one answer for each number, a viewport is
/// refused exactly when the height or the width of its canvas is zero, and
/// then as an invalid viewport.
pub proof fn lemma_refused_iff_zero<
    T,
    Z: Fn(T) -> bool,
    P: Fn(T, T) -> T,
    S: Fn(T, T) -> T,
    M: Fn(T, T) -> T,
    D: Fn(T, T) -> T,
>(
    is_zero: Z,
    plus: P,
    minus: S,
    times: M,
    divide: D,
    viewport: ViewportSpec<T>,
    minus_one: T,
    two: T,
    result: Result<Placement<T>, GeometryError>,
    zero: spec_fn(T) -> bool,
)
    requires
        forall|x: T, answer: bool| #[trigger]
            call_ensures(is_zero, (x,), answer) ==> answer == zero(x),
        is_placed(is_zero, plus, minus, times, divide, viewport, minus_one, two, result),
    ensures
        result is Err <==> zero(viewport.canvas_height) || zero(viewport.canvas_width),
        result is Err ==> result == Err::<Placement<T>, GeometryError>(
            GeometryError::InvalidViewport,
        ),
{
}

} // verus!
