use graph3d::viewport::{place_viewport, Placement, ViewportSpec};
use graph3d::GeometryError;

fn place(viewport: &ViewportSpec<f32>) -> Result<Placement<f32>, GeometryError> {
    place_viewport(
        viewport,
        -1.0,
        2.0,
        &|x: f32| x == 0.0,
        &|x: f32, y: f32| x + y,
        &|x: f32, y: f32| x - y,
        &|x: f32, y: f32| x * y,
        &|x: f32, y: f32| x / y,
    )
}

fn place_whole(viewport: &ViewportSpec<i32>) -> Result<Placement<i32>, GeometryError> {
    place_viewport(
        viewport,
        -1,
        2,
        &|x: i32| x == 0,
        &|x: i32, y: i32| x + y,
        &|x: i32, y: i32| x - y,
        &|x: i32, y: i32| x * y,
        &|x: i32, y: i32| x / y,
    )
}

fn square(canvas_height: f32, canvas_width: f32) -> ViewportSpec<f32> {
    ViewportSpec { bottom: -1.0, top: 1.0, left: -1.0, right: 1.0, canvas_height, canvas_width }
}

#[test]
fn canvas_of_zero_height_is_an_invalid_viewport() {
    assert!(matches!(place(&square(0.0, 600.0)), Err(GeometryError::InvalidViewport)));
}

#[test]
fn canvas_of_zero_width_is_an_invalid_viewport() {
    assert!(matches!(place(&square(600.0, 0.0)), Err(GeometryError::InvalidViewport)));
    assert!(matches!(place(&square(0.0, 0.0)), Err(GeometryError::InvalidViewport)));
}

#[test]
fn negative_zero_is_zero_too() {
    assert!(matches!(place(&square(-0.0, 600.0)), Err(GeometryError::InvalidViewport)));
    assert!(matches!(place(&square(600.0, -0.0)), Err(GeometryError::InvalidViewport)));
}

#[test]
fn zero_canvas_is_refused_before_any_division() {
    let viewport = ViewportSpec {
        bottom: 2,
        top: 14,
        left: 4,
        right: 20,
        canvas_height: 0,
        canvas_width: 8,
    };
    assert!(matches!(place_whole(&viewport), Err(GeometryError::InvalidViewport)));
    let viewport = ViewportSpec { canvas_height: 4, canvas_width: 0, ..viewport };
    assert!(matches!(place_whole(&viewport), Err(GeometryError::InvalidViewport)));
}

#[test]
fn placement_of_a_half_canvas() {
    let viewport = ViewportSpec {
        bottom: 0.0,
        top: 300.0,
        left: 0.0,
        right: 600.0,
        canvas_height: 600.0,
        canvas_width: 1200.0,
    };
    let placement = place(&viewport).expect("valid canvas");
    assert_eq!(placement.aspect, 2.0);
    assert_eq!(placement.scale, 0.5);
    assert_eq!(placement.tx, -0.5);
    assert_eq!(placement.ty, -0.5);
}

#[test]
fn placement_in_whole_numbers() {
    let viewport = ViewportSpec {
        bottom: 2,
        top: 14,
        left: 4,
        right: 20,
        canvas_height: 4,
        canvas_width: 8,
    };
    let placement = place_whole(&viewport).expect("valid canvas");
    assert_eq!(placement.aspect, 2);
    assert_eq!(placement.scale, 3);
    assert_eq!(placement.tx, 2);
    assert_eq!(placement.ty, 3);
}

#[test]
fn scale_is_the_vertical_ratio_alone() {
    let tall = ViewportSpec {
        bottom: 0.0,
        top: 400.0,
        left: 0.0,
        right: 100.0,
        canvas_height: 800.0,
        canvas_width: 800.0,
    };
    let placement = place(&tall).expect("valid canvas");
    assert_eq!(placement.scale, 0.5);
    assert_eq!(placement.aspect, 1.0);
    assert_eq!(placement.tx, -1.0 + 0.125);
    assert_eq!(placement.ty, -0.5);
    let wide = ViewportSpec { top: 100.0, right: 400.0, ..tall };
    let placement = place(&wide).expect("valid canvas");
    assert_eq!(placement.scale, 0.125);
    assert_eq!(placement.tx, -0.5);
}

#[test]
fn placement_of_the_unit_square_on_a_square_canvas() {
    let placement = place(&square(600.0, 600.0)).expect("valid canvas");
    assert_eq!(placement.aspect, 1.0);
    assert!((placement.scale - 2.0 / 600.0).abs() < 1e-9);
    assert!((placement.tx + 1.0).abs() < 1e-6);
    assert!((placement.ty + 1.0).abs() < 1e-6);
}
