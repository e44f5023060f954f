use graph3d::matrix::{mult_matrix_4, scaling_matrix, translation_matrix};

fn product(a: &[f32; 16], b: &[f32; 16]) -> [f32; 16] {
    mult_matrix_4(a, b, &|x: f32, y: f32| x * y, &|x: f32, y: f32| x + y)
}

fn whole_product(a: &[i64; 16], b: &[i64; 16]) -> [i64; 16] {
    mult_matrix_4(a, b, &|x: i64, y: i64| x * y, &|x: i64, y: i64| x + y)
}

fn identity() -> [f32; 16] {
    scaling_matrix(1.0, 1.0, 1.0, 0.0, 1.0)
}

fn sample() -> [f32; 16] {
    [
        0.5, -1.25, 3.0, 0.0, //
        2.0, 0.125, -7.5, 1.0, //
        -0.75, 4.0, 9.0, -2.0, //
        10.0, -3.5, 0.25, 1.0,
    ]
}

fn close(a: &[f32; 16], b: &[f32; 16], tolerance: f32) -> bool {
    a.iter().zip(b.iter()).all(|(x, y)| (x - y).abs() <= tolerance)
}

#[test]
fn translation_sits_in_entries_twelve_to_fourteen() {
    let mat = translation_matrix(2.0f32, -3.0, 4.5, 0.0, 1.0);
    assert_eq!(
        mat,
        [
            1.0, 0.0, 0.0, 0.0, //
            0.0, 1.0, 0.0, 0.0, //
            0.0, 0.0, 1.0, 0.0, //
            2.0, -3.0, 4.5, 1.0,
        ]
    );
}

#[test]
fn scaling_sits_on_the_diagonal() {
    let mat = scaling_matrix(2.0f32, -3.0, 0.0, 0.0, 1.0);
    assert_eq!(
        mat,
        [
            2.0, 0.0, 0.0, 0.0, //
            0.0, -3.0, 0.0, 0.0, //
            0.0, 0.0, 0.0, 0.0, //
            0.0, 0.0, 0.0, 1.0,
        ]
    );
    assert_eq!(scaling_matrix(7, 8, 9, 0, 1)[10], 9);
}

#[test]
fn translation_by_nothing_and_scaling_by_one_are_the_identity() {
    assert_eq!(translation_matrix(0.0f32, 0.0, 0.0, 0.0, 1.0), identity());
}

#[test]
fn product_is_row_by_column() {
    let a: [i64; 16] = [1, 2, 3, 4, 5, 6, 7, 8, 9, 10, 11, 12, 13, 14, 15, 16];
    let b: [i64; 16] = [17, 18, 19, 20, 21, 22, 23, 24, 25, 26, 27, 28, 29, 30, 31, 32];
    assert_eq!(
        whole_product(&a, &b),
        [
            250, 260, 270, 280, //
            618, 644, 670, 696, //
            986, 1028, 1070, 1112, //
            1354, 1412, 1470, 1528,
        ]
    );
    assert_eq!(
        whole_product(&b, &a),
        [
            538, 612, 686, 760, //
            650, 740, 830, 920, //
            762, 868, 974, 1080, //
            874, 996, 1118, 1240,
        ]
    );
}

#[test]
fn product_sums_from_left_to_right() {
    let mut a = [0.0f32; 16];
    let mut b = [0.0f32; 16];
    a[0] = 1.0e8;
    a[1] = -1.0e8;
    a[2] = 1.0;
    b[0] = 1.0;
    b[4] = 1.0;
    b[8] = 1.0;
    assert_eq!(product(&a, &b)[0], 1.0);
    a[0] = 1.0;
    a[1] = 1.0e8;
    a[2] = -1.0e8;
    assert_eq!(product(&a, &b)[0], 0.0);
}

#[test]
fn identity_on_either_side_changes_nothing() {
    let m = sample();
    assert!(close(&product(&identity(), &m), &m, 1e-5));
    assert!(close(&product(&m, &identity()), &m, 1e-5));
    assert_eq!(product(&identity(), &m), m);
    assert_eq!(product(&m, &identity()), m);
}

#[test]
fn product_does_not_commute() {
    let scale = scaling_matrix(2.0f32, 2.0, 2.0, 0.0, 1.0);
    let shift = translation_matrix(1.0f32, 0.0, 0.0, 0.0, 1.0);
    let scale_then_shift = product(&scale, &shift);
    let shift_then_scale = product(&shift, &scale);
    assert_eq!(scale_then_shift[12], 1.0);
    assert_eq!(shift_then_scale[12], 2.0);
    assert!(!close(&scale_then_shift, &shift_then_scale, 1e-5));
}

#[test]
fn product_uses_the_operations_it_is_given() {
    let a = [true; 16];
    let mut b = [false; 16];
    b[0] = true;
    b[4] = true;
    b[9] = true;
    let r = mult_matrix_4(&a, &b, &|x: bool, y: bool| x && y, &|x: bool, y: bool| x != y);
    assert!(!r[0]);
    assert!(r[1]);
    assert!(!r[2]);
}
