use graph3d::grid::get_position_grid_n_by_n;
use graph3d::heights::{
    get_sample_offsets, get_updated_3d_y_values, sample_index_of, SampleOffset,
};
use graph3d::GRID_SIZE;

const PI: f32 = std::f32::consts::PI;

fn wave(resolution: usize, time: f32) -> impl Fn(i64, i64) -> f32 {
    let half = (resolution + 1) as f32 / 2.0;
    move |dx: i64, dz: i64| {
        let sx = 3.0 * PI * (dx as f32 / 2.0) / half;
        let sz = 3.0 * PI * (dz as f32 / 2.0) / half;
        0.15 * ((sx * sx + sz * sz).sqrt() + time / 500.0).sin()
    }
}

fn sample_heights(time: f32, resolution: usize) -> Vec<f32> {
    get_updated_3d_y_values(resolution, &wave(resolution, time))
}

#[test]
fn one_sample_per_grid_vertex() {
    for resolution in [0usize, 1, 2, 9, GRID_SIZE] {
        let offsets = get_sample_offsets(resolution);
        assert_eq!(offsets.len(), (resolution + 1) * (resolution + 1));
        let mesh = get_position_grid_n_by_n(resolution).expect("supported resolution");
        assert_eq!(3 * offsets.len(), mesh.positions.len());
        assert_eq!(sample_heights(0.0, resolution).len(), offsets.len());
    }
    assert_eq!(get_sample_offsets(GRID_SIZE).len(), 10201);
    assert_eq!(sample_heights(16.0, GRID_SIZE).len(), 10201);
}

#[test]
fn offsets_of_a_small_field() {
    let offsets = get_sample_offsets(2);
    let expected: Vec<SampleOffset> = [
        (-3, -3), (-1, -3), (1, -3), //
        (-3, -1), (-1, -1), (1, -1), //
        (-3, 1), (-1, 1), (1, 1),
    ]
    .iter()
    .map(|&(dx, dz)| SampleOffset { dx, dz })
    .collect();
    assert_eq!(offsets, expected);
}

#[test]
fn samples_are_laid_out_row_by_row() {
    assert_eq!(sample_index_of(2, 0, 0), 0);
    assert_eq!(sample_index_of(2, 1, 2), 7);
    assert_eq!(sample_index_of(2, 2, 1), 5);
    assert_eq!(sample_index_of(GRID_SIZE, 100, 100), 10200);
    let resolution = 5usize;
    let offsets = get_sample_offsets(resolution);
    for z in 0..=resolution {
        for x in 0..=resolution {
            let at = sample_index_of(resolution, x, z);
            assert_eq!(at, z * (resolution + 1) + x);
            assert_eq!(offsets[at].dx, 2 * x as i64 - 6);
            assert_eq!(offsets[at].dz, 2 * z as i64 - 6);
        }
    }
}

#[test]
fn heights_are_the_height_function_of_the_offsets() {
    let tagged = get_updated_3d_y_values(2, &|dx: i64, dz: i64| 100 * dz + dx);
    assert_eq!(tagged, vec![-303, -301, -299, -103, -101, -99, 97, 99, 101]);
    let offsets = get_sample_offsets(7);
    let pairs = get_updated_3d_y_values(7, &|dx: i64, dz: i64| SampleOffset { dx, dz });
    assert_eq!(pairs, offsets);
}

#[test]
fn even_resolution_has_no_sample_at_the_centre() {
    let offsets = get_sample_offsets(2);
    assert!(offsets.iter().all(|o| o.dx != 0 && o.dz != 0));
    let nearest = offsets[sample_index_of(2, 1, 1)];
    assert_eq!(nearest, SampleOffset { dx: -1, dz: -1 });
    let heights = sample_heights(0.0, 2);
    let middle = heights[sample_index_of(2, 1, 1)];
    assert!((middle - 0.15 * (2.0f32.sqrt() * PI).sin()).abs() < 1e-6);
    assert!((middle + 0.144586).abs() < 1e-5);
}

#[test]
fn odd_resolution_has_a_sample_at_the_centre() {
    let offsets = get_sample_offsets(3);
    let centre = sample_index_of(3, 2, 2);
    assert_eq!(offsets[centre], SampleOffset { dx: 0, dz: 0 });
    assert_eq!(sample_heights(0.0, 3)[centre], 0.0);
    assert!((sample_heights(250.0, 3)[centre] - 0.15 * 0.5f32.sin()).abs() < 1e-7);
}

#[test]
fn heights_follow_the_wave() {
    let heights = sample_heights(0.0, 2);
    let far = 3.0 * 2.0f32.sqrt() * PI;
    assert!((heights[0] - 0.15 * far.sin()).abs() < 1e-5);
    let radius = 2.0f32.sqrt() * PI;
    let later = sample_heights(500.0, 2);
    assert!((later[4] - 0.15 * (radius + 1.0).sin()).abs() < 1e-6);
    assert!(sample_heights(1234.0, GRID_SIZE).iter().all(|y| y.abs() <= 0.15));
}

#[test]
fn heights_are_reproducible() {
    let first = sample_heights(777.0, GRID_SIZE);
    let second = sample_heights(777.0, GRID_SIZE);
    assert!(first.iter().zip(second.iter()).all(|(a, b)| a.to_bits() == b.to_bits()));
}
