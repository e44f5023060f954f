use graph3d::cube::{get_cube_mesh, CubeMesh};

fn corner(mesh: &CubeMesh, vertex: usize) -> [i32; 3] {
    [mesh.positions[3 * vertex], mesh.positions[3 * vertex + 1], mesh.positions[3 * vertex + 2]]
}

fn normal(mesh: &CubeMesh, vertex: usize) -> [i32; 3] {
    [mesh.normals[3 * vertex], mesh.normals[3 * vertex + 1], mesh.normals[3 * vertex + 2]]
}

fn dot(a: [i32; 3], b: [i32; 3]) -> i32 {
    a[0] * b[0] + a[1] * b[1] + a[2] * b[2]
}

fn cross(a: [i32; 3], b: [i32; 3]) -> [i32; 3] {
    [a[1] * b[2] - a[2] * b[1], a[2] * b[0] - a[0] * b[2], a[0] * b[1] - a[1] * b[0]]
}

fn minus(a: [i32; 3], b: [i32; 3]) -> [i32; 3] {
    [a[0] - b[0], a[1] - b[1], a[2] - b[2]]
}

#[test]
fn cube_has_six_faces_of_four_corners() {
    let mesh = get_cube_mesh();
    assert_eq!(mesh.positions.len(), 72);
    assert_eq!(mesh.normals.len(), 72);
    assert_eq!(mesh.indices.len(), 36);
    assert!(mesh.indices.iter().all(|&i| i < 24));
    assert!(mesh.positions.iter().all(|&p| p == 1 || p == -1));
}

#[test]
fn cube_corners_face_by_face() {
    let mesh = get_cube_mesh();
    assert_eq!(
        mesh.positions,
        vec![
            1, -1, -1, 1, 1, -1, 1, 1, 1, 1, -1, 1, //
            -1, -1, -1, -1, -1, 1, -1, 1, 1, -1, 1, -1, //
            -1, 1, -1, -1, 1, 1, 1, 1, 1, 1, 1, -1, //
            -1, -1, -1, 1, -1, -1, 1, -1, 1, -1, -1, 1, //
            -1, -1, 1, 1, -1, 1, 1, 1, 1, -1, 1, 1, //
            -1, -1, -1, -1, 1, -1, 1, 1, -1, 1, -1, -1,
        ]
    );
}

#[test]
fn cube_normals_face_by_face() {
    let mesh = get_cube_mesh();
    let faces = [[1, 0, 0], [-1, 0, 0], [0, 1, 0], [0, -1, 0], [0, 0, 1], [0, 0, -1]];
    for vertex in 0..24 {
        assert_eq!(normal(&mesh, vertex), faces[vertex / 4]);
        assert_eq!(dot(corner(&mesh, vertex), normal(&mesh, vertex)), 1);
    }
}

#[test]
fn cube_indices_face_by_face() {
    let mesh = get_cube_mesh();
    assert_eq!(&mesh.indices[0..6], &[0, 1, 2, 0, 2, 3]);
    assert_eq!(&mesh.indices[6..12], &[4, 5, 6, 4, 6, 7]);
    assert_eq!(&mesh.indices[30..36], &[20, 21, 22, 20, 22, 23]);
    for face in 0..6u16 {
        let first = 4 * face;
        let at = 6 * face as usize;
        assert_eq!(
            &mesh.indices[at..at + 6],
            &[first, first + 1, first + 2, first, first + 2, first + 3]
        );
    }
}

#[test]
fn cube_triangles_wind_counter_clockwise_from_outside() {
    let mesh = get_cube_mesh();
    for triangle in mesh.indices.chunks(3) {
        let a = corner(&mesh, triangle[0] as usize);
        let b = corner(&mesh, triangle[1] as usize);
        let c = corner(&mesh, triangle[2] as usize);
        let facing = cross(minus(b, a), minus(c, a));
        assert_eq!(dot(facing, normal(&mesh, triangle[0] as usize)), 4);
        assert_eq!(normal(&mesh, triangle[0] as usize), normal(&mesh, triangle[1] as usize));
        assert_eq!(normal(&mesh, triangle[0] as usize), normal(&mesh, triangle[2] as usize));
    }
}

#[test]
fn cube_is_built_the_same_each_time() {
    assert_eq!(get_cube_mesh(), get_cube_mesh());
}
