use rover_controller_app::graphics::{disk_mesh, square_mesh, Coordinate, MeshError, Vertex};

fn point(x_num: i32, y_num: i32, den: u32) -> Vertex {
    Vertex { x: Coordinate::Ratio { num: x_num, den }, y: Coordinate::Ratio { num: y_num, den } }
}

fn on_rim(step: u16, of: u16) -> Vertex {
    Vertex { x: Coordinate::Sine { step, of }, y: Coordinate::Cosine { step, of } }
}

fn value(coordinate: Coordinate) -> f64 {
    match coordinate {
        Coordinate::Ratio { num, den } => num as f64 / den as f64,
        Coordinate::Sine { step, of } => {
            (2.0 * std::f64::consts::PI / of as f64 * step as f64).sin()
        }
        Coordinate::Cosine { step, of } => {
            (2.0 * std::f64::consts::PI / of as f64 * step as f64).cos()
        }
    }
}

fn close_to(vertex: Vertex, x: f64, y: f64) -> bool {
    (value(vertex.x) - x).abs() < 1e-9 && (value(vertex.y) - y).abs() < 1e-9
}

fn well_formed(coordinate: Coordinate) -> bool {
    match coordinate {
        Coordinate::Ratio { den, .. } => den > 0,
        Coordinate::Sine { step, of } => step < of,
        Coordinate::Cosine { step, of } => step < of,
    }
}

#[test]
fn disk_of_three_has_four_vertices_and_three_triangles() {
    let (vertices, indices) = disk_mesh(3).unwrap();
    assert_eq!(vertices.len(), 4);
    assert_eq!(indices.len(), 9);
    assert_eq!(vertices, vec![point(0, 0, 1), point(0, 1, 1), on_rim(1, 3), on_rim(2, 3)]);
    assert_eq!(indices, vec![0, 1, 2, 0, 2, 3, 0, 3, 1]);
}

#[test]
fn disk_of_four_is_a_square_on_its_corner() {
    let (vertices, indices) = disk_mesh(4).unwrap();
    assert_eq!(vertices.len(), 5);
    assert_eq!(indices.len(), 12);
    assert!(close_to(vertices[0], 0.0, 0.0));
    assert!(close_to(vertices[1], 0.0, 1.0));
    assert!(close_to(vertices[2], 1.0, 0.0));
    assert!(close_to(vertices[3], 0.0, -1.0));
    assert!(close_to(vertices[4], -1.0, 0.0));
    assert_eq!(indices, vec![0, 1, 2, 0, 2, 3, 0, 3, 4, 0, 4, 1]);
}

#[test]
fn disk_of_five_is_exact() {
    let (vertices, indices) = disk_mesh(5).unwrap();
    assert_eq!(
        vertices,
        vec![
            point(0, 0, 1),
            point(0, 1, 1),
            on_rim(1, 5),
            on_rim(2, 5),
            on_rim(3, 5),
            on_rim(4, 5),
        ]
    );
    assert_eq!(indices, vec![0, 1, 2, 0, 2, 3, 0, 3, 4, 0, 4, 5, 0, 5, 1]);
}

#[test]
fn disk_of_six_starts_at_the_top_and_closes_the_fan() {
    let (vertices, indices) = disk_mesh(6).unwrap();
    assert_eq!(vertices[0], point(0, 0, 1));
    assert_eq!(vertices[1], point(0, 1, 1));
    assert_eq!(&indices[0..3], &[0, 1, 2]);
    assert_eq!(&indices[3..6], &[0, 2, 3]);
    assert_eq!(&indices[6..9], &[0, 3, 4]);
    assert_eq!(&indices[9..12], &[0, 4, 5]);
    assert_eq!(&indices[12..15], &[0, 5, 6]);
    assert_eq!(&indices[15..18], &[0, 6, 1]);
    assert_eq!(indices.len(), 18);
    assert!(close_to(vertices[2], 0.75f64.sqrt(), 0.5));
    assert!(close_to(vertices[4], 0.0, -1.0));
}

#[test]
fn disk_rejects_fewer_than_three_triangles() {
    assert_eq!(disk_mesh(0), Err(MeshError::InvalidArgument));
    assert_eq!(disk_mesh(1), Err(MeshError::InvalidArgument));
    assert_eq!(disk_mesh(2), Err(MeshError::InvalidArgument));
    assert!(disk_mesh(3).is_ok());
}

#[test]
fn disk_counts_and_index_range_hold_for_many_sizes() {
    for n in [3u16, 4, 5, 6, 7, 16, 17, 255, 256, 1000, 65534, 65535] {
        let (vertices, indices) = disk_mesh(n).unwrap();
        assert_eq!(vertices.len(), n as usize + 1);
        assert_eq!(indices.len(), 3 * n as usize);
        assert!(indices.iter().all(|&index| index <= n));
        assert!(indices.iter().all(|&index| (index as usize) < vertices.len()));
        assert!(vertices.iter().all(|v| well_formed(v.x) && well_formed(v.y)));
        let last = indices.len() - 3;
        assert_eq!(&indices[last..], &[0, n, 1]);
    }
}

#[test]
fn disk_triangles_join_the_centre_to_neighbours_on_the_rim() {
    let n: u16 = 12;
    let (vertices, indices) = disk_mesh(n).unwrap();
    for t in 0..n as usize {
        let corners = &indices[3 * t..3 * t + 3];
        assert_eq!(corners[0], 0);
        assert_eq!(corners[1] as usize, t + 1);
        assert_eq!(corners[2] as usize, if t + 1 < n as usize { t + 2 } else { 1 });
    }
    for i in 2..=n {
        assert_eq!(vertices[i as usize], on_rim(i - 1, n));
    }
    for i in 0..vertices.len() {
        for j in i + 1..vertices.len() {
            assert_ne!(vertices[i], vertices[j]);
        }
    }
}

#[test]
fn disk_of_the_largest_size_keeps_every_index() {
    let (vertices, indices) = disk_mesh(u16::MAX).unwrap();
    assert_eq!(vertices.len(), 65536);
    assert_eq!(indices.len(), 196605);
    assert_eq!(vertices[65535], on_rim(65534, 65535));
    assert_eq!(&indices[196599..196602], &[0, 65534, 65535]);
    assert_eq!(&indices[196602..], &[0, 65535, 1]);
}

#[test]
fn disk_is_the_same_on_every_call() {
    assert_eq!(disk_mesh(9), disk_mesh(9));
    assert_ne!(disk_mesh(9), disk_mesh(10));
}

#[test]
fn square_is_the_unit_square() {
    let (vertices, indices) = square_mesh();
    assert_eq!(
        vertices,
        vec![point(-1, 1, 2), point(-1, -1, 2), point(1, -1, 2), point(1, 1, 2)]
    );
    assert_eq!(indices, vec![0, 1, 2, 0, 3, 2]);
    assert!(close_to(vertices[0], -0.5, 0.5));
    assert!(close_to(vertices[1], -0.5, -0.5));
    assert!(close_to(vertices[2], 0.5, -0.5));
    assert!(close_to(vertices[3], 0.5, 0.5));
    assert_eq!(value(vertices[3].x) - value(vertices[0].x), 1.0);
    assert_eq!(value(vertices[0].y) - value(vertices[1].y), 1.0);
}

#[test]
fn square_is_the_same_on_every_call() {
    let first = square_mesh();
    let second = square_mesh();
    assert_eq!(first, second);
    assert_eq!(first, square_mesh());
}

#[test]
fn square_indices_stay_within_four_distinct_vertices() {
    let (vertices, indices) = square_mesh();
    assert_eq!(vertices.len(), 4);
    assert_eq!(indices.len(), 6);
    assert!(indices.iter().all(|&index| index <= 3));
    for i in 0..4 {
        for j in i + 1..4 {
            assert_ne!(vertices[i], vertices[j]);
        }
    }
}
