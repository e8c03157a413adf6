use eclale::error::ChartMalformed;
use eclale::geometry::{to_xz, Mesh, Plane, Point2, Point3, Polyhedron, MAX_SIDE_POINTS};

fn p(x: i64, z: i64) -> Point3 {
    Point3 { x, y: 0, z }
}

#[test]
fn a_strip_between_equal_sides_has_two_vertices_a_point_and_six_indices_a_step() {
    for length in 2..10usize {
        let left: Vec<Point3> = (0..length).map(|i| p(-1, i as i64)).collect();
        let right: Vec<Point3> = (0..length).map(|i| p(1, i as i64)).collect();
        let plane = Plane::triangulate_from_two_sides(left.clone(), right.clone());
        assert_eq!(plane.vertices.len(), 2 * length);
        assert_eq!(plane.indices.len(), 6 * (length - 1));
        for i in 0..length {
            assert_eq!(plane.vertices[2 * i], left[i]);
            assert_eq!(plane.vertices[2 * i + 1], right[i]);
        }
        assert!(plane.indices.iter().all(|i| (*i as usize) < plane.vertices.len()));
    }
}

#[test]
fn the_indices_of_a_strip_of_three_points_a_side() {
    let plane = Plane::triangulate_from_two_sides(vec![p(0, 0), p(0, 1), p(0, 2)], vec![p(1, 0), p(1, 1), p(1, 2)]);
    assert_eq!(plane.indices, vec![0, 1, 2, 1, 2, 3, 2, 3, 4, 3, 4, 5]);
    assert_eq!(plane.vertices, vec![p(0, 0), p(1, 0), p(0, 1), p(1, 1), p(0, 2), p(1, 2)]);
}

#[test]
fn the_shortest_strip_is_one_quad() {
    let plane = Plane::triangulate_from_two_sides(vec![p(0, 0), p(0, 1)], vec![p(1, 0), p(1, 1)]);
    assert_eq!(plane.vertices.len(), 4);
    assert_eq!(plane.indices, vec![0, 1, 2, 1, 2, 3]);
}

#[test]
fn the_shorter_side_repeats_its_last_point() {
    let plane = Plane::triangulate_from_two_sides(
        vec![p(0, 0), p(0, 1), p(0, 2), p(0, 3)],
        vec![p(1, 0), p(1, 1)],
    );
    assert_eq!(
        plane.vertices,
        vec![p(0, 0), p(1, 0), p(0, 1), p(1, 1), p(0, 2), p(1, 1), p(0, 3), p(1, 1)]
    );
    assert_eq!(plane.indices.len(), 18);
    let plane = Plane::triangulate_from_two_sides(
        vec![p(0, 0), p(0, 1)],
        vec![p(1, 0), p(1, 1), p(1, 2)],
    );
    assert_eq!(plane.vertices, vec![p(0, 0), p(1, 0), p(0, 1), p(1, 1), p(0, 1), p(1, 2)]);
    assert_eq!(plane.indices, vec![0, 1, 2, 1, 2, 3, 2, 3, 4, 3, 4, 5]);
}

#[test]
fn a_side_of_one_point_is_a_degenerate_strip() {
    let r = Plane::checked_triangulate_from_two_sides(vec![p(0, 0)], vec![p(1, 0), p(1, 1)]);
    assert_eq!(r.err(), Some(ChartMalformed::DegenerateStrip));
    let r = Plane::checked_triangulate_from_two_sides(vec![p(0, 0), p(0, 1)], Vec::new());
    assert_eq!(r.err(), Some(ChartMalformed::DegenerateStrip));
    let r = Plane::checked_triangulate_from_two_sides(vec![p(0, 0), p(0, 1)], vec![p(1, 0), p(1, 1)]);
    assert_eq!(r.unwrap().indices, vec![0, 1, 2, 1, 2, 3]);
}

#[test]
fn a_side_too_long_for_16_bit_indices_is_out_of_range() {
    let long: Vec<Point3> = (0..MAX_SIDE_POINTS + 1).map(|i| p(0, i as i64)).collect();
    let r = Plane::checked_triangulate_from_two_sides(long, vec![p(1, 0), p(1, 1)]);
    assert_eq!(r.err(), Some(ChartMalformed::ValueOutOfRange));
    // A side of one point is reported first.
    let long: Vec<Point3> = (0..MAX_SIDE_POINTS + 1).map(|i| p(0, i as i64)).collect();
    let r = Plane::checked_triangulate_from_two_sides(long, vec![p(1, 0)]);
    assert_eq!(r.err(), Some(ChartMalformed::DegenerateStrip));
    let longest: Vec<Point3> = (0..MAX_SIDE_POINTS).map(|i| p(0, i as i64)).collect();
    let plane = Plane::checked_triangulate_from_two_sides(longest, vec![p(1, 0), p(1, 1)]).unwrap();
    assert_eq!(plane.vertices.len(), 65536);
    assert_eq!(*plane.indices.last().unwrap(), 65535);
}

#[test]
fn a_quad_on_the_ground() {
    let plane = Plane::quad(
        Point2 { x: 0, y: 0 },
        Point2 { x: 1, y: 0 },
        Point2 { x: 0, y: 2 },
        Point2 { x: 1, y: 2 },
    );
    assert_eq!(plane.vertices, vec![p(0, 0), p(1, 0), p(0, 2), p(1, 2)]);
    assert_eq!(plane.indices, vec![0, 1, 2, 1, 2, 3]);
    assert_eq!(to_xz(Point2 { x: 3, y: 4 }), Point3 { x: 3, y: 0, z: 4 });
    let mesh = plane.to_mesh();
    assert_eq!(mesh.vertices.len(), 4);
    assert_eq!(mesh.indices.len(), 6);
}

#[test]
fn a_mesh_moves_by_a_translation() {
    let mesh = Mesh::from_indices(vec![p(0, 0), p(1, 0), p(0, 1)], vec![0, 1, 2]);
    let copy = mesh.duplicate();
    assert_eq!(copy.vertices, mesh.vertices);
    assert_eq!(copy.indices, mesh.indices);
    let moved = mesh.transform(&Point3 { x: 10, y: -5_000, z: 3 }).unwrap();
    assert_eq!(
        moved.vertices,
        vec![
            Point3 { x: 10, y: -5_000, z: 3 },
            Point3 { x: 11, y: -5_000, z: 3 },
            Point3 { x: 10, y: -5_000, z: 4 }
        ]
    );
    assert_eq!(moved.indices, vec![0, 1, 2]);
    let far = Mesh::from_indices(vec![p(i64::MAX, 0)], Vec::new());
    assert!(far.transform(&Point3 { x: 1, y: 0, z: 0 }).is_none());
}

#[test]
fn a_cuboid_about_the_origin() {
    let cuboid = Polyhedron::cuboid(250_000, 100_000, 100_000);
    assert_eq!(
        cuboid.vertices,
        vec![
            Point3 { x: -125_000, y: -50_000, z: -50_000 },
            Point3 { x: 125_000, y: -50_000, z: -50_000 },
            Point3 { x: -125_000, y: 50_000, z: -50_000 },
            Point3 { x: 125_000, y: 50_000, z: -50_000 },
            Point3 { x: -125_000, y: -50_000, z: 50_000 },
            Point3 { x: 125_000, y: -50_000, z: 50_000 },
            Point3 { x: -125_000, y: 50_000, z: 50_000 },
            Point3 { x: 125_000, y: 50_000, z: 50_000 },
        ]
    );
    assert_eq!(
        cuboid.indices,
        vec![
            0, 1, 2, 1, 2, 3, 4, 5, 6, 5, 6, 7, 4, 0, 6, 0, 6, 2, 1, 5, 3, 5, 3, 7, 2, 3, 6, 3, 6,
            7, 0, 1, 4, 1, 4, 5
        ]
    );
    let odd = Polyhedron::cuboid(5, 0, -5);
    assert_eq!(odd.vertices[0], Point3 { x: -2, y: 0, z: 3 });
    assert_eq!(odd.vertices[7], Point3 { x: 2, y: 0, z: -3 });
    assert_eq!(odd.to_mesh().vertices.len(), 8);
}
