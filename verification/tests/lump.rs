use curveball::lump::{Face, Lump, Point};
use curveball::map::{LumpMap, MapElement};

const EPSILON: f64 = 0.000000001;

fn almost_equals(a: &Point, b: &Point) -> bool {
    (a.x - b.x).abs() < EPSILON && (a.y - b.y).abs() < EPSILON && (a.z - b.z).abs() < EPSILON
}

#[test]
fn test_lump_cube() {
    let points = vec![
        Point::from([0.0, 0.0, 0.0]),
        Point::from([0.0, 0.0, 1.0]),
        Point::from([0.0, 1.0, 0.0]),
        Point::from([0.0, 1.0, 1.0]),
        Point::from([1.0, 0.0, 0.0]),
        Point::from([1.0, 0.0, 1.0]),
        Point::from([1.0, 1.0, 0.0]),
        Point::from([1.0, 1.0, 1.0]),
        Point::from([0.5, 0.5, 0.5]),
    ];

    let lump = Lump::try_from_points(&points, Some(1000)).unwrap();

    let extracted_points: Vec<&Point> = lump.points().iter().collect();
    let extracted_faces: Vec<Face> = lump.to_faces();

    assert_eq!(extracted_points.len(), 8);
    assert_eq!(extracted_faces.len(), 12);
    assert!(extracted_points
        .iter()
        .any(|point| almost_equals(point, &Point::from([0.0, 0.0, 0.0]))));
    assert!(extracted_points
        .iter()
        .any(|point| almost_equals(point, &Point::from([0.0, 0.0, 1.0]))));
    assert!(extracted_points
        .iter()
        .any(|point| almost_equals(point, &Point::from([0.0, 1.0, 0.0]))));
    assert!(extracted_points
        .iter()
        .any(|point| almost_equals(point, &Point::from([0.0, 1.0, 1.0]))));
    assert!(extracted_points
        .iter()
        .any(|point| almost_equals(point, &Point::from([1.0, 0.0, 0.0]))));
    assert!(extracted_points
        .iter()
        .any(|point| almost_equals(point, &Point::from([1.0, 0.0, 1.0]))));
    assert!(extracted_points
        .iter()
        .any(|point| almost_equals(point, &Point::from([1.0, 1.0, 0.0]))));
    assert!(extracted_points
        .iter()
        .any(|point| almost_equals(point, &Point::from([1.0, 1.0, 1.0]))));
}

#[test]
fn test_lump_pyramid() {
    let points = vec![
        Point::from([0.0, 0.0, 0.0]),
        Point::from([0.0, 0.0, 1.0]),
        Point::from([0.0, 1.0, 0.0]),
        Point::from([1.0, 0.0, 0.0]),
        Point::from([0.3, 0.3, 0.3]),
    ];

    let lump = Lump::try_from_points(&points, Some(1000)).unwrap();

    let extracted_points: Vec<&Point> = lump.points().iter().collect();
    let extracted_faces: Vec<Face> = lump.to_faces();

    assert_eq!(extracted_points.len(), 4);
    assert_eq!(extracted_faces.len(), 4);

    assert!(extracted_points
        .iter()
        .any(|point| almost_equals(point, &Point::from([0.0, 0.0, 0.0]))));
    assert!(extracted_points
        .iter()
        .any(|point| almost_equals(point, &Point::from([0.0, 0.0, 1.0]))));
    assert!(extracted_points
        .iter()
        .any(|point| almost_equals(point, &Point::from([0.0, 1.0, 0.0]))));
    assert!(extracted_points
        .iter()
        .any(|point| almost_equals(point, &Point::from([1.0, 0.0, 0.0]))));
}

#[test]
fn bake_map() {
    let points = vec![
        Point::from([0.0, 0.0, 0.0]),
        Point::from([0.0, 0.0, 1.0]),
        Point::from([0.0, 1.0, 0.0]),
        Point::from([1.0, 0.0, 0.0]),
        Point::from([0.3, 0.3, 0.3]),
    ];

    let lump1 = Lump::try_from_points(&points, Some(1000)).unwrap();
    let lump2 = lump1.clone();

    let map = LumpMap::from_lumps(vec![lump1, lump2]);

    let should_eq_str = r"{
{
( 0.000000 1.000000 0.000000 ) ( 0.000000 0.000000 0.000000 ) ( 0.000000 0.000000 1.000000 ) mtrl/invisible 0 0 0 0.5 0.5 0
( 1.000000 0.000000 0.000000 ) ( 0.000000 1.000000 0.000000 ) ( 0.000000 0.000000 1.000000 ) mtrl/invisible 0 0 0 0.5 0.5 0
( 0.000000 0.000000 0.000000 ) ( 1.000000 0.000000 0.000000 ) ( 0.000000 0.000000 1.000000 ) mtrl/invisible 0 0 0 0.5 0.5 0
( 1.000000 0.000000 0.000000 ) ( 0.000000 0.000000 0.000000 ) ( 0.000000 1.000000 0.000000 ) mtrl/invisible 0 0 0 0.5 0.5 0
}
{
( 0.000000 1.000000 0.000000 ) ( 0.000000 0.000000 0.000000 ) ( 0.000000 0.000000 1.000000 ) mtrl/invisible 0 0 0 0.5 0.5 0
( 1.000000 0.000000 0.000000 ) ( 0.000000 1.000000 0.000000 ) ( 0.000000 0.000000 1.000000 ) mtrl/invisible 0 0 0 0.5 0.5 0
( 0.000000 0.000000 0.000000 ) ( 1.000000 0.000000 0.000000 ) ( 0.000000 0.000000 1.000000 ) mtrl/invisible 0 0 0 0.5 0.5 0
( 1.000000 0.000000 0.000000 ) ( 0.000000 0.000000 0.000000 ) ( 0.000000 1.000000 0.000000 ) mtrl/invisible 0 0 0 0.5 0.5 0
}
}
";
    assert_eq!(map.bake(), should_eq_str);
}

#[test]
fn lump_faces_carry_default_texture() {
    let points = vec![
        Point::from([0.0, 0.0, 0.0]),
        Point::from([0.0, 0.0, 1.0]),
        Point::from([0.0, 1.0, 0.0]),
        Point::from([1.0, 0.0, 0.0]),
    ];
    let lump = Lump::try_from_points(&points, None).unwrap();
    for face in lump.to_faces() {
        assert_eq!(face.texture, "mtrl/invisible");
    }
}

#[test]
fn lump_from_three_points_fails() {
    let points = vec![
        Point::from([0.0, 0.0, 0.0]),
        Point::from([0.0, 0.0, 1.0]),
        Point::from([0.0, 1.0, 0.0]),
    ];
    assert!(Lump::try_from_points(&points, None).is_err());
}

#[test]
fn lump_from_hull_parts_keeps_every_triangle() {
    let points = vec![
        Point::from([0.0, 0.0, 0.0]),
        Point::from([1.0, 0.0, 0.0]),
        Point::from([0.0, 1.0, 0.0]),
        Point::from([0.0, 0.0, 1.0]),
    ];
    let lump = Lump::from_hull_parts(points, vec![0, 1, 2, 0, 1, 2, 1, 2, 3]);
    let faces = lump.to_faces();
    assert_eq!(faces.len(), 3);
    assert_eq!(faces[0].points, faces[1].points);
    assert_eq!(faces[2].points[0], Point::from([1.0, 0.0, 0.0]));
    assert_eq!(faces[2].points[2], Point::from([0.0, 0.0, 1.0]));
}

#[test]
fn empty_lump_map_bakes_to_braces() {
    let map = LumpMap::from_lumps(vec![]);
    assert_eq!(map.bake(), "{\n}\n");
}

#[test]
fn face_clone_is_equal() {
    let points = vec![
        Point::from([0.0, 0.0, 0.0]),
        Point::from([0.0, 0.0, 1.0]),
        Point::from([0.0, 1.0, 0.0]),
        Point::from([1.0, 0.0, 0.0]),
    ];
    let lump = Lump::try_from_points(&points, None).unwrap();
    let faces = lump.to_faces();
    assert_eq!(faces[0].clone(), faces[0]);
}
