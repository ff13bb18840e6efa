use curveball::brush::{Brush, SideGeom};
use curveball::curve::curve_slope::slope_brushes;
use curveball::curve::extrude::join_compound_steps;
use curveball::curve::serpentine::join_arcs;
use curveball::curve::{brushes_from_point_sets, concat_points, join_sections};
use curveball::entity::SimpleWorldspawn;
use curveball::qmap::{brushes_to_map, QEntity, QMap};
use curveball::text::{push_decimal, split_lines, with_number};
use curveball::vector::points_convertible;
use glam::DVec3;

fn never_equivalent(_a: SideGeom, _b: SideGeom) -> bool {
    false
}

fn cube_face(z: f64) -> Vec<DVec3> {
    vec![
        DVec3::new(0.0, 0.0, z),
        DVec3::new(1.0, 0.0, z),
        DVec3::new(1.0, 1.0, z),
        DVec3::new(0.0, 1.0, z),
    ]
}

#[test]
fn decimal_numbers() {
    assert_eq!(with_number("n = ", 0, "."), "n = 0.");
    assert_eq!(with_number("", 1234567890, ""), "1234567890");
    assert_eq!(with_number("a", u64::MAX, "b"), "a18446744073709551615b");
    let mut s = String::from("x");
    push_decimal(&mut s, 100);
    assert_eq!(s, "x100");
}

#[test]
fn lines_as_std_cuts_them() {
    assert_eq!(split_lines("a\r\nb\n"), vec!["a", "b"]);
    assert_eq!(split_lines(""), Vec::<String>::new());
    assert_eq!(split_lines("x\r"), vec!["x\r"]);
    assert_eq!(split_lines("\n\n"), vec!["", ""]);
    assert_eq!(split_lines("one\ntwo"), vec!["one", "two"]);
    let text = "first\r\nsecond\n\nthird\r";
    let std_lines: Vec<String> = text.lines().map(String::from).collect();
    assert_eq!(split_lines(text), std_lines);
}

#[test]
fn convertible_points() {
    assert!(points_convertible(&[]));
    assert!(points_convertible(&[DVec3::new(1.0, -2.0, 3.5)]));
    assert!(!points_convertible(&[DVec3::new(1.0, 2.0, 3.0), DVec3::new(f64::NAN, 0.0, 0.0)]));
    assert!(!points_convertible(&[DVec3::new(0.0, f64::INFINITY, 0.0)]));
    assert!(points_convertible(&[DVec3::new(1e290, -1e290, 0.0)]));
    assert!(!points_convertible(&[DVec3::new(0.0, 0.0, 1e300)]));
    assert!(!points_convertible(&[DVec3::new(0.0, -f64::MAX, 0.0)]));
    let edge = f64::MAX * f64::EPSILON;
    assert_eq!(points_convertible(&[DVec3::new(edge, 0.0, 0.0)]), (edge / f64::EPSILON).is_finite());
}

#[test]
fn concatenated_points_keep_order() {
    let a = vec![DVec3::new(1.0, 0.0, 0.0)];
    let b = vec![DVec3::new(2.0, 0.0, 0.0), DVec3::new(3.0, 0.0, 0.0)];
    let c = concat_points(&a, &b);
    assert_eq!(c, vec![a[0], b[0], b[1]]);
}

#[test]
fn sections_join_pairwise() {
    let sections = vec![cube_face(0.0), cube_face(1.0), cube_face(2.0)];
    let brushes = join_sections(&sections, &never_equivalent).unwrap();
    assert_eq!(brushes.len(), 2);
    for b in &brushes {
        assert_eq!(b.vertices().len(), 8);
    }
    assert!(brushes[1].vertices().iter().any(|v| *v == DVec3::new(0.0, 0.0, 2.0)));
    assert!(!brushes[0].vertices().iter().any(|v| *v == DVec3::new(0.0, 0.0, 2.0)));
}

#[test]
fn one_section_gives_no_brush() {
    let sections = vec![cube_face(0.0)];
    assert_eq!(join_sections(&sections, &never_equivalent).unwrap().len(), 0);
    assert_eq!(join_sections(&vec![], &never_equivalent).unwrap().len(), 0);
}

#[test]
fn nothing_to_join_gives_no_brush() {
    let empty: Vec<Vec<DVec3>> = vec![];
    assert_eq!(brushes_from_point_sets(&empty, &never_equivalent).unwrap().len(), 0);
    let one = vec![cube_face(0.0)];
    assert_eq!(join_arcs(&empty, &one, &never_equivalent).unwrap().len(), 0);
    assert_eq!(slope_brushes(&vec![], &never_equivalent).unwrap().len(), 0);
    let steps: Vec<Vec<Vec<DVec3>>> = vec![vec![cube_face(0.0)]];
    assert_eq!(join_compound_steps(&steps, &never_equivalent).unwrap().len(), 0);
}

#[test]
fn arcs_join_in_order() {
    let arc0 = vec![cube_face(0.0), cube_face(1.0)];
    let arc1 = vec![cube_face(5.0), cube_face(6.0), cube_face(7.0)];
    let bs = join_arcs(&arc0, &arc1, &never_equivalent).unwrap();
    assert_eq!(bs.len(), 3);
    assert!(bs[0].vertices().iter().all(|v| v.z <= 1.0));
    assert!(bs[2].vertices().iter().all(|v| v.z >= 6.0));
}

#[test]
fn first_failing_set_decides_the_error() {
    let mut cube = cube_face(0.0);
    cube.extend(cube_face(1.0));
    let sets = vec![cube, vec![DVec3::new(0.0, 0.0, 0.0)]];
    let e = brushes_from_point_sets(&sets, &never_equivalent).unwrap_err();
    assert!(matches!(e, chull::ErrorKind::Degenerated));
    let sets = vec![vec![], cube_face(0.0)];
    let e = brushes_from_point_sets(&sets, &never_equivalent).unwrap_err();
    assert!(matches!(e, chull::ErrorKind::Empty));
}

#[test]
fn hull_corners_are_input_points() {
    let mut points = cube_face(0.0);
    points.extend(cube_face(1.0));
    points.push(DVec3::new(0.5, 0.5, 0.5));
    let brush = Brush::try_from_vertices(&points, Some(1000), &never_equivalent).unwrap();
    assert_eq!(brush.vertices().len(), 8);
    for v in brush.vertices() {
        assert!(points.contains(v));
    }
}

#[test]
fn too_few_points_fail_the_hull() {
    let sections = vec![
        vec![DVec3::new(0.0, 0.0, 0.0)],
        vec![DVec3::new(1.0, 0.0, 0.0), DVec3::new(0.0, 1.0, 0.0)],
    ];
    assert!(join_sections(&sections, &never_equivalent).is_err());
    let sets = vec![cube_face(0.0)];
    assert!(brushes_from_point_sets(&sets, &never_equivalent).is_err());
}

#[test]
fn dedup_keeps_all_when_nothing_is_equivalent() {
    let mut points = cube_face(0.0);
    points.extend(cube_face(1.0));
    let brush = Brush::try_from_vertices(&points, None, &never_equivalent).unwrap();
    assert_eq!(brush.to_sides_iter().len(), 12);
    let all_same = |_a: SideGeom, _b: SideGeom| true;
    let brush = Brush::try_from_vertices(&points, None, &all_same).unwrap();
    assert_eq!(brush.to_sides_iter().len(), 1);
}

#[test]
fn worldspawn_entity() {
    let w = SimpleWorldspawn::new(vec![]);
    let e: QEntity = w.into_entity();
    assert_eq!(
        *e.parameters(),
        vec![(String::from("classname"), String::from("worldspawn"))]
    );
    assert_eq!(e.brushes().len(), 0);
    assert_eq!(e.bake(), "{\n\"classname\" \"worldspawn\"\n}\n");
}

#[test]
fn empty_neverball_map_text() {
    let m = brushes_to_map(vec![]);
    assert_eq!(
        m.to_string(),
        "// Game: Neverball\n// Format: Quake3\n// entity 0\n{\n\"classname\" \"worldspawn\"\n}\n"
    );
}

#[test]
fn metadata_lines_become_comments() {
    let m = QMap::new(vec![]).with_metadata(String::from("one\r\ntwo\n"));
    assert_eq!(m.to_string(), "// one\n// two\n");
    let m = QMap::new(vec![]).with_metadata(String::new());
    assert_eq!(m.bake(), "");
}

#[test]
fn clones_write_the_same_text() {
    let mut points = cube_face(0.0);
    points.extend(cube_face(1.0));
    let brush = Brush::try_from_vertices(&points, None, &never_equivalent).unwrap();
    let copy = brush.clone();
    assert_eq!(copy.bake(), brush.bake());
    let w = SimpleWorldspawn::new(vec![brush, copy]);
    let w2 = w.clone();
    assert_eq!(w2.brushes.len(), 2);
    let map = QMap::new(vec![w.into_entity()]).with_metadata(String::from("note"));
    let map2 = map.clone();
    assert_eq!(map2.to_string(), map.to_string());
    assert!(map.to_string().starts_with("// note\n// entity 0\n{\n\"classname\" \"worldspawn\"\n// brush 0\n{\n"));
}

#[test]
fn entity_parameters_behave_as_a_map() {
    let mut e = QEntity::new(vec![]);
    assert_eq!(e.insert_parameter(String::from("classname"), String::from("info_null")), None);
    assert_eq!(e.insert_parameter(String::from("origin"), String::from("0 0 0")), None);
    assert_eq!(
        e.insert_parameter(String::from("classname"), String::from("worldspawn")),
        Some(String::from("info_null"))
    );
    assert_eq!(e.parameters().len(), 2);
    assert_eq!(e.parameters()[0].1, "worldspawn");
    assert_eq!(e.bake(), "{\n\"classname\" \"worldspawn\"\n\"origin\" \"0 0 0\"\n}\n");
}

#[test]
fn conversions_by_from() {
    let e = QEntity::from(SimpleWorldspawn::new(vec![]));
    assert_eq!(e.bake(), "{\n\"classname\" \"worldspawn\"\n}\n");
    let m = brushes_to_map(vec![]);
    assert_eq!(String::from(&m), m.to_string());
}

#[test]
fn hull_of_no_points_is_empty_and_of_three_degenerated() {
    let none: Vec<DVec3> = vec![];
    let e = Brush::try_from_vertices(&none, None, &never_equivalent).unwrap_err();
    assert!(matches!(e, chull::ErrorKind::Empty));
    let three = vec![DVec3::X, DVec3::Y, DVec3::Z];
    let e = Brush::try_from_vertices(&three, None, &never_equivalent).unwrap_err();
    assert!(matches!(e, chull::ErrorKind::Degenerated));
}
