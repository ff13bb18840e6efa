use curveball::brush::{Brush, Side, SideGeom, SideMtrl};
use glam::DVec3;

fn normal(g: &SideGeom) -> DVec3 {
    let [p0, p1, p2] = g.0;
    ((p0 - p1).cross(p2 - p1)).normalize()
}

fn dist(g: &SideGeom) -> f64 {
    normal(g).dot(g.0[1])
}

fn equivalent(a: SideGeom, b: SideGeom) -> bool {
    if normal(&a).dot(normal(&b)) < 1.0 {
        return false;
    }
    if dist(&a) != dist(&b) {
        return false;
    }
    true
}

fn almost_equals(a: &DVec3, b: &DVec3) -> bool {
    const EPSILON: f64 = 0.000000001;
    (a.x - b.x).abs() < EPSILON && (a.y - b.y).abs() < EPSILON && (a.z - b.z).abs() < EPSILON
}

#[test]
fn brush_test_brush_cube() {
    let vertices = vec![
        DVec3::from([0.0, 0.0, 0.0]),
        DVec3::from([0.0, 0.0, 1.0]),
        DVec3::from([0.0, 1.0, 0.0]),
        DVec3::from([0.0, 1.0, 1.0]),
        DVec3::from([1.0, 0.0, 0.0]),
        DVec3::from([1.0, 0.0, 1.0]),
        DVec3::from([1.0, 1.0, 0.0]),
        DVec3::from([1.0, 1.0, 1.0]),
        DVec3::from([0.5, 0.5, 0.5]),
    ];

    let brush = Brush::try_from_vertices(&vertices, Some(1000), &equivalent).unwrap();

    let extracted_vertices: &Vec<DVec3> = brush.vertices();
    let extracted_sides: Vec<Side> = brush.to_sides_iter();

    assert_eq!(extracted_vertices.len(), 8);
    assert_eq!(extracted_sides.len(), 6);
    for expected in [
        [0.0, 0.0, 0.0],
        [0.0, 0.0, 1.0],
        [0.0, 1.0, 0.0],
        [0.0, 1.0, 1.0],
        [1.0, 0.0, 0.0],
        [1.0, 0.0, 1.0],
        [1.0, 1.0, 0.0],
        [1.0, 1.0, 1.0],
    ] {
        assert!(extracted_vertices
            .iter()
            .any(|vertex| almost_equals(vertex, &DVec3::from(expected))));
    }
}

#[test]
fn brush_test_brush_pyramid() {
    let vertices = vec![
        DVec3::from([0.0, 0.0, 0.0]),
        DVec3::from([0.0, 0.0, 1.0]),
        DVec3::from([0.0, 1.0, 0.0]),
        DVec3::from([1.0, 0.0, 0.0]),
        DVec3::from([0.3, 0.3, 0.3]),
    ];

    let brush = Brush::try_from_vertices(&vertices, Some(1000), &equivalent).unwrap();

    let extracted_vertices: &Vec<DVec3> = brush.vertices();
    let extracted_sides: Vec<Side> = brush.to_sides_iter();

    assert_eq!(extracted_vertices.len(), 4);
    assert_eq!(extracted_sides.len(), 4);
    for expected in [
        [0.0, 0.0, 0.0],
        [0.0, 0.0, 1.0],
        [0.0, 1.0, 0.0],
        [1.0, 0.0, 0.0],
    ] {
        assert!(extracted_vertices
            .iter()
            .any(|vertex| almost_equals(vertex, &DVec3::from(expected))));
    }
}

#[test]
fn brush_bake_side() {
    let testvertex1 = DVec3 { x: 1.0, y: 2.0, z: 3.0 };
    let testvertex2 = DVec3 { x: 10.0, y: 20.0, z: 30.0 };
    let testvertex3 = DVec3 { x: 100.0, y: 200.0, z: 300.0 };

    let side = Side {
        geom: SideGeom([testvertex1, testvertex2, testvertex3]),
        mtrl: SideMtrl::default(),
    };

    assert_eq!(side.bake(), "( 1.000000 2.000000 3.000000 ) ( 10.000000 20.000000 30.000000 ) ( 100.000000 200.000000 300.000000 ) mtrl/invisible 0 0 0 0.5 0.5 0");
}

#[test]
fn bake_brush() {
    let vertices = vec![
        DVec3::from([0.0, 0.0, 0.0]),
        DVec3::from([0.0, 0.0, 1.0]),
        DVec3::from([0.0, 1.0, 0.0]),
        DVec3::from([1.0, 0.0, 0.0]),
        DVec3::from([0.3, 0.3, 0.3]),
    ];

    let brush = Brush::try_from_vertices(&vertices, Some(1000), &equivalent).unwrap();

    let should_eq_str = r"{
( 0.000000 1.000000 0.000000 ) ( 0.000000 0.000000 0.000000 ) ( 0.000000 0.000000 1.000000 ) mtrl/invisible 0 0 0 0.5 0.5 0
( 1.000000 0.000000 0.000000 ) ( 0.000000 1.000000 0.000000 ) ( 0.000000 0.000000 1.000000 ) mtrl/invisible 0 0 0 0.5 0.5 0
( 0.000000 0.000000 0.000000 ) ( 1.000000 0.000000 0.000000 ) ( 0.000000 0.000000 1.000000 ) mtrl/invisible 0 0 0 0.5 0.5 0
( 1.000000 0.000000 0.000000 ) ( 0.000000 0.000000 0.000000 ) ( 0.000000 1.000000 0.000000 ) mtrl/invisible 0 0 0 0.5 0.5 0
}
";
    assert_eq!(brush.bake(), should_eq_str);
}
