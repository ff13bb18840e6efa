use curveball::brush::{Brush, SideGeom};
use curveball::entity::SimpleWorldspawn;
use curveball::qmap::{QEntity, QMap};
use glam::DVec3;

fn normal(g: &SideGeom) -> DVec3 {
    let [p0, p1, p2] = g.0;
    ((p0 - p1).cross(p2 - p1)).normalize()
}

fn equivalent(a: SideGeom, b: SideGeom) -> bool {
    if normal(&a).dot(normal(&b)) < 1.0 {
        return false;
    }
    normal(&a).dot(a.0[1]) == normal(&b).dot(b.0[1])
}

#[test]
fn compile_map() {
    let vertices = vec![
        DVec3::from([0.0, 0.0, 0.0]),
        DVec3::from([0.0, 0.0, 1.0]),
        DVec3::from([0.0, 1.0, 0.0]),
        DVec3::from([1.0, 0.0, 0.0]),
        DVec3::from([0.3, 0.3, 0.3]),
    ];

    let brush1 = Brush::try_from_vertices(&vertices, Some(1000), &equivalent).unwrap();
    let brush2 = Brush::try_from_vertices(&vertices, Some(1000), &equivalent).unwrap();

    let worldspawn = SimpleWorldspawn::new(vec![brush1, brush2]);
    let entity: QEntity = worldspawn.into_entity();
    let map: QMap = QMap::new(vec![entity]).with_tb_neverball_metadata();

    let should_eq_str = r#"// Game: Neverball
// Format: Quake3
// entity 0
{
"classname" "worldspawn"
// brush 0
{
( 0.000000 1.000000 0.000000 ) ( 0.000000 0.000000 0.000000 ) ( 0.000000 0.000000 1.000000 ) mtrl/invisible 0 0 0 0.5 0.5 0
( 1.000000 0.000000 0.000000 ) ( 0.000000 1.000000 0.000000 ) ( 0.000000 0.000000 1.000000 ) mtrl/invisible 0 0 0 0.5 0.5 0
( 0.000000 0.000000 0.000000 ) ( 1.000000 0.000000 0.000000 ) ( 0.000000 0.000000 1.000000 ) mtrl/invisible 0 0 0 0.5 0.5 0
( 1.000000 0.000000 0.000000 ) ( 0.000000 0.000000 0.000000 ) ( 0.000000 1.000000 0.000000 ) mtrl/invisible 0 0 0 0.5 0.5 0
}
// brush 1
{
( 0.000000 1.000000 0.000000 ) ( 0.000000 0.000000 0.000000 ) ( 0.000000 0.000000 1.000000 ) mtrl/invisible 0 0 0 0.5 0.5 0
( 1.000000 0.000000 0.000000 ) ( 0.000000 1.000000 0.000000 ) ( 0.000000 0.000000 1.000000 ) mtrl/invisible 0 0 0 0.5 0.5 0
( 0.000000 0.000000 0.000000 ) ( 1.000000 0.000000 0.000000 ) ( 0.000000 0.000000 1.000000 ) mtrl/invisible 0 0 0 0.5 0.5 0
( 1.000000 0.000000 0.000000 ) ( 0.000000 0.000000 0.000000 ) ( 0.000000 1.000000 0.000000 ) mtrl/invisible 0 0 0 0.5 0.5 0
}
}
"#;
    assert_eq!(map.to_string(), should_eq_str);
}
