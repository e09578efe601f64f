use kitty_cad_backend::commands::dispatch;
use kitty_cad_backend::ids::id_message;
use kitty_cad_backend::kernel::GeometryKernel;
use kitty_cad_backend::modeling_cmd::{
    ExportFormat, ImportFile, ImportFormat, ModelingCmd, PathSegment, Point2d, Point3d, StlCoords,
    UnitLength,
};
use kitty_cad_backend::responses::OkModelingCmdResponse;
use kitty_cad_backend::session::{EntityType, PathSegmentRecord, Session};
use kitty_cad_backend::sketch::{build_face_from_wire, build_wire, intersect, segment_endpoint};

/// A stand-in geometry kernel: real arithmetic on `f64`, shapes described
/// by text and an edge count.
struct TestKernel;

#[derive(Clone, Debug, PartialEq)]
struct TestShape {
    name: String,
    edges: usize,
}

fn f(bits: u64) -> f64 {
    f64::from_bits(bits)
}

fn p(x: f64, y: f64, z: f64) -> Point3d {
    Point3d { x: x.to_bits(), y: y.to_bits(), z: z.to_bits() }
}

fn coords(q: &Point3d) -> (f64, f64, f64) {
    (f(q.x), f(q.y), f(q.z))
}

impl GeometryKernel for TestKernel {
    type Wire = usize;
    type Shape = TestShape;

    fn translate(&self, a: &Point3d, b: &Point3d) -> Point3d {
        p(f(a.x) + f(b.x), f(a.y) + f(b.y), f(a.z) + f(b.z))
    }
    fn point_on_circle(&self, c: &Point3d, radius: u64, angle: u64) -> Point3d {
        p(f(c.x) + f(radius) * f(angle).cos(), f(c.y) + f(radius) * f(angle).sin(), f(c.z))
    }
    fn cross(&self, a: &Point3d, b: &Point3d) -> Point3d {
        let (ax, ay, az) = coords(a);
        let (bx, by, bz) = coords(b);
        p(ay * bz - az * by, az * bx - ax * bz, ax * by - ay * bx)
    }
    fn wire_from_segments(&self, segments: &Vec<PathSegmentRecord>, closed: bool) -> usize {
        segments.len() + if closed { 1 } else { 0 }
    }
    fn face_from_wire(&self, wire: &usize) -> TestShape {
        TestShape { name: "face".to_string(), edges: *wire }
    }
    fn extrude(&self, s: &TestShape, d: &Point3d, _dist: u64) -> TestShape {
        let name = if coords(d) == (0.0, 0.0, 1.0) {
            format!("extrude({})", s.name)
        } else {
            format!("extrude({} along {:?})", s.name, coords(d))
        };
        TestShape { name, edges: 3 * s.edges }
    }
    fn revolve(&self, s: &TestShape, _a: &Point3d, _angle: u64) -> TestShape {
        TestShape { name: format!("revolve({})", s.name), edges: s.edges }
    }
    fn union(&self, a: &TestShape, b: &TestShape) -> TestShape {
        TestShape { name: format!("({} + {})", a.name, b.name), edges: a.edges + b.edges }
    }
    fn subtract(&self, a: &TestShape, b: &TestShape) -> TestShape {
        TestShape { name: format!("({} - {})", a.name, b.name), edges: a.edges }
    }
    fn face_is_planar(&self, _s: &TestShape) -> bool {
        true
    }
    fn face_center(&self, _s: &TestShape) -> Point3d {
        p(0.5, 0.5, 0.0)
    }
    fn face_normal_at_center(&self, _s: &TestShape) -> Point3d {
        p(0.0, 0.0, 1.0)
    }
    fn tangent_frame(&self, _n: &Point3d) -> (Point3d, Point3d) {
        (p(1.0, 0.0, 0.0), p(0.0, 1.0, 0.0))
    }
    fn first_edge_end_points(&self, _s: &TestShape) -> Option<(Point3d, Point3d)> {
        Some((p(1.0, 2.0, 3.0), p(4.0, 5.0, 6.0)))
    }
    fn total_volume(&self, shapes: &Vec<&TestShape>) -> u64 {
        (shapes.len() as f64).to_bits()
    }
    fn total_surface_area(&self, shapes: &Vec<&TestShape>) -> u64 {
        (6.0 * shapes.len() as f64).to_bits()
    }
    fn center_of_mass(&self, _s: &TestShape) -> Point3d {
        p(0.5, 0.5, 0.5)
    }
    fn product(&self, a: u64, b: u64) -> u64 {
        (f(a) * f(b)).to_bits()
    }
    fn quotient_or_zero(&self, a: u64, b: u64) -> u64 {
        if f(b) > 0.0 { (f(a) / f(b)).to_bits() } else { 0.0f64.to_bits() }
    }
    fn export_step(&self, s: &TestShape) -> Result<Vec<u8>, String> {
        Ok(format!("ISO-10303-21;{}", s.name).into_bytes())
    }
    fn export_stl(&self, s: &TestShape) -> Result<Vec<u8>, String> {
        if s.name == "broken" { Err("STL export failed".to_string()) } else { Ok(b"solid".to_vec()) }
    }
    fn import_step(&self, data: &Vec<u8>) -> Result<TestShape, String> {
        if data.starts_with(b"ISO-10303-21") {
            Ok(TestShape { name: "imported".to_string(), edges: 12 })
        } else {
            Err("STEP import failed".to_string())
        }
    }
}

fn run(s: &mut Session<TestShape>, cmd: ModelingCmd) -> Result<OkModelingCmdResponse, String> {
    dispatch(s, &TestKernel, cmd)
}

fn start_path(s: &mut Session<TestShape>) -> u128 {
    match run(s, ModelingCmd::StartPath {}) {
        Ok(OkModelingCmdResponse::StartPath { data }) => data.path_id,
        other => panic!("unexpected {other:?}"),
    }
}

fn line(x: f64, y: f64, relative: Option<bool>) -> PathSegment {
    PathSegment::Line { end: p(x, y, 0.0), relative }
}

/// A closed unit square path, returning (path id, face id).
fn square_face(s: &mut Session<TestShape>) -> (u128, u128) {
    let path = start_path(s);
    run(s, ModelingCmd::MovePathPen { path, to: p(0.0, 0.0, 0.0) }).unwrap();
    for (x, y) in [(1.0, 0.0), (1.0, 1.0), (0.0, 1.0)] {
        run(s, ModelingCmd::ExtendPath { path, segment: line(x, y, Some(false)) }).unwrap();
    }
    match run(s, ModelingCmd::ClosePath { path_id: path }) {
        Ok(OkModelingCmdResponse::ClosePath { data }) => (path, data.face_id),
        other => panic!("unexpected {other:?}"),
    }
}

fn window() -> Point2d {
    Point2d { x: 0, y: 0 }
}

#[test]
fn new_session_defaults() {
    let s: Session<TestShape> = Session::new();
    assert!(s.entities.is_empty() && s.paths.is_empty() && s.selection.is_empty());
    assert!(s.sketch_mode.is_none());
    assert_eq!(s.units, UnitLength::Mm);
    assert_eq!(coords(&s.camera.position), (0.0, 0.0, 100.0));
    assert_eq!(coords(&s.camera.center), (0.0, 0.0, 0.0));
    assert_eq!(coords(&s.camera.up), (0.0, 1.0, 0.0));
    assert_eq!(f(s.camera.fov_y), 45.0);
    assert!(!s.camera.ortho);
    assert_eq!(f(s.camera.ortho_scale), 1.0);
}

#[test]
fn start_path_creates_path_and_entity() {
    let mut s = Session::new();
    let path = start_path(&mut s);
    let b = &s.paths[&path];
    assert_eq!(b.id, path);
    assert!(b.pen_position.is_none() && b.segments.is_empty() && !b.closed);
    let e = &s.entities[&path];
    assert_eq!(e.entity_type, EntityType::Path);
    assert!(e.parent_id.is_none() && e.children.is_empty() && e.visible && e.shape.is_none());
    match run(&mut s, ModelingCmd::EntityGetParentId { entity_id: path }) {
        Ok(OkModelingCmdResponse::EntityGetParentId { data }) => assert_eq!(data.entity_id, path),
        other => panic!("unexpected {other:?}"),
    }
    match run(&mut s, ModelingCmd::GetEntityType { entity_id: path }) {
        Ok(OkModelingCmdResponse::GetEntityType { data }) => assert_eq!(data.entity_type, "path"),
        other => panic!("unexpected {other:?}"),
    }
}

#[test]
fn extend_without_pen_fails() {
    let mut s = Session::new();
    let path = start_path(&mut s);
    let r = run(&mut s, ModelingCmd::ExtendPath { path, segment: line(1.0, 0.0, None) });
    assert_eq!(r.unwrap_err(), "Pen position not set; call MovePathPen first");
    assert!(s.paths[&path].segments.is_empty());
}

#[test]
fn missing_path_error_names_the_id() {
    let mut s: Session<TestShape> = Session::new();
    let r = run(&mut s, ModelingCmd::MovePathPen { path: 1, to: p(0.0, 0.0, 0.0) });
    assert_eq!(r.unwrap_err(), "Path 00000000-0000-0000-0000-000000000001 not found");
    let r = run(&mut s, ModelingCmd::ClosePath { path_id: 0xabcdef });
    assert_eq!(r.unwrap_err(), "Path 00000000-0000-0000-0000-000000abcdef not found");
}

#[test]
fn pen_moves_along_segments() {
    let mut s = Session::new();
    let path = start_path(&mut s);
    run(&mut s, ModelingCmd::MovePathPen { path, to: p(5.0, 5.0, 0.0) }).unwrap();
    run(&mut s, ModelingCmd::ExtendPath { path, segment: line(10.0, 0.0, Some(true)) }).unwrap();
    assert_eq!(coords(&s.paths[&path].pen_position.unwrap()), (15.0, 5.0, 0.0));
    run(&mut s, ModelingCmd::ExtendPath { path, segment: line(2.0, 3.0, Some(false)) }).unwrap();
    assert_eq!(coords(&s.paths[&path].pen_position.unwrap()), (2.0, 3.0, 0.0));
    let segs = &s.paths[&path].segments;
    assert_eq!(segs.len(), 2);
    assert_eq!(coords(&segs[0].from), (5.0, 5.0, 0.0));
    assert_eq!(coords(&segs[1].from), (15.0, 5.0, 0.0));
}

#[test]
fn segment_endpoints() {
    let k = TestKernel;
    let from = p(1.0, 1.0, 0.0);
    let arc = PathSegment::Arc {
        center: p(0.0, 0.0, 2.0),
        radius: 2.0f64.to_bits(),
        start_angle: 0.0f64.to_bits(),
        end_angle: 0.0f64.to_bits(),
    };
    assert_eq!(coords(&segment_endpoint(&k, &from, &arc)), (2.0, 0.0, 2.0));
    let bez = PathSegment::Bezier { control1: p(9.0, 9.0, 9.0), control2: p(8.0, 8.0, 8.0), end: p(3.0, 4.0, 0.0) };
    assert_eq!(coords(&segment_endpoint(&k, &from, &bez)), (3.0, 4.0, 0.0));
    let ta = PathSegment::TangentialArc { offset: Some(p(1.0, 0.0, 0.0)), radius: None, to: None };
    assert_eq!(coords(&segment_endpoint(&k, &from, &ta)), (2.0, 1.0, 0.0));
    let ta_to = PathSegment::TangentialArc { offset: Some(p(1.0, 0.0, 0.0)), radius: None, to: Some(p(7.0, 7.0, 0.0)) };
    assert_eq!(coords(&segment_endpoint(&k, &from, &ta_to)), (7.0, 7.0, 0.0));
    let ta_none = PathSegment::TangentialArc { offset: None, radius: None, to: None };
    assert_eq!(coords(&segment_endpoint(&k, &from, &ta_none)), (1.0, 1.0, 0.0));
    let tat = PathSegment::TangentialArcTo { angle_snap_increment: None, to: p(0.0, 6.0, 0.0) };
    assert_eq!(coords(&segment_endpoint(&k, &from, &tat)), (0.0, 6.0, 0.0));
}

#[test]
fn close_empty_path_fails_but_marks_closed() {
    let mut s: Session<TestShape> = Session::new();
    let path = start_path(&mut s);
    let r = run(&mut s, ModelingCmd::ClosePath { path_id: path });
    assert_eq!(r.unwrap_err(), "No segments to build wire from");
    assert!(s.paths[&path].closed);
    assert_eq!(s.entities.len(), 1);
}

#[test]
fn close_path_builds_face_child() {
    let mut s = Session::new();
    let (path, face) = square_face(&mut s);
    assert!(s.paths[&path].closed);
    let fe = &s.entities[&face];
    assert_eq!(fe.entity_type, EntityType::Face);
    assert_eq!(fe.parent_id, Some(path));
    assert_eq!(fe.shape.as_ref().unwrap().edges, 4);
    assert_eq!(s.entities[&path].children, vec![face]);
    match run(&mut s, ModelingCmd::EntityGetParentId { entity_id: face }) {
        Ok(OkModelingCmdResponse::EntityGetParentId { data }) => assert_eq!(data.entity_id, path),
        other => panic!("unexpected {other:?}"),
    }
    match run(&mut s, ModelingCmd::EntityGetSketchPaths { entity_id: path }) {
        Ok(OkModelingCmdResponse::EntityGetSketchPaths { data }) => assert!(data.entity_ids.is_empty()),
        other => panic!("unexpected {other:?}"),
    }
}

#[test]
fn child_queries_agree() {
    let mut s = Session::new();
    let (path, face) = square_face(&mut s);
    match run(&mut s, ModelingCmd::EntityGetNumChildren { entity_id: path }) {
        Ok(OkModelingCmdResponse::EntityGetNumChildren { data }) => assert_eq!(data.num, 1),
        other => panic!("unexpected {other:?}"),
    }
    match run(&mut s, ModelingCmd::EntityGetChildUuid { entity_id: path, child_index: 0 }) {
        Ok(OkModelingCmdResponse::EntityGetChildUuid { data }) => assert_eq!(data.entity_id, face),
        other => panic!("unexpected {other:?}"),
    }
    let r = run(&mut s, ModelingCmd::EntityGetChildUuid { entity_id: path, child_index: 5 });
    assert_eq!(r.unwrap_err(), "Child index 5 out of range");
    match run(&mut s, ModelingCmd::EntityGetAllChildUuids { entity_id: path }) {
        Ok(OkModelingCmdResponse::EntityGetAllChildUuids { data }) => assert_eq!(data.entity_ids, vec![face]),
        other => panic!("unexpected {other:?}"),
    }
    let r = run(&mut s, ModelingCmd::EntityGetNumChildren { entity_id: 7 });
    assert_eq!(r.unwrap_err(), "Entity 00000000-0000-0000-0000-000000000007 not found");
}

#[test]
fn extrude_makes_solid_with_cap_and_edge() {
    let mut s = Session::new();
    let (_, face) = square_face(&mut s);
    let r = run(&mut s, ModelingCmd::Extrude { target: face, distance: 2.0f64.to_bits(), cap: None });
    let (solid, cap, edge) = match r {
        Ok(OkModelingCmdResponse::Extrude { data }) => {
            assert_eq!(data.face_ids.len(), 1);
            assert_eq!(data.edge_ids.len(), 1);
            (data.solid_id, data.face_ids[0], data.edge_ids[0])
        }
        other => panic!("unexpected {other:?}"),
    };
    let se = &s.entities[&solid];
    assert_eq!(se.entity_type, EntityType::Solid);
    assert_eq!(se.parent_id, Some(face));
    assert_eq!(se.children, vec![cap, edge]);
    assert_eq!(se.shape.as_ref().unwrap().name, "extrude(face)");
    assert_eq!(s.entities[&cap].entity_type, EntityType::Face);
    assert_eq!(s.entities[&edge].entity_type, EntityType::Edge);
    match run(&mut s, ModelingCmd::Solid3dGetAllEdgeFaces { object_id: solid, edge_id: edge }) {
        Ok(OkModelingCmdResponse::Solid3dGetAllEdgeFaces { data }) => assert_eq!(data.faces, vec![cap]),
        other => panic!("unexpected {other:?}"),
    }
    match run(&mut s, ModelingCmd::Solid3dGetAllOppositeEdges { object_id: solid, edge_id: edge, along_vector: None }) {
        Ok(OkModelingCmdResponse::Solid3dGetAllOppositeEdges { data }) => assert_eq!(data.edges, vec![edge]),
        other => panic!("unexpected {other:?}"),
    }
}

#[test]
fn extrude_and_revolve_need_a_shape() {
    let mut s: Session<TestShape> = Session::new();
    let path = start_path(&mut s);
    let r = run(&mut s, ModelingCmd::Extrude { target: path, distance: 0, cap: None });
    assert_eq!(r.unwrap_err(), id_message("Shape entity ", path, " not found for extrusion"));
    let r = run(&mut s, ModelingCmd::Revolve { target: 2, axis: p(1.0, 0.0, 0.0), angle: 0, tolerance: None });
    assert_eq!(r.unwrap_err(), "Shape entity 00000000-0000-0000-0000-000000000002 not found for revolve");
}

#[test]
fn revolve_makes_childless_solid() {
    let mut s = Session::new();
    let (_, face) = square_face(&mut s);
    let r = run(&mut s, ModelingCmd::Revolve { target: face, axis: p(1.0, 0.0, 0.0), angle: 1.0f64.to_bits(), tolerance: None });
    match r {
        Ok(OkModelingCmdResponse::Revolve { data }) => {
            assert!(data.face_ids.is_empty() && data.edge_ids.is_empty());
            let e = &s.entities[&data.solid_id];
            assert_eq!(e.parent_id, Some(face));
            assert!(e.children.is_empty());
        }
        other => panic!("unexpected {other:?}"),
    }
}

#[test]
fn booleans() {
    let mut s = Session::new();
    let (_, a) = square_face(&mut s);
    let (_, b) = square_face(&mut s);
    let (_, c) = square_face(&mut s);
    let r = run(&mut s, ModelingCmd::BooleanUnion { targets: vec![a] });
    assert_eq!(r.unwrap_err(), "Boolean union requires at least 2 targets");
    let r = run(&mut s, ModelingCmd::BooleanIntersect { targets: vec![] });
    assert_eq!(r.unwrap_err(), "Boolean intersect requires at least 2 targets");
    let r = run(&mut s, ModelingCmd::BooleanUnion { targets: vec![a, 3, 4] });
    assert_eq!(r.unwrap_err(), "Shape 00000000-0000-0000-0000-000000000003 not found");
    assert_eq!(s.entities[&a].shape.as_ref().unwrap().name, "face");
    run(&mut s, ModelingCmd::BooleanUnion { targets: vec![a, b, c] }).unwrap();
    assert_eq!(s.entities[&a].shape.as_ref().unwrap().name, "((face + face) + face)");
    run(&mut s, ModelingCmd::BooleanIntersect { targets: vec![b, c] }).unwrap();
    assert_eq!(s.entities[&b].shape.as_ref().unwrap().name, "(face - (face - face))");
    let r = run(&mut s, ModelingCmd::BooleanSubtract { target: c, tool: 9 });
    assert_eq!(r.unwrap_err(), "Shape 00000000-0000-0000-0000-000000000009 not found");
    run(&mut s, ModelingCmd::BooleanSubtract { target: c, tool: a }).unwrap();
    assert_eq!(s.entities[&c].shape.as_ref().unwrap().name, "(face - ((face + face) + face))");
}

#[test]
fn intersect_is_double_subtraction() {
    let k = TestKernel;
    let a = TestShape { name: "A".to_string(), edges: 1 };
    let b = TestShape { name: "B".to_string(), edges: 1 };
    assert_eq!(intersect(&k, &a, &b).name, "(A - (A - B))");
}

#[test]
fn selection_add_remove_clear() {
    let mut s: Session<TestShape> = Session::new();
    match run(&mut s, ModelingCmd::SelectAdd { entities: vec![1, 2, 2, 3] }) {
        Ok(OkModelingCmdResponse::SelectAdd { .. }) => {}
        other => panic!("unexpected {other:?}"),
    }
    assert_eq!(s.selection.len(), 3);
    run(&mut s, ModelingCmd::SelectRemove { entities: vec![2, 9] }).unwrap();
    assert!(s.selection.contains(&1) && s.selection.contains(&3) && !s.selection.contains(&2));
    run(&mut s, ModelingCmd::SelectAdd { entities: vec![4] }).unwrap();
    run(&mut s, ModelingCmd::SelectRemove { entities: vec![4] }).unwrap();
    assert_eq!(s.selection.len(), 2);
    run(&mut s, ModelingCmd::SelectClear {}).unwrap();
    assert!(s.selection.is_empty());
}

#[test]
fn clear_scene_keeps_units_and_camera() {
    let mut s = Session::new();
    square_face(&mut s);
    run(&mut s, ModelingCmd::SetSceneUnits { unit: UnitLength::In }).unwrap();
    run(&mut s, ModelingCmd::SelectAdd { entities: vec![1] }).unwrap();
    run(&mut s, ModelingCmd::EnableSketchMode { entity_id: 1, planar_normal: None, animated: None, adjust_camera: None, ortho: None }).unwrap();
    run(&mut s, ModelingCmd::DefaultCameraLookAt { center: Some(p(1.0, 2.0, 3.0)), eye: None, up: None, vantage: None, sequence: None }).unwrap();
    run(&mut s, ModelingCmd::SceneClearAll {}).unwrap();
    assert!(s.entities.is_empty() && s.paths.is_empty() && s.selection.is_empty() && s.sketch_mode.is_none());
    assert_eq!(s.units, UnitLength::In);
    assert_eq!(coords(&s.camera.center), (1.0, 2.0, 3.0));
    assert_eq!(run(&mut s, ModelingCmd::GetSketchModePlane {}).unwrap_err(), "Not in sketch mode");
}

#[test]
fn sketch_mode_plane() {
    let mut s: Session<TestShape> = Session::new();
    run(&mut s, ModelingCmd::EnableSketchMode { entity_id: 5, planar_normal: None, animated: None, adjust_camera: None, ortho: None }).unwrap();
    match run(&mut s, ModelingCmd::GetSketchModePlane {}) {
        Ok(OkModelingCmdResponse::GetSketchModePlane { data }) => {
            assert_eq!(coords(&data.origin), (0.0, 0.0, 0.0));
            assert_eq!(coords(&data.x_axis), (1.0, 0.0, 0.0));
            assert_eq!(coords(&data.y_axis), (0.0, 1.0, 0.0));
            assert_eq!(coords(&data.z_axis), (0.0, 0.0, 1.0));
        }
        other => panic!("unexpected {other:?}"),
    }
    run(&mut s, ModelingCmd::EnableSketchMode { entity_id: 5, planar_normal: Some(p(1.0, 0.0, 0.0)), animated: None, adjust_camera: None, ortho: None }).unwrap();
    assert_eq!(s.sketch_mode.unwrap().entity_id, 5);
    match run(&mut s, ModelingCmd::GetSketchModePlane {}) {
        Ok(OkModelingCmdResponse::GetSketchModePlane { data }) => assert_eq!(coords(&data.z_axis), (1.0, 0.0, 0.0)),
        other => panic!("unexpected {other:?}"),
    }
    run(&mut s, ModelingCmd::SketchModeDisable {}).unwrap();
    assert!(run(&mut s, ModelingCmd::GetSketchModePlane {}).is_err());
}

#[test]
fn camera_look_at_and_settings() {
    let mut s: Session<TestShape> = Session::new();
    run(&mut s, ModelingCmd::DefaultCameraLookAt { center: None, eye: None, up: Some(p(0.0, 0.0, 1.0)), vantage: Some(p(9.0, 9.0, 9.0)), sequence: Some(3) }).unwrap();
    match run(&mut s, ModelingCmd::DefaultCameraGetSettings {}) {
        Ok(OkModelingCmdResponse::DefaultCameraGetSettings { data }) => {
            assert_eq!(coords(&data.pos), (9.0, 9.0, 9.0));
            assert_eq!(coords(&data.center), (0.0, 0.0, 0.0));
            assert_eq!(coords(&data.up), (0.0, 0.0, 1.0));
            assert_eq!(f(data.fov_y.unwrap()), 45.0);
            assert_eq!(f(data.ortho_scale.unwrap()), 1.0);
            assert!(!data.ortho);
        }
        other => panic!("unexpected {other:?}"),
    }
    run(&mut s, ModelingCmd::DefaultCameraLookAt { center: None, eye: Some(p(1.0, 1.0, 1.0)), up: None, vantage: Some(p(9.0, 9.0, 9.0)), sequence: None }).unwrap();
    assert_eq!(coords(&s.camera.position), (1.0, 1.0, 1.0));
}

#[test]
fn make_plane_entity_and_axes() {
    let mut s: Session<TestShape> = Session::new();
    let r = run(&mut s, ModelingCmd::MakePlane { origin: p(0.0, 0.0, 0.0), x_axis: p(1.0, 0.0, 0.0), y_axis: p(0.0, 1.0, 0.0), size: 10.0f64.to_bits(), clobber: None, hide: None });
    match r {
        Ok(OkModelingCmdResponse::MakePlane { data }) => {
            assert_eq!(coords(&data.z_axis), (0.0, 0.0, 1.0));
            assert_eq!(s.entities[&data.plane_id].entity_type, EntityType::Plane);
        }
        other => panic!("unexpected {other:?}"),
    }
}

#[test]
fn visibility_and_noops() {
    let mut s = Session::new();
    let (_, face) = square_face(&mut s);
    run(&mut s, ModelingCmd::ObjectVisible { object_id: face, hidden: true }).unwrap();
    assert!(!s.entities[&face].visible);
    run(&mut s, ModelingCmd::ObjectVisible { object_id: 12345, hidden: true }).unwrap();
    for cmd in [
        ModelingCmd::MouseMove { window: window(), sequence: None },
        ModelingCmd::HandleMouseDragEnd { window: window() },
        ModelingCmd::ZoomToFit { object_ids: None, padding: None, animated: None },
        ModelingCmd::Unknown,
    ] {
        assert!(matches!(run(&mut s, cmd), Ok(OkModelingCmdResponse::Empty {})));
    }
    match run(&mut s, ModelingCmd::HighlightSetEntity { selected_at_window: window(), sequence: Some(7) }) {
        Ok(OkModelingCmdResponse::HighlightSetEntity { data }) => {
            assert_eq!(data.entity_id, None);
            assert_eq!(data.sequence, Some(7));
        }
        other => panic!("unexpected {other:?}"),
    }
    match run(&mut s, ModelingCmd::Solid3dGetOppositeEdge { object_id: 1, edge_id: 42, face_id: 3 }) {
        Ok(OkModelingCmdResponse::Solid3dGetOppositeEdge { data }) => assert_eq!(data.edge, 42),
        other => panic!("unexpected {other:?}"),
    }
    match run(&mut s, ModelingCmd::CurveGetType { curve_id: 1 }) {
        Ok(OkModelingCmdResponse::CurveGetType { data }) => assert_eq!(data.curve_type, "line"),
        other => panic!("unexpected {other:?}"),
    }
}

#[test]
fn face_and_curve_queries() {
    let mut s = Session::new();
    let (path, face) = square_face(&mut s);
    let r = run(&mut s, ModelingCmd::FaceIsPlanar { object_id: path, face_id: 99 });
    assert_eq!(r.unwrap_err(), "Shape not found for face query");
    match run(&mut s, ModelingCmd::FaceIsPlanar { object_id: face, face_id: 99 }) {
        Ok(OkModelingCmdResponse::FaceIsPlanar { data }) => assert!(data.is_planar),
        other => panic!("unexpected {other:?}"),
    }
    match run(&mut s, ModelingCmd::FaceGetGradient { object_id: 0, face_id: face, uv: window() }) {
        Ok(OkModelingCmdResponse::FaceGetGradient { data }) => {
            assert_eq!(coords(&data.normal), (0.0, 0.0, 1.0));
            assert_eq!(coords(&data.df_du), (1.0, 0.0, 0.0));
        }
        other => panic!("unexpected {other:?}"),
    }
    match run(&mut s, ModelingCmd::CurveGetEndPoints { curve_id: 99 }) {
        Ok(OkModelingCmdResponse::CurveGetEndPoints { data }) => {
            assert_eq!(coords(&data.start), (0.0, 0.0, 0.0));
            assert_eq!(coords(&data.end), (0.0, 0.0, 0.0));
        }
        other => panic!("unexpected {other:?}"),
    }
    match run(&mut s, ModelingCmd::CurveGetEndPoints { curve_id: face }) {
        Ok(OkModelingCmdResponse::CurveGetEndPoints { data }) => assert_eq!(coords(&data.end), (4.0, 5.0, 6.0)),
        other => panic!("unexpected {other:?}"),
    }
}

#[test]
fn measurements() {
    let mut s = Session::new();
    let (_, a) = square_face(&mut s);
    let (_, b) = square_face(&mut s);
    match run(&mut s, ModelingCmd::Volume { entity_ids: vec![a, 77, b], output_unit: None }) {
        Ok(OkModelingCmdResponse::Volume { data }) => {
            assert_eq!(f(data.volume), 2.0);
            assert_eq!(data.output_unit, "mm3");
        }
        other => panic!("unexpected {other:?}"),
    }
    match run(&mut s, ModelingCmd::Mass { entity_ids: vec![a, b], material_density: 3.0f64.to_bits(), material_density_unit: None, output_unit: None }) {
        Ok(OkModelingCmdResponse::Mass { data }) => {
            assert_eq!(f(data.mass), 6.0);
            assert_eq!(data.output_unit, "kg");
        }
        other => panic!("unexpected {other:?}"),
    }
    match run(&mut s, ModelingCmd::Density { entity_ids: vec![], material_mass: 3.0f64.to_bits(), material_mass_unit: None, output_unit: None }) {
        Ok(OkModelingCmdResponse::Density { data }) => {
            assert_eq!(f(data.density), 0.0);
            assert_eq!(data.output_unit, "kg_per_m3");
        }
        other => panic!("unexpected {other:?}"),
    }
    match run(&mut s, ModelingCmd::SurfaceArea { entity_ids: vec![a], output_unit: None }) {
        Ok(OkModelingCmdResponse::SurfaceArea { data }) => {
            assert_eq!(f(data.surface_area), 6.0);
            assert_eq!(data.output_unit, "mm2");
        }
        other => panic!("unexpected {other:?}"),
    }
    match run(&mut s, ModelingCmd::CenterOfMass { entity_ids: vec![55, a], output_unit: None }) {
        Ok(OkModelingCmdResponse::CenterOfMass { data }) => {
            assert_eq!(coords(&data.center_of_mass), (0.0, 0.0, 0.0));
            assert_eq!(data.output_unit, "mm");
        }
        other => panic!("unexpected {other:?}"),
    }
    match run(&mut s, ModelingCmd::CenterOfMass { entity_ids: vec![a], output_unit: None }) {
        Ok(OkModelingCmdResponse::CenterOfMass { data }) => assert_eq!(coords(&data.center_of_mass), (0.5, 0.5, 0.5)),
        other => panic!("unexpected {other:?}"),
    }
}

#[test]
fn export_formats() {
    let mut s = Session::new();
    let (_, a) = square_face(&mut s);
    match run(&mut s, ModelingCmd::Export { entity_ids: vec![a, 5, a], format: ExportFormat::Step {} }) {
        Ok(OkModelingCmdResponse::Export { data }) => {
            assert_eq!(data.files.len(), 2);
            assert_eq!(data.files[0].name, "export.step");
            assert!(String::from_utf8_lossy(&data.files[0].contents).contains("ISO-10303-21"));
        }
        other => panic!("unexpected {other:?}"),
    }
    match run(&mut s, ModelingCmd::Export { entity_ids: vec![a], format: ExportFormat::Stl { coords: None } }) {
        Ok(OkModelingCmdResponse::Export { data }) => assert_eq!(data.files[0].name, "export.stl"),
        other => panic!("unexpected {other:?}"),
    }
    let r = run(&mut s, ModelingCmd::Export { entity_ids: vec![a], format: ExportFormat::Obj {} });
    assert_eq!(r.unwrap_err(), "Export format Obj not yet supported");
    let gltf = ExportFormat::Gltf { storage: Some("em\"bed".to_string()) };
    let expected = format!("Export format {gltf:?} not yet supported");
    assert_eq!(expected, "Export format Gltf { storage: Some(\"em\\\"bed\") } not yet supported");
    let r = run(&mut s, ModelingCmd::Export { entity_ids: vec![a], format: gltf });
    assert_eq!(r.unwrap_err(), expected);
    match run(&mut s, ModelingCmd::Export { entity_ids: vec![77], format: ExportFormat::Ply {} }) {
        Ok(OkModelingCmdResponse::Export { data }) => assert!(data.files.is_empty()),
        other => panic!("unexpected {other:?}"),
    }
}

#[test]
fn export_format_debug_text() {
    let cases = [
        (ExportFormat::Step {}, "Step"),
        (ExportFormat::Obj {}, "Obj"),
        (ExportFormat::Ply {}, "Ply"),
        (ExportFormat::Gltf { storage: None }, "Gltf { storage: None }"),
        (ExportFormat::Stl { coords: None }, "Stl { coords: None }"),
    ];
    for (fmt, text) in cases {
        assert_eq!(fmt.debug_text(), text);
        assert_eq!(format!("{fmt:?}"), text);
    }
    let fmt = ExportFormat::Stl { coords: Some(StlCoords { up: Some("+z".to_string()), forward: None }) };
    assert_eq!(fmt.debug_text(), format!("{fmt:?}"));
    let fmt = ExportFormat::Gltf { storage: Some("a\"b\n".to_string()) };
    assert_eq!(fmt.debug_text(), format!("{fmt:?}"));
}

#[test]
fn export_failure_from_kernel() {
    let mut s: Session<TestShape> = Session::new();
    s.entities.insert(
        8,
        kitty_cad_backend::session::Entity {
            id: 8,
            entity_type: EntityType::Solid,
            parent_id: None,
            children: vec![],
            visible: true,
            shape: Some(TestShape { name: "broken".to_string(), edges: 0 }),
        },
    );
    let r = run(&mut s, ModelingCmd::Export { entity_ids: vec![8], format: ExportFormat::Stl { coords: None } });
    assert_eq!(r.unwrap_err(), "STL export failed");
}

#[test]
fn import_files() {
    let mut s: Session<TestShape> = Session::new();
    let good = ImportFile { path: "a.step".to_string(), data: Some(b"ISO-10303-21;x".to_vec()) };
    match run(&mut s, ModelingCmd::ImportFiles { files: vec![good], format: ImportFormat::Step {} }) {
        Ok(OkModelingCmdResponse::ImportFiles { data }) => {
            let e = &s.entities[&data.object_id];
            assert_eq!(e.entity_type, EntityType::Solid);
            assert_eq!(e.shape.as_ref().unwrap().name, "imported");
        }
        other => panic!("unexpected {other:?}"),
    }
    let bad = ImportFile { path: "b.step".to_string(), data: Some(b"junk".to_vec()) };
    let none = ImportFile { path: "c.step".to_string(), data: None };
    for files in [vec![bad], vec![none], vec![]] {
        match run(&mut s, ModelingCmd::ImportFiles { files, format: ImportFormat::Step {} }) {
            Ok(OkModelingCmdResponse::ImportFiles { data }) => assert!(!s.entities.contains_key(&data.object_id)),
            other => panic!("unexpected {other:?}"),
        }
    }
    assert_eq!(s.entities.len(), 1);
}

#[test]
fn ids_text_and_version() {
    assert_eq!(id_message("", 0, ""), "00000000-0000-0000-0000-000000000000");
    assert_eq!(
        id_message("<", 0x0123456789abcdef0123456789abcdef, ">"),
        "<01234567-89ab-cdef-0123-456789abcdef>"
    );
    let mut s: Session<TestShape> = Session::new();
    let id = start_path(&mut s);
    assert_eq!((id >> 76) & 0xf, 4);
    assert_eq!(id_message("", id, "").len(), 36);
}

#[test]
fn entity_type_names() {
    assert_eq!(EntityType::Path.to_string(), "path");
    assert_eq!(EntityType::Face.to_string(), "face");
    assert_eq!(EntityType::Solid.to_string(), "solid");
    assert_eq!(EntityType::Edge.to_string(), "edge");
    assert_eq!(EntityType::Plane.to_string(), "plane");
}

fn rect_segments() -> Vec<PathSegmentRecord> {
    vec![
        PathSegmentRecord { from: p(0.0, 0.0, 0.0), segment: line(10.0, 0.0, Some(false)) },
        PathSegmentRecord { from: p(10.0, 0.0, 0.0), segment: line(10.0, 10.0, Some(false)) },
        PathSegmentRecord { from: p(10.0, 10.0, 0.0), segment: line(0.0, 10.0, Some(false)) },
    ]
}

#[test]
fn test_build_wire_closed() {
    let segments = rect_segments();
    let wire = build_wire(&TestKernel, &segments, true).expect("Wire build failed");
    let _ = wire;
}

#[test]
fn test_build_face_from_closed_wire() {
    let segments = rect_segments();
    let wire = build_wire(&TestKernel, &segments, true).expect("Wire build failed");
    let face = build_face_from_wire(&TestKernel, &wire).expect("Face build failed");
    assert!(face.edges >= 3);
}

#[test]
fn test_build_wire_empty_segments_fails() {
    let result = build_wire(&TestKernel, &vec![], true);
    assert!(result.is_err());
}

#[test]
fn test_relative_line_segment() {
    let segments = vec![
        PathSegmentRecord { from: p(5.0, 5.0, 0.0), segment: line(10.0, 0.0, Some(true)) },
        PathSegmentRecord { from: p(15.0, 5.0, 0.0), segment: line(0.0, 10.0, Some(true)) },
        PathSegmentRecord { from: p(15.0, 15.0, 0.0), segment: line(-10.0, 0.0, Some(true)) },
    ];
    let wire = build_wire(&TestKernel, &segments, true).expect("Wire build failed");
    let face = build_face_from_wire(&TestKernel, &wire).expect("Face build failed");
    let _ = face;
}

#[test]
fn extrude_follows_sketch_normal() {
    let mut s = Session::new();
    let (_, face) = square_face(&mut s);
    run(&mut s, ModelingCmd::EnableSketchMode {
        entity_id: face,
        planar_normal: Some(p(1.0, 0.0, 0.0)),
        animated: None,
        adjust_camera: None,
        ortho: None,
    })
    .unwrap();
    match run(&mut s, ModelingCmd::Extrude { target: face, distance: 2.0f64.to_bits(), cap: None }) {
        Ok(OkModelingCmdResponse::Extrude { data }) => {
            assert_eq!(s.entities[&data.solid_id].shape.as_ref().unwrap().name, "extrude(face along (1.0, 0.0, 0.0))");
        }
        other => panic!("unexpected {other:?}"),
    }
}

#[test]
fn make_plane_z_axis_is_cross_product() {
    let mut s: Session<TestShape> = Session::new();
    let r = run(&mut s, ModelingCmd::MakePlane { origin: p(0.0, 0.0, 0.0), x_axis: p(0.0, 1.0, 0.0), y_axis: p(0.0, 0.0, 1.0), size: 1.0f64.to_bits(), clobber: None, hide: None });
    match r {
        Ok(OkModelingCmdResponse::MakePlane { data }) => {
            assert_eq!(coords(&data.z_axis), (1.0, 0.0, 0.0));
            assert_eq!(s.entities.len(), 1);
            assert!(s.entities[&data.plane_id].parent_id.is_none());
        }
        other => panic!("unexpected {other:?}"),
    }
}

#[test]
fn relative_line_moves_pen_by_offset() {
    let mut s: Session<TestShape> = Session::new();
    let path = start_path(&mut s);
    run(&mut s, ModelingCmd::MovePathPen { path, to: p(5.0, 5.0, 0.0) }).unwrap();
    run(&mut s, ModelingCmd::ExtendPath { path, segment: line(10.0, 0.0, Some(true)) }).unwrap();
    let b = &s.paths[&path];
    assert_eq!(coords(&b.pen_position.unwrap()), (15.0, 5.0, 0.0));
    assert_eq!(b.segments.len(), 1);
    assert_eq!(coords(&b.segments[0].from), (5.0, 5.0, 0.0));
    assert!(!b.closed);
}
