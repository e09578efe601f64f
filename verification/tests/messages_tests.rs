use kitty_cad_backend::commands::dispatch;
use kitty_cad_backend::config::{Config, DEFAULT_PORT};
use kitty_cad_backend::kernel::GeometryKernel;
use kitty_cad_backend::modeling_cmd::{ModelingCmd, Point3d};
use kitty_cad_backend::responses::OkModelingCmdResponse;
use kitty_cad_backend::session::{PathSegmentRecord, Session};
use kitty_cad_backend::ws_messages::{
    handle_request, ice_server_info, ModelingCmdReqBatch, ModelingSessionResult, WebSocketRequest,
    WebSocketResponse,
};

/// A kernel that is never asked for geometry in these tests.
struct NoGeometry;

impl GeometryKernel for NoGeometry {
    type Wire = ();
    type Shape = ();
    fn translate(&self, a: &Point3d, _b: &Point3d) -> Point3d {
        *a
    }
    fn point_on_circle(&self, c: &Point3d, _r: u64, _a: u64) -> Point3d {
        *c
    }
    fn cross(&self, a: &Point3d, _b: &Point3d) -> Point3d {
        *a
    }
    fn wire_from_segments(&self, _s: &Vec<PathSegmentRecord>, _c: bool) {}
    fn face_from_wire(&self, _w: &()) {}
    fn extrude(&self, _s: &(), _d: &Point3d, _x: u64) {}
    fn revolve(&self, _s: &(), _a: &Point3d, _x: u64) {}
    fn union(&self, _a: &(), _b: &()) {}
    fn subtract(&self, _a: &(), _b: &()) {}
    fn face_is_planar(&self, _s: &()) -> bool {
        false
    }
    fn face_center(&self, _s: &()) -> Point3d {
        Point3d { x: 0, y: 0, z: 0 }
    }
    fn face_normal_at_center(&self, _s: &()) -> Point3d {
        Point3d { x: 0, y: 0, z: 0 }
    }
    fn tangent_frame(&self, n: &Point3d) -> (Point3d, Point3d) {
        (*n, *n)
    }
    fn first_edge_end_points(&self, _s: &()) -> Option<(Point3d, Point3d)> {
        None
    }
    fn total_volume(&self, _s: &Vec<&()>) -> u64 {
        0
    }
    fn total_surface_area(&self, _s: &Vec<&()>) -> u64 {
        0
    }
    fn center_of_mass(&self, _s: &()) -> Point3d {
        Point3d { x: 0, y: 0, z: 0 }
    }
    fn product(&self, a: u64, _b: u64) -> u64 {
        a
    }
    fn quotient_or_zero(&self, a: u64, _b: u64) -> u64 {
        a
    }
    fn export_step(&self, _s: &()) -> Result<Vec<u8>, String> {
        Ok(vec![])
    }
    fn export_stl(&self, _s: &()) -> Result<Vec<u8>, String> {
        Ok(vec![])
    }
    fn import_step(&self, _d: &Vec<u8>) -> Result<(), String> {
        Err("no".to_string())
    }
}

#[test]
fn silent_messages_get_no_answer() {
    let mut s: Session<()> = Session::new();
    for req in [WebSocketRequest::Pong {}, WebSocketRequest::TrickleIce {}, WebSocketRequest::Unknown] {
        assert!(handle_request(&mut s, &NoGeometry, req).is_empty());
    }
    assert!(s.entities.is_empty());
}

#[test]
fn sdp_offer_gets_placeholder_answer() {
    let mut s: Session<()> = Session::new();
    let out = handle_request(&mut s, &NoGeometry, WebSocketRequest::SdpOffer {});
    assert_eq!(out.len(), 1);
    match &out[0] {
        WebSocketResponse::SdpAnswer { answer } => {
            assert_eq!(answer.sdp_type, "answer");
            assert_eq!(answer.sdp, "v=0\r\n");
        }
        _ => panic!("expected an SDP answer"),
    }
}

#[test]
fn command_request_reports_success_and_error() {
    let mut s: Session<()> = Session::new();
    let out = handle_request(
        &mut s,
        &NoGeometry,
        WebSocketRequest::ModelingCmdReq { cmd: ModelingCmd::StartPath {}, cmd_id: 11 },
    );
    assert_eq!(out.len(), 1);
    match &out[0] {
        WebSocketResponse::Modeling {
            result: ModelingSessionResult::Success { cmd_id, resp: OkModelingCmdResponse::StartPath { data } },
        } => {
            assert_eq!(*cmd_id, 11);
            assert!(s.paths.contains_key(&data.path_id));
        }
        _ => panic!("expected a success"),
    }
    let out = handle_request(
        &mut s,
        &NoGeometry,
        WebSocketRequest::ModelingCmdReq { cmd: ModelingCmd::GetSketchModePlane {}, cmd_id: 12 },
    );
    match &out[0] {
        WebSocketResponse::Modeling { result: ModelingSessionResult::Error { cmd_id, errors } } => {
            assert_eq!(*cmd_id, 12);
            assert_eq!(errors, &vec!["Not in sketch mode".to_string()]);
        }
        _ => panic!("expected an error"),
    }
}

#[test]
fn batch_runs_in_order() {
    let mut s: Session<()> = Session::new();
    let requests = vec![
        ModelingCmdReqBatch { cmd: ModelingCmd::StartPath {}, cmd_id: 1 },
        ModelingCmdReqBatch { cmd: ModelingCmd::SceneClearAll {}, cmd_id: 2 },
        ModelingCmdReqBatch { cmd: ModelingCmd::GetSketchModePlane {}, cmd_id: 3 },
    ];
    let out = handle_request(&mut s, &NoGeometry, WebSocketRequest::ModelingCmdBatchReq { requests });
    assert_eq!(out.len(), 3);
    let ids: Vec<u128> = out
        .iter()
        .map(|r| match r {
            WebSocketResponse::Modeling { result: ModelingSessionResult::Success { cmd_id, .. } } => *cmd_id,
            WebSocketResponse::Modeling { result: ModelingSessionResult::Error { cmd_id, .. } } => *cmd_id,
            _ => panic!("expected modeling results"),
        })
        .collect();
    assert_eq!(ids, vec![1, 2, 3]);
    assert!(s.paths.is_empty());
}

#[test]
fn first_message_is_empty_ice_info() {
    match ice_server_info() {
        WebSocketResponse::IceServerInfo { ice_servers } => assert!(ice_servers.is_empty()),
        _ => panic!("expected ICE server info"),
    }
}

#[test]
fn dispatch_with_unit_shapes() {
    let mut s: Session<()> = Session::new();
    assert!(matches!(
        dispatch(&mut s, &NoGeometry, ModelingCmd::Unknown),
        Ok(OkModelingCmdResponse::Empty {})
    ));
}

#[test]
fn config_port() {
    assert_eq!(DEFAULT_PORT, 3001);
    assert_eq!(Config::from_port_value(None).port, 3001);
    assert_eq!(Config::from_port_value(Some("8080".to_string())).port, 8080);
    assert_eq!(Config::from_port_value(Some("+80".to_string())).port, 80);
    assert_eq!(Config::from_port_value(Some("0065535".to_string())).port, 65535);
    for bad in ["", "+", "-1", "abc", "65536", " 80", "8_0"] {
        assert_eq!(Config::from_port_value(Some(bad.to_string())).port, 3001, "{bad}");
    }
}
