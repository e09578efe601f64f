//! Successful modeling command responses and their data.
//! Real-valued fields are `f64` bit patterns (`f32` bit patterns in
//! `MeshData`), as in `modeling_cmd`.

use vstd::prelude::*;
use crate::modeling_cmd::Point3d;

verus! {

#[derive(Clone, Copy, Debug, PartialEq, Eq, Structural)]
pub struct StartPathData {
    pub path_id: u128,
}

#[derive(Clone, Copy, Debug, PartialEq, Eq, Structural)]
pub struct ClosePathData {
    pub face_id: u128,
}

#[derive(Clone, Debug)]
pub struct ExtrudeData {
    pub solid_id: u128,
    pub face_ids: Vec<u128>,
    pub edge_ids: Vec<u128>,
}

#[derive(Clone, Debug)]
pub struct RevolveData {
    pub solid_id: u128,
    pub face_ids: Vec<u128>,
    pub edge_ids: Vec<u128>,
}

#[derive(Clone, Copy, Debug, PartialEq, Eq, Structural)]
pub struct MakePlaneData {
    pub plane_id: u128,
    pub origin: Point3d,
    pub x_axis: Point3d,
    pub y_axis: Point3d,
    pub z_axis: Point3d,
}

#[derive(Clone, Debug)]
pub struct ExportFileData {
    pub name: String,
    pub contents: Vec<u8>,
}

#[derive(Clone, Debug)]
pub struct ExportData {
    pub files: Vec<ExportFileData>,
}

#[derive(Clone, Copy, Debug, PartialEq, Eq, Structural)]
pub struct ImportFilesData {
    pub object_id: u128,
}

#[derive(Clone, Copy, Debug, PartialEq, Eq, Structural)]
pub struct SelectAddData {}

#[derive(Clone, Copy, Debug, PartialEq, Eq, Structural)]
pub struct CameraSettings {
    pub pos: Point3d,
    pub center: Point3d,
    pub up: Point3d,
    pub fov_y: Option<u64>,
    pub ortho: bool,
    pub ortho_scale: Option<u64>,
}

#[derive(Clone, Copy, Debug, PartialEq, Eq, Structural)]
pub struct HighlightSetEntityData {
    pub entity_id: Option<u128>,
    pub sequence: Option<u32>,
}

#[derive(Clone, Copy, Debug, PartialEq, Eq, Structural)]
pub struct EntityGetParentIdData {
    pub entity_id: u128,
}

#[derive(Clone, Copy, Debug, PartialEq, Eq, Structural)]
pub struct EntityGetNumChildrenData {
    pub num: u32,
}

#[derive(Clone, Copy, Debug, PartialEq, Eq, Structural)]
pub struct EntityGetChildUuidData {
    pub entity_id: u128,
}

#[derive(Clone, Debug)]
pub struct EntityGetAllChildUuidsData {
    pub entity_ids: Vec<u128>,
}

#[derive(Clone, Debug)]
pub struct EntityGetSketchPathsData {
    pub entity_ids: Vec<u128>,
}

#[derive(Clone, Copy, Debug, PartialEq, Eq, Structural)]
pub struct EntityGetDistanceData {
    pub min_distance: u64,
    pub max_distance: u64,
}

#[derive(Clone, Debug)]
pub struct GetEntityTypeData {
    pub entity_type: String,
}

#[derive(Clone, Debug)]
pub struct Solid3dGetAllEdgeFacesData {
    pub faces: Vec<u128>,
}

#[derive(Clone, Debug)]
pub struct Solid3dGetAllOppositeEdgesData {
    pub edges: Vec<u128>,
}

#[derive(Clone, Copy, Debug, PartialEq, Eq, Structural)]
pub struct Solid3dGetOppositeEdgeData {
    pub edge: u128,
}

#[derive(Clone, Copy, Debug, PartialEq, Eq, Structural)]
pub struct Solid3dGetAdjacentEdgeData {
    pub edge: Option<u128>,
}

#[derive(Clone, Copy, Debug, PartialEq, Eq, Structural)]
pub struct FaceIsPlanarData {
    pub is_planar: bool,
}

#[derive(Clone, Copy, Debug, PartialEq, Eq, Structural)]
pub struct FaceGetCenterData {
    pub pos: Point3d,
}

#[derive(Clone, Copy, Debug, PartialEq, Eq, Structural)]
pub struct FaceGetGradientData {
    pub df_du: Point3d,
    pub df_dv: Point3d,
    pub normal: Point3d,
}

#[derive(Clone, Copy, Debug, PartialEq, Eq, Structural)]
pub struct FaceGetPositionData {
    pub pos: Point3d,
}

#[derive(Clone, Copy, Debug, PartialEq, Eq, Structural)]
pub struct GetSketchModePlaneData {
    pub origin: Point3d,
    pub x_axis: Point3d,
    pub y_axis: Point3d,
    pub z_axis: Point3d,
}

#[derive(Clone, Debug)]
pub struct CurveGetControlPointsData {
    pub control_points: Vec<Point3d>,
}

#[derive(Clone, Copy, Debug, PartialEq, Eq, Structural)]
pub struct CurveGetEndPointsData {
    pub start: Point3d,
    pub end: Point3d,
}

#[derive(Clone, Debug)]
pub struct CurveGetTypeData {
    pub curve_type: String,
}

#[derive(Clone, Debug)]
pub struct MassData {
    pub mass: u64,
    pub output_unit: String,
}

#[derive(Clone, Debug)]
pub struct VolumeData {
    pub volume: u64,
    pub output_unit: String,
}

#[derive(Clone, Debug)]
pub struct SurfaceAreaData {
    pub surface_area: u64,
    pub output_unit: String,
}

#[derive(Clone, Debug)]
pub struct CenterOfMassData {
    pub center_of_mass: Point3d,
    pub output_unit: String,
}

#[derive(Clone, Debug)]
pub struct DensityData {
    pub density: u64,
    pub output_unit: String,
}

#[derive(Clone, Copy, Debug, PartialEq, Eq, Structural)]
pub struct Solid3dShellFaceData {
    pub solid_id: u128,
}

#[derive(Clone, Debug)]
pub struct SweepData {
    pub solid_id: u128,
    pub face_ids: Vec<u128>,
    pub edge_ids: Vec<u128>,
}

#[derive(Clone, Debug)]
pub struct LoftData {
    pub solid_id: u128,
    pub face_ids: Vec<u128>,
    pub edge_ids: Vec<u128>,
}

#[derive(Clone, Copy, Debug, PartialEq, Eq, Structural)]
pub struct BoundingBoxData {
    pub min: Point3d,
    pub max: Point3d,
}

#[derive(Clone, Copy, Debug, PartialEq, Eq, Structural)]
pub struct Solid3dFilletEdgeData {
    pub solid_id: u128,
}

/// Mesh data for client-side rendering; `vertices` and `normals` hold
/// `f32` bit patterns, three per vertex.
#[derive(Clone, Debug)]
pub struct MeshData {
    pub vertices: Vec<u32>,
    pub normals: Vec<u32>,
    pub indices: Vec<u32>,
}

/// Data returned alongside modeling commands for scene updates.
#[derive(Clone, Debug)]
pub struct ModelingData {
    pub entity_id: u128,
    pub mesh: Option<MeshData>,
}

/// Successful modeling command response variants.
#[derive(Clone, Debug)]
pub enum OkModelingCmdResponse {
    Empty {},
    StartPath { data: StartPathData },
    ClosePath { data: ClosePathData },
    Extrude { data: ExtrudeData },
    Revolve { data: RevolveData },
    MakePlane { data: MakePlaneData },
    Export { data: ExportData },
    ImportFiles { data: ImportFilesData },
    SelectAdd { data: SelectAddData },
    DefaultCameraGetSettings { data: CameraSettings },
    HighlightSetEntity { data: HighlightSetEntityData },
    EntityGetParentId { data: EntityGetParentIdData },
    EntityGetNumChildren { data: EntityGetNumChildrenData },
    EntityGetChildUuid { data: EntityGetChildUuidData },
    EntityGetAllChildUuids { data: EntityGetAllChildUuidsData },
    EntityGetSketchPaths { data: EntityGetSketchPathsData },
    EntityGetDistance { data: EntityGetDistanceData },
    GetEntityType { data: GetEntityTypeData },
    Solid3dGetAllEdgeFaces { data: Solid3dGetAllEdgeFacesData },
    Solid3dGetAllOppositeEdges { data: Solid3dGetAllOppositeEdgesData },
    Solid3dGetOppositeEdge { data: Solid3dGetOppositeEdgeData },
    Solid3dGetNextAdjacentEdge { data: Solid3dGetAdjacentEdgeData },
    Solid3dGetPrevAdjacentEdge { data: Solid3dGetAdjacentEdgeData },
    FaceIsPlanar { data: FaceIsPlanarData },
    FaceGetCenter { data: FaceGetCenterData },
    FaceGetGradient { data: FaceGetGradientData },
    FaceGetPosition { data: FaceGetPositionData },
    GetSketchModePlane { data: GetSketchModePlaneData },
    CurveGetControlPoints { data: CurveGetControlPointsData },
    CurveGetEndPoints { data: CurveGetEndPointsData },
    CurveGetType { data: CurveGetTypeData },
    Mass { data: MassData },
    Volume { data: VolumeData },
    SurfaceArea { data: SurfaceAreaData },
    CenterOfMass { data: CenterOfMassData },
    Density { data: DensityData },
    Solid3dShellFace { data: Solid3dShellFaceData },
    Sweep { data: SweepData },
    Loft { data: LoftData },
    BoundingBox { data: BoundingBoxData },
    Solid3dFilletEdge { data: Solid3dFilletEdgeData },
    Modeling { data: ModelingData },
}

} // verus!
