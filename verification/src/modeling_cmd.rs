//! Modeling commands as the session receives them.
//!
//! Real-valued quantities are carried as the IEEE-754 bit patterns of
//! `f64` values (`f64::to_bits`): the session stores and forwards them
//! without arithmetic, and every computation on them is the geometry
//! kernel's (see `kernel`).

use vstd::prelude::*;

verus! {

/// The bit pattern of `0.0f64`.
pub const ZERO_BITS: u64 = 0u64;

/// The bit pattern of `1.0f64`.
pub const ONE_BITS: u64 = 0x3ff0_0000_0000_0000u64;

/// A point or vector in 3D; each coordinate is an `f64` bit pattern.
#[derive(Clone, Copy, Debug, PartialEq, Eq, Structural)]
pub struct Point3d {
    pub x: u64,
    pub y: u64,
    pub z: u64,
}

/// A point in 2D window space; each coordinate is an `f64` bit pattern.
#[derive(Clone, Copy, Debug, PartialEq, Eq, Structural)]
pub struct Point2d {
    pub x: u64,
    pub y: u64,
}

/// An RGBA color; each channel is an `f64` bit pattern.
#[derive(Clone, Copy, Debug, PartialEq, Eq, Structural)]
pub struct Color {
    pub r: u64,
    pub g: u64,
    pub b: u64,
    pub a: u64,
}

/// One segment of a sketch path.
#[derive(Clone, Copy, Debug, PartialEq, Eq, Structural)]
pub enum PathSegment {
    Line { end: Point3d, relative: Option<bool> },
    Arc { center: Point3d, radius: u64, start_angle: u64, end_angle: u64 },
    Bezier { control1: Point3d, control2: Point3d, end: Point3d },
    TangentialArc { offset: Option<Point3d>, radius: Option<u64>, to: Option<Point3d> },
    TangentialArcTo { angle_snap_increment: Option<u64>, to: Point3d },
}

/// Axis names of an STL export.
#[derive(Clone, Debug)]
pub struct StlCoords {
    pub up: Option<String>,
    pub forward: Option<String>,
}

/// Formats that an export can ask for.
#[derive(Clone, Debug)]
pub enum ExportFormat {
    Step {},
    Stl { coords: Option<StlCoords> },
    Gltf { storage: Option<String> },
    Obj {},
    Ply {},
}

/// A file handed to an import.
#[derive(Clone, Debug)]
pub struct ImportFile {
    pub path: String,
    pub data: Option<Vec<u8>>,
}

/// Formats that an import can name.
#[derive(Clone, Copy, Debug, PartialEq, Eq, Structural)]
pub enum ImportFormat {
    Step {},
    Stl {},
    Gltf {},
    Obj {},
    Ply {},
    Fbx {},
    Sldprt {},
}

/// Units of length.
#[derive(Clone, Copy, Debug, PartialEq, Eq, Structural)]
pub enum UnitLength {
    Cm,
    Ft,
    In,
    M,
    Mm,
    Yd,
}

/// Units of density.
#[derive(Clone, Copy, Debug, PartialEq, Eq, Structural)]
pub enum UnitDensity {
    LbPerFt3,
    KgPerM3,
}

/// Units of mass.
#[derive(Clone, Copy, Debug, PartialEq, Eq, Structural)]
pub enum UnitMass {
    G,
    Kg,
    Lb,
}

/// Units of volume.
#[derive(Clone, Copy, Debug, PartialEq, Eq, Structural)]
pub enum UnitVolume {
    Cm3,
    Ft3,
    In3,
    M3,
    Mm3,
    Yd3,
}

/// Units of area.
#[derive(Clone, Copy, Debug, PartialEq, Eq, Structural)]
pub enum UnitArea {
    Cm2,
    Ft2,
    In2,
    M2,
    Mm2,
    Yd2,
}

/// A modeling command. Identifiers are UUID values read as `u128`.
#[derive(Clone, Debug)]
pub enum ModelingCmd {
    StartPath {},
    MovePathPen { path: u128, to: Point3d },
    ExtendPath { path: u128, segment: PathSegment },
    ClosePath { path_id: u128 },
    EnableSketchMode {
        entity_id: u128,
        planar_normal: Option<Point3d>,
        animated: Option<bool>,
        adjust_camera: Option<bool>,
        ortho: Option<bool>,
    },
    SketchModeDisable {},
    Extrude { target: u128, distance: u64, cap: Option<bool> },
    Revolve { target: u128, axis: Point3d, angle: u64, tolerance: Option<u64> },
    Solid3dFilletEdge {
        object_id: u128,
        edge_id: u128,
        radius: u64,
        tolerance: Option<u64>,
        cut_type: Option<String>,
    },
    BooleanUnion { targets: Vec<u128> },
    BooleanSubtract { target: u128, tool: u128 },
    BooleanIntersect { targets: Vec<u128> },
    DefaultCameraLookAt {
        center: Option<Point3d>,
        eye: Option<Point3d>,
        up: Option<Point3d>,
        vantage: Option<Point3d>,
        sequence: Option<u32>,
    },
    DefaultCameraGetSettings {},
    DefaultCameraZoom { magnitude: u64 },
    ZoomToFit { object_ids: Option<Vec<u128>>, padding: Option<u64>, animated: Option<bool> },
    ViewIsometric { padding: Option<u64> },
    SceneClearAll {},
    SelectAdd { entities: Vec<u128> },
    SelectRemove { entities: Vec<u128> },
    SelectClear {},
    HighlightSetEntity { selected_at_window: Point2d, sequence: Option<u32> },
    MakePlane {
        origin: Point3d,
        x_axis: Point3d,
        y_axis: Point3d,
        size: u64,
        clobber: Option<bool>,
        hide: Option<bool>,
    },
    SetSceneUnits { unit: UnitLength },
    SetBackgroundColor { color: Color },
    EdgeLinesVisible { hidden: bool },
    EntityGetParentId { entity_id: u128 },
    EntityGetNumChildren { entity_id: u128 },
    EntityGetChildUuid { entity_id: u128, child_index: u32 },
    EntityGetAllChildUuids { entity_id: u128 },
    EntityGetSketchPaths { entity_id: u128 },
    EntityGetDistance { entity_id_a: u128, entity_id_b: u128, distance_type: Option<String> },
    Export { entity_ids: Vec<u128>, format: ExportFormat },
    ImportFiles { files: Vec<ImportFile>, format: ImportFormat },
    MouseMove { window: Point2d, sequence: Option<u32> },
    MouseClick { window: Point2d, entities_modified: Option<Vec<u128>> },
    HandleMouseDragStart { window: Point2d },
    HandleMouseDragMove { window: Point2d, sequence: Option<u32> },
    HandleMouseDragEnd { window: Point2d },
    ObjectVisible { object_id: u128, hidden: bool },
    ObjectBringToFront { object_id: u128 },
    GetEntityType { entity_id: u128 },
    Solid3dGetAllEdgeFaces { object_id: u128, edge_id: u128 },
    Solid3dGetAllOppositeEdges { object_id: u128, edge_id: u128, along_vector: Option<Point3d> },
    Solid3dGetOppositeEdge { object_id: u128, edge_id: u128, face_id: u128 },
    Solid3dGetNextAdjacentEdge { object_id: u128, edge_id: u128, face_id: u128 },
    Solid3dGetPrevAdjacentEdge { object_id: u128, edge_id: u128, face_id: u128 },
    FaceIsPlanar { object_id: u128, face_id: u128 },
    FaceGetCenter { object_id: u128, face_id: u128 },
    FaceGetGradient { object_id: u128, face_id: u128, uv: Point2d },
    FaceGetPosition { object_id: u128, face_id: u128, uv: Point2d },
    GetSketchModePlane {},
    CurveGetControlPoints { curve_id: u128 },
    CurveGetEndPoints { curve_id: u128 },
    CurveGetType { curve_id: u128 },
    Mass {
        entity_ids: Vec<u128>,
        material_density: u64,
        material_density_unit: Option<UnitDensity>,
        output_unit: Option<UnitMass>,
    },
    Volume { entity_ids: Vec<u128>, output_unit: Option<UnitVolume> },
    SurfaceArea { entity_ids: Vec<u128>, output_unit: Option<UnitArea> },
    CenterOfMass { entity_ids: Vec<u128>, output_unit: Option<UnitLength> },
    Density {
        entity_ids: Vec<u128>,
        material_mass: u64,
        material_mass_unit: Option<UnitMass>,
        output_unit: Option<UnitDensity>,
    },
    Unknown,
}

} // verus!
