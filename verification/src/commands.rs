//! Dispatch of modeling commands against a session.
//!
//! Each command's effect on the session and its response are stated as a
//! relation between the session before, the session after and the
//! result (`dispatch_post`). Identifiers of new entities are random; the
//! relation reads them from the response, where every one of them is
//! reported. Values that the geometry kernel computes (shapes, real
//! numbers) are tied, in `kernel_ties`, to the kernel call that produced
//! them and its arguments; `cmd_post` is the whole relation.

use vstd::prelude::*;
use crate::ids::{id_message, new_id, uuid_text};
use crate::kernel::GeometryKernel;
use crate::modeling_cmd::{ModelingCmd, PathSegment, Point3d, ONE_BITS, ZERO_BITS};
use crate::responses::{
    CameraSettings, ClosePathData, CurveGetControlPointsData, CurveGetEndPointsData,
    CurveGetTypeData, DensityData, EntityGetAllChildUuidsData, EntityGetChildUuidData,
    EntityGetDistanceData, EntityGetNumChildrenData, EntityGetParentIdData,
    EntityGetSketchPathsData, ExportData, ExportFileData, ExtrudeData, FaceGetCenterData,
    FaceGetGradientData, FaceGetPositionData, FaceIsPlanarData, GetEntityTypeData,
    GetSketchModePlaneData, HighlightSetEntityData, ImportFilesData, MakePlaneData, MassData,
    CenterOfMassData, OkModelingCmdResponse, RevolveData, SelectAddData,
    Solid3dGetAdjacentEdgeData, Solid3dGetAllEdgeFacesData, Solid3dGetAllOppositeEdgesData,
    Solid3dGetOppositeEdgeData, StartPathData, SurfaceAreaData, VolumeData,
};
use crate::session::{
    origin, CameraState, Entity, EntityType, EntityView, PathBuilder, PathSegmentRecord, PathView,
    Session, SessionView, SketchMode,
};
use crate::sketch::{
    build_face_from_wire, build_wire, fixed_endpoint, intersection_of, segment_endpoint,
    segment_ends,
};

verus! {

broadcast use vstd::std_specs::hash::group_hash_axioms;

/// The result type of a command.
pub type CmdResult = Result<OkModelingCmdResponse, String>;

/// `prefix`, the text of `id`, `suffix`.
pub open spec fn id_text(prefix: Seq<char>, id: u128, suffix: Seq<char>) -> Seq<char> {
    prefix + uuid_text(id) + suffix
}

/// `r` is an error with message `msg`.
pub open spec fn fails_with(r: CmdResult, msg: Seq<char>) -> bool {
    r matches Err(e) && e@ == msg
}

/// `r` is the empty success response.
pub open spec fn ok_empty(r: CmdResult) -> bool {
    r matches Ok(OkModelingCmdResponse::Empty {})
}

/// The unit vector along `z`.
pub open spec fn unit_z() -> Point3d {
    Point3d { x: ZERO_BITS, y: ZERO_BITS, z: ONE_BITS }
}

// ---------------------------------------------------------------------
// Sketch paths

/// The session after a path `id` is started: a path with no pen position
/// and no segments, and a visible path entity with no parent or children.
pub open spec fn path_started<S>(v: SessionView<S>, id: u128) -> SessionView<S> {
    SessionView {
        paths: v.paths.insert(
            id,
            PathView { id, pen_position: None, segments: seq![], closed: false },
        ),
        entities: v.entities.insert(id, EntityView::fresh(id, EntityType::Path, None, seq![])),
        ..v
    }
}

pub open spec fn start_path_post<S>(old: SessionView<S>, new: SessionView<S>, r: CmdResult) -> bool {
    r matches Ok(OkModelingCmdResponse::StartPath { data }) && new == path_started(old, data.path_id)
}

/// The error of a command naming a path that does not exist.
pub open spec fn path_missing(path: u128) -> Seq<char> {
    id_text("Path "@, path, " not found"@)
}

pub open spec fn move_pen_post<S>(
    old: SessionView<S>,
    path: u128,
    to: Point3d,
    new: SessionView<S>,
    r: CmdResult,
) -> bool {
    if !old.paths.contains_key(path) {
        fails_with(r, path_missing(path)) && new == old
    } else {
        &&& ok_empty(r)
        &&& new == (SessionView {
            paths: old.paths.insert(path, PathView { pen_position: Some(to), ..old.paths[path] }),
            ..old
        })
    }
}

/// The session after segment `segment` is added to path `path`, drawn from
/// the pen position `from`, with the pen moved to `to`.
pub open spec fn path_extended<S>(
    v: SessionView<S>,
    path: u128,
    from: Point3d,
    segment: PathSegment,
    to: Point3d,
) -> SessionView<S> {
    SessionView {
        paths: v.paths.insert(
            path,
            PathView {
                segments: v.paths[path].segments.push(PathSegmentRecord { from, segment }),
                pen_position: Some(to),
                ..v.paths[path]
            },
        ),
        ..v
    }
}

/// `to` can be where `segment` drawn from `from` ends: it is the given end
/// point wherever the segment names one.
pub open spec fn endpoint_fits(from: Point3d, segment: PathSegment, to: Point3d) -> bool {
    fixed_endpoint(from, segment) matches Some(q) ==> to == q
}

pub open spec fn extend_path_post<S>(
    old: SessionView<S>,
    path: u128,
    segment: PathSegment,
    new: SessionView<S>,
    r: CmdResult,
) -> bool {
    if !old.paths.contains_key(path) {
        fails_with(r, path_missing(path)) && new == old
    } else if old.paths[path].pen_position is None {
        fails_with(r, "Pen position not set; call MovePathPen first"@) && new == old
    } else {
        let from = old.paths[path].pen_position.unwrap();
        &&& ok_empty(r)
        &&& new.paths.contains_key(path)
        &&& new.paths[path].pen_position is Some
        &&& endpoint_fits(from, segment, new.paths[path].pen_position.unwrap())
        &&& new == path_extended(old, path, from, segment, new.paths[path].pen_position.unwrap())
    }
}

/// The session with path `path` marked closed.
pub open spec fn path_closed<S>(v: SessionView<S>, path: u128) -> SessionView<S> {
    SessionView { paths: v.paths.insert(path, PathView { closed: true, ..v.paths[path] }), ..v }
}

/// The session after face `face_id`, with shape `s`, is built from path
/// `path`: the face entity is stored with the path as parent, and then
/// appended to the children of the path's entity, if there is one.
pub open spec fn face_added<S>(v: SessionView<S>, path: u128, face_id: u128, s: S) -> SessionView<
    S,
> {
    let m1 = v.entities.insert(
        face_id,
        EntityView {
            id: face_id,
            entity_type: EntityType::Face,
            parent_id: Some(path),
            children: seq![],
            visible: true,
            shape: Some(s),
        },
    );
    let m2 = if m1.contains_key(path) {
        m1.insert(path, EntityView { children: m1[path].children.push(face_id), ..m1[path] })
    } else {
        m1
    };
    SessionView { entities: m2, ..v }
}

pub open spec fn close_path_post<S>(
    old: SessionView<S>,
    path: u128,
    new: SessionView<S>,
    r: CmdResult,
) -> bool {
    if !old.paths.contains_key(path) {
        fails_with(r, path_missing(path)) && new == old
    } else if old.paths[path].segments.len() == 0 {
        fails_with(r, "No segments to build wire from"@) && new == path_closed(old, path)
    } else {
        &&& r matches Ok(OkModelingCmdResponse::ClosePath { data })
        &&& exists|s: S| #[trigger]
            face_added(path_closed(old, path), path, data.face_id, s) == new
    }
}

impl<S> Session<S> {
    fn start_path(&mut self) -> (r: CmdResult)
        ensures
            start_path_post(old(self)@, final(self)@, r),
    {
        let path_id = new_id();
        self.insert_path(
            path_id,
            PathBuilder { id: path_id, pen_position: None, segments: Vec::new(), closed: false },
        );
        self.insert_entity(
            path_id,
            Entity {
                id: path_id,
                entity_type: EntityType::Path,
                parent_id: None,
                children: Vec::new(),
                visible: true,
                shape: None,
            },
        );
        Ok(OkModelingCmdResponse::StartPath { data: StartPathData { path_id } })
    }

    fn move_path_pen(&mut self, path: u128, to: Point3d) -> (r: CmdResult)
        ensures
            move_pen_post(old(self)@, path, to, final(self)@, r),
    {
        let ghost v0 = self@;
        match self.take_path(path) {
            None => {
                assert(v0.paths.remove(path) =~= v0.paths);
                assert(self@ == v0);
                Err(id_message("Path ", path, " not found"))
            },
            Some(mut b) => {
                b.pen_position = Some(to);
                self.insert_path(path, b);
                assert(self@.paths =~= v0.paths.insert(
                    path,
                    PathView { pen_position: Some(to), ..v0.paths[path] },
                ));
                Ok(OkModelingCmdResponse::Empty {})
            },
        }
    }

    fn extend_path<K: GeometryKernel<Shape = S>>(
        &mut self,
        kernel: &K,
        path: u128,
        segment: PathSegment,
    ) -> (r: CmdResult)
        ensures
            extend_path_post(old(self)@, path, segment, final(self)@, r),
            extend_path_ties(kernel, old(self)@, path, segment, final(self)@, r),
    {
        let ghost v0 = self@;
        let from = match self.paths.get(&path) {
            None => {
                return Err(id_message("Path ", path, " not found"));
            },
            Some(b) => match b.pen_position {
                None => {
                    return Err(String::from_str("Pen position not set; call MovePathPen first"));
                },
                Some(p) => p,
            },
        };
        assert(v0.paths[path].pen_position == Some(from));
        let new_pos = segment_endpoint(kernel, &from, &segment);
        match self.take_path(path) {
            None => {
                assert(false);
                Ok(OkModelingCmdResponse::Empty {})
            },
            Some(mut b) => {
                b.segments.push(PathSegmentRecord { from, segment });
                b.pen_position = Some(new_pos);
                self.insert_path(path, b);
                assert(self@.paths =~= path_extended(v0, path, from, segment, new_pos).paths);
                Ok(OkModelingCmdResponse::Empty {})
            },
        }
    }

    fn close_path<K: GeometryKernel<Shape = S>>(&mut self, kernel: &K, path: u128) -> (r:
        CmdResult)
        ensures
            close_path_post(old(self)@, path, final(self)@, r),
            close_path_ties(kernel, old(self)@, path, final(self)@, r),
    {
        let ghost v0 = self@;
        let mut b = match self.take_path(path) {
            None => {
                assert(v0.paths.remove(path) =~= v0.paths);
                assert(self@ == v0);
                return Err(id_message("Path ", path, " not found"));
            },
            Some(b) => b,
        };
        b.closed = true;
        let ghost segments = b.segments;
        let wire = build_wire(kernel, &b.segments, true);
        self.insert_path(path, b);
        let ghost v1 = self@;
        assert(v1.paths =~= path_closed(v0, path).paths);
        let wire = match wire {
            Err(e) => {
                return Err(e);
            },
            Ok(w) => w,
        };
        let face = match build_face_from_wire(kernel, &wire) {
            Ok(f) => f,
            Err(e) => {
                return Err(e);
            },
        };
        let face_id = new_id();
        let ghost s = face;
        self.insert_entity(
            face_id,
            Entity {
                id: face_id,
                entity_type: EntityType::Face,
                parent_id: Some(path),
                children: Vec::new(),
                visible: true,
                shape: Some(face),
            },
        );
        let ghost v2 = self@;
        match self.take_entity(path) {
            Some(mut pe) => {
                pe.children.push(face_id);
                self.insert_entity(path, pe);
                assert(self@.entities =~= face_added(v1, path, face_id, s).entities);
            },
            None => {
                assert(self@.entities =~= face_added(v1, path, face_id, s).entities);
            },
        }
        assert(face_added(path_closed(v0, path), path, face_id, s) == self@);
        assert(path_wire(kernel, segments, wire));
        assert(call_ensures(K::face_from_wire, (kernel, &wire), s));
        Ok(OkModelingCmdResponse::ClosePath { data: ClosePathData { face_id } })
    }
}


// ---------------------------------------------------------------------
// Sketch mode

/// The sketch mode that `EnableSketchMode` sets: on the plane through the
/// origin with the given normal (default `z`), axes `x` and `y`.
pub open spec fn sketch_mode_for(entity_id: u128, planar_normal: Option<Point3d>) -> SketchMode {
    SketchMode {
        entity_id,
        plane_origin: origin(),
        plane_normal: match planar_normal {
            Some(n) => n,
            None => unit_z(),
        },
        plane_x_axis: Point3d { x: ONE_BITS, y: ZERO_BITS, z: ZERO_BITS },
        plane_y_axis: Point3d { x: ZERO_BITS, y: ONE_BITS, z: ZERO_BITS },
    }
}

// ---------------------------------------------------------------------
// Solids

/// The session after an extrusion of `target` made solid `solid` (shape
/// `s`) with children `cap` (a face) and `edge` (an edge), stored in that
/// order.
pub open spec fn extruded<S>(
    v: SessionView<S>,
    target: u128,
    solid: u128,
    cap: u128,
    edge: u128,
    s: S,
) -> SessionView<S> {
    SessionView {
        entities: v.entities.insert(
            solid,
            EntityView {
                id: solid,
                entity_type: EntityType::Solid,
                parent_id: Some(target),
                children: seq![cap, edge],
                visible: true,
                shape: Some(s),
            },
        ).insert(cap, EntityView::fresh(cap, EntityType::Face, Some(solid), seq![])).insert(
            edge,
            EntityView::fresh(edge, EntityType::Edge, Some(solid), seq![]),
        ),
        ..v
    }
}

pub open spec fn extrude_post<S>(
    old: SessionView<S>,
    target: u128,
    new: SessionView<S>,
    r: CmdResult,
) -> bool {
    if old.shape_of(target) is None {
        fails_with(r, id_text("Shape entity "@, target, " not found for extrusion"@)) && new == old
    } else {
        &&& r matches Ok(OkModelingCmdResponse::Extrude { data })
        &&& data.face_ids@.len() == 1
        &&& data.edge_ids@.len() == 1
        &&& exists|s: S| #[trigger]
            extruded(old, target, data.solid_id, data.face_ids@[0], data.edge_ids@[0], s) == new
    }
}

/// The session after a revolution of `target` made solid `solid` (shape `s`).
pub open spec fn revolved<S>(v: SessionView<S>, target: u128, solid: u128, s: S) -> SessionView<S> {
    SessionView {
        entities: v.entities.insert(
            solid,
            EntityView {
                id: solid,
                entity_type: EntityType::Solid,
                parent_id: Some(target),
                children: seq![],
                visible: true,
                shape: Some(s),
            },
        ),
        ..v
    }
}

pub open spec fn revolve_post<S>(
    old: SessionView<S>,
    target: u128,
    new: SessionView<S>,
    r: CmdResult,
) -> bool {
    if old.shape_of(target) is None {
        fails_with(r, id_text("Shape entity "@, target, " not found for revolve"@)) && new == old
    } else {
        &&& r matches Ok(OkModelingCmdResponse::Revolve { data })
        &&& data.face_ids@.len() == 0
        &&& data.edge_ids@.len() == 0
        &&& exists|s: S| #[trigger] revolved(old, target, data.solid_id, s) == new
    }
}

// ---------------------------------------------------------------------
// Booleans

/// Every identifier in `ids` names an entity with a shape.
pub open spec fn all_have_shapes<S>(v: SessionView<S>, ids: Seq<u128>) -> bool {
    forall|i: int| 0 <= i < ids.len() ==> (#[trigger] v.shape_of(ids[i])) is Some
}

/// `ids[i]` is the first identifier in `ids` without a shape.
pub open spec fn first_without_shape<S>(v: SessionView<S>, ids: Seq<u128>, i: int) -> bool {
    &&& 0 <= i < ids.len()
    &&& v.shape_of(ids[i]) is None
    &&& forall|j: int| 0 <= j < i ==> (#[trigger] v.shape_of(ids[j])) is Some
}

/// The error for an identifier without a shape.
pub open spec fn shape_missing(id: u128) -> Seq<char> {
    id_text("Shape "@, id, " not found"@)
}

/// The session with the shape of entity `id` replaced by `s`.
pub open spec fn with_shape<S>(v: SessionView<S>, id: u128, s: S) -> SessionView<S> {
    SessionView {
        entities: v.entities.insert(id, EntityView { shape: Some(s), ..v.entities[id] }),
        ..v
    }
}

/// A union or intersection over `targets`: it needs two targets at least
/// (else `too_few`), and a shape for every target (else the first one
/// without is named); the result replaces the shape of the first target.
pub open spec fn combine_post<S>(
    old: SessionView<S>,
    targets: Seq<u128>,
    too_few: Seq<char>,
    new: SessionView<S>,
    r: CmdResult,
) -> bool {
    if targets.len() < 2 {
        fails_with(r, too_few) && new == old
    } else if all_have_shapes(old, targets) {
        &&& ok_empty(r)
        &&& exists|s: S| #[trigger] with_shape(old, targets[0], s) == new
    } else {
        &&& new == old
        &&& exists|i: int| #[trigger]
            first_without_shape(old, targets, i) && fails_with(r, shape_missing(targets[i]))
    }
}

pub open spec fn subtract_post<S>(
    old: SessionView<S>,
    target: u128,
    tool: u128,
    new: SessionView<S>,
    r: CmdResult,
) -> bool {
    if old.shape_of(target) is None {
        fails_with(r, shape_missing(target)) && new == old
    } else if old.shape_of(tool) is None {
        fails_with(r, shape_missing(tool)) && new == old
    } else {
        &&& ok_empty(r)
        &&& exists|s: S| #[trigger] with_shape(old, target, s) == new
    }
}

impl<S> Session<S> {
    fn enable_sketch_mode(&mut self, entity_id: u128, planar_normal: Option<Point3d>) -> (r:
        CmdResult)
        ensures
            ok_empty(r),
            final(self)@ == (SessionView {
                sketch_mode: Some(sketch_mode_for(entity_id, planar_normal)),
                ..old(self)@
            }),
    {
        let normal = match planar_normal {
            Some(n) => n,
            None => Point3d { x: ZERO_BITS, y: ZERO_BITS, z: ONE_BITS },
        };
        self.sketch_mode = Some(
            SketchMode {
                entity_id,
                plane_origin: Point3d { x: ZERO_BITS, y: ZERO_BITS, z: ZERO_BITS },
                plane_normal: normal,
                plane_x_axis: Point3d { x: ONE_BITS, y: ZERO_BITS, z: ZERO_BITS },
                plane_y_axis: Point3d { x: ZERO_BITS, y: ONE_BITS, z: ZERO_BITS },
            },
        );
        Ok(OkModelingCmdResponse::Empty {})
    }

    fn extrude<K: GeometryKernel<Shape = S>>(&mut self, kernel: &K, target: u128, distance: u64) -> (r:
        CmdResult)
        ensures
            extrude_post(old(self)@, target, final(self)@, r),
            extrude_ties(kernel, old(self)@, target, distance, final(self)@, r),
    {
        let ghost v0 = self@;
        let shape = match self.get_shape(target) {
            None => {
                return Err(id_message("Shape entity ", target, " not found for extrusion"));
            },
            Some(s) => s,
        };
        let direction = match &self.sketch_mode {
            Some(sm) => sm.plane_normal,
            None => Point3d { x: ZERO_BITS, y: ZERO_BITS, z: ONE_BITS },
        };
        let extruded_shape = kernel.extrude(shape, &direction, distance);
        let solid_id = new_id();
        let cap_face_id = new_id();
        let edge_id = new_id();
        let ghost s = extruded_shape;
        let mut children = Vec::new();
        children.push(cap_face_id);
        children.push(edge_id);
        assert(children@ =~= seq![cap_face_id, edge_id]);
        self.insert_entity(
            solid_id,
            Entity {
                id: solid_id,
                entity_type: EntityType::Solid,
                parent_id: Some(target),
                children,
                visible: true,
                shape: Some(extruded_shape),
            },
        );
        self.insert_entity(
            cap_face_id,
            Entity {
                id: cap_face_id,
                entity_type: EntityType::Face,
                parent_id: Some(solid_id),
                children: Vec::new(),
                visible: true,
                shape: None,
            },
        );
        self.insert_entity(
            edge_id,
            Entity {
                id: edge_id,
                entity_type: EntityType::Edge,
                parent_id: Some(solid_id),
                children: Vec::new(),
                visible: true,
                shape: None,
            },
        );
        let mut face_ids = Vec::new();
        face_ids.push(cap_face_id);
        let mut edge_ids = Vec::new();
        edge_ids.push(edge_id);
        assert(extruded(v0, target, solid_id, face_ids@[0], edge_ids@[0], s) == self@);
        assert(direction == extrude_direction(v0));
        assert(call_ensures(
            K::extrude,
            (kernel, &v0.shape_of(target).unwrap(), &extrude_direction(v0), distance),
            s,
        ));
        Ok(OkModelingCmdResponse::Extrude { data: ExtrudeData { solid_id, face_ids, edge_ids } })
    }

    fn revolve<K: GeometryKernel<Shape = S>>(
        &mut self,
        kernel: &K,
        target: u128,
        axis: &Point3d,
        angle: u64,
    ) -> (r: CmdResult)
        ensures
            revolve_post(old(self)@, target, final(self)@, r),
            revolve_ties(kernel, old(self)@, target, *axis, angle, final(self)@, r),
    {
        let ghost v0 = self@;
        let shape = match self.get_shape(target) {
            None => {
                return Err(id_message("Shape entity ", target, " not found for revolve"));
            },
            Some(s) => s,
        };
        let revolved_shape = kernel.revolve(shape, axis, angle);
        let solid_id = new_id();
        let ghost s = revolved_shape;
        self.insert_entity(
            solid_id,
            Entity {
                id: solid_id,
                entity_type: EntityType::Solid,
                parent_id: Some(target),
                children: Vec::new(),
                visible: true,
                shape: Some(revolved_shape),
            },
        );
        assert(revolved(v0, target, solid_id, s) == self@);
        assert(call_ensures(K::revolve, (kernel, &v0.shape_of(target).unwrap(), axis, angle), s));
        Ok(
            OkModelingCmdResponse::Revolve {
                data: RevolveData { solid_id, face_ids: Vec::new(), edge_ids: Vec::new() },
            },
        )
    }

    /// The shapes of `ids`, in order; fails at the first without one.
    fn shapes_of(&self, ids: &Vec<u128>) -> (r: Result<Vec<&S>, String>)
        ensures
            r is Ok <==> all_have_shapes(self@, ids@),
            r matches Ok(v) ==> v@.len() == ids@.len() && forall|i: int|
                0 <= i < ids@.len() ==> self@.shape_of(#[trigger] ids@[i]) == Some(*v@[i]),
            r matches Err(e) ==> exists|i: int| #[trigger]
                first_without_shape(self@, ids@, i) && e@ == shape_missing(ids@[i]),
    {
        let mut out: Vec<&S> = Vec::new();
        let mut i: usize = 0;
        while i < ids.len()
            invariant
                i <= ids@.len(),
                out@.len() == i,
                forall|j: int| 0 <= j < i ==> self@.shape_of(#[trigger] ids@[j]) == Some(*out@[j]),
            decreases ids@.len() - i,
        {
            let id = ids[i];
            match self.get_shape(id) {
                Some(s) => {
                    out.push(s);
                },
                None => {
                    assert(first_without_shape(self@, ids@, i as int));
                    return Err(id_message("Shape ", id, " not found"));
                },
            }
            i = i + 1;
        }
        Ok(out)
    }

    /// Replaces the shape of entity `id`, when the entity exists.
    fn set_shape(&mut self, id: u128, s: S)
        ensures
            old(self)@.entities.contains_key(id) ==> final(self)@ == with_shape(old(self)@, id, s),
            !old(self)@.entities.contains_key(id) ==> final(self)@ == old(self)@,
    {
        let ghost v0 = self@;
        match self.take_entity(id) {
            Some(mut e) => {
                e.shape = Some(s);
                self.insert_entity(id, e);
                assert(self@.entities =~= with_shape(v0, id, s).entities);
            },
            None => {
                assert(v0.entities.remove(id) =~= v0.entities);
            },
        }
    }

    fn combine<K: GeometryKernel<Shape = S>>(
        &mut self,
        kernel: &K,
        targets: &Vec<u128>,
        intersect: bool,
    ) -> (r: CmdResult)
        ensures
            combine_ties(kernel, old(self)@, targets@, intersect, final(self)@, r),
            combine_post(
                old(self)@,
                targets@,
                if intersect {
                    "Boolean intersect requires at least 2 targets"@
                } else {
                    "Boolean union requires at least 2 targets"@
                },
                final(self)@,
                r,
            ),
    {
        let ghost v0 = self@;
        if targets.len() < 2 {
            if intersect {
                return Err(String::from_str("Boolean intersect requires at least 2 targets"));
            } else {
                return Err(String::from_str("Boolean union requires at least 2 targets"));
            }
        }
        let shapes = match self.shapes_of(targets) {
            Ok(v) => v,
            Err(e) => {
                return Err(e);
            },
        };
        let ghost shapes_s = shapes_at(v0, targets@);
        assert(forall|j: int| 0 <= j < shapes@.len() ==> *shapes@[j] == shapes_s[j]);
        let mut result = if intersect {
            crate::sketch::intersect(kernel, shapes[0], shapes[1])
        } else {
            kernel.union(shapes[0], shapes[1])
        };
        let ghost mut acc: Seq<S> = seq![result];
        assert(combine_step(kernel, intersect, shapes_s[0], shapes_s[1], result));
        let mut i: usize = 2;
        while i < shapes.len()
            invariant
                2 <= i <= shapes@.len(),
                shapes@.len() == shapes_s.len(),
                forall|j: int| 0 <= j < shapes@.len() ==> *shapes@[j] == shapes_s[j],
                acc.len() == i - 1,
                result == acc.last(),
                forall|j: int|
                    0 <= j < acc.len() ==> combine_step(
                        kernel,
                        intersect,
                        if j == 0 {
                            shapes_s[0]
                        } else {
                            acc[j - 1]
                        },
                        shapes_s[j + 1],
                        #[trigger] acc[j],
                    ),
            decreases shapes@.len() - i,
        {
            let next = if intersect {
                crate::sketch::intersect(kernel, &result, shapes[i])
            } else {
                kernel.union(&result, shapes[i])
            };
            proof {
                assert(combine_step(kernel, intersect, acc.last(), shapes_s[i as int], next));
                let old_acc = acc;
                acc = acc.push(next);
                assert forall|j: int| 0 <= j < acc.len() implies combine_step(
                    kernel,
                    intersect,
                    if j == 0 {
                        shapes_s[0]
                    } else {
                        acc[j - 1]
                    },
                    shapes_s[j + 1],
                    #[trigger] acc[j],
                ) by {
                    if j < old_acc.len() {
                        assert(acc[j] == old_acc[j]);
                        if j > 0 {
                            assert(acc[j - 1] == old_acc[j - 1]);
                        }
                    }
                }
            }
            result = next;
            i = i + 1;
        }
        let ghost s = result;
        let t0 = targets[0];
        assert(v0.shape_of(targets@[0]) is Some);
        self.set_shape(t0, result);
        assert(with_shape(v0, targets@[0], s) == self@);
        assert(combine_chain(kernel, intersect, shapes_at(v0, targets@), acc));
        Ok(OkModelingCmdResponse::Empty {})
    }

    fn subtract<K: GeometryKernel<Shape = S>>(&mut self, kernel: &K, target: u128, tool: u128) -> (r:
        CmdResult)
        ensures
            subtract_post(old(self)@, target, tool, final(self)@, r),
            subtract_ties(kernel, old(self)@, target, tool, final(self)@, r),
    {
        let ghost v0 = self@;
        let target_shape = match self.get_shape(target) {
            None => {
                return Err(id_message("Shape ", target, " not found"));
            },
            Some(s) => s,
        };
        let tool_shape = match self.get_shape(tool) {
            None => {
                return Err(id_message("Shape ", tool, " not found"));
            },
            Some(s) => s,
        };
        let result = kernel.subtract(target_shape, tool_shape);
        let ghost s = result;
        self.set_shape(target, result);
        assert(with_shape(v0, target, s) == self@);
        assert(call_ensures(
            K::subtract,
            (kernel, &v0.shape_of(target).unwrap(), &v0.shape_of(tool).unwrap()),
            s,
        ));
        Ok(OkModelingCmdResponse::Empty {})
    }
}


// ---------------------------------------------------------------------
// Camera

/// `eye` if given, else `vantage`.
pub open spec fn eye_or_vantage(eye: Option<Point3d>, vantage: Option<Point3d>) -> Option<Point3d> {
    match eye {
        Some(e) => Some(e),
        None => vantage,
    }
}

/// `o`'s point if given, else `default`.
pub open spec fn or_keep(o: Option<Point3d>, default: Point3d) -> Point3d {
    match o {
        Some(p) => p,
        None => default,
    }
}

/// The camera after a look-at: each given point replaces the current one;
/// the eye comes from `eye`, else from `vantage`.
pub open spec fn looked_at(
    c: CameraState,
    center: Option<Point3d>,
    eye: Option<Point3d>,
    up: Option<Point3d>,
    vantage: Option<Point3d>,
) -> CameraState {
    CameraState {
        center: or_keep(center, c.center),
        position: or_keep(eye_or_vantage(eye, vantage), c.position),
        up: or_keep(up, c.up),
        ..c
    }
}

/// The settings reported for a camera.
pub open spec fn settings_of(c: CameraState) -> CameraSettings {
    CameraSettings {
        pos: c.position,
        center: c.center,
        up: c.up,
        fov_y: Some(c.fov_y),
        ortho: c.ortho,
        ortho_scale: Some(c.ortho_scale),
    }
}

// ---------------------------------------------------------------------
// Selection

/// The identifiers listed in `ids`, as a set.
pub open spec fn id_set(ids: Seq<u128>) -> Set<u128> {
    Set::new(|x: u128| ids.contains(x))
}


/// An element is among the first `i + 1` of `s` iff it is among the
/// first `i` or is `s[i]`.
pub proof fn lemma_take_next_contains(s: Seq<u128>, i: int)
    requires
        0 <= i < s.len(),
    ensures
        forall|x: u128| s.take(i + 1).contains(x) <==> (s.take(i).contains(x) || x == s[i]),
{
    assert forall|x: u128| s.take(i + 1).contains(x) <==> (s.take(i).contains(x) || x == s[i]) by {
        if s.take(i + 1).contains(x) {
            let k = choose|k: int| 0 <= k < s.take(i + 1).len() && #[trigger] s.take(i + 1)[k] == x;
            if k < i {
                assert(s.take(i)[k] == x);
            }
        }
        if s.take(i).contains(x) {
            let k = choose|k: int| 0 <= k < s.take(i).len() && #[trigger] s.take(i)[k] == x;
            assert(s.take(i + 1)[k] == x);
        }
        if x == s[i] {
            assert(s.take(i + 1)[i] == x);
        }
    }
}

// ---------------------------------------------------------------------
// Entity queries

/// The error of a query naming an entity that does not exist.
pub open spec fn entity_missing(id: u128) -> Seq<char> {
    id_text("Entity "@, id, " not found"@)
}

/// Entity `id` exists and is of kind `t`.
pub open spec fn has_type<S>(v: SessionView<S>, id: u128, t: EntityType) -> bool {
    v.entities.contains_key(id) && v.entities[id].entity_type == t
}

/// The identifiers in `ids` that name entities of kind `t`, in order.
pub open spec fn of_type<S>(v: SessionView<S>, ids: Seq<u128>, t: EntityType) -> Seq<u128>
    decreases ids.len(),
{
    if ids.len() == 0 {
        seq![]
    } else {
        let rest = of_type(v, ids.drop_last(), t);
        if has_type(v, ids.last(), t) {
            rest.push(ids.last())
        } else {
            rest
        }
    }
}

/// The error for a child index past the end of the children.
pub open spec fn child_index_error(child_index: u32) -> Seq<char> {
    "Child index "@ + crate::text::decimal(child_index as nat) + " out of range"@
}

/// The answer to a query about entity `id`: its error when the entity is
/// missing, else `answer` applied to it.
pub open spec fn entity_query<S>(
    v: SessionView<S>,
    id: u128,
    r: CmdResult,
    answer: spec_fn(EntityView<S>) -> bool,
) -> bool {
    if !v.entities.contains_key(id) {
        fails_with(r, entity_missing(id))
    } else {
        answer(v.entities[id])
    }
}

pub open spec fn parent_id_post<S>(v: SessionView<S>, entity_id: u128, r: CmdResult) -> bool {
    entity_query(
                v,
                entity_id,
                r,
                |e: EntityView<S>|
                    r == Ok::<OkModelingCmdResponse, String>(
                        OkModelingCmdResponse::EntityGetParentId {
                            data: EntityGetParentIdData {
                                entity_id: match e.parent_id {
                                    Some(p) => p,
                                    None => entity_id,
                                },
                            },
                        },
                    ),
            )
}

pub open spec fn num_children_post<S>(v: SessionView<S>, entity_id: u128, r: CmdResult) -> bool {
    entity_query(
                v,
                entity_id,
                r,
                |e: EntityView<S>|
                    r == Ok::<OkModelingCmdResponse, String>(
                        OkModelingCmdResponse::EntityGetNumChildren {
                            data: EntityGetNumChildrenData { num: e.children.len() as u32 },
                        },
                    ),
            )
}

pub open spec fn child_uuid_post<S>(v: SessionView<S>, entity_id: u128, child_index: u32, r: CmdResult) -> bool {
    entity_query(
                v,
                entity_id,
                r,
                |e: EntityView<S>|
                    if child_index < e.children.len() {
                        r == Ok::<OkModelingCmdResponse, String>(
                            OkModelingCmdResponse::EntityGetChildUuid {
                                data: EntityGetChildUuidData {
                                    entity_id: e.children[child_index as int],
                                },
                            },
                        )
                    } else {
                        fails_with(r, child_index_error(child_index))
                    },
            )
}

pub open spec fn all_children_post<S>(v: SessionView<S>, entity_id: u128, r: CmdResult) -> bool {
    entity_query(
                v,
                entity_id,
                r,
                |e: EntityView<S>|
                    r matches Ok(OkModelingCmdResponse::EntityGetAllChildUuids { data })
                        && data.entity_ids@ == e.children,
            )
}

pub open spec fn sketch_paths_post<S>(v: SessionView<S>, entity_id: u128, r: CmdResult) -> bool {
    entity_query(
                v,
                entity_id,
                r,
                |e: EntityView<S>|
                    r matches Ok(OkModelingCmdResponse::EntityGetSketchPaths { data })
                        && data.entity_ids@ == of_type(v, e.children, EntityType::Path),
            )
}

pub open spec fn entity_type_post<S>(v: SessionView<S>, entity_id: u128, r: CmdResult) -> bool {
    entity_query(
                v,
                entity_id,
                r,
                |e: EntityView<S>|
                    r matches Ok(OkModelingCmdResponse::GetEntityType { data })
                        && data.entity_type@ == e.entity_type.name(),
            )
}

impl<S> Session<S> {
    fn camera_look_at(
        &mut self,
        center: Option<Point3d>,
        eye: Option<Point3d>,
        up: Option<Point3d>,
        vantage: Option<Point3d>,
    )
        ensures
            final(self)@ == (SessionView {
                camera: looked_at(old(self)@.camera, center, eye, up, vantage),
                ..old(self)@
            }),
    {
        if let Some(c) = center {
            self.camera.center = c;
        }
        let e = match eye {
            Some(e) => Some(e),
            None => vantage,
        };
        if let Some(e) = e {
            self.camera.position = e;
        }
        if let Some(u) = up {
            self.camera.up = u;
        }
    }

    fn select_add(&mut self, entities: &Vec<u128>)
        ensures
            final(self)@ == (SessionView {
                selection: old(self)@.selection.union(id_set(entities@)),
                ..old(self)@
            }),
    {
        let ghost v0 = self@;
        let mut i: usize = 0;
        assert(v0.selection.union(id_set(entities@.take(0))) =~= v0.selection);
        while i < entities.len()
            invariant
                i <= entities@.len(),
                self@ == (SessionView {
                    selection: v0.selection.union(id_set(entities@.take(i as int))),
                    ..v0
                }),
            decreases entities@.len() - i,
        {
            self.selection.insert(entities[i]);
            assert(self@.selection =~= v0.selection.union(id_set(entities@.take(i + 1)))) by {
                lemma_take_next_contains(entities@, i as int);
            }
            i = i + 1;
        }
        assert(entities@.take(entities@.len() as int) =~= entities@);
    }

    fn select_remove(&mut self, entities: &Vec<u128>)
        ensures
            final(self)@ == (SessionView {
                selection: old(self)@.selection.difference(id_set(entities@)),
                ..old(self)@
            }),
    {
        let ghost v0 = self@;
        let mut i: usize = 0;
        assert(v0.selection.difference(id_set(entities@.take(0))) =~= v0.selection);
        while i < entities.len()
            invariant
                i <= entities@.len(),
                self@ == (SessionView {
                    selection: v0.selection.difference(id_set(entities@.take(i as int))),
                    ..v0
                }),
            decreases entities@.len() - i,
        {
            self.selection.remove(&entities[i]);
            assert(self@.selection =~= v0.selection.difference(id_set(entities@.take(i + 1))))
                by {
                lemma_take_next_contains(entities@, i as int);
            }
            i = i + 1;
        }
        assert(entities@.take(entities@.len() as int) =~= entities@);
    }

    fn make_plane<K: GeometryKernel<Shape = S>>(
        &mut self,
        kernel: &K,
        origin: Point3d,
        x_axis: Point3d,
        y_axis: Point3d,
    ) -> (r: CmdResult)
        ensures
            r matches Ok(OkModelingCmdResponse::MakePlane { data }) && data.origin == origin
                && data.x_axis == x_axis && data.y_axis == y_axis && final(self)@ == (SessionView {
                entities: old(self)@.entities.insert(
                    data.plane_id,
                    EntityView::fresh(data.plane_id, EntityType::Plane, None, seq![]),
                ),
                ..old(self)@
            }),
            r matches Ok(OkModelingCmdResponse::MakePlane { data }) ==> call_ensures(
                K::cross,
                (kernel, &x_axis, &y_axis),
                data.z_axis,
            ),
    {
        let plane_id = new_id();
        let z_axis = kernel.cross(&x_axis, &y_axis);
        self.insert_entity(
            plane_id,
            Entity {
                id: plane_id,
                entity_type: EntityType::Plane,
                parent_id: None,
                children: Vec::new(),
                visible: true,
                shape: None,
            },
        );
        Ok(
            OkModelingCmdResponse::MakePlane {
                data: MakePlaneData { plane_id, origin, x_axis, y_axis, z_axis },
            },
        )
    }

    fn set_visible(&mut self, object_id: u128, hidden: bool)
        ensures
            old(self)@.entities.contains_key(object_id) ==> final(self)@ == (SessionView {
                entities: old(self)@.entities.insert(
                    object_id,
                    EntityView { visible: !hidden, ..old(self)@.entities[object_id] },
                ),
                ..old(self)@
            }),
            !old(self)@.entities.contains_key(object_id) ==> final(self)@ == old(self)@,
    {
        let ghost v0 = self@;
        match self.take_entity(object_id) {
            Some(mut e) => {
                e.visible = !hidden;
                self.insert_entity(object_id, e);
                assert(self@.entities =~= v0.entities.insert(
                    object_id,
                    EntityView { visible: !hidden, ..v0.entities[object_id] },
                ));
            },
            None => {
                assert(v0.entities.remove(object_id) =~= v0.entities);
            },
        }
    }

    /// The children of `ids` that name entities of kind `t`, in order.
    fn children_of_type(&self, ids: &Vec<u128>, t: EntityType) -> (out: Vec<u128>)
        ensures
            out@ == of_type(self@, ids@, t),
    {
        let mut out: Vec<u128> = Vec::new();
        let mut i: usize = 0;
        while i < ids.len()
            invariant
                i <= ids@.len(),
                out@ == of_type(self@, ids@.take(i as int), t),
            decreases ids@.len() - i,
        {
            let id = ids[i];
            assert(ids@.take(i + 1).drop_last() =~= ids@.take(i as int));
            match self.entities.get(&id) {
                Some(e) => {
                    if e.entity_type == t {
                        out.push(id);
                    }
                },
                None => {},
            }
            i = i + 1;
        }
        assert(ids@.take(ids@.len() as int) =~= ids@);
        out
    }

    fn entity_get_parent_id(&self, entity_id: u128) -> (r: CmdResult)
        ensures
            parent_id_post(self@, entity_id, r),
    {
        match self.entities.get(&entity_id) {
            None => Err(id_message("Entity ", entity_id, " not found")),
            Some(e) => {
                let parent = match e.parent_id {
                    Some(p) => p,
                    None => entity_id,
                };
                Ok(
                    OkModelingCmdResponse::EntityGetParentId {
                        data: EntityGetParentIdData { entity_id: parent },
                    },
                )
            },
        }
    }

    fn entity_get_num_children(&self, entity_id: u128) -> (r: CmdResult)
        ensures
            num_children_post(self@, entity_id, r),
    {
        match self.entities.get(&entity_id) {
            None => Err(id_message("Entity ", entity_id, " not found")),
            Some(e) => {
                let num = e.children.len() as u32;
                Ok(
                    OkModelingCmdResponse::EntityGetNumChildren {
                        data: EntityGetNumChildrenData { num },
                    },
                )
            },
        }
    }

    fn entity_get_child_uuid(&self, entity_id: u128, child_index: u32) -> (r: CmdResult)
        ensures
            child_uuid_post(self@, entity_id, child_index, r),
    {
        match self.entities.get(&entity_id) {
            None => Err(id_message("Entity ", entity_id, " not found")),
            Some(e) => {
                let idx = child_index as usize;
                if idx < e.children.len() {
                    Ok(
                        OkModelingCmdResponse::EntityGetChildUuid {
                            data: EntityGetChildUuidData { entity_id: e.children[idx] },
                        },
                    )
                } else {
                    let mut m = String::from_str("Child index ");
                    let d = crate::text::u32_to_string(child_index);
                    m.append(d.as_str());
                    m.append(" out of range");
                    Err(m)
                }
            },
        }
    }

    fn entity_get_all_child_uuids(&self, entity_id: u128) -> (r: CmdResult)
        ensures
            all_children_post(self@, entity_id, r),
    {
        match self.entities.get(&entity_id) {
            None => Err(id_message("Entity ", entity_id, " not found")),
            Some(e) => {
                let ids = e.children.clone();
                assert(ids@ =~= e.children@);
                Ok(
                    OkModelingCmdResponse::EntityGetAllChildUuids {
                        data: EntityGetAllChildUuidsData { entity_ids: ids },
                    },
                )
            },
        }
    }

    fn entity_get_sketch_paths(&self, entity_id: u128) -> (r: CmdResult)
        ensures
            sketch_paths_post(self@, entity_id, r),
    {
        match self.entities.get(&entity_id) {
            None => Err(id_message("Entity ", entity_id, " not found")),
            Some(e) => {
                let paths = self.children_of_type(&e.children, EntityType::Path);
                Ok(
                    OkModelingCmdResponse::EntityGetSketchPaths {
                        data: EntityGetSketchPathsData { entity_ids: paths },
                    },
                )
            },
        }
    }

    fn get_entity_type(&self, entity_id: u128) -> (r: CmdResult)
        ensures
            entity_type_post(self@, entity_id, r),
    {
        match self.entities.get(&entity_id) {
            None => Err(id_message("Entity ", entity_id, " not found")),
            Some(e) => Ok(
                OkModelingCmdResponse::GetEntityType {
                    data: GetEntityTypeData { entity_type: e.entity_type.to_string() },
                },
            ),
        }
    }

    /// The children of `object_id` of kind `t`; none when it is missing.
    fn children_of_kind(&self, object_id: u128, t: EntityType) -> (out: Vec<u128>)
        ensures
            self@.entities.contains_key(object_id) ==> out@ == of_type(
                self@,
                self@.entities[object_id].children,
                t,
            ),
            !self@.entities.contains_key(object_id) ==> out@ == Seq::<u128>::empty(),
    {
        match self.entities.get(&object_id) {
            Some(e) => self.children_of_type(&e.children, t),
            None => Vec::new(),
        }
    }
}


// ---------------------------------------------------------------------
// Face and curve queries, measurements, export and import

/// Neither the face nor its object has a shape to query.
pub open spec fn no_face_shape<S>(v: SessionView<S>, face_id: u128, object_id: u128) -> bool {
    v.shape_of(face_id) is None && v.shape_of(object_id) is None
}

/// The error of a face query without a shape.
pub open spec fn face_shape_missing() -> Seq<char> {
    "Shape not found for face query"@
}

/// The identifiers in `ids` that name entities with shapes, in order.
pub open spec fn with_shapes<S>(v: SessionView<S>, ids: Seq<u128>) -> Seq<u128>
    decreases ids.len(),
{
    if ids.len() == 0 {
        seq![]
    } else {
        let rest = with_shapes(v, ids.drop_last());
        if v.shape_of(ids.last()) is Some {
            rest.push(ids.last())
        } else {
            rest
        }
    }
}

/// `r` is a measurement success whose output unit is `unit`.
pub open spec fn measured(r: CmdResult, unit: Seq<char>) -> bool {
    match r {
        Ok(OkModelingCmdResponse::Mass { data }) => data.output_unit@ == unit,
        Ok(OkModelingCmdResponse::Volume { data }) => data.output_unit@ == unit,
        Ok(OkModelingCmdResponse::SurfaceArea { data }) => data.output_unit@ == unit,
        Ok(OkModelingCmdResponse::CenterOfMass { data }) => data.output_unit@ == unit,
        Ok(OkModelingCmdResponse::Density { data }) => data.output_unit@ == unit,
        _ => false,
    }
}

/// The file name of an export in a supported format.
pub open spec fn export_file_name(format: crate::modeling_cmd::ExportFormat) -> Seq<char> {
    match format {
        crate::modeling_cmd::ExportFormat::Step {} => "export.step"@,
        _ => "export.stl"@,
    }
}

/// The format is one that exports support (STEP or STL).
pub open spec fn export_supported(format: crate::modeling_cmd::ExportFormat) -> bool {
    format is Step || format is Stl
}

/// An export writes one file per listed entity with a shape, named after
/// the format; the kernel may fail to write one, and then the export
/// fails. A format other than STEP or STL fails as soon as there is a
/// shape to write, naming the format.
pub open spec fn export_post<S>(
    v: SessionView<S>,
    ids: Seq<u128>,
    format: crate::modeling_cmd::ExportFormat,
    r: CmdResult,
) -> bool {
    let n = with_shapes(v, ids).len();
    if export_supported(format) {
        match r {
            Ok(OkModelingCmdResponse::Export { data }) => {
                &&& data.files@.len() == n
                &&& forall|i: int|
                    0 <= i < n ==> (#[trigger] data.files@[i]).name@ == export_file_name(format)
            },
            Err(_) => n > 0,
            _ => false,
        }
    } else if n > 0 {
        fails_with(
            r,
            "Export format "@ + crate::text::export_format_text(format) + " not yet supported"@,
        )
    } else {
        r matches Ok(OkModelingCmdResponse::Export { data }) && data.files@.len() == 0
    }
}

/// The session after an import stored solid `id` with shape `s`.
pub open spec fn imported<S>(v: SessionView<S>, id: u128, s: S) -> SessionView<S> {
    SessionView {
        entities: v.entities.insert(
            id,
            EntityView {
                id,
                entity_type: EntityType::Solid,
                parent_id: None,
                children: seq![],
                visible: true,
                shape: Some(s),
            },
        ),
        ..v
    }
}

/// An import always answers with a fresh object identifier. When the first
/// file carries data that the kernel reads as STEP, a solid with that
/// identifier is stored; otherwise the session is unchanged.
pub open spec fn import_post<S>(
    old: SessionView<S>,
    files: Seq<crate::modeling_cmd::ImportFile>,
    new: SessionView<S>,
    r: CmdResult,
) -> bool {
    &&& r matches Ok(OkModelingCmdResponse::ImportFiles { data })
    &&& (new == old || (files.len() > 0 && files[0].data is Some && exists|s: S| #[trigger]
        imported(old, data.object_id, s) == new))
}

/// The entities with shapes among the first `i` listed ones come first
/// among all listed ones with shapes.
pub proof fn lemma_with_shapes_take<S>(v: SessionView<S>, ids: Seq<u128>, i: int)
    requires
        0 <= i <= ids.len(),
    ensures
        with_shapes(v, ids.take(i)).len() <= with_shapes(v, ids).len(),
        forall|j: int|
            0 <= j < with_shapes(v, ids.take(i)).len() ==> #[trigger] with_shapes(v, ids.take(i))[j]
                == with_shapes(v, ids)[j],
    decreases ids.len() - i,
{
    if i < ids.len() {
        let a = with_shapes(v, ids.take(i));
        assert(ids.take(i + 1).drop_last() =~= ids.take(i));
        assert(ids.take(i + 1).last() == ids[i]);
        lemma_with_shapes_take(v, ids, i + 1);
        assert forall|j: int| 0 <= j < a.len() implies #[trigger] a[j] == with_shapes(v, ids)[j] by {
            assert(with_shapes(v, ids.take(i + 1))[j] == a[j]);
        }
    } else {
        assert(ids.take(i) =~= ids);
    }
}

/// An entity with a shape among the first `i` listed ones makes the
/// whole list hold one.
pub proof fn lemma_with_shapes_prefix<S>(v: SessionView<S>, ids: Seq<u128>, i: int)
    requires
        0 <= i <= ids.len(),
        with_shapes(v, ids.take(i)).len() > 0,
    ensures
        with_shapes(v, ids).len() > 0,
    decreases ids.len() - i,
{
    if i < ids.len() {
        assert(ids.take(i + 1).drop_last() =~= ids.take(i));
        lemma_with_shapes_prefix(v, ids, i + 1);
    } else {
        assert(ids.take(i) =~= ids);
    }
}

impl<S> Session<S> {
    /// The shape of the face, else that of its object.
    fn face_shape(&self, face_id: u128, object_id: u128) -> (r: Result<&S, String>)
        ensures
            r is Err <==> no_face_shape(self@, face_id, object_id),
            r matches Err(e) ==> e@ == face_shape_missing(),
            r matches Ok(s) ==> face_shape_of(self@, face_id, object_id) == Some(*s),
    {
        match self.get_shape(face_id) {
            Some(s) => Ok(s),
            None => match self.get_shape(object_id) {
                Some(s) => Ok(s),
                None => Err(String::from_str("Shape not found for face query")),
            },
        }
    }

    /// The shapes of the listed entities that have one, in order.
    fn present_shapes(&self, ids: &Vec<u128>) -> (out: Vec<&S>)
        ensures
            out@.len() == with_shapes(self@, ids@).len(),
            forall|i: int|
                0 <= i < out@.len() ==> self@.shape_of(#[trigger] with_shapes(self@, ids@)[i])
                    == Some(*out@[i]),
            forall|i: int|
                0 <= i < out@.len() ==> *out@[i] == #[trigger] present_shapes_of(self@, ids@)[i],
    {
        let mut out: Vec<&S> = Vec::new();
        let mut i: usize = 0;
        while i < ids.len()
            invariant
                i <= ids@.len(),
                out@.len() == with_shapes(self@, ids@.take(i as int)).len(),
                forall|j: int|
                    0 <= j < out@.len() ==> self@.shape_of(
                        #[trigger] with_shapes(self@, ids@.take(i as int))[j],
                    ) == Some(*out@[j]),
            decreases ids@.len() - i,
        {
            assert(ids@.take(i + 1).drop_last() =~= ids@.take(i as int));
            match self.get_shape(ids[i]) {
                Some(s) => {
                    out.push(s);
                },
                None => {},
            }
            i = i + 1;
        }
        assert(ids@.take(ids@.len() as int) =~= ids@);
        out
    }

    fn export<K: GeometryKernel<Shape = S>>(
        &self,
        kernel: &K,
        entity_ids: &Vec<u128>,
        format: &crate::modeling_cmd::ExportFormat,
    ) -> (r: CmdResult)
        ensures
            export_post(self@, entity_ids@, *format, r),
            export_ties(kernel, self@, entity_ids@, *format, r),
    {
        let mut files: Vec<ExportFileData> = Vec::new();
        let mut i: usize = 0;
        while i < entity_ids.len()
            invariant
                i <= entity_ids@.len(),
                files@.len() == with_shapes(self@, entity_ids@.take(i as int)).len(),
                !export_supported(*format) ==> files@.len() == 0,
                forall|j: int|
                    0 <= j < files@.len() ==> (#[trigger] files@[j]).name@ == export_file_name(
                        *format,
                    ),
                forall|j: int|
                    0 <= j < files@.len() ==> export_call(
                        kernel,
                        *format,
                        shapes_at(self@, with_shapes(self@, entity_ids@.take(i as int)))[j],
                        Ok::<Vec<u8>, String>((#[trigger] files@[j]).contents),
                    ),
            decreases entity_ids@.len() - i,
        {
            assert(entity_ids@.take(i + 1).drop_last() =~= entity_ids@.take(i as int));
            let ghost before = with_shapes(self@, entity_ids@.take(i as int));
            if let Some(shape) = self.get_shape(entity_ids[i]) {
                proof {
                    lemma_with_shapes_prefix(self@, entity_ids@, i as int + 1);
                    lemma_with_shapes_take(self@, entity_ids@, i as int + 1);
                    let after = with_shapes(self@, entity_ids@.take(i as int + 1));
                    assert(after == before.push(entity_ids@[i as int]));
                    assert(shapes_at(self@, after)[before.len() as int] == *shape);
                    assert(with_shapes(self@, entity_ids@)[before.len() as int] == entity_ids@[i as int]);
                    assert(present_shapes_of(self@, entity_ids@)[before.len() as int] == *shape);
                    assert forall|j: int| 0 <= j < before.len() implies shapes_at(self@, after)[j]
                        == shapes_at(self@, before)[j] by {
                        assert(after[j] == before[j]);
                    }
                    assert forall|j: int| 0 <= j < before.len() implies #[trigger] export_ok(
                        kernel,
                        *format,
                        present_shapes_of(self@, entity_ids@)[j],
                    ) by {
                        assert(after[j] == before[j]);
                        assert(present_shapes_of(self@, entity_ids@)[j] == shapes_at(self@, before)[j]);
                        assert(export_call(
                            kernel,
                            *format,
                            shapes_at(self@, before)[j],
                            Ok::<Vec<u8>, String>(files@[j].contents),
                        ));
                    }
                }
                let (name, contents) = match format {
                    crate::modeling_cmd::ExportFormat::Step {} => {
                        let res = kernel.export_step(shape);
                        assert(export_call(kernel, *format, *shape, res));
                        match res {
                            Ok(data) => (String::from_str("export.step"), data),
                            Err(e) => {
                                assert(export_call(
                                    kernel,
                                    *format,
                                    present_shapes_of(self@, entity_ids@)[before.len() as int],
                                    Err::<Vec<u8>, String>(e),
                                ));
                                assert(before.len() < present_shapes_of(self@, entity_ids@).len());
                                assert(export_failed(kernel, *format, present_shapes_of(self@, entity_ids@), e));
                                return Err(e);
                            },
                        }
                    },
                    crate::modeling_cmd::ExportFormat::Stl { .. } => {
                        let res = kernel.export_stl(shape);
                        assert(export_call(kernel, *format, *shape, res));
                        match res {
                            Ok(data) => (String::from_str("export.stl"), data),
                            Err(e) => {
                                assert(export_call(
                                    kernel,
                                    *format,
                                    present_shapes_of(self@, entity_ids@)[before.len() as int],
                                    Err::<Vec<u8>, String>(e),
                                ));
                                assert(before.len() < present_shapes_of(self@, entity_ids@).len());
                                assert(export_failed(kernel, *format, present_shapes_of(self@, entity_ids@), e));
                                return Err(e);
                            },
                        }
                    },
                    _ => {
                        let mut m = String::from_str("Export format ");
                        let t = format.debug_text();
                        m.append(t.as_str());
                        m.append(" not yet supported");
                        return Err(m);
                    },
                };
                files.push(ExportFileData { name, contents });
            }
            i = i + 1;
        }
        assert(entity_ids@.take(entity_ids@.len() as int) =~= entity_ids@);
        Ok(OkModelingCmdResponse::Export { data: ExportData { files } })
    }

    fn import_files<K: GeometryKernel<Shape = S>>(
        &mut self,
        kernel: &K,
        files: &Vec<crate::modeling_cmd::ImportFile>,
    ) -> (r: CmdResult)
        ensures
            import_post(old(self)@, files@, final(self)@, r),
            import_ties(kernel, old(self)@, files@, final(self)@, r),
    {
        let ghost v0 = self@;
        let object_id = new_id();
        if files.len() > 0 {
            if let Some(data) = &files[0].data {
                let res = kernel.import_step(data);
                let ghost gres = res;
                assert(call_ensures(K::import_step, (kernel, &files@[0].data.unwrap()), gres));
                match res {
                    Ok(shape) => {
                        let ghost s = shape;
                        self.insert_entity(
                            object_id,
                            Entity {
                                id: object_id,
                                entity_type: EntityType::Solid,
                                parent_id: None,
                                children: Vec::new(),
                                visible: true,
                                shape: Some(shape),
                            },
                        );
                        assert(imported(v0, object_id, s) == self@);
                    },
                    Err(_) => {},
                }
            }
        }
        Ok(OkModelingCmdResponse::ImportFiles { data: ImportFilesData { object_id } })
    }
}


// ---------------------------------------------------------------------
// What the kernel is asked

/// The new pen of a successful `ExtendPath` is where the segment drawn
/// from the old pen ends, as the kernel computes it.
pub open spec fn extend_path_ties<K: GeometryKernel>(
    kernel: &K,
    old: SessionView<K::Shape>,
    path: u128,
    segment: PathSegment,
    new: SessionView<K::Shape>,
    r: CmdResult,
) -> bool {
    r is Ok ==> segment_ends(
        kernel,
        old.paths[path].pen_position.unwrap(),
        segment,
        new.paths[path].pen_position.unwrap(),
    )
}

/// The face of a successful `ClosePath` is the kernel's face of the
/// kernel's wire through the path's segments, closed when there is more
/// than one.
pub open spec fn close_path_ties<K: GeometryKernel>(
    kernel: &K,
    old: SessionView<K::Shape>,
    path: u128,
    new: SessionView<K::Shape>,
    r: CmdResult,
) -> bool {
    r matches Ok(OkModelingCmdResponse::ClosePath { data }) ==> exists|
        segments: Vec<PathSegmentRecord>,
        wire: K::Wire,
        face: K::Shape,
    |
        #![trigger path_wire(kernel, segments, wire), call_ensures(K::face_from_wire, (kernel, &wire), face)]
        {
            &&& segments@ == old.paths[path].segments
            &&& path_wire(kernel, segments, wire)
            &&& call_ensures(K::face_from_wire, (kernel, &wire), face)
            &&& face_added(path_closed(old, path), path, data.face_id, face) == new
        }
}

/// `wire` is the kernel's wire through `segments`, closed when there is
/// more than one segment.
pub open spec fn path_wire<K: GeometryKernel>(
    kernel: &K,
    segments: Vec<PathSegmentRecord>,
    wire: K::Wire,
) -> bool {
    call_ensures(K::wire_from_segments, (kernel, &segments, segments@.len() > 1), wire)
}

/// The direction of an extrusion: the sketch plane's normal in sketch
/// mode, else `z`.
pub open spec fn extrude_direction<S>(v: SessionView<S>) -> Point3d {
    match v.sketch_mode {
        Some(sm) => sm.plane_normal,
        None => unit_z(),
    }
}

/// The solid of a successful `Extrude` is the kernel's extrusion of the
/// target's shape along `extrude_direction` by `distance`.
pub open spec fn extrude_ties<K: GeometryKernel>(
    kernel: &K,
    old: SessionView<K::Shape>,
    target: u128,
    distance: u64,
    new: SessionView<K::Shape>,
    r: CmdResult,
) -> bool {
    r matches Ok(OkModelingCmdResponse::Extrude { data }) ==> exists|s: K::Shape|
        #[trigger] call_ensures(
            K::extrude,
            (kernel, &old.shape_of(target).unwrap(), &extrude_direction(old), distance),
            s,
        ) && extruded(old, target, data.solid_id, data.face_ids@[0], data.edge_ids@[0], s) == new
}

/// The solid of a successful `Revolve` is the kernel's revolution of the
/// target's shape about `axis` by `angle`.
pub open spec fn revolve_ties<K: GeometryKernel>(
    kernel: &K,
    old: SessionView<K::Shape>,
    target: u128,
    axis: Point3d,
    angle: u64,
    new: SessionView<K::Shape>,
    r: CmdResult,
) -> bool {
    r matches Ok(OkModelingCmdResponse::Revolve { data }) ==> exists|s: K::Shape|
        #[trigger] call_ensures(K::revolve, (kernel, &old.shape_of(target).unwrap(), &axis, angle), s)
            && revolved(old, target, data.solid_id, s) == new
}

/// One step of a boolean chain: `z` is the kernel's union of `x` and `y`,
/// or their intersection (`intersection_of`).
pub open spec fn combine_step<K: GeometryKernel>(
    kernel: &K,
    intersect: bool,
    x: K::Shape,
    y: K::Shape,
    z: K::Shape,
) -> bool {
    if intersect {
        intersection_of(kernel, x, y, z)
    } else {
        call_ensures(K::union, (kernel, &x, &y), z)
    }
}

/// `acc` are the running results of combining `shapes` from the left:
/// `acc[0]` combines the first two shapes, `acc[i]` combines `acc[i - 1]`
/// with `shapes[i + 1]`.
pub open spec fn combine_chain<K: GeometryKernel>(
    kernel: &K,
    intersect: bool,
    shapes: Seq<K::Shape>,
    acc: Seq<K::Shape>,
) -> bool {
    &&& acc.len() + 1 == shapes.len()
    &&& forall|i: int|
        0 <= i < acc.len() ==> combine_step(
            kernel,
            intersect,
            if i == 0 {
                shapes[0]
            } else {
                acc[i - 1]
            },
            shapes[i + 1],
            #[trigger] acc[i],
        )
}

/// The shapes of `ids`.
pub open spec fn shapes_at<S>(v: SessionView<S>, ids: Seq<u128>) -> Seq<S> {
    Seq::new(ids.len(), |i: int| v.shape_of(ids[i]).unwrap())
}

/// The new shape of the first target of a successful union or
/// intersection combines the targets' shapes in order, from the left.
pub open spec fn combine_ties<K: GeometryKernel>(
    kernel: &K,
    old: SessionView<K::Shape>,
    targets: Seq<u128>,
    intersect: bool,
    new: SessionView<K::Shape>,
    r: CmdResult,
) -> bool {
    r is Ok ==> exists|acc: Seq<K::Shape>|
        #[trigger] combine_chain(kernel, intersect, shapes_at(old, targets), acc) && with_shape(
            old,
            targets[0],
            acc.last(),
        ) == new
}

/// The new shape of the target of a successful subtraction is the
/// kernel's difference of the target's and the tool's shapes.
pub open spec fn subtract_ties<K: GeometryKernel>(
    kernel: &K,
    old: SessionView<K::Shape>,
    target: u128,
    tool: u128,
    new: SessionView<K::Shape>,
    r: CmdResult,
) -> bool {
    r is Ok ==> exists|s: K::Shape|
        #[trigger] call_ensures(
            K::subtract,
            (kernel, &old.shape_of(target).unwrap(), &old.shape_of(tool).unwrap()),
            s,
        ) && with_shape(old, target, s) == new
}

/// The shape a face query reads: the face's, else its object's.
pub open spec fn face_shape_of<S>(v: SessionView<S>, face_id: u128, object_id: u128) -> Option<S> {
    match v.shape_of(face_id) {
        Some(s) => Some(s),
        None => v.shape_of(object_id),
    }
}

/// `t` is the kernel's total volume (or, with `area`, total surface area)
/// of `shapes`, handed over in order.
pub open spec fn total_of<K: GeometryKernel>(
    kernel: &K,
    area: bool,
    shapes: Seq<K::Shape>,
    t: u64,
) -> bool {
    exists|v: Vec<&K::Shape>|
        #[trigger] total_call(kernel, area, &v, t) && v@.len() == shapes.len() && forall|i: int|
            0 <= i < shapes.len() ==> *v@[i] == shapes[i]
}

/// `t` is what the kernel's total volume (or surface area) gives for `v`.
pub open spec fn total_call<K: GeometryKernel>(kernel: &K, area: bool, v: &Vec<&K::Shape>, t: u64) -> bool {
    if area {
        call_ensures(K::total_surface_area, (kernel, v), t)
    } else {
        call_ensures(K::total_volume, (kernel, v), t)
    }
}

/// The shapes of the listed entities that have one, in order.
pub open spec fn present_shapes_of<S>(v: SessionView<S>, ids: Seq<u128>) -> Seq<S> {
    shapes_at(v, with_shapes(v, ids))
}

/// `out` is what the kernel's export in `format` gives for shape `s`.
pub open spec fn export_call<K: GeometryKernel>(
    kernel: &K,
    format: crate::modeling_cmd::ExportFormat,
    s: K::Shape,
    out: Result<Vec<u8>, String>,
) -> bool {
    match format {
        crate::modeling_cmd::ExportFormat::Step {} => call_ensures(K::export_step, (kernel, &s), out),
        _ => call_ensures(K::export_stl, (kernel, &s), out),
    }
}

/// In a supported format, file `i` of a successful export holds the
/// kernel's export of the `i`-th listed shape, and a failed export fails
/// with the kernel's error for one of them.
pub open spec fn export_ties<K: GeometryKernel>(
    kernel: &K,
    v: SessionView<K::Shape>,
    ids: Seq<u128>,
    format: crate::modeling_cmd::ExportFormat,
    r: CmdResult,
) -> bool {
    let shapes = present_shapes_of(v, ids);
    export_supported(format) ==> match r {
        Ok(OkModelingCmdResponse::Export { data }) => forall|i: int|
            0 <= i < data.files@.len() ==> #[trigger] export_call(
                kernel,
                format,
                shapes[i],
                Ok::<Vec<u8>, String>(data.files@[i].contents),
            ),
        Err(e) => export_failed(kernel, format, shapes, e),
        _ => true,
    }
}

/// The kernel exported `s` in `format` successfully.
pub open spec fn export_ok<K: GeometryKernel>(
    kernel: &K,
    format: crate::modeling_cmd::ExportFormat,
    s: K::Shape,
) -> bool {
    exists|contents: Vec<u8>| #[trigger] export_call(kernel, format, s, Ok::<Vec<u8>, String>(contents))
}

/// `e` is the kernel's error for exporting shape `i` of `shapes` in
/// `format`, after every earlier shape was exported successfully: the
/// export stops at the first shape that fails.
pub open spec fn export_failed<K: GeometryKernel>(
    kernel: &K,
    format: crate::modeling_cmd::ExportFormat,
    shapes: Seq<K::Shape>,
    e: String,
) -> bool {
    exists|i: int|
        {
            &&& 0 <= i < shapes.len()
            &&& #[trigger] export_call(kernel, format, shapes[i], Err::<Vec<u8>, String>(e))
            &&& forall|j: int| 0 <= j < i ==> #[trigger] export_ok(kernel, format, shapes[j])
        }
}

/// An import whose first file carries data hands that data to the
/// kernel's STEP reader: on success the read shape is stored as the new
/// solid, on failure nothing changes. Otherwise nothing changes.
pub open spec fn import_ties<K: GeometryKernel>(
    kernel: &K,
    old: SessionView<K::Shape>,
    files: Seq<crate::modeling_cmd::ImportFile>,
    new: SessionView<K::Shape>,
    r: CmdResult,
) -> bool {
    r matches Ok(OkModelingCmdResponse::ImportFiles { data }) ==> if files.len() > 0
        && files[0].data is Some {
        exists|res: Result<K::Shape, String>|
            #[trigger] call_ensures(K::import_step, (kernel, &files[0].data.unwrap()), res)
                && match res {
                Ok(s) => new == imported(old, data.object_id, s),
                Err(_) => new == old,
            }
    } else {
        new == old
    }
}

/// What the kernel computed for `cmd`: every value of the result or of the
/// new session that comes from the kernel is its answer to the call on
/// the command's own arguments and the session's values.
pub open spec fn kernel_ties<K: GeometryKernel>(
    kernel: &K,
    old: SessionView<K::Shape>,
    cmd: ModelingCmd,
    new: SessionView<K::Shape>,
    r: CmdResult,
) -> bool {
    match cmd {
        ModelingCmd::ExtendPath { path, segment } => extend_path_ties(
            kernel,
            old,
            path,
            segment,
            new,
            r,
        ),
        ModelingCmd::ClosePath { path_id } => close_path_ties(kernel, old, path_id, new, r),
        ModelingCmd::Extrude { target, distance, .. } => extrude_ties(
            kernel,
            old,
            target,
            distance,
            new,
            r,
        ),
        ModelingCmd::Revolve { target, axis, angle, .. } => revolve_ties(
            kernel,
            old,
            target,
            axis,
            angle,
            new,
            r,
        ),
        ModelingCmd::BooleanUnion { targets } => combine_ties(
            kernel,
            old,
            targets@,
            false,
            new,
            r,
        ),
        ModelingCmd::BooleanIntersect { targets } => combine_ties(
            kernel,
            old,
            targets@,
            true,
            new,
            r,
        ),
        ModelingCmd::BooleanSubtract { target, tool } => subtract_ties(
            kernel,
            old,
            target,
            tool,
            new,
            r,
        ),
        ModelingCmd::MakePlane { x_axis, y_axis, .. } => r matches Ok(
            OkModelingCmdResponse::MakePlane { data },
        ) ==> call_ensures(K::cross, (kernel, &x_axis, &y_axis), data.z_axis),
        ModelingCmd::FaceIsPlanar { object_id, face_id } => r matches Ok(
            OkModelingCmdResponse::FaceIsPlanar { data },
        ) ==> call_ensures(
            K::face_is_planar,
            (kernel, &face_shape_of(old, face_id, object_id).unwrap()),
            data.is_planar,
        ),
        ModelingCmd::FaceGetCenter { object_id, face_id } => r matches Ok(
            OkModelingCmdResponse::FaceGetCenter { data },
        ) ==> call_ensures(
            K::face_center,
            (kernel, &face_shape_of(old, face_id, object_id).unwrap()),
            data.pos,
        ),
        ModelingCmd::FaceGetPosition { object_id, face_id, .. } => r matches Ok(
            OkModelingCmdResponse::FaceGetPosition { data },
        ) ==> call_ensures(
            K::face_center,
            (kernel, &face_shape_of(old, face_id, object_id).unwrap()),
            data.pos,
        ),
        ModelingCmd::FaceGetGradient { object_id, face_id, .. } => r matches Ok(
            OkModelingCmdResponse::FaceGetGradient { data },
        ) ==> {
            &&& call_ensures(
                K::face_normal_at_center,
                (kernel, &face_shape_of(old, face_id, object_id).unwrap()),
                data.normal,
            )
            &&& call_ensures(K::tangent_frame, (kernel, &data.normal), (data.df_du, data.df_dv))
        },
        ModelingCmd::CurveGetEndPoints { curve_id } => r matches Ok(
            OkModelingCmdResponse::CurveGetEndPoints { data },
        ) ==> (old.shape_of(curve_id) is Some ==> exists|ends: Option<(Point3d, Point3d)>|
            #[trigger] call_ensures(
                K::first_edge_end_points,
                (kernel, &old.shape_of(curve_id).unwrap()),
                ends,
            ) && match ends {
                Some(pair) => data.start == pair.0 && data.end == pair.1,
                None => data.start == origin() && data.end == origin(),
            }),
        ModelingCmd::Volume { entity_ids, .. } => r matches Ok(
            OkModelingCmdResponse::Volume { data },
        ) ==> total_of(kernel, false, present_shapes_of(old, entity_ids@), data.volume),
        ModelingCmd::SurfaceArea { entity_ids, .. } => r matches Ok(
            OkModelingCmdResponse::SurfaceArea { data },
        ) ==> total_of(kernel, true, present_shapes_of(old, entity_ids@), data.surface_area),
        ModelingCmd::Mass { entity_ids, material_density, .. } => r matches Ok(
            OkModelingCmdResponse::Mass { data },
        ) ==> exists|t: u64|
            #[trigger] total_of(kernel, false, present_shapes_of(old, entity_ids@), t)
                && call_ensures(K::product, (kernel, t, material_density), data.mass),
        ModelingCmd::Density { entity_ids, material_mass, .. } => r matches Ok(
            OkModelingCmdResponse::Density { data },
        ) ==> exists|t: u64|
            #[trigger] total_of(kernel, false, present_shapes_of(old, entity_ids@), t)
                && call_ensures(K::quotient_or_zero, (kernel, material_mass, t), data.density),
        ModelingCmd::CenterOfMass { entity_ids, .. } => r matches Ok(
            OkModelingCmdResponse::CenterOfMass { data },
        ) ==> (entity_ids@.len() > 0 && old.shape_of(entity_ids@[0]) is Some ==> call_ensures(
            K::center_of_mass,
            (kernel, &old.shape_of(entity_ids@[0]).unwrap()),
            data.center_of_mass,
        )),
        ModelingCmd::Export { entity_ids, format } => export_ties(
            kernel,
            old,
            entity_ids@,
            format,
            r,
        ),
        ModelingCmd::ImportFiles { files, .. } => import_ties(kernel, old, files@, new, r),
        _ => true,
    }
}

/// What dispatching `cmd` does, with what the kernel computed.
pub open spec fn cmd_post<K: GeometryKernel>(
    kernel: &K,
    old: SessionView<K::Shape>,
    cmd: ModelingCmd,
    new: SessionView<K::Shape>,
    r: CmdResult,
) -> bool {
    dispatch_post(old, cmd, new, r) && kernel_ties(kernel, old, cmd, new, r)
}

// ---------------------------------------------------------------------
// Dispatch

/// What dispatching `cmd` on the session `old` does: `new` is the session
/// after, `r` the result.
pub open spec fn dispatch_post<S>(
    old: SessionView<S>,
    cmd: ModelingCmd,
    new: SessionView<S>,
    r: CmdResult,
) -> bool {
    match cmd {
        ModelingCmd::StartPath {} => start_path_post(old, new, r),
        ModelingCmd::MovePathPen { path, to } => move_pen_post(old, path, to, new, r),
        ModelingCmd::ExtendPath { path, segment } => extend_path_post(old, path, segment, new, r),
        ModelingCmd::ClosePath { path_id } => close_path_post(old, path_id, new, r),
        ModelingCmd::EnableSketchMode { entity_id, planar_normal, .. } => {
            &&& ok_empty(r)
            &&& new == (SessionView {
                sketch_mode: Some(sketch_mode_for(entity_id, planar_normal)),
                ..old
            })
        },
        ModelingCmd::SketchModeDisable {} => ok_empty(r) && new == (SessionView {
            sketch_mode: None,
            ..old
        }),
        ModelingCmd::Extrude { target, .. } => extrude_post(old, target, new, r),
        ModelingCmd::Revolve { target, .. } => revolve_post(old, target, new, r),
        ModelingCmd::Solid3dFilletEdge { .. } => ok_empty(r) && new == old,
        ModelingCmd::BooleanUnion { targets } => combine_post(
            old,
            targets@,
            "Boolean union requires at least 2 targets"@,
            new,
            r,
        ),
        ModelingCmd::BooleanSubtract { target, tool } => subtract_post(old, target, tool, new, r),
        ModelingCmd::BooleanIntersect { targets } => combine_post(
            old,
            targets@,
            "Boolean intersect requires at least 2 targets"@,
            new,
            r,
        ),
        ModelingCmd::DefaultCameraLookAt { center, eye, up, vantage, .. } => {
            &&& ok_empty(r)
            &&& new == (SessionView {
                camera: looked_at(old.camera, center, eye, up, vantage),
                ..old
            })
        },
        ModelingCmd::DefaultCameraGetSettings {} => {
            &&& r == Ok::<OkModelingCmdResponse, String>(
                OkModelingCmdResponse::DefaultCameraGetSettings { data: settings_of(old.camera) },
            )
            &&& new == old
        },
        ModelingCmd::DefaultCameraZoom { .. } => ok_empty(r) && new == old,
        ModelingCmd::ZoomToFit { .. } => ok_empty(r) && new == old,
        ModelingCmd::ViewIsometric { .. } => ok_empty(r) && new == old,
        ModelingCmd::SceneClearAll {} => {
            &&& ok_empty(r)
            &&& new.entities == Map::<u128, EntityView<S>>::empty()
            &&& new.paths == Map::<u128, PathView>::empty()
            &&& new.selection == Set::<u128>::empty()
            &&& new.sketch_mode is None
            &&& new.units == old.units
            &&& new.camera == old.camera
        },
        ModelingCmd::SelectAdd { entities } => {
            &&& r == Ok::<OkModelingCmdResponse, String>(
                OkModelingCmdResponse::SelectAdd { data: SelectAddData {  } },
            )
            &&& new == (SessionView { selection: old.selection.union(id_set(entities@)), ..old })
        },
        ModelingCmd::SelectRemove { entities } => {
            &&& ok_empty(r)
            &&& new == (SessionView {
                selection: old.selection.difference(id_set(entities@)),
                ..old
            })
        },
        ModelingCmd::SelectClear {} => ok_empty(r) && new == (SessionView {
            selection: Set::<u128>::empty(),
            ..old
        }),
        ModelingCmd::HighlightSetEntity { sequence, .. } => {
            &&& r == Ok::<OkModelingCmdResponse, String>(
                OkModelingCmdResponse::HighlightSetEntity {
                    data: HighlightSetEntityData { entity_id: None, sequence },
                },
            )
            &&& new == old
        },
        ModelingCmd::MakePlane { origin, x_axis, y_axis, .. } => {
            &&& r matches Ok(OkModelingCmdResponse::MakePlane { data })
            &&& data.origin == origin
            &&& data.x_axis == x_axis
            &&& data.y_axis == y_axis
            &&& new == (SessionView {
                entities: old.entities.insert(
                    data.plane_id,
                    EntityView::fresh(data.plane_id, EntityType::Plane, None, seq![]),
                ),
                ..old
            })
        },
        ModelingCmd::SetSceneUnits { unit } => ok_empty(r) && new == (SessionView {
            units: unit,
            ..old
        }),
        ModelingCmd::SetBackgroundColor { .. } => ok_empty(r) && new == old,
        ModelingCmd::EdgeLinesVisible { .. } => ok_empty(r) && new == old,
        ModelingCmd::EntityGetParentId { entity_id } => parent_id_post(old, entity_id, r) && new
            == old,
        ModelingCmd::EntityGetNumChildren { entity_id } => num_children_post(old, entity_id, r)
            && new == old,
        ModelingCmd::EntityGetChildUuid { entity_id, child_index } => child_uuid_post(
            old,
            entity_id,
            child_index,
            r,
        ) && new == old,
        ModelingCmd::EntityGetAllChildUuids { entity_id } => all_children_post(old, entity_id, r)
            && new == old,
        ModelingCmd::EntityGetSketchPaths { entity_id } => sketch_paths_post(old, entity_id, r)
            && new == old,
        ModelingCmd::EntityGetDistance { .. } => {
            &&& r == Ok::<OkModelingCmdResponse, String>(
                OkModelingCmdResponse::EntityGetDistance {
                    data: EntityGetDistanceData { min_distance: ZERO_BITS, max_distance: ZERO_BITS },
                },
            )
            &&& new == old
        },
        ModelingCmd::Export { entity_ids, format } => export_post(old, entity_ids@, format, r)
            && new == old,
        ModelingCmd::ImportFiles { files, .. } => import_post(old, files@, new, r),
        ModelingCmd::MouseMove { .. } => ok_empty(r) && new == old,
        ModelingCmd::MouseClick { .. } => ok_empty(r) && new == old,
        ModelingCmd::HandleMouseDragStart { .. } => ok_empty(r) && new == old,
        ModelingCmd::HandleMouseDragMove { .. } => ok_empty(r) && new == old,
        ModelingCmd::HandleMouseDragEnd { .. } => ok_empty(r) && new == old,
        ModelingCmd::ObjectVisible { object_id, hidden } => {
            &&& ok_empty(r)
            &&& if old.entities.contains_key(object_id) {
                new == (SessionView {
                    entities: old.entities.insert(
                        object_id,
                        EntityView { visible: !hidden, ..old.entities[object_id] },
                    ),
                    ..old
                })
            } else {
                new == old
            }
        },
        ModelingCmd::ObjectBringToFront { .. } => ok_empty(r) && new == old,
        ModelingCmd::GetEntityType { entity_id } => entity_type_post(old, entity_id, r) && new
            == old,
        ModelingCmd::Solid3dGetAllEdgeFaces { object_id, .. } => {
            &&& r matches Ok(OkModelingCmdResponse::Solid3dGetAllEdgeFaces { data })
            &&& data.faces@ == if old.entities.contains_key(object_id) {
                of_type(old, old.entities[object_id].children, EntityType::Face)
            } else {
                Seq::<u128>::empty()
            }
            &&& new == old
        },
        ModelingCmd::Solid3dGetAllOppositeEdges { object_id, .. } => {
            &&& r matches Ok(OkModelingCmdResponse::Solid3dGetAllOppositeEdges { data })
            &&& data.edges@ == if old.entities.contains_key(object_id) {
                of_type(old, old.entities[object_id].children, EntityType::Edge)
            } else {
                Seq::<u128>::empty()
            }
            &&& new == old
        },
        ModelingCmd::Solid3dGetOppositeEdge { edge_id, .. } => {
            &&& r == Ok::<OkModelingCmdResponse, String>(
                OkModelingCmdResponse::Solid3dGetOppositeEdge {
                    data: Solid3dGetOppositeEdgeData { edge: edge_id },
                },
            )
            &&& new == old
        },
        ModelingCmd::Solid3dGetNextAdjacentEdge { .. } => {
            &&& r == Ok::<OkModelingCmdResponse, String>(
                OkModelingCmdResponse::Solid3dGetNextAdjacentEdge {
                    data: Solid3dGetAdjacentEdgeData { edge: None },
                },
            )
            &&& new == old
        },
        ModelingCmd::Solid3dGetPrevAdjacentEdge { .. } => {
            &&& r == Ok::<OkModelingCmdResponse, String>(
                OkModelingCmdResponse::Solid3dGetPrevAdjacentEdge {
                    data: Solid3dGetAdjacentEdgeData { edge: None },
                },
            )
            &&& new == old
        },
        ModelingCmd::FaceIsPlanar { object_id, face_id } => {
            &&& if no_face_shape(old, face_id, object_id) {
                fails_with(r, face_shape_missing())
            } else {
                r matches Ok(OkModelingCmdResponse::FaceIsPlanar { .. })
            }
            &&& new == old
        },
        ModelingCmd::FaceGetCenter { object_id, face_id } => {
            &&& if no_face_shape(old, face_id, object_id) {
                fails_with(r, face_shape_missing())
            } else {
                r matches Ok(OkModelingCmdResponse::FaceGetCenter { .. })
            }
            &&& new == old
        },
        ModelingCmd::FaceGetGradient { object_id, face_id, .. } => {
            &&& if no_face_shape(old, face_id, object_id) {
                fails_with(r, face_shape_missing())
            } else {
                r matches Ok(OkModelingCmdResponse::FaceGetGradient { .. })
            }
            &&& new == old
        },
        ModelingCmd::FaceGetPosition { object_id, face_id, .. } => {
            &&& if no_face_shape(old, face_id, object_id) {
                fails_with(r, face_shape_missing())
            } else {
                r matches Ok(OkModelingCmdResponse::FaceGetPosition { .. })
            }
            &&& new == old
        },
        ModelingCmd::GetSketchModePlane {} => {
            &&& match old.sketch_mode {
                Some(sm) => r == Ok::<OkModelingCmdResponse, String>(
                    OkModelingCmdResponse::GetSketchModePlane {
                        data: GetSketchModePlaneData {
                            origin: sm.plane_origin,
                            x_axis: sm.plane_x_axis,
                            y_axis: sm.plane_y_axis,
                            z_axis: sm.plane_normal,
                        },
                    },
                ),
                None => fails_with(r, "Not in sketch mode"@),
            }
            &&& new == old
        },
        ModelingCmd::CurveGetControlPoints { .. } => {
            &&& r matches Ok(OkModelingCmdResponse::CurveGetControlPoints { data })
            &&& data.control_points@.len() == 0
            &&& new == old
        },
        ModelingCmd::CurveGetEndPoints { curve_id } => {
            &&& r matches Ok(OkModelingCmdResponse::CurveGetEndPoints { data })
            &&& (old.shape_of(curve_id) is None ==> data.start == origin() && data.end == origin())
            &&& new == old
        },
        ModelingCmd::CurveGetType { .. } => {
            &&& r matches Ok(OkModelingCmdResponse::CurveGetType { data })
            &&& data.curve_type@ == "line"@
            &&& new == old
        },
        ModelingCmd::Mass { .. } => {
            &&& r matches Ok(OkModelingCmdResponse::Mass { .. })
            &&& measured(r, "kg"@)
            &&& new == old
        },
        ModelingCmd::Volume { .. } => {
            &&& r matches Ok(OkModelingCmdResponse::Volume { .. })
            &&& measured(r, "mm3"@)
            &&& new == old
        },
        ModelingCmd::SurfaceArea { .. } => {
            &&& r matches Ok(OkModelingCmdResponse::SurfaceArea { .. })
            &&& measured(r, "mm2"@)
            &&& new == old
        },
        ModelingCmd::CenterOfMass { entity_ids, .. } => {
            &&& r matches Ok(OkModelingCmdResponse::CenterOfMass { data })
            &&& measured(r, "mm"@)
            &&& (entity_ids@.len() == 0 || old.shape_of(entity_ids@[0]) is None)
                ==> data.center_of_mass == origin()
            &&& new == old
        },
        ModelingCmd::Density { .. } => {
            &&& r matches Ok(OkModelingCmdResponse::Density { .. })
            &&& measured(r, "kg_per_m3"@)
            &&& new == old
        },
        ModelingCmd::Unknown => ok_empty(r) && new == old,
    }
}

fn origin_point() -> (p: Point3d)
    ensures
        p == origin(),
{
    Point3d { x: ZERO_BITS, y: ZERO_BITS, z: ZERO_BITS }
}

/// Dispatches a modeling command against the session and returns the
/// response; `kernel` does the geometry.
pub fn dispatch<K: GeometryKernel>(
    session: &mut Session<K::Shape>,
    kernel: &K,
    cmd: ModelingCmd,
) -> (r: CmdResult)
    ensures
        dispatch_post(old(session)@, cmd, final(session)@, r),
        kernel_ties(kernel, old(session)@, cmd, final(session)@, r),
{
    match cmd {
        ModelingCmd::StartPath {} => session.start_path(),
        ModelingCmd::MovePathPen { path, to } => session.move_path_pen(path, to),
        ModelingCmd::ExtendPath { path, segment } => session.extend_path(kernel, path, segment),
        ModelingCmd::ClosePath { path_id } => session.close_path(kernel, path_id),
        ModelingCmd::EnableSketchMode { entity_id, planar_normal, .. } => {
            session.enable_sketch_mode(entity_id, planar_normal)
        },
        ModelingCmd::SketchModeDisable {} => {
            session.sketch_mode = None;
            Ok(OkModelingCmdResponse::Empty {})
        },
        ModelingCmd::Extrude { target, distance, .. } => session.extrude(kernel, target, distance),
        ModelingCmd::Revolve { target, axis, angle, .. } => session.revolve(
            kernel,
            target,
            &axis,
            angle,
        ),
        ModelingCmd::Solid3dFilletEdge { .. } => Ok(OkModelingCmdResponse::Empty {}),
        ModelingCmd::BooleanUnion { targets } => session.combine(kernel, &targets, false),
        ModelingCmd::BooleanSubtract { target, tool } => session.subtract(kernel, target, tool),
        ModelingCmd::BooleanIntersect { targets } => session.combine(kernel, &targets, true),
        ModelingCmd::DefaultCameraLookAt { center, eye, up, vantage, .. } => {
            session.camera_look_at(center, eye, up, vantage);
            Ok(OkModelingCmdResponse::Empty {})
        },
        ModelingCmd::DefaultCameraGetSettings {} => {
            let cam = &session.camera;
            Ok(
                OkModelingCmdResponse::DefaultCameraGetSettings {
                    data: CameraSettings {
                        pos: cam.position,
                        center: cam.center,
                        up: cam.up,
                        fov_y: Some(cam.fov_y),
                        ortho: cam.ortho,
                        ortho_scale: Some(cam.ortho_scale),
                    },
                },
            )
        },
        ModelingCmd::DefaultCameraZoom { .. } => Ok(OkModelingCmdResponse::Empty {}),
        ModelingCmd::ZoomToFit { .. } => Ok(OkModelingCmdResponse::Empty {}),
        ModelingCmd::ViewIsometric { .. } => Ok(OkModelingCmdResponse::Empty {}),
        ModelingCmd::SelectAdd { entities } => {
            session.select_add(&entities);
            Ok(OkModelingCmdResponse::SelectAdd { data: SelectAddData {  } })
        },
        ModelingCmd::SelectRemove { entities } => {
            session.select_remove(&entities);
            Ok(OkModelingCmdResponse::Empty {})
        },
        ModelingCmd::SelectClear {} => {
            session.selection.clear();
            Ok(OkModelingCmdResponse::Empty {})
        },
        ModelingCmd::HighlightSetEntity { sequence, .. } => Ok(
            OkModelingCmdResponse::HighlightSetEntity {
                data: HighlightSetEntityData { entity_id: None, sequence },
            },
        ),
        ModelingCmd::SceneClearAll {} => {
            session.clear();
            Ok(OkModelingCmdResponse::Empty {})
        },
        ModelingCmd::SetSceneUnits { unit } => {
            session.units = unit;
            Ok(OkModelingCmdResponse::Empty {})
        },
        ModelingCmd::SetBackgroundColor { .. } => Ok(OkModelingCmdResponse::Empty {}),
        ModelingCmd::EdgeLinesVisible { .. } => Ok(OkModelingCmdResponse::Empty {}),
        ModelingCmd::MakePlane { origin, x_axis, y_axis, .. } => session.make_plane(
            kernel,
            origin,
            x_axis,
            y_axis,
        ),
        ModelingCmd::EntityGetParentId { entity_id } => session.entity_get_parent_id(entity_id),
        ModelingCmd::EntityGetNumChildren { entity_id } => session.entity_get_num_children(
            entity_id,
        ),
        ModelingCmd::EntityGetChildUuid { entity_id, child_index } => session.entity_get_child_uuid(
            entity_id,
            child_index,
        ),
        ModelingCmd::EntityGetAllChildUuids { entity_id } => session.entity_get_all_child_uuids(
            entity_id,
        ),
        ModelingCmd::EntityGetSketchPaths { entity_id } => session.entity_get_sketch_paths(
            entity_id,
        ),
        ModelingCmd::GetEntityType { entity_id } => session.get_entity_type(entity_id),
        ModelingCmd::ObjectVisible { object_id, hidden } => {
            session.set_visible(object_id, hidden);
            Ok(OkModelingCmdResponse::Empty {})
        },
        ModelingCmd::ObjectBringToFront { .. } => Ok(OkModelingCmdResponse::Empty {}),
        ModelingCmd::GetSketchModePlane {} => match &session.sketch_mode {
            Some(sm) => Ok(
                OkModelingCmdResponse::GetSketchModePlane {
                    data: GetSketchModePlaneData {
                        origin: sm.plane_origin,
                        x_axis: sm.plane_x_axis,
                        y_axis: sm.plane_y_axis,
                        z_axis: sm.plane_normal,
                    },
                },
            ),
            None => Err(String::from_str("Not in sketch mode")),
        },
        ModelingCmd::FaceIsPlanar { object_id, face_id } => {
            let shape = match session.face_shape(face_id, object_id) {
                Ok(s) => s,
                Err(e) => {
                    return Err(e);
                },
            };
            Ok(
                OkModelingCmdResponse::FaceIsPlanar {
                    data: FaceIsPlanarData { is_planar: kernel.face_is_planar(shape) },
                },
            )
        },
        ModelingCmd::FaceGetCenter { object_id, face_id } => {
            let shape = match session.face_shape(face_id, object_id) {
                Ok(s) => s,
                Err(e) => {
                    return Err(e);
                },
            };
            Ok(
                OkModelingCmdResponse::FaceGetCenter {
                    data: FaceGetCenterData { pos: kernel.face_center(shape) },
                },
            )
        },
        ModelingCmd::FaceGetGradient { object_id, face_id, .. } => {
            let shape = match session.face_shape(face_id, object_id) {
                Ok(s) => s,
                Err(e) => {
                    return Err(e);
                },
            };
            let normal = kernel.face_normal_at_center(shape);
            let (df_du, df_dv) = kernel.tangent_frame(&normal);
            Ok(
                OkModelingCmdResponse::FaceGetGradient {
                    data: FaceGetGradientData { df_du, df_dv, normal },
                },
            )
        },
        ModelingCmd::FaceGetPosition { object_id, face_id, .. } => {
            let shape = match session.face_shape(face_id, object_id) {
                Ok(s) => s,
                Err(e) => {
                    return Err(e);
                },
            };
            Ok(
                OkModelingCmdResponse::FaceGetPosition {
                    data: FaceGetPositionData { pos: kernel.face_center(shape) },
                },
            )
        },
        ModelingCmd::EntityGetDistance { .. } => Ok(
            OkModelingCmdResponse::EntityGetDistance {
                data: EntityGetDistanceData { min_distance: ZERO_BITS, max_distance: ZERO_BITS },
            },
        ),
        ModelingCmd::Solid3dGetAllEdgeFaces { object_id, .. } => {
            let faces = session.children_of_kind(object_id, EntityType::Face);
            Ok(
                OkModelingCmdResponse::Solid3dGetAllEdgeFaces {
                    data: Solid3dGetAllEdgeFacesData { faces },
                },
            )
        },
        ModelingCmd::Solid3dGetAllOppositeEdges { object_id, .. } => {
            let edges = session.children_of_kind(object_id, EntityType::Edge);
            Ok(
                OkModelingCmdResponse::Solid3dGetAllOppositeEdges {
                    data: Solid3dGetAllOppositeEdgesData { edges },
                },
            )
        },
        ModelingCmd::Solid3dGetOppositeEdge { edge_id, .. } => Ok(
            OkModelingCmdResponse::Solid3dGetOppositeEdge {
                data: Solid3dGetOppositeEdgeData { edge: edge_id },
            },
        ),
        ModelingCmd::Solid3dGetNextAdjacentEdge { .. } => Ok(
            OkModelingCmdResponse::Solid3dGetNextAdjacentEdge {
                data: Solid3dGetAdjacentEdgeData { edge: None },
            },
        ),
        ModelingCmd::Solid3dGetPrevAdjacentEdge { .. } => Ok(
            OkModelingCmdResponse::Solid3dGetPrevAdjacentEdge {
                data: Solid3dGetAdjacentEdgeData { edge: None },
            },
        ),
        ModelingCmd::CurveGetControlPoints { .. } => Ok(
            OkModelingCmdResponse::CurveGetControlPoints {
                data: CurveGetControlPointsData { control_points: Vec::new() },
            },
        ),
        ModelingCmd::CurveGetEndPoints { curve_id } => {
            let ends = match session.get_shape(curve_id) {
                Some(shape) => {
                    let e = kernel.first_edge_end_points(shape);
                    assert(call_ensures(
                        K::first_edge_end_points,
                        (kernel, &session@.shape_of(curve_id).unwrap()),
                        e,
                    ));
                    e
                },
                None => None,
            };
            let (start, end) = match ends {
                Some(pair) => pair,
                None => (origin_point(), origin_point()),
            };
            Ok(OkModelingCmdResponse::CurveGetEndPoints { data: CurveGetEndPointsData { start, end } })
        },
        ModelingCmd::CurveGetType { .. } => Ok(
            OkModelingCmdResponse::CurveGetType {
                data: CurveGetTypeData { curve_type: String::from_str("line") },
            },
        ),
        ModelingCmd::Mass { entity_ids, material_density, .. } => {
            let shapes = session.present_shapes(&entity_ids);
            let total_volume = kernel.total_volume(&shapes);
            assert(total_call(kernel, false, &shapes, total_volume));
            assert(total_of(kernel, false, present_shapes_of(session@, entity_ids@), total_volume));
            let mass = kernel.product(total_volume, material_density);
            Ok(
                OkModelingCmdResponse::Mass {
                    data: MassData { mass, output_unit: String::from_str("kg") },
                },
            )
        },
        ModelingCmd::Volume { entity_ids, .. } => {
            let shapes = session.present_shapes(&entity_ids);
            let volume = kernel.total_volume(&shapes);
            assert(total_call(kernel, false, &shapes, volume));
            Ok(
                OkModelingCmdResponse::Volume {
                    data: VolumeData { volume, output_unit: String::from_str("mm3") },
                },
            )
        },
        ModelingCmd::SurfaceArea { entity_ids, .. } => {
            let shapes = session.present_shapes(&entity_ids);
            let surface_area = kernel.total_surface_area(&shapes);
            assert(total_call(kernel, true, &shapes, surface_area));
            Ok(
                OkModelingCmdResponse::SurfaceArea {
                    data: SurfaceAreaData { surface_area, output_unit: String::from_str("mm2") },
                },
            )
        },
        ModelingCmd::CenterOfMass { entity_ids, .. } => {
            let mut center_of_mass = origin_point();
            if entity_ids.len() > 0 {
                if let Some(shape) = session.get_shape(entity_ids[0]) {
                    center_of_mass = kernel.center_of_mass(shape);
                }
            }
            Ok(
                OkModelingCmdResponse::CenterOfMass {
                    data: CenterOfMassData { center_of_mass, output_unit: String::from_str("mm") },
                },
            )
        },
        ModelingCmd::Density { entity_ids, material_mass, .. } => {
            let shapes = session.present_shapes(&entity_ids);
            let total_volume = kernel.total_volume(&shapes);
            assert(total_call(kernel, false, &shapes, total_volume));
            assert(total_of(kernel, false, present_shapes_of(session@, entity_ids@), total_volume));
            let density = kernel.quotient_or_zero(material_mass, total_volume);
            Ok(
                OkModelingCmdResponse::Density {
                    data: DensityData { density, output_unit: String::from_str("kg_per_m3") },
                },
            )
        },
        ModelingCmd::Export { entity_ids, format } => session.export(kernel, &entity_ids, &format),
        ModelingCmd::ImportFiles { files, .. } => session.import_files(kernel, &files),
        ModelingCmd::MouseMove { .. } => Ok(OkModelingCmdResponse::Empty {}),
        ModelingCmd::MouseClick { .. } => Ok(OkModelingCmdResponse::Empty {}),
        ModelingCmd::HandleMouseDragStart { .. } => Ok(OkModelingCmdResponse::Empty {}),
        ModelingCmd::HandleMouseDragMove { .. } => Ok(OkModelingCmdResponse::Empty {}),
        ModelingCmd::HandleMouseDragEnd { .. } => Ok(OkModelingCmdResponse::Empty {}),
        ModelingCmd::Unknown => Ok(OkModelingCmdResponse::Empty {}),
    }
}

} // verus!
