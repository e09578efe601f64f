//! Properties of the session that span commands, proved over the
//! relations `dispatch_post` and `cmd_post` that `dispatch` satisfies.

use vstd::prelude::*;
use crate::commands::{
    cmd_post, dispatch_post, entity_missing, extruded, face_added, fails_with, id_set, imported, ok_empty,
    path_closed, path_extended, path_started, revolved, sketch_mode_for, unit_z, with_shape,
    CmdResult,
};
use crate::modeling_cmd::{ModelingCmd, PathSegment, Point3d, UnitLength};
use crate::responses::{
    EntityGetChildUuidData, EntityGetNumChildrenData, EntityGetParentIdData, GetSketchModePlaneData,
    OkModelingCmdResponse,
};
use crate::session::{origin, EntityType, EntityView, PathView, SessionView};
use crate::kernel::GeometryKernel;
use crate::sketch::{fixed_endpoint, segment_ends};

verus! {

/// A new path has no pen position: extending it before the pen is moved
/// fails, and leaves the session as it was.
pub proof fn law_new_path_needs_pen<S>(
    s0: SessionView<S>,
    r0: CmdResult,
    s1: SessionView<S>,
    segment: PathSegment,
    r1: CmdResult,
    s2: SessionView<S>,
)
    requires
        dispatch_post(s0, ModelingCmd::StartPath {  }, s1, r0),
        r0 matches Ok(OkModelingCmdResponse::StartPath { data }) && dispatch_post(
            s1,
            ModelingCmd::ExtendPath { path: data.path_id, segment },
            s2,
            r1,
        ),
    ensures
        fails_with(r1, "Pen position not set; call MovePathPen first"@),
        s2 == s1,
{
}

/// A new path is an entity of kind path, with no parent (its parent query
/// names itself) and no children.
pub proof fn law_new_path_entity<S>(
    s0: SessionView<S>,
    r0: CmdResult,
    s1: SessionView<S>,
    r1: CmdResult,
    r2: CmdResult,
    r3: CmdResult,
)
    requires
        dispatch_post(s0, ModelingCmd::StartPath {  }, s1, r0),
        r0 matches Ok(OkModelingCmdResponse::StartPath { data }) && {
            &&& dispatch_post(s1, ModelingCmd::EntityGetParentId { entity_id: data.path_id }, s1, r1)
            &&& dispatch_post(
                s1,
                ModelingCmd::EntityGetNumChildren { entity_id: data.path_id },
                s1,
                r2,
            )
            &&& dispatch_post(s1, ModelingCmd::GetEntityType { entity_id: data.path_id }, s1, r3)
        },
    ensures
        r0 matches Ok(OkModelingCmdResponse::StartPath { data }) && r1 == Ok::<
            OkModelingCmdResponse,
            String,
        >(
            OkModelingCmdResponse::EntityGetParentId {
                data: EntityGetParentIdData { entity_id: data.path_id },
            },
        ),
        r2 == Ok::<OkModelingCmdResponse, String>(
            OkModelingCmdResponse::EntityGetNumChildren { data: EntityGetNumChildrenData { num: 0 } },
        ),
        r3 matches Ok(OkModelingCmdResponse::GetEntityType { data }) && data.entity_type@ == "path"@,
{
}

/// After the pen is moved to `p`, a segment can be added: it is recorded as
/// drawn from `p`, and the pen moves to where the segment ends: its given
/// end point where it names one, else the kernel's point computed from
/// `p` and the segment (`segment_ends`).
pub proof fn law_pen_then_extend<K: GeometryKernel>(
    kernel: &K,
    s0: SessionView<K::Shape>,
    path: u128,
    p: Point3d,
    r0: CmdResult,
    s1: SessionView<K::Shape>,
    segment: PathSegment,
    r1: CmdResult,
    s2: SessionView<K::Shape>,
)
    requires
        s0.paths.contains_key(path),
        cmd_post(kernel, s0, ModelingCmd::MovePathPen { path, to: p }, s1, r0),
        cmd_post(kernel, s1, ModelingCmd::ExtendPath { path, segment }, s2, r1),
    ensures
        ok_empty(r1),
        s2.paths[path].segments == s0.paths[path].segments.push(
            crate::session::PathSegmentRecord { from: p, segment },
        ),
        s2.paths[path].pen_position matches Some(q) && segment_ends(kernel, p, segment, q),
        fixed_endpoint(p, segment) matches Some(q) ==> s2.paths[path].pen_position == Some(q),
{
}

/// A path without segments cannot be closed; it is marked closed even so.
pub proof fn law_close_empty_path<S>(
    s0: SessionView<S>,
    r0: CmdResult,
    s1: SessionView<S>,
    r1: CmdResult,
    s2: SessionView<S>,
)
    requires
        dispatch_post(s0, ModelingCmd::StartPath {  }, s1, r0),
        r0 matches Ok(OkModelingCmdResponse::StartPath { data }) && dispatch_post(
            s1,
            ModelingCmd::ClosePath { path_id: data.path_id },
            s2,
            r1,
        ),
    ensures
        fails_with(r1, "No segments to build wire from"@),
        r0 matches Ok(OkModelingCmdResponse::StartPath { data }) && s2.paths[data.path_id].closed,
{
}

/// Closing a path builds a face whose parent is the path; when the path's
/// entity exists and is not the new face, the face is its last child.
pub proof fn law_closed_path_face<S>(
    s0: SessionView<S>,
    path: u128,
    r0: CmdResult,
    s1: SessionView<S>,
    r1: CmdResult,
)
    requires
        dispatch_post(s0, ModelingCmd::ClosePath { path_id: path }, s1, r0),
        r0 matches Ok(OkModelingCmdResponse::ClosePath { data }) && dispatch_post(
            s1,
            ModelingCmd::EntityGetParentId { entity_id: data.face_id },
            s1,
            r1,
        ),
    ensures
        r0 matches Ok(OkModelingCmdResponse::ClosePath { data }) && {
            &&& data.face_id != path ==> r1 == Ok::<OkModelingCmdResponse, String>(
                OkModelingCmdResponse::EntityGetParentId {
                    data: EntityGetParentIdData { entity_id: path },
                },
            )
            &&& (data.face_id != path && s0.entities.contains_key(path)) ==> s1.entities[path].children
                == s0.entities[path].children.push(data.face_id)
        },
{
    let data = r0->Ok_0->ClosePath_data;
    let s = choose|s: S| #[trigger]
        face_added(path_closed(s0, path), path, data.face_id, s) == s1;
    assert(face_added(path_closed(s0, path), path, data.face_id, s) == s1);
}

/// The child queries agree: child `i` exists exactly when `i` is below the
/// number of children (for fewer than 2^32 children), and it is entry `i`
/// of the list of all children.
pub proof fn law_child_queries_agree<S>(
    s: SessionView<S>,
    id: u128,
    i: u32,
    r_num: CmdResult,
    r_child: CmdResult,
    r_all: CmdResult,
    s1: SessionView<S>,
    s2: SessionView<S>,
    s3: SessionView<S>,
)
    requires
        s.entities.contains_key(id),
        s.entities[id].children.len() < 0x1_0000_0000,
        dispatch_post(s, ModelingCmd::EntityGetNumChildren { entity_id: id }, s1, r_num),
        dispatch_post(s, ModelingCmd::EntityGetChildUuid { entity_id: id, child_index: i }, s2, r_child),
        dispatch_post(s, ModelingCmd::EntityGetAllChildUuids { entity_id: id }, s3, r_all),
    ensures
        r_num matches Ok(OkModelingCmdResponse::EntityGetNumChildren { data: n }) && (r_child is Ok
            <==> i < n.num),
        r_all matches Ok(OkModelingCmdResponse::EntityGetAllChildUuids { data: all }) && (
        r_child matches Ok(OkModelingCmdResponse::EntityGetChildUuid { data: c }) ==> c.entity_id
            == all.entity_ids@[i as int]),
{
}

/// Selecting entities and then deselecting the same ones leaves the
/// selection as it was, less those entities.
pub proof fn law_select_then_deselect<S>(
    s0: SessionView<S>,
    ids: Vec<u128>,
    r0: CmdResult,
    s1: SessionView<S>,
    r1: CmdResult,
    s2: SessionView<S>,
)
    requires
        dispatch_post(s0, ModelingCmd::SelectAdd { entities: ids }, s1, r0),
        dispatch_post(s1, ModelingCmd::SelectRemove { entities: ids }, s2, r1),
    ensures
        s2.selection == s0.selection.difference(id_set(ids@)),
        s2.entities == s0.entities,
        s2.paths == s0.paths,
{
    assert(s2.selection =~= s0.selection.difference(id_set(ids@)));
}

/// After the scene is cleared, no entity can be found, and there is no
/// sketch mode; units and camera stay.
pub proof fn law_cleared_scene<S>(
    s0: SessionView<S>,
    r0: CmdResult,
    s1: SessionView<S>,
    id: u128,
    r1: CmdResult,
    r2: CmdResult,
    s2: SessionView<S>,
    s3: SessionView<S>,
)
    requires
        dispatch_post(s0, ModelingCmd::SceneClearAll {  }, s1, r0),
        dispatch_post(s1, ModelingCmd::GetEntityType { entity_id: id }, s2, r1),
        dispatch_post(s1, ModelingCmd::GetSketchModePlane {  }, s3, r2),
    ensures
        fails_with(r1, entity_missing(id)),
        fails_with(r2, "Not in sketch mode"@),
        s1.units == s0.units,
        s1.camera == s0.camera,
{
}

/// Entering sketch mode with a normal makes the sketch plane report that
/// normal (the `z` axis when none is given); leaving it makes the query fail.
pub proof fn law_sketch_mode_plane<S>(
    s0: SessionView<S>,
    entity_id: u128,
    normal: Option<Point3d>,
    r0: CmdResult,
    s1: SessionView<S>,
    r1: CmdResult,
    s2: SessionView<S>,
    r2: CmdResult,
    s3: SessionView<S>,
    r3: CmdResult,
    s4: SessionView<S>,
)
    requires
        dispatch_post(
            s0,
            ModelingCmd::EnableSketchMode {
                entity_id,
                planar_normal: normal,
                animated: None,
                adjust_camera: None,
                ortho: None,
            },
            s1,
            r0,
        ),
        dispatch_post(s1, ModelingCmd::GetSketchModePlane {  }, s2, r1),
        dispatch_post(s1, ModelingCmd::SketchModeDisable {  }, s3, r2),
        dispatch_post(s3, ModelingCmd::GetSketchModePlane {  }, s4, r3),
    ensures
        r1 == Ok::<OkModelingCmdResponse, String>(
            OkModelingCmdResponse::GetSketchModePlane {
                data: GetSketchModePlaneData {
                    origin: origin(),
                    x_axis: sketch_mode_for(entity_id, normal).plane_x_axis,
                    y_axis: sketch_mode_for(entity_id, normal).plane_y_axis,
                    z_axis: match normal {
                        Some(n) => n,
                        None => unit_z(),
                    },
                },
            },
        ),
        fails_with(r3, "Not in sketch mode"@),
{
}

/// The units set last survive clearing the scene.
pub proof fn law_units_survive_clear<S>(
    s0: SessionView<S>,
    unit: UnitLength,
    r0: CmdResult,
    s1: SessionView<S>,
    r1: CmdResult,
    s2: SessionView<S>,
)
    requires
        dispatch_post(s0, ModelingCmd::SetSceneUnits { unit }, s1, r0),
        dispatch_post(s1, ModelingCmd::SceneClearAll {  }, s2, r1),
    ensures
        s2.units == unit,
{
}

/// A look-at with a center makes the camera settings report that center.
pub proof fn law_look_at_then_settings<S>(
    s0: SessionView<S>,
    center: Point3d,
    r0: CmdResult,
    s1: SessionView<S>,
    r1: CmdResult,
    s2: SessionView<S>,
)
    requires
        dispatch_post(
            s0,
            ModelingCmd::DefaultCameraLookAt {
                center: Some(center),
                eye: None,
                up: None,
                vantage: None,
                sequence: None,
            },
            s1,
            r0,
        ),
        dispatch_post(s1, ModelingCmd::DefaultCameraGetSettings {  }, s2, r1),
    ensures
        r1 matches Ok(OkModelingCmdResponse::DefaultCameraGetSettings { data }) && data.center
            == center && data.pos == s0.camera.position,
{
}


// ---------------------------------------------------------------------
// The entity graph

/// Entity `c` exists and names `k` as its parent.
pub open spec fn links_back<S>(v: SessionView<S>, k: u128, c: u128) -> bool {
    v.entities.contains_key(c) && v.entities[c].parent_id == Some(k)
}

/// Entity `k` is stored under its own identifier, lists no child twice,
/// every child names it as parent, and its parent, if any, exists.
pub open spec fn entity_ok<S>(v: SessionView<S>, k: u128) -> bool {
    let e = v.entities[k];
    &&& e.id == k
    &&& e.children.no_duplicates()
    &&& forall|i: int| 0 <= i < e.children.len() ==> links_back(v, k, #[trigger] e.children[i])
    &&& e.parent_id matches Some(p) ==> v.entities.contains_key(p)
}

/// Path `k` is stored under its own identifier and has an entity of kind
/// path.
pub open spec fn path_ok<S>(v: SessionView<S>, k: u128) -> bool {
    &&& v.paths[k].id == k
    &&& v.entities.contains_key(k)
    &&& v.entities[k].entity_type == EntityType::Path
}

/// The session's entity graph is well formed.
pub open spec fn graph_ok<S>(v: SessionView<S>) -> bool {
    &&& forall|k: u128| #[trigger] v.entities.contains_key(k) ==> entity_ok(v, k)
    &&& forall|k: u128| #[trigger] v.paths.contains_key(k) ==> path_ok(v, k)
}

/// `id` names no entity and no path yet.
pub open spec fn fresh<S>(v: SessionView<S>, id: u128) -> bool {
    !v.entities.contains_key(id) && !v.paths.contains_key(id)
}

/// Every identifier that the response reports as new is fresh in `v`
/// (and the ones an extrusion reports are distinct).
pub open spec fn new_ids_fresh<S>(v: SessionView<S>, r: CmdResult) -> bool {
    match r {
        Ok(OkModelingCmdResponse::StartPath { data }) => fresh(v, data.path_id),
        Ok(OkModelingCmdResponse::ClosePath { data }) => fresh(v, data.face_id),
        Ok(OkModelingCmdResponse::Extrude { data }) => {
            &&& data.face_ids@.len() == 1
            &&& data.edge_ids@.len() == 1
            &&& fresh(v, data.solid_id)
            &&& fresh(v, data.face_ids@[0])
            &&& fresh(v, data.edge_ids@[0])
            &&& data.solid_id != data.face_ids@[0]
            &&& data.solid_id != data.edge_ids@[0]
            &&& data.face_ids@[0] != data.edge_ids@[0]
        },
        Ok(OkModelingCmdResponse::Revolve { data }) => fresh(v, data.solid_id),
        Ok(OkModelingCmdResponse::MakePlane { data }) => fresh(v, data.plane_id),
        Ok(OkModelingCmdResponse::ImportFiles { data }) => fresh(v, data.object_id),
        _ => true,
    }
}

/// Adding entity `e` under a fresh `id`, with no children and an existing
/// parent (or none), keeps the graph well formed.
proof fn lemma_add_leaf<S>(v: SessionView<S>, id: u128, e: EntityView<S>)
    requires
        graph_ok(v),
        fresh(v, id),
        e.id == id,
        e.children.len() == 0,
        e.parent_id matches Some(p) ==> v.entities.contains_key(p),
    ensures
        graph_ok(SessionView { entities: v.entities.insert(id, e), ..v }),
{
    let w = SessionView { entities: v.entities.insert(id, e), ..v };
    assert forall|k: u128| #[trigger] w.entities.contains_key(k) implies entity_ok(w, k) by {
        if k != id {
            assert(entity_ok(v, k));
            let ev = v.entities[k];
            assert forall|i: int| 0 <= i < ev.children.len() implies links_back(
                w,
                k,
                #[trigger] ev.children[i],
            ) by {
                assert(links_back(v, k, ev.children[i]));
            }
        } else {
            assert(e.children =~= Seq::<u128>::empty());
        }
    }
    assert forall|k: u128| #[trigger] w.paths.contains_key(k) implies path_ok(w, k) by {
        assert(path_ok(v, k));
    }
}

/// Changing only fields other than id, kind, parent and children of an
/// existing entity keeps the graph well formed.
proof fn lemma_touch_entity<S>(v: SessionView<S>, id: u128, e: EntityView<S>)
    requires
        graph_ok(v),
        v.entities.contains_key(id),
        e.id == v.entities[id].id,
        e.entity_type == v.entities[id].entity_type,
        e.parent_id == v.entities[id].parent_id,
        e.children == v.entities[id].children,
    ensures
        graph_ok(SessionView { entities: v.entities.insert(id, e), ..v }),
{
    let w = SessionView { entities: v.entities.insert(id, e), ..v };
    assert forall|k: u128| #[trigger] w.entities.contains_key(k) implies entity_ok(w, k) by {
        assert(entity_ok(v, k));
        let ev = w.entities[k];
        assert forall|i: int| 0 <= i < ev.children.len() implies links_back(
            w,
            k,
            #[trigger] ev.children[i],
        ) by {
            assert(links_back(v, k, ev.children[i]));
        }
    }
    assert forall|k: u128| #[trigger] w.paths.contains_key(k) implies path_ok(w, k) by {
        assert(path_ok(v, k));
    }
}

/// Changing a path's pen, segments or closed flag keeps the graph well
/// formed.
proof fn lemma_touch_path<S>(v: SessionView<S>, id: u128, p: PathView)
    requires
        graph_ok(v),
        v.paths.contains_key(id),
        p.id == id,
    ensures
        graph_ok(SessionView { paths: v.paths.insert(id, p), ..v }),
{
    let w = SessionView { paths: v.paths.insert(id, p), ..v };
    assert forall|k: u128| #[trigger] w.entities.contains_key(k) implies entity_ok(w, k) by {
        assert(entity_ok(v, k));
        let ev = w.entities[k];
        assert forall|i: int| 0 <= i < ev.children.len() implies links_back(
            w,
            k,
            #[trigger] ev.children[i],
        ) by {
            assert(links_back(v, k, ev.children[i]));
        }
    }
    assert forall|k: u128| #[trigger] w.paths.contains_key(k) implies path_ok(w, k) by {
        assert(path_ok(v, k));
    }
}

proof fn lemma_start_path_ok<S>(v: SessionView<S>, id: u128)
    requires
        graph_ok(v),
        fresh(v, id),
    ensures
        graph_ok(path_started(v, id)),
{
    let e = EntityView::<S>::fresh(id, EntityType::Path, None, seq![]);
    lemma_add_leaf(v, id, e);
    let w1 = SessionView { entities: v.entities.insert(id, e), ..v };
    let w = path_started(v, id);
    assert(w.entities == w1.entities);
    assert forall|k: u128| #[trigger] w.entities.contains_key(k) implies entity_ok(w, k) by {
        assert(entity_ok(w1, k));
        let ev = w.entities[k];
        assert forall|i: int| 0 <= i < ev.children.len() implies links_back(
            w,
            k,
            #[trigger] ev.children[i],
        ) by {
            assert(links_back(w1, k, ev.children[i]));
        }
    }
    assert forall|k: u128| #[trigger] w.paths.contains_key(k) implies path_ok(w, k) by {
        if k != id {
            assert(path_ok(v, k));
        }
    }
}

proof fn lemma_face_added_ok<S>(v: SessionView<S>, path: u128, face: u128, s: S)
    requires
        graph_ok(v),
        fresh(v, face),
        v.paths.contains_key(path),
    ensures
        graph_ok(face_added(v, path, face, s)),
{
    assert(path_ok(v, path));
    let fe = EntityView {
        id: face,
        entity_type: EntityType::Face,
        parent_id: Some(path),
        children: Seq::<u128>::empty(),
        visible: true,
        shape: Some(s),
    };
    lemma_add_leaf(v, face, fe);
    let w1 = SessionView { entities: v.entities.insert(face, fe), ..v };
    let w = face_added(v, path, face, s);
    let pe = w1.entities[path];
    assert(w.entities == w1.entities.insert(
        path,
        EntityView { children: pe.children.push(face), ..pe },
    ));
    assert(entity_ok(w1, path));
    assert forall|k: u128| #[trigger] w.entities.contains_key(k) implies entity_ok(w, k) by {
        assert(entity_ok(w1, k));
        let ev = w.entities[k];
        assert forall|i: int| 0 <= i < ev.children.len() implies links_back(
            w,
            k,
            #[trigger] ev.children[i],
        ) by {
            if k == path && i == ev.children.len() - 1 {
                assert(ev.children[i] == face);
            } else {
                assert(links_back(w1, k, ev.children[i]));
            }
        }
        if k == path {
            assert(!pe.children.contains(face)) by {
                if pe.children.contains(face) {
                    let j = choose|j: int| 0 <= j < pe.children.len() && pe.children[j] == face;
                    assert(links_back(v, path, pe.children[j]));
                }
            }
            assert forall|a: int, b: int|
                0 <= a < ev.children.len() && 0 <= b < ev.children.len() && a != b implies
                ev.children[a] != ev.children[b] by {
                if a == ev.children.len() - 1 {
                    assert(pe.children[b] != face);
                } else if b == ev.children.len() - 1 {
                    assert(pe.children[a] != face);
                }
            }
        }
    }
    assert forall|k: u128| #[trigger] w.paths.contains_key(k) implies path_ok(w, k) by {
        assert(path_ok(w1, k));
    }
}

proof fn lemma_extruded_ok<S>(
    v: SessionView<S>,
    target: u128,
    solid: u128,
    cap: u128,
    edge: u128,
    s: S,
)
    requires
        graph_ok(v),
        v.entities.contains_key(target),
        fresh(v, solid),
        fresh(v, cap),
        fresh(v, edge),
        solid != cap,
        solid != edge,
        cap != edge,
    ensures
        graph_ok(extruded(v, target, solid, cap, edge, s)),
{
    let w = extruded(v, target, solid, cap, edge, s);
    assert forall|k: u128| #[trigger] w.entities.contains_key(k) implies entity_ok(w, k) by {
        if k == solid {
            let ev = w.entities[k];
            assert(ev.children == seq![cap, edge]);
            assert forall|i: int| 0 <= i < ev.children.len() implies links_back(
                w,
                k,
                #[trigger] ev.children[i],
            ) by {
                if i == 0 {
                    assert(ev.children[i] == cap);
                } else {
                    assert(ev.children[i] == edge);
                }
            }
        } else if k == cap || k == edge {
            assert(w.entities[k].children =~= Seq::<u128>::empty());
        } else {
            assert(entity_ok(v, k));
            let ev = w.entities[k];
            assert forall|i: int| 0 <= i < ev.children.len() implies links_back(
                w,
                k,
                #[trigger] ev.children[i],
            ) by {
                assert(links_back(v, k, ev.children[i]));
            }
        }
    }
    assert forall|k: u128| #[trigger] w.paths.contains_key(k) implies path_ok(w, k) by {
        assert(path_ok(v, k));
    }
}

/// Under fresh new identifiers, every command keeps the entity graph well
/// formed: entities sit under their own identifiers, children name their
/// parent and are listed once, parents exist, and every path has a path
/// entity.
pub proof fn law_dispatch_keeps_graph<S>(
    old: SessionView<S>,
    cmd: ModelingCmd,
    new: SessionView<S>,
    r: CmdResult,
)
    requires
        graph_ok(old),
        dispatch_post(old, cmd, new, r),
        new_ids_fresh(old, r),
    ensures
        graph_ok(new),
{
    match cmd {
        ModelingCmd::StartPath {} => {
            let data = r->Ok_0->StartPath_data;
            lemma_start_path_ok(old, data.path_id);
        },
        ModelingCmd::MovePathPen { path, to } => {
            if old.paths.contains_key(path) {
                assert(path_ok(old, path));
                lemma_touch_path(old, path, PathView { pen_position: Some(to), ..old.paths[path] });
            }
        },
        ModelingCmd::ExtendPath { path, segment } => {
            if old.paths.contains_key(path) && old.paths[path].pen_position is Some {
                assert(path_ok(old, path));
                let from = old.paths[path].pen_position.unwrap();
                let to = new.paths[path].pen_position.unwrap();
                lemma_touch_path(
                    old,
                    path,
                    path_extended(old, path, from, segment, to).paths[path],
                );
            }
        },
        ModelingCmd::ClosePath { path_id } => {
            if old.paths.contains_key(path_id) {
                assert(path_ok(old, path_id));
                let closed = path_closed(old, path_id);
                lemma_touch_path(old, path_id, closed.paths[path_id]);
                if old.paths[path_id].segments.len() != 0 {
                    let data = r->Ok_0->ClosePath_data;
                    let s = choose|s: S| #[trigger]
                        face_added(path_closed(old, path_id), path_id, data.face_id, s) == new;
                    lemma_face_added_ok(closed, path_id, data.face_id, s);
                }
            }
        },
        ModelingCmd::Extrude { target, .. } => {
            if old.shape_of(target) is Some {
                let data = r->Ok_0->Extrude_data;
                let s = choose|s: S| #[trigger]
                    extruded(
                        old,
                        target,
                        data.solid_id,
                        data.face_ids@[0],
                        data.edge_ids@[0],
                        s,
                    ) == new;
                lemma_extruded_ok(
                    old,
                    target,
                    data.solid_id,
                    data.face_ids@[0],
                    data.edge_ids@[0],
                    s,
                );
            }
        },
        ModelingCmd::Revolve { target, .. } => {
            if old.shape_of(target) is Some {
                let data = r->Ok_0->Revolve_data;
                let s = choose|s: S| #[trigger] revolved(old, target, data.solid_id, s) == new;
                lemma_add_leaf(
                    old,
                    data.solid_id,
                    revolved(old, target, data.solid_id, s).entities[data.solid_id],
                );
            }
        },
        ModelingCmd::BooleanUnion { targets } => {
            if targets@.len() >= 2 && crate::commands::all_have_shapes(old, targets@) {
                assert(old.shape_of(targets@[0]) is Some);
                let s = choose|s: S| #[trigger] with_shape(old, targets@[0], s) == new;
                lemma_touch_entity(
                    old,
                    targets@[0],
                    with_shape(old, targets@[0], s).entities[targets@[0]],
                );
            }
        },
        ModelingCmd::BooleanIntersect { targets } => {
            if targets@.len() >= 2 && crate::commands::all_have_shapes(old, targets@) {
                assert(old.shape_of(targets@[0]) is Some);
                let s = choose|s: S| #[trigger] with_shape(old, targets@[0], s) == new;
                lemma_touch_entity(
                    old,
                    targets@[0],
                    with_shape(old, targets@[0], s).entities[targets@[0]],
                );
            }
        },
        ModelingCmd::BooleanSubtract { target, tool } => {
            if old.shape_of(target) is Some && old.shape_of(tool) is Some {
                let s = choose|s: S| #[trigger] with_shape(old, target, s) == new;
                lemma_touch_entity(old, target, with_shape(old, target, s).entities[target]);
            }
        },
        ModelingCmd::MakePlane { .. } => {
            let data = r->Ok_0->MakePlane_data;
            lemma_add_leaf(
                old,
                data.plane_id,
                EntityView::fresh(data.plane_id, EntityType::Plane, None, seq![]),
            );
        },
        ModelingCmd::ImportFiles { .. } => {
            if new != old {
                let data = r->Ok_0->ImportFiles_data;
                let s = choose|s: S| #[trigger] imported(old, data.object_id, s) == new;
                lemma_add_leaf(
                    old,
                    data.object_id,
                    imported(old, data.object_id, s).entities[data.object_id],
                );
            }
        },
        ModelingCmd::ObjectVisible { object_id, hidden } => {
            if old.entities.contains_key(object_id) {
                lemma_touch_entity(
                    old,
                    object_id,
                    EntityView { visible: !hidden, ..old.entities[object_id] },
                );
            }
        },
        _ => {
            assert forall|k: u128| #[trigger] new.entities.contains_key(k) implies entity_ok(
                new,
                k,
            ) by {
                assert(entity_ok(old, k));
                let ev = new.entities[k];
                assert forall|i: int| 0 <= i < ev.children.len() implies links_back(
                    new,
                    k,
                    #[trigger] ev.children[i],
                ) by {
                    assert(links_back(old, k, ev.children[i]));
                }
            }
            assert forall|k: u128| #[trigger] new.paths.contains_key(k) implies path_ok(new, k) by {
                assert(path_ok(old, k));
            }
        },
    }
}

/// `cmd` enters or leaves sketch mode, or clears the scene.
pub open spec fn touches_sketch_mode(cmd: ModelingCmd) -> bool {
    ||| cmd is EnableSketchMode
    ||| cmd is SketchModeDisable
    ||| cmd is SceneClearAll
}

/// Every command other than entering or leaving sketch mode and clearing
/// the scene leaves the sketch mode as it was.
pub proof fn law_sketch_mode_kept<S>(
    old: SessionView<S>,
    cmd: ModelingCmd,
    new: SessionView<S>,
    r: CmdResult,
)
    requires
        dispatch_post(old, cmd, new, r),
        !touches_sketch_mode(cmd),
    ensures
        new.sketch_mode == old.sketch_mode,
{
    match cmd {
        ModelingCmd::ClosePath { path_id } => {
            if old.paths.contains_key(path_id) && old.paths[path_id].segments.len() != 0 {
                let data = r->Ok_0->ClosePath_data;
                let s = choose|s: S| #[trigger]
                    face_added(path_closed(old, path_id), path_id, data.face_id, s) == new;
            }
        },
        ModelingCmd::Extrude { target, .. } => {
            if old.shape_of(target) is Some {
                let data = r->Ok_0->Extrude_data;
                let s = choose|s: S| #[trigger]
                    extruded(
                        old,
                        target,
                        data.solid_id,
                        data.face_ids@[0],
                        data.edge_ids@[0],
                        s,
                    ) == new;
            }
        },
        ModelingCmd::Revolve { target, .. } => {
            if old.shape_of(target) is Some {
                let data = r->Ok_0->Revolve_data;
                let s = choose|s: S| #[trigger] revolved(old, target, data.solid_id, s) == new;
            }
        },
        ModelingCmd::BooleanUnion { targets } => {
            if targets@.len() >= 2 && crate::commands::all_have_shapes(old, targets@) {
                let s = choose|s: S| #[trigger] with_shape(old, targets@[0], s) == new;
            }
        },
        ModelingCmd::BooleanIntersect { targets } => {
            if targets@.len() >= 2 && crate::commands::all_have_shapes(old, targets@) {
                let s = choose|s: S| #[trigger] with_shape(old, targets@[0], s) == new;
            }
        },
        ModelingCmd::BooleanSubtract { target, tool } => {
            if old.shape_of(target) is Some && old.shape_of(tool) is Some {
                let s = choose|s: S| #[trigger] with_shape(old, target, s) == new;
            }
        },
        ModelingCmd::ImportFiles { .. } => {
            if new != old {
                let data = r->Ok_0->ImportFiles_data;
                let s = choose|s: S| #[trigger] imported(old, data.object_id, s) == new;
            }
        },
        _ => {},
    }
}

/// From step `k` on, no command touches the sketch mode, so the last
/// state has the sketch mode of state `k`.
proof fn lemma_sketch_mode_through<S>(
    states: Seq<SessionView<S>>,
    cmds: Seq<ModelingCmd>,
    results: Seq<CmdResult>,
    k: int,
)
    requires
        1 <= k <= cmds.len(),
        states.len() == cmds.len() + 1,
        results.len() == cmds.len(),
        forall|i: int|
            0 <= i < cmds.len() ==> #[trigger] dispatch_post(
                states[i],
                cmds[i],
                states[i + 1],
                results[i],
            ),
        forall|i: int| 1 <= i < cmds.len() ==> !touches_sketch_mode(#[trigger] cmds[i]),
    ensures
        states[cmds.len() as int].sketch_mode == states[k].sketch_mode,
    decreases cmds.len() - k,
{
    if k < cmds.len() {
        assert(dispatch_post(states[k], cmds[k], states[k + 1], results[k]));
        assert(!touches_sketch_mode(cmds[k]));
        law_sketch_mode_kept(states[k], cmds[k], states[k + 1], results[k]);
        lemma_sketch_mode_through(states, cmds, results, k + 1);
    }
}

/// Once sketch mode is entered with normal `normal`, the sketch plane
/// query reports the plane of that normal (the `z` axis when none is
/// given) and changes nothing, for as long as no later command enters or
/// leaves sketch mode or clears the scene: `states[i]` and `cmds[i]` lead
/// to `states[i + 1]`, the first command enters sketch mode, and the query
/// runs on the last state.
pub proof fn law_sketch_plane_persists<S>(
    states: Seq<SessionView<S>>,
    cmds: Seq<ModelingCmd>,
    results: Seq<CmdResult>,
    entity_id: u128,
    normal: Option<Point3d>,
    after: SessionView<S>,
    q: CmdResult,
)
    requires
        cmds.len() >= 1,
        states.len() == cmds.len() + 1,
        results.len() == cmds.len(),
        forall|i: int|
            0 <= i < cmds.len() ==> #[trigger] dispatch_post(
                states[i],
                cmds[i],
                states[i + 1],
                results[i],
            ),
        cmds[0] matches ModelingCmd::EnableSketchMode { entity_id: e, planar_normal: n, .. } && e
            == entity_id && n == normal,
        forall|i: int| 1 <= i < cmds.len() ==> !touches_sketch_mode(#[trigger] cmds[i]),
        dispatch_post(states.last(), ModelingCmd::GetSketchModePlane {  }, after, q),
    ensures
        q == Ok::<OkModelingCmdResponse, String>(
            OkModelingCmdResponse::GetSketchModePlane {
                data: GetSketchModePlaneData {
                    origin: origin(),
                    x_axis: sketch_mode_for(entity_id, normal).plane_x_axis,
                    y_axis: sketch_mode_for(entity_id, normal).plane_y_axis,
                    z_axis: match normal {
                        Some(n) => n,
                        None => unit_z(),
                    },
                },
            },
        ),
        after == states.last(),
{
    let sm = Some(sketch_mode_for(entity_id, normal));
    let first: int = 0;
    assert(dispatch_post(states[first], cmds[first], states[first + 1], results[first]));
    assert(states[1].sketch_mode == sm);
    lemma_sketch_mode_through(states, cmds, results, 1);
    assert(states.last() == states[cmds.len() as int]);
}

} // verus!
