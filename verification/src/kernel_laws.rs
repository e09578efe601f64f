//! Laws on which kernel call, with which arguments, produces the values
//! that commands store and report, stated over `cmd_post` in terms of the
//! commands' own inputs and the kernel's methods.

use vstd::prelude::*;
use crate::commands::{
    all_have_shapes, cmd_post, combine_chain, combine_step, dispatch_post, extruded, face_added,
    path_closed, path_wire, revolved, shapes_at, with_shape, CmdResult,
};
use crate::sketch::intersection_of;
use crate::kernel::GeometryKernel;
use crate::modeling_cmd::{ModelingCmd, PathSegment, Point3d, ONE_BITS, ZERO_BITS};
use crate::responses::OkModelingCmdResponse;
use crate::session::{PathSegmentRecord, SessionView, SketchMode};

verus! {

/// Extending a path whose pen is at `from` with an arc moves the pen to
/// the kernel's point at the arc's end angle on its circle; the start
/// angle plays no part.
pub proof fn law_arc_moves_pen_to_end_angle<K: GeometryKernel>(
    kernel: &K,
    old: SessionView<K::Shape>,
    path: u128,
    center: Point3d,
    radius: u64,
    start_angle: u64,
    end_angle: u64,
    new: SessionView<K::Shape>,
    r: CmdResult,
)
    requires
        old.paths.contains_key(path),
        old.paths[path].pen_position is Some,
        cmd_post(
            kernel,
            old,
            ModelingCmd::ExtendPath {
                path,
                segment: PathSegment::Arc { center, radius, start_angle, end_angle },
            },
            new,
            r,
        ),
    ensures
        r is Ok,
        new.paths[path].pen_position matches Some(q) && call_ensures(
            K::point_on_circle,
            (kernel, &center, radius, end_angle),
            q,
        ),
        new.paths[path].segments.last() == (PathSegmentRecord {
            from: old.paths[path].pen_position.unwrap(),
            segment: PathSegment::Arc { center, radius, start_angle, end_angle },
        }),
{
}

/// Extending a path whose pen is at `from` with a relative line moves the
/// pen to the kernel's `from + end`; an absolute line (or one that does
/// not say) moves it to `end`.
pub proof fn law_line_moves_pen<K: GeometryKernel>(
    kernel: &K,
    old: SessionView<K::Shape>,
    path: u128,
    end: Point3d,
    relative: Option<bool>,
    new: SessionView<K::Shape>,
    r: CmdResult,
)
    requires
        old.paths.contains_key(path),
        old.paths[path].pen_position is Some,
        cmd_post(
            kernel,
            old,
            ModelingCmd::ExtendPath { path, segment: PathSegment::Line { end, relative } },
            new,
            r,
        ),
    ensures
        r is Ok,
        relative == Some(true) ==> (new.paths[path].pen_position matches Some(q) && call_ensures(
            K::translate,
            (kernel, &old.paths[path].pen_position.unwrap(), &end),
            q,
        )),
        relative != Some(true) ==> new.paths[path].pen_position == Some(end),
{
}

/// Extending with a tangential arc moves the pen to its `to` point when
/// it has one; else to the kernel's `from + offset` when it has an
/// offset; else it stays at `from`.
pub proof fn law_tangential_arc_moves_pen<K: GeometryKernel>(
    kernel: &K,
    old: SessionView<K::Shape>,
    path: u128,
    offset: Option<Point3d>,
    radius: Option<u64>,
    to: Option<Point3d>,
    new: SessionView<K::Shape>,
    r: CmdResult,
)
    requires
        old.paths.contains_key(path),
        old.paths[path].pen_position is Some,
        cmd_post(
            kernel,
            old,
            ModelingCmd::ExtendPath {
                path,
                segment: PathSegment::TangentialArc { offset, radius, to },
            },
            new,
            r,
        ),
    ensures
        r is Ok,
        to matches Some(t) ==> new.paths[path].pen_position == Some(t),
        to is None && offset is Some ==> (new.paths[path].pen_position matches Some(q)
            && call_ensures(
            K::translate,
            (kernel, &old.paths[path].pen_position.unwrap(), &offset.unwrap()),
            q,
        )),
        to is None && offset is None ==> new.paths[path].pen_position
            == old.paths[path].pen_position,
{
}

/// Extruding a shape in sketch mode hands the kernel the sketch plane's
/// normal as the direction, with the requested distance, and stores the
/// kernel's solid.
pub proof fn law_extrude_along_sketch_normal<K: GeometryKernel>(
    kernel: &K,
    old: SessionView<K::Shape>,
    target: u128,
    distance: u64,
    cap: Option<bool>,
    sm: SketchMode,
    new: SessionView<K::Shape>,
    r: CmdResult,
)
    requires
        old.sketch_mode == Some(sm),
        old.shape_of(target) is Some,
        cmd_post(kernel, old, ModelingCmd::Extrude { target, distance, cap }, new, r),
    ensures
        r matches Ok(OkModelingCmdResponse::Extrude { data }) && exists|s: K::Shape|
            #[trigger] call_ensures(
                K::extrude,
                (kernel, &old.shape_of(target).unwrap(), &sm.plane_normal, distance),
                s,
            ) && new == extruded(
                old,
                target,
                data.solid_id,
                data.face_ids@[0],
                data.edge_ids@[0],
                s,
            ),
{
}

/// Outside sketch mode an extrusion runs along `z`.
pub proof fn law_extrude_along_z<K: GeometryKernel>(
    kernel: &K,
    old: SessionView<K::Shape>,
    target: u128,
    distance: u64,
    cap: Option<bool>,
    new: SessionView<K::Shape>,
    r: CmdResult,
)
    requires
        old.sketch_mode is None,
        old.shape_of(target) is Some,
        cmd_post(kernel, old, ModelingCmd::Extrude { target, distance, cap }, new, r),
    ensures
        r matches Ok(OkModelingCmdResponse::Extrude { data }) && exists|s: K::Shape|
            #[trigger] call_ensures(
                K::extrude,
                (
                    kernel,
                    &old.shape_of(target).unwrap(),
                    &Point3d { x: ZERO_BITS, y: ZERO_BITS, z: ONE_BITS },
                    distance,
                ),
                s,
            ) && new == extruded(
                old,
                target,
                data.solid_id,
                data.face_ids@[0],
                data.edge_ids@[0],
                s,
            ),
{
}

/// A union over targets `t0, t1, ..., tn` that all have shapes stores on
/// `t0` the left fold of the kernel's union: `acc[0] = t0 + t1`,
/// `acc[i] = acc[i - 1] + t(i + 1)`, and the result is the last of them.
pub proof fn law_union_is_left_fold<K: GeometryKernel>(
    kernel: &K,
    old: SessionView<K::Shape>,
    targets: Vec<u128>,
    new: SessionView<K::Shape>,
    r: CmdResult,
)
    requires
        targets@.len() >= 2,
        forall|i: int| 0 <= i < targets@.len() ==> (#[trigger] old.shape_of(targets@[i])) is Some,
        cmd_post(kernel, old, ModelingCmd::BooleanUnion { targets }, new, r),
    ensures
        r is Ok,
        exists|acc: Seq<K::Shape>|
            #![trigger acc.len()]
            {
                &&& acc.len() == targets@.len() - 1
                &&& call_ensures(
                    K::union,
                    (kernel, &shapes_at(old, targets@)[0], &shapes_at(old, targets@)[1]),
                    acc[0],
                )
                &&& forall|i: int|
                    1 <= i < acc.len() ==> call_ensures(
                        K::union,
                        (kernel, &acc[i - 1], &shapes_at(old, targets@)[i + 1]),
                        #[trigger] acc[i],
                    )
                &&& new.shape_of(targets@[0]) == Some(acc.last())
            },
{
    let t = targets@;
    assert(all_have_shapes(old, t));
    let acc = choose|acc: Seq<K::Shape>|
        #[trigger] combine_chain(kernel, false, shapes_at(old, t), acc) && with_shape(
            old,
            t[0],
            acc.last(),
        ) == new;
    assert(combine_step(kernel, false, shapes_at(old, t)[0], shapes_at(old, t)[1], acc[0]));
    assert forall|i: int| 1 <= i < acc.len() implies call_ensures(
        K::union,
        (kernel, &acc[i - 1], &shapes_at(old, t)[i + 1]),
        #[trigger] acc[i],
    ) by {
        assert(combine_step(kernel, false, acc[i - 1], shapes_at(old, t)[i + 1], acc[i]));
    }
    assert(old.entities.contains_key(t[0]));
}

/// An intersection over targets `t0, t1, ..., tn` that all have shapes
/// stores on `t0` the left fold of the kernel's `x - (x - y)`:
/// `acc[0] = t0 ∩ t1` and `acc[i] = acc[i - 1] ∩ t(i + 1)`, where step `i`
/// is the kernel's difference `diffs[i] = x - y` followed by `x - diffs[i]`.
#[verifier::spinoff_prover]
#[verifier::rlimit(40)]
pub proof fn law_intersect_is_left_fold<K: GeometryKernel>(
    kernel: &K,
    old: SessionView<K::Shape>,
    targets: Vec<u128>,
    new: SessionView<K::Shape>,
    r: CmdResult,
)
    requires
        targets@.len() >= 2,
        forall|i: int| 0 <= i < targets@.len() ==> (#[trigger] old.shape_of(targets@[i])) is Some,
        cmd_post(kernel, old, ModelingCmd::BooleanIntersect { targets }, new, r),
    ensures
        r is Ok,
        exists|acc: Seq<K::Shape>, diffs: Seq<K::Shape>|
            #![trigger acc.len(), diffs.len()]
            {
                &&& acc.len() == targets@.len() - 1
                &&& diffs.len() == acc.len()
                &&& call_ensures(
                    K::subtract,
                    (kernel, &shapes_at(old, targets@)[0], &shapes_at(old, targets@)[1]),
                    diffs[0],
                )
                &&& call_ensures(
                    K::subtract,
                    (kernel, &shapes_at(old, targets@)[0], &diffs[0]),
                    acc[0],
                )
                &&& forall|i: int|
                    #![trigger acc[i]]
                    1 <= i < acc.len() ==> call_ensures(
                        K::subtract,
                        (kernel, &acc[i - 1], &shapes_at(old, targets@)[i + 1]),
                        diffs[i],
                    ) && call_ensures(K::subtract, (kernel, &acc[i - 1], &diffs[i]), acc[i])
                &&& new.shape_of(targets@[0]) == Some(acc.last())
            },
{
    let t = targets@;
    assert(all_have_shapes(old, t));
    let acc = choose|acc: Seq<K::Shape>|
        #[trigger] combine_chain(kernel, true, shapes_at(old, t), acc) && with_shape(
            old,
            t[0],
            acc.last(),
        ) == new;
    let diffs = lemma_intersect_chain(kernel, shapes_at(old, t), acc);
    assert(old.entities.contains_key(t[0]));
    assert(new.shape_of(t[0]) == Some(acc.last()));
    assert(acc.len() == t.len() - 1 && diffs.len() == acc.len());
}

/// The left operand of step `i` of a chain: the first shape, then the
/// running result.
spec fn chain_left<T>(shapes: Seq<T>, acc: Seq<T>, i: int) -> T {
    if i == 0 {
        shapes[0]
    } else {
        acc[i - 1]
    }
}

/// A chain of intersections, step by step, as two kernel differences
/// each: the intermediate differences are returned.
proof fn lemma_intersect_chain<K: GeometryKernel>(
    kernel: &K,
    shapes: Seq<K::Shape>,
    acc: Seq<K::Shape>,
) -> (diffs: Seq<K::Shape>)
    requires
        shapes.len() >= 2,
        combine_chain(kernel, true, shapes, acc),
    ensures
        acc.len() == shapes.len() - 1,
        diffs.len() == acc.len(),
        call_ensures(K::subtract, (kernel, &shapes[0], &shapes[1]), diffs[0]),
        call_ensures(K::subtract, (kernel, &shapes[0], &diffs[0]), acc[0]),
        forall|i: int|
            #![trigger acc[i]]
            1 <= i < acc.len() ==> call_ensures(
                K::subtract,
                (kernel, &acc[i - 1], &shapes[i + 1]),
                diffs[i],
            ) && call_ensures(K::subtract, (kernel, &acc[i - 1], &diffs[i]), acc[i]),
{
    let diffs = Seq::new(
        acc.len(),
        |i: int|
            choose|d: K::Shape|
                call_ensures(
                    K::subtract,
                    (kernel, &chain_left(shapes, acc, i), &shapes[i + 1]),
                    d,
                ) && call_ensures(K::subtract, (kernel, &chain_left(shapes, acc, i), &d), acc[i]),
    );
    assert forall|i: int| 0 <= i < acc.len() implies call_ensures(
        K::subtract,
        (kernel, &chain_left(shapes, acc, i), &shapes[i + 1]),
        #[trigger] diffs[i],
    ) && call_ensures(K::subtract, (kernel, &chain_left(shapes, acc, i), &diffs[i]), acc[i]) by {
        assert(combine_step(kernel, true, chain_left(shapes, acc, i), shapes[i + 1], acc[i]));
        assert(intersection_of(kernel, chain_left(shapes, acc, i), shapes[i + 1], acc[i]));
    }
    assert(diffs[0] == diffs[0]);
    diffs
}

/// Closing a path of two segments or more asks the kernel for a closed
/// wire through exactly the recorded segments and stores the kernel's
/// face of that wire as the new face entity; a single segment gives an
/// open wire.
pub proof fn law_close_path_closes_the_wire<K: GeometryKernel>(
    kernel: &K,
    old: SessionView<K::Shape>,
    path: u128,
    new: SessionView<K::Shape>,
    r: CmdResult,
)
    requires
        old.paths.contains_key(path),
        old.paths[path].segments.len() >= 1,
        cmd_post(kernel, old, ModelingCmd::ClosePath { path_id: path }, new, r),
    ensures
        r matches Ok(OkModelingCmdResponse::ClosePath { data }) && exists|
            segments: Vec<PathSegmentRecord>,
            wire: K::Wire,
            face: K::Shape,
        |
            #![trigger call_ensures(K::face_from_wire, (kernel, &wire), face), segments@]
            {
                &&& segments@ == old.paths[path].segments
                &&& (old.paths[path].segments.len() >= 2 ==> call_ensures(
                    K::wire_from_segments,
                    (kernel, &segments, true),
                    wire,
                ))
                &&& (old.paths[path].segments.len() == 1 ==> call_ensures(
                    K::wire_from_segments,
                    (kernel, &segments, false),
                    wire,
                ))
                &&& call_ensures(K::face_from_wire, (kernel, &wire), face)
                &&& new.entities.contains_key(data.face_id)
                &&& new.entities[data.face_id].shape == Some(face)
                &&& new.entities[data.face_id].parent_id == Some(path)
                &&& new.paths[path].closed
            },
{
    let data = r->Ok_0->ClosePath_data;
    let (segments, wire, face) = choose|
        segments: Vec<PathSegmentRecord>,
        wire: K::Wire,
        face: K::Shape,
    |
        #![trigger path_wire(kernel, segments, wire), call_ensures(K::face_from_wire, (kernel, &wire), face)]
        {
            &&& segments@ == old.paths[path].segments
            &&& path_wire(kernel, segments, wire)
            &&& call_ensures(K::face_from_wire, (kernel, &wire), face)
            &&& face_added(path_closed(old, path), path, data.face_id, face) == new
        };
    assert(new.entities[data.face_id].shape == Some(face));
}

/// A look-at replaces each camera field it is given, independently of the
/// others: the center by `center`, the position by `eye` (or, without an
/// eye, by `vantage`), and the up vector by `up`; fields not given, and
/// the rest of the camera and the session, stay as they were.
pub proof fn law_look_at_replaces_given_fields<S>(
    old: SessionView<S>,
    center: Option<Point3d>,
    eye: Option<Point3d>,
    up: Option<Point3d>,
    vantage: Option<Point3d>,
    sequence: Option<u32>,
    new: SessionView<S>,
    r: CmdResult,
)
    requires
        dispatch_post(
            old,
            ModelingCmd::DefaultCameraLookAt { center, eye, up, vantage, sequence },
            new,
            r,
        ),
    ensures
        r matches Ok(OkModelingCmdResponse::Empty {}),
        new.camera.center == match center {
            Some(c) => c,
            None => old.camera.center,
        },
        new.camera.position == match eye {
            Some(e) => e,
            None => match vantage {
                Some(v) => v,
                None => old.camera.position,
            },
        },
        new.camera.up == match up {
            Some(u) => u,
            None => old.camera.up,
        },
        new.camera.fov_y == old.camera.fov_y,
        new.camera.ortho == old.camera.ortho,
        new.camera.ortho_scale == old.camera.ortho_scale,
        new.entities == old.entities,
        new.paths == old.paths,
        new.selection == old.selection,
        new.sketch_mode == old.sketch_mode,
        new.units == old.units,
{
}

/// A subtraction stores on the target the kernel's difference of the
/// target's shape and the tool's shape, in that order.
pub proof fn law_subtract_target_minus_tool<K: GeometryKernel>(
    kernel: &K,
    old: SessionView<K::Shape>,
    target: u128,
    tool: u128,
    new: SessionView<K::Shape>,
    r: CmdResult,
)
    requires
        old.shape_of(target) is Some,
        old.shape_of(tool) is Some,
        cmd_post(kernel, old, ModelingCmd::BooleanSubtract { target, tool }, new, r),
    ensures
        r is Ok,
        exists|s: K::Shape|
            #[trigger] call_ensures(
                K::subtract,
                (kernel, &old.shape_of(target).unwrap(), &old.shape_of(tool).unwrap()),
                s,
            ) && new.shape_of(target) == Some(s),
{
    let s = choose|s: K::Shape|
        #[trigger] call_ensures(
            K::subtract,
            (kernel, &old.shape_of(target).unwrap(), &old.shape_of(tool).unwrap()),
            s,
        ) && with_shape(old, target, s) == new;
    assert(new.shape_of(target) == Some(s));
}

/// A revolution stores, as a new solid whose parent is the target, the
/// kernel's revolution of the target's shape about the given axis by the
/// given angle.
pub proof fn law_revolve_about_axis<K: GeometryKernel>(
    kernel: &K,
    old: SessionView<K::Shape>,
    target: u128,
    axis: Point3d,
    angle: u64,
    tolerance: Option<u64>,
    new: SessionView<K::Shape>,
    r: CmdResult,
)
    requires
        old.shape_of(target) is Some,
        cmd_post(kernel, old, ModelingCmd::Revolve { target, axis, angle, tolerance }, new, r),
    ensures
        r matches Ok(OkModelingCmdResponse::Revolve { data }) && exists|s: K::Shape|
            #[trigger] call_ensures(
                K::revolve,
                (kernel, &old.shape_of(target).unwrap(), &axis, angle),
                s,
            ) && new.shape_of(data.solid_id) == Some(s) && new.entities[data.solid_id].parent_id
                == Some(target),
{
    let data = r->Ok_0->Revolve_data;
    let s = choose|s: K::Shape|
        #[trigger] call_ensures(
            K::revolve,
            (kernel, &old.shape_of(target).unwrap(), &axis, angle),
            s,
        ) && revolved(old, target, data.solid_id, s) == new;
    assert(new.shape_of(data.solid_id) == Some(s));
}

/// A plane's reported `z` axis is the kernel's cross product of its `x`
/// and `y` axes, in that order; origin and axes are reported as given.
pub proof fn law_plane_z_axis_is_cross<K: GeometryKernel>(
    kernel: &K,
    old: SessionView<K::Shape>,
    origin: Point3d,
    x_axis: Point3d,
    y_axis: Point3d,
    size: u64,
    clobber: Option<bool>,
    hide: Option<bool>,
    new: SessionView<K::Shape>,
    r: CmdResult,
)
    requires
        cmd_post(
            kernel,
            old,
            ModelingCmd::MakePlane { origin, x_axis, y_axis, size, clobber, hide },
            new,
            r,
        ),
    ensures
        r matches Ok(OkModelingCmdResponse::MakePlane { data }) && data.origin == origin
            && data.x_axis == x_axis && data.y_axis == y_axis && call_ensures(
            K::cross,
            (kernel, &x_axis, &y_axis),
            data.z_axis,
        ),
{
}

} // verus!
