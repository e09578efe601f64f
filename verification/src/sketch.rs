//! Sketch geometry: where a segment ends, and wires and faces built from
//! recorded path segments.

use vstd::prelude::*;
use crate::kernel::GeometryKernel;
use crate::modeling_cmd::{PathSegment, Point3d};
use crate::session::PathSegmentRecord;

verus! {

/// The end point of `segment` drawn from `from`, where it is one of the
/// given points: an absolute line ends at its end point, a bezier at its
/// end point, a tangential arc at its `to` point (or, with neither `to`
/// nor `offset`, at `from`), and a tangential arc-to at its `to` point.
/// `None` where the end point is computed (a relative line or an arc
/// offset is added to `from`; an arc ends on its circle).
pub open spec fn fixed_endpoint(from: Point3d, segment: PathSegment) -> Option<Point3d> {
    match segment {
        PathSegment::Line { end, relative } => {
            if relative == Some(true) {
                None
            } else {
                Some(end)
            }
        },
        PathSegment::Arc { .. } => None,
        PathSegment::Bezier { end, .. } => Some(end),
        PathSegment::TangentialArc { offset, to, .. } => match to {
            Some(t) => Some(t),
            None => match offset {
                Some(_) => None,
                None => Some(from),
            },
        },
        PathSegment::TangentialArcTo { to, .. } => Some(to),
    }
}

/// `p` is where `segment` drawn from `from` ends: the given end point
/// where the segment names one (`fixed_endpoint`); for a relative line the
/// kernel's `from + end`, for a tangential arc with only an offset the
/// kernel's `from + offset`, and for an arc the kernel's point at
/// `end_angle` on the circle of `radius` around `center`.
pub open spec fn segment_ends<K: GeometryKernel>(
    kernel: &K,
    from: Point3d,
    segment: PathSegment,
    p: Point3d,
) -> bool {
    match segment {
        PathSegment::Line { end, relative } => {
            if relative == Some(true) {
                call_ensures(K::translate, (kernel, &from, &end), p)
            } else {
                p == end
            }
        },
        PathSegment::Arc { center, radius, end_angle, .. } => call_ensures(
            K::point_on_circle,
            (kernel, &center, radius, end_angle),
            p,
        ),
        PathSegment::Bezier { end, .. } => p == end,
        PathSegment::TangentialArc { offset, to, .. } => match to {
            Some(t) => p == t,
            None => match offset {
                Some(off) => call_ensures(K::translate, (kernel, &from, &off), p),
                None => p == from,
            },
        },
        PathSegment::TangentialArcTo { to, .. } => p == to,
    }
}

/// The end point of `segment` drawn from `from`. Where the end point is
/// one of the given points (`fixed_endpoint`) it is that point; otherwise
/// the kernel computes it (`from + end`, `from + offset`, or the point at
/// `end_angle` on the arc's circle).
pub fn segment_endpoint<K: GeometryKernel>(
    kernel: &K,
    from: &Point3d,
    segment: &PathSegment,
) -> (p: Point3d)
    ensures
        fixed_endpoint(*from, *segment) matches Some(q) ==> p == q,
        segment_ends(kernel, *from, *segment, p),
{
    match segment {
        PathSegment::Line { end, relative } => {
            let rel = match relative {
                Some(b) => *b,
                None => false,
            };
            if rel {
                kernel.translate(from, end)
            } else {
                *end
            }
        },
        PathSegment::Arc { center, radius, end_angle, .. } => {
            kernel.point_on_circle(center, *radius, *end_angle)
        },
        PathSegment::Bezier { end, .. } => *end,
        PathSegment::TangentialArc { to, offset, .. } => {
            match to {
                Some(t) => *t,
                None => match offset {
                    Some(off) => kernel.translate(from, off),
                    None => *from,
                },
            }
        },
        PathSegment::TangentialArcTo { to, .. } => *to,
    }
}

/// Builds a wire from recorded path segments; fails when there are none.
/// The kernel is asked to close the wire when `closed` holds and there is
/// more than one segment.
pub fn build_wire<K: GeometryKernel>(
    kernel: &K,
    segments: &Vec<PathSegmentRecord>,
    closed: bool,
) -> (r: Result<K::Wire, String>)
    ensures
        segments@.len() == 0 <==> r is Err,
        r matches Err(e) ==> e@ == "No segments to build wire from"@,
        r matches Ok(w) ==> call_ensures(
            K::wire_from_segments,
            (kernel, segments, closed && segments@.len() > 1),
            w,
        ),
{
    if segments.len() == 0 {
        return Err(String::from_str("No segments to build wire from"));
    }
    let close = closed && segments.len() > 1;
    Ok(kernel.wire_from_segments(segments, close))
}

/// Builds a face from a closed wire; this always succeeds, with the face
/// that the kernel builds from `wire`.
pub fn build_face_from_wire<K: GeometryKernel>(kernel: &K, wire: &K::Wire) -> (r: Result<
    K::Shape,
    String,
>)
    ensures
        r matches Ok(face) && call_ensures(K::face_from_wire, (kernel, wire), face),
{
    Ok(kernel.face_from_wire(wire))
}

/// `r` is the kernel's `a - (a - b)`: its difference of `a` and its
/// difference `a - b`.
pub open spec fn intersection_of<K: GeometryKernel>(
    kernel: &K,
    a: K::Shape,
    b: K::Shape,
    r: K::Shape,
) -> bool {
    exists|d: K::Shape|
        #[trigger] call_ensures(K::subtract, (kernel, &a, &b), d) && call_ensures(
            K::subtract,
            (kernel, &a, &d),
            r,
        )
}

/// The intersection of two shapes. The kernel offers no intersection, so
/// it is computed as `a - (a - b)` (the part of `a` that lies in `b`).
pub fn intersect<K: GeometryKernel>(kernel: &K, a: &K::Shape, b: &K::Shape) -> (r: K::Shape)
    ensures
        intersection_of(kernel, *a, *b, r),
{
    let a_minus_b = kernel.subtract(a, b);
    kernel.subtract(a, &a_minus_b)
}

} // verus!
