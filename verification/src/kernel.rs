//! The geometry kernel that a session works over.
//!
//! All real-number arithmetic and all solid modeling live behind this
//! trait: the embedding program implements it (over OpenCASCADE). Its
//! methods carry no contracts, so nothing verified here depends on what
//! they return; the session logic is verified for every result. The
//! library's contracts say which call produced each value that comes from
//! the kernel (`call_ensures` on the method and its arguments).

use vstd::prelude::*;
use crate::modeling_cmd::Point3d;
use crate::session::PathSegmentRecord;

verus! {

pub trait GeometryKernel {
    /// A wire built from path segments.
    type Wire;
    /// A shape (face or solid).
    type Shape;

    /// `point + offset`.
    fn translate(&self, point: &Point3d, offset: &Point3d) -> Point3d;

    /// The point at `angle` (radians) on the circle of `radius` around
    /// `center`, in the plane `z = center.z`.
    fn point_on_circle(&self, center: &Point3d, radius: u64, angle: u64) -> Point3d;

    /// The cross product `a x b`.
    fn cross(&self, a: &Point3d, b: &Point3d) -> Point3d;

    /// A wire through the recorded segments, closed back to the first
    /// point when `closed` holds and the ends are apart. The library asks
    /// for a closed wire only when there are two segments or more.
    fn wire_from_segments(&self, segments: &Vec<PathSegmentRecord>, closed: bool) -> Self::Wire;

    /// The face bounded by a wire.
    fn face_from_wire(&self, wire: &Self::Wire) -> Self::Shape;

    /// The face of `shape` extruded along `direction` by `distance`.
    fn extrude(&self, shape: &Self::Shape, direction: &Point3d, distance: u64) -> Self::Shape;

    /// The face of `shape` revolved about the axis through the origin along
    /// `axis` by `angle` radians.
    fn revolve(&self, shape: &Self::Shape, axis: &Point3d, angle: u64) -> Self::Shape;

    /// Boolean union.
    fn union(&self, a: &Self::Shape, b: &Self::Shape) -> Self::Shape;

    /// Boolean difference `a - b`.
    fn subtract(&self, a: &Self::Shape, b: &Self::Shape) -> Self::Shape;

    /// Whether the face of `shape` is planar.
    fn face_is_planar(&self, shape: &Self::Shape) -> bool;

    /// The center of mass of the face of `shape`.
    fn face_center(&self, shape: &Self::Shape) -> Point3d;

    /// The normal of the face of `shape` at its center.
    fn face_normal_at_center(&self, shape: &Self::Shape) -> Point3d;

    /// Two unit tangent vectors orthogonal to `normal`.
    fn tangent_frame(&self, normal: &Point3d) -> (Point3d, Point3d);

    /// Start and end points of the first edge of `shape`, if it has edges.
    fn first_edge_end_points(&self, shape: &Self::Shape) -> Option<(Point3d, Point3d)>;

    /// The summed volume of the shapes.
    fn total_volume(&self, shapes: &Vec<&Self::Shape>) -> u64;

    /// The summed surface area of the shapes.
    fn total_surface_area(&self, shapes: &Vec<&Self::Shape>) -> u64;

    /// The center of mass of `shape`.
    fn center_of_mass(&self, shape: &Self::Shape) -> Point3d;

    /// `a * b`.
    fn product(&self, a: u64, b: u64) -> u64;

    /// `a / b` when `b > 0`, else `0`.
    fn quotient_or_zero(&self, a: u64, b: u64) -> u64;

    /// The STEP file contents of `shape`.
    fn export_step(&self, shape: &Self::Shape) -> Result<Vec<u8>, String>;

    /// The STL file contents of `shape`.
    fn export_stl(&self, shape: &Self::Shape) -> Result<Vec<u8>, String>;

    /// The shape read from STEP file contents.
    fn import_step(&self, data: &Vec<u8>) -> Result<Self::Shape, String>;
}

} // verus!
