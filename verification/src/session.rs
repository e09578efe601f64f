//! Per-connection session state: entities, in-progress sketch paths,
//! selection, sketch mode, scene units and camera.
//!
//! The session is generic over `S`, the geometry kernel's shape type: it
//! stores and hands shapes back but never looks inside one.

use std::collections::{HashMap, HashSet};
use vstd::prelude::*;
use crate::modeling_cmd::{PathSegment, Point3d, UnitLength, ONE_BITS, ZERO_BITS};

verus! {

broadcast use vstd::std_specs::hash::group_hash_axioms;

/// The kinds of entity a session holds.
#[derive(Clone, Copy, Debug, PartialEq, Eq, Structural)]
pub enum EntityType {
    Path,
    Face,
    Solid,
    Edge,
    Plane,
}

impl EntityType {
    /// The lowercase name of the kind.
    pub open spec fn name(self) -> Seq<char> {
        match self {
            EntityType::Path => "path"@,
            EntityType::Face => "face"@,
            EntityType::Solid => "solid"@,
            EntityType::Edge => "edge"@,
            EntityType::Plane => "plane"@,
        }
    }

    /// The lowercase name of the kind, as text.
    pub fn to_string(&self) -> (s: String)
        ensures
            s@ == self.name(),
    {
        match self {
            EntityType::Path => String::from_str("path"),
            EntityType::Face => String::from_str("face"),
            EntityType::Solid => String::from_str("solid"),
            EntityType::Edge => String::from_str("edge"),
            EntityType::Plane => String::from_str("plane"),
        }
    }
}

/// A stored entity.
pub struct Entity<S> {
    pub id: u128,
    pub entity_type: EntityType,
    pub parent_id: Option<u128>,
    pub children: Vec<u128>,
    pub visible: bool,
    pub shape: Option<S>,
}

/// The mathematical value of an `Entity`.
pub struct EntityView<S> {
    pub id: u128,
    pub entity_type: EntityType,
    pub parent_id: Option<u128>,
    pub children: Seq<u128>,
    pub visible: bool,
    pub shape: Option<S>,
}

impl<S> View for Entity<S> {
    type V = EntityView<S>;

    open spec fn view(&self) -> EntityView<S> {
        EntityView {
            id: self.id,
            entity_type: self.entity_type,
            parent_id: self.parent_id,
            children: self.children@,
            visible: self.visible,
            shape: self.shape,
        }
    }
}

impl<S> EntityView<S> {
    /// A fresh entity of the given kind: visible, with no shape unless one
    /// is given, and with the given parent and children.
    pub open spec fn fresh(
        id: u128,
        entity_type: EntityType,
        parent_id: Option<u128>,
        children: Seq<u128>,
    ) -> EntityView<S> {
        EntityView { id, entity_type, parent_id, children, visible: true, shape: None }
    }
}

/// A recorded path segment with the pen position it starts from.
#[derive(Clone, Copy, Debug, PartialEq, Eq, Structural)]
pub struct PathSegmentRecord {
    pub from: Point3d,
    pub segment: PathSegment,
}

/// An in-progress sketch path.
pub struct PathBuilder {
    pub id: u128,
    pub pen_position: Option<Point3d>,
    pub segments: Vec<PathSegmentRecord>,
    pub closed: bool,
}

/// The mathematical value of a `PathBuilder`.
pub struct PathView {
    pub id: u128,
    pub pen_position: Option<Point3d>,
    pub segments: Seq<PathSegmentRecord>,
    pub closed: bool,
}

impl View for PathBuilder {
    type V = PathView;

    open spec fn view(&self) -> PathView {
        PathView {
            id: self.id,
            pen_position: self.pen_position,
            segments: self.segments@,
            closed: self.closed,
        }
    }
}

/// Sketch mode state.
#[derive(Clone, Copy, Debug, PartialEq, Eq, Structural)]
pub struct SketchMode {
    pub entity_id: u128,
    pub plane_origin: Point3d,
    pub plane_normal: Point3d,
    pub plane_x_axis: Point3d,
    pub plane_y_axis: Point3d,
}

/// Camera state; `fov_y` and `ortho_scale` are `f64` bit patterns.
#[derive(Clone, Copy, Debug, PartialEq, Eq, Structural)]
pub struct CameraState {
    pub position: Point3d,
    pub center: Point3d,
    pub up: Point3d,
    pub fov_y: u64,
    pub ortho: bool,
    pub ortho_scale: u64,
}

/// The bit pattern of `45.0f64`.
pub const FORTY_FIVE_BITS: u64 = 0x4046_8000_0000_0000u64;

/// The bit pattern of `100.0f64`.
pub const HUNDRED_BITS: u64 = 0x4059_0000_0000_0000u64;

/// The origin `(0, 0, 0)`.
pub open spec fn origin() -> Point3d {
    Point3d { x: ZERO_BITS, y: ZERO_BITS, z: ZERO_BITS }
}

/// The camera a session starts with: at `(0, 0, 100)` looking at the
/// origin, `y` up, a 45 degree field of view, perspective, scale 1.
pub open spec fn default_camera() -> CameraState {
    CameraState {
        position: Point3d { x: ZERO_BITS, y: ZERO_BITS, z: HUNDRED_BITS },
        center: origin(),
        up: Point3d { x: ZERO_BITS, y: ONE_BITS, z: ZERO_BITS },
        fov_y: FORTY_FIVE_BITS,
        ortho: false,
        ortho_scale: ONE_BITS,
    }
}

impl Default for CameraState {
    fn default() -> (c: Self)
        ensures
            c == default_camera(),
    {
        CameraState {
            position: Point3d { x: ZERO_BITS, y: ZERO_BITS, z: HUNDRED_BITS },
            center: Point3d { x: ZERO_BITS, y: ZERO_BITS, z: ZERO_BITS },
            up: Point3d { x: ZERO_BITS, y: ONE_BITS, z: ZERO_BITS },
            fov_y: FORTY_FIVE_BITS,
            ortho: false,
            ortho_scale: ONE_BITS,
        }
    }
}

/// Per-connection engine session holding all entity state.
pub struct Session<S> {
    /// Entities by identifier.
    pub entities: HashMap<u128, Entity<S>>,
    /// In-progress sketch paths by identifier.
    pub paths: HashMap<u128, PathBuilder>,
    /// Selected entity identifiers.
    pub selection: HashSet<u128>,
    /// Sketch mode, when active.
    pub sketch_mode: Option<SketchMode>,
    /// Scene units.
    pub units: UnitLength,
    /// Camera state.
    pub camera: CameraState,
}

/// The mathematical value of a `Session`.
pub struct SessionView<S> {
    pub entities: Map<u128, EntityView<S>>,
    pub paths: Map<u128, PathView>,
    pub selection: Set<u128>,
    pub sketch_mode: Option<SketchMode>,
    pub units: UnitLength,
    pub camera: CameraState,
}

/// The entity map, each entity taken by its view.
pub open spec fn entity_views<S>(m: Map<u128, Entity<S>>) -> Map<u128, EntityView<S>> {
    Map::new(|k: u128| m.contains_key(k), |k: u128| m[k]@)
}

/// The path map, each path taken by its view.
pub open spec fn path_views(m: Map<u128, PathBuilder>) -> Map<u128, PathView> {
    Map::new(|k: u128| m.contains_key(k), |k: u128| m[k]@)
}

pub proof fn lemma_entity_views_insert<S>(m: Map<u128, Entity<S>>, k: u128, e: Entity<S>)
    ensures
        entity_views(m.insert(k, e)) == entity_views(m).insert(k, e@),
{
    assert(entity_views(m.insert(k, e)) =~= entity_views(m).insert(k, e@));
}

pub proof fn lemma_path_views_insert(m: Map<u128, PathBuilder>, k: u128, p: PathBuilder)
    ensures
        path_views(m.insert(k, p)) == path_views(m).insert(k, p@),
{
    assert(path_views(m.insert(k, p)) =~= path_views(m).insert(k, p@));
}

pub proof fn lemma_entity_views_remove<S>(m: Map<u128, Entity<S>>, k: u128)
    ensures
        entity_views(m.remove(k)) == entity_views(m).remove(k),
{
    assert(entity_views(m.remove(k)) =~= entity_views(m).remove(k));
}

pub proof fn lemma_path_views_remove(m: Map<u128, PathBuilder>, k: u128)
    ensures
        path_views(m.remove(k)) == path_views(m).remove(k),
{
    assert(path_views(m.remove(k)) =~= path_views(m).remove(k));
}

impl<S> View for Session<S> {
    type V = SessionView<S>;

    open spec fn view(&self) -> SessionView<S> {
        SessionView {
            entities: entity_views(self.entities@),
            paths: path_views(self.paths@),
            selection: self.selection@,
            sketch_mode: self.sketch_mode,
            units: self.units,
            camera: self.camera,
        }
    }
}

impl<S> SessionView<S> {
    /// The shape stored with entity `id`, if the entity exists and has one.
    pub open spec fn shape_of(self, id: u128) -> Option<S> {
        if self.entities.contains_key(id) {
            self.entities[id].shape
        } else {
            None
        }
    }
}

impl<S> Session<S> {
    /// An empty session: no entities, paths or selection, no sketch mode,
    /// millimetre units and the default camera.
    pub fn new() -> (s: Self)
        ensures
            s@.entities == Map::<u128, EntityView<S>>::empty(),
            s@.paths == Map::<u128, PathView>::empty(),
            s@.selection == Set::<u128>::empty(),
            s@.sketch_mode is None,
            s@.units == UnitLength::Mm,
            s@.camera == default_camera(),
    {
        let s = Session {
            entities: HashMap::new(),
            paths: HashMap::new(),
            selection: HashSet::new(),
            sketch_mode: None,
            units: UnitLength::Mm,
            camera: CameraState::default(),
        };
        assert(s@.entities =~= Map::<u128, EntityView<S>>::empty());
        assert(s@.paths =~= Map::<u128, PathView>::empty());
        s
    }

    /// Clears all entities, paths and selection and leaves sketch mode;
    /// units and camera are kept.
    pub fn clear(&mut self)
        ensures
            final(self)@.entities == Map::<u128, EntityView<S>>::empty(),
            final(self)@.paths == Map::<u128, PathView>::empty(),
            final(self)@.selection == Set::<u128>::empty(),
            final(self)@.sketch_mode is None,
            final(self)@.units == old(self)@.units,
            final(self)@.camera == old(self)@.camera,
    {
        self.entities.clear();
        self.paths.clear();
        self.selection.clear();
        self.sketch_mode = None;
        assert(self@.entities =~= Map::<u128, EntityView<S>>::empty());
        assert(self@.paths =~= Map::<u128, PathView>::empty());
    }

    /// The shape stored with entity `id`, if there is one.
    pub fn get_shape(&self, id: u128) -> (r: Option<&S>)
        ensures
            match r {
                Some(s) => self@.shape_of(id) == Some(*s),
                None => self@.shape_of(id) is None,
            },
    {
        match self.entities.get(&id) {
            Some(e) => match &e.shape {
                Some(s) => Some(s),
                None => None,
            },
            None => None,
        }
    }
}

impl<S> Default for Session<S> {
    fn default() -> (s: Self)
        ensures
            s@.entities == Map::<u128, EntityView<S>>::empty(),
            s@.paths == Map::<u128, PathView>::empty(),
            s@.selection == Set::<u128>::empty(),
            s@.sketch_mode is None,
            s@.units == UnitLength::Mm,
            s@.camera == default_camera(),
    {
        Self::new()
    }
}

impl<S> Session<S> {
    /// Stores entity `e` under `id`.
    pub fn insert_entity(&mut self, id: u128, e: Entity<S>)
        ensures
            final(self)@ == (SessionView { entities: old(self)@.entities.insert(id, e@), ..old(self)@ }),
    {
        let ghost m = self.entities@;
        self.entities.insert(id, e);
        proof {
            lemma_entity_views_insert(m, id, e);
        }
    }

    /// Removes and returns the entity stored under `id`.
    pub fn take_entity(&mut self, id: u128) -> (r: Option<Entity<S>>)
        ensures
            final(self)@ == (SessionView { entities: old(self)@.entities.remove(id), ..old(self)@ }),
            match r {
                Some(e) => old(self)@.entities.contains_key(id) && e@ == old(self)@.entities[id],
                None => !old(self)@.entities.contains_key(id),
            },
    {
        let ghost m = self.entities@;
        let r = self.entities.remove(&id);
        proof {
            lemma_entity_views_remove(m, id);
        }
        r
    }

    /// Stores path `p` under `id`.
    pub fn insert_path(&mut self, id: u128, p: PathBuilder)
        ensures
            final(self)@ == (SessionView { paths: old(self)@.paths.insert(id, p@), ..old(self)@ }),
    {
        let ghost m = self.paths@;
        self.paths.insert(id, p);
        proof {
            lemma_path_views_insert(m, id, p);
        }
    }

    /// Removes and returns the path stored under `id`.
    pub fn take_path(&mut self, id: u128) -> (r: Option<PathBuilder>)
        ensures
            final(self)@ == (SessionView { paths: old(self)@.paths.remove(id), ..old(self)@ }),
            match r {
                Some(p) => old(self)@.paths.contains_key(id) && p@ == old(self)@.paths[id],
                None => !old(self)@.paths.contains_key(id),
            },
    {
        let ghost m = self.paths@;
        let r = self.paths.remove(&id);
        proof {
            lemma_path_views_remove(m, id);
        }
        r
    }
}

} // verus!
