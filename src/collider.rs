//! Collidable objects: a fixed capsule or a triangle mesh, each with a pose,
//! the pose of the previous tick, and a geometry slot that is written once.
use vstd::prelude::*;
use crate::vec::{Quat, Vec3, Vec4, vec3_zero, vec4_default, ONE_BITS};

verus! {

/// Backend library instance, as an opaque token.
pub type LibraryHandle = u64;

/// Backend buffer, as an opaque token.
pub type BufferHandle = u64;

/// Backend triangle-mesh resource id.
pub type MeshId = u64;

/// The backend's collision shape type of a collider.
#[derive(Clone, Copy, Debug, PartialEq, Eq, Structural)]
pub enum ShapeTag {
    Capsule,
    TriangleMesh,
}

/// What a collider writes into its slot of the geometry buffer.
#[derive(Clone, Copy, Debug, PartialEq, Eq, Structural)]
pub enum GeometrySlot {
    /// Nothing written yet; the backend must not read it.
    Unset,
    Capsule { radius: u32, half_height: u32 },
    TriangleMesh { mesh: MeshId, scale: Vec3 },
}

/// A capsule: a radius and a half-height. It owns no backend resource.
#[derive(Clone, Copy, Debug, PartialEq, Eq, Structural)]
pub struct Capsule {
    pub radius: u32,
    pub halfheight: u32,
}

/// A triangle mesh built by the backend. The two buffers and the mesh
/// resource belong to it until it is released.
#[derive(Clone, Copy, Debug, PartialEq, Eq, Structural)]
pub struct Mesh {
    pub mesh: MeshId,
    pub verts: BufferHandle,
    pub indices: BufferHandle,
}

/// The closed set of collider shapes.
#[derive(Clone, Copy, Debug, PartialEq, Eq, Structural)]
pub enum Shape {
    Capsule(Capsule),
    Mesh(Mesh),
}

/// The unit scale written for a mesh.
pub open spec fn unit_scale() -> Vec3 {
    Vec3 { x: ONE_BITS, y: ONE_BITS, z: ONE_BITS }
}

/// The slot content that a shape writes on initialization.
pub open spec fn geometry_of(s: Shape) -> GeometrySlot {
    match s {
        Shape::Capsule(c) => GeometrySlot::Capsule { radius: c.radius, half_height: c.halfheight },
        Shape::Mesh(m) => GeometrySlot::TriangleMesh { mesh: m.mesh, scale: unit_scale() },
    }
}

pub open spec fn tag_of(s: Shape) -> ShapeTag {
    match s {
        Shape::Capsule(_) => ShapeTag::Capsule,
        Shape::Mesh(_) => ShapeTag::TriangleMesh,
    }
}

/// What must happen to backend resources when a collider goes away.
#[derive(Clone, Copy, Debug, PartialEq, Eq, Structural)]
pub enum Release {
    /// The shape owns no backend resource.
    Nothing,
    /// Free both buffers and destroy the mesh through `library`.
    Free { library: LibraryHandle, verts: BufferHandle, indices: BufferHandle, mesh: MeshId },
    /// A mesh that was never bound to a library: its resources cannot be freed.
    Leak { verts: BufferHandle, indices: BufferHandle, mesh: MeshId },
}

/// The model of a collider.
pub struct ColliderView {
    pub shape: Shape,
    pub position: Vec3,
    pub rotation: Quat,
    pub prev_position: Vec3,
    pub prev_rotation: Quat,
    pub initialized: bool,
    pub library: Option<LibraryHandle>,
}

impl ColliderView {
    /// A freshly created collider of shape `s`.
    pub open spec fn fresh(s: Shape) -> ColliderView {
        ColliderView {
            shape: s,
            position: vec3_zero(),
            rotation: vec4_default(),
            prev_position: vec3_zero(),
            prev_rotation: vec4_default(),
            initialized: false,
            library: None,
        }
    }

    /// Moved to `p`, the former position kept as the previous one.
    pub open spec fn moved_to(self, p: Vec3) -> ColliderView {
        ColliderView { prev_position: self.position, position: p, ..self }
    }

    /// Turned to `r`, the former rotation kept as the previous one.
    pub open spec fn turned_to(self, r: Quat) -> ColliderView {
        ColliderView { prev_rotation: self.rotation, rotation: r, ..self }
    }

    /// After binding the library: only a mesh records it.
    pub open spec fn bound_to(self, lib: LibraryHandle) -> ColliderView {
        match self.shape {
            Shape::Mesh(_) => ColliderView { library: Some(lib), ..self },
            Shape::Capsule(_) => self,
        }
    }

    pub open spec fn release_of(self) -> Release {
        match self.shape {
            Shape::Capsule(_) => Release::Nothing,
            Shape::Mesh(m) => match self.library {
                Some(lib) => Release::Free { library: lib, verts: m.verts, indices: m.indices, mesh: m.mesh },
                None => Release::Leak { verts: m.verts, indices: m.indices, mesh: m.mesh },
            },
        }
    }
}

/// A move keeps the position it replaces: after two moves the previous
/// position is the first move's target.
pub proof fn law_set_position_snapshots(c: ColliderView, p1: Vec3, p2: Vec3)
    ensures
        c.moved_to(p1).prev_position == c.position,
        c.moved_to(p1).position == p1,
        c.moved_to(p1).moved_to(p2).prev_position == p1,
        c.moved_to(p1).moved_to(p2).position == p2,
{
}

/// A fresh collider is not initialized and bound to no library.
pub proof fn law_fresh_not_initialized(s: Shape)
    ensures
        !ColliderView::fresh(s).initialized,
        ColliderView::fresh(s).library is None,
{
}

impl Capsule {
    pub fn new(radius: u32, halfheight: u32) -> (r: Capsule)
        ensures
            r.radius == radius && r.halfheight == halfheight,
    {
        Capsule { radius, halfheight }
    }
}

/// What the backend needs to build a triangle mesh: the vertices in order,
/// an identity index list, the triangle count and the bounding box.
pub struct MeshLayout {
    pub vertices: Vec<Vec4>,
    pub indices: Vec<i32>,
    pub triangle_count: i32,
    pub lower: Vec3,
    pub upper: Vec3,
}

impl Mesh {
    /// Lays out `vertices` for the backend: vertex `i` is index `i`, and
    /// every three vertices make one triangle.
    pub fn layout(vertices: Vec<Vec4>, lower: Vec3, upper: Vec3) -> (r: MeshLayout)
        requires
            vertices@.len() <= i32::MAX,
        ensures
            r.vertices@ == vertices@,
            r.indices@.len() == vertices@.len(),
            forall|i: int| 0 <= i < vertices@.len() ==> r.indices@[i] == i,
            r.triangle_count == vertices@.len() / 3,
            r.lower == lower,
            r.upper == upper,
    {
        let n = vertices.len();
        let mut indices: Vec<i32> = Vec::new();
        let mut i: usize = 0;
        while i < n
            invariant
                i <= n,
                n <= i32::MAX,
                indices@.len() == i,
                forall|k: int| 0 <= k < i ==> indices@[k] == k,
            decreases n - i,
        {
            indices.push(i as i32);
            i += 1;
        }
        MeshLayout { vertices, indices, triangle_count: (n / 3) as i32, lower, upper }
    }

    /// Takes ownership of a mesh resource and its two buffers.
    pub fn new(mesh: MeshId, verts: BufferHandle, indices: BufferHandle) -> (r: Mesh)
        ensures
            r == (Mesh { mesh, verts, indices }),
    {
        Mesh { mesh, verts, indices }
    }
}

/// A collidable object of the scene.
pub struct Collider {
    shape: Shape,
    position: Vec3,
    rotation: Quat,
    prev_position: Vec3,
    prev_rotation: Quat,
    initialized: bool,
    library: Option<LibraryHandle>,
}

impl View for Collider {
    type V = ColliderView;

    closed spec fn view(&self) -> ColliderView {
        ColliderView {
            shape: self.shape,
            position: self.position,
            rotation: self.rotation,
            prev_position: self.prev_position,
            prev_rotation: self.prev_rotation,
            initialized: self.initialized,
            library: self.library,
        }
    }
}

impl Collider {
    /// A collider at the origin with the default rotation, not yet initialized.
    pub fn new(shape: Shape) -> (r: Collider)
        ensures
            r@ == ColliderView::fresh(shape),
    {
        Collider {
            shape,
            position: Vec3::new(),
            rotation: Vec4::new(),
            prev_position: Vec3::new(),
            prev_rotation: Vec4::new(),
            initialized: false,
            library: None,
        }
    }

    pub fn capsule(radius: u32, halfheight: u32) -> (r: Collider)
        ensures
            r@ == ColliderView::fresh(Shape::Capsule(Capsule { radius, halfheight })),
    {
        Collider::new(Shape::Capsule(Capsule::new(radius, halfheight)))
    }

    pub fn shape(&self) -> (r: Shape)
        ensures
            r == self@.shape,
    {
        self.shape
    }

    pub fn position(&self) -> (r: Vec3)
        ensures
            r == self@.position,
    {
        self.position
    }

    pub fn rotation(&self) -> (r: Quat)
        ensures
            r == self@.rotation,
    {
        self.rotation
    }

    pub fn prev_position(&self) -> (r: Vec3)
        ensures
            r == self@.prev_position,
    {
        self.prev_position
    }

    pub fn prev_rotation(&self) -> (r: Quat)
        ensures
            r == self@.prev_rotation,
    {
        self.prev_rotation
    }

    /// Keeps the current position as the previous one, then moves to `pos`.
    pub fn set_position(&mut self, pos: Vec3)
        ensures
            final(self)@ == old(self)@.moved_to(pos),
    {
        self.prev_position = self.position;
        self.position = pos;
    }

    /// Keeps the current rotation as the previous one, then turns to `rot`.
    pub fn set_rotation(&mut self, rot: Quat)
        ensures
            final(self)@ == old(self)@.turned_to(rot),
    {
        self.prev_rotation = self.rotation;
        self.rotation = rot;
    }

    pub fn is_initialized(&self) -> (r: bool)
        ensures
            r == self@.initialized,
    {
        self.initialized
    }

    pub fn shape_tag(&self) -> (r: ShapeTag)
        ensures
            r == tag_of(self@.shape),
    {
        match self.shape {
            Shape::Capsule(_) => ShapeTag::Capsule,
            Shape::Mesh(_) => ShapeTag::TriangleMesh,
        }
    }

    /// Writes this collider's geometry into slot `idx` and marks it initialized.
    pub fn initialize_geometry(&mut self, idx: usize, geometry: &mut Vec<GeometrySlot>)
        requires
            idx < old(geometry).len(),
        ensures
            final(geometry)@ == old(geometry)@.update(idx as int, geometry_of(old(self)@.shape)),
            final(self)@ == (ColliderView { initialized: true, ..old(self)@ }),
    {
        let slot = match self.shape {
            Shape::Capsule(c) => GeometrySlot::Capsule { radius: c.radius, half_height: c.halfheight },
            Shape::Mesh(m) => GeometrySlot::TriangleMesh {
                mesh: m.mesh,
                scale: Vec3::components(ONE_BITS, ONE_BITS, ONE_BITS),
            },
        };
        geometry.set(idx, slot);
        self.initialized = true;
    }

    /// Records the backend library, which a mesh needs to free its resources.
    pub fn bind_backend_handle(&mut self, library: LibraryHandle)
        ensures
            final(self)@ == old(self)@.bound_to(library),
    {
        match self.shape {
            Shape::Mesh(_) => {
                self.library = Some(library);
            },
            Shape::Capsule(_) => {},
        }
    }

    /// Gives up the collider and says what its backend resources need.
    pub fn release(self) -> (r: Release)
        ensures
            r == self@.release_of(),
    {
        match self.shape {
            Shape::Capsule(_) => Release::Nothing,
            Shape::Mesh(m) => match self.library {
                Some(lib) => Release::Free { library: lib, verts: m.verts, indices: m.indices, mesh: m.mesh },
                None => Release::Leak { verts: m.verts, indices: m.indices, mesh: m.mesh },
            },
        }
    }
}

} // verus!
