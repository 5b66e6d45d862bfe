//! The CPU-side view of the collider buffers, and the backend's phase and
//! shape-flag encodings.
use vstd::prelude::*;
use crate::collider::{ColliderView, GeometrySlot, ShapeTag, geometry_of, tag_of, LibraryHandle};
use crate::scene::Entry;
use crate::vec::{Quat, Vec4, vec4_of};

verus! {

/// Numeric codes of the backend, as its headers define them.
#[derive(Clone, Copy, Debug, PartialEq, Eq, Structural)]
pub struct BackendCodes {
    pub capsule_shape: i32,
    pub mesh_shape: i32,
    pub dynamic_flag: i32,
    pub group_mask: i32,
    pub flags_mask: i32,
    pub shape_channel_mask: i32,
    pub self_collide: i32,
    pub fluid: i32,
}

pub open spec fn phase_spec(group: i32, particle_flags: i32, shape_channels: i32, codes: BackendCodes) -> i32 {
    (group & codes.group_mask) | (particle_flags & codes.flags_mask) | (shape_channels & codes.shape_channel_mask)
}

pub open spec fn shape_code(tag: ShapeTag, codes: BackendCodes) -> i32 {
    match tag {
        ShapeTag::Capsule => codes.capsule_shape,
        ShapeTag::TriangleMesh => codes.mesh_shape,
    }
}

pub open spec fn shape_flags_spec(type_: i32, dynamic: bool, shape_channels: i32, codes: BackendCodes) -> i32 {
    type_ | (if dynamic { codes.dynamic_flag } else { 0i32 }) | shape_channels
}

/// The flags written for a static collider with shape `tag`.
pub open spec fn static_flags(tag: ShapeTag, codes: BackendCodes) -> i32 {
    shape_flags_spec(shape_code(tag, codes), false, codes.shape_channel_mask, codes)
}

/// The phase of a self-colliding fluid particle of group zero.
pub open spec fn fluid_phase(codes: BackendCodes) -> i32 {
    phase_spec(0, codes.self_collide | codes.fluid, codes.shape_channel_mask, codes)
}

/// Packs a group, particle flags and shape channels into one phase word.
pub fn make_phase_with_channels(group: i32, particle_flags: i32, shape_channels: i32, codes: &BackendCodes) -> (r: i32)
    ensures
        r == phase_spec(group, particle_flags, shape_channels, *codes),
{
    (group & codes.group_mask) | (particle_flags & codes.flags_mask) | (shape_channels & codes.shape_channel_mask)
}

/// A phase that collides with every shape channel.
pub fn make_phase(group: i32, particle_flags: i32, codes: &BackendCodes) -> (r: i32)
    ensures
        r == phase_spec(group, particle_flags, codes.shape_channel_mask, *codes),
{
    make_phase_with_channels(group, particle_flags, codes.shape_channel_mask, codes)
}

/// Packs a shape type, the dynamic flag and shape channels into shape flags.
pub fn make_shape_flags_with_channels(type_: i32, dynamic: bool, shape_channels: i32, codes: &BackendCodes) -> (r: i32)
    ensures
        r == shape_flags_spec(type_, dynamic, shape_channels, *codes),
{
    type_ | (if dynamic { codes.dynamic_flag } else { 0i32 }) | shape_channels
}

/// Shape flags that collide with every shape channel.
pub fn make_shape_flags(type_: i32, dynamic: bool, codes: &BackendCodes) -> (r: i32)
    ensures
        r == shape_flags_spec(type_, dynamic, codes.shape_channel_mask, *codes),
{
    make_shape_flags_with_channels(type_, dynamic, codes.shape_channel_mask, codes)
}

/// The backend's code for a shape.
pub fn shape_type_code(tag: ShapeTag, codes: &BackendCodes) -> (r: i32)
    ensures
        r == shape_code(tag, *codes),
{
    match tag {
        ShapeTag::Capsule => codes.capsule_shape,
        ShapeTag::TriangleMesh => codes.mesh_shape,
    }
}

/// The model of the collider buffers while they are mapped.
pub struct GeometryView {
    pub geometry: Seq<GeometrySlot>,
    pub positions: Seq<Vec4>,
    pub rotations: Seq<Quat>,
    pub prev_positions: Seq<Vec4>,
    pub prev_rotations: Seq<Quat>,
    pub flags: Seq<i32>,
}

impl GeometryView {
    pub open spec fn capacity(self) -> int {
        self.geometry.len() as int
    }

    pub open spec fn wf(self) -> bool {
        &&& self.positions.len() == self.geometry.len()
        &&& self.rotations.len() == self.geometry.len()
        &&& self.prev_positions.len() == self.geometry.len()
        &&& self.prev_rotations.len() == self.geometry.len()
        &&& self.flags.len() == self.geometry.len()
    }
}

/// One slot per collider of the backend's fixed capacity: geometry, current
/// and previous pose, and shape flags.
pub struct GeometryBuffers {
    pub geometry: Vec<GeometrySlot>,
    pub positions: Vec<Vec4>,
    pub rotations: Vec<Quat>,
    pub prev_positions: Vec<Vec4>,
    pub prev_rotations: Vec<Quat>,
    pub flags: Vec<i32>,
}

impl View for GeometryBuffers {
    type V = GeometryView;

    open spec fn view(&self) -> GeometryView {
        GeometryView {
            geometry: self.geometry@,
            positions: self.positions@,
            rotations: self.rotations@,
            prev_positions: self.prev_positions@,
            prev_rotations: self.prev_rotations@,
            flags: self.flags@,
        }
    }
}

impl GeometryBuffers {
    /// Buffers of `capacity` slots, every geometry slot unset.
    pub fn new(capacity: usize) -> (r: GeometryBuffers)
        ensures
            r@.wf(),
            r@.capacity() == capacity,
            forall|j: int| 0 <= j < capacity ==> r@.geometry[j] == GeometrySlot::Unset,
    {
        let mut geometry: Vec<GeometrySlot> = Vec::new();
        let mut positions: Vec<Vec4> = Vec::new();
        let mut rotations: Vec<Quat> = Vec::new();
        let mut prev_positions: Vec<Vec4> = Vec::new();
        let mut prev_rotations: Vec<Quat> = Vec::new();
        let mut flags: Vec<i32> = Vec::new();
        let mut i: usize = 0;
        while i < capacity
            invariant
                i <= capacity,
                geometry@.len() == i && positions@.len() == i && rotations@.len() == i,
                prev_positions@.len() == i && prev_rotations@.len() == i && flags@.len() == i,
                forall|j: int| 0 <= j < i ==> geometry@[j] == GeometrySlot::Unset,
            decreases capacity - i,
        {
            geometry.push(GeometrySlot::Unset);
            positions.push(Vec4::new());
            rotations.push(Vec4::new());
            prev_positions.push(Vec4::new());
            prev_rotations.push(Vec4::new());
            flags.push(0);
            i += 1;
        }
        GeometryBuffers { geometry, positions, rotations, prev_positions, prev_rotations, flags }
    }

    pub fn capacity(&self) -> (r: usize)
        ensures
            r == self@.capacity(),
    {
        self.geometry.len()
    }
}

/// How many colliders of a scene of `n` get a slot in `cap` slots.
pub open spec fn synced_len(n: int, cap: int) -> int {
    if n <= cap { n } else { cap }
}

/// A collider after its tick's sync: initialized, and bound to `lib` if it
/// was not initialized before.
pub open spec fn synced_collider(c: ColliderView, lib: LibraryHandle) -> ColliderView {
    if c.initialized {
        c
    } else {
        ColliderView { initialized: true, ..c.bound_to(lib) }
    }
}

/// The scene after a sync: the first `m` colliders are synced.
pub open spec fn synced_scene(s: Seq<Entry>, lib: LibraryHandle, m: int) -> Seq<Entry> {
    Seq::new(s.len(), |i: int| if i < m { (s[i].0, synced_collider(s[i].1, lib)) } else { s[i] })
}

/// The buffers after the first `m` colliders of `s` were written.
pub open spec fn synced_geometry(s: Seq<Entry>, g: GeometryView, m: int, codes: BackendCodes) -> GeometryView {
    GeometryView {
        geometry: Seq::new(g.geometry.len(), |i: int|
            if i < m && !s[i].1.initialized { geometry_of(s[i].1.shape) } else { g.geometry[i] }),
        positions: Seq::new(g.positions.len(), |i: int|
            if i < m { vec4_of(s[i].1.position) } else { g.positions[i] }),
        rotations: Seq::new(g.rotations.len(), |i: int|
            if i < m { s[i].1.rotation } else { g.rotations[i] }),
        prev_positions: Seq::new(g.prev_positions.len(), |i: int|
            if i < m { vec4_of(s[i].1.prev_position) } else { g.prev_positions[i] }),
        prev_rotations: Seq::new(g.prev_rotations.len(), |i: int|
            if i < m { s[i].1.prev_rotation } else { g.prev_rotations[i] }),
        flags: Seq::new(g.flags.len(), |i: int|
            if i < m { static_flags(tag_of(s[i].1.shape), codes) } else { g.flags[i] }),
    }
}

/// After one sync every collider that has a slot is initialized.
pub proof fn law_sync_initializes(s: Seq<Entry>, lib: LibraryHandle, m: int)
    requires
        0 <= m <= s.len(),
    ensures
        forall|i: int| 0 <= i < m ==> (#[trigger] synced_scene(s, lib, m)[i]).1.initialized,
{
}

/// A second sync with the same slots writes no geometry and changes no
/// collider's state: geometry is written once per collider.
pub proof fn law_second_sync_writes_no_geometry(s: Seq<Entry>, g: GeometryView, lib: LibraryHandle, m: int, codes: BackendCodes)
    requires
        0 <= m <= s.len(),
        m <= g.capacity(),
        g.wf(),
    ensures
        ({
            let s1 = synced_scene(s, lib, m);
            let g1 = synced_geometry(s, g, m, codes);
            &&& synced_scene(s1, lib, m) == s1
            &&& synced_geometry(s1, g1, m, codes).geometry == g1.geometry
        }),
{
    let s1 = synced_scene(s, lib, m);
    let g1 = synced_geometry(s, g, m, codes);
    assert(synced_scene(s1, lib, m) =~= s1);
    assert(synced_geometry(s1, g1, m, codes).geometry =~= g1.geometry);
}

} // verus!
