//! The per-tick work of the simulation loop on the mapped buffers, the
//! loop's run state, and the particle position query.
use vstd::prelude::*;
use crate::collider::LibraryHandle;
use crate::event::{EventQueue, SetParticleEvent, apply_events};
use crate::geometry::{BackendCodes, GeometryBuffers, fluid_phase, make_phase, synced_geometry, synced_len, synced_scene};
use crate::particle::{ParticleBuffers, ParticleQueue, drained_buffers, drained_count, drained_pending};
use crate::scene::Scene;
use crate::vec::{Vec3, xyz_of};

verus! {

/// Particle capacity of the backend solver.
pub const MAX_PARTICLES: usize = 13700;

/// Number of collider slots in the geometry buffers.
pub const MAX_COLLIDERS: usize = 8192;

/// Run state of the simulation loop. A loop runs once: after it stops it
/// cannot be started again.
#[derive(Clone, Copy, Debug, PartialEq, Eq, Structural)]
pub enum LoopState {
    Idle,
    Running,
    Stopped,
}

impl LoopState {
    pub fn new() -> (r: LoopState)
        ensures
            r == LoopState::Idle,
    {
        LoopState::Idle
    }

    /// Starts a loop that never ran; returns whether it did.
    pub fn start(&mut self) -> (started: bool)
        ensures
            started == (*old(self) == LoopState::Idle),
            started ==> *final(self) == LoopState::Running,
            !started ==> *final(self) == *old(self),
    {
        match *self {
            LoopState::Idle => {
                *self = LoopState::Running;
                true
            },
            _ => false,
        }
    }

    /// Asks the loop to stop; it exits at the top of its next iteration.
    pub fn stop(&mut self)
        ensures
            *final(self) == LoopState::Stopped,
    {
        *self = LoopState::Stopped;
    }

    /// Whether the loop should run another tick.
    pub fn is_running(&self) -> (r: bool)
        ensures
            r == (*self == LoopState::Running),
    {
        match *self {
            LoopState::Running => true,
            _ => false,
        }
    }
}

/// The particle and collider buffers of one solver.
pub struct JuiceBuffers {
    pub particles: ParticleBuffers,
    pub geometry: GeometryBuffers,
}

impl JuiceBuffers {
    pub open spec fn wf(&self) -> bool {
        self.particles@.wf() && self.geometry@.wf()
    }

    /// Buffers sized to the solver's particle and collider capacities.
    pub fn new() -> (r: JuiceBuffers)
        ensures
            r.wf(),
            r.particles@.capacity() == MAX_PARTICLES,
            r.geometry@.capacity() == MAX_COLLIDERS,
    {
        JuiceBuffers { particles: ParticleBuffers::new(MAX_PARTICLES), geometry: GeometryBuffers::new(MAX_COLLIDERS) }
    }
}

/// What one tick hands on to the backend step.
#[derive(Clone, Copy, Debug, PartialEq, Eq, Structural)]
pub struct TickReport {
    /// Spawn requests that found no free slot.
    pub dropped: usize,
    /// Particles the solver simulates.
    pub active_count: i32,
    /// Colliders written to the geometry buffers.
    pub shape_count: usize,
}

/// How many fresh velocities a tick needs: one per committed particle after
/// the drain, if any event is queued.
pub open spec fn fresh_needed(queue: &ParticleQueue, buffers: &JuiceBuffers, events: &EventQueue) -> int {
    if events.events@.len() == 0 {
        0
    } else {
        live_count(drained_count(queue.particle_count as int, queue.particles@, buffers.particles@.capacity()),
            buffers.particles@.capacity())
    }
}

/// The committed particles that have a slot.
pub open spec fn live_count(count: int, cap: int) -> int {
    if count <= cap { count } else { cap }
}

/// The number of fresh velocities that `tick` needs.
pub fn fresh_velocities_needed(queue: &ParticleQueue, buffers: &JuiceBuffers, events: &EventQueue) -> (r: usize)
    requires
        queue.wf(),
        buffers.wf(),
    ensures
        r == fresh_needed(queue, buffers, events),
{
    if events.events.len() == 0 {
        return 0;
    }
    let cap = buffers.particles.positions.len();
    let c = queue.particle_count as usize;
    let n = queue.particles.len();
    if c >= cap {
        cap
    } else if n <= cap - c {
        c + n
    } else {
        cap
    }
}

/// One tick's work on the mapped buffers, in order: drain the spawn queue,
/// run the queued events on the committed particles, and write every
/// collider's pose (initializing new colliders once).
pub fn tick(
    buffers: &mut JuiceBuffers,
    scene: &mut Scene,
    events: &mut EventQueue,
    queue: &mut ParticleQueue,
    library: LibraryHandle,
    codes: &BackendCodes,
    fresh: &Vec<Vec3>,
) -> (r: TickReport)
    requires
        old(buffers).wf(),
        old(scene).wf(),
        old(queue).wf(),
        fresh@.len() >= fresh_needed(old(queue), old(buffers), old(events)),
    ensures
        ({
            let c0 = old(queue).particle_count as int;
            let p0 = old(queue).particles@;
            let cap = old(buffers).particles@.capacity();
            let c1 = drained_count(c0, p0, cap);
            let b1 = drained_buffers(c0, p0, old(buffers).particles@, fluid_phase(*codes));
            let m = synced_len(old(scene)@.len() as int, old(buffers).geometry@.capacity());
            &&& final(buffers).wf()
            &&& final(scene).wf()
            &&& final(queue).wf()
            &&& final(queue).particle_count == c1
            &&& final(queue).particles@ == drained_pending(c0, p0, cap)
            &&& (final(buffers).particles.positions@, final(buffers).particles.velocities@)
                == apply_events(old(events).events@, b1.positions, b1.velocities, live_count(c1, cap), fresh@)
            &&& final(buffers).particles.phases@ == b1.phases
            &&& final(buffers).particles.actives@ == b1.actives
            &&& final(events).events@ == Seq::<SetParticleEvent>::empty()
            &&& final(scene)@ == synced_scene(old(scene)@, library, m)
            &&& final(buffers).geometry@ == synced_geometry(old(scene)@, old(buffers).geometry@, m, *codes)
            &&& r.dropped == p0.len() - (c1 - c0) - final(queue).particles@.len()
            &&& r.active_count == c1
            &&& r.shape_count == m
        }),
{
    let phase = make_phase(0, codes.self_collide | codes.fluid, codes);
    let dropped = queue.drain(&mut buffers.particles, phase);
    let committed = queue.particle_count as usize;
    let cap = buffers.particles.positions.len();
    let count = if committed <= cap { committed } else { cap };
    events.drain(&mut buffers.particles.positions, &mut buffers.particles.velocities, count, fresh);
    let shape_count = scene.sync_geometry(library, &mut buffers.geometry, codes);
    TickReport { dropped, active_count: queue.particle_count, shape_count }
}

/// The positions of the committed particles that have a slot, in slot order.
pub fn particle_positions(buffers: &ParticleBuffers, queue: &ParticleQueue) -> (r: Vec<Vec3>)
    requires
        queue.wf(),
    ensures
        r@.len() == live_count(queue.particle_count as int, buffers@.capacity()),
        forall|i: int| 0 <= i < r@.len() ==> r@[i] == xyz_of(#[trigger] buffers@.positions[i]),
{
    let cap = buffers.positions.len();
    let c = queue.particle_count as usize;
    let n = if c <= cap { c } else { cap };
    let mut out: Vec<Vec3> = Vec::new();
    let mut i: usize = 0;
    while i < n
        invariant
            i <= n,
            n <= cap,
            cap == buffers@.positions.len(),
            out@.len() == i,
            forall|k: int| 0 <= k < i ==> out@[k] == xyz_of(#[trigger] buffers@.positions[k]),
        decreases n - i,
    {
        out.push(buffers.positions[i].xyz());
        i += 1;
    }
    out
}

} // verus!
