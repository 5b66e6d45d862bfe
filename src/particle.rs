//! Particle spawn requests, the queue that collects them, and the CPU-side
//! view of the particle buffers that the queue drains into.
use vstd::prelude::*;
use crate::vec::{Vec3, Vec4, vec3_zero, vec4_default, vec4_of};

verus! {

/// A request to spawn one particle.
#[derive(Clone, Copy, Debug, PartialEq, Eq, Structural)]
pub struct Particle {
    pub pos: Vec3,
    pub vel: Vec3,
}

/// Pending spawn requests and the number of particles already committed.
pub struct ParticleQueue {
    /// Particles committed to the buffers; new ones go from this index on.
    pub particle_count: i32,
    /// Requests in the order they were made.
    pub particles: Vec<Particle>,
}

/// The model of the particle buffers while they are mapped.
pub struct ParticleBuffersView {
    pub positions: Seq<Vec4>,
    pub velocities: Seq<Vec3>,
    pub phases: Seq<i32>,
    pub actives: Seq<i32>,
}

/// Positions, velocities, phases and the active-index list, one slot per
/// particle of the backend's fixed capacity.
pub struct ParticleBuffers {
    pub positions: Vec<Vec4>,
    pub velocities: Vec<Vec3>,
    pub phases: Vec<i32>,
    pub actives: Vec<i32>,
}

impl View for ParticleBuffers {
    type V = ParticleBuffersView;

    open spec fn view(&self) -> ParticleBuffersView {
        ParticleBuffersView {
            positions: self.positions@,
            velocities: self.velocities@,
            phases: self.phases@,
            actives: self.actives@,
        }
    }
}

impl ParticleBuffersView {
    pub open spec fn capacity(self) -> int {
        self.positions.len() as int
    }

    /// All four arrays have the same length, which fits an `i32`.
    pub open spec fn wf(self) -> bool {
        &&& self.velocities.len() == self.positions.len()
        &&& self.phases.len() == self.positions.len()
        &&& self.actives.len() == self.positions.len()
        &&& self.positions.len() <= i32::MAX
    }
}

/// How many of `n` requests fit when `c` of `cap` slots are taken.
pub open spec fn spawn_room(c: int, n: int, cap: int) -> int {
    if c >= cap {
        0
    } else if n <= cap - c {
        n
    } else {
        cap - c
    }
}

/// `old` with slots `c .. c + k` taken from `f` applied to the slot index.
pub open spec fn spliced<T>(old: Seq<T>, c: int, k: int, f: spec_fn(int) -> T) -> Seq<T> {
    Seq::new(old.len(), |j: int| if c <= j < c + k { f(j) } else { old[j] })
}

/// The buffers after spawning the first `k` of `p` from slot `c` on.
pub open spec fn spawned(b: ParticleBuffersView, c: int, p: Seq<Particle>, k: int, phase: i32) -> ParticleBuffersView {
    ParticleBuffersView {
        positions: spliced(b.positions, c, k, |j: int| vec4_of(p[j - c].pos)),
        velocities: spliced(b.velocities, c, k, |j: int| p[j - c].vel),
        phases: spliced(b.phases, c, k, |j: int| phase),
        actives: spliced(b.actives, c, k, |j: int| j as i32),
    }
}

/// The buffers after a drain of `pending` with `count` particles committed.
pub open spec fn drained_buffers(count: int, pending: Seq<Particle>, b: ParticleBuffersView, phase: i32) -> ParticleBuffersView {
    spawned(b, count, pending, spawn_room(count, pending.len() as int, b.capacity()), phase)
}

/// The committed count after a drain.
pub open spec fn drained_count(count: int, pending: Seq<Particle>, cap: int) -> int {
    count + spawn_room(count, pending.len() as int, cap)
}

/// The pending requests after a drain: all taken, unless the buffers were
/// already full, in which case the drain is skipped.
pub open spec fn drained_pending(count: int, pending: Seq<Particle>, cap: int) -> Seq<Particle> {
    if count >= cap {
        pending
    } else {
        Seq::empty()
    }
}

/// Spawning nothing leaves the buffers as they are.
proof fn lemma_spawned_none(b: ParticleBuffersView, c: int, p: Seq<Particle>, phase: i32)
    ensures
        spawned(b, c, p, 0, phase) == b,
{
    let s = spawned(b, c, p, 0, phase);
    assert(s.positions =~= b.positions);
    assert(s.velocities =~= b.velocities);
    assert(s.phases =~= b.phases);
    assert(s.actives =~= b.actives);
}

/// When every request fits, a drain commits all of them: the count grows by
/// their number and their slots hold their positions and velocities, in the
/// order in which they were made.
pub proof fn law_drain_commits_every_request(count: int, pending: Seq<Particle>, b: ParticleBuffersView, phase: i32)
    requires
        0 <= count,
        b.wf(),
        count + pending.len() <= b.capacity(),
    ensures
        drained_count(count, pending, b.capacity()) == count + pending.len(),
        drained_pending(count, pending, b.capacity()).len() == 0,
        drained_buffers(count, pending, b, phase).wf(),
        forall|i: int| 0 <= i < pending.len() ==> {
            &&& #[trigger] drained_buffers(count, pending, b, phase).positions[count + i] == vec4_of(pending[i].pos)
            &&& drained_buffers(count, pending, b, phase).velocities[count + i] == pending[i].vel
            &&& drained_buffers(count, pending, b, phase).actives[count + i] == count + i
        },
{
    let d = drained_buffers(count, pending, b, phase);
    assert forall|i: int| 0 <= i < pending.len() implies {
        &&& #[trigger] d.positions[count + i] == vec4_of(pending[i].pos)
        &&& d.velocities[count + i] == pending[i].vel
        &&& d.actives[count + i] == count + i
    } by {
        assert(count + i - count == i);
    }
}

/// Draining twice with no request in between is the same as draining once.
pub proof fn law_drain_twice_is_drain_once(count: int, pending: Seq<Particle>, b: ParticleBuffersView, phase: i32)
    requires
        0 <= count,
        b.wf(),
    ensures
        ({
            let cap = b.capacity();
            let c1 = drained_count(count, pending, cap);
            let p1 = drained_pending(count, pending, cap);
            let b1 = drained_buffers(count, pending, b, phase);
            &&& b1.capacity() == cap
            &&& drained_count(c1, p1, cap) == c1
            &&& drained_pending(c1, p1, cap) == p1
            &&& drained_buffers(c1, p1, b1, phase) == b1
        }),
{
    let cap = b.capacity();
    let c1 = drained_count(count, pending, cap);
    let p1 = drained_pending(count, pending, cap);
    let b1 = drained_buffers(count, pending, b, phase);
    assert(spawn_room(c1, p1.len() as int, cap) == 0);
    lemma_spawned_none(b1, c1, p1, phase);
}

impl ParticleBuffers {
    /// Buffers of `capacity` slots, zeroed, with inverse mass one half.
    pub fn new(capacity: usize) -> (r: ParticleBuffers)
        requires
            capacity <= i32::MAX,
        ensures
            r@.wf(),
            r@.capacity() == capacity,
            forall|j: int| 0 <= j < capacity ==> r@.positions[j] == vec4_default()
                && r@.velocities[j] == vec3_zero() && r@.phases[j] == 0 && r@.actives[j] == 0,
    {
        let mut positions: Vec<Vec4> = Vec::new();
        let mut velocities: Vec<Vec3> = Vec::new();
        let mut phases: Vec<i32> = Vec::new();
        let mut actives: Vec<i32> = Vec::new();
        let mut i: usize = 0;
        while i < capacity
            invariant
                i <= capacity,
                positions@.len() == i && velocities@.len() == i,
                phases@.len() == i && actives@.len() == i,
                forall|j: int| 0 <= j < i ==> positions@[j] == vec4_default()
                    && velocities@[j] == vec3_zero() && phases@[j] == 0 && actives@[j] == 0,
            decreases capacity - i,
        {
            positions.push(Vec4::new());
            velocities.push(Vec3::new());
            phases.push(0);
            actives.push(0);
            i += 1;
        }
        ParticleBuffers { positions, velocities, phases, actives }
    }

    pub fn capacity(&self) -> (r: usize)
        ensures
            r == self@.capacity(),
    {
        self.positions.len()
    }
}

impl ParticleQueue {
    pub open spec fn wf(&self) -> bool {
        self.particle_count >= 0
    }

    /// An empty queue with no particle committed.
    pub fn new() -> (r: ParticleQueue)
        ensures
            r.wf(),
            r.particle_count == 0,
            r.particles@ == Seq::<Particle>::empty(),
    {
        ParticleQueue { particles: Vec::new(), particle_count: 0 }
    }

    /// Appends a spawn request.
    pub fn add_particle(&mut self, particle: Particle)
        ensures
            final(self).particles@ == old(self).particles@.push(particle),
            final(self).particle_count == old(self).particle_count,
    {
        self.particles.push(particle);
    }

    /// Drops the pending requests; the committed count stays.
    pub fn flush(&mut self)
        ensures
            final(self).particles@ == Seq::<Particle>::empty(),
            final(self).particle_count == old(self).particle_count,
    {
        self.particles.clear();
    }

    /// Forgets every committed particle; the pending requests stay.
    pub fn reset_count(&mut self)
        ensures
            final(self).particles@ == old(self).particles@,
            final(self).particle_count == 0,
    {
        self.particle_count = 0;
    }

    /// Writes the pending requests, in order, into the slots from
    /// `particle_count` on, with phase `phase` and each slot active.
    /// Requests that do not fit are dropped and their number returned.
    /// With the buffers already full the drain is skipped.
    pub fn drain(&mut self, buffers: &mut ParticleBuffers, phase: i32) -> (dropped: usize)
        requires
            old(self).wf(),
            old(buffers)@.wf(),
        ensures
            final(self).wf(),
            final(buffers)@.wf(),
            final(self).particle_count == drained_count(
                old(self).particle_count as int, old(self).particles@, old(buffers)@.capacity()),
            final(self).particles@ == drained_pending(
                old(self).particle_count as int, old(self).particles@, old(buffers)@.capacity()),
            final(buffers)@ == drained_buffers(
                old(self).particle_count as int, old(self).particles@, old(buffers)@, phase),
            dropped == old(self).particles@.len() - (final(self).particle_count - old(self).particle_count)
                - final(self).particles@.len(),
    {
        let cap = buffers.positions.len();
        let c = self.particle_count as usize;
        let n = self.particles.len();
        let ghost b0 = buffers@;
        let ghost p = self.particles@;
        if c >= cap {
            proof {
                lemma_spawned_none(b0, c as int, p, phase);
            }
            return 0;
        }
        let k: usize = if n <= cap - c { n } else { cap - c };
        let mut i: usize = 0;
        proof {
            lemma_spawned_none(b0, c as int, p, phase);
        }
        while i < k
            invariant
                i <= k,
                k <= n,
                c + k <= cap,
                cap <= i32::MAX,
                cap == b0.capacity(),
                n == p.len(),
                self.particles@ == p,
                b0.wf(),
                buffers@ == spawned(b0, c as int, p, i as int, phase),
            decreases k - i,
        {
            let part = self.particles[i];
            let slot = c + i;
            buffers.positions.set(slot, Vec4::from(&part.pos));
            buffers.velocities.set(slot, part.vel);
            buffers.phases.set(slot, phase);
            buffers.actives.set(slot, slot as i32);
            i += 1;
            assert(buffers@.positions =~= spawned(b0, c as int, p, i as int, phase).positions);
            assert(buffers@.velocities =~= spawned(b0, c as int, p, i as int, phase).velocities);
            assert(buffers@.phases =~= spawned(b0, c as int, p, i as int, phase).phases);
            assert(buffers@.actives =~= spawned(b0, c as int, p, i as int, phase).actives);
        }
        self.particle_count = (c + k) as i32;
        self.particles.clear();
        n - k
    }
}

} // verus!
