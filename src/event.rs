//! One-shot events that act on the live particle arrays once, then go away.
use vstd::prelude::*;
use crate::vec::{Vec3, Vec4};

verus! {

/// An action on the first `num_particles` particles and their velocities.
/// `fresh` holds one velocity per particle drawn by the caller, for events
/// that re-randomize velocities.
pub trait Event {
    spec fn effect(&self, positions: Seq<Vec4>, velocities: Seq<Vec3>, num_particles: int, fresh: Seq<Vec3>) -> (Seq<Vec4>, Seq<Vec3>);

    fn invoke(&self, particles: &mut Vec<Vec4>, velocities: &mut Vec<Vec3>, num_particles: usize, fresh: &Vec<Vec3>)
        requires
            num_particles <= old(particles).len(),
            num_particles <= old(velocities).len(),
            num_particles <= fresh.len(),
        ensures
            (final(particles)@, final(velocities)@) == self.effect(old(particles)@, old(velocities)@, num_particles as int, fresh@);
}

/// Moves every particle to one position and gives it a fresh velocity.
#[derive(Clone, Copy, Debug, PartialEq, Eq, Structural)]
pub struct SetParticleEvent {
    pub position: Vec4,
}

/// The first `n` slots of `old` replaced by `f`'s values.
pub open spec fn overwrite_prefix<T>(old: Seq<T>, n: int, f: spec_fn(int) -> T) -> Seq<T> {
    Seq::new(old.len(), |j: int| if j < n { f(j) } else { old[j] })
}

impl Event for SetParticleEvent {
    open spec fn effect(&self, positions: Seq<Vec4>, velocities: Seq<Vec3>, num_particles: int, fresh: Seq<Vec3>) -> (Seq<Vec4>, Seq<Vec3>) {
        (
            overwrite_prefix(positions, num_particles, |j: int| self.position),
            overwrite_prefix(velocities, num_particles, |j: int| fresh[j]),
        )
    }

    fn invoke(&self, particles: &mut Vec<Vec4>, velocities: &mut Vec<Vec3>, num_particles: usize, fresh: &Vec<Vec3>) {
        let ghost p0 = particles@;
        let ghost v0 = velocities@;
        let mut i: usize = 0;
        while i < num_particles
            invariant
                i <= num_particles,
                num_particles <= p0.len(),
                num_particles <= v0.len(),
                num_particles <= fresh@.len(),
                particles@ == overwrite_prefix(p0, i as int, |j: int| self.position),
                velocities@ == overwrite_prefix(v0, i as int, |j: int| fresh@[j]),
            decreases num_particles - i,
        {
            particles.set(i, self.position);
            velocities.set(i, fresh[i]);
            i += 1;
            assert(particles@ =~= overwrite_prefix(p0, i as int, |j: int| self.position));
            assert(velocities@ =~= overwrite_prefix(v0, i as int, |j: int| fresh@[j]));
        }
        assert(particles@ =~= overwrite_prefix(p0, num_particles as int, |j: int| self.position));
    }
}

/// The arrays after applying `events` in order.
pub open spec fn apply_events(events: Seq<SetParticleEvent>, positions: Seq<Vec4>, velocities: Seq<Vec3>, num_particles: int, fresh: Seq<Vec3>) -> (Seq<Vec4>, Seq<Vec3>)
    decreases events.len(),
{
    if events.len() == 0 {
        (positions, velocities)
    } else {
        let (p, v) = apply_events(events.drop_last(), positions, velocities, num_particles, fresh);
        events.last().effect(p, v, num_particles, fresh)
    }
}

/// Events waiting for the next tick, in the order they were queued.
pub struct EventQueue {
    pub events: Vec<SetParticleEvent>,
}

impl EventQueue {
    pub fn new() -> (r: EventQueue)
        ensures
            r.events@ == Seq::<SetParticleEvent>::empty(),
    {
        EventQueue { events: Vec::new() }
    }

    /// Queues an event behind the others.
    pub fn add_event(&mut self, event: SetParticleEvent)
        ensures
            final(self).events@ == old(self).events@.push(event),
    {
        self.events.push(event);
    }

    /// Drops every queued event.
    pub fn flush(&mut self)
        ensures
            final(self).events@ == Seq::<SetParticleEvent>::empty(),
    {
        self.events.clear();
    }

    /// Invokes every queued event in order on the first `num_particles`
    /// particles, then empties the queue.
    pub fn drain(&mut self, particles: &mut Vec<Vec4>, velocities: &mut Vec<Vec3>, num_particles: usize, fresh: &Vec<Vec3>)
        requires
            num_particles <= old(particles).len(),
            num_particles <= old(velocities).len(),
            old(self).events@.len() > 0 ==> num_particles <= fresh.len(),
        ensures
            (final(particles)@, final(velocities)@) == apply_events(
                old(self).events@, old(particles)@, old(velocities)@, num_particles as int, fresh@),
            final(particles)@.len() == old(particles)@.len(),
            final(velocities)@.len() == old(velocities)@.len(),
            final(self).events@ == Seq::<SetParticleEvent>::empty(),
    {
        let ghost evs = self.events@;
        let ghost p0 = particles@;
        let ghost v0 = velocities@;
        let mut i: usize = 0;
        assert(evs.take(0) =~= Seq::<SetParticleEvent>::empty());
        while i < self.events.len()
            invariant
                i <= evs.len(),
                self.events@ == evs,
                num_particles <= p0.len(),
                num_particles <= v0.len(),
                evs.len() > 0 ==> num_particles <= fresh@.len(),
                particles@.len() == p0.len(),
                velocities@.len() == v0.len(),
                (particles@, velocities@) == apply_events(evs.take(i as int), p0, v0, num_particles as int, fresh@),
            decreases evs.len() - i,
        {
            let ev = self.events[i];
            ev.invoke(particles, velocities, num_particles, fresh);
            assert(evs.take(i as int + 1).drop_last() =~= evs.take(i as int));
            i += 1;
        }
        assert(evs.take(evs.len() as int) =~= evs);
        self.events.clear();
    }
}

} // verus!
