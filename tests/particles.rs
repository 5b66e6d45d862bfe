use puffyjuice::event::{Event, EventQueue, SetParticleEvent};
use puffyjuice::geometry::{make_phase, make_shape_flags, BackendCodes};
use puffyjuice::juice::{
    fresh_velocities_needed, particle_positions, tick, JuiceBuffers, LoopState, MAX_COLLIDERS,
    MAX_PARTICLES,
};
use puffyjuice::particle::{Particle, ParticleBuffers, ParticleQueue};
use puffyjuice::scene::Scene;
use puffyjuice::collider::Collider;
use puffyjuice::vec::{Vec3, Vec4};

fn v3(x: f32, y: f32, z: f32) -> Vec3 {
    Vec3::components(x.to_bits(), y.to_bits(), z.to_bits())
}

fn v4(x: f32, y: f32, z: f32) -> Vec4 {
    Vec4::components(x.to_bits(), y.to_bits(), z.to_bits(), 0.5f32.to_bits())
}

fn codes() -> BackendCodes {
    BackendCodes {
        capsule_shape: 1,
        mesh_shape: 4,
        dynamic_flag: 8,
        group_mask: 0x000f_ffff,
        flags_mask: 0x00f0_0000,
        shape_channel_mask: -16_777_216,
        self_collide: 1 << 20,
        fluid: 1 << 22,
    }
}

fn three_particles() -> Vec<Particle> {
    vec![
        Particle { pos: v3(0.0, 0.0, 0.0), vel: v3(0.0, 0.0, 0.0) },
        Particle { pos: v3(1.0, 0.0, 0.0), vel: v3(0.0, 1.0, 0.0) },
        Particle { pos: v3(2.0, 0.0, 0.0), vel: v3(0.0, 0.0, 1.0) },
    ]
}

#[test]
fn drain_three_particles() {
    let mut q = ParticleQueue::new();
    for p in three_particles() {
        q.add_particle(p);
    }
    let mut b = ParticleBuffers::new(16);
    let phase = make_phase(0, (1 << 20) | (1 << 22), &codes());
    assert_eq!(q.drain(&mut b, phase), 0);
    assert_eq!(q.particle_count, 3);
    assert!(q.particles.is_empty());
    let ps = three_particles();
    for i in 0..3 {
        assert_eq!(b.positions[i], Vec4::from(&ps[i].pos));
        assert_eq!(b.velocities[i], ps[i].vel);
        assert_eq!(b.actives[i], i as i32);
        assert_eq!(b.phases[i], phase);
    }
    assert_eq!(b.positions[3], Vec4::new());
}

#[test]
fn drain_appends_after_committed() {
    let mut q = ParticleQueue::new();
    q.add_particle(Particle { pos: v3(1.0, 1.0, 1.0), vel: v3(0.0, 0.0, 0.0) });
    let mut b = ParticleBuffers::new(8);
    q.drain(&mut b, 7);
    q.add_particle(Particle { pos: v3(2.0, 2.0, 2.0), vel: v3(3.0, 3.0, 3.0) });
    q.drain(&mut b, 7);
    assert_eq!(q.particle_count, 2);
    assert_eq!(b.positions[1], v4(2.0, 2.0, 2.0));
    assert_eq!(b.velocities[1], v3(3.0, 3.0, 3.0));
    assert_eq!(b.actives[1], 1);
}

#[test]
fn drain_twice_same_as_once() {
    let mut q = ParticleQueue::new();
    for p in three_particles() {
        q.add_particle(p);
    }
    let mut b = ParticleBuffers::new(4);
    q.drain(&mut b, 1);
    let count = q.particle_count;
    let positions = b.positions.clone();
    let velocities = b.velocities.clone();
    assert_eq!(q.drain(&mut b, 1), 0);
    assert_eq!(q.particle_count, count);
    assert_eq!(b.positions, positions);
    assert_eq!(b.velocities, velocities);
    assert!(q.particles.is_empty());
}

#[test]
fn drain_drops_what_does_not_fit() {
    let mut q = ParticleQueue::new();
    for p in three_particles() {
        q.add_particle(p);
    }
    let mut b = ParticleBuffers::new(2);
    assert_eq!(q.drain(&mut b, 1), 1);
    assert_eq!(q.particle_count, 2);
    assert!(q.particles.is_empty());
    assert_eq!(b.positions[1], v4(1.0, 0.0, 0.0));
}

#[test]
fn drain_skipped_when_full() {
    let mut q = ParticleQueue::new();
    q.add_particle(Particle { pos: v3(1.0, 1.0, 1.0), vel: v3(0.0, 0.0, 0.0) });
    let mut b = ParticleBuffers::new(1);
    q.drain(&mut b, 1);
    q.add_particle(Particle { pos: v3(2.0, 2.0, 2.0), vel: v3(0.0, 0.0, 0.0) });
    assert_eq!(q.drain(&mut b, 1), 0);
    assert_eq!(q.particle_count, 1);
    assert_eq!(q.particles.len(), 1);
    assert_eq!(b.positions[0], v4(1.0, 1.0, 1.0));
}

#[test]
fn flush_keeps_count_and_reset_keeps_pending() {
    let mut q = ParticleQueue::new();
    q.add_particle(Particle { pos: v3(1.0, 1.0, 1.0), vel: v3(0.0, 0.0, 0.0) });
    let mut b = ParticleBuffers::new(4);
    q.drain(&mut b, 1);
    q.add_particle(Particle { pos: v3(2.0, 2.0, 2.0), vel: v3(0.0, 0.0, 0.0) });
    q.flush();
    assert!(q.particles.is_empty());
    assert_eq!(q.particle_count, 1);
    q.add_particle(Particle { pos: v3(3.0, 3.0, 3.0), vel: v3(0.0, 0.0, 0.0) });
    q.reset_count();
    assert_eq!(q.particle_count, 0);
    assert_eq!(q.particles.len(), 1);
}

#[test]
fn set_particle_event_moves_every_particle() {
    let mut q = ParticleQueue::new();
    q.add_particle(Particle { pos: v3(1.0, 0.0, 0.0), vel: v3(0.0, 0.0, 0.0) });
    q.add_particle(Particle { pos: v3(2.0, 0.0, 0.0), vel: v3(0.0, 0.0, 0.0) });
    let mut buffers = JuiceBuffers::new();
    let mut scene = Scene::new();
    let mut events = EventQueue::new();
    tick(&mut buffers, &mut scene, &mut events, &mut q, 1, &codes(), &Vec::new());
    assert_eq!(q.particle_count, 2);

    events.add_event(SetParticleEvent { position: v4(5.0, 5.0, 5.0) });
    let need = fresh_velocities_needed(&q, &buffers, &events);
    assert_eq!(need, 2);
    let fresh = vec![v3(0.25, 0.5, 0.75), v3(0.125, 0.0, 0.5)];
    let report = tick(&mut buffers, &mut scene, &mut events, &mut q, 1, &codes(), &fresh);
    assert_eq!(report.active_count, 2);
    assert!(events.events.is_empty());
    let positions = particle_positions(&buffers.particles, &q);
    assert_eq!(positions, vec![v3(5.0, 5.0, 5.0), v3(5.0, 5.0, 5.0)]);
    assert_eq!(buffers.particles.velocities[0], fresh[0]);
    assert_eq!(buffers.particles.velocities[1], fresh[1]);
    assert_eq!(buffers.particles.positions[2], Vec4::new());
}

#[test]
fn event_invoke_touches_only_prefix() {
    let ev = SetParticleEvent { position: v4(9.0, 9.0, 9.0) };
    let mut ps = vec![Vec4::new(); 3];
    let mut vs = vec![Vec3::new(); 3];
    let fresh = vec![v3(1.0, 1.0, 1.0)];
    ev.invoke(&mut ps, &mut vs, 1, &fresh);
    assert_eq!(ps[0], v4(9.0, 9.0, 9.0));
    assert_eq!(vs[0], v3(1.0, 1.0, 1.0));
    assert_eq!(ps[1], Vec4::new());
    assert_eq!(vs[2], Vec3::new());
}

#[test]
fn events_run_in_order_and_queue_empties() {
    let mut q = EventQueue::new();
    q.add_event(SetParticleEvent { position: v4(1.0, 1.0, 1.0) });
    q.add_event(SetParticleEvent { position: v4(2.0, 2.0, 2.0) });
    let mut ps = vec![Vec4::new(); 2];
    let mut vs = vec![Vec3::new(); 2];
    let fresh = vec![v3(0.5, 0.5, 0.5); 2];
    q.drain(&mut ps, &mut vs, 2, &fresh);
    assert_eq!(ps, vec![v4(2.0, 2.0, 2.0); 2]);
    assert!(q.events.is_empty());
    q.add_event(SetParticleEvent { position: v4(1.0, 1.0, 1.0) });
    q.flush();
    assert!(q.events.is_empty());
}

#[test]
fn tick_reports_and_syncs() {
    let mut q = ParticleQueue::new();
    for p in three_particles() {
        q.add_particle(p);
    }
    let mut buffers = JuiceBuffers::new();
    assert_eq!(buffers.particles.capacity(), MAX_PARTICLES);
    assert_eq!(buffers.geometry.capacity(), MAX_COLLIDERS);
    let mut scene = Scene::new();
    let h = scene.add(Collider::capsule(12, 10));
    let mut events = EventQueue::new();
    let r = tick(&mut buffers, &mut scene, &mut events, &mut q, 5, &codes(), &Vec::new());
    assert_eq!(r.dropped, 0);
    assert_eq!(r.active_count, 3);
    assert_eq!(r.shape_count, 1);
    assert!(scene.get(h).unwrap().is_initialized());
    let expected_phase = (1 << 20 | 1 << 22) | -16_777_216;
    assert_eq!(buffers.particles.phases[0], expected_phase);
}

#[test]
fn positions_of_committed_particles() {
    let mut q = ParticleQueue::new();
    for p in three_particles() {
        q.add_particle(p);
    }
    let mut b = ParticleBuffers::new(8);
    assert!(particle_positions(&b, &q).is_empty());
    q.drain(&mut b, 1);
    assert_eq!(
        particle_positions(&b, &q),
        vec![v3(0.0, 0.0, 0.0), v3(1.0, 0.0, 0.0), v3(2.0, 0.0, 0.0)]
    );
    q.particle_count = 100;
    assert_eq!(particle_positions(&b, &q).len(), 8);
}

#[test]
fn phase_and_shape_flag_packing() {
    let c = codes();
    assert_eq!(make_phase(3, 1 << 20, &c), 3 | (1 << 20) | -16_777_216);
    assert_eq!(make_phase(0x00ff_ffff, 0, &c), 0x000f_ffff | -16_777_216);
    assert_eq!(make_shape_flags(4, true, &c), 4 | 8 | -16_777_216);
    assert_eq!(make_shape_flags(1, false, &c), 1 | -16_777_216);
}

#[test]
fn loop_runs_once() {
    let mut s = LoopState::new();
    assert!(!s.is_running());
    assert!(s.start());
    assert!(s.is_running());
    assert!(!s.start());
    s.stop();
    assert!(!s.is_running());
    assert!(!s.start());
    assert_eq!(s, LoopState::Stopped);
}
