use puffyjuice::collider::{Collider, GeometrySlot, Mesh, Release, Shape};
use puffyjuice::geometry::{BackendCodes, GeometryBuffers};
use puffyjuice::scene::Scene;
use puffyjuice::vec::{Vec3, Vec4};

fn v3(x: f32, y: f32, z: f32) -> Vec3 {
    Vec3::components(x.to_bits(), y.to_bits(), z.to_bits())
}

fn codes() -> BackendCodes {
    BackendCodes {
        capsule_shape: 1,
        mesh_shape: 4,
        dynamic_flag: 8,
        group_mask: 0x000f_ffff,
        flags_mask: 0x00f0_0000,
        shape_channel_mask: -16_777_216,
        self_collide: 1 << 20,
        fluid: 1 << 22,
    }
}

#[test]
fn add_and_remove_track_len() {
    let mut scene = Scene::new();
    let a = scene.add(Collider::capsule(1, 2));
    let b = scene.add(Collider::capsule(3, 4));
    let c = scene.add(Collider::capsule(5, 6));
    assert_eq!(scene.len(), 3);
    assert!(a >= 1 && b >= 1 && c >= 1);
    assert!(a != b && b != c && a != c);
    assert!(scene.remove(b).is_some());
    assert_eq!(scene.len(), 2);
    assert!(scene.get(b).is_none());
    assert!(!scene.isValid(b));
    assert!(scene.isValid(a) && scene.isValid(c));
    assert!(scene.remove(b).is_none());
    assert_eq!(scene.len(), 2);
}

#[test]
fn remove_unknown_handle_is_noop() {
    let mut scene = Scene::new();
    let a = scene.add(Collider::capsule(1, 2));
    let unknown = if a == 1 { 2 } else { 1 };
    assert!(scene.remove(unknown).is_none());
    assert_eq!(scene.len(), 1);
    assert!(scene.isValid(a));
    let mut empty = Scene::new();
    assert!(empty.remove(5).is_none());
    assert_eq!(empty.len(), 0);
}

#[test]
fn remove_moves_last_into_gap() {
    let mut scene = Scene::new();
    let a = scene.add(Collider::capsule(1, 1));
    let _b = scene.add(Collider::capsule(2, 2));
    let c = scene.add(Collider::capsule(3, 3));
    scene.remove(a);
    let mut geo = GeometryBuffers::new(4);
    scene.sync_geometry(9, &mut geo, &codes());
    assert_eq!(geo.geometry[0], GeometrySlot::Capsule { radius: 3, half_height: 3 });
    assert!(scene.get(c).is_some());
}

#[test]
fn set_position_snapshots_previous() {
    let mut scene = Scene::new();
    let h = scene.add(Collider::capsule(12, 10));
    assert!(scene.set_position(h, v3(1.0, 2.0, 3.0)));
    assert!(scene.set_position(h, v3(4.0, 5.0, 6.0)));
    let c = scene.get(h).unwrap();
    assert_eq!(c.prev_position(), v3(1.0, 2.0, 3.0));
    assert_eq!(c.position(), v3(4.0, 5.0, 6.0));
    let unknown = if h == 1 { 2 } else { 1 };
    assert!(!scene.set_position(unknown, v3(0.0, 0.0, 0.0)));
    assert_eq!(scene.get(h).unwrap().position(), v3(4.0, 5.0, 6.0));
}

#[test]
fn set_rotation_snapshots_previous() {
    let mut c = Collider::capsule(1, 1);
    let r1 = Vec4::components(1, 2, 3, 4);
    let r2 = Vec4::components(5, 6, 7, 8);
    c.set_rotation(r1);
    c.set_rotation(r2);
    assert_eq!(c.prev_rotation(), r1);
    assert_eq!(c.rotation(), r2);
}

#[test]
fn collider_initialized_once() {
    let mut scene = Scene::new();
    let h = scene.add(Collider::capsule(12, 10));
    assert!(!scene.get(h).unwrap().is_initialized());
    let mut geo = GeometryBuffers::new(8);
    assert_eq!(scene.sync_geometry(1, &mut geo, &codes()), 1);
    assert!(scene.get(h).unwrap().is_initialized());
    assert_eq!(geo.geometry[0], GeometrySlot::Capsule { radius: 12, half_height: 10 });
    // a second sync must not write the geometry again
    geo.geometry[0] = GeometrySlot::Unset;
    scene.sync_geometry(1, &mut geo, &codes());
    assert_eq!(geo.geometry[0], GeometrySlot::Unset);
    assert!(scene.get(h).unwrap().is_initialized());
}

#[test]
fn sync_writes_pose_and_flags() {
    let mut scene = Scene::new();
    let h = scene.add(Collider::capsule(12, 10));
    scene.set_position(h, v3(1.0, 2.0, 3.0));
    scene.set_position(h, v3(4.0, 5.0, 6.0));
    let mut geo = GeometryBuffers::new(2);
    scene.sync_geometry(1, &mut geo, &codes());
    let half = 0.5f32.to_bits();
    assert_eq!(geo.positions[0], Vec4::components(4.0f32.to_bits(), 5.0f32.to_bits(), 6.0f32.to_bits(), half));
    assert_eq!(geo.prev_positions[0], Vec4::components(1.0f32.to_bits(), 2.0f32.to_bits(), 3.0f32.to_bits(), half));
    assert_eq!(geo.flags[0], 1 | -16_777_216);
}

#[test]
fn sync_stops_at_capacity() {
    let mut scene = Scene::new();
    for i in 0..3u32 {
        scene.add(Collider::capsule(i, i));
    }
    let mut geo = GeometryBuffers::new(2);
    assert_eq!(scene.sync_geometry(1, &mut geo, &codes()), 2);
    assert_eq!(geo.geometry.len(), 2);
}

#[test]
fn mesh_collider_add_bind_remove() {
    let verts = vec![
        Vec4::components(0.0f32.to_bits(), 0.0f32.to_bits(), 0.0f32.to_bits(), 0.5f32.to_bits()),
        Vec4::components(1.0f32.to_bits(), 0.0f32.to_bits(), 0.0f32.to_bits(), 0.5f32.to_bits()),
        Vec4::components(0.0f32.to_bits(), 1.0f32.to_bits(), 0.0f32.to_bits(), 0.5f32.to_bits()),
    ];
    let layout = Mesh::layout(verts.clone(), v3(-1.0, -1.0, -1.0), v3(1.0, 1.0, 1.0));
    assert_eq!(layout.vertices, verts);
    assert_eq!(layout.indices, vec![0, 1, 2]);
    assert_eq!(layout.triangle_count, 1);
    assert_eq!(layout.lower, v3(-1.0, -1.0, -1.0));
    assert_eq!(layout.upper, v3(1.0, 1.0, 1.0));

    let mut scene = Scene::new();
    let h = scene.add(Collider::new(Shape::Mesh(Mesh::new(77, 5, 6))));
    assert!(h >= 1);
    assert!(scene.isValid(h));
    let mut geo = GeometryBuffers::new(4);
    scene.sync_geometry(42, &mut geo, &codes());
    assert_eq!(geo.geometry[0], GeometrySlot::TriangleMesh { mesh: 77, scale: v3(1.0, 1.0, 1.0) });
    let removed = scene.remove(h).unwrap();
    assert!(!scene.isValid(h));
    assert_eq!(removed.release(), Release::Free { library: 42, verts: 5, indices: 6, mesh: 77 });
}

#[test]
fn unbound_mesh_release_is_leak() {
    let c = Collider::new(Shape::Mesh(Mesh::new(1, 2, 3)));
    assert_eq!(c.release(), Release::Leak { verts: 2, indices: 3, mesh: 1 });
    let mut cap = Collider::capsule(1, 1);
    cap.bind_backend_handle(5);
    assert_eq!(cap.release(), Release::Nothing);
}

#[test]
fn clear_releases_in_scene_order() {
    let mut scene = Scene::new();
    scene.add(Collider::capsule(1, 1));
    scene.add(Collider::new(Shape::Mesh(Mesh::new(10, 11, 12))));
    let mut geo = GeometryBuffers::new(4);
    scene.sync_geometry(3, &mut geo, &codes());
    scene.add(Collider::new(Shape::Mesh(Mesh::new(20, 21, 22))));
    let released = scene.clear();
    assert_eq!(scene.len(), 0);
    assert_eq!(
        released,
        vec![
            Release::Nothing,
            Release::Free { library: 3, verts: 11, indices: 12, mesh: 10 },
            Release::Leak { verts: 21, indices: 22, mesh: 20 },
        ]
    );
}

#[test]
fn mesh_layout_empty() {
    let layout = Mesh::layout(Vec::new(), v3(0.0, 0.0, 0.0), v3(0.0, 0.0, 0.0));
    assert!(layout.indices.is_empty());
    assert_eq!(layout.triangle_count, 0);
}

#[test]
fn handles_are_positive_and_distinct() {
    let mut scene = Scene::new();
    let mut handles = Vec::new();
    for i in 0..200u32 {
        let h = scene.add(Collider::capsule(i, i));
        assert!(h >= 1);
        assert!(!handles.contains(&h));
        handles.push(h);
    }
    assert_eq!(scene.len(), 200);
    for h in &handles {
        assert!(scene.isValid(*h));
    }
}

#[test]
fn mixed_adds_and_removes_count() {
    let mut scene = Scene::new();
    let mut live = Vec::new();
    let mut adds = 0usize;
    let mut completed = 0usize;
    for round in 0..10u32 {
        let h = scene.add(Collider::capsule(round, round));
        adds += 1;
        live.push(h);
        if round % 3 == 2 {
            let gone = live.remove(0);
            if scene.remove(gone).is_some() {
                completed += 1;
            }
            assert!(scene.get(gone).is_none());
            if scene.remove(gone).is_some() {
                completed += 1;
            }
        }
        assert_eq!(scene.len(), adds - completed);
    }
    assert_eq!(completed, 3);
}
