//! The scene: colliders keyed by stable positive handles.
use vstd::prelude::*;
use vstd::seq_lib::*;
use vstd::set_lib::*;
use crate::collider::{Collider, ColliderView, LibraryHandle, Release};
use crate::geometry::{BackendCodes, GeometryBuffers, make_shape_flags, shape_type_code, synced_geometry, synced_len, synced_scene};
use crate::vec::{Quat, Vec3, Vec4};
use rand::Rng;

verus! {

/// A collider and the handle it was given.
pub struct SceneRecord {
    pub id: i32,
    pub collider: Collider,
}

/// A handle and the model of its collider.
pub type Entry = (i32, ColliderView);

/// Whether some entry of `s` carries handle `h`.
pub open spec fn has_handle(s: Seq<Entry>, h: i32) -> bool {
    exists|i: int| 0 <= i < s.len() && s[i].0 == h
}

/// Handles are positive and no two entries share one.
pub open spec fn handles_wf(s: Seq<Entry>) -> bool {
    &&& forall|i: int| 0 <= i < s.len() ==> s[i].0 >= 1
    &&& forall|i: int, j: int| 0 <= i < j < s.len() ==> s[i].0 != s[j].0
}

/// The position of the entry with handle `h`.
pub open spec fn index_of(s: Seq<Entry>, h: i32) -> int {
    choose|i: int| 0 <= i < s.len() && s[i].0 == h
}

/// Removal by handle: absent handle leaves `s` as it is; otherwise the last
/// entry takes the place of the removed one.
pub open spec fn removed(s: Seq<Entry>, h: i32) -> Seq<Entry> {
    if has_handle(s, h) {
        s.update(index_of(s, h), s.last()).drop_last()
    } else {
        s
    }
}

/// An unordered collection of colliders with handle-based lookup.
pub struct Scene {
    objects: Vec<SceneRecord>,
}

impl View for Scene {
    type V = Seq<Entry>;

    closed spec fn view(&self) -> Seq<Entry> {
        self.objects@.map_values(|r: SceneRecord| (r.id, r.collider@))
    }
}

impl Scene {
    pub open spec fn wf(&self) -> bool {
        handles_wf(self@)
    }

    pub fn new() -> (r: Scene)
        ensures
            r@ == Seq::<Entry>::empty(),
            r.wf(),
    {
        Scene { objects: Vec::new() }
    }

    /// The number of colliders.
    pub fn len(&self) -> (r: usize)
        ensures
            r == self@.len(),
    {
        self.objects.len()
    }

    /// Whether a collider carries handle `index`.
    #[allow(non_snake_case)]
    pub fn isValid(&self, index: i32) -> (r: bool)
        ensures
            r == has_handle(self@, index),
    {
        let mut i: usize = 0;
        while i < self.objects.len()
            invariant
                i <= self.objects@.len(),
                forall|k: int| 0 <= k < i ==> self@[k].0 != index,
            decreases self.objects@.len() - i,
        {
            if self.objects[i].id == index {
                assert(self@[i as int].0 == index);
                return true;
            }
            i += 1;
        }
        false
    }

    /// The position of the collider with handle `index`, if any.
    fn find(&self, index: i32) -> (r: Option<usize>)
        requires
            self.wf(),
        ensures
            r is None <==> !has_handle(self@, index),
            r matches Some(i) ==> i < self@.len() && self@[i as int].0 == index
                && i == index_of(self@, index),
    {
        let mut i: usize = 0;
        while i < self.objects.len()
            invariant
                self.wf(),
                i <= self.objects@.len(),
                forall|k: int| 0 <= k < i ==> self@[k].0 != index,
            decreases self.objects@.len() - i,
        {
            if self.objects[i].id == index {
                assert(self@[i as int].0 == index);
                proof {
                    let j = index_of(self@, index);
                    assert(0 <= j < self@.len() && self@[j].0 == index);
                    if (i as int) < j {
                        assert(self@[i as int].0 != self@[j].0);
                    } else if j < i as int {
                        assert(self@[j].0 != self@[i as int].0);
                    }
                }
                return Some(i);
            }
            i += 1;
        }
        None
    }

    /// The smallest handle not in use; one of `1 ..= len + 1` is always free.
    fn free_handle(&self) -> (r: i32)
        requires
            self.wf(),
            self@.len() < i32::MAX - 1,
        ensures
            1 <= r,
            !has_handle(self@, r),
    {
        let n = self.objects.len();
        let mut h: i32 = 1;
        while h as usize <= n && self.isValid(h)
            invariant
                1 <= h <= n + 1,
                n == self@.len(),
                n < i32::MAX - 1,
                forall|k: i32| 1 <= k < h ==> #[trigger] has_handle(self@, k),
            decreases n + 1 - h,
        {
            h += 1;
        }
        proof {
            lemma_some_handle_free(self@);
        }
        h
    }

    /// Stores `collider` under a fresh handle and returns the handle. The
    /// handle is drawn at random; should it already be in use, the smallest
    /// free handle is taken instead.
    pub fn add(&mut self, collider: Collider) -> (r: i32)
        requires
            old(self).wf(),
            old(self)@.len() < i32::MAX - 1,
        ensures
            final(self).wf(),
            1 <= r,
            !has_handle(old(self)@, r),
            has_handle(final(self)@, r),
            final(self)@ == old(self)@.push((r, collider@)),
    {
        let drawn = random_in(1, i32::MAX);
        let id = if self.isValid(drawn) { self.free_handle() } else { drawn };
        self.objects.push(SceneRecord { id, collider });
        proof {
            let s = old(self)@;
            assert(self@ =~= s.push((id, collider@)));
            assert(self@[s.len() as int].0 == id);
            assert forall|i: int, j: int| 0 <= i < j < self@.len() implies self@[i].0 != self@[j].0 by {
                if j == s.len() {
                    assert(s[i].0 == self@[i].0);
                }
            }
        }
        id
    }

    /// Writes the pose and shape flags of every collider that has a slot
    /// (slot = position in the scene) and, for a collider not yet
    /// initialized, binds `library` and writes its geometry once.
    /// Returns the number of colliders written.
    pub fn sync_geometry(&mut self, library: LibraryHandle, geo: &mut GeometryBuffers, codes: &BackendCodes) -> (synced: usize)
        requires
            old(self).wf(),
            old(geo)@.wf(),
        ensures
            final(self).wf(),
            final(geo)@.wf(),
            synced == synced_len(old(self)@.len() as int, old(geo)@.capacity()),
            final(self)@ == synced_scene(old(self)@, library, synced as int),
            final(geo)@ == synced_geometry(old(self)@, old(geo)@, synced as int, *codes),
    {
        let ghost s0 = self@;
        let ghost g0 = geo@;
        let cap = geo.geometry.len();
        let n = self.objects.len();
        let m: usize = if n <= cap { n } else { cap };
        let mut i: usize = 0;
        proof {
            lemma_synced_none(s0, g0, library, *codes);
        }
        while i < m
            invariant
                i <= m,
                m <= n,
                m <= cap,
                n == s0.len(),
                cap == g0.capacity(),
                g0.wf(),
                self.objects@.len() == n,
                self@ == synced_scene(s0, library, i as int),
                geo@ == synced_geometry(s0, g0, i as int, *codes),
            decreases m - i,
        {
            let ghost objs0 = self.objects@;
            let ghost view0 = self@;
            let ghost c0 = objs0[i as int].collider@;
            assert(self@[i as int] == (objs0[i as int].id, c0));
            assert(self@[i as int] == s0[i as int]);
            let rec = &mut self.objects[i];
            if !rec.collider.is_initialized() {
                rec.collider.bind_backend_handle(library);
                rec.collider.initialize_geometry(i, &mut geo.geometry);
            }
            let c = &rec.collider;
            geo.positions.set(i, Vec4::from(&c.position()));
            geo.rotations.set(i, c.rotation());
            geo.prev_positions.set(i, Vec4::from(&c.prev_position()));
            geo.prev_rotations.set(i, c.prev_rotation());
            let code = shape_type_code(c.shape_tag(), codes);
            geo.flags.set(i, make_shape_flags(code, false, codes));
            i += 1;
            proof {
                assert(self.objects@ == objs0.update((i - 1) as int, self.objects@[(i - 1) as int]));
                assert(self.objects@[(i - 1) as int].id == objs0[(i - 1) as int].id);
                assert(self.objects@[(i - 1) as int].collider@ == crate::geometry::synced_collider(c0, library));
                assert(c0 == s0[(i - 1) as int].1);
                let target = synced_scene(s0, library, i as int);
                assert forall|j: int| 0 <= j < n implies #[trigger] self@[j] == target[j] by {
                    if j != (i - 1) as int {
                        assert(self.objects@[j] == objs0[j]);
                        assert(self@[j] == view0[j]);
                    }
                }
                assert(self@ =~= target);
                let g1 = synced_geometry(s0, g0, i as int, *codes);
                assert(geo@.geometry =~= g1.geometry);
                assert(geo@.positions =~= g1.positions);
                assert(geo@.rotations =~= g1.rotations);
                assert(geo@.prev_positions =~= g1.prev_positions);
                assert(geo@.prev_rotations =~= g1.prev_rotations);
                assert(geo@.flags =~= g1.flags);
            }
        }
        proof {
            let s1 = self@;
            assert forall|a: int, b: int| 0 <= a < b < s1.len() implies s1[a].0 != s1[b].0 by {
                assert(s1[a].0 == s0[a].0 && s1[b].0 == s0[b].0);
            }
            assert forall|a: int| 0 <= a < s1.len() implies s1[a].0 >= 1 by {
                assert(s1[a].0 == s0[a].0);
            }
        }
        m
    }

    /// Moves the collider with handle `index` to `pos`, keeping its former
    /// position as the previous one. Returns whether the handle was found.
    pub fn set_position(&mut self, index: i32, pos: Vec3) -> (found: bool)
        requires
            old(self).wf(),
        ensures
            final(self).wf(),
            found == has_handle(old(self)@, index),
            found ==> final(self)@ == old(self)@.update(index_of(old(self)@, index),
                (index, old(self)@[index_of(old(self)@, index)].1.moved_to(pos))),
            !found ==> final(self)@ == old(self)@,
    {
        match self.find(index) {
            Some(i) => {
                let ghost objs0 = self.objects@;
                let ghost view0 = self@;
                let rec = &mut self.objects[i];
                rec.collider.set_position(pos);
                proof {
                    let target = view0.update(i as int, (index, view0[i as int].1.moved_to(pos)));
                    assert forall|j: int| 0 <= j < view0.len() implies #[trigger] self@[j] == target[j] by {
                        if j != i as int {
                            assert(self.objects@[j] == objs0[j]);
                        }
                    }
                    assert(self@ =~= target);
                    lemma_same_handles_wf(view0, self@);
                }
                true
            },
            None => false,
        }
    }

    /// Turns the collider with handle `index` to `rot`, keeping its former
    /// rotation as the previous one. Returns whether the handle was found.
    pub fn set_rotation(&mut self, index: i32, rot: Quat) -> (found: bool)
        requires
            old(self).wf(),
        ensures
            final(self).wf(),
            found == has_handle(old(self)@, index),
            found ==> final(self)@ == old(self)@.update(index_of(old(self)@, index),
                (index, old(self)@[index_of(old(self)@, index)].1.turned_to(rot))),
            !found ==> final(self)@ == old(self)@,
    {
        match self.find(index) {
            Some(i) => {
                let ghost objs0 = self.objects@;
                let ghost view0 = self@;
                let rec = &mut self.objects[i];
                rec.collider.set_rotation(rot);
                proof {
                    let target = view0.update(i as int, (index, view0[i as int].1.turned_to(rot)));
                    assert forall|j: int| 0 <= j < view0.len() implies #[trigger] self@[j] == target[j] by {
                        if j != i as int {
                            assert(self.objects@[j] == objs0[j]);
                        }
                    }
                    assert(self@ =~= target);
                    lemma_same_handles_wf(view0, self@);
                }
                true
            },
            None => false,
        }
    }

    /// Empties the scene and says, collider by collider in scene order, what
    /// their backend resources need.
    pub fn clear(&mut self) -> (r: Vec<Release>)
        requires
            old(self).wf(),
        ensures
            final(self).wf(),
            final(self)@ == Seq::<Entry>::empty(),
            r@ == old(self)@.map_values(|e: Entry| e.1.release_of()),
    {
        let ghost s0 = self@;
        let mut taken: Vec<SceneRecord> = Vec::new();
        std::mem::swap(&mut taken, &mut self.objects);
        let mut out: Vec<Release> = Vec::new();
        let n = taken.len();
        let mut rest = taken;
        let ghost recs = rest@;
        assert(recs.map_values(|r: SceneRecord| (r.id, r.collider@)) == s0);
        // take records from the back, then put the releases in scene order
        while rest.len() > 0
            invariant
                rest@ == recs.take(rest@.len() as int),
                rest@.len() <= n,
                n == recs.len(),
                out@.len() == n - rest@.len(),
                forall|k: int| 0 <= k < out@.len() ==> out@[k] == #[trigger] recs[n - 1 - k].collider@.release_of(),
            decreases rest@.len(),
        {
            let rec = rest.pop().unwrap();
            out.push(rec.collider.release());
            assert(rest@ =~= recs.take(rest@.len() as int));
        }
        let mut r: Vec<Release> = Vec::new();
        while out.len() > 0
            invariant
                out@.len() + r@.len() == n,
                n == recs.len(),
                forall|k: int| 0 <= k < out@.len() ==> out@[k] == #[trigger] recs[n - 1 - k].collider@.release_of(),
                forall|k: int| 0 <= k < r@.len() ==> r@[k] == #[trigger] recs[k].collider@.release_of(),
            decreases out@.len(),
        {
            let ghost k0 = out@.len() - 1;
            assert(out@[k0] == recs[n - 1 - k0].collider@.release_of());
            let x = out.pop().unwrap();
            assert(n - 1 - k0 == r@.len());
            r.push(x);
        }
        assert(r@ =~= s0.map_values(|e: Entry| e.1.release_of()));
        proof {
            assert(self@ =~= Seq::<Entry>::empty());
        }
        r
    }

    /// The collider with handle `index`, if any.
    pub fn get(&self, index: i32) -> (r: Option<&Collider>)
        requires
            self.wf(),
        ensures
            r is None <==> !has_handle(self@, index),
            r matches Some(c) ==> c@ == self@[index_of(self@, index)].1,
    {
        match self.find(index) {
            Some(i) => Some(&self.objects[i].collider),
            None => None,
        }
    }

    /// Removes the collider with handle `index` and hands it back; the last
    /// collider takes its place. An unknown handle changes nothing.
    pub fn remove(&mut self, index: i32) -> (r: Option<Collider>)
        requires
            old(self).wf(),
        ensures
            final(self).wf(),
            final(self)@ == removed(old(self)@, index),
            r is None <==> !has_handle(old(self)@, index),
            r matches Some(c) ==> c@ == old(self)@[index_of(old(self)@, index)].1,
    {
        match self.find(index) {
            Some(i) => {
                let rec = self.objects.swap_remove(i);
                proof {
                    let s = old(self)@;
                    assert(self@ =~= s.update(i as int, s.last()).drop_last());
                    lemma_removed_wf(s, index);
                }
                Some(rec.collider)
            },
            None => None,
        }
    }
}

/// Relies on rand's `thread_rng` and `Rng::gen_range`: a value drawn from
/// the half-open range `lo .. hi`, which must not be empty (it panics then).
#[verifier::external_body]
fn random_in(lo: i32, hi: i32) -> (r: i32)
    requires
        lo < hi,
    ensures
        lo <= r < hi,
{
    rand::thread_rng().gen_range(lo..hi)
}

/// Pigeonhole: among `1 ..= n + 1` some value is not one of the `n` handles of `s`.
proof fn lemma_some_handle_free(s: Seq<Entry>)
    requires
        s.len() < i32::MAX - 1,
    ensures
        exists|k: i32| 1 <= k < s.len() + 2 && !#[trigger] has_handle(s, k),
{
    let hs = s.map_values(|e: Entry| e.0 as int);
    let range = set_int_range(1, s.len() as int + 2);
    lemma_int_range(1, s.len() as int + 2);
    hs.lemma_cardinality_of_set();
    if forall|k: i32| 1 <= k < s.len() + 2 ==> #[trigger] has_handle(s, k) {
        assert(range.subset_of(hs.to_set())) by {
            assert forall|k: int| range.contains(k) implies hs.to_set().contains(k) by {
                assert(has_handle(s, k as i32));
                let i = choose|i: int| 0 <= i < s.len() && s[i].0 == k as i32;
                assert(hs[i] == k);
            }
        }
        lemma_len_subset(range, hs.to_set());
    }
}

/// One call on a scene, with the handle that `add` returned.
pub enum SceneOp {
    Add(i32, ColliderView),
    Remove(i32),
}

/// The scene after one call.
pub open spec fn step(s: Seq<Entry>, op: SceneOp) -> Seq<Entry> {
    match op {
        SceneOp::Add(h, c) => s.push((h, c)),
        SceneOp::Remove(h) => removed(s, h),
    }
}

/// The scene after the calls `ops`, in order.
pub open spec fn replay(s: Seq<Entry>, ops: Seq<SceneOp>) -> Seq<Entry>
    decreases ops.len(),
{
    if ops.len() == 0 {
        s
    } else {
        step(replay(s, ops.drop_last()), ops.last())
    }
}

/// The number of adds among `ops`.
pub open spec fn adds(ops: Seq<SceneOp>) -> int
    decreases ops.len(),
{
    if ops.len() == 0 {
        0
    } else {
        adds(ops.drop_last()) + if ops.last() is Add { 1int } else { 0int }
    }
}

/// The number of removes among `ops` whose handle was present when made.
pub open spec fn completed_removes(s: Seq<Entry>, ops: Seq<SceneOp>) -> int
    decreases ops.len(),
{
    if ops.len() == 0 {
        0
    } else {
        completed_removes(s, ops.drop_last()) + match ops.last() {
            SceneOp::Remove(h) => if has_handle(replay(s, ops.drop_last()), h) { 1int } else { 0int },
            SceneOp::Add(_, _) => 0int,
        }
    }
}

/// After any sequence of adds and removes the scene holds its former
/// colliders, plus one per add, minus one per remove that found its handle.
pub proof fn law_len_counts_adds_and_completed_removes(s: Seq<Entry>, ops: Seq<SceneOp>)
    ensures
        replay(s, ops).len() == s.len() + adds(ops) - completed_removes(s, ops),
    decreases ops.len(),
{
    if ops.len() > 0 {
        law_len_counts_adds_and_completed_removes(s, ops.drop_last());
    }
}

/// Once a handle is removed, it is no longer found.
pub proof fn law_removed_handle_not_found(s: Seq<Entry>, h: i32)
    requires
        handles_wf(s),
    ensures
        !has_handle(removed(s, h), h),
{
    if has_handle(s, h) {
        let i = index_of(s, h);
        let r = removed(s, h);
        assert forall|k: int| 0 <= k < r.len() implies r[k].0 != h by {
            let k0 = if k == i { s.len() - 1 } else { k };
            assert(r[k] == s[k0]);
            assert(k0 != i);
        }
    }
}

/// Removing a handle that no collider carries changes nothing, its length
/// included.
pub proof fn law_remove_absent_is_noop(s: Seq<Entry>, h: i32)
    requires
        !has_handle(s, h),
    ensures
        removed(s, h) == s,
        removed(s, h).len() == s.len(),
{
}

/// Syncing no collider changes nothing.
proof fn lemma_synced_none(s: Seq<Entry>, g: crate::geometry::GeometryView, lib: LibraryHandle, codes: BackendCodes)
    ensures
        synced_scene(s, lib, 0) == s,
        synced_geometry(s, g, 0, codes) == g,
{
    assert(synced_scene(s, lib, 0) =~= s);
    let g1 = synced_geometry(s, g, 0, codes);
    assert(g1.geometry =~= g.geometry);
    assert(g1.positions =~= g.positions);
    assert(g1.rotations =~= g.rotations);
    assert(g1.prev_positions =~= g.prev_positions);
    assert(g1.prev_rotations =~= g.prev_rotations);
    assert(g1.flags =~= g.flags);
}

/// A scene with the handles of a well-formed one, at the same places, is
/// well formed.
proof fn lemma_same_handles_wf(a: Seq<Entry>, b: Seq<Entry>)
    requires
        handles_wf(a),
        a.len() == b.len(),
        forall|j: int| 0 <= j < a.len() ==> a[j].0 == b[j].0,
    ensures
        handles_wf(b),
{
    assert forall|i: int, j: int| 0 <= i < j < b.len() implies b[i].0 != b[j].0 by {
        assert(a[i].0 == b[i].0 && a[j].0 == b[j].0);
    }
    assert forall|i: int| 0 <= i < b.len() implies b[i].0 >= 1 by {
        assert(a[i].0 == b[i].0);
    }
}

/// Removal keeps handles positive and distinct.
pub proof fn lemma_removed_wf(s: Seq<Entry>, h: i32)
    requires
        handles_wf(s),
    ensures
        handles_wf(removed(s, h)),
{
    if has_handle(s, h) {
        let i = index_of(s, h);
        let r = removed(s, h);
        assert forall|a: int, b: int| 0 <= a < b < r.len() implies r[a].0 != r[b].0 by {
            let a0 = if a == i { s.len() - 1 } else { a };
            let b0 = if b == i { s.len() - 1 } else { b };
            assert(r[a] == s[a0]);
            assert(r[b] == s[b0]);
            if a0 < b0 {
            } else {
                assert(a0 != b0);
            }
        }
    }
}

} // verus!
