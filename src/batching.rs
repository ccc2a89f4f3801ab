use vec_key_value_pair::set::VecSet;
use vstd::prelude::*;

use crate::material_set::{empty_id_set, id_list, insert_id, vec_set_items};

verus! {

/// One mesh component as the frame planner sees it.
#[derive(Clone, Copy, Debug, PartialEq, Eq, Structural)]
pub struct MeshInstance {
    /// Id of the mesh asset.
    pub mesh_id: u128,
    /// Id of the material asset.
    pub material_id: u128,
    /// The mesh component's own visibility flag.
    pub visible: bool,
    /// Outcome of the frustum test for this mesh (`distance - radius <= 0`).
    pub in_view: bool,
}

/// A group of instances that share one mesh and one material, drawn with one
/// instanced draw call.
#[derive(Debug)]
pub struct Batch {
    pub mesh_id: u128,
    pub material_id: u128,
    /// Signature positions (the order of the frame's surviving meshes) drawn
    /// by this batch, in increasing order.
    pub instances: Vec<usize>,
}

/// A (mesh id, material id) pair.
pub type BatchKey = (u128, u128);

pub open spec fn survives(m: MeshInstance) -> bool {
    m.visible && m.in_view
}

pub open spec fn key_of(m: MeshInstance) -> BatchKey {
    (m.mesh_id, m.material_id)
}

pub open spec fn batch_key(b: Batch) -> BatchKey {
    (b.mesh_id, b.material_id)
}

/// Mesh-major, material-minor order on keys.
pub open spec fn key_lt(a: BatchKey, b: BatchKey) -> bool {
    a.0 < b.0 || (a.0 == b.0 && a.1 < b.1)
}

/// Keys of the surviving meshes among the first `len`, in list order.
pub open spec fn signature_upto(ms: Seq<MeshInstance>, len: int) -> Seq<BatchKey>
    decreases len,
{
    if len <= 0 {
        Seq::empty()
    } else if survives(ms[len - 1]) {
        signature_upto(ms, len - 1).push(key_of(ms[len - 1]))
    } else {
        signature_upto(ms, len - 1)
    }
}

/// The cache signature of a frame: the (mesh, material) keys of the meshes
/// that are visible and pass the frustum test, in list order.
pub open spec fn signature_of(ms: Seq<MeshInstance>) -> Seq<BatchKey> {
    signature_upto(ms, ms.len() as int)
}

/// Material ids of the surviving meshes among the first `len`, each once, in
/// order of first use.
pub open spec fn materials_upto(ms: Seq<MeshInstance>, len: int) -> Seq<u128>
    decreases len,
{
    if len <= 0 {
        Seq::empty()
    } else {
        let d = materials_upto(ms, len - 1);
        let m = ms[len - 1];
        if survives(m) && !d.contains(m.material_id) {
            d.push(m.material_id)
        } else {
            d
        }
    }
}

/// The distinct material ids used by a frame, in order of first use.
pub open spec fn materials_of(ms: Seq<MeshInstance>) -> Seq<u128> {
    materials_upto(ms, ms.len() as int)
}

/// Number of keys among the first `len` that satisfy `f`.
pub open spec fn count_upto(ks: Seq<BatchKey>, len: int, f: spec_fn(BatchKey) -> bool) -> nat
    decreases len,
{
    if len <= 0 {
        0
    } else {
        count_upto(ks, len - 1, f) + if f(ks[len - 1]) {
            1nat
        } else {
            0nat
        }
    }
}

/// Keys that are not above `last`.
pub open spec fn settled(last: Option<BatchKey>) -> spec_fn(BatchKey) -> bool {
    |k: BatchKey| !above(last, k)
}

/// Keys equal to `k`.
pub open spec fn keyed(k: BatchKey) -> spec_fn(BatchKey) -> bool {
    |x: BatchKey| x == k
}

/// Sum of the instance counts of the batches.
pub open spec fn total_instances(bs: Seq<Batch>) -> nat
    decreases bs.len(),
{
    if bs.len() == 0 {
        0
    } else {
        total_instances(bs.drop_last()) + bs.last().instances@.len()
    }
}

/// Whether signature position `i` is drawn by one of the batches.
pub open spec fn drawn(bs: Seq<Batch>, i: usize) -> bool {
    exists|b: int, j: int|
        0 <= b < bs.len() && 0 <= j < bs[b].instances@.len() && #[trigger] bs[b].instances@[j] == i
}

/// One batch is well formed for the signature: it is not empty, its instances
/// increase, and each is a position of the signature holding the batch's key.
pub open spec fn batch_ok(ks: Seq<BatchKey>, b: Batch) -> bool {
    &&& b.instances@.len() > 0
    &&& forall|j: int, k: int|
        0 <= j < k < b.instances@.len() ==> b.instances@[j] < b.instances@[k]
    &&& forall|j: int|
        0 <= j < b.instances@.len() ==> {
            let i = #[trigger] b.instances@[j];
            &&& i < ks.len()
            &&& ks[i as int] == batch_key(b)
        }
}

/// Batches in strictly increasing key order, each well formed.
pub open spec fn batches_sorted_ok(ks: Seq<BatchKey>, bs: Seq<Batch>) -> bool {
    &&& forall|b: int| 0 <= b < bs.len() ==> batch_ok(ks, #[trigger] bs[b])
    &&& forall|b: int, c: int|
        0 <= b < c < bs.len() ==> key_lt(batch_key(#[trigger] bs[b]), batch_key(#[trigger] bs[c]))
}

/// The batches of a signature: one per distinct key, in mesh-major,
/// material-minor order, each holding exactly the positions with its key, in
/// increasing order.
pub open spec fn batches_for(ks: Seq<BatchKey>, bs: Seq<Batch>) -> bool {
    &&& batches_sorted_ok(ks, bs)
    &&& forall|i: usize| i < ks.len() ==> #[trigger] drawn(bs, i)
}

// ---------------------------------------------------------------------------
// Counting lemmas used by the grouping loop.

proof fn lemma_count_le(ks: Seq<BatchKey>, len: int, f: spec_fn(BatchKey) -> bool)
    requires
        0 <= len,
    ensures
        count_upto(ks, len, f) <= len,
    decreases len,
{
    if len > 0 {
        lemma_count_le(ks, len - 1, f);
    }
}

proof fn lemma_count_zero(ks: Seq<BatchKey>, len: int, f: spec_fn(BatchKey) -> bool)
    requires
        forall|i: int| 0 <= i < len ==> !f(ks[i]),
    ensures
        count_upto(ks, len, f) == 0,
    decreases len,
{
    if len > 0 {
        lemma_count_zero(ks, len - 1, f);
    }
}

proof fn lemma_count_all(ks: Seq<BatchKey>, len: int, f: spec_fn(BatchKey) -> bool)
    requires
        0 <= len,
        forall|i: int| 0 <= i < len ==> f(ks[i]),
    ensures
        count_upto(ks, len, f) == len,
    decreases len,
{
    if len > 0 {
        lemma_count_all(ks, len - 1, f);
    }
}

proof fn lemma_count_split(
    ks: Seq<BatchKey>,
    len: int,
    f: spec_fn(BatchKey) -> bool,
    g: spec_fn(BatchKey) -> bool,
    h: spec_fn(BatchKey) -> bool,
)
    requires
        forall|i: int| 0 <= i < len ==> (f(ks[i]) <==> (g(ks[i]) || h(ks[i]))),
        forall|i: int| 0 <= i < len ==> !(g(ks[i]) && h(ks[i])),
    ensures
        count_upto(ks, len, f) == count_upto(ks, len, g) + count_upto(ks, len, h),
    decreases len,
{
    if len > 0 {
        lemma_count_split(ks, len - 1, f, g, h);
    }
}

proof fn lemma_total_push(bs: Seq<Batch>, b: Batch)
    ensures
        total_instances(bs.push(b)) == total_instances(bs) + b.instances@.len(),
{
    assert(bs.push(b).drop_last() =~= bs);
}

/// Whether `k` lies strictly above the optional lower bound.
pub open spec fn above(last: Option<BatchKey>, k: BatchKey) -> bool {
    match last {
        None => true,
        Some(l) => key_lt(l, k),
    }
}

fn key_less(a: BatchKey, b: BatchKey) -> (r: bool)
    ensures
        r == key_lt(a, b),
{
    a.0 < b.0 || (a.0 == b.0 && a.1 < b.1)
}

fn is_above(last: Option<BatchKey>, k: BatchKey) -> (r: bool)
    ensures
        r == above(last, k),
{
    match last {
        None => true,
        Some(l) => key_less(l, k),
    }
}

/// The smallest key of `ks` strictly above `last`.
fn next_key(ks: &Vec<BatchKey>, last: Option<BatchKey>) -> (r: Option<BatchKey>)
    ensures
        r is None ==> forall|i: int| 0 <= i < ks@.len() ==> !above(last, #[trigger] ks@[i]),
        r is Some ==> {
            let k = r->Some_0;
            &&& above(last, k)
            &&& exists|i: int| 0 <= i < ks@.len() && #[trigger] ks@[i] == k
            &&& forall|i: int|
                0 <= i < ks@.len() && above(last, #[trigger] ks@[i]) ==> !key_lt(ks@[i], k)
        },
{
    let mut best: Option<BatchKey> = None;
    let mut i: usize = 0;
    while i < ks.len()
        invariant
            i <= ks@.len(),
            best is None ==> forall|j: int| 0 <= j < i ==> !above(last, #[trigger] ks@[j]),
            best is Some ==> {
                let k = best->Some_0;
                &&& above(last, k)
                &&& exists|j: int| 0 <= j < i && #[trigger] ks@[j] == k
                &&& forall|j: int|
                    0 <= j < i && above(last, #[trigger] ks@[j]) ==> !key_lt(ks@[j], k)
            },
        decreases ks@.len() - i,
    {
        let k = ks[i];
        if is_above(last, k) {
            let take = match best {
                None => true,
                Some(b) => key_less(k, b),
            };
            if take {
                best = Some(k);
                assert(ks@[i as int] == k);
            }
        }
        i += 1;
    }
    best
}

/// Positions of `ks` holding `k`, in increasing order.
fn collect_instances(ks: &Vec<BatchKey>, k: BatchKey) -> (r: Vec<usize>)
    ensures
        r@.len() == count_upto(ks@, ks@.len() as int, keyed(k)),
        forall|j: int, l: int| 0 <= j < l < r@.len() ==> r@[j] < r@[l],
        forall|j: int|
            0 <= j < r@.len() ==> {
                let i = #[trigger] r@[j];
                &&& i < ks@.len()
                &&& ks@[i as int] == k
            },
        forall|i: usize| i < ks@.len() && ks@[i as int] == k ==> #[trigger] r@.contains(i),
{
    let mut out: Vec<usize> = Vec::new();
    let mut i: usize = 0;
    while i < ks.len()
        invariant
            i <= ks@.len(),
            out@.len() == count_upto(ks@, i as int, keyed(k)),
            forall|j: int, l: int| 0 <= j < l < out@.len() ==> out@[j] < out@[l],
            forall|j: int| 0 <= j < out@.len() ==> out@[j] < i,
            forall|j: int|
                0 <= j < out@.len() ==> {
                    let p = #[trigger] out@[j];
                    &&& p < ks@.len()
                    &&& ks@[p as int] == k
                },
            forall|p: usize| p < i && ks@[p as int] == k ==> #[trigger] out@.contains(p),
        decreases ks@.len() - i,
    {
        let x = ks[i];
        let ghost before = out@;
        if x.0 == k.0 && x.1 == k.1 {
            out.push(i);
            assert(out@[out@.len() - 1] == i);
        }
        proof {
            assert forall|p: usize| p < i + 1 && ks@[p as int] == k implies #[trigger] out@.contains(p) by {
                if p == i {
                    assert(out@[out@.len() - 1] == i);
                } else {
                    assert(before.contains(p));
                    let idx = choose|idx: int| 0 <= idx < before.len() && before[idx] == p;
                    assert(out@[idx] == p);
                }
            }
        }
        i += 1;
    }
    out
}

/// Groups the positions of a signature into batches: one per distinct
/// (mesh, material) key, in mesh-major, material-minor order, each listing the
/// positions holding its key in increasing order.
pub fn build_batches(ks: &Vec<BatchKey>) -> (r: Vec<Batch>)
    ensures
        batches_for(ks@, r@),
        total_instances(r@) == ks@.len(),
{
    let mut batches: Vec<Batch> = Vec::new();
    let mut last: Option<BatchKey> = None;
    let mut covered: usize = 0;
    let total = ks.len();
    proof {
        lemma_count_zero(ks@, ks@.len() as int, settled(last));
    }
    loop
        invariant
            batches_sorted_ok(ks@, batches@),
            last is None <==> batches@.len() == 0,
            last is Some ==> last->Some_0 == batch_key(batches@.last()),
            forall|i: usize|
                i < ks@.len() && !above(last, ks@[i as int]) ==> #[trigger] drawn(batches@, i),
            covered == total_instances(batches@),
            covered == count_upto(ks@, ks@.len() as int, settled(last)),
            covered <= ks@.len(),
            total == ks@.len(),
        ensures
            batches_for(ks@, batches@),
            total_instances(batches@) == ks@.len(),
        decreases ks@.len() - covered,
    {
        match next_key(ks, last) {
            None => {
                proof {
                    lemma_count_all(ks@, ks@.len() as int, settled(last));
                    assert forall|i: usize| i < ks@.len() implies #[trigger] drawn(batches@, i) by {
                        assert(!above(last, ks@[i as int]));
                    }
                }
                break;
            },
            Some(k) => {
                let instances = collect_instances(ks, k);
                let ghost old_batches = batches@;
                let ghost old_last = last;
                proof {
                    let w = choose|i: int| 0 <= i < ks@.len() && #[trigger] ks@[i] == k;
                    let wu = w as usize;
                    assert(wu as int == w);
                    assert(ks@[wu as int] == k);
                    assert(instances@.contains(wu));
                }
                let b = Batch { mesh_id: k.0, material_id: k.1, instances };
                proof {
                    assert(batch_ok(ks@, b));
                }
                let added = b.instances.len();
                batches.push(b);
                last = Some(k);
                proof {
                    let n = ks@.len() as int;
                    let bs = batches@;
                    assert(bs[bs.len() - 1] == b);
                    assert forall|x: int| 0 <= x < old_batches.len() implies key_lt(
                        batch_key(#[trigger] bs[x]),
                        k,
                    ) by {
                        assert(bs[x] == old_batches[x]);
                        let l = old_batches.len() - 1;
                        if x < l {
                            assert(key_lt(batch_key(old_batches[x]), batch_key(old_batches[l])));
                        }
                    }
                    assert forall|x: int| 0 <= x < bs.len() implies batch_ok(ks@, #[trigger] bs[x]) by {
                        if x < old_batches.len() {
                            assert(bs[x] == old_batches[x]);
                        }
                    }
                    assert forall|x: int, y: int|
                        0 <= x < y < bs.len() implies key_lt(batch_key(#[trigger] bs[x]), batch_key(#[trigger] bs[y])) by {
                        assert(bs[x] == old_batches[x]);
                        if y < old_batches.len() {
                            assert(bs[y] == old_batches[y]);
                        }
                    }
                    assert forall|i: usize| i < ks@.len() && !above(last, ks@[i as int]) implies #[trigger] drawn(
                        bs,
                        i,
                    ) by {
                        if !above(old_last, ks@[i as int]) {
                            assert(drawn(old_batches, i));
                            let (x, j) = choose|x: int, j: int|
                                0 <= x < old_batches.len() && 0 <= j < old_batches[x].instances@.len()
                                    && #[trigger] old_batches[x].instances@[j] == i;
                            assert(bs[x] == old_batches[x]);
                            assert(bs[x].instances@[j] == i);
                        } else {
                            assert(ks@[i as int] == k);
                            assert(b.instances@.contains(i));
                            let j = choose|j: int| 0 <= j < b.instances@.len() && b.instances@[j] == i;
                            assert(bs[bs.len() - 1].instances@[j] == i);
                        }
                    }
                    lemma_count_split(ks@, n, settled(last), settled(old_last), keyed(k));
                    lemma_total_push(old_batches, b);
                    lemma_count_le(ks@, n, settled(last));
                }
                covered = covered + added;
            },
        }
    }
    batches
}

/// Positions, in the mesh list, of the first `len` meshes that survive.
pub open spec fn survivors_upto(ms: Seq<MeshInstance>, len: int) -> Seq<usize>
    decreases len,
{
    if len <= 0 {
        Seq::empty()
    } else if survives(ms[len - 1]) {
        survivors_upto(ms, len - 1).push((len - 1) as usize)
    } else {
        survivors_upto(ms, len - 1)
    }
}

/// Positions, in the mesh list, of the meshes that survive, in list order.
pub open spec fn survivors_of(ms: Seq<MeshInstance>) -> Seq<usize> {
    survivors_upto(ms, ms.len() as int)
}

/// Keys of the surviving meshes, their positions, and the set of their
/// materials.
fn frame_signature(ms: &Vec<MeshInstance>) -> (r: (Vec<BatchKey>, Vec<usize>, VecSet<u128>))
    ensures
        r.0@ == signature_of(ms@),
        r.1@ == survivors_of(ms@),
        r.1@.len() == r.0@.len(),
        forall|k: int|
            0 <= k < r.1@.len() ==> {
                let p = #[trigger] r.1@[k];
                &&& p < ms@.len()
                &&& survives(ms@[p as int])
                &&& key_of(ms@[p as int]) == r.0@[k]
            },
        vec_set_items(r.2) == materials_of(ms@),
{
    let mut keys: Vec<BatchKey> = Vec::new();
    let mut positions: Vec<usize> = Vec::new();
    let mut materials = empty_id_set();
    let mut i: usize = 0;
    while i < ms.len()
        invariant
            i <= ms@.len(),
            keys@ == signature_upto(ms@, i as int),
            positions@ == survivors_upto(ms@, i as int),
            positions@.len() == keys@.len(),
            forall|k: int|
                0 <= k < positions@.len() ==> {
                    let p = #[trigger] positions@[k];
                    &&& p < ms@.len()
                    &&& survives(ms@[p as int])
                    &&& key_of(ms@[p as int]) == keys@[k]
                },
            vec_set_items(materials) == materials_upto(ms@, i as int),
        decreases ms@.len() - i,
    {
        let m = ms[i];
        if m.visible && m.in_view {
            keys.push((m.mesh_id, m.material_id));
            positions.push(i);
            let _added = insert_id(&mut materials, m.material_id);
        }
        i += 1;
    }
    (keys, positions, materials)
}

/// Element-wise comparison of two signatures.
fn same_signature(a: &Vec<BatchKey>, b: &Vec<BatchKey>) -> (r: bool)
    ensures
        r == (a@ == b@),
{
    if a.len() != b.len() {
        return false;
    }
    let mut i: usize = 0;
    while i < a.len()
        invariant
            a@.len() == b@.len(),
            i <= a@.len(),
            forall|j: int| 0 <= j < i ==> a@[j] == b@[j],
        decreases a@.len() - i,
    {
        if a[i].0 != b[i].0 || a[i].1 != b[i].1 {
            return false;
        }
        i += 1;
    }
    assert(a@ =~= b@);
    true
}

/// Whether a frame reuses the cached batches or rebuilds them.
#[derive(Clone, Copy, Debug, PartialEq, Eq, Structural)]
pub enum CachePath {
    /// The batches stay; their instance data is refreshed in place.
    Reuse,
    /// The batches were regrouped; every instance buffer is made anew.
    Rebuild,
}

/// What the renderer needs from the planner for one frame.
pub struct FramePlan {
    pub path: CachePath,
    /// For each signature position, the position of that mesh in the frame's
    /// mesh list; batch instances are read through it.
    pub survivors: Vec<usize>,
    /// The distinct materials of the frame, in order of first use.
    pub materials: VecSet<u128>,
}

impl FramePlan {
    /// The distinct materials of the frame, in order of first use.
    pub fn material_ids(&self) -> (r: Vec<u128>)
        ensures
            r@ == vec_set_items(self.materials),
    {
        id_list(&self.materials)
    }
}

/// The path a frame takes, given the cached signature.
pub open spec fn path_for(cached: Seq<BatchKey>, ms: Seq<MeshInstance>) -> CachePath {
    if cached == signature_of(ms) {
        CachePath::Reuse
    } else {
        CachePath::Rebuild
    }
}

/// The batching cache: the signature of the frame the batches were built for,
/// and those batches.
pub struct BatchCache {
    signature: Vec<BatchKey>,
    batches: Vec<Batch>,
}

impl BatchCache {
    pub closed spec fn signature_view(&self) -> Seq<BatchKey> {
        self.signature@
    }

    pub closed spec fn batches_view(&self) -> Seq<Batch> {
        self.batches@
    }

    /// The batches are exactly the grouping of the signature.
    pub open spec fn wf(&self) -> bool {
        &&& batches_for(self.signature_view(), self.batches_view())
        &&& total_instances(self.batches_view()) == self.signature_view().len()
    }

    /// An empty cache: no signature, no batches.
    pub fn new() -> (r: Self)
        ensures
            r.wf(),
            r.signature_view() == Seq::<BatchKey>::empty(),
            r.batches_view() == Seq::<Batch>::empty(),
    {
        let r = BatchCache { signature: Vec::new(), batches: Vec::new() };
        proof {
            assert(total_instances(r.batches_view()) == 0);
        }
        r
    }

    /// The signature the batches were built for.
    pub fn signature(&self) -> (r: &Vec<BatchKey>)
        ensures
            r@ == self.signature_view(),
    {
        &self.signature
    }

    /// The cached batches, in mesh-major, material-minor order.
    pub fn batches(&self) -> (r: &Vec<Batch>)
        ensures
            r@ == self.batches_view(),
    {
        &self.batches
    }

    /// Plans one frame from the frame's mesh list: when the surviving meshes'
    /// (mesh, material) keys repeat the cached signature exactly, the cache is
    /// kept; otherwise the batches are rebuilt and the signature replaced.
    /// Either way the batches group the frame's survivors exactly.
    pub fn prepare_frame(&mut self, meshes: &Vec<MeshInstance>) -> (r: FramePlan)
        requires
            old(self).wf(),
        ensures
            final(self).wf(),
            r.path == path_for(old(self).signature_view(), meshes@),
            final(self).signature_view() == signature_of(meshes@),
            batches_for(signature_of(meshes@), final(self).batches_view()),
            total_instances(final(self).batches_view()) == signature_of(meshes@).len(),
            r.survivors@ == survivors_of(meshes@),
            r.survivors@.len() == signature_of(meshes@).len(),
            forall|k: int|
                0 <= k < r.survivors@.len() ==> {
                    let p = #[trigger] r.survivors@[k];
                    &&& p < meshes@.len()
                    &&& survives(meshes@[p as int])
                    &&& key_of(meshes@[p as int]) == signature_of(meshes@)[k]
                },
            vec_set_items(r.materials) == materials_of(meshes@),
            r.path == CachePath::Reuse ==> *final(self) == *old(self),
    {
        let (keys, survivors, materials) = frame_signature(meshes);
        if same_signature(&keys, &self.signature) {
            FramePlan { path: CachePath::Reuse, survivors, materials }
        } else {
            self.batches = build_batches(&keys);
            self.signature = keys;
            FramePlan { path: CachePath::Rebuild, survivors, materials }
        }
    }
}

proof fn lemma_signature_prefix(ms: Seq<MeshInstance>, j: int, len: int)
    requires
        0 <= j <= len <= ms.len(),
    ensures
        signature_upto(ms, j).len() <= signature_upto(ms, len).len(),
        forall|k: int|
            0 <= k < signature_upto(ms, j).len() ==> #[trigger] signature_upto(ms, len)[k]
                == signature_upto(ms, j)[k],
    decreases len,
{
    if len > j {
        lemma_signature_prefix(ms, j, len - 1);
    }
}

proof fn lemma_signature_same_prefix(a: Seq<MeshInstance>, b: Seq<MeshInstance>, len: int)
    requires
        0 <= len <= a.len(),
        len <= b.len(),
        forall|k: int| 0 <= k < len ==> a[k] == b[k],
    ensures
        signature_upto(a, len) == signature_upto(b, len),
    decreases len,
{
    if len > 0 {
        lemma_signature_same_prefix(a, b, len - 1);
    }
}

/// Once a frame has been planned for `first`, a frame whose surviving meshes
/// carry the same (mesh, material) keys in the same order takes the reuse path.
pub proof fn lemma_repeated_frame_reuses(
    cache: BatchCache,
    first: Seq<MeshInstance>,
    second: Seq<MeshInstance>,
)
    requires
        cache.signature_view() == signature_of(first),
        signature_of(second) == signature_of(first),
    ensures
        path_for(cache.signature_view(), second) == CachePath::Reuse,
{
}

/// Once a frame has been planned for `before`, changing the mesh id or the
/// material id of one surviving mesh, and nothing else, makes the next frame
/// take the rebuild path.
pub proof fn lemma_changed_key_rebuilds(
    cache: BatchCache,
    before: Seq<MeshInstance>,
    i: int,
    changed: MeshInstance,
)
    requires
        cache.signature_view() == signature_of(before),
        0 <= i < before.len(),
        survives(before[i]),
        changed.visible == before[i].visible,
        changed.in_view == before[i].in_view,
        key_of(changed) != key_of(before[i]),
    ensures
        path_for(cache.signature_view(), before.update(i, changed)) == CachePath::Rebuild,
{
    let after = before.update(i, changed);
    let n = before.len() as int;
    lemma_signature_same_prefix(before, after, i);
    let p = signature_upto(before, i).len() as int;
    assert(signature_upto(before, i + 1)[p] == key_of(before[i]));
    assert(signature_upto(after, i + 1)[p] == key_of(changed));
    lemma_signature_prefix(before, i + 1, n);
    lemma_signature_prefix(after, i + 1, n);
    assert(signature_of(before)[p] != signature_of(after)[p]);
}

} // verus!
