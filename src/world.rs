use vstd::prelude::*;
use slotmap::{DefaultKey, SlotMap};

verus! {

#[verifier::external_type_specification]
#[verifier::external_body]
pub struct ExDefaultKey(DefaultKey);

/// A slot map from handles to body indices. Verus refuses a declaration of
/// `SlotMap` itself, whose key parameter is bound by an outside trait, so the
/// map is held here and reached only through the functions below.
#[verifier::external_body]
pub struct SlotTable {
    map: SlotMap<DefaultKey, usize>,
}

/// Stable handle of a body. A registry never removes a body, so its slot
/// map fills slots in turn and handles compare in insertion order.
pub type RigidBodyID = DefaultKey;

/// The live keys of a slot map and the value stored under each.
pub uninterp spec fn slot_contents(m: SlotTable) -> Map<DefaultKey, usize>;

/// The number of slots a slot map has created, its sentinel slot included.
pub uninterp spec fn slot_count(m: SlotTable) -> nat;

/// Relies on `SlotMap::new`: an empty map whose slot vector holds only the
/// sentinel slot.
#[verifier::external_body]
fn slots_new() -> (r: SlotTable)
    ensures
        slot_contents(r) =~= Map::empty(),
        slot_count(r) == 1,
{
    SlotTable { map: SlotMap::new() }
}

/// Relies on `SlotMap::insert`: it reuses a vacant slot or pushes a new
/// one, returns a key that was not live before, and panics only when the
/// slot vector has reached `u32::MAX` slots.
#[verifier::external_body]
fn slots_insert(m: &mut SlotTable, value: usize) -> (k: DefaultKey)
    requires
        slot_count(*old(m)) < 0xFFFF_FFFF,
    ensures
        !slot_contents(*old(m)).contains_key(k),
        slot_contents(*final(m)) == slot_contents(*old(m)).insert(k, value),
        slot_count(*final(m)) <= slot_count(*old(m)) + 1,
{
    m.map.insert(value)
}

/// Relies on `SlotMap::get`: the value under a live key, and `None` for a
/// key that is not live.
#[verifier::external_body]
fn slots_get(m: &SlotTable, k: DefaultKey) -> (r: Option<usize>)
    ensures
        r == (if slot_contents(*m).contains_key(k) {
            Some(slot_contents(*m)[k])
        } else {
            None
        }),
{
    m.map.get(k).copied()
}

/// The handles of all bodies of a world. The body behind the `i`-th handle
/// handed out is stored at index `i` of the world's body table.
pub struct BodyRegistry {
    slots: SlotTable,
    ids: Vec<DefaultKey>,
}

impl View for BodyRegistry {
    /// The live handles in insertion order.
    type V = Seq<DefaultKey>;

    closed spec fn view(&self) -> Seq<DefaultKey> {
        self.ids@
    }
}

impl BodyRegistry {
    /// Each handle maps to its position in insertion order and nothing else
    /// is live.
    pub closed spec fn wf(&self) -> bool {
        let m = slot_contents(self.slots);
        &&& slot_count(self.slots) <= self.ids@.len() + 1
        &&& forall|i: int|
            0 <= i < self.ids@.len() ==> #[trigger] m.contains_key(self.ids@[i]) && m[self.ids@[i]]
                == i
        &&& forall|k: DefaultKey| #[trigger]
            m.contains_key(k) ==> m[k] < self.ids@.len() && self.ids@[m[k] as int] == k
    }

    /// An empty registry.
    pub fn new() -> (r: Self)
        ensures
            r.wf(),
            r@ == Seq::<RigidBodyID>::empty(),
    {
        BodyRegistry { slots: slots_new(), ids: Vec::new() }
    }

    /// Registers a new body and returns its fresh handle. The body's index
    /// in the body table is the number of bodies registered before it.
    pub fn add_body(&mut self) -> (id: RigidBodyID)
        requires
            old(self).wf(),
            old(self)@.len() < 0xFFFF_FFFE,
        ensures
            final(self).wf(),
            !old(self)@.contains(id),
            final(self)@ == old(self)@.push(id),
    {
        let index = self.ids.len();
        let id = slots_insert(&mut self.slots, index);
        proof {
            if old(self)@.contains(id) {
                let j = choose|j: int| 0 <= j < old(self)@.len() && old(self)@[j] == id;
                assert(slot_contents(old(self).slots).contains_key(old(self).ids@[j]));
            }
        }
        self.ids.push(id);
        proof {
            let m = slot_contents(self.slots);
            assert forall|i: int| 0 <= i < self.ids@.len() implies #[trigger] m.contains_key(
                self.ids@[i],
            ) && m[self.ids@[i]] == i by {
                if i < index {
                    assert(self.ids@[i] == old(self).ids@[i]);
                    assert(slot_contents(old(self).slots).contains_key(old(self).ids@[i]));
                }
            }
        }
        id
    }

    /// The number of registered bodies.
    pub fn len(&self) -> (r: usize)
        ensures
            r == self@.len(),
    {
        self.ids.len()
    }

    /// The handle of the `i`-th body registered.
    pub fn id_at(&self, i: usize) -> (id: RigidBodyID)
        requires
            i < self@.len(),
        ensures
            id == self@[i as int],
    {
        self.ids[i]
    }

    /// The index in the body table of the body behind `id`, or `None` when
    /// `id` is not a handle of this registry.
    pub fn index_of(&self, id: RigidBodyID) -> (r: Option<usize>)
        requires
            self.wf(),
        ensures
            r is None <==> !self@.contains(id),
            r matches Some(i) ==> i < self@.len() && self@[i as int] == id,
    {
        let r = slots_get(&self.slots, id);
        proof {
            if self@.contains(id) {
                let j = choose|j: int| 0 <= j < self@.len() && self@[j] == id;
                assert(slot_contents(self.slots).contains_key(self.ids@[j]));
            }
        }
        r
    }
}

/// The pairs `(a, b)` with `a < b < n` whose first index is `a`, in order of
/// `b`.
pub open spec fn pair_row(a: int, n: int) -> Seq<(usize, usize)> {
    Seq::new((n - a - 1) as nat, |k: int| (a as usize, (a + 1 + k) as usize))
}

/// The pairs `(a, b)` with `a < b < n` and `a < rows`, ordered by `a`, then
/// by `b`.
pub open spec fn pairs_before(rows: int, n: int) -> Seq<(usize, usize)>
    decreases rows,
{
    if rows <= 0 {
        Seq::empty()
    } else {
        pairs_before(rows - 1, n) + pair_row(rows - 1, n)
    }
}

/// Every unordered pair of distinct indices below `n`, smaller index first,
/// ordered by the first index and then by the second.
pub open spec fn all_pairs(n: int) -> Seq<(usize, usize)> {
    pairs_before(n, n)
}

/// The first `rows` rows of the enumeration hold exactly the pairs
/// `a < b < n` with `a < rows`, each once.
proof fn lemma_pairs_before(rows: int, n: int)
    requires
        0 <= rows <= n,
        n <= usize::MAX,
    ensures
        forall|k: int|
            0 <= k < pairs_before(rows, n).len() ==> {
                let p = #[trigger] pairs_before(rows, n)[k];
                p.0 < rows && p.0 < p.1 && p.1 < n
            },
        forall|a: usize, b: usize|
            a < rows && a < b && b < n ==> #[trigger] pairs_before(rows, n).contains((a, b)),
        pairs_before(rows, n).no_duplicates(),
    decreases rows,
{
    if rows > 0 {
        lemma_pairs_before(rows - 1, n);
        let prev = pairs_before(rows - 1, n);
        let row = pair_row(rows - 1, n);
        let cur = pairs_before(rows, n);
        assert(cur == prev + row);
        assert forall|k: int| 0 <= k < cur.len() implies {
            let p = #[trigger] cur[k];
            p.0 < rows && p.0 < p.1 && p.1 < n
        } by {
            if k < prev.len() {
                assert(cur[k] == prev[k]);
            } else {
                assert(cur[k] == row[k - prev.len()]);
            }
        }
        assert forall|a: usize, b: usize| a < rows && a < b && b < n implies #[trigger] cur.contains(
            (a, b),
        ) by {
            if a < rows - 1 {
                assert(prev.contains((a, b)));
                let k = choose|k: int| 0 <= k < prev.len() && prev[k] == (a, b);
                assert(cur[k] == (a, b));
            } else {
                let k = b - a - 1;
                assert(row[k] == (a, b));
                assert(cur[prev.len() + k] == (a, b));
            }
        }
        assert forall|i: int, j: int| 0 <= i < cur.len() && 0 <= j < cur.len() && i != j implies cur[i]
            != cur[j] by {
            if i < prev.len() && j < prev.len() {
                assert(cur[i] == prev[i] && cur[j] == prev[j]);
            } else if i >= prev.len() && j >= prev.len() {
                assert(cur[i] == row[i - prev.len()] && cur[j] == row[j - prev.len()]);
            } else if i < prev.len() {
                assert(cur[i] == prev[i] && cur[j] == row[j - prev.len()]);
                assert(prev[i].0 < rows - 1);
            } else {
                assert(cur[j] == prev[j] && cur[i] == row[i - prev.len()]);
                assert(prev[j].0 < rows - 1);
            }
        }
    }
}

/// Each unordered pair of distinct bodies among `n` is visited exactly once
/// by the collision query, smaller index first: the enumeration holds the
/// pairs `a < b < n` and nothing else, with no repetition.
pub proof fn lemma_each_pair_once(n: usize)
    ensures
        forall|k: int|
            0 <= k < all_pairs(n as int).len() ==> {
                let p = #[trigger] all_pairs(n as int)[k];
                p.0 < p.1 && p.1 < n
            },
        forall|a: usize, b: usize|
            a < b && b < n ==> #[trigger] all_pairs(n as int).contains((a, b)),
        all_pairs(n as int).no_duplicates(),
{
    lemma_pairs_before(n as int, n as int);
}

/// Enumerates every unordered pair of distinct bodies among `n` exactly
/// once, as body indices with the smaller one first, in the order the
/// collision query visits them.
pub fn pair_indices(n: usize) -> (r: Vec<(usize, usize)>)
    ensures
        r@ == all_pairs(n as int),
{
    let mut r: Vec<(usize, usize)> = Vec::new();
    let mut a: usize = 0;
    while a < n
        invariant
            a <= n,
            r@ == pairs_before(a as int, n as int),
        decreases n - a,
    {
        let ghost start = r@;
        let mut b: usize = a + 1;
        while b < n
            invariant
                a < n,
                a + 1 <= b <= n,
                start == pairs_before(a as int, n as int),
                r@ == start + pair_row(a as int, n as int).take(b - a - 1),
            decreases n - b,
        {
            r.push((a, b));
            proof {
                assert(pair_row(a as int, n as int).take(b - a) =~= pair_row(
                    a as int,
                    n as int,
                ).take(b - a - 1).push((a, b)));
            }
            b = b + 1;
        }
        proof {
            assert(pair_row(a as int, n as int).take(n - a - 1) =~= pair_row(a as int, n as int));
        }
        a = a + 1;
    }
    r
}

/// Broad phase: the positions, in increasing order, of the candidate pairs
/// whose bounding boxes overlap (`bbox_overlap[i]` is the verdict on the
/// `i`-th pair). Only the pairs at these positions go on to the narrow phase:
/// a pair whose boxes are disjoint never reaches it, and none whose boxes
/// overlap is lost.
pub fn broad_phase(bbox_overlap: &Vec<bool>) -> (r: Vec<usize>)
    ensures
        forall|k: int| 0 <= k < r@.len() ==> r@[k] < bbox_overlap@.len() && bbox_overlap@[#[trigger] r@[k] as int],
        forall|k1: int, k2: int| 0 <= k1 < k2 < r@.len() ==> r@[k1] < r@[k2],
        forall|i: int| 0 <= i < bbox_overlap@.len() && #[trigger] bbox_overlap@[i] ==> r@.contains(i as usize),
{
    let mut r: Vec<usize> = Vec::new();
    let mut i: usize = 0;
    while i < bbox_overlap.len()
        invariant
            i <= bbox_overlap@.len(),
            forall|k: int| 0 <= k < r@.len() ==> r@[k] < i && bbox_overlap@[#[trigger] r@[k] as int],
            forall|k1: int, k2: int| 0 <= k1 < k2 < r@.len() ==> r@[k1] < r@[k2],
            forall|j: int| 0 <= j < i && #[trigger] bbox_overlap@[j] ==> r@.contains(j as usize),
        decreases bbox_overlap@.len() - i,
    {
        if bbox_overlap[i] {
            let ghost before = r@;
            r.push(i);
            proof {
                assert(r@[before.len() as int] == i);
                assert forall|j: int| 0 <= j <= i && #[trigger] bbox_overlap@[j] implies r@.contains(
                    j as usize,
                ) by {
                    if j < i {
                        let k = choose|k: int| 0 <= k < before.len() && before[k] == j as usize;
                        assert(r@[k] == j as usize);
                    }
                }
            }
        }
        i = i + 1;
    }
    r
}

} // verus!
