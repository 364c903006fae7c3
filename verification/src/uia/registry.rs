//! Stable node ids for UIA elements, and a bounded live-element cache.
//!
//! UIA runtime ids are arrays of integers, stable for an element's lifetime
//! but opaque and backend-specific. Each runtime id is mapped to a stable
//! node id, minted from a counter that every backend registry of one outpost
//! shares, so no two backends hand out the same id. Empty runtime ids
//! (unavailable elements) still get an id so events are never dropped, but
//! they are never deduplicated.

use std::collections::HashMap;
use vstd::prelude::*;

verus! {

broadcast use vstd::std_specs::hash::group_hash_axioms;

/// A stable node identity.
#[derive(Clone, Copy, Debug, PartialEq, Eq, Hash)]
pub struct NodeId(pub u64);

/// The mapping from runtime ids to node ids as the contracts see it: the
/// pairs in minting order.
pub open spec fn table_ids(entries: Seq<(Vec<i32>, u64)>) -> Seq<(Seq<i32>, u64)> {
    entries.map_values(|e: (Vec<i32>, u64)| (e.0@, e.1))
}

/// The table's invariant: every runtime id is non-empty and listed once,
/// every node id is listed once and below the counter's next value.
pub open spec fn table_wf(pairs: Seq<(Seq<i32>, u64)>, counter: u64) -> bool {
    &&& forall|i: int| 0 <= i < pairs.len() ==> pairs[i].0.len() > 0 && pairs[i].1 < counter
    &&& forall|i: int, j: int| 0 <= i < j < pairs.len() ==> pairs[i].0 != pairs[j].0 && pairs[i].1 != pairs[j].1
}

/// The node id mapped to `runtime_id`, if any.
pub open spec fn lookup_runtime(pairs: Seq<(Seq<i32>, u64)>, runtime_id: Seq<i32>) -> Option<u64> {
    if exists|i: int| 0 <= i < pairs.len() && pairs[i].0 == runtime_id {
        let i = choose|i: int| 0 <= i < pairs.len() && pairs[i].0 == runtime_id;
        Some(pairs[i].1)
    } else {
        None
    }
}

/// The runtime id mapped to `node`, if any.
pub open spec fn lookup_node(pairs: Seq<(Seq<i32>, u64)>, node: u64) -> Option<Seq<i32>> {
    if exists|i: int| 0 <= i < pairs.len() && pairs[i].1 == node {
        let i = choose|i: int| 0 <= i < pairs.len() && pairs[i].1 == node;
        Some(pairs[i].0)
    } else {
        None
    }
}

/// Maps runtime ids to stable node ids, and back for re-fetching.
pub struct NodeIdTable {
    entries: Vec<(Vec<i32>, u64)>,
}

impl NodeIdTable {
    /// The (runtime id, node id) pairs, in minting order.
    pub closed spec fn pairs(&self) -> Seq<(Seq<i32>, u64)> {
        table_ids(self.entries@)
    }

    /// An empty table.
    pub fn new() -> (r: Self)
        ensures
            r.pairs() == Seq::<(Seq<i32>, u64)>::empty(),
    {
        let r = NodeIdTable { entries: Vec::new() };
        assert(r.pairs() =~= Seq::<(Seq<i32>, u64)>::empty());
        r
    }

    /// The position of `runtime_id` in the table.
    fn position_of(&self, runtime_id: &[i32]) -> (r: Option<usize>)
        ensures
            match r {
                Some(i) => i < self.pairs().len() && self.pairs()[i as int].0 == runtime_id@,
                None => forall|i: int| 0 <= i < self.pairs().len() ==> self.pairs()[i].0 != runtime_id@,
            },
    {
        let mut i: usize = 0;
        while i < self.entries.len()
            invariant
                i <= self.entries@.len(),
                forall|j: int| 0 <= j < i ==> self.pairs()[j].0 != runtime_id@,
            decreases self.entries.len() - i,
        {
            if int_slices_equal(self.entries[i].0.as_slice(), runtime_id) {
                return Some(i);
            }
            i = i + 1;
        }
        None
    }

    /// The node id for `runtime_id`, minting one from `counter` on first
    /// sight; an empty runtime id always mints a fresh id and is not
    /// remembered.
    pub fn id_for(&mut self, runtime_id: &[i32], counter: &mut u64) -> (r: NodeId)
        requires
            table_wf(old(self).pairs(), *old(counter)),
            *old(counter) < u64::MAX,
        ensures
            table_wf(final(self).pairs(), *final(counter)),
            match lookup_runtime(old(self).pairs(), runtime_id@) {
                Some(id) => {
                    &&& runtime_id@.len() > 0
                    &&& r.0 == id
                    &&& *final(counter) == *old(counter)
                    &&& final(self).pairs() == old(self).pairs()
                },
                None => {
                    &&& r.0 == *old(counter)
                    &&& *final(counter) == *old(counter) + 1
                    &&& final(self).pairs() == if runtime_id@.len() > 0 {
                        old(self).pairs().push((runtime_id@, r.0))
                    } else {
                        old(self).pairs()
                    }
                },
            },
    {
        let ghost before = self.pairs();
        if runtime_id.len() > 0 {
            if let Some(i) = self.position_of(runtime_id) {
                proof {
                    assert(before[i as int].0 == runtime_id@);
                    let k = choose|k: int| 0 <= k < before.len() && before[k].0 == runtime_id@;
                    if k != i as int {
                        assert(before[k].0 != before[i as int].0);
                    }
                }
                return NodeId(self.entries[i].1);
            }
        } else {
            proof {
                assert(forall|k: int| 0 <= k < before.len() ==> before[k].0 != runtime_id@);
            }
        }
        let id = *counter;
        *counter = *counter + 1;
        if runtime_id.len() > 0 {
            let copy = int_slice_to_vec(runtime_id);
            self.entries.push((copy, id));
            assert(self.pairs() =~= before.push((runtime_id@, id)));
        }
        NodeId(id)
    }

    /// The runtime id previously mapped to `node`, for re-fetching it.
    pub fn runtime_id_of(&self, node: NodeId) -> (r: Option<Vec<i32>>)
        requires
            forall|i: int, j: int|
                0 <= i < j < self.pairs().len() ==> self.pairs()[i].1 != self.pairs()[j].1,
        ensures
            match lookup_node(self.pairs(), node.0) {
                Some(runtime_id) => r matches Some(v) && v@ == runtime_id,
                None => r is None,
            },
    {
        let mut i: usize = 0;
        while i < self.entries.len()
            invariant
                i <= self.entries@.len(),
                forall|j: int| 0 <= j < i ==> self.pairs()[j].1 != node.0,
                forall|a: int, b: int|
                    0 <= a < b < self.pairs().len() ==> self.pairs()[a].1 != self.pairs()[b].1,
            decreases self.entries.len() - i,
        {
            if self.entries[i].1 == node.0 {
                proof {
                    let pairs = self.pairs();
                    assert(pairs[i as int].1 == node.0);
                    let k = choose|k: int| 0 <= k < pairs.len() && pairs[k].1 == node.0;
                    if k < i as int {
                        assert(self.pairs()[k].1 != self.pairs()[i as int].1);
                    } else if k > i as int {
                        assert(self.pairs()[i as int].1 != self.pairs()[k].1);
                    }
                }
                return Some(int_slice_to_vec(self.entries[i].0.as_slice()));
            }
            i = i + 1;
        }
        None
    }
}

/// Whether two integer slices hold the same values.
fn int_slices_equal(a: &[i32], b: &[i32]) -> (r: bool)
    ensures
        r == (a@ == b@),
{
    if a.len() != b.len() {
        return false;
    }
    let mut i: usize = 0;
    while i < a.len()
        invariant
            a@.len() == b@.len(),
            i <= a@.len(),
            forall|j: int| 0 <= j < i ==> a@[j] == b@[j],
        decreases a.len() - i,
    {
        if a[i] != b[i] {
            return false;
        }
        i = i + 1;
    }
    assert(a@ =~= b@);
    true
}

/// A vector holding the values of an integer slice.
fn int_slice_to_vec(a: &[i32]) -> (r: Vec<i32>)
    ensures
        r@ == a@,
{
    let mut r: Vec<i32> = Vec::new();
    let mut i: usize = 0;
    while i < a.len()
        invariant
            i <= a@.len(),
            r@ == a@.subrange(0, i as int),
        decreases a.len() - i,
    {
        r.push(a[i]);
        i = i + 1;
        assert(r@ =~= a@.subrange(0, i as int));
    }
    assert(a@.subrange(0, a@.len() as int) =~= a@);
    r
}

/// The same runtime id always maps to the same node id, and an id once
/// mapped maps back to its runtime id.
pub proof fn law_runtime_ids_round_trip(pairs: Seq<(Seq<i32>, u64)>, counter: u64, runtime_id: Seq<i32>)
    requires
        table_wf(pairs, counter),
        counter < u64::MAX,
        runtime_id.len() > 0,
        lookup_runtime(pairs, runtime_id) is None,
    ensures
        lookup_runtime(pairs.push((runtime_id, counter)), runtime_id) == Some(counter),
        lookup_node(pairs.push((runtime_id, counter)), counter) == Some(runtime_id),
        table_wf(pairs.push((runtime_id, counter)), (counter + 1) as u64),
{
    let after = pairs.push((runtime_id, counter));
    let n = pairs.len() as int;
    assert(after[n].0 == runtime_id);
    assert(after[n].1 == counter);
    let k = choose|k: int| 0 <= k < after.len() && after[k].0 == runtime_id;
    assert(k == n);
    let m = choose|m: int| 0 <= m < after.len() && after[m].1 == counter;
    if m < n {
        assert(pairs[m].1 < counter);
    }
    assert forall|i: int| 0 <= i < n implies pairs[i].0 != runtime_id by {
        if pairs[i].0 == runtime_id {
            assert(exists|j: int| 0 <= j < pairs.len() && pairs[j].0 == runtime_id);
        }
    }
    assert forall|i: int, j: int| 0 <= i < j < after.len() implies after[i].0 != after[j].0 && after[i].1 != after[j].1 by {
        if j == n {
            assert(pairs[i].1 < counter);
        }
    }
}

/// Ids minted from one counter never repeat: every id a table holds is below
/// the counter's next value, so the next one minted, by this table or by
/// another sharing the counter, is new to it.
pub proof fn law_shared_counter_ids_are_fresh(pairs: Seq<(Seq<i32>, u64)>, counter: u64)
    requires
        table_wf(pairs, counter),
    ensures
        lookup_node(pairs, counter) is None,
{
    if exists|i: int| 0 <= i < pairs.len() && pairs[i].1 == counter {
        let i = choose|i: int| 0 <= i < pairs.len() && pairs[i].1 == counter;
        assert(pairs[i].1 < counter);
    }
}

/// No node id is held by both tables.
pub open spec fn ids_disjoint(a: Seq<(Seq<i32>, u64)>, b: Seq<(Seq<i32>, u64)>) -> bool {
    forall|i: int, j: int| 0 <= i < a.len() && 0 <= j < b.len() ==> #[trigger] a[i].1 != #[trigger] b[j].1
}

/// Two tables that mint from one shared counter never hand out the same
/// node id: whatever `id_for` does on one of them (reuse an id, mint one
/// for a new runtime id, or mint one for an empty runtime id), both stay
/// well formed against the counter, the id it answers is held by the other
/// table only if it was already held by the first, and their ids stay
/// disjoint.
pub proof fn law_tables_sharing_a_counter_never_collide(
    a: Seq<(Seq<i32>, u64)>,
    b: Seq<(Seq<i32>, u64)>,
    counter: u64,
    runtime_id: Seq<i32>,
)
    requires
        table_wf(a, counter),
        table_wf(b, counter),
        ids_disjoint(a, b),
        counter < u64::MAX,
    ensures
        lookup_node(b, counter) is None,
        lookup_node(a, counter) is None,
        table_wf(b, (counter + 1) as u64),
        lookup_runtime(a, runtime_id) is None && runtime_id.len() > 0 ==> {
            &&& table_wf(a.push((runtime_id, counter)), (counter + 1) as u64)
            &&& ids_disjoint(a.push((runtime_id, counter)), b)
        },
        table_wf(a, (counter + 1) as u64),
        lookup_runtime(a, runtime_id) matches Some(id) ==> lookup_node(b, id) is None,
{
    law_shared_counter_ids_are_fresh(a, counter);
    law_shared_counter_ids_are_fresh(b, counter);
    if lookup_runtime(a, runtime_id) is None && runtime_id.len() > 0 {
        law_runtime_ids_round_trip(a, counter, runtime_id);
        let after = a.push((runtime_id, counter));
        assert forall|i: int, j: int| 0 <= i < after.len() && 0 <= j < b.len() implies #[trigger] after[i].1
            != #[trigger] b[j].1 by {
            if i == a.len() {
                assert(b[j].1 < counter);
            } else {
                assert(after[i] == a[i]);
                assert(a[i].1 != b[j].1);
            }
        }
    }
    if lookup_runtime(a, runtime_id) is Some {
        let i = choose|i: int| 0 <= i < a.len() && a[i].0 == runtime_id;
        let id = a[i].1;
        if exists|j: int| 0 <= j < b.len() && b[j].1 == id {
            let j = choose|j: int| 0 <= j < b.len() && b[j].1 == id;
            assert(a[i].1 != b[j].1);
        }
    }
}

/// The node-id law of one table, and of two tables that share a counter and
/// keep their ids apart (as `id_for` keeps them, see
/// [`law_tables_sharing_a_counter_never_collide`]): two runtime ids get the
/// same node id exactly when they are the same runtime id; a mapped node id
/// maps back to its runtime id; no node id of one table is a node id of the
/// other; and an empty runtime id is never mapped, so `id_for` mints a fresh
/// id for it on every call and no node id maps back to it.
pub proof fn law_node_ids_map_one_to_one(
    pairs: Seq<(Seq<i32>, u64)>,
    other: Seq<(Seq<i32>, u64)>,
    counter: u64,
)
    requires
        table_wf(pairs, counter),
        table_wf(other, counter),
        ids_disjoint(pairs, other),
    ensures
        forall|a: Seq<i32>, b: Seq<i32>|
            #![trigger lookup_runtime(pairs, a), lookup_runtime(pairs, b)]
            lookup_runtime(pairs, a) is Some && lookup_runtime(pairs, b) is Some ==> (lookup_runtime(pairs, a)
                == lookup_runtime(pairs, b) <==> a == b),
        forall|a: Seq<i32>|
            #![trigger lookup_runtime(pairs, a)]
            lookup_runtime(pairs, a) matches Some(id) ==> lookup_node(pairs, id) == Some(a),
        forall|a: Seq<i32>, b: Seq<i32>|
            #![trigger lookup_runtime(pairs, a), lookup_runtime(other, b)]
            lookup_runtime(pairs, a) is Some && lookup_runtime(other, b) is Some ==> lookup_runtime(pairs, a)
                != lookup_runtime(other, b),
        lookup_runtime(pairs, Seq::<i32>::empty()) is None,
        forall|id: u64| #![trigger lookup_node(pairs, id)] lookup_node(pairs, id) matches Some(a) ==> a.len() > 0,
{
    assert forall|a: Seq<i32>, b: Seq<i32>|
        #![trigger lookup_runtime(pairs, a), lookup_runtime(pairs, b)]
        lookup_runtime(pairs, a) is Some && lookup_runtime(pairs, b) is Some implies (lookup_runtime(pairs, a)
            == lookup_runtime(pairs, b) <==> a == b) by {
        let i = choose|i: int| 0 <= i < pairs.len() && pairs[i].0 == a;
        let j = choose|j: int| 0 <= j < pairs.len() && pairs[j].0 == b;
        if a != b {
            assert(i != j);
            if i < j {
                assert(pairs[i].1 != pairs[j].1);
            } else {
                assert(pairs[j].1 != pairs[i].1);
            }
        }
    }
    assert forall|a: Seq<i32>|
        #![trigger lookup_runtime(pairs, a)]
        lookup_runtime(pairs, a) is Some implies lookup_node(pairs, lookup_runtime(pairs, a).unwrap()) == Some(a) by {
        let i = choose|i: int| 0 <= i < pairs.len() && pairs[i].0 == a;
        let id = pairs[i].1;
        let k = choose|k: int| 0 <= k < pairs.len() && pairs[k].1 == id;
        if k != i {
            if k < i {
                assert(pairs[k].1 != pairs[i].1);
            } else {
                assert(pairs[i].1 != pairs[k].1);
            }
        }
    }
    assert forall|a: Seq<i32>, b: Seq<i32>|
        #![trigger lookup_runtime(pairs, a), lookup_runtime(other, b)]
        lookup_runtime(pairs, a) is Some && lookup_runtime(other, b) is Some implies lookup_runtime(pairs, a)
            != lookup_runtime(other, b) by {
        let i = choose|i: int| 0 <= i < pairs.len() && pairs[i].0 == a;
        let j = choose|j: int| 0 <= j < other.len() && other[j].0 == b;
        assert(pairs[i].1 != other[j].1);
    }
    if exists|i: int| 0 <= i < pairs.len() && pairs[i].0 == Seq::<i32>::empty() {
        let i = choose|i: int| 0 <= i < pairs.len() && pairs[i].0 == Seq::<i32>::empty();
        assert(pairs[i].0.len() > 0);
    }
    assert forall|id: u64| #![trigger lookup_node(pairs, id)] lookup_node(pairs, id) is Some implies lookup_node(
        pairs,
        id,
    ).unwrap().len() > 0 by {
        let k = choose|k: int| 0 <= k < pairs.len() && pairs[k].1 == id;
        assert(pairs[k].0.len() > 0);
    }
}

/// Cap on cached live elements: at this size the cache is cleared rather
/// than grown, and lookups fall back to searching until it refills.
pub const MAX_CACHED_ELEMENTS: usize = 2048;

/// The live elements cached behind node ids, bounded by
/// [`MAX_CACHED_ELEMENTS`].
pub struct ElementCache<E> {
    elements: HashMap<u64, E>,
}

impl<E> View for ElementCache<E> {
    type V = Map<u64, E>;

    closed spec fn view(&self) -> Map<u64, E> {
        self.elements@
    }
}

impl<E> ElementCache<E> {
    /// An empty cache.
    pub fn new() -> (r: Self)
        ensures
            r@ == Map::<u64, E>::empty(),
    {
        ElementCache { elements: HashMap::new() }
    }

    /// Caches `element` behind `node`, replacing an older one; a full cache
    /// is cleared first.
    pub fn insert(&mut self, node: NodeId, element: E)
        ensures
            final(self)@ == (if old(self)@.len() >= MAX_CACHED_ELEMENTS {
                Map::<u64, E>::empty()
            } else {
                old(self)@
            }).insert(node.0, element),
    {
        if self.elements.len() >= MAX_CACHED_ELEMENTS {
            self.elements.clear();
        }
        self.elements.insert(node.0, element);
    }

    /// The cached element behind `node`, if any.
    pub fn get(&self, node: NodeId) -> (r: Option<&E>)
        ensures
            match r {
                Some(e) => self@.contains_key(node.0) && *e == self@[node.0],
                None => !self@.contains_key(node.0),
            },
    {
        self.elements.get(&node.0)
    }

    /// Drops the cached element behind `node`, so the next lookup searches.
    pub fn evict(&mut self, node: NodeId)
        ensures
            final(self)@ == old(self)@.remove(node.0),
    {
        self.elements.remove(&node.0);
    }

    /// The number of cached elements.
    pub fn len(&self) -> (r: usize)
        ensures
            r == self@.len(),
    {
        self.elements.len()
    }
}

/// The cache never holds more than its cap.
pub proof fn law_cache_stays_bounded<E>(m: Map<u64, E>, node: u64, element: E)
    requires
        m.dom().finite(),
        m.len() <= MAX_CACHED_ELEMENTS,
    ensures
        (if m.len() >= MAX_CACHED_ELEMENTS {
            Map::<u64, E>::empty()
        } else {
            m
        }).insert(node, element).len() <= MAX_CACHED_ELEMENTS,
{
    if m.len() >= MAX_CACHED_ELEMENTS {
        assert(Map::<u64, E>::empty().insert(node, element).dom() =~= set![node]);
    } else {
        if m.contains_key(node) {
            assert(m.insert(node, element).dom() =~= m.dom());
        } else {
            assert(m.insert(node, element).dom() =~= m.dom().insert(node));
        }
    }
}

} // verus!
