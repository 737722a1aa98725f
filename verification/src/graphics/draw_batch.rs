use std::ops::Range;

use vstd::prelude::*;

verus! {

/// Which mesh is drawn with which material; draws with equal keys are
/// batched together.
#[derive(Clone, Copy, Debug, PartialEq, Eq, Structural, PartialOrd, Ord, Hash)]
pub struct MeshMaterialPairKey {
    pub mesh: usize,
    pub material: usize,
}

/// The instances collected for one key, and the value to draw them with.
#[derive(Debug)]
struct BatchEntry<V, I> {
    value: V,
    instances: Vec<I>,
}

/// One draw call of a prepared batch: the range of instances in the
/// instance list, and the value to draw them with.
#[derive(Debug)]
pub struct BatchItem<V> {
    pub range: Range<u32>,
    pub value: V,
}

/// The outcome of [`DrawBatcher::prepare`]: all instances in one list, to be
/// uploaded to the instance buffer, and one item per key.
#[derive(Debug)]
pub struct PreparedBatch<V, I> {
    pub instances: Vec<I>,
    pub items: Vec<BatchItem<V>>,
}

/// A draw call that binds part of the instance buffer: the bounds of the
/// buffer slice bound to the instance slot, and the instances drawn from it.
#[derive(Debug)]
pub struct InstanceDraw {
    pub slice: Range<u64>,
    pub instances: Range<u32>,
}

/// The draw call for a batch whose instances are `start..end` of the
/// uploaded instance list, as the renderer's own batcher issues it: the
/// slice bounds are these instance indices, passed unchanged where the
/// buffer slice takes byte offsets, and the call draws instances `0` up to
/// the batch size (taken as a `u32`) of that slice.
pub fn instance_draw(start: u64, end: u64) -> (d: InstanceDraw)
    requires
        start <= end,
    ensures
        d.slice.start == start,
        d.slice.end == end,
        d.instances.start == 0,
        d.instances.end == (end - start) as u32,
{
    let num_instances = (end - start) as u32;
    InstanceDraw { slice: start..end, instances: 0..num_instances }
}

/// The instances of all entries, entry after entry.
pub open spec fn all_instances<V, I>(entries: Seq<(MeshMaterialPairKey, V, Seq<I>)>) -> Seq<I>
    decreases entries.len(),
{
    if entries.len() == 0 {
        Seq::empty()
    } else {
        all_instances(entries.drop_last()) + entries.last().2
    }
}

/// Where the instances of entry `k` start in [`all_instances`].
pub open spec fn instance_offset<V, I>(entries: Seq<(MeshMaterialPairKey, V, Seq<I>)>, k: int) -> nat {
    all_instances(entries.take(k)).len()
}

/// The entries of a batcher as seen from outside: key, value and
/// instances.
spec fn view_entries<V, I>(v: Seq<(MeshMaterialPairKey, BatchEntry<V, I>)>) -> Seq<(MeshMaterialPairKey, V, Seq<I>)> {
    v.map_values(|e: (MeshMaterialPairKey, BatchEntry<V, I>)| (e.0, e.1.value, e.1.instances@))
}

/// No key occurs twice among `entries`.
pub open spec fn keys_distinct<V, I>(entries: Seq<(MeshMaterialPairKey, V, Seq<I>)>) -> bool {
    forall|i: int, j: int| 0 <= i < j < entries.len() ==> entries[i].0 != entries[j].0
}

/// The entries after pushing `instance` with `key`: appended to the batch of
/// `key` where there is one, else a new batch drawn with `value` at the end.
pub open spec fn push_entry<V, I>(
    entries: Seq<(MeshMaterialPairKey, V, Seq<I>)>,
    key: MeshMaterialPairKey,
    value: V,
    instance: I,
) -> Seq<(MeshMaterialPairKey, V, Seq<I>)> {
    if exists|p: int| 0 <= p < entries.len() && entries[p].0 == key {
        let p = choose|p: int| 0 <= p < entries.len() && entries[p].0 == key;
        entries.update(p, (entries[p].0, entries[p].1, entries[p].2.push(instance)))
    } else {
        entries.push((key, value, seq![instance]))
    }
}

/// The entries of an empty batcher after the pushes of `history`, each a
/// key, the value its closure made (used where the key is new) and an
/// instance.
pub open spec fn batched<V, I>(history: Seq<(MeshMaterialPairKey, V, I)>) -> Seq<(MeshMaterialPairKey, V, Seq<I>)>
    decreases history.len(),
{
    if history.len() == 0 {
        Seq::empty()
    } else {
        let h = history.last();
        push_entry(batched(history.drop_last()), h.0, h.1, h.2)
    }
}

/// Whether some entry is the batch of `key`.
pub open spec fn has_batch<V, I>(entries: Seq<(MeshMaterialPairKey, V, Seq<I>)>, key: MeshMaterialPairKey) -> bool {
    exists|p: int| 0 <= p < entries.len() && #[trigger] entries[p].0 == key
}

/// Whether some push of `history` has `key`.
pub open spec fn was_pushed<V, I>(history: Seq<(MeshMaterialPairKey, V, I)>, key: MeshMaterialPairKey) -> bool {
    exists|j: int| 0 <= j < history.len() && #[trigger] history[j].0 == key
}

/// The instances pushed with `key`, in push order.
pub open spec fn instances_of<V, I>(history: Seq<(MeshMaterialPairKey, V, I)>, key: MeshMaterialPairKey) -> Seq<I>
    decreases history.len(),
{
    if history.len() == 0 {
        Seq::empty()
    } else {
        let rest = instances_of(history.drop_last(), key);
        if history.last().0 == key {
            rest.push(history.last().2)
        } else {
            rest
        }
    }
}

/// Collects instances to draw, grouped by key.
#[derive(Debug)]
pub struct DrawBatcher<V, I> {
    entries: Vec<(MeshMaterialPairKey, BatchEntry<V, I>)>,
}

impl<V, I> DrawBatcher<V, I> {
    #[verifier::type_invariant]
    spec fn inv(self) -> bool {
        keys_distinct(view_entries(self.entries@))
    }

    /// The collected entries in the order their keys were first seen: key,
    /// value and instances.
    pub closed spec fn entries(&self) -> Seq<(MeshMaterialPairKey, V, Seq<I>)> {
        view_entries(self.entries@)
    }

    /// An empty batcher.
    pub fn new() -> (b: Self)
        ensures
            b.entries() == Seq::<(MeshMaterialPairKey, V, Seq<I>)>::empty(),
    {
        let b = DrawBatcher { entries: Vec::new() };
        assert(b.entries() =~= Seq::<(MeshMaterialPairKey, V, Seq<I>)>::empty());
        b
    }

    /// Adds `instance` to the batch of `key`. For a key not seen before,
    /// `value` is called to make the value its batch is drawn with.
    pub fn push<F>(&mut self, key: MeshMaterialPairKey, value: F, instance: I)
        where F: FnOnce() -> V
        requires
            value.requires(()),
        ensures
            keys_distinct(old(self).entries()),
            keys_distinct(final(self).entries()),
            final(self).entries() == push_entry(old(self).entries(), key, final(self).entries().last().1, instance),
            (exists|p: int| 0 <= p < old(self).entries().len() && old(self).entries()[p].0 == key)
                ==> ({
                let p = choose|p: int| 0 <= p < old(self).entries().len() && old(self).entries()[p].0 == key;
                let e = old(self).entries()[p];
                final(self).entries() == old(self).entries().update(p, (e.0, e.1, e.2.push(instance)))
            }),
            (forall|p: int| 0 <= p < old(self).entries().len() ==> old(self).entries()[p].0 != key)
                ==> ({
                &&& final(self).entries().len() == old(self).entries().len() + 1
                &&& final(self).entries().drop_last() == old(self).entries()
                &&& final(self).entries().last().0 == key
                &&& value.ensures((), final(self).entries().last().1)
                &&& final(self).entries().last().2 == seq![instance]
            }),
    {
        proof {
            use_type_invariant(&*self);
        }
        let mut map: Vec<(MeshMaterialPairKey, BatchEntry<V, I>)> = Vec::new();
        std::mem::swap(&mut map, &mut self.entries);
        let ghost before = view_entries(map@);
        assert(before == old(self).entries());
        let mut i: usize = 0;
        while i < map.len()
            invariant
                0 <= i <= map@.len(),
                view_entries(map@) == before,
                before == old(self).entries(),
                keys_distinct(before),
                forall|j: int| 0 <= j < i ==> before[j].0 != key,
            decreases map@.len() - i,
        {
            if map[i].0 == key {
                assert(before[i as int].0 == key);
                map[i].1.instances.push(instance);
                proof {
                    let p = choose|p: int| 0 <= p < before.len() && before[p].0 == key;
                    if p != i {
                        if p < i {
                            assert(before[p].0 != before[i as int].0);
                        } else {
                            assert(before[i as int].0 != before[p].0);
                        }
                    }
                    let e = before[i as int];
                    assert(view_entries(map@) =~= before.update(i as int, (e.0, e.1, e.2.push(instance))));
                    assert forall|a: int, b: int| 0 <= a < b < view_entries(map@).len() implies view_entries(map@)[a].0 != view_entries(map@)[b].0 by {
                        assert(before[a].0 != before[b].0);
                    }
                }
                self.entries = map;
                assert(self.entries() == before.update(i as int, (before[i as int].0, before[i as int].1, before[i as int].2.push(instance))));
                return;
            }
            i = i + 1;
        }
        let v = value();
        let mut instances = Vec::new();
        instances.push(instance);
        map.push((key, BatchEntry { value: v, instances }));
        assert(view_entries(map@).drop_last() =~= before);
        assert forall|a: int, b: int| 0 <= a < b < view_entries(map@).len() implies view_entries(map@)[a].0 != view_entries(map@)[b].0 by {
            assert(view_entries(map@)[a] == before[a]);
            if b < before.len() {
                assert(before[a].0 != before[b].0);
            } else {
                assert(view_entries(map@)[b].0 == key);
                assert(before[a].0 != key);
            }
        }
        self.entries = map;
    }

    /// Lays the collected instances out in one list, key after key, and
    /// empties the batcher. Returns `None` when nothing was collected.
    pub fn prepare(&mut self) -> (r: Option<PreparedBatch<V, I>>)
        ensures
            keys_distinct(old(self).entries()),
            final(self).entries().len() == 0,
            old(self).entries().len() == 0 <==> r is None,
            r matches Some(batch) ==> {
                let e = old(self).entries();
                &&& batch.instances@ == all_instances(e)
                &&& batch.items@.len() == e.len()
                &&& forall|k: int| 0 <= k < e.len() ==> {
                    &&& (#[trigger] batch.items@[k]).value == e[k].1
                    &&& batch.items@[k].range.start == instance_offset(e, k) as u32
                    &&& batch.items@[k].range.end == instance_offset(e, k + 1) as u32
                }
            },
    {
        proof {
            use_type_invariant(&*self);
        }
        let ghost e = self.entries();
        let mut queue = Vec::new();
        std::mem::swap(&mut queue, &mut self.entries);
        let n = queue.len();
        // reverse the queue, so that popping yields the entries in order
        let mut entries: Vec<(MeshMaterialPairKey, BatchEntry<V, I>)> = Vec::new();
        while queue.len() > 0
            invariant
                n == e.len(),
                queue@.len() + entries@.len() == n,
                forall|j: int| 0 <= j < queue@.len() ==> ({
                    let x = #[trigger] queue@[j];
                    (x.0, x.1.value, x.1.instances@) == e[j]
                }),
                forall|j: int| 0 <= j < entries@.len() ==> ({
                    let x = #[trigger] entries@[j];
                    (x.0, x.1.value, x.1.instances@) == e[n - 1 - j]
                }),
                self.entries@.len() == 0,
            decreases queue@.len(),
        {
            let x = queue.pop().unwrap();
            entries.push(x);
        }
        let mut instances: Vec<I> = Vec::new();
        let mut items: Vec<BatchItem<V>> = Vec::new();
        let mut k: usize = 0;
        assert(e.take(0) =~= Seq::<(MeshMaterialPairKey, V, Seq<I>)>::empty());
        while entries.len() > 0
            invariant
                0 <= k <= n,
                n == e.len(),
                entries@.len() == n - k,
                forall|j: int| 0 <= j < n - k ==> ({
                    let x = #[trigger] entries@[j];
                    (x.0, x.1.value, x.1.instances@) == e[n - 1 - j]
                }),
                instances@ == all_instances(e.take(k as int)),
                items@.len() == k,
                forall|j: int| 0 <= j < k ==> {
                    &&& (#[trigger] items@[j]).value == e[j].1
                    &&& items@[j].range.start == instance_offset(e, j) as u32
                    &&& items@[j].range.end == instance_offset(e, j + 1) as u32
                },
                self.entries@.len() == 0,
            decreases entries@.len(),
        {
            let (_key, mut entry) = entries.pop().unwrap();
            assert(e.take(k + 1).drop_last() =~= e.take(k as int));
            assert(e.take(k + 1).last() == e[k as int]);
            let start = instances.len() as u32;
            instances.append(&mut entry.instances);
            let end = instances.len() as u32;
            items.push(BatchItem { range: start..end, value: entry.value });
            k = k + 1;
        }
        assert(e.take(n as int) =~= e);
        assert(self.entries() =~= Seq::<(MeshMaterialPairKey, V, Seq<I>)>::empty());
        if items.len() > 0 {
            Some(PreparedBatch { instances, items })
        } else {
            None
        }
    }
}

proof fn lemma_all_instances_concat<V, I>(
    a: Seq<(MeshMaterialPairKey, V, Seq<I>)>,
    b: Seq<(MeshMaterialPairKey, V, Seq<I>)>,
)
    ensures
        all_instances(a + b) == all_instances(a) + all_instances(b),
    decreases b.len(),
{
    if b.len() == 0 {
        assert(a + b =~= a);
        assert(all_instances(a) + all_instances(b) =~= all_instances(a));
    } else {
        lemma_all_instances_concat(a, b.drop_last());
        assert((a + b).drop_last() =~= a + b.drop_last());
        assert(all_instances(a + b) =~= all_instances(a) + all_instances(b));
    }
}

/// Law: in the instance list of a prepared batch, the range of entry `k`
/// holds exactly the instances pushed with its key, in push order, and it
/// starts where the range of the entry before it ends.
pub proof fn law_batch_range_holds_the_entry<V, I>(
    e: Seq<(MeshMaterialPairKey, V, Seq<I>)>,
    k: int,
)
    requires
        0 <= k < e.len(),
    ensures
        instance_offset(e, k + 1) == instance_offset(e, k) + e[k].2.len(),
        instance_offset(e, k + 1) <= all_instances(e).len(),
        all_instances(e).subrange(instance_offset(e, k) as int, instance_offset(e, k + 1) as int)
            == e[k].2,
{
    assert(e.take(k + 1).drop_last() =~= e.take(k));
    assert(e =~= e.take(k + 1) + e.skip(k + 1));
    lemma_all_instances_concat(e.take(k + 1), e.skip(k + 1));
    assert(all_instances(e.take(k + 1)) == all_instances(e.take(k)) + e[k].2);
}

/// Law: the ranges of a prepared batch start at 0 and end with the instance
/// list.
pub proof fn law_batch_ranges_cover_all<V, I>(e: Seq<(MeshMaterialPairKey, V, Seq<I>)>)
    ensures
        instance_offset(e, 0) == 0,
        instance_offset(e, e.len() as int) == all_instances(e).len(),
{
    assert(e.take(0) =~= Seq::<(MeshMaterialPairKey, V, Seq<I>)>::empty());
    assert(e.take(e.len() as int) =~= e);
}

/// Law: a push to a key already seen adds exactly one instance.
pub proof fn law_push_adds_one_instance<V, I>(
    e: Seq<(MeshMaterialPairKey, V, Seq<I>)>,
    p: int,
    instance: I,
)
    requires
        0 <= p < e.len(),
    ensures
        all_instances(e.update(p, (e[p].0, e[p].1, e[p].2.push(instance)))).len() == all_instances(e).len() + 1,
{
    let u = e.update(p, (e[p].0, e[p].1, e[p].2.push(instance)));
    let one = seq![e[p]];
    let one_u = seq![u[p]];
    assert(e =~= e.take(p) + one + e.skip(p + 1));
    assert(u =~= e.take(p) + one_u + e.skip(p + 1));
    lemma_all_instances_concat(e.take(p) + one, e.skip(p + 1));
    lemma_all_instances_concat(e.take(p), one);
    lemma_all_instances_concat(e.take(p) + one_u, e.skip(p + 1));
    lemma_all_instances_concat(e.take(p), one_u);
    assert(one.drop_last() =~= Seq::<(MeshMaterialPairKey, V, Seq<I>)>::empty());
    assert(one_u.drop_last() =~= Seq::<(MeshMaterialPairKey, V, Seq<I>)>::empty());
}

/// Law: a push to a new key adds the instances of its new entry (one, as
/// [`DrawBatcher::push`] makes it) after all earlier ones.
pub proof fn law_new_key_appends_its_instances<V, I>(
    e: Seq<(MeshMaterialPairKey, V, Seq<I>)>,
    new_entry: (MeshMaterialPairKey, V, Seq<I>),
)
    ensures
        all_instances(e.push(new_entry)) == all_instances(e) + new_entry.2,
{
    assert(e.push(new_entry).drop_last() =~= e);
}

/// Law: pushing a history of instances onto an empty batcher gives one
/// batch per distinct key, in the order the keys first came; the batch of a
/// key holds exactly the instances pushed with it, in push order, and is
/// drawn with the value made at the first push of that key. All batches
/// together hold as many instances as were pushed.
pub proof fn law_batches_follow_the_pushes<V, I>(history: Seq<(MeshMaterialPairKey, V, I)>)
    ensures
        keys_distinct(batched(history)),
        all_instances(batched(history)).len() == history.len(),
        forall|k: MeshMaterialPairKey|
            #![trigger has_batch(batched(history), k)]
            #![trigger was_pushed(history, k)]
            has_batch(batched(history), k) <==> was_pushed(history, k),
        forall|p: int| #![trigger batched(history)[p]] 0 <= p < batched(history).len() ==> {
            let e = batched(history)[p];
            &&& e.2 == instances_of(history, e.0)
            &&& exists|j: int| #![trigger history[j]] 0 <= j < history.len() && history[j].0 == e.0 && history[j].1 == e.1
                && forall|i: int| 0 <= i < j ==> history[i].0 != e.0
        },
    decreases history.len(),
{
    if history.len() > 0 {
        let rest = history.drop_last();
        let x = history.last();
        law_batches_follow_the_pushes(rest);
        let b = batched(rest);
        let n = history.len() - 1;
        assert forall|j: int| 0 <= j < rest.len() implies rest[j] == history[j] by {}
        if exists|p: int| 0 <= p < b.len() && b[p].0 == x.0 {
            let p = choose|p: int| 0 <= p < b.len() && b[p].0 == x.0;
            let c = b.update(p, (b[p].0, b[p].1, b[p].2.push(x.2)));
            assert(batched(history) == c);
            law_push_adds_one_instance(b, p, x.2);
            assert forall|k: MeshMaterialPairKey|
                #![trigger has_batch(c, k)]
                #![trigger was_pushed(history, k)]
                has_batch(c, k) <==> was_pushed(history, k) by {
                if has_batch(c, k) {
                    let q = choose|q: int| 0 <= q < c.len() && #[trigger] c[q].0 == k;
                    assert(c.len() == b.len());
                    assert(b[q].0 == k);
                    assert(has_batch(b, k));
                    assert(was_pushed(rest, k));
                    let j = choose|j: int| 0 <= j < rest.len() && #[trigger] rest[j].0 == k;
                    assert(history[j].0 == k);
                }
                if was_pushed(history, k) {
                    let j = choose|j: int| 0 <= j < history.len() && #[trigger] history[j].0 == k;
                    if j < n {
                        assert(rest[j].0 == k);
                        assert(was_pushed(rest, k));
                        assert(has_batch(b, k));
                        let q = choose|q: int| 0 <= q < b.len() && #[trigger] b[q].0 == k;
                        assert(c[q].0 == k);
                    } else {
                        assert(c[p].0 == k);
                    }
                }
            }
            assert forall|q: int| #![trigger c[q]] 0 <= q < c.len() implies {
                let e = c[q];
                &&& e.2 == instances_of(history, e.0)
                &&& exists|j: int| #![trigger history[j]] 0 <= j < history.len() && history[j].0 == e.0 && history[j].1 == e.1
                    && forall|i: int| 0 <= i < j ==> history[i].0 != e.0
            } by {
                let e0 = b[q];
                assert(e0.2 == instances_of(rest, e0.0));
                let j = choose|j: int| #![trigger rest[j]] 0 <= j < rest.len() && rest[j].0 == e0.0 && rest[j].1 == e0.1
                    && forall|i: int| 0 <= i < j ==> rest[i].0 != e0.0;
                assert(history[j] == rest[j]);
                assert forall|i: int| 0 <= i < j implies history[i].0 != e0.0 by {
                    assert(history[i] == rest[i]);
                }
                if q != p {
                    assert(b[q].0 != b[p].0) by {
                        if q < p {} else {}
                    }
                }
            }
        } else {
            let c = b.push((x.0, x.1, seq![x.2]));
            assert(batched(history) == c);
            law_new_key_appends_its_instances(b, (x.0, x.1, seq![x.2]));
            assert forall|j: int| 0 <= j < rest.len() implies rest[j].0 != x.0 by {
                if rest[j].0 == x.0 {
                    assert(was_pushed(rest, x.0));
                    assert(has_batch(b, x.0));
                }
            }
            lemma_no_instances_of_absent_key(rest, x.0);
            assert forall|k: MeshMaterialPairKey|
                #![trigger has_batch(c, k)]
                #![trigger was_pushed(history, k)]
                has_batch(c, k) <==> was_pushed(history, k) by {
                if has_batch(c, k) {
                    let q = choose|q: int| 0 <= q < c.len() && #[trigger] c[q].0 == k;
                    if q < b.len() {
                        assert(b[q].0 == k);
                        assert(has_batch(b, k));
                        assert(was_pushed(rest, k));
                        let j = choose|j: int| 0 <= j < rest.len() && #[trigger] rest[j].0 == k;
                        assert(history[j].0 == k);
                    } else {
                        assert(history[n].0 == k);
                    }
                }
                if was_pushed(history, k) {
                    let j = choose|j: int| 0 <= j < history.len() && #[trigger] history[j].0 == k;
                    if j < n {
                        assert(rest[j].0 == k);
                        assert(was_pushed(rest, k));
                        assert(has_batch(b, k));
                        let q = choose|q: int| 0 <= q < b.len() && #[trigger] b[q].0 == k;
                        assert(c[q].0 == k);
                    } else {
                        assert(c[b.len() as int].0 == k);
                    }
                }
            }
            assert forall|q: int| #![trigger c[q]] 0 <= q < c.len() implies {
                let e = c[q];
                &&& e.2 == instances_of(history, e.0)
                &&& exists|j: int| #![trigger history[j]] 0 <= j < history.len() && history[j].0 == e.0 && history[j].1 == e.1
                    && forall|i: int| 0 <= i < j ==> history[i].0 != e.0
            } by {
                if q < b.len() {
                    let e0 = b[q];
                    assert(c[q] == e0);
                    assert(e0.0 != x.0);
                    let j = choose|j: int| #![trigger rest[j]] 0 <= j < rest.len() && rest[j].0 == e0.0 && rest[j].1 == e0.1
                        && forall|i: int| 0 <= i < j ==> rest[i].0 != e0.0;
                    assert(history[j] == rest[j]);
                    assert forall|i: int| 0 <= i < j implies history[i].0 != e0.0 by {
                        assert(history[i] == rest[i]);
                    }
                } else {
                    assert(c[q] == (x.0, x.1, seq![x.2]));
                    assert(instances_of(history, x.0) =~= seq![x.2]);
                    assert(history[n] == x);
                    assert forall|i: int| 0 <= i < n implies history[i].0 != x.0 by {
                        assert(history[i] == rest[i]);
                    }
                }
            }
        }
    }
}

proof fn lemma_no_instances_of_absent_key<V, I>(history: Seq<(MeshMaterialPairKey, V, I)>, key: MeshMaterialPairKey)
    requires
        forall|j: int| 0 <= j < history.len() ==> history[j].0 != key,
    ensures
        instances_of(history, key) == Seq::<I>::empty(),
    decreases history.len(),
{
    if history.len() > 0 {
        let rest = history.drop_last();
        assert forall|j: int| 0 <= j < rest.len() implies rest[j].0 != key by {
            assert(rest[j] == history[j]);
        }
        lemma_no_instances_of_absent_key(rest, key);
    }
}

} // verus!
