use vstd::prelude::*;

use std::collections::HashMap;

use crate::error::{RMIError, RMIResult, RMI_ID};

verus! {

broadcast use vstd::std_specs::hash::group_hash_axioms;

/// The directory of a server: each live object under the id it was given.
/// Ids come from a counter that starts at 1 and only grows, so 0 is never
/// given and no id is given twice, even after its object left.
///
/// The directory itself is a plain value; a server that shares it between
/// connections keeps it behind one reader/writer lock, which makes each
/// operation atomic with respect to the others.
pub struct Registry<O> {
    objects: HashMap<RMI_ID, O>,
    next_id: u32,
}

/// Model of a registry: the live objects by id, and the next id to give.
pub struct RegistryModel<O> {
    pub objects: Map<RMI_ID, O>,
    pub next_id: nat,
}

impl<O> View for Registry<O> {
    type V = RegistryModel<O>;

    closed spec fn view(&self) -> RegistryModel<O> {
        RegistryModel { objects: self.objects@, next_id: self.next_id as nat }
    }
}

impl<O> RegistryModel<O> {
    /// Every id held was given by the counter: it lies between 1 and the
    /// next id to give, which is at most one past the largest id.
    pub open spec fn wf(self) -> bool {
        &&& 1 <= self.next_id <= RMI_ID::MAX + 1
        &&& forall|k: RMI_ID| #[trigger] self.objects.contains_key(k) ==> 1 <= k < self.next_id
    }
}

/// `post` is `pre` after `register` gave `obj` the id `id`.
pub open spec fn register_step<O>(pre: RegistryModel<O>, post: RegistryModel<O>, obj: O, id: RMI_ID) -> bool {
    &&& id == pre.next_id
    &&& post.next_id == pre.next_id + 1
    &&& post.objects == pre.objects.insert(id, obj)
}

/// `post` is `pre` after `deregister(id)`, whether or not `id` was held.
pub open spec fn deregister_step<O>(pre: RegistryModel<O>, post: RegistryModel<O>, id: RMI_ID) -> bool {
    &&& post.next_id == pre.next_id
    &&& post.objects == pre.objects.remove(id)
}

impl<O> Registry<O> {
    /// The registry's invariant: every id held was given by its counter.
    pub open spec fn wf(&self) -> bool {
        self@.wf()
    }

    /// An empty registry, whose first id will be 1.
    pub fn new() -> (r: Self)
        ensures
            r.wf(),
            r@.objects.is_empty(),
            r@.next_id == 1,
    {
        Registry { objects: HashMap::new(), next_id: 1 }
    }

    /// Whether an id is left to give.
    pub fn has_free_id(&self) -> (r: bool)
        ensures
            r == (self@.next_id <= RMI_ID::MAX),
    {
        self.next_id <= 0xffffu32
    }

    /// Holds `object` under a new id, and returns that id.
    pub fn register(&mut self, object: O) -> (id: RMI_ID)
        requires
            old(self).wf(),
            old(self)@.next_id <= RMI_ID::MAX,
        ensures
            final(self).wf(),
            register_step(old(self)@, final(self)@, object, id),
            !old(self)@.objects.contains_key(id),
            id >= 1,
    {
        let id = self.next_id as u16;
        self.next_id = self.next_id + 1;
        self.objects.insert(id, object);
        assert forall|k: RMI_ID| #[trigger] self@.objects.contains_key(k) implies 1 <= k < self@.next_id by {
            if k != id {
                assert(old(self)@.objects.contains_key(k));
            }
        }
        id
    }

    /// Removes the object held under `id`; `ObjectNotFound(id)`, and nothing
    /// changed, where there is none.
    pub fn deregister(&mut self, id: RMI_ID) -> (r: RMIResult<()>)
        requires
            old(self).wf(),
        ensures
            final(self).wf(),
            deregister_step(old(self)@, final(self)@, id),
            old(self)@.objects.contains_key(id) ==> r is Ok,
            !old(self)@.objects.contains_key(id) ==> r == Err::<(), RMIError>(RMIError::ObjectNotFound(id)),
    {
        match self.objects.remove(&id) {
            Some(_) => Ok(()),
            None => {
                assert(self@.objects =~= old(self)@.objects.remove(id));
                Err(RMIError::ObjectNotFound(id))
            },
        }
    }

    /// The object held under `id`; `ObjectNotFound(id)` where there is none.
    pub fn get(&self, id: RMI_ID) -> (r: RMIResult<&O>)
        ensures
            self@.objects.contains_key(id) ==> (r matches Ok(o) && *o == self@.objects[id]),
            !self@.objects.contains_key(id) ==> r == Err::<&O, RMIError>(RMIError::ObjectNotFound(id)),
    {
        match self.objects.get(&id) {
            Some(o) => Ok(o),
            None => Err(RMIError::ObjectNotFound(id)),
        }
    }

    /// How many objects are held.
    pub fn count(&self) -> (r: usize)
        ensures
            r == self@.objects.len(),
    {
        self.objects.len()
    }

    /// The ids held, in increasing order; `EmptyRegistry` where none is.
    pub fn list(&self) -> (r: RMIResult<Vec<RMI_ID>>)
        requires
            self.wf(),
        ensures
            self@.objects.is_empty() ==> r == Err::<Vec<RMI_ID>, RMIError>(RMIError::EmptyRegistry()),
            !self@.objects.is_empty() ==> (r matches Ok(ids) && {
                &&& forall|k: RMI_ID| ids@.contains(k) <==> self@.objects.contains_key(k)
                &&& forall|i: int, j: int| 0 <= i < j < ids@.len() ==> ids@[i] < ids@[j]
            }),
    {
        let mut ids: Vec<RMI_ID> = Vec::new();
        let mut n: u32 = 1;
        while n < self.next_id
            invariant
                self.wf(),
                1 <= n <= self.next_id,
                forall|k: RMI_ID| ids@.contains(k) <==> (self@.objects.contains_key(k) && k < n),
                forall|i: int, j: int| 0 <= i < j < ids@.len() ==> ids@[i] < ids@[j],
                forall|i: int| 0 <= i < ids@.len() ==> ids@[i] < n,
            decreases self.next_id - n,
        {
            let k = n as u16;
            let ghost before = ids@;
            if self.objects.contains_key(&k) {
                ids.push(k);
                assert(ids@[ids@.len() - 1] == k);
            }
            assert forall|q: RMI_ID| ids@.contains(q) <==> (self@.objects.contains_key(q) && q < n + 1) by {
                if ids@.contains(q) && !before.contains(q) {
                    let w = choose|w: int| 0 <= w < ids@.len() && ids@[w] == q;
                    if w < before.len() {
                        assert(before[w] == q);
                    }
                }
                if before.contains(q) {
                    let w = choose|w: int| 0 <= w < before.len() && before[w] == q;
                    assert(ids@[w] == q);
                }
                if q == k && self@.objects.contains_key(q) {
                    assert(ids@[ids@.len() - 1] == q);
                }
            }
            n = n + 1;
        }
        if ids.len() == 0 {
            assert(self@.objects.dom() =~= Set::empty()) by {
                assert forall|k: RMI_ID| !self@.objects.contains_key(k) by {
                    if self@.objects.contains_key(k) {
                        assert(ids@.contains(k));
                    }
                }
            }
            Err(RMIError::EmptyRegistry())
        } else {
            assert(ids@.contains(ids@[0]));
            Ok(ids)
        }
    }
}

proof fn lemma_next_after_registers<O>(s: Seq<RegistryModel<O>>, objs: Seq<O>, ids: Seq<RMI_ID>, i: int)
    requires
        s.len() == ids.len() + 1,
        objs.len() == ids.len(),
        forall|j: int| 0 <= j < ids.len() ==> #[trigger] register_step(s[j], s[j + 1], objs[j], ids[j]),
        0 <= i <= ids.len(),
    ensures
        s[i].next_id == s[0].next_id + i,
    decreases i,
{
    if i > 0 {
        lemma_next_after_registers(s, objs, ids, i - 1);
        assert(register_step(s[i - 1], s[i - 1 + 1], objs[i - 1], ids[i - 1]));
    }
}

/// Registrations, however many and from whichever callers once the lock has
/// put them in some order, give pairwise distinct ids.
pub proof fn lemma_register_ids_distinct<O>(s: Seq<RegistryModel<O>>, objs: Seq<O>, ids: Seq<RMI_ID>)
    requires
        s.len() == ids.len() + 1,
        objs.len() == ids.len(),
        forall|j: int| 0 <= j < ids.len() ==> #[trigger] register_step(s[j], s[j + 1], objs[j], ids[j]),
    ensures
        forall|i: int, j: int| 0 <= i < j < ids.len() ==> ids[i] != ids[j],
{
    assert forall|i: int, j: int| 0 <= i < j < ids.len() implies ids[i] != ids[j] by {
        lemma_next_after_registers(s, objs, ids, i);
        lemma_next_after_registers(s, objs, ids, j);
        assert(register_step(s[i], s[i + 1], objs[i], ids[i]));
        assert(register_step(s[j], s[j + 1], objs[j], ids[j]));
    }
}

proof fn lemma_held_after_registers<O>(s: Seq<RegistryModel<O>>, objs: Seq<O>, ids: Seq<RMI_ID>, i: int)
    requires
        s.len() >= ids.len() + 1,
        objs.len() == ids.len(),
        s[0].objects.is_empty(),
        forall|j: int| 0 <= j < ids.len() ==> #[trigger] register_step(s[j], s[j + 1], objs[j], ids[j]),
        0 <= i <= ids.len(),
    ensures
        forall|k: RMI_ID| #[trigger] s[i].objects.contains_key(k) ==> ids.subrange(0, i).contains(k),
    decreases i,
{
    if i > 0 {
        lemma_held_after_registers(s, objs, ids, i - 1);
        assert(register_step(s[i - 1], s[i - 1 + 1], objs[i - 1], ids[i - 1]));
        assert forall|k: RMI_ID| #[trigger] s[i].objects.contains_key(k) implies ids.subrange(0, i).contains(k) by {
            if k == ids[i - 1] {
                assert(ids.subrange(0, i)[i - 1] == k);
            } else {
                assert(s[i - 1].objects.contains_key(k));
                let w = choose|w: int| 0 <= w < i - 1 && #[trigger] ids.subrange(0, i - 1)[w] == k;
                assert(ids.subrange(0, i)[w] == k);
            }
        }
    } else {
        assert forall|k: RMI_ID| #[trigger] s[i].objects.contains_key(k) implies ids.subrange(0, i).contains(k) by {
            assert(!s[0].objects.dom().contains(k));
        }
    }
}

proof fn lemma_held_after_deregisters<O>(
    s: Seq<RegistryModel<O>>,
    m: int,
    held: Set<RMI_ID>,
    dids: Seq<RMI_ID>,
    j: int,
)
    requires
        s.len() == m + dids.len() + 1,
        0 <= m,
        forall|k: RMI_ID| #[trigger] s[m].objects.contains_key(k) ==> held.contains(k),
        forall|i: int| 0 <= i < dids.len() ==> #[trigger] deregister_step(s[m + i], s[m + i + 1], dids[i]),
        0 <= j <= dids.len(),
    ensures
        forall|k: RMI_ID| #[trigger] s[m + j].objects.contains_key(k) ==> held.contains(k) && !dids.subrange(0, j).contains(k),
    decreases j,
{
    if j > 0 {
        lemma_held_after_deregisters(s, m, held, dids, j - 1);
        assert(deregister_step(s[m + (j - 1)], s[m + (j - 1) + 1], dids[j - 1]));
        assert(s[m + (j - 1) + 1] == s[m + j]);
        assert forall|k: RMI_ID| #[trigger] s[m + j].objects.contains_key(k) implies held.contains(k)
            && !dids.subrange(0, j).contains(k) by {
            assert(s[m + (j - 1)].objects.contains_key(k));
            if dids.subrange(0, j).contains(k) {
                let w = choose|w: int| 0 <= w < j && #[trigger] dids.subrange(0, j)[w] == k;
                if w < j - 1 {
                    assert(dids.subrange(0, j - 1)[w] == k);
                }
            }
        }
    }
}

/// Registering objects into an empty registry and then deregistering every
/// id that was given leaves it empty: it counts no object, and `get` on any
/// of those ids finds none.
pub proof fn lemma_churn_leaves_empty<O>(
    s: Seq<RegistryModel<O>>,
    objs: Seq<O>,
    ids: Seq<RMI_ID>,
    dids: Seq<RMI_ID>,
)
    requires
        s.len() == ids.len() + dids.len() + 1,
        objs.len() == ids.len(),
        s[0].objects.is_empty(),
        forall|j: int| 0 <= j < ids.len() ==> #[trigger] register_step(s[j], s[j + 1], objs[j], ids[j]),
        forall|i: int| 0 <= i < dids.len() ==> #[trigger] deregister_step(
            s[ids.len() + i],
            s[ids.len() + i + 1],
            dids[i],
        ),
        forall|k: RMI_ID| ids.contains(k) ==> dids.contains(k),
    ensures
        s.last().objects.len() == 0,
        forall|k: RMI_ID| ids.contains(k) ==> !s.last().objects.contains_key(k),
{
    let m = ids.len() as int;
    lemma_held_after_registers(s, objs, ids, m);
    assert(ids.subrange(0, m) =~= ids);
    lemma_held_after_deregisters(s, m, ids.to_set(), dids, dids.len() as int);
    assert(dids.subrange(0, dids.len() as int) =~= dids);
    assert(s.last() == s[m + dids.len()]);
    assert(s.last().objects.dom() =~= Set::empty()) by {
        assert forall|k: RMI_ID| !s.last().objects.contains_key(k) by {
            if s.last().objects.contains_key(k) {
                assert(ids.to_set().contains(k));
                assert(ids.contains(k));
            }
        }
    }
}

} // verus!
