use crate::error::RegistryError;
use std::collections::HashMap;
use vstd::prelude::*;

verus! {

broadcast use vstd::std_specs::hash::group_hash_axioms;

/// Hands out 64-bit handle ids for every registry of the process.
///
/// Ids come from a counter that only grows, so an id is handed out once, and
/// an id issued for one registry never names an entry of another.
pub struct HandleIdAllocator {
    next_id: u64,
}

impl HandleIdAllocator {
    #[verifier::type_invariant]
    spec fn inv(self) -> bool {
        self.next_id >= 1
    }

    /// Ids below this bound have been issued (id 0 never is).
    pub closed spec fn issued(self) -> nat {
        self.next_id as nat
    }

    pub fn new() -> (r: Self)
        ensures
            r.issued() == 1,
    {
        HandleIdAllocator { next_id: 1 }
    }

    /// Whether another id can still be issued.
    pub fn has_capacity(&self) -> (r: bool)
        ensures
            r == (self.issued() < u64::MAX),
    {
        self.next_id < u64::MAX
    }

    /// Issues the next id.
    pub fn allocate(&mut self) -> (r: u64)
        requires
            old(self).issued() < u64::MAX,
        ensures
            r as nat == old(self).issued(),
            r >= 1,
            final(self).issued() == old(self).issued() + 1,
    {
        proof {
            use_type_invariant(&*self);
        }
        let id = self.next_id;
        self.next_id = id + 1;
        id
    }
}

/// `id` was not issued before the step and is issued after it.
pub open spec fn newly_issued(pre: HandleIdAllocator, post: HandleIdAllocator, id: u64) -> bool {
    pre.issued() <= id < post.issued()
}

/// Every consecutive pair of `states` issues more ids or the same ones.
pub open spec fn is_allocator_run(states: Seq<HandleIdAllocator>) -> bool {
    forall|i: int|
        0 <= i < states.len() - 1 ==> (#[trigger] states[i]).issued() <= states[i + 1].issued()
}

proof fn lemma_issued_monotone(states: Seq<HandleIdAllocator>, a: int, b: int)
    requires
        is_allocator_run(states),
        0 <= a <= b < states.len(),
    ensures
        states[a].issued() <= states[b].issued(),
    decreases b - a,
{
    if a < b {
        lemma_issued_monotone(states, a, b - 1);
        assert(states[b - 1].issued() <= states[b].issued());
    }
}

/// The ids handed out along any run of the process's allocator, to any of its
/// registries, are pairwise distinct: no id is ever issued twice.
pub proof fn lemma_issued_ids_distinct(states: Seq<HandleIdAllocator>, ids: Seq<u64>)
    requires
        is_allocator_run(states),
        states.len() == ids.len() + 1,
        forall|i: int| 0 <= i < ids.len() ==> newly_issued(states[i], states[i + 1], #[trigger] ids[i]),
    ensures
        forall|i: int, j: int| 0 <= i < j < ids.len() ==> ids[i] != ids[j],
{
    assert forall|i: int, j: int| 0 <= i < j < ids.len() implies ids[i] != ids[j] by {
        assert(newly_issued(states[i], states[i + 1], ids[i]));
        assert(newly_issued(states[j], states[j + 1], ids[j]));
        lemma_issued_monotone(states, i + 1, j);
    }
}

/// Owns engine instances of one kind, each reachable by a 64-bit id drawn
/// from the process's allocator.
pub struct HandleRegistry<T> {
    entries: HashMap<u64, T>,
}

impl<T> View for HandleRegistry<T> {
    type V = Map<u64, T>;

    /// The live entries, by id.
    closed spec fn view(&self) -> Map<u64, T> {
        self.entries@
    }
}

impl<T> HandleRegistry<T> {
    /// Every live id of the registry was issued by `ids`.
    pub open spec fn wf_under(self, ids: HandleIdAllocator) -> bool {
        forall|k: u64| #[trigger] self@.contains_key(k) ==> 1 <= k < ids.issued()
    }
}

/// No id is live in both registries.
pub open spec fn disjoint<A, B>(a: HandleRegistry<A>, b: HandleRegistry<B>) -> bool {
    forall|k: u64| #[trigger] a@.contains_key(k) ==> !b@.contains_key(k)
}

/// One state of a registry leads to the next while its allocator `pre_ids`
/// becomes `post_ids`: ids issued stay issued, and an entry that is live
/// afterwards was live before or carries an id that had not been issued.
/// Operations on other registries that share the allocator are steps too.
pub open spec fn registry_step<T>(
    pre: HandleRegistry<T>,
    pre_ids: HandleIdAllocator,
    post: HandleRegistry<T>,
    post_ids: HandleIdAllocator,
) -> bool {
    &&& pre_ids.issued() <= post_ids.issued()
    &&& forall|k: u64| #[trigger]
        post@.contains_key(k) ==> pre@.contains_key(k) || k >= pre_ids.issued()
}

/// Every consecutive pair of states is a registry step.
pub open spec fn is_registry_run<T>(regs: Seq<HandleRegistry<T>>, ids: Seq<HandleIdAllocator>) -> bool {
    &&& regs.len() == ids.len()
    &&& forall|i: int|
        0 <= i < regs.len() - 1 ==> registry_step(#[trigger] regs[i], ids[i], regs[i + 1], ids[i + 1])
}

/// Once an issued id names no live entry (it was released), it names none in
/// any later state: every lookup of it fails from then on.
pub proof fn lemma_released_stays_invalid<T>(
    regs: Seq<HandleRegistry<T>>,
    ids: Seq<HandleIdAllocator>,
    h: u64,
)
    requires
        is_registry_run(regs, ids),
        regs.len() > 0,
        h < ids[0].issued(),
        !regs[0]@.contains_key(h),
    ensures
        forall|i: int| 0 <= i < regs.len() ==> !(#[trigger] regs[i]@).contains_key(h),
{
    assert forall|i: int| 0 <= i < regs.len() implies !(#[trigger] regs[i]@).contains_key(h) by {
        lemma_released_stays_invalid_upto(regs, ids, h, i);
    }
}

proof fn lemma_released_stays_invalid_upto<T>(
    regs: Seq<HandleRegistry<T>>,
    ids: Seq<HandleIdAllocator>,
    h: u64,
    i: int,
)
    requires
        is_registry_run(regs, ids),
        0 <= i < regs.len(),
        h < ids[0].issued(),
        !regs[0]@.contains_key(h),
    ensures
        !regs[i]@.contains_key(h),
        h < ids[i].issued(),
    decreases i,
{
    if i > 0 {
        lemma_released_stays_invalid_upto(regs, ids, h, i - 1);
        assert(registry_step(regs[i - 1], ids[i - 1], regs[i], ids[i]));
    }
}

/// An id newly issued to one registry is live in no other registry that
/// draws from the same allocator, so registries stay disjoint and a handle of
/// one never reaches an entry of another.
pub proof fn lemma_insert_keeps_disjoint<A, B>(
    a: HandleRegistry<A>,
    b_pre: HandleRegistry<B>,
    b_post: HandleRegistry<B>,
    ids: HandleIdAllocator,
    id: u64,
)
    requires
        a.wf_under(ids),
        disjoint(a, b_pre),
        id >= ids.issued(),
        b_post@.dom() == b_pre@.dom().insert(id),
    ensures
        !a@.contains_key(id),
        disjoint(a, b_post),
        disjoint(b_post, a),
{
    assert forall|k: u64| #[trigger] a@.contains_key(k) implies !b_post@.contains_key(k) by {
        assert(!b_pre@.contains_key(k));
        assert(b_post@.dom().contains(k) == b_pre@.dom().insert(id).contains(k));
    }
}

impl<T> HandleRegistry<T> {
    pub fn new() -> (r: Self)
        ensures
            r@ == Map::<u64, T>::empty(),
    {
        HandleRegistry { entries: HashMap::new() }
    }

    /// Whether `h` names a live entry.
    pub fn contains(&self, h: u64) -> (r: bool)
        ensures
            r == self@.contains_key(h),
    {
        self.entries.contains_key(&h)
    }

    /// Takes ownership of `v` and returns the fresh id, drawn from `ids`, that
    /// now names it.
    pub fn insert(&mut self, ids: &mut HandleIdAllocator, v: T) -> (r: u64)
        requires
            old(self).wf_under(*old(ids)),
            old(ids).issued() < u64::MAX,
        ensures
            final(self).wf_under(*final(ids)),
            r as nat == old(ids).issued(),
            newly_issued(*old(ids), *final(ids), r),
            final(ids).issued() == old(ids).issued() + 1,
            !old(self)@.contains_key(r),
            final(self)@ == old(self)@.insert(r, v),
            registry_step(*old(self), *old(ids), *final(self), *final(ids)),
    {
        let id = ids.allocate();
        self.entries.insert(id, v);
        assert forall|k: u64| #[trigger] self@.contains_key(k) implies 1 <= k < ids.issued() by {
            if k != id {
                assert(old(self)@.contains_key(k));
            }
        }
        id
    }

    /// Drops the entry that `h` names; from then on `h` names nothing.
    pub fn remove(&mut self, h: u64) -> (r: Result<(), RegistryError>)
        ensures
            r is Ok <==> old(self)@.contains_key(h),
            r matches Err(e) ==> e == RegistryError::InvalidHandle,
            final(self)@ == old(self)@.remove(h),
            forall|a: HandleIdAllocator|
                #![trigger old(self).wf_under(a)]
                #![trigger final(self).wf_under(a)]
                registry_step(*old(self), a, *final(self), a) && (old(self).wf_under(a)
                    ==> final(self).wf_under(a)),
    {
        let r = match self.entries.remove(&h) {
            Some(_) => Ok(()),
            None => Err(RegistryError::InvalidHandle),
        };
        assert forall|k: u64| #[trigger] self@.contains_key(k) implies old(self)@.contains_key(k) by {
            assert(self@ == old(self)@.remove(h));
        }
        r
    }

    /// Runs `op` on the entry that `h` names, with the entry held exclusively
    /// for the whole call, and stores back what `op` hands back.
    pub fn with_mut<F, R>(&mut self, h: u64, op: F) -> (r: Result<R, RegistryError>)
        where
            F: FnOnce(T) -> (T, R),
        requires
            old(self)@.contains_key(h) ==> op.requires((old(self)@[h],)),
        ensures
            r is Ok <==> old(self)@.contains_key(h),
            r matches Err(e) ==> e == RegistryError::InvalidHandle && final(self)@ == old(self)@,
            r matches Ok(v) ==> {
                &&& final(self)@ == old(self)@.insert(h, final(self)@[h])
                &&& op.ensures((old(self)@[h],), (final(self)@[h], v))
            },
            final(self)@.dom() == old(self)@.dom(),
            forall|a: HandleIdAllocator|
                #![trigger old(self).wf_under(a)]
                #![trigger final(self).wf_under(a)]
                registry_step(*old(self), a, *final(self), a) && (old(self).wf_under(a)
                    ==> final(self).wf_under(a)),
    {
        match self.entries.remove(&h) {
            Some(t) => {
                let (t2, out) = op(t);
                self.entries.insert(h, t2);
                assert(self.entries@ =~= old(self)@.insert(h, t2));
                Ok(out)
            },
            None => Err(RegistryError::InvalidHandle),
        }
    }
}

} // verus!
