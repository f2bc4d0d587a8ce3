//! Handles and the store that hands them out.
//!
//! A [`ResourceManager`] owns its values and gives out a [`ResourceId`] for
//! each. Ids count up from zero and are never reused: the store's model is
//! the sequence of values in the order in which they were added, and the
//! value of an id is the one at its position there.

use vstd::prelude::*;

verus! {

/// The kind of resource that a handle refers to.
#[derive(Debug, Clone, Copy, PartialEq, Eq, Structural, PartialOrd, Ord, Hash)]
pub enum ResourceNamespace {
    Image,
}

/// A handle: the namespace it belongs to and its sequence number there.
#[derive(Debug, Clone, Copy, PartialEq, Eq, Structural, PartialOrd, Ord, Hash)]
pub struct ResourceId {
    pub namespace: ResourceNamespace,
    pub id: usize,
}

impl ResourceId {
    #[must_use]
    pub fn new(namespace: ResourceNamespace, id: usize) -> (r: Self)
        ensures
            r.namespace == namespace,
            r.id == id,
    {
        Self { namespace, id }
    }

    #[must_use]
    pub fn namespace(&self) -> (r: ResourceNamespace)
        ensures
            r == self.namespace,
    {
        self.namespace
    }

    #[must_use]
    pub fn id(&self) -> (r: usize)
        ensures
            r == self.id,
    {
        self.id
    }
}

#[verifier::external_type_specification]
#[verifier::external_body]
#[verifier::reject_recursive_types(K)]
#[verifier::reject_recursive_types(V)]
#[verifier::reject_recursive_types(S)]
pub struct ExDashMap<K, V, S>(dashmap::DashMap<K, V, S>);

/// What an index holds: for each number in it, the slot it leads to.
pub uninterp spec fn slots(index: dashmap::DashMap<usize, usize>) -> Map<usize, usize>;

/// `DashMap::new`: a map that holds nothing.
#[verifier::external_body]
fn index_new() -> (created: dashmap::DashMap<usize, usize>)
    ensures
        forall|id: usize| !slots(created).contains_key(id),
{
    dashmap::DashMap::new()
}

/// `DashMap::insert`: afterwards `id` leads to `slot`, and every other
/// number to what it led to before.
#[verifier::external_body]
fn index_insert(index: &mut dashmap::DashMap<usize, usize>, id: usize, slot: usize)
    ensures
        slots(*final(index)) == slots(*old(index)).insert(id, slot),
{
    index.insert(id, slot);
}

/// `DashMap::get`, with the value copied out of the guard that it returns:
/// the slot that `id` leads to, or `None` where the map has no such number.
#[verifier::external_body]
fn index_get(index: &dashmap::DashMap<usize, usize>, id: usize) -> (slot: Option<usize>)
    ensures
        slot == (if slots(*index).contains_key(id) {
            Some(slots(*index)[id])
        } else {
            None::<usize>
        }),
{
    index.get(&id).as_deref().copied()
}

/// A store of values of one namespace, each reachable through the handle
/// that `add` returned for it. The values lie in an arena; a concurrent map
/// leads from each number handed out to the slot of its value.
pub struct ResourceManager<T> {
    namespace: ResourceNamespace,
    id_counter: usize,
    index: dashmap::DashMap<usize, usize>,
    arena: Vec<T>,
}

impl<T> View for ResourceManager<T> {
    type V = Seq<T>;

    /// The stored values, in the order in which they were added.
    closed spec fn view(&self) -> Seq<T> {
        Seq::new(self.id_counter as nat, |i: int| self.arena@[slots(self.index)[i as usize] as int])
    }
}

impl<T> ResourceManager<T> {
    /// Every number handed out leads to a slot of the arena. `new`
    /// establishes this and every method keeps it.
    pub closed spec fn wf(&self) -> bool {
        &&& self.id_counter <= self.arena@.len()
        &&& forall|id: usize| #[trigger] self.indexed(id) <==> id < self.id_counter
        &&& forall|id: usize| id < self.id_counter ==> #[trigger] self.leads_to_slot(id)
    }

    /// Whether the index knows `id`.
    closed spec fn indexed(&self, id: usize) -> bool {
        slots(self.index).contains_key(id)
    }

    /// Whether the index leads from `id` to a slot of the arena.
    closed spec fn leads_to_slot(&self, id: usize) -> bool {
        slots(self.index).contains_key(id) && slots(self.index)[id] < self.arena@.len()
    }

    /// The namespace that every handle of this store carries.
    pub closed spec fn spec_namespace(&self) -> ResourceNamespace {
        self.namespace
    }

    /// The handle that the next call of `add` returns.
    pub open spec fn next_id(&self) -> ResourceId {
        ResourceId { namespace: self.spec_namespace(), id: self@.len() as usize }
    }

    /// Whether `id` is a handle of this store: it has the store's namespace
    /// and its number was handed out already.
    pub open spec fn resolves(&self, id: ResourceId) -> bool {
        id.namespace == self.spec_namespace() && (id.id as int) < self@.len()
    }

    /// The value that `id` stands for.
    pub open spec fn value_of(&self, id: ResourceId) -> T
        recommends
            self.resolves(id),
    {
        self@[id.id as int]
    }

    pub fn new(namespace: ResourceNamespace) -> (r: Self)
        ensures
            r.wf(),
            r@ == Seq::<T>::empty(),
            r.spec_namespace() == namespace,
    {
        let r = Self { namespace, id_counter: 0, index: index_new(), arena: Vec::new() };
        assert(r@ =~= Seq::<T>::empty());
        assert forall|id: usize| #[trigger] r.indexed(id) <==> id < r.id_counter by {
            assert(!slots(r.index).contains_key(id));
        }
        r
    }

    /// The namespace of this store.
    pub fn namespace(&self) -> (r: ResourceNamespace)
        ensures
            r == self.spec_namespace(),
    {
        self.namespace
    }

    /// The number of values added so far.
    pub fn len(&self) -> (r: usize)
        ensures
            r == self@.len(),
    {
        self.id_counter
    }

    /// Stores `value` under the next free number. The new handle did not
    /// resolve before; every handle that did still resolves, to the same
    /// value.
    pub fn add(&mut self, value: T) -> (id: ResourceId)
        requires
            old(self).wf(),
        ensures
            final(self).wf(),
            id == old(self).next_id(),
            final(self)@ == old(self)@.push(value),
            final(self).spec_namespace() == old(self).spec_namespace(),
            !old(self).resolves(id),
            final(self).resolves(id),
            final(self).value_of(id) == value,
            forall|other: ResourceId| #[trigger]
                old(self).resolves(other) ==> final(self).resolves(other)
                    && final(self).value_of(other) == old(self).value_of(other),
    {
        let number: usize = self.id_counter;
        let slot: usize = self.arena.len();
        self.arena.push(value);
        index_insert(&mut self.index, number, slot);
        proof {
            vstd::std_specs::vec::axiom_spec_len(&self.arena);
        }
        self.id_counter = number + 1;
        proof {
            assert forall|i: int| 0 <= i < number implies self@[i] == old(self)@[i] by {
                assert(old(self).leads_to_slot(i as usize));
            }
            assert(self@ =~= old(self)@.push(value));
            assert forall|id: usize| id < self.id_counter implies self.leads_to_slot(id) by {
                if id < number {
                    assert(old(self).leads_to_slot(id));
                }
            }
            assert forall|id: usize| #[trigger] self.indexed(id) <==> id < self.id_counter by {
                assert(old(self).indexed(id) <==> id < number);
            }
        }
        ResourceId::new(self.namespace, number)
    }

    /// Whether `id` is a handle of this store.
    pub fn contains(&self, id: ResourceId) -> (r: bool)
        ensures
            r == self.resolves(id),
    {
        id.namespace == self.namespace && id.id < self.id_counter
    }

    /// The value behind `id`, or `None` where `id` is of another namespace
    /// or was never handed out here.
    pub fn get(&self, id: ResourceId) -> (r: Option<&T>)
        requires
            self.wf(),
        ensures
            r.is_some() == self.resolves(id),
            self.resolves(id) ==> *r.unwrap() == self.value_of(id),
    {
        if id.namespace == self.namespace {
            assert(self.indexed(id.id) <==> id.id < self.id_counter);
            match index_get(&self.index, id.id) {
                Some(slot) => {
                    assert(self.leads_to_slot(id.id));
                    Some(&self.arena[slot])
                },
                None => None,
            }
        } else {
            None
        }
    }

    /// Calls `f` once, on the value behind `id`. A handle of another
    /// namespace, or one that this store never handed out, is a caller's
    /// error and is excluded.
    pub fn with<F: FnOnce(&T)>(&self, id: ResourceId, f: F)
        requires
            self.wf(),
            self.resolves(id),
            f.requires((&self.value_of(id),)),
        ensures
            f.ensures((&self.value_of(id),), ()),
    {
        assert(self.leads_to_slot(id.id));
        let slot: Option<usize> = index_get(&self.index, id.id);
        f(&self.arena[slot.unwrap()])
    }
}

/// Two calls of `add` on one store never return the same handle: each call
/// lengthens the store, and the handles given out at two different lengths
/// differ.
pub proof fn lemma_handles_unique<T>(earlier: ResourceManager<T>, later: ResourceManager<T>)
    requires
        earlier@.len() < later@.len(),
    ensures
        earlier.next_id() != later.next_id(),
        earlier.next_id().id < later.next_id().id,
{
}

/// A handle resolves only in a store of its own namespace: one of another
/// namespace is never taken for a handle of the store.
pub proof fn lemma_namespace_guard<T>(store: ResourceManager<T>, id: ResourceId)
    ensures
        store.resolves(id) ==> id.namespace == store.spec_namespace(),
        id.namespace != store.spec_namespace() ==> !store.resolves(id),
{
}

} // verus!
