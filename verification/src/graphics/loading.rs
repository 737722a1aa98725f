use std::marker::PhantomData;
use std::sync::Arc;

use vstd::prelude::*;
use vstd::std_specs::cmp::{PartialEqSpecImpl, PartialOrdSpecImpl};
use core::cmp::Ordering;

use super::backend::{BackendId, PerBackend};
use super::id::IdCounter;

verus! {

/// Identifies one resource loaded to a backend; the type parameter tells
/// what kind of resource.
pub struct BackendResourceId<R> {
    id: usize,
    _t: PhantomData<R>,
}

impl<R> View for BackendResourceId<R> {
    type V = nat;

    closed spec fn view(&self) -> nat {
        self.id as nat
    }
}

impl<R> BackendResourceId<R> {
    /// A fresh resource identifier.
    pub fn new(ids: &mut IdCounter) -> (id: Self)
        requires
            old(ids).next_id() < usize::MAX,
        ensures
            id@ == old(ids).next_id(),
            id@ >= 1,
            final(ids).next_id() == old(ids).next_id() + 1,
    {
        BackendResourceId { id: ids.allocate(), _t: PhantomData }
    }

    /// The raw number, never zero.
    pub fn get(&self) -> (n: usize)
        ensures
            n == self@,
    {
        self.id
    }

    /// Whether two identifiers are the same.
    pub fn same_as(&self, other: &Self) -> (r: bool)
        ensures
            r == (self@ == other@),
    {
        self.id == other.id
    }
}

impl<R> Clone for BackendResourceId<R> {
    fn clone(&self) -> (r: Self)
        ensures
            r@ == self@,
    {
        BackendResourceId { id: self.id, _t: PhantomData }
    }
}

impl<R> Copy for BackendResourceId<R> {
}

impl<R> PartialEq for BackendResourceId<R> {
    fn eq(&self, other: &Self) -> (r: bool) {
        self.id == other.id
    }
}

impl<R> PartialEqSpecImpl for BackendResourceId<R> {
    open spec fn obeys_eq_spec() -> bool {
        true
    }

    /// Two identifiers are equal when their numbers are.
    open spec fn eq_spec(&self, other: &Self) -> bool {
        self@ == other@
    }
}

impl<R> Eq for BackendResourceId<R> {
}

/// How two identifier numbers compare.
pub open spec fn order_of(a: nat, b: nat) -> Ordering {
    if a < b {
        Ordering::Less
    } else if a == b {
        Ordering::Equal
    } else {
        Ordering::Greater
    }
}

impl<R> PartialOrd for BackendResourceId<R> {
    fn partial_cmp(&self, other: &Self) -> (r: Option<Ordering>) {
        if self.id < other.id {
            Some(Ordering::Less)
        } else if self.id == other.id {
            Some(Ordering::Equal)
        } else {
            Some(Ordering::Greater)
        }
    }
}

impl<R> PartialOrdSpecImpl for BackendResourceId<R> {
    open spec fn obeys_partial_cmp_spec() -> bool {
        true
    }

    /// Identifiers are ordered by their numbers.
    open spec fn partial_cmp_spec(&self, other: &Self) -> Option<Ordering> {
        Some(order_of(self@, other@))
    }
}

/// Calls `std::sync::Arc::clone`. Trusted: the new `Arc` points to the same
/// allocation, so the value it holds is the value `a` holds.
#[verifier::external_body]
fn arc_clone<R>(a: &Arc<R>) -> (r: Arc<R>)
    ensures
        *r == **a,
{
    Arc::clone(a)
}

/// A resource loaded to a backend, shared between its users, with an
/// identifier of its own.
pub struct BackendResource<R> {
    id: BackendResourceId<R>,
    resource: Arc<R>,
}

impl<R> BackendResource<R> {
    /// The resource's identifier.
    pub closed spec fn spec_id(&self) -> nat {
        self.id@
    }

    /// The resource.
    pub closed spec fn resource(&self) -> R {
        *self.resource
    }

    /// Wraps `resource`, giving it a fresh identifier.
    pub fn new(resource: R, ids: &mut IdCounter) -> (r: Self)
        requires
            old(ids).next_id() < usize::MAX,
        ensures
            r.resource() == resource,
            r.spec_id() == old(ids).next_id(),
            r.spec_id() >= 1,
            final(ids).next_id() == old(ids).next_id() + 1,
    {
        BackendResource { id: BackendResourceId::new(ids), resource: Arc::new(resource) }
    }

    /// The resource's identifier.
    pub fn id(&self) -> (id: BackendResourceId<R>)
        ensures
            id@ == self.spec_id(),
    {
        self.id.clone()
    }

    /// The resource.
    pub fn get(&self) -> (r: &R)
        ensures
            *r == self.resource(),
    {
        &*self.resource
    }

    /// Whether two handles stand for the same loaded resource.
    pub fn same_as(&self, other: &Self) -> (r: bool)
        ensures
            r == (self.spec_id() == other.spec_id()),
    {
        self.id.same_as(&other.id)
    }
}

impl<R> Clone for BackendResource<R> {
    fn clone(&self) -> (r: Self)
        ensures
            r.spec_id() == self.spec_id(),
            r.resource() == self.resource(),
    {
        BackendResource { id: self.id.clone(), resource: arc_clone(&self.resource) }
    }
}

impl<R> PartialEq for BackendResource<R> {
    fn eq(&self, other: &Self) -> (r: bool) {
        self.id.same_as(&other.id)
    }
}

impl<R> PartialEqSpecImpl for BackendResource<R> {
    open spec fn obeys_eq_spec() -> bool {
        true
    }

    /// Two handles are equal when they stand for the same loaded resource.
    open spec fn eq_spec(&self, other: &Self) -> bool {
        self.spec_id() == other.spec_id()
    }
}

impl<R> Eq for BackendResource<R> {
}

impl<R> PartialOrd for BackendResource<R> {
    fn partial_cmp(&self, other: &Self) -> (r: Option<Ordering>) {
        self.id.partial_cmp(&other.id)
    }
}

impl<R> PartialOrdSpecImpl for BackendResource<R> {
    open spec fn obeys_partial_cmp_spec() -> bool {
        true
    }

    /// Handles are ordered by the numbers of their identifiers.
    open spec fn partial_cmp_spec(&self, other: &Self) -> Option<Ordering> {
        Some(order_of(self.spec_id(), other.spec_id()))
    }
}

/// The handles to one asset's resources, one per backend it is loaded to.
pub struct OnGpu<L> {
    loaded: PerBackend<BackendResource<L>>,
}

impl<L> OnGpu<L> {
    /// The resource loaded to each backend.
    pub closed spec fn loaded(&self) -> Map<BackendId, BackendResource<L>> {
        self.loaded.entries()
    }

    /// Loaded nowhere.
    pub fn new() -> (g: Self)
        ensures
            g.loaded() == Map::<BackendId, BackendResource<L>>::empty(),
    {
        OnGpu { loaded: PerBackend::new() }
    }

    /// The resource loaded to `backend_id`, if any.
    pub fn get(&self, backend_id: BackendId) -> (r: Option<&BackendResource<L>>)
        ensures
            r matches Some(v) ==> self.loaded().dom().contains(backend_id) && *v == self.loaded()[backend_id],
            r is None ==> !self.loaded().dom().contains(backend_id),
    {
        self.loaded.get(backend_id)
    }

    /// Loads the asset to `backend_id` with `load`, unless it is loaded there
    /// already; a loaded resource gets a fresh identifier from `ids`.
    pub fn load<F, E>(&mut self, backend_id: BackendId, ids: &mut IdCounter, load: F) -> (r: Result<(), E>)
        where F: FnOnce() -> Result<L, E>
        requires
            load.requires(()),
            old(ids).next_id() < usize::MAX,
        ensures
            old(self).loaded().dom().contains(backend_id) ==> {
                &&& r is Ok
                &&& final(self).loaded() == old(self).loaded()
                &&& final(ids).next_id() == old(ids).next_id()
            },
            !old(self).loaded().dom().contains(backend_id) ==> {
                &&& r is Ok ==> {
                    &&& final(self).loaded().dom() == old(self).loaded().dom().insert(backend_id)
                    &&& forall|b: BackendId| #[trigger] old(self).loaded().dom().contains(b) ==>
                        final(self).loaded()[b] == old(self).loaded()[b]
                    &&& load.ensures((), Ok(final(self).loaded()[backend_id].resource()))
                    &&& final(self).loaded()[backend_id].spec_id() == old(ids).next_id()
                    &&& final(ids).next_id() == old(ids).next_id() + 1
                }
                &&& r matches Err(e) ==> {
                    &&& load.ensures((), Err(e))
                    &&& final(self).loaded() == old(self).loaded()
                    &&& final(ids).next_id() == old(ids).next_id()
                }
            },
    {
        match self.loaded.get(backend_id) {
            Some(_) => Ok(()),
            None => {
                match load() {
                    Ok(resource) => {
                        let resource = BackendResource::new(resource, ids);
                        let ghost loaded = resource;
                        let _ = self.loaded.get_or_try_insert(backend_id, move || -> (r: Result<BackendResource<L>, E>)
                            ensures r == Ok::<BackendResource<L>, E>(loaded)
                        {
                            Ok(resource)
                        });
                        proof {
                            assert(self.loaded() == old(self).loaded().insert(backend_id, loaded));
                        }
                        Ok(())
                    },
                    Err(e) => Err(e),
                }
            },
        }
    }
}

impl<L> Default for OnGpu<L> {
    fn default() -> (g: Self)
        ensures
            g.loaded() == Map::<BackendId, BackendResource<L>>::empty(),
    {
        OnGpu::new()
    }
}

} // verus!
