use vstd::prelude::*;

use super::id::IdCounter;

verus! {

/// The kind of graphics backend.
#[derive(Clone, Copy, Debug, PartialEq, Eq, Structural)]
pub enum BackendType {
    WebGpu,
    WebGl,
}

impl BackendType {
    /// Whether all surfaces share one backend (WebGPU does; WebGL needs one
    /// per surface).
    pub fn uses_shared_backend(&self) -> (r: bool)
        ensures
            r == (*self == BackendType::WebGpu),
    {
        match self {
            BackendType::WebGpu => true,
            BackendType::WebGl => false,
        }
    }
}

impl Default for BackendType {
    fn default() -> (b: Self)
        ensures
            b == BackendType::WebGl,
    {
        BackendType::WebGl
    }
}

/// Identifies one backend (GPU device).
#[derive(Clone, Copy, Debug, PartialEq, Eq, Structural, PartialOrd, Ord, Hash)]
pub struct BackendId {
    id: usize,
}

impl View for BackendId {
    type V = nat;

    closed spec fn view(&self) -> nat {
        self.id as nat
    }
}

impl BackendId {
    /// A fresh backend identifier.
    pub fn new(ids: &mut IdCounter) -> (id: Self)
        requires
            old(ids).next_id() < usize::MAX,
        ensures
            id@ == old(ids).next_id(),
            id@ >= 1,
            final(ids).next_id() == old(ids).next_id() + 1,
    {
        BackendId { id: ids.allocate() }
    }

    /// The raw number, never zero.
    pub fn get(&self) -> (n: usize)
        ensures
            n == self@,
    {
        self.id
    }
}

/// Law: two backend identifiers are equal exactly when their numbers are.
pub proof fn law_backend_ids_equal_by_number(a: BackendId, b: BackendId)
    ensures
        (a == b) <==> (a@ == b@),
{
}

/// Holds one value per backend.
#[derive(Debug)]
pub struct PerBackend<T> {
    map: Vec<(BackendId, T)>,
}

impl<T> PerBackend<T> {
    #[verifier::type_invariant]
    spec fn inv(self) -> bool {
        forall|i: int, j: int|
            0 <= i < j < self.map@.len() ==> self.map@[i].0 != self.map@[j].0
    }

    /// The value held for each backend.
    pub closed spec fn entries(&self) -> Map<BackendId, T> {
        Map::new(
            |b: BackendId| exists|i: int| 0 <= i < self.map@.len() && self.map@[i].0 == b,
            |b: BackendId|
                self.map@[choose|i: int| 0 <= i < self.map@.len() && self.map@[i].0 == b].1,
        )
    }

    proof fn lemma_entry_at(&self, i: int)
        requires
            self.inv(),
            0 <= i < self.map@.len(),
        ensures
            self.entries().dom().contains(self.map@[i].0),
            self.entries()[self.map@[i].0] == self.map@[i].1,
    {
        let b = self.map@[i].0;
        assert(self.entries().dom().contains(b));
        let j = choose|j: int| 0 <= j < self.map@.len() && self.map@[j].0 == b;
        if j != i {
            if j < i {
                assert(self.map@[j].0 != self.map@[i].0);
            } else {
                assert(self.map@[i].0 != self.map@[j].0);
            }
        }
    }

    /// No value for any backend.
    pub fn new() -> (p: Self)
        ensures
            p.entries() == Map::<BackendId, T>::empty(),
    {
        let p = PerBackend { map: Vec::new() };
        assert(p.entries() =~= Map::<BackendId, T>::empty());
        p
    }

    fn position(&self, backend_id: BackendId) -> (r: Option<usize>)
        ensures
            r matches Some(i) ==> i < self.map@.len() && self.map@[i as int].0 == backend_id,
            r is None ==> forall|i: int| 0 <= i < self.map@.len() ==> self.map@[i].0 != backend_id,
    {
        let mut i: usize = 0;
        while i < self.map.len()
            invariant
                0 <= i <= self.map@.len(),
                forall|j: int| 0 <= j < i ==> self.map@[j].0 != backend_id,
            decreases self.map@.len() - i,
        {
            if self.map[i].0.id == backend_id.id {
                return Some(i);
            }
            i = i + 1;
        }
        None
    }

    /// The value held for `backend_id`, if any.
    pub fn get(&self, backend_id: BackendId) -> (r: Option<&T>)
        ensures
            r matches Some(v) ==> self.entries().dom().contains(backend_id) && *v == self.entries()[backend_id],
            r is None ==> !self.entries().dom().contains(backend_id),
    {
        proof {
            use_type_invariant(self);
        }
        match self.position(backend_id) {
            Some(i) => {
                proof {
                    self.lemma_entry_at(i as int);
                }
                Some(&self.map[i].1)
            },
            None => None,
        }
    }

    /// Returns the value held for `backend_id`; where there is none, calls
    /// `insert` first and keeps what it makes. An error of `insert` is handed
    /// back and nothing is kept.
    pub fn get_or_try_insert<F, E>(&mut self, backend_id: BackendId, insert: F) -> (r: Result<
        &T,
        E,
    >) where F: FnOnce() -> Result<T, E>
        requires
            insert.requires(()),
        ensures
            old(self).entries().dom().contains(backend_id) ==> {
                &&& r matches Ok(v) && *v == old(self).entries()[backend_id]
                &&& final(self).entries() == old(self).entries()
            },
            !old(self).entries().dom().contains(backend_id) ==> {
                &&& r matches Ok(v) ==> insert.ensures((), Ok(*v)) && final(self).entries()
                    == old(self).entries().insert(backend_id, *v)
                &&& r matches Err(e) ==> insert.ensures((), Err(e)) && final(self).entries()
                    == old(self).entries()
            },
    {
        proof {
            use_type_invariant(&*self);
        }
        match self.position(backend_id) {
            Some(i) => {
                proof {
                    self.lemma_entry_at(i as int);
                }
                Ok(&self.map[i].1)
            },
            None => {
                match insert() {
                    Ok(resource) => {
                        let ghost before = self.map@;
                        let mut map = Vec::new();
                        std::mem::swap(&mut map, &mut self.map);
                        map.push((backend_id, resource));
                        self.map = map;
                        let n = self.map.len() - 1;
                        proof {
                            self.lemma_entry_at(n as int);
                            assert forall|b: BackendId|
                                #[trigger] self.entries().dom().contains(b)
                                    == old(self).entries().insert(backend_id, resource).dom().contains(b) by {
                                if b != backend_id && self.entries().dom().contains(b) {
                                    let j = choose|j: int| 0 <= j < self.map@.len() && self.map@[j].0 == b;
                                    assert(before[j].0 == b);
                                }
                                if old(self).entries().dom().contains(b) {
                                    let j = choose|j: int| 0 <= j < before.len() && before[j].0 == b;
                                    assert(self.map@[j].0 == b);
                                }
                            }
                            assert forall|b: BackendId|
                                #[trigger] self.entries().dom().contains(b) && b != backend_id implies
                                    self.entries()[b] == old(self).entries()[b] by {
                                let j = choose|j: int| 0 <= j < self.map@.len() && self.map@[j].0 == b;
                                assert(before[j].0 == b);
                                self.lemma_entry_at(j);
                                old(self).lemma_entry_at(j);
                            }
                            assert(self.entries() =~= old(self).entries().insert(backend_id, resource));
                        }
                        Ok(&self.map[n].1)
                    },
                    Err(e) => Err(e),
                }
            },
        }
    }
}

impl<T> Default for PerBackend<T> {
    fn default() -> (p: Self)
        ensures
            p.entries() == Map::<BackendId, T>::empty(),
    {
        PerBackend::new()
    }
}

} // verus!
