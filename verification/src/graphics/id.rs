use vstd::prelude::*;

verus! {

/// Hands out the numbers 1, 2, 3, ... as identifiers, each once.
#[derive(Debug)]
pub struct IdCounter {
    next: usize,
}

impl IdCounter {
    #[verifier::type_invariant]
    spec fn inv(self) -> bool {
        self.next >= 1
    }

    /// The identifier the next call of [`IdCounter::allocate`] returns.
    pub closed spec fn next_id(&self) -> nat {
        self.next as nat
    }

    /// The identifiers handed out so far: 1 up to [`IdCounter::next_id`],
    /// exclusive.
    pub open spec fn handed_out(&self) -> Set<nat> {
        Set::new(|n: nat| 1 <= n < self.next_id())
    }

    /// A counter that starts at 1.
    pub fn new() -> (c: Self)
        ensures
            c.next_id() == 1,
    {
        IdCounter { next: 1 }
    }

    /// The identifier the next allocation returns.
    pub fn peek(&self) -> (n: usize)
        ensures
            n == self.next_id(),
    {
        self.next
    }

    /// Returns a fresh identifier.
    pub fn allocate(&mut self) -> (id: usize)
        requires
            old(self).next_id() < usize::MAX,
        ensures
            id == old(self).next_id(),
            id >= 1,
            final(self).next_id() == old(self).next_id() + 1,
            !old(self).handed_out().contains(id as nat),
            final(self).handed_out() == old(self).handed_out().insert(id as nat),
    {
        proof {
            use_type_invariant(&*self);
        }
        let id = self.next;
        self.next = self.next + 1;
        assert(self.handed_out() =~= old(self).handed_out().insert(id as nat));
        id
    }
}

} // verus!
