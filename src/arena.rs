use std::marker::PhantomData;
use vstd::prelude::*;

verus! {

/// The store that handles point into: one slot per address, holding the value
/// while the address is live and nothing once it has been released.
pub struct Arena<T> {
    slots: Vec<Option<T>>,
    vacant: Vec<usize>,
}

impl<T> Arena<T> {
    /// The values at the live addresses.
    pub closed spec fn view(&self) -> Map<nat, T> {
        Map::new(
            |a: nat| a < self.slots@.len() && self.slots@[a as int] is Some,
            |a: nat| self.slots@[a as int]->Some_0,
        )
    }

    /// The released addresses kept for reuse are distinct, in range and empty.
    pub closed spec fn wf(&self) -> bool {
        &&& forall|i: int|
            0 <= i < self.vacant@.len() ==> {
                &&& #[trigger] self.vacant@[i] < self.slots@.len()
                &&& self.slots@[self.vacant@[i] as int] is None
            }
        &&& forall|i: int, j: int|
            0 <= i < j < self.vacant@.len() ==> #[trigger] self.vacant@[i] != #[trigger] self.vacant@[j]
    }

    /// An empty store.
    pub fn new() -> (r: Arena<T>)
        ensures
            r.wf(),
            r@ == Map::<nat, T>::empty(),
    {
        let r = Arena { slots: Vec::new(), vacant: Vec::new() };
        assert(r@ =~= Map::<nat, T>::empty());
        r
    }
}

/// A handle to one slot of an [`Arena`]. Any number of handles may name the
/// same slot; none of them owns it, and nothing tracks how many exist.
pub struct U<T> {
    inner: usize,
    marker: PhantomData<T>,
}

impl<T> U<T> {
    /// The address of the slot this handle names.
    pub closed spec fn addr(&self) -> nat {
        self.inner as nat
    }

    /// Both handles name the same slot.
    pub open spec fn aliases(&self, other: &U<T>) -> bool {
        self.addr() == other.addr()
    }

    /// The slot this handle names is live in the store `m`.
    pub open spec fn is_live(&self, m: Map<nat, T>) -> bool {
        m.contains_key(self.addr())
    }

    /// What reading through this handle gives in the store `m`.
    pub open spec fn read(&self, m: Map<nat, T>) -> T {
        m[self.addr()]
    }

    /// The store `m` after `v` is written through this handle.
    pub open spec fn written(&self, m: Map<nat, T>, v: T) -> Map<nat, T> {
        m.insert(self.addr(), v)
    }

    /// The store `m` after the slot this handle names is released.
    pub open spec fn released(&self, m: Map<nat, T>) -> Map<nat, T> {
        m.remove(self.addr())
    }

    /// Stores `value` in a slot of `arena` that is not live and returns a
    /// handle to it. A released slot is reused before the store grows.
    pub fn new(arena: &mut Arena<T>, value: T) -> (r: U<T>)
        requires
            old(arena).wf(),
        ensures
            final(arena).wf(),
            !r.is_live(old(arena)@),
            final(arena)@ == r.written(old(arena)@, value),
    {
        match arena.vacant.pop() {
            Some(a) => {
                arena.slots.set(a, Some(value));
                proof {
                    assert(arena@ =~= old(arena)@.insert(a as nat, value));
                }
                U { inner: a, marker: PhantomData }
            },
            None => {
                let a = arena.slots.len();
                arena.slots.push(Some(value));
                proof {
                    assert(arena@ =~= old(arena)@.insert(a as nat, value));
                }
                U { inner: a, marker: PhantomData }
            },
        }
    }

    /// Gives the slot this handle names back to `arena`. Other handles to it
    /// are left naming a slot that is no longer live.
    pub fn free(&self, arena: &mut Arena<T>)
        requires
            old(arena).wf(),
            self.is_live(old(arena)@),
        ensures
            final(arena).wf(),
            final(arena)@ == self.released(old(arena)@),
    {
        arena.slots.set(self.inner, None);
        arena.vacant.push(self.inner);
        proof {
            assert(arena@ =~= old(arena)@.remove(self.addr()));
        }
    }

    /// The value in the slot this handle names.
    pub fn deref<'a>(&self, arena: &'a Arena<T>) -> (r: &'a T)
        requires
            self.is_live(arena@),
        ensures
            *r == self.read(arena@),
    {
        arena.slots[self.inner].as_ref().unwrap()
    }

    /// Mutable access to the value in the slot this handle names; what is
    /// written through it is what every handle to the slot reads afterwards.
    pub fn deref_mut<'a>(&self, arena: &'a mut Arena<T>) -> (r: &'a mut T)
        requires
            old(arena).wf(),
            self.is_live(old(arena)@),
        ensures
            *r == self.read(old(arena)@),
            final(arena).wf(),
            final(arena)@ == self.written(old(arena)@, *final(r)),
    {
        match &mut arena.slots[self.inner] {
            Some(v) => v,
            None => unreached(),
        }
    }
}

impl<T> Clone for U<T> {
    /// Another handle to the same slot; the value is not copied.
    fn clone(&self) -> (r: U<T>)
        ensures
            r.aliases(self),
    {
        U { inner: self.inner, marker: PhantomData }
    }
}

} // verus!
