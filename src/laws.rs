//! Properties of handles that relate several operations, stated over the
//! store's view and the spec functions that the operations' contracts use.
use vstd::prelude::*;
use crate::arena::U;

verus! {

/// Reading through a fresh handle gives back the value it was created with.
pub proof fn lemma_create_then_read<T>(m: Map<nat, T>, h: U<T>, v: T)
    requires
        !h.is_live(m),
    ensures
        h.is_live(h.written(m, v)),
        h.read(h.written(m, v)) == v,
{
}

/// After a value is created and another written over it through the same
/// handle, reading gives the value written last.
pub proof fn lemma_write_then_read<T>(m: Map<nat, T>, h: U<T>, v: T, v2: T)
    requires
        !h.is_live(m),
    ensures
        h.is_live(h.written(h.written(m, v), v2)),
        h.read(h.written(h.written(m, v), v2)) == v2,
{
}

/// A duplicate and the handle it came from see each other's writes, in both
/// directions.
pub proof fn lemma_duplicate_sees_writes<T>(m: Map<nat, T>, h1: U<T>, h2: U<T>, v: T)
    requires
        h2.aliases(&h1),
        h1.is_live(m),
    ensures
        h1.is_live(h2.written(m, v)),
        h1.read(h2.written(m, v)) == v,
        h2.is_live(h1.written(m, v)),
        h2.read(h1.written(m, v)) == v,
{
}

/// Aliasing carries through repeated duplication: a write through a duplicate
/// of a duplicate is what the first handle reads.
pub proof fn lemma_duplicate_of_duplicate<T>(
    m: Map<nat, T>,
    h1: U<T>,
    h2: U<T>,
    h3: U<T>,
    v: T,
)
    requires
        h2.aliases(&h1),
        h3.aliases(&h2),
        h1.is_live(m),
    ensures
        h1.is_live(h3.written(m, v)),
        h1.read(h3.written(m, v)) == v,
{
}

/// When the value behind a handle is changed in place by `update` (setting a
/// field, say), every handle to the same slot then sees the changed value, so
/// any computation `derived` over it gives the same result through each.
pub proof fn lemma_update_seen_by_aliases<T, R>(
    m: Map<nat, T>,
    h1: U<T>,
    update: spec_fn(T) -> T,
    derived: spec_fn(T) -> R,
)
    requires
        h1.is_live(m),
    ensures
        forall|h: U<T>|
            #[trigger] h.aliases(&h1) ==> {
                let after = h1.written(m, update(h1.read(m)));
                &&& h.is_live(after)
                &&& derived(h.read(after)) == derived(update(h1.read(m)))
            },
{
}

/// Releasing through one handle ends the slot for every handle that aliases
/// it, so none of them may be read from afterwards; slots named by other
/// handles keep their values.
pub proof fn lemma_release_ends_aliases<T>(m: Map<nat, T>, h1: U<T>)
    requires
        h1.is_live(m),
    ensures
        forall|h: U<T>| #[trigger] h.aliases(&h1) ==> !h.is_live(h1.released(m)),
        forall|h: U<T>|
            !h.aliases(&h1) && #[trigger] h.is_live(m) ==> {
                &&& h.is_live(h1.released(m))
                &&& h.read(h1.released(m)) == h.read(m)
            },
{
}

} // verus!
