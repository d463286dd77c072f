use vstd::prelude::*;

verus! {

/// A value derived from some upstream state, with a flag that says whether
/// the upstream state has changed since the value was last computed.
///
/// Mutators of the upstream state call `invalidate`; once per batch of
/// changes the owner calls `refresh`, which recomputes only when needed.
#[derive(Clone, Debug)]
pub struct Cached<T> {
    value: T,
    dirty: bool,
}

impl<T> Cached<T> {
    pub closed spec fn value(&self) -> T {
        self.value
    }

    pub closed spec fn dirty(&self) -> bool {
        self.dirty
    }

    /// The state after a refresh whose computation, if it ran, gave `v`.
    pub closed spec fn refreshed(&self, v: T) -> Cached<T> {
        if self.dirty {
            Cached { value: v, dirty: false }
        } else {
            *self
        }
    }

    /// A cache holding `value` that is already marked stale, so that the
    /// first `refresh` recomputes it.
    pub fn new_stale(value: T) -> (r: Cached<T>)
        ensures
            r.value() == value,
            r.dirty(),
    {
        Cached { value, dirty: true }
    }

    pub fn is_dirty(&self) -> (r: bool)
        ensures
            r == self.dirty(),
    {
        self.dirty
    }

    /// The last computed value; stale while `is_dirty` holds.
    pub fn get(&self) -> (r: &T)
        ensures
            *r == self.value(),
    {
        &self.value
    }

    /// Marks the value stale, keeping it as it is.
    pub fn invalidate(&mut self)
        ensures
            final(self).dirty(),
            final(self).value() == old(self).value(),
    {
        self.dirty = true;
    }

    /// Recomputes the value with `compute` if it is stale, and marks it
    /// fresh. A fresh cache is left untouched and `compute` is not called.
    /// Returns whether `compute` ran.
    pub fn refresh<F: FnOnce() -> T>(&mut self, compute: F) -> (ran: bool)
        requires
            old(self).dirty() ==> compute.requires(()),
        ensures
            ran == old(self).dirty(),
            ran ==> compute.ensures((), final(self).value()),
            !ran ==> final(self).value() == old(self).value(),
            *final(self) == old(self).refreshed(final(self).value()),
            !final(self).dirty(),
    {
        if self.dirty {
            self.value = compute();
            self.dirty = false;
            true
        } else {
            false
        }
    }
}

/// After a refresh the cache is fresh, whatever was computed.
pub proof fn lemma_refresh_clears<T>(c: Cached<T>, v: T)
    ensures
        !c.refreshed(v).dirty(),
        c.dirty() ==> c.refreshed(v).value() == v,
        !c.dirty() ==> c.refreshed(v) == c,
{
}

/// Refreshing twice with no invalidation between changes nothing the second
/// time: the second computation never runs and the value stays identical.
pub proof fn lemma_refresh_twice<T>(c: Cached<T>, v: T, w: T)
    ensures
        c.refreshed(v).refreshed(w) == c.refreshed(v),
{
}

} // verus!
