//! Derived values: a computation with a cache.
//!
//! A derived value follows cells under an id of its own. A notification
//! that names the id empties the cache, and the next read computes afresh.
//! Between two notifications every read returns the same cached value.

use vstd::prelude::*;
use crate::effects::EffectId;

verus! {

/// What a derived value holds, as plain values.
pub struct DerivedState<T> {
    /// The id under which the value subscribes to its dependencies.
    pub id: EffectId,
    /// The cached result; `None` while it is out of date.
    pub cache: Option<T>,
}

impl<T> DerivedState<T> {
    /// The state after a write notified `notified`: the cache is dropped
    /// if the own id is among them.
    pub open spec fn notify(self, notified: Seq<EffectId>) -> Self {
        if notified.contains(self.id) {
            DerivedState { id: self.id, cache: None }
        } else {
            self
        }
    }

    /// The state after a read that computed or found `value`.
    pub open spec fn filled(self, value: T) -> Self {
        DerivedState { id: self.id, cache: Some(value) }
    }
}

/// A cached computation.
#[derive(Debug)]
pub struct Derived<T> {
    id: EffectId,
    cache: Option<T>,
}

impl<T> View for Derived<T> {
    type V = DerivedState<T>;

    closed spec fn view(&self) -> DerivedState<T> {
        DerivedState { id: self.id, cache: self.cache }
    }
}

impl<T> Derived<T> {
    /// A derived value that was not computed yet.
    pub fn new(id: EffectId) -> (d: Self)
        ensures
            d@ == (DerivedState::<T> { id, cache: None }),
    {
        Derived { id, cache: None }
    }

    /// The id under which the value subscribes to its dependencies.
    pub fn id(&self) -> (id: EffectId)
        ensures
            id == self@.id,
    {
        self.id
    }

    /// Whether the cache holds a value.
    pub fn is_fresh(&self) -> (b: bool)
        ensures
            b == self@.cache is Some,
    {
        self.cache.is_some()
    }

    /// The cached value, if the cache holds one. Computes nothing.
    pub fn peek(&self) -> (r: Option<&T>)
        ensures
            r is Some <==> self@.cache is Some,
            r matches Some(v) ==> self@.cache == Some(*v),
    {
        self.cache.as_ref()
    }

    /// Drops the cache.
    pub fn invalidate(&mut self)
        ensures
            final(self)@ == (DerivedState::<T> { id: old(self)@.id, cache: None }),
    {
        self.cache = None;
    }

    /// Takes the notification of a write: drops the cache if the own id is
    /// among the notified. Returns whether it was.
    pub fn notify(&mut self, notified: &Vec<EffectId>) -> (hit: bool)
        ensures
            hit == notified@.contains(old(self)@.id),
            final(self)@ == old(self)@.notify(notified@),
    {
        let mut i: usize = 0;
        while i < notified.len()
            invariant
                i <= notified.len(),
                forall|k: int| 0 <= k < i ==> notified@[k] != self.id,
                *self == *old(self),
            decreases notified.len() - i,
        {
            if notified[i] == self.id {
                self.cache = None;
                return true;
            }
            i = i + 1;
        }
        false
    }

    /// Reads the value. With a full cache this returns what is cached and
    /// does not call `compute`. With an empty one it calls `compute` once,
    /// caches the result and returns it.
    pub fn read<F: Fn() -> T>(&mut self, compute: F) -> (v: &T)
        requires
            old(self)@.cache is None ==> compute.requires(()),
        ensures
            final(self)@ == old(self)@.filled(*v),
            old(self)@.cache matches Some(cached) ==> *v == cached,
            old(self)@.cache is None ==> compute.ensures((), *v),
    {
        if self.cache.is_none() {
            self.cache = Some(compute());
        }
        self.cache.as_ref().unwrap()
    }
}

/// Reading is idempotent: a read fills the cache with what it returned, so
/// a second read without a notification in between finds that value cached
/// and computes nothing.
pub proof fn lemma_read_then_read<T>(s: DerivedState<T>, first: T)
    ensures
        s.filled(first).cache == Some(first),
        s.filled(first).filled(first) == s.filled(first),
{
}

/// A notification for another id leaves the cache alone; one for the own id
/// empties it, and nothing else changes.
pub proof fn lemma_notify_targets_own_id<T>(s: DerivedState<T>, notified: Seq<EffectId>)
    ensures
        !notified.contains(s.id) ==> s.notify(notified) == s,
        notified.contains(s.id) ==> s.notify(notified).cache is None,
        s.notify(notified).id == s.id,
        s.notify(notified).notify(notified) == s.notify(notified),
{
}

} // verus!
