//! Observable cells.
//!
//! A cell owns a value and the list of those who follow it. A write that
//! changes the value hands back the followers to notify: each of them once,
//! in the order in which they subscribed.

use vstd::prelude::*;
use vstd::std_specs::cmp::PartialEqSpec;
use crate::effects::EffectId;

verus! {

/// The test that keeps every id but `id`.
pub open spec fn other_than(id: EffectId) -> spec_fn(EffectId) -> bool {
    |s: EffectId| s != id
}

/// What a cell holds, as plain values.
pub struct CellState<T> {
    pub value: T,
    pub subscribers: Seq<EffectId>,
}

impl<T> CellState<T> {
    /// No subscriber is listed twice.
    pub open spec fn wf(self) -> bool {
        self.subscribers.no_duplicates()
    }

    /// The state after `id` subscribed: it joins at the end, unless it is
    /// a subscriber already.
    pub open spec fn subscribe(self, id: EffectId) -> Self {
        if self.subscribers.contains(id) {
            self
        } else {
            CellState { value: self.value, subscribers: self.subscribers.push(id) }
        }
    }

    /// The state after `id` left; the others keep their order.
    pub open spec fn unsubscribe(self, id: EffectId) -> Self {
        CellState {
            value: self.value,
            subscribers: self.subscribers.filter(other_than(id)),
        }
    }

    /// The state after a write: the value is replaced if the write changes
    /// it, and nothing happens if it does not.
    pub open spec fn write(self, value: T, changed: bool) -> Self {
        if changed {
            CellState { value, subscribers: self.subscribers }
        } else {
            self
        }
    }

    /// Whom a write notifies: all subscribers if it changes the value, and
    /// nobody if it does not.
    pub open spec fn notified(self, changed: bool) -> Seq<EffectId> {
        if changed {
            self.subscribers
        } else {
            Seq::empty()
        }
    }

    /// The state after the cell let go of its subscribers.
    pub open spec fn release(self) -> Self {
        CellState { value: self.value, subscribers: Seq::empty() }
    }
}

/// What a write did.
#[derive(Debug)]
pub struct Written {
    /// Whether the value was replaced.
    pub changed: bool,
    /// The subscribers to notify, in the order of subscription.
    pub notified: Vec<EffectId>,
}

/// An observable value.
#[derive(Debug)]
pub struct ReactiveCell<T> {
    value: T,
    subscribers: Vec<EffectId>,
}

impl<T> View for ReactiveCell<T> {
    type V = CellState<T>;

    closed spec fn view(&self) -> CellState<T> {
        CellState { value: self.value, subscribers: self.subscribers@ }
    }
}

fn copy_ids(ids: &Vec<EffectId>) -> (r: Vec<EffectId>)
    ensures
        r@ == ids@,
{
    let mut r: Vec<EffectId> = Vec::new();
    let mut i: usize = 0;
    while i < ids.len()
        invariant
            i <= ids.len(),
            r@ == ids@.take(i as int),
        decreases ids.len() - i,
    {
        r.push(ids[i]);
        i = i + 1;
    }
    r
}

impl<T> ReactiveCell<T> {
    #[verifier::type_invariant]
    spec fn inv(self) -> bool {
        self.subscribers@.no_duplicates()
    }

    /// A cell with an initial value and no subscribers.
    pub fn new(initial: T) -> (cell: Self)
        ensures
            cell@ == (CellState { value: initial, subscribers: Seq::<EffectId>::empty() }),
    {
        ReactiveCell { value: initial, subscribers: Vec::new() }
    }

    /// The current value. Nobody is subscribed by this read.
    pub fn get(&self) -> (v: &T)
        ensures
            *v == self@.value,
            self@.wf(),
    {
        proof {
            use_type_invariant(self);
        }
        &self.value
    }

    /// Whether `id` is a subscriber.
    pub fn is_subscribed(&self, id: EffectId) -> (b: bool)
        ensures
            b == self@.subscribers.contains(id),
    {
        let mut i: usize = 0;
        while i < self.subscribers.len()
            invariant
                i <= self.subscribers.len(),
                forall|k: int| 0 <= k < i ==> self.subscribers@[k] != id,
            decreases self.subscribers.len() - i,
        {
            if self.subscribers[i] == id {
                return true;
            }
            i = i + 1;
        }
        false
    }

    /// Registers `id` as a dependent, as a read inside a tracked computation
    /// does. Returns whether it was new.
    pub fn subscribe(&mut self, id: EffectId) -> (added: bool)
        ensures
            added == !old(self)@.subscribers.contains(id),
            final(self)@ == old(self)@.subscribe(id),
    {
        proof {
            use_type_invariant(&*self);
        }
        if self.is_subscribed(id) {
            false
        } else {
            let mut subscribers = copy_ids(&self.subscribers);
            subscribers.push(id);
            assert(subscribers@.no_duplicates());
            self.subscribers = subscribers;
            true
        }
    }

    /// Reads the value inside the computation `reader` and registers it as
    /// a dependent.
    pub fn track(&mut self, reader: EffectId) -> (v: &T)
        ensures
            *v == old(self)@.value,
            final(self)@ == old(self)@.subscribe(reader),
    {
        self.subscribe(reader);
        &self.value
    }

    /// Takes `id` off the subscribers. Returns whether it was one.
    pub fn unsubscribe(&mut self, id: EffectId) -> (removed: bool)
        ensures
            removed == old(self)@.subscribers.contains(id),
            final(self)@ == old(self)@.unsubscribe(id),
    {
        proof {
            use_type_invariant(&*self);
        }
        let ghost keep = other_than(id);
        let mut kept: Vec<EffectId> = Vec::new();
        let mut removed = false;
        let mut i: usize = 0;
        while i < self.subscribers.len()
            invariant
                i <= self.subscribers.len(),
                keep == other_than(id),
                kept@ == self.subscribers@.take(i as int).filter(keep),
                removed == self.subscribers@.take(i as int).contains(id),
            decreases self.subscribers.len() - i,
        {
            let s = self.subscribers[i];
            proof {
                let before = self.subscribers@.take(i as int);
                assert(self.subscribers@.take(i + 1) =~= before.push(s));
                before.lemma_filter_push(s, keep);
                assert(before.push(s).contains(id) <==> (before.contains(id) || s == id)) by {
                    if s == id {
                        assert(before.push(s)[before.len() as int] == id);
                    }
                }
            }
            if s == id {
                removed = true;
            } else {
                kept.push(s);
            }
            i = i + 1;
        }
        proof {
            assert(self.subscribers@.take(self.subscribers@.len() as int) =~= self.subscribers@);
            lemma_filter_keeps_distinct(self.subscribers@, keep);
        }
        self.subscribers = kept;
        removed
    }

    /// Replaces the value and hands back all subscribers for notification,
    /// each once and in the order of subscription, whether the new value
    /// differs from the old one or not.
    pub fn replace(&mut self, value: T) -> (notified: Vec<EffectId>)
        ensures
            final(self)@ == old(self)@.write(value, true),
            notified@ == old(self)@.notified(true),
            notified@.no_duplicates(),
    {
        proof {
            use_type_invariant(&*self);
        }
        self.value = value;
        copy_ids(&self.subscribers)
    }

    /// Writes a value. If it equals the current one, nothing happens and
    /// nobody is notified. Otherwise the value is replaced and all
    /// subscribers are handed back for notification, each once and in the
    /// order of subscription.
    pub fn set(&mut self, value: T) -> (w: Written) where T: PartialEq
        ensures
            final(self)@ == old(self)@.write(value, w.changed),
            w.notified@ == old(self)@.notified(w.changed),
            w.notified@.no_duplicates(),
            T::obeys_eq_spec() ==> w.changed == !value.eq_spec(&old(self)@.value),
    {
        proof {
            use_type_invariant(&*self);
        }
        if value.eq(&self.value) {
            Written { changed: false, notified: Vec::new() }
        } else {
            self.value = value;
            Written { changed: true, notified: copy_ids(&self.subscribers) }
        }
    }

    /// Lets go of all subscribers, as a cell does when its view goes away.
    /// Later writes notify nobody.
    pub fn release(&mut self)
        ensures
            final(self)@ == old(self)@.release(),
    {
        self.subscribers = Vec::new();
    }
}

impl ReactiveCell<bool> {
    /// Flips the flag and hands back all subscribers for notification, each
    /// once and in the order of subscription.
    pub fn toggle(&mut self) -> (notified: Vec<EffectId>)
        ensures
            final(self)@.value == !old(self)@.value,
            final(self)@.subscribers == old(self)@.subscribers,
            notified@ == old(self)@.subscribers,
            notified@.no_duplicates(),
    {
        let flipped = !self.value;
        self.replace(flipped)
    }
}

/// Filtering keeps a sequence free of duplicates.
proof fn lemma_filter_keeps_distinct<A>(s: Seq<A>, keep: spec_fn(A) -> bool)
    requires
        s.no_duplicates(),
    ensures
        s.filter(keep).no_duplicates(),
    decreases s.len(),
{
    reveal(Seq::filter);
    if s.len() > 0 {
        lemma_filter_keeps_distinct(s.drop_last(), keep);
        let rest = s.drop_last().filter(keep);
        if keep(s.last()) {
            assert forall|k: int| 0 <= k < rest.len() implies rest[k] != s.last() by {
                s.drop_last().lemma_filter_contains_rev(keep, rest[k]);
            }
        }
    }
}

/// Subscribers are notified in the order in which they subscribed: two new
/// subscribers stand at the end of the list, the earlier one first, and a
/// changing write notifies the list as it stands.
pub proof fn lemma_notified_in_subscription_order<T>(
    s: CellState<T>,
    a: EffectId,
    b: EffectId,
    value: T,
)
    requires
        s.wf(),
        !s.subscribers.contains(a),
        !s.subscribers.contains(b),
        a != b,
    ensures
        s.subscribe(a).subscribe(b).notified(true) == s.subscribers.push(a).push(b),
        s.subscribe(a).subscribe(b).wf(),
        s.subscribe(a).subscribe(a) == s.subscribe(a),
{
    let one = s.subscribers.push(a);
    assert(one.contains(a)) by {
        assert(one[s.subscribers.len() as int] == a);
    }
}

/// Repeating a write settles: once a value was written, writing it again
/// changes nothing and notifies nobody, so no follower recomputes twice.
pub proof fn lemma_repeated_write_settles<T>(s: CellState<T>, value: T, changed: bool)
    ensures
        s.write(value, changed).write(value, false) == s.write(value, changed),
        s.write(value, changed).notified(false) == Seq::<EffectId>::empty(),
        s.write(value, changed).subscribers == s.subscribers,
{
}

/// A released cell notifies nobody, whatever is written to it.
pub proof fn lemma_released_cell_is_silent<T>(s: CellState<T>, value: T, changed: bool)
    ensures
        s.release().notified(changed) == Seq::<EffectId>::empty(),
        s.release().write(value, changed).notified(true) == Seq::<EffectId>::empty(),
{
}

} // verus!
