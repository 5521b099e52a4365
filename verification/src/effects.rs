//! The registry of a view's effects and timers.
//!
//! Whatever a view starts, an effect that follows cells or a timer that
//! ticks, is registered here and gets an id. The id cancels it. Tearing the
//! view down cancels all that is left, so that nothing runs for a view that
//! is gone. The registry decides; the timers themselves belong to the host.

use vstd::prelude::*;

verus! {

/// Names one registered effect. Ids of one registry count up from zero in
/// the order of registration. The same ids name the subscribers of a cell.
#[derive(Clone, Copy, Debug, PartialEq, Eq, Structural)]
pub struct EffectId {
    pub index: usize,
}

/// What makes an effect run.
#[derive(Clone, Copy, Debug, PartialEq, Eq, Structural)]
pub enum EffectKind {
    /// Runs when a cell that it follows is written.
    Reactive,
    /// Runs every `period_ms` milliseconds.
    Interval { period_ms: u64 },
}

/// One registered effect.
#[derive(Clone, Copy, Debug, PartialEq, Eq, Structural)]
pub struct Effect {
    pub kind: EffectKind,
    pub active: bool,
}

/// The ids `from`, `from + 1`, .. of the active effects among `effects`, in
/// rising order, where `from` is the id of the first.
pub open spec fn active_from(effects: Seq<Effect>, from: int) -> Seq<EffectId>
    decreases effects.len(),
{
    if effects.len() == 0 {
        Seq::empty()
    } else {
        let rest = active_from(effects.drop_last(), from);
        if effects.last().active {
            rest.push(EffectId { index: (from + effects.len() - 1) as usize })
        } else {
            rest
        }
    }
}

/// The registered effects, as plain values: the effect with id `i` stands at
/// position `i`.
pub struct SchedulerState {
    pub effects: Seq<Effect>,
}

impl SchedulerState {
    /// No effect registered.
    pub open spec fn empty() -> Self {
        SchedulerState { effects: Seq::empty() }
    }

    /// Whether the id names a registered effect that was not cancelled.
    pub open spec fn is_active(self, id: EffectId) -> bool {
        id.index < self.effects.len() && self.effects[id.index as int].active
    }

    /// The kind of a registered effect, cancelled or not.
    pub open spec fn kind(self, id: EffectId) -> Option<EffectKind> {
        if id.index < self.effects.len() {
            Some(self.effects[id.index as int].kind)
        } else {
            None
        }
    }

    /// Whether a tick of the timer `id` runs its callback: the id names an
    /// interval that was not cancelled.
    pub open spec fn fires(self, id: EffectId) -> bool {
        self.is_active(id) && self.effects[id.index as int].kind is Interval
    }

    /// Whether a notification for `id` runs the effect again: the id names
    /// a reactive effect that was not cancelled.
    pub open spec fn reruns(self, id: EffectId) -> bool {
        self.is_active(id) && self.effects[id.index as int].kind is Reactive
    }

    /// The test that a notification makes on each subscriber.
    pub open spec fn rerun_test(self) -> spec_fn(EffectId) -> bool {
        |id: EffectId| self.reruns(id)
    }

    /// Of the subscribers that a write notified, those whose effect runs
    /// again, in the order given.
    pub open spec fn due(self, notified: Seq<EffectId>) -> Seq<EffectId> {
        notified.filter(self.rerun_test())
    }

    /// The id that the next registration gets.
    pub open spec fn next_id(self) -> EffectId {
        EffectId { index: self.effects.len() as usize }
    }

    /// The state after registering an effect of the given kind.
    pub open spec fn register(self, kind: EffectKind) -> Self {
        SchedulerState { effects: self.effects.push(Effect { kind, active: true }) }
    }

    /// The state after cancelling `id`; unchanged if `id` is not active.
    pub open spec fn cancel(self, id: EffectId) -> Self {
        if self.is_active(id) {
            SchedulerState {
                effects: self.effects.update(
                    id.index as int,
                    Effect { kind: self.effects[id.index as int].kind, active: false },
                ),
            }
        } else {
            self
        }
    }

    /// The ids of all active effects, in the order of registration.
    pub open spec fn active_ids(self) -> Seq<EffectId> {
        active_from(self.effects, 0)
    }

    /// The state after teardown: every effect is cancelled.
    pub open spec fn teardown(self) -> Self {
        SchedulerState {
            effects: Seq::new(
                self.effects.len(),
                |i: int| Effect { kind: self.effects[i].kind, active: false },
            ),
        }
    }
}

/// The effects and timers of one view.
#[derive(Debug)]
pub struct EffectScheduler {
    effects: Vec<Effect>,
}

impl View for EffectScheduler {
    type V = SchedulerState;

    closed spec fn view(&self) -> SchedulerState {
        SchedulerState { effects: self.effects@ }
    }
}

impl EffectScheduler {
    /// A registry without effects.
    pub fn new() -> (s: Self)
        ensures
            s@ == SchedulerState::empty(),
    {
        EffectScheduler { effects: Vec::new() }
    }

    fn register(&mut self, kind: EffectKind) -> (id: EffectId)
        ensures
            final(self)@ == old(self)@.register(kind),
            id == old(self)@.next_id(),
    {
        let id = EffectId { index: self.effects.len() };
        self.effects.push(Effect { kind, active: true });
        id
    }

    /// Registers an effect that follows cells. The caller runs it once right
    /// away, and again whenever `reruns` says so for a notification.
    pub fn run_effect(&mut self) -> (id: EffectId)
        ensures
            final(self)@ == old(self)@.register(EffectKind::Reactive),
            id == old(self)@.next_id(),
    {
        self.register(EffectKind::Reactive)
    }

    /// Registers a timer with a fixed period. The caller starts the timer
    /// and asks `fires` at each tick.
    pub fn schedule_interval(&mut self, period_ms: u64) -> (id: EffectId)
        ensures
            final(self)@ == old(self)@.register(EffectKind::Interval { period_ms }),
            id == old(self)@.next_id(),
    {
        self.register(EffectKind::Interval { period_ms })
    }

    /// Whether the effect was registered and not cancelled.
    pub fn is_active(&self, id: EffectId) -> (b: bool)
        ensures
            b == self@.is_active(id),
    {
        id.index < self.effects.len() && self.effects[id.index].active
    }

    /// The kind of a registered effect, and with it the period of a timer;
    /// `None` for an id that was never handed out.
    pub fn kind(&self, id: EffectId) -> (k: Option<EffectKind>)
        ensures
            k == self@.kind(id),
    {
        if id.index < self.effects.len() {
            Some(self.effects[id.index].kind)
        } else {
            None
        }
    }

    /// Whether a tick of timer `id` runs its callback.
    pub fn fires(&self, id: EffectId) -> (b: bool)
        ensures
            b == self@.fires(id),
    {
        if id.index < self.effects.len() && self.effects[id.index].active {
            match self.effects[id.index].kind {
                EffectKind::Interval { .. } => true,
                EffectKind::Reactive => false,
            }
        } else {
            false
        }
    }

    /// Whether a notification for `id` runs the effect again.
    pub fn reruns(&self, id: EffectId) -> (b: bool)
        ensures
            b == self@.reruns(id),
    {
        if id.index < self.effects.len() && self.effects[id.index].active {
            match self.effects[id.index].kind {
                EffectKind::Interval { .. } => false,
                EffectKind::Reactive => true,
            }
        } else {
            false
        }
    }

    /// Of the subscribers that a write notified, those whose effect runs
    /// again, in the order given.
    pub fn due(&self, notified: &Vec<EffectId>) -> (run: Vec<EffectId>)
        ensures
            run@ == self@.due(notified@),
    {
        let ghost keep = self@.rerun_test();
        let mut run: Vec<EffectId> = Vec::new();
        let mut i: usize = 0;
        while i < notified.len()
            invariant
                i <= notified.len(),
                keep == self@.rerun_test(),
                run@ == notified@.take(i as int).filter(keep),
            decreases notified.len() - i,
        {
            let id = notified[i];
            proof {
                assert(notified@.take(i + 1) =~= notified@.take(i as int).push(id));
                notified@.take(i as int).lemma_filter_push(id, keep);
            }
            if self.reruns(id) {
                run.push(id);
            }
            i = i + 1;
        }
        assert(notified@.take(notified@.len() as int) =~= notified@);
        run
    }

    /// Cancels an effect. Returns whether it was active; cancelling what is
    /// not active changes nothing.
    pub fn cancel(&mut self, id: EffectId) -> (was_active: bool)
        ensures
            was_active == old(self)@.is_active(id),
            final(self)@ == old(self)@.cancel(id),
    {
        if id.index < self.effects.len() && self.effects[id.index].active {
            let kind = self.effects[id.index].kind;
            self.effects.set(id.index, Effect { kind, active: false });
            true
        } else {
            false
        }
    }

    /// The ids of all active effects, in the order of registration.
    pub fn active_ids(&self) -> (ids: Vec<EffectId>)
        ensures
            ids@ == self@.active_ids(),
    {
        let mut ids: Vec<EffectId> = Vec::new();
        let mut i: usize = 0;
        while i < self.effects.len()
            invariant
                i <= self.effects.len(),
                ids@ == active_from(self.effects@.take(i as int), 0),
            decreases self.effects.len() - i,
        {
            proof {
                let longer = self.effects@.take(i + 1);
                assert(longer.drop_last() =~= self.effects@.take(i as int));
            }
            if self.effects[i].active {
                ids.push(EffectId { index: i });
            }
            i = i + 1;
        }
        assert(self.effects@.take(self.effects@.len() as int) =~= self.effects@);
        ids
    }

    /// Cancels every effect that is still active and returns their ids, in
    /// the order of registration, so that the host can stop the timers.
    pub fn teardown(&mut self) -> (released: Vec<EffectId>)
        ensures
            released@ == old(self)@.active_ids(),
            final(self)@ == old(self)@.teardown(),
    {
        let released = self.active_ids();
        let mut i: usize = 0;
        while i < self.effects.len()
            invariant
                i <= self.effects.len(),
                self.effects@.len() == old(self).effects@.len(),
                forall|k: int|
                    0 <= k < i ==> self.effects@[k] == (Effect {
                        kind: old(self).effects@[k].kind,
                        active: false,
                    }),
                forall|k: int| i <= k < self.effects@.len() ==> self.effects@[k] == old(
                    self,
                ).effects@[k],
            decreases self.effects.len() - i,
        {
            let kind = self.effects[i].kind;
            self.effects.set(i, Effect { kind, active: false });
            i = i + 1;
        }
        assert(self@.effects =~= old(self)@.teardown().effects);
        released
    }
}

/// Every id among the active ones is active, and every active id is among
/// them.
pub proof fn lemma_active_ids(s: SchedulerState, id: EffectId)
    requires
        s.effects.len() <= usize::MAX,
    ensures
        s.active_ids().contains(id) <==> s.is_active(id),
    decreases s.effects.len(),
{
    if s.effects.len() > 0 {
        let shorter = SchedulerState { effects: s.effects.drop_last() };
        lemma_active_ids(shorter, id);
        let rest = active_from(shorter.effects, 0);
        let last = EffectId { index: (s.effects.len() - 1) as usize };
        if s.effects.last().active {
            if s.is_active(id) {
                if id.index == s.effects.len() - 1 {
                    assert(rest.push(last)[rest.len() as int] == id);
                } else {
                    let k = choose|k: int| 0 <= k < rest.len() && rest[k] == id;
                    assert(rest.push(last)[k] == id);
                }
            }
        }
    }
}

/// Teardown silences a view: afterwards no timer tick runs a callback and
/// no notification runs an effect, whatever the id, and nothing is left to
/// cancel.
pub proof fn lemma_teardown_silences(s: SchedulerState, id: EffectId)
    ensures
        !s.teardown().is_active(id),
        !s.teardown().fires(id),
        !s.teardown().reruns(id),
        s.teardown().cancel(id) == s.teardown(),
        s.teardown().effects.len() == s.effects.len(),
{
}

/// After teardown a notification runs no effect, whoever was notified.
pub proof fn lemma_teardown_leaves_nothing_due(s: SchedulerState, notified: Seq<EffectId>)
    ensures
        s.teardown().due(notified) == Seq::<EffectId>::empty(),
    decreases notified.len(),
{
    reveal(Seq::filter);
    if notified.len() > 0 {
        lemma_teardown_leaves_nothing_due(s, notified.drop_last());
    }
}

/// A cancelled effect stays cancelled, a second cancel changes nothing, and
/// no other effect is touched.
pub proof fn lemma_cancel_is_final(s: SchedulerState, id: EffectId, other: EffectId)
    ensures
        !s.cancel(id).is_active(id),
        !s.cancel(id).fires(id),
        !s.cancel(id).reruns(id),
        s.cancel(id).cancel(id) == s.cancel(id),
        other != id ==> s.cancel(id).is_active(other) == s.is_active(other),
        other != id ==> s.cancel(id).fires(other) == s.fires(other),
        other != id ==> s.cancel(id).reruns(other) == s.reruns(other),
{
}

/// Registering an effect makes it active under the next id and touches no
/// effect registered before.
pub proof fn lemma_register_adds_one(s: SchedulerState, kind: EffectKind, other: EffectId)
    requires
        s.effects.len() < usize::MAX,
    ensures
        s.register(kind).is_active(s.next_id()),
        s.register(kind).kind(s.next_id()) == Some(kind),
        s.register(kind).fires(s.next_id()) == (kind is Interval),
        s.register(kind).reruns(s.next_id()) == (kind is Reactive),
        other != s.next_id() ==> s.register(kind).is_active(other) == s.is_active(other),
{
}

} // verus!
