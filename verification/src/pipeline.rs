//! A pipeline for one kind of long-running action.
//!
//! A submit raises the loading flag and hands out a ticket. The completion
//! that carries the ticket of the latest submit stores its payload and lowers
//! the flag in one step; a completion with any other ticket is dropped. So
//! the last submit wins, and a late answer never overwrites a newer one.

use vstd::prelude::*;

verus! {

/// Names one submit of a pipeline. Tickets of one pipeline are numbered in
/// the order of the submits, starting at zero.
#[derive(Clone, Copy, Debug, PartialEq, Eq, Structural)]
pub struct Ticket {
    pub serial: u64,
}

/// Why a submit was turned down.
#[derive(Clone, Copy, Debug, PartialEq, Eq, Structural)]
pub enum PipelineError {
    /// An action is still in flight.
    Busy,
    /// The pipeline has handed out every ticket that it can number.
    Exhausted,
}

/// What became of a completion.
#[derive(Clone, Copy, Debug, PartialEq, Eq, Structural)]
pub enum Completion {
    /// The payload was stored and loading ended.
    Applied,
    /// The ticket was not the awaited one; nothing changed.
    Dropped,
}

/// The observable state of a pipeline.
pub struct PipelineState<R> {
    /// The payload of the last applied completion, if any.
    pub result: Option<R>,
    /// How many tickets were handed out.
    pub issued: nat,
    /// The serial of the submit whose completion is awaited.
    pub awaited: Option<nat>,
}

impl<R> PipelineState<R> {
    /// The state of a new pipeline: no result, nothing in flight.
    pub open spec fn empty() -> Self {
        PipelineState { result: None, issued: 0, awaited: None }
    }

    /// An awaited ticket is one that was handed out.
    pub open spec fn wf(self) -> bool {
        self.awaited matches Some(t) ==> t < self.issued
    }

    /// Whether an action is in flight.
    pub open spec fn loading(self) -> bool {
        self.awaited is Some
    }

    /// The serial that the next submit hands out.
    pub open spec fn next_serial(self) -> nat {
        self.issued
    }

    /// The state after a submit: the new ticket is awaited, whatever was
    /// awaited before.
    pub open spec fn submit(self) -> Self {
        PipelineState { result: self.result, issued: self.issued + 1, awaited: Some(self.issued) }
    }

    /// Whether a completion with this serial is applied.
    pub open spec fn accepts(self, serial: nat) -> bool {
        self.awaited == Some(serial)
    }

    /// The state after a completion: the payload is stored and loading ends
    /// if the serial is the awaited one, else nothing changes.
    pub open spec fn complete(self, serial: nat, payload: R) -> Self {
        if self.accepts(serial) {
            PipelineState { result: Some(payload), issued: self.issued, awaited: None }
        } else {
            self
        }
    }

    /// The state after a cancellation: nothing is awaited any more.
    pub open spec fn cancel(self) -> Self {
        PipelineState { result: self.result, issued: self.issued, awaited: None }
    }
}

/// A pipeline whose completions carry a payload of type `R`.
#[derive(Debug)]
pub struct AsyncPipeline<R> {
    result: Option<R>,
    issued: u64,
    awaited: Option<u64>,
}

impl<R> View for AsyncPipeline<R> {
    type V = PipelineState<R>;

    closed spec fn view(&self) -> PipelineState<R> {
        PipelineState {
            result: self.result,
            issued: self.issued as nat,
            awaited: match self.awaited {
                Some(t) => Some(t as nat),
                None => None,
            },
        }
    }
}

impl<R> AsyncPipeline<R> {
    #[verifier::type_invariant]
    spec fn inv(self) -> bool {
        self.awaited matches Some(t) ==> t < self.issued
    }

    /// A pipeline with no result and nothing in flight.
    pub fn new() -> (p: Self)
        ensures
            p@ == PipelineState::<R>::empty(),
    {
        AsyncPipeline { result: None, issued: 0, awaited: None }
    }

    /// An idle pipeline that numbers its tickets from `issued` on. A view
    /// that is mounted again continues the numbering of its earlier
    /// instance this way, so that a ticket of that instance stays stale.
    pub fn continuing_from(issued: u64) -> (p: Self)
        ensures
            p@ == (PipelineState::<R> { result: None, issued: issued as nat, awaited: None }),
    {
        AsyncPipeline { result: None, issued, awaited: None }
    }

    /// Whether an action is in flight.
    pub fn is_loading(&self) -> (b: bool)
        ensures
            b == self@.loading(),
            self@.wf(),
    {
        proof {
            use_type_invariant(self);
        }
        self.awaited.is_some()
    }

    /// The payload of the last applied completion; `None` before the first.
    pub fn result(&self) -> (r: Option<&R>)
        ensures
            r matches Some(x) ==> self@.result == Some(*x),
            r is None <==> self@.result is None,
    {
        self.result.as_ref()
    }

    /// How many tickets were handed out.
    pub fn issued(&self) -> (n: u64)
        ensures
            n == self@.issued,
            self@.wf(),
    {
        proof {
            use_type_invariant(self);
        }
        self.issued
    }

    /// Starts an action and supersedes the one in flight, if any: from now
    /// on only the returned ticket completes the pipeline. Fails, and
    /// changes nothing, only when the tickets have run out.
    pub fn submit(&mut self) -> (r: Result<Ticket, PipelineError>)
        ensures
            old(self)@.issued < u64::MAX ==> r == Ok::<Ticket, PipelineError>(
                Ticket { serial: old(self)@.next_serial() as u64 },
            ) && final(self)@ == old(self)@.submit(),
            old(self)@.issued >= u64::MAX ==> r == Err::<Ticket, PipelineError>(
                PipelineError::Exhausted,
            ) && final(self)@ == old(self)@,
    {
        proof {
            use_type_invariant(&*self);
        }
        if self.issued == u64::MAX {
            return Err(PipelineError::Exhausted);
        }
        let serial = self.issued;
        self.issued = serial + 1;
        self.awaited = Some(serial);
        Ok(Ticket { serial })
    }

    /// Starts an action unless one is in flight. While one is, the caller
    /// is told that the pipeline is busy, and nothing changes.
    pub fn try_submit(&mut self) -> (r: Result<Ticket, PipelineError>)
        ensures
            old(self)@.loading() ==> r == Err::<Ticket, PipelineError>(PipelineError::Busy)
                && final(self)@ == old(self)@,
            !old(self)@.loading() && old(self)@.issued < u64::MAX ==> r == Ok::<
                Ticket,
                PipelineError,
            >(Ticket { serial: old(self)@.next_serial() as u64 }) && final(self)@ == old(
                self,
            )@.submit(),
            !old(self)@.loading() && old(self)@.issued >= u64::MAX ==> r == Err::<
                Ticket,
                PipelineError,
            >(PipelineError::Exhausted) && final(self)@ == old(self)@,
    {
        if self.awaited.is_some() {
            Err(PipelineError::Busy)
        } else {
            self.submit()
        }
    }

    /// Whether a completion with this ticket would be applied.
    pub fn accepts(&self, ticket: Ticket) -> (b: bool)
        ensures
            b == self@.accepts(ticket.serial as nat),
    {
        match self.awaited {
            Some(t) => t == ticket.serial,
            None => false,
        }
    }

    /// Delivers the payload of the action that `ticket` names. The payload
    /// is stored and loading ends, both at once, if the ticket is the
    /// awaited one. Otherwise the payload is dropped and nothing changes.
    pub fn complete(&mut self, ticket: Ticket, payload: R) -> (c: Completion)
        ensures
            final(self)@ == old(self)@.complete(ticket.serial as nat, payload),
            c == if old(self)@.accepts(ticket.serial as nat) {
                Completion::Applied
            } else {
                Completion::Dropped
            },
    {
        proof {
            use_type_invariant(&*self);
        }
        if self.accepts(ticket) {
            self.result = Some(payload);
            self.awaited = None;
            Completion::Applied
        } else {
            Completion::Dropped
        }
    }

    /// Gives up the action in flight: its completion will be dropped. The
    /// stored result stays. Returns whether an action was in flight.
    pub fn cancel(&mut self) -> (was_loading: bool)
        ensures
            final(self)@ == old(self)@.cancel(),
            was_loading == old(self)@.loading(),
    {
        proof {
            use_type_invariant(&*self);
        }
        let was_loading = self.awaited.is_some();
        self.awaited = None;
        was_loading
    }
}

/// The last submit wins. After two submits in a row, whichever of the two
/// completions arrives first, the pipeline ends with the payload of the
/// second submit and is no longer loading; the payload of the first is never
/// stored, not even in between.
pub proof fn lemma_last_submit_wins<R>(s: PipelineState<R>, first: R, second: R)
    requires
        s.wf(),
    ensures
        ({
            let t1 = s.next_serial();
            let s1 = s.submit();
            let t2 = s1.next_serial();
            let s2 = s1.submit();
            let in_order = s2.complete(t1, first);
            let reversed = s2.complete(t2, second);
            &&& t1 != t2
            &&& in_order == s2
            &&& in_order.complete(t2, second).result == Some(second)
            &&& !in_order.complete(t2, second).loading()
            &&& reversed.result == Some(second)
            &&& !reversed.loading()
            &&& reversed.complete(t1, first) == reversed
        }),
{
}

/// A ticket completes a pipeline at most once: after its completion was
/// applied, a second delivery of the same ticket changes nothing.
pub proof fn lemma_completion_applies_once<R>(s: PipelineState<R>, serial: nat, a: R, b: R)
    requires
        s.wf(),
    ensures
        s.complete(serial, a).complete(serial, b) == s.complete(serial, a),
{
}

/// Loading and result change together. A completion either leaves the state
/// as it was, or stores its payload and ends loading in the same step: there
/// is no state with the new result and the flag still up, nor one with the
/// flag down and the old result.
pub proof fn lemma_completion_is_atomic<R>(s: PipelineState<R>, serial: nat, payload: R)
    requires
        s.wf(),
    ensures
        s.complete(serial, payload) == s || (s.loading() && !s.complete(serial, payload).loading()
            && s.complete(serial, payload).result == Some(payload)),
        s.complete(serial, payload).wf(),
        s.submit().wf(),
        s.submit().loading(),
        s.cancel().wf(),
{
}

/// Once a pipeline was cancelled, no ticket handed out before is accepted.
pub proof fn lemma_cancel_drops_all<R>(s: PipelineState<R>, serial: nat, payload: R)
    requires
        s.wf(),
    ensures
        s.cancel().complete(serial, payload) == s.cancel(),
{
}

} // verus!
