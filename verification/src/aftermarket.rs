//! The state behind the aftermarket analyzer: a symbol and a day to look
//! at, and the price history fetched for them.
//!
//! A fetch is for the symbol that is selected when it is submitted. The
//! analyzer remembers that symbol, so the rows that arrive carry it even if
//! the selection changes while the fetch is in flight.

use vstd::prelude::*;
use crate::market::{bar_models, ohlcv_history, sample_history, BarModel, OHLCVData};
use crate::pipeline::{AsyncPipeline, Completion, PipelineError, PipelineState, Ticket};

verus! {

/// How long the host waits before it delivers a history, in milliseconds.
pub const FETCH_DELAY_MS: u64 = 1000;

/// The state of a history pipeline with its result as plain values.
pub open spec fn fetched(p: PipelineState<Vec<OHLCVData>>) -> PipelineState<Seq<BarModel>> {
    PipelineState {
        result: match p.result {
            Some(bars) => Some(bar_models(bars@)),
            None => None,
        },
        issued: p.issued,
        awaited: p.awaited,
    }
}

/// What the analyzer holds, as plain values.
pub struct AnalyzerModel {
    pub selected_symbol: Seq<char>,
    pub selected_date: Seq<char>,
    /// The symbol of the latest fetch; `None` before the first.
    pub requested: Option<Seq<char>>,
    pub history: PipelineState<Seq<BarModel>>,
}

impl AnalyzerModel {
    /// The analyzer as it is mounted: the first symbol, the sample day, and
    /// nothing fetched.
    pub open spec fn initial() -> Self {
        AnalyzerModel {
            selected_symbol: "Nifty 50"@,
            selected_date: "2025-03-20"@,
            requested: None,
            history: PipelineState::empty(),
        }
    }

    /// A fetch in flight has a symbol that it was submitted for.
    pub open spec fn wf(self) -> bool {
        self.history.loading() ==> self.requested is Some
    }

    /// Whether a fetch is in flight.
    pub open spec fn loading(self) -> bool {
        self.history.loading()
    }

    /// Whether a click on the button starts a fetch.
    pub open spec fn can_fetch(self) -> bool {
        !self.history.loading() && self.history.issued < u64::MAX
    }

    /// The days to show; none before the first fetch arrived.
    pub open spec fn bars(self) -> Seq<BarModel> {
        match self.history.result {
            Some(bars) => bars,
            None => Seq::empty(),
        }
    }

    /// Whether there is a table to show.
    pub open spec fn has_data(self) -> bool {
        self.bars().len() > 0
    }

    /// The state after another symbol was selected.
    pub open spec fn select_symbol(self, symbol: Seq<char>) -> Self {
        AnalyzerModel { selected_symbol: symbol, ..self }
    }

    /// The state after another day was selected.
    pub open spec fn select_date(self, date: Seq<char>) -> Self {
        AnalyzerModel { selected_date: date, ..self }
    }

    /// The state after a click on the button: a fetch for the selected
    /// symbol is in flight, unless one was in flight already.
    pub open spec fn fetch_data(self) -> Self {
        if self.can_fetch() {
            AnalyzerModel {
                requested: Some(self.selected_symbol),
                history: self.history.submit(),
                ..self
            }
        } else {
            self
        }
    }

    /// The state after the fetch that `serial` names came back: the history
    /// of the symbol that the fetch was submitted for is shown, if the
    /// serial is the awaited one, and nothing changes if it is not.
    pub open spec fn complete_fetch(self, serial: nat) -> Self {
        if self.history.accepts(serial) {
            AnalyzerModel {
                history: self.history.complete(serial, sample_history(self.requested->0)),
                ..self
            }
        } else {
            self
        }
    }

    /// The state after the view went away.
    pub open spec fn unmount(self) -> Self {
        AnalyzerModel { history: self.history.cancel(), ..self }
    }

    /// What the button says.
    pub open spec fn button_label(self) -> Seq<char> {
        if self.loading() {
            "Fetching..."@
        } else {
            "Fetch Data"@
        }
    }
}

/// The state of the aftermarket analyzer view.
#[derive(Debug)]
pub struct AftermarketAnalyzer {
    selected_symbol: String,
    selected_date: String,
    requested: Option<String>,
    history: AsyncPipeline<Vec<OHLCVData>>,
}

impl View for AftermarketAnalyzer {
    type V = AnalyzerModel;

    closed spec fn view(&self) -> AnalyzerModel {
        AnalyzerModel {
            selected_symbol: self.selected_symbol@,
            selected_date: self.selected_date@,
            requested: match self.requested {
                Some(symbol) => Some(symbol@),
                None => None,
            },
            history: fetched(self.history@),
        }
    }
}

impl AftermarketAnalyzer {
    #[verifier::type_invariant]
    spec fn inv(self) -> bool {
        self.history@.loading() ==> self.requested is Some
    }

    /// The analyzer as it is mounted.
    pub fn mount() -> (a: Self)
        ensures
            a@ == AnalyzerModel::initial(),
    {
        AftermarketAnalyzer {
            selected_symbol: "Nifty 50".to_owned(),
            selected_date: "2025-03-20".to_owned(),
            requested: None,
            history: AsyncPipeline::new(),
        }
    }

    /// The selected symbol.
    pub fn selected_symbol(&self) -> (r: &str)
        ensures
            r@ == self@.selected_symbol,
    {
        self.selected_symbol.as_str()
    }

    /// The selected day.
    pub fn selected_date(&self) -> (r: &str)
        ensures
            r@ == self@.selected_date,
    {
        self.selected_date.as_str()
    }

    /// Whether a fetch is in flight.
    pub fn is_loading(&self) -> (b: bool)
        ensures
            b == self@.loading(),
    {
        self.history.is_loading()
    }

    /// The fetched days; `None` before the first fetch arrived.
    pub fn bars(&self) -> (r: Option<&Vec<OHLCVData>>)
        ensures
            r is Some <==> self@.history.result is Some,
            r matches Some(bars) ==> bar_models(bars@) == self@.bars(),
            r is None ==> self@.bars() == Seq::<BarModel>::empty(),
    {
        self.history.result()
    }

    /// Whether there is a table to show.
    pub fn has_data(&self) -> (b: bool)
        ensures
            b == self@.has_data(),
    {
        match self.history.result() {
            Some(bars) => bars.len() > 0,
            None => false,
        }
    }

    /// What the button says.
    pub fn button_label(&self) -> (r: &'static str)
        ensures
            r@ == self@.button_label(),
    {
        if self.history.is_loading() {
            "Fetching..."
        } else {
            "Fetch Data"
        }
    }

    /// Selects another symbol.
    pub fn select_symbol(&mut self, symbol: String)
        ensures
            final(self)@ == old(self)@.select_symbol(symbol@),
    {
        proof {
            use_type_invariant(&*self);
        }
        self.selected_symbol = symbol;
    }

    /// Selects another day.
    pub fn select_date(&mut self, date: String)
        ensures
            final(self)@ == old(self)@.select_date(date@),
    {
        proof {
            use_type_invariant(&*self);
        }
        self.selected_date = date;
    }

    /// The symbol of the latest fetch; `None` before the first.
    pub fn requested(&self) -> (r: Option<&str>)
        ensures
            r is Some <==> self@.requested is Some,
            r matches Some(symbol) ==> symbol@ == self@.requested->0,
            self@.wf(),
    {
        proof {
            use_type_invariant(self);
        }
        match &self.requested {
            Some(symbol) => Some(symbol.as_str()),
            None => None,
        }
    }

    /// Takes a click on the button. Starts a fetch for the selected symbol
    /// and hands out its ticket; the host reports under it, after
    /// `FETCH_DELAY_MS`, that the fetch came back. While a fetch is in
    /// flight the click does nothing and the caller is told that the
    /// analyzer is busy.
    pub fn fetch_data(&mut self) -> (r: Result<Ticket, PipelineError>)
        ensures
            final(self)@ == old(self)@.fetch_data(),
            old(self)@.can_fetch() ==> r == Ok::<Ticket, PipelineError>(
                Ticket { serial: old(self)@.history.next_serial() as u64 },
            ) && final(self)@.requested == Some(old(self)@.selected_symbol),
            old(self)@.loading() ==> r == Err::<Ticket, PipelineError>(PipelineError::Busy),
            !old(self)@.loading() && !old(self)@.can_fetch() ==> r == Err::<
                Ticket,
                PipelineError,
            >(PipelineError::Exhausted),
    {
        proof {
            use_type_invariant(&*self);
        }
        let mut history = AsyncPipeline::new();
        std::mem::swap(&mut history, &mut self.history);
        let r = history.try_submit();
        if r.is_ok() {
            self.requested = Some(self.selected_symbol.clone());
        }
        self.history = history;
        r
    }

    /// Takes the report that the fetch which `ticket` names came back. If
    /// the ticket is the awaited one, the history of the symbol that the
    /// fetch was submitted for is shown and loading ends. A late or
    /// cancelled fetch changes nothing.
    pub fn complete_fetch(&mut self, ticket: Ticket) -> (c: Completion)
        ensures
            final(self)@ == old(self)@.complete_fetch(ticket.serial as nat),
            old(self)@.history.accepts(ticket.serial as nat) ==> c == Completion::Applied
                && final(self)@.bars() == sample_history(old(self)@.requested->0)
                && !final(self)@.loading(),
            !old(self)@.history.accepts(ticket.serial as nat) ==> c == Completion::Dropped
                && final(self)@ == old(self)@,
    {
        proof {
            use_type_invariant(&*self);
        }
        if !self.history.accepts(ticket) {
            return Completion::Dropped;
        }
        let bars = match &self.requested {
            Some(symbol) => ohlcv_history(symbol.as_str()),
            None => unreached(),
        };
        let mut history = AsyncPipeline::new();
        std::mem::swap(&mut history, &mut self.history);
        let c = history.complete(ticket, bars);
        self.history = history;
        c
    }

    /// Takes the view down: a fetch that still comes back is dropped.
    pub fn unmount(&mut self)
        ensures
            final(self)@ == old(self)@.unmount(),
    {
        let mut history = AsyncPipeline::new();
        std::mem::swap(&mut history, &mut self.history);
        history.cancel();
        self.history = history;
    }
}

/// A fetch shows the symbol that it was submitted for. After a click on an
/// idle analyzer, whatever symbol is selected while the fetch is in flight,
/// the rows shown when it comes back are the history of the symbol that was
/// selected at the click: five rows, each carrying that symbol. Loading has
/// ended, and a second click in between changed nothing.
pub proof fn lemma_fetch_shows_requested_symbol(s: AnalyzerModel, later: Seq<char>)
    requires
        s.can_fetch(),
    ensures
        ({
            let shown = s.fetch_data().select_symbol(later).complete_fetch(
                s.history.next_serial(),
            );
            &&& shown.bars() == sample_history(s.selected_symbol)
            &&& shown.bars().len() == 5
            &&& forall|i: int| 0 <= i < 5 ==> (#[trigger] shown.bars()[i]).symbol == s.selected_symbol
            &&& !shown.loading()
            &&& shown.selected_symbol == later
        }),
        s.fetch_data().loading(),
        s.fetch_data().wf(),
        s.fetch_data().fetch_data() == s.fetch_data(),
{
}

/// After the analyzer was taken down no history is shown that was not
/// shown before.
pub proof fn lemma_unmounted_analyzer_is_quiet(s: AnalyzerModel, serial: nat)
    ensures
        s.unmount().complete_fetch(serial) == s.unmount(),
        s.unmount().bars() == s.bars(),
        !s.unmount().loading(),
{
}

} // verus!
