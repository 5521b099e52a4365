//! The state behind the analysis console.
//!
//! The console owns a symbol selection, one analysis pipeline, a clock line
//! and the timer that drives it. The host reports what happened: a click, a
//! timer tick, an analysis that arrived. The console decides what changes.

use vstd::prelude::*;
use crate::analysis::{AnalysisResult, ResultModel};
use crate::clock::{clock_text, format_clock};
use crate::effects::{EffectId, EffectKind, EffectScheduler, SchedulerState};
use crate::pipeline::{AsyncPipeline, Completion, PipelineError, PipelineState, Ticket};

verus! {

/// The period of the clock timer, in milliseconds.
pub const CLOCK_PERIOD_MS: u64 = 1000;

/// How long the host waits before it delivers an analysis, in milliseconds.
pub const ANALYSIS_DELAY_MS: u64 = 1000;

/// The state of an analysis pipeline with its result as plain values.
pub open spec fn shown(p: PipelineState<AnalysisResult>) -> PipelineState<ResultModel> {
    PipelineState {
        result: match p.result {
            Some(r) => Some(r@),
            None => None,
        },
        issued: p.issued,
        awaited: p.awaited,
    }
}

/// What the console holds, as plain values.
pub struct ConsoleModel {
    pub selected_symbol: Seq<char>,
    pub analysis: PipelineState<ResultModel>,
    pub current_time: Seq<char>,
    pub effects: SchedulerState,
}

impl ConsoleModel {
    /// The console as it is mounted: the first symbol selected, no
    /// analysis yet, an empty clock line, and the clock timer registered.
    pub open spec fn initial() -> Self {
        ConsoleModel {
            selected_symbol: "Nifty 50"@,
            analysis: PipelineState::empty(),
            current_time: Seq::empty(),
            effects: SchedulerState::empty().register(
                EffectKind::Interval { period_ms: CLOCK_PERIOD_MS },
            ),
        }
    }

    /// The id of the clock timer.
    pub open spec fn clock_timer() -> EffectId {
        EffectId { index: 0 }
    }

    /// Whether an analysis is in flight.
    pub open spec fn loading(self) -> bool {
        self.analysis.loading()
    }

    /// Whether a click on the button starts an analysis: none is in flight,
    /// and a ticket is left.
    pub open spec fn can_analyze(self) -> bool {
        !self.analysis.loading() && self.analysis.issued < u64::MAX
    }

    /// The state after another symbol was selected.
    pub open spec fn select_symbol(self, symbol: Seq<char>) -> Self {
        ConsoleModel { selected_symbol: symbol, ..self }
    }

    /// The state after a click on the button.
    pub open spec fn analyze(self) -> Self {
        if self.can_analyze() {
            ConsoleModel { analysis: self.analysis.submit(), ..self }
        } else {
            self
        }
    }

    /// The state after the analysis that `serial` names arrived.
    pub open spec fn deliver(self, serial: nat, payload: ResultModel) -> Self {
        ConsoleModel { analysis: self.analysis.complete(serial, payload), ..self }
    }

    /// The state after a tick of `timer` at the given time of day: the
    /// clock line is rewritten if the timer is live, and nothing happens
    /// if it is not.
    pub open spec fn tick(self, timer: EffectId, hours: nat, minutes: nat, seconds: nat) -> Self {
        if self.effects.fires(timer) {
            ConsoleModel { current_time: clock_text(hours, minutes, seconds), ..self }
        } else {
            self
        }
    }

    /// The state after the view went away: every timer is cancelled and the
    /// analysis in flight, if any, is given up.
    pub open spec fn unmount(self) -> Self {
        ConsoleModel {
            analysis: self.analysis.cancel(),
            effects: self.effects.teardown(),
            ..self
        }
    }

    /// What the button says.
    pub open spec fn button_label(self) -> Seq<char> {
        if self.loading() {
            "Analyzing..."@
        } else {
            "Analyze"@
        }
    }
}

/// The state of the console view.
#[derive(Debug)]
pub struct Console {
    selected_symbol: String,
    analysis: AsyncPipeline<AnalysisResult>,
    current_time: String,
    effects: EffectScheduler,
}

impl View for Console {
    type V = ConsoleModel;

    closed spec fn view(&self) -> ConsoleModel {
        ConsoleModel {
            selected_symbol: self.selected_symbol@,
            analysis: shown(self.analysis@),
            current_time: self.current_time@,
            effects: self.effects@,
        }
    }
}

impl Console {
    /// The console as it is mounted. The host starts a timer of period
    /// `CLOCK_PERIOD_MS` under the id `clock_timer()` and reports its ticks.
    pub fn mount() -> (c: Self)
        ensures
            c@ == ConsoleModel::initial(),
    {
        let mut effects = EffectScheduler::new();
        effects.schedule_interval(CLOCK_PERIOD_MS);
        Console {
            selected_symbol: "Nifty 50".to_owned(),
            analysis: AsyncPipeline::new(),
            current_time: String::new(),
            effects,
        }
    }

    /// The id of the clock timer.
    pub fn clock_timer(&self) -> (id: EffectId)
        ensures
            id == ConsoleModel::clock_timer(),
    {
        EffectId { index: 0 }
    }

    /// The selected symbol.
    pub fn selected_symbol(&self) -> (r: &str)
        ensures
            r@ == self@.selected_symbol,
    {
        self.selected_symbol.as_str()
    }

    /// Whether an analysis is in flight.
    pub fn is_loading(&self) -> (b: bool)
        ensures
            b == self@.loading(),
    {
        self.analysis.is_loading()
    }

    /// The latest analysis; `None` before the first one arrived.
    pub fn result(&self) -> (r: Option<&AnalysisResult>)
        ensures
            r is Some <==> self@.analysis.result is Some,
            r matches Some(a) ==> self@.analysis.result == Some(a@),
    {
        self.analysis.result()
    }

    /// The clock line; empty before the first tick.
    pub fn current_time(&self) -> (r: &str)
        ensures
            r@ == self@.current_time,
    {
        self.current_time.as_str()
    }

    /// What the button says.
    pub fn button_label(&self) -> (r: &'static str)
        ensures
            r@ == self@.button_label(),
    {
        if self.analysis.is_loading() {
            "Analyzing..."
        } else {
            "Analyze"
        }
    }

    /// Selects another symbol.
    pub fn select_symbol(&mut self, symbol: String)
        ensures
            final(self)@ == old(self)@.select_symbol(symbol@),
    {
        self.selected_symbol = symbol;
    }

    /// Takes a click on the button. Starts an analysis and hands out its
    /// ticket; the host delivers the result under it after
    /// `ANALYSIS_DELAY_MS`. While an analysis is in flight the click does
    /// nothing and the caller is told that the console is busy.
    pub fn analyze(&mut self) -> (r: Result<Ticket, PipelineError>)
        ensures
            final(self)@ == old(self)@.analyze(),
            old(self)@.can_analyze() ==> r == Ok::<Ticket, PipelineError>(
                Ticket { serial: old(self)@.analysis.next_serial() as u64 },
            ),
            old(self)@.loading() ==> r == Err::<Ticket, PipelineError>(PipelineError::Busy),
            !old(self)@.loading() && !old(self)@.can_analyze() ==> r == Err::<
                Ticket,
                PipelineError,
            >(PipelineError::Exhausted),
    {
        self.analysis.try_submit()
    }

    /// Takes the analysis that `ticket` names. It is shown, and loading
    /// ends, if the ticket is the awaited one; a late or cancelled one is
    /// dropped.
    pub fn deliver(&mut self, ticket: Ticket, payload: AnalysisResult) -> (c: Completion)
        ensures
            final(self)@ == old(self)@.deliver(ticket.serial as nat, payload@),
            c == if old(self)@.analysis.accepts(ticket.serial as nat) {
                Completion::Applied
            } else {
                Completion::Dropped
            },
    {
        self.analysis.complete(ticket, payload)
    }

    /// Takes a tick of `timer` at the given time of day. Returns whether
    /// the clock line was rewritten; a tick of a cancelled timer does
    /// nothing.
    pub fn tick(&mut self, timer: EffectId, hours: u32, minutes: u32, seconds: u32) -> (shown:
        bool)
        ensures
            shown == old(self)@.effects.fires(timer),
            final(self)@ == old(self)@.tick(timer, hours as nat, minutes as nat, seconds as nat),
    {
        if self.effects.fires(timer) {
            self.current_time = format_clock(hours, minutes, seconds);
            true
        } else {
            false
        }
    }

    /// Takes the view down. Returns the timers that the host must stop;
    /// whatever still arrives afterwards, tick or analysis, changes
    /// nothing.
    pub fn unmount(&mut self) -> (timers: Vec<EffectId>)
        ensures
            timers@ == old(self)@.effects.active_ids(),
            final(self)@ == old(self)@.unmount(),
    {
        self.analysis.cancel();
        self.effects.teardown()
    }
}

/// After the console was taken down nothing writes to it any more: a tick
/// of any timer and the arrival of any analysis leave it as it is, and a
/// second unmount has nothing left to stop.
pub proof fn lemma_unmounted_console_is_quiet(
    s: ConsoleModel,
    timer: EffectId,
    hours: nat,
    minutes: nat,
    seconds: nat,
    serial: nat,
    payload: ResultModel,
)
    ensures
        s.unmount().tick(timer, hours, minutes, seconds) == s.unmount(),
        s.unmount().deliver(serial, payload) == s.unmount(),
        !s.unmount().loading(),
        s.unmount().unmount().effects == s.unmount().effects,
{
    assert(s.unmount().unmount().effects.effects =~= s.unmount().effects.effects);
}

/// The clock timer of a mounted console is live until it is cancelled: its
/// tick rewrites the clock line and touches nothing else.
pub proof fn lemma_clock_ticks_while_mounted(hours: nat, minutes: nat, seconds: nat)
    ensures
        ConsoleModel::initial().effects.fires(ConsoleModel::clock_timer()),
        ConsoleModel::initial().tick(ConsoleModel::clock_timer(), hours, minutes, seconds) == (
        ConsoleModel {
            current_time: clock_text(hours, minutes, seconds),
            ..ConsoleModel::initial()
        }),
{
}

/// Two clicks in a row start one analysis: the second click finds the
/// console busy and changes nothing, and the result of the one analysis
/// ends loading.
pub proof fn lemma_second_click_is_ignored(s: ConsoleModel, payload: ResultModel)
    requires
        s.can_analyze(),
    ensures
        s.analyze().loading(),
        s.analyze().analyze() == s.analyze(),
        s.analyze().deliver(s.analysis.next_serial(), payload).analysis.result == Some(payload),
        !s.analyze().deliver(s.analysis.next_serial(), payload).loading(),
{
}

} // verus!
