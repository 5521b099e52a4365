//! The trade journal: entries, the form that edits one, and the ledger.
//!
//! The profit and loss of an entry is derived from its prices, quantity and
//! fees. It is stored next to them, cannot be set from outside, and is
//! recomputed by every edit, so no reader ever sees a stale figure.

use vstd::prelude::*;
use crate::decimal::{decimal_of, Amount, Decimal};
use crate::text::{chars_of, i32_of, parse_i32_or_zero};

verus! {

/// Profit and loss of a trade, all money in hundredths.
pub open spec fn pnl_of(buy_price: int, sell_price: int, quantity: int, fees: int) -> int {
    (sell_price - buy_price) * quantity - fees
}

proof fn lemma_product_bound(a: int, b: int, la: int, lb: int)
    by (nonlinear_arith)
    requires
        -la <= a <= la,
        -lb <= b <= lb,
    ensures
        -(la * lb) <= a * b <= la * lb,
{
}

/// Computes profit and loss. The result is exact for every input: it is
/// held in a type wide enough for the largest product.
pub fn compute_pnl(buy_price: Decimal, sell_price: Decimal, quantity: i32, fees: Decimal) -> (pnl:
    Amount)
    ensures
        pnl@ == pnl_of(buy_price@, sell_price@, quantity as int, fees@),
{
    let spread: i128 = sell_price.hundredths as i128 - buy_price.hundredths as i128;
    let count: i128 = quantity as i128;
    proof {
        lemma_product_bound(
            spread as int,
            count as int,
            0x1_0000_0000_0000_0000,
            0x8000_0000,
        );
        assert(0x1_0000_0000_0000_0000int * 0x8000_0000int
            == 0x8000_0000_0000_0000_0000_0000int) by (nonlinear_arith);
    }
    let gross: i128 = spread * count;
    Amount { hundredths: gross - fees.hundredths as i128 }
}

/// Which side of the market a trade was on.
#[derive(Clone, Copy, Debug, PartialEq, Eq, Structural)]
pub enum TradeAction {
    Buy,
    Sell,
}

/// The side that a text names: exactly `"Buy"` or `"Sell"`.
pub open spec fn action_of(s: Seq<char>) -> Option<TradeAction> {
    if s == seq!['B', 'u', 'y'] {
        Some(TradeAction::Buy)
    } else if s == seq!['S', 'e', 'l', 'l'] {
        Some(TradeAction::Sell)
    } else {
        None
    }
}

impl TradeAction {
    /// The name of the side, as a form offers it.
    pub open spec fn label_text(self) -> Seq<char> {
        match self {
            TradeAction::Buy => seq!['B', 'u', 'y'],
            TradeAction::Sell => seq!['S', 'e', 'l', 'l'],
        }
    }

    /// The name of the side.
    pub fn label(&self) -> (r: &'static str)
        ensures
            r@ == self.label_text(),
    {
        proof {
            reveal_strlit("Buy");
            reveal_strlit("Sell");
        }
        let r = match self {
            TradeAction::Buy => "Buy",
            TradeAction::Sell => "Sell",
        };
        r
    }

    /// Reads the name of a side; any other text names none.
    pub fn from_text(s: &str) -> (r: Option<TradeAction>)
        ensures
            r == action_of(s@),
    {
        let v = chars_of(s);
        if v.len() == 3 && v[0] == 'B' && v[1] == 'u' && v[2] == 'y' {
            assert(v@ =~= seq!['B', 'u', 'y']);
            Some(TradeAction::Buy)
        } else if v.len() == 4 && v[0] == 'S' && v[1] == 'e' && v[2] == 'l' && v[3] == 'l' {
            assert(v@ =~= seq!['S', 'e', 'l', 'l']);
            Some(TradeAction::Sell)
        } else {
            None
        }
    }
}

/// The numbers of a trade together with the profit and loss that follows
/// from them.
#[derive(Clone, Copy, Debug)]
struct TradeFigures {
    quantity: i32,
    buy_price: Decimal,
    sell_price: Decimal,
    fees: Decimal,
    pnl: Amount,
}

impl TradeFigures {
    #[verifier::type_invariant]
    spec fn inv(self) -> bool {
        self.pnl@ == pnl_of(self.buy_price@, self.sell_price@, self.quantity as int, self.fees@)
    }

    fn new(quantity: i32, buy_price: Decimal, sell_price: Decimal, fees: Decimal) -> (f: Self)
        ensures
            f.quantity == quantity,
            f.buy_price == buy_price,
            f.sell_price == sell_price,
            f.fees == fees,
            f.pnl@ == pnl_of(buy_price@, sell_price@, quantity as int, fees@),
    {
        TradeFigures {
            quantity,
            buy_price,
            sell_price,
            fees,
            pnl: compute_pnl(buy_price, sell_price, quantity, fees),
        }
    }
}

/// What an entry holds, as plain values. The profit and loss is no field of
/// its own: it is a function of the others.
pub struct EntryModel {
    pub id: Option<Seq<char>>,
    pub date: Seq<char>,
    pub symbol: Seq<char>,
    pub quantity: int,
    pub buy_price: int,
    pub sell_price: int,
    pub action: TradeAction,
    pub fees: int,
    pub notes: Seq<char>,
}

/// The fields of an entry that a form edits.
#[derive(Clone, Copy, Debug, PartialEq, Eq, Structural)]
pub enum FormField {
    Symbol,
    Quantity,
    BuyPrice,
    SellPrice,
    Action,
    Fees,
    Notes,
}

impl EntryModel {
    /// The figures fit the types that hold them.
    pub open spec fn wf(self) -> bool {
        &&& i32::MIN <= self.quantity <= i32::MAX
        &&& i64::MIN <= self.buy_price <= i64::MAX
        &&& i64::MIN <= self.sell_price <= i64::MAX
        &&& i64::MIN <= self.fees <= i64::MAX
    }

    /// The profit and loss of the entry, in hundredths.
    pub open spec fn pnl(self) -> int {
        pnl_of(self.buy_price, self.sell_price, self.quantity, self.fees)
    }

    /// An entry with nothing filled in: no symbol, zero figures, a buy.
    pub open spec fn blank(id: Option<Seq<char>>, date: Seq<char>) -> EntryModel {
        EntryModel {
            id,
            date,
            symbol: Seq::empty(),
            quantity: 0,
            buy_price: 0,
            sell_price: 0,
            action: TradeAction::Buy,
            fees: 0,
            notes: Seq::empty(),
        }
    }

    /// The entry with everything but its id and date cleared.
    pub open spec fn reset(self) -> EntryModel {
        EntryModel::blank(self.id, self.date)
    }

    /// The entry after the user typed `text` into `field`. A quantity, price
    /// or fee that is no number counts as zero; a side that is neither
    /// `"Buy"` nor `"Sell"` leaves the side as it was.
    pub open spec fn with_input(self, field: FormField, text: Seq<char>) -> EntryModel {
        match field {
            FormField::Symbol => EntryModel { symbol: text, ..self },
            FormField::Quantity => EntryModel {
                quantity: match i32_of(text) {
                    Some(q) => q as int,
                    None => 0,
                },
                ..self
            },
            FormField::BuyPrice => EntryModel {
                buy_price: match decimal_of(text) {
                    Some(d) => d@,
                    None => 0,
                },
                ..self
            },
            FormField::SellPrice => EntryModel {
                sell_price: match decimal_of(text) {
                    Some(d) => d@,
                    None => 0,
                },
                ..self
            },
            FormField::Action => EntryModel {
                action: match action_of(text) {
                    Some(a) => a,
                    None => self.action,
                },
                ..self
            },
            FormField::Fees => EntryModel {
                fees: match decimal_of(text) {
                    Some(d) => d@,
                    None => 0,
                },
                ..self
            },
            FormField::Notes => EntryModel { notes: text, ..self },
        }
    }
}

/// One trade in the journal.
#[derive(Debug)]
pub struct JournalEntry {
    id: Option<String>,
    date: String,
    symbol: String,
    action: TradeAction,
    notes: String,
    figures: TradeFigures,
}

impl View for JournalEntry {
    type V = EntryModel;

    closed spec fn view(&self) -> EntryModel {
        EntryModel {
            id: match self.id {
                Some(s) => Some(s@),
                None => None,
            },
            date: self.date@,
            symbol: self.symbol@,
            quantity: self.figures.quantity as int,
            buy_price: self.figures.buy_price@,
            sell_price: self.figures.sell_price@,
            action: self.action,
            fees: self.figures.fees@,
            notes: self.notes@,
        }
    }
}

fn clone_id(id: &Option<String>) -> (r: Option<String>)
    ensures
        r is Some <==> id is Some,
        r matches Some(s) ==> s@ == id->0@,
{
    match id {
        Some(s) => Some(s.clone()),
        None => None,
    }
}

impl Clone for JournalEntry {
    fn clone(&self) -> (r: Self)
        ensures
            r@ == self@,
    {
        JournalEntry {
            id: clone_id(&self.id),
            date: self.date.clone(),
            symbol: self.symbol.clone(),
            action: self.action,
            notes: self.notes.clone(),
            figures: self.figures,
        }
    }
}

impl JournalEntry {
    /// An entry with the given fields. Its profit and loss is computed here.
    pub fn new(
        id: Option<String>,
        date: String,
        symbol: String,
        quantity: i32,
        buy_price: Decimal,
        sell_price: Decimal,
        action: TradeAction,
        fees: Decimal,
        notes: String,
    ) -> (e: Self)
        ensures
            e@ == (EntryModel {
                id: match id {
                    Some(s) => Some(s@),
                    None => None,
                },
                date: date@,
                symbol: symbol@,
                quantity: quantity as int,
                buy_price: buy_price@,
                sell_price: sell_price@,
                action,
                fees: fees@,
                notes: notes@,
            }),
    {
        JournalEntry {
            id,
            date,
            symbol,
            action,
            notes,
            figures: TradeFigures::new(quantity, buy_price, sell_price, fees),
        }
    }

    /// An entry for the given day with nothing filled in.
    pub fn blank(date: String) -> (e: Self)
        ensures
            e@ == EntryModel::blank(None, date@),
    {
        JournalEntry::new(
            None,
            date,
            String::new(),
            0,
            Decimal::zero(),
            Decimal::zero(),
            TradeAction::Buy,
            Decimal::zero(),
            String::new(),
        )
    }

    /// The identifier, if the entry has one.
    pub fn id(&self) -> (r: Option<&str>)
        ensures
            r is Some <==> self@.id is Some,
            r matches Some(s) ==> s@ == self@.id->0,
    {
        match &self.id {
            Some(s) => Some(s.as_str()),
            None => None,
        }
    }

    /// The day of the trade.
    pub fn date(&self) -> (r: &str)
        ensures
            r@ == self@.date,
    {
        self.date.as_str()
    }

    /// The traded symbol.
    pub fn symbol(&self) -> (r: &str)
        ensures
            r@ == self@.symbol,
    {
        self.symbol.as_str()
    }

    /// How many units were traded.
    pub fn quantity(&self) -> (q: i32)
        ensures
            q == self@.quantity,
    {
        self.figures.quantity
    }

    /// The price paid per unit.
    pub fn buy_price(&self) -> (p: Decimal)
        ensures
            p@ == self@.buy_price,
    {
        self.figures.buy_price
    }

    /// The price received per unit.
    pub fn sell_price(&self) -> (p: Decimal)
        ensures
            p@ == self@.sell_price,
    {
        self.figures.sell_price
    }

    /// The side of the trade.
    pub fn action(&self) -> (a: TradeAction)
        ensures
            a == self@.action,
    {
        self.action
    }

    /// The fees paid.
    pub fn fees(&self) -> (f: Decimal)
        ensures
            f@ == self@.fees,
    {
        self.figures.fees
    }

    /// The notes on the trade.
    pub fn notes(&self) -> (r: &str)
        ensures
            r@ == self@.notes,
    {
        self.notes.as_str()
    }

    /// The profit and loss that the entry stores, in hundredths: the figure
    /// that `pnl` hands out.
    pub closed spec fn stored_pnl(&self) -> int {
        self.figures.pnl@
    }

    /// The profit and loss. For every entry, whatever edits it went through,
    /// this is `(sell_price - buy_price) * quantity - fees`.
    pub fn pnl(&self) -> (p: Amount)
        ensures
            p@ == self.stored_pnl(),
            p@ == self@.pnl(),
            p@ == (self@.sell_price - self@.buy_price) * self@.quantity - self@.fees,
    {
        proof {
            use_type_invariant(&self.figures);
        }
        self.figures.pnl
    }

    /// Replaces the symbol.
    pub fn set_symbol(&mut self, symbol: String)
        ensures
            final(self)@ == (EntryModel { symbol: symbol@, ..old(self)@ }),
    {
        self.symbol = symbol;
    }

    /// Replaces the notes.
    pub fn set_notes(&mut self, notes: String)
        ensures
            final(self)@ == (EntryModel { notes: notes@, ..old(self)@ }),
    {
        self.notes = notes;
    }

    /// Replaces the side.
    pub fn set_action(&mut self, action: TradeAction)
        ensures
            final(self)@ == (EntryModel { action, ..old(self)@ }),
    {
        self.action = action;
    }

    /// Replaces the quantity; the profit and loss follows.
    pub fn set_quantity(&mut self, quantity: i32)
        ensures
            final(self)@ == (EntryModel { quantity: quantity as int, ..old(self)@ }),
    {
        let f = self.figures;
        self.figures = TradeFigures::new(quantity, f.buy_price, f.sell_price, f.fees);
    }

    /// Replaces the buy price; the profit and loss follows.
    pub fn set_buy_price(&mut self, buy_price: Decimal)
        ensures
            final(self)@ == (EntryModel { buy_price: buy_price@, ..old(self)@ }),
    {
        let f = self.figures;
        self.figures = TradeFigures::new(f.quantity, buy_price, f.sell_price, f.fees);
    }

    /// Replaces the sell price; the profit and loss follows.
    pub fn set_sell_price(&mut self, sell_price: Decimal)
        ensures
            final(self)@ == (EntryModel { sell_price: sell_price@, ..old(self)@ }),
    {
        let f = self.figures;
        self.figures = TradeFigures::new(f.quantity, f.buy_price, sell_price, f.fees);
    }

    /// Replaces the fees; the profit and loss follows.
    pub fn set_fees(&mut self, fees: Decimal)
        ensures
            final(self)@ == (EntryModel { fees: fees@, ..old(self)@ }),
    {
        let f = self.figures;
        self.figures = TradeFigures::new(f.quantity, f.buy_price, f.sell_price, fees);
    }

    /// Takes what the user typed into one field. Numbers are read from the
    /// text, and a text that holds none counts as zero.
    pub fn apply_input(&mut self, field: FormField, text: &str)
        ensures
            final(self)@ == old(self)@.with_input(field, text@),
    {
        match field {
            FormField::Symbol => self.set_symbol(text.to_owned()),
            FormField::Quantity => self.set_quantity(parse_i32_or_zero(text)),
            FormField::BuyPrice => self.set_buy_price(Decimal::parse_or_zero(text)),
            FormField::SellPrice => self.set_sell_price(Decimal::parse_or_zero(text)),
            FormField::Action => {
                match TradeAction::from_text(text) {
                    Some(a) => self.set_action(a),
                    None => {},
                }
            },
            FormField::Fees => self.set_fees(Decimal::parse_or_zero(text)),
            FormField::Notes => self.set_notes(text.to_owned()),
        }
    }

    /// Clears everything but the id and the date.
    pub fn clear(&mut self)
        ensures
            final(self)@ == old(self)@.reset(),
    {
        self.symbol = String::new();
        self.notes = String::new();
        self.action = TradeAction::Buy;
        self.figures = TradeFigures::new(0, Decimal::zero(), Decimal::zero(), Decimal::zero());
    }
}

/// Brings the profit and loss of an entry up to date with its other fields:
/// the figure that the result stores is computed here from its prices,
/// quantity and fees. Nothing else changes.
pub fn recompute_pnl(entry: JournalEntry) -> (fresh: JournalEntry)
    ensures
        fresh@ == entry@,
        fresh.stored_pnl() == (entry@.sell_price - entry@.buy_price) * entry@.quantity
            - entry@.fees,
{
    let mut fresh = entry;
    let f = fresh.figures;
    fresh.figures = TradeFigures::new(f.quantity, f.buy_price, f.sell_price, f.fees);
    fresh
}

/// The figures of every entry fit their types.
pub proof fn lemma_entry_wf(entry: &JournalEntry)
    ensures
        entry@.wf(),
{
}

/// The name of a side reads back as that side.
pub proof fn lemma_action_label_reads_back(action: TradeAction)
    ensures
        action_of(action.label_text()) == Some(action),
{
}

/// The profit and loss follows every edit. Whatever field the user typed
/// into and whatever the text, the figure of the edited entry is
/// `(sell_price - buy_price) * quantity - fees` over its new fields; and an
/// edit of the symbol, the side or the notes leaves it as it was.
pub proof fn lemma_pnl_follows_every_edit(entry: EntryModel, field: FormField, text: Seq<char>)
    ensures
        ({
            let next = entry.with_input(field, text);
            next.pnl() == (next.sell_price - next.buy_price) * next.quantity - next.fees
        }),
        (field is Symbol || field is Action || field is Notes) ==> entry.with_input(
            field,
            text,
        ).pnl() == entry.pnl(),
{
}

/// With a quantity of zero the prices do not count: the loss is the fees.
pub proof fn lemma_zero_quantity_costs_the_fees(entry: EntryModel)
    ensures
        (EntryModel { quantity: 0, ..entry }).pnl() == -entry.fees,
        entry.reset().pnl() == 0,
{
}

/// A text that is no number counts as zero in the fields that hold
/// numbers.
pub proof fn lemma_unreadable_number_is_zero(entry: EntryModel, text: Seq<char>)
    requires
        i32_of(text) is None,
        decimal_of(text) is None,
    ensures
        entry.with_input(FormField::Quantity, text).quantity == 0,
        entry.with_input(FormField::BuyPrice, text).buy_price == 0,
        entry.with_input(FormField::SellPrice, text).sell_price == 0,
        entry.with_input(FormField::Fees, text).fees == 0,
{
}

} // verus!
