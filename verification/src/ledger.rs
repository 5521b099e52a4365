//! The form that fills in one journal entry, the ledger that keeps the
//! saved ones, and the texts that a table shows for them.

use vstd::prelude::*;
use crate::decimal::{
    append_fixed, append_plain, fixed_text, lemma_plain_text_reads_back, plain_text,
};
use crate::journal::{lemma_action_label_reads_back, EntryModel, FormField, JournalEntry};
use crate::text::{i32_text, int_digits, lemma_int_digits_read_back};

verus! {

/// A sum of money as a table shows it: the rupee sign, then the figure with
/// as few decimals as it needs.
pub open spec fn money_text(v: int) -> Seq<char> {
    seq!['₹'] + plain_text(v)
}

/// A profit or loss as a table shows it: the rupee sign, then the figure
/// with two decimals.
pub open spec fn pnl_text(v: int) -> Seq<char> {
    seq!['₹'] + fixed_text(v)
}

/// What a form shows in the input of a field.
pub open spec fn field_text(entry: EntryModel, field: FormField) -> Seq<char> {
    match field {
        FormField::Symbol => entry.symbol,
        FormField::Quantity => int_digits(entry.quantity),
        FormField::BuyPrice => plain_text(entry.buy_price),
        FormField::SellPrice => plain_text(entry.sell_price),
        FormField::Action => entry.action.label_text(),
        FormField::Fees => plain_text(entry.fees),
        FormField::Notes => entry.notes,
    }
}

/// The texts of one table row, as plain values.
pub struct RowModel {
    pub symbol: Seq<char>,
    pub quantity: Seq<char>,
    pub buy_price: Seq<char>,
    pub sell_price: Seq<char>,
    pub action: Seq<char>,
    pub fees: Seq<char>,
    pub pnl: Seq<char>,
    pub pnl_positive: bool,
    pub notes: Seq<char>,
}

/// The table row of an entry. A profit of zero or more counts as positive.
pub open spec fn row_of(entry: EntryModel) -> RowModel {
    RowModel {
        symbol: entry.symbol,
        quantity: int_digits(entry.quantity),
        buy_price: money_text(entry.buy_price),
        sell_price: money_text(entry.sell_price),
        action: entry.action.label_text(),
        fees: money_text(entry.fees),
        pnl: pnl_text(entry.pnl()),
        pnl_positive: entry.pnl() >= 0,
        notes: entry.notes,
    }
}

/// The texts of one row of the trade history table.
#[derive(Debug)]
pub struct JournalRow {
    pub symbol: String,
    pub quantity: String,
    pub buy_price: String,
    pub sell_price: String,
    pub action: String,
    pub fees: String,
    pub pnl: String,
    pub pnl_positive: bool,
    pub notes: String,
}

impl View for JournalRow {
    type V = RowModel;

    open spec fn view(&self) -> RowModel {
        RowModel {
            symbol: self.symbol@,
            quantity: self.quantity@,
            buy_price: self.buy_price@,
            sell_price: self.sell_price@,
            action: self.action@,
            fees: self.fees@,
            pnl: self.pnl@,
            pnl_positive: self.pnl_positive,
            notes: self.notes@,
        }
    }
}

fn rupees_plain(v: i64) -> (r: String)
    ensures
        r@ == money_text(v as int),
{
    proof {
        reveal_strlit("₹");
    }
    let mut out = String::new();
    out.append("₹");
    append_plain(&mut out, v as i128);
    out
}

fn rupees_fixed(v: i128) -> (r: String)
    ensures
        r@ == pnl_text(v as int),
{
    proof {
        reveal_strlit("₹");
    }
    let mut out = String::new();
    out.append("₹");
    append_fixed(&mut out, v);
    out
}

/// The texts that the trade history table shows for an entry.
pub fn journal_row(entry: &JournalEntry) -> (row: JournalRow)
    ensures
        row@ == row_of(entry@),
{
    let pnl = entry.pnl();
    JournalRow {
        symbol: entry.symbol().to_owned(),
        quantity: i32_text(entry.quantity()),
        buy_price: rupees_plain(entry.buy_price().hundredths),
        sell_price: rupees_plain(entry.sell_price().hundredths),
        action: entry.action().label().to_owned(),
        fees: rupees_plain(entry.fees().hundredths),
        pnl: rupees_fixed(pnl.hundredths),
        pnl_positive: pnl.is_positive(),
        notes: entry.notes().to_owned(),
    }
}

/// The state behind the entry form: the entry being filled in.
#[derive(Debug)]
pub struct JournalForm {
    entry: JournalEntry,
}

impl View for JournalForm {
    type V = EntryModel;

    closed spec fn view(&self) -> EntryModel {
        self.entry@
    }
}

impl JournalForm {
    /// An empty form for the given day.
    pub fn new(selected_date: String) -> (form: Self)
        ensures
            form@ == EntryModel::blank(None, selected_date@),
    {
        JournalForm { entry: JournalEntry::blank(selected_date) }
    }

    /// The entry as it stands.
    pub fn entry(&self) -> (e: &JournalEntry)
        ensures
            e@ == self@,
    {
        &self.entry
    }

    /// Takes what the user typed into one field. The profit and loss is up
    /// to date when this returns.
    pub fn handle_input(&mut self, field: FormField, text: &str)
        ensures
            final(self)@ == old(self)@.with_input(field, text@),
    {
        self.entry.apply_input(field, text);
    }

    /// What the input of a field shows.
    pub fn field_text(&self, field: FormField) -> (r: String)
        ensures
            r@ == field_text(self@, field),
    {
        match field {
            FormField::Symbol => self.entry.symbol().to_owned(),
            FormField::Quantity => i32_text(self.entry.quantity()),
            FormField::BuyPrice => self.entry.buy_price().to_plain(),
            FormField::SellPrice => self.entry.sell_price().to_plain(),
            FormField::Action => self.entry.action().label().to_owned(),
            FormField::Fees => self.entry.fees().to_plain(),
            FormField::Notes => self.entry.notes().to_owned(),
        }
    }

    /// What the read-only profit and loss field shows: two decimals.
    pub fn pnl_text(&self) -> (r: String)
        ensures
            r@ == fixed_text(self@.pnl()),
    {
        self.entry.pnl().to_fixed()
    }

    /// Hands out the entry as filled in and clears the form for the next
    /// one; id and date stay.
    pub fn save(&mut self) -> (saved: JournalEntry)
        ensures
            saved@ == old(self)@,
            final(self)@ == old(self)@.reset(),
    {
        let saved = self.entry.clone();
        self.entry.clear();
        saved
    }

    /// Clears the form; id and date stay.
    pub fn cancel(&mut self)
        ensures
            final(self)@ == old(self)@.reset(),
    {
        self.entry.clear();
    }
}

/// The saved entries, oldest first.
#[derive(Debug)]
pub struct Journal {
    entries: Vec<JournalEntry>,
}

impl View for Journal {
    type V = Seq<EntryModel>;

    closed spec fn view(&self) -> Seq<EntryModel> {
        self.entries@.map_values(|e: JournalEntry| e@)
    }
}

impl Journal {
    /// A journal without entries.
    pub fn new() -> (j: Self)
        ensures
            j@ == Seq::<EntryModel>::empty(),
    {
        let j = Journal { entries: Vec::new() };
        j
    }

    /// How many entries the journal holds.
    pub fn len(&self) -> (n: usize)
        ensures
            n == self@.len(),
    {
        self.entries.len()
    }

    /// Appends an entry.
    pub fn add(&mut self, entry: JournalEntry)
        ensures
            final(self)@ == old(self)@.push(entry@),
    {
        self.entries.push(entry);
    }

    /// The entry at a position; `None` past the end.
    pub fn get(&self, index: usize) -> (r: Option<&JournalEntry>)
        ensures
            index < self@.len() ==> r is Some && r->0@ == self@[index as int],
            index >= self@.len() ==> r is None,
    {
        if index < self.entries.len() {
            Some(&self.entries[index])
        } else {
            None
        }
    }

    /// Takes the entry at a position out of the journal; the later ones move
    /// up. Past the end nothing happens.
    pub fn remove(&mut self, index: usize) -> (r: Option<JournalEntry>)
        ensures
            index < old(self)@.len() ==> r is Some && r->0@ == old(self)@[index as int]
                && final(self)@ == old(self)@.remove(index as int),
            index >= old(self)@.len() ==> r is None && final(self)@ == old(self)@,
    {
        if index < self.entries.len() {
            let e = self.entries.remove(index);
            Some(e)
        } else {
            None
        }
    }

    /// The rows of the trade history table, one for each entry in order.
    pub fn rows(&self) -> (rows: Vec<JournalRow>)
        ensures
            rows@.len() == self@.len(),
            forall|i: int| 0 <= i < rows@.len() ==> (#[trigger] rows@[i])@ == row_of(self@[i]),
    {
        let mut rows: Vec<JournalRow> = Vec::new();
        let mut i: usize = 0;
        while i < self.entries.len()
            invariant
                i <= self.entries.len(),
                rows@.len() == i,
                forall|k: int| 0 <= k < i ==> (#[trigger] rows@[k])@ == row_of(self@[k]),
            decreases self.entries.len() - i,
        {
            rows.push(journal_row(&self.entries[i]));
            i = i + 1;
        }
        rows
    }
}

/// Typing into a field what the field shows changes nothing: the form
/// reads every one of its own texts back as the value that it holds.
pub proof fn lemma_retyping_changes_nothing(entry: EntryModel, field: FormField)
    requires
        entry.wf(),
    ensures
        entry.with_input(field, field_text(entry, field)) == entry,
{
    lemma_int_digits_read_back(entry.quantity);
    lemma_plain_text_reads_back(entry.buy_price);
    lemma_plain_text_reads_back(entry.sell_price);
    lemma_plain_text_reads_back(entry.fees);
    lemma_action_label_reads_back(entry.action);
}

} // verus!
