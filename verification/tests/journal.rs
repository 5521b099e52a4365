use slynqix::decimal::{Amount, Decimal};
use slynqix::journal::{compute_pnl, recompute_pnl, FormField, JournalEntry, TradeAction};
use slynqix::ledger::{journal_row, Journal, JournalForm};

fn sample_entry() -> JournalEntry {
    JournalEntry::new(
        None,
        "2025-03-20".to_string(),
        "Nifty 50".to_string(),
        10,
        Decimal::from_hundredths(10000),
        Decimal::from_hundredths(11000),
        TradeAction::Buy,
        Decimal::from_hundredths(500),
        String::new(),
    )
}

fn expected_pnl(entry: &JournalEntry) -> i128 {
    (entry.sell_price().hundredths as i128 - entry.buy_price().hundredths as i128)
        * entry.quantity() as i128
        - entry.fees().hundredths as i128
}

#[test]
fn pnl_of_example_entry_is_ninety_five() {
    let entry = sample_entry();
    assert_eq!(entry.pnl(), Amount::from_hundredths(9500));
    assert_eq!(entry.pnl().to_fixed(), "95.00");
}

#[test]
fn pnl_follows_quantity_edit_to_zero() {
    let mut entry = sample_entry();
    assert_eq!(entry.pnl().hundredths, 9500);
    entry.set_quantity(0);
    assert_eq!(entry.pnl().hundredths, -500);
    assert_eq!(entry.pnl().to_fixed(), "-5.00");
}

#[test]
fn pnl_holds_after_each_setter() {
    let mut entry = sample_entry();
    entry.set_buy_price(Decimal::from_hundredths(9950));
    assert_eq!(entry.pnl().hundredths, expected_pnl(&entry));
    assert_eq!(entry.pnl().hundredths, 10000);
    entry.set_sell_price(Decimal::from_hundredths(9000));
    assert_eq!(entry.pnl().hundredths, expected_pnl(&entry));
    assert_eq!(entry.pnl().hundredths, -10000);
    entry.set_quantity(-3);
    assert_eq!(entry.pnl().hundredths, expected_pnl(&entry));
    assert_eq!(entry.pnl().hundredths, 2350);
    entry.set_fees(Decimal::from_hundredths(-50));
    assert_eq!(entry.pnl().hundredths, expected_pnl(&entry));
    assert_eq!(entry.pnl().hundredths, 2900);
    entry.set_symbol("Sensex".to_string());
    entry.set_notes("late exit".to_string());
    entry.set_action(TradeAction::Sell);
    assert_eq!(entry.pnl().hundredths, 2900);
    assert_eq!(entry.symbol(), "Sensex");
    assert_eq!(entry.notes(), "late exit");
    assert_eq!(entry.action(), TradeAction::Sell);
}

#[test]
fn compute_pnl_is_exact_at_the_limits() {
    let low = Decimal::from_hundredths(i64::MIN);
    let high = Decimal::from_hundredths(i64::MAX);
    let pnl = compute_pnl(low, high, i32::MIN, high);
    let spread = i64::MAX as i128 - i64::MIN as i128;
    assert_eq!(pnl.hundredths, spread * (i32::MIN as i128) - i64::MAX as i128);
    let pnl = compute_pnl(high, low, i32::MIN, low);
    assert_eq!(pnl.hundredths, -spread * (i32::MIN as i128) - i64::MIN as i128);
    assert_eq!(compute_pnl(Decimal::zero(), Decimal::zero(), 7, Decimal::zero()).hundredths, 0);
}

#[test]
fn recompute_pnl_returns_the_entry_with_its_figure() {
    let entry = recompute_pnl(sample_entry());
    assert_eq!(entry.pnl().hundredths, 9500);
    assert_eq!(entry.symbol(), "Nifty 50");
    assert_eq!(entry.date(), "2025-03-20");
    assert_eq!(entry.quantity(), 10);
    assert_eq!(entry.id(), None);
}

#[test]
fn new_entry_keeps_its_fields() {
    let entry = JournalEntry::new(
        Some("t-17".to_string()),
        "2025-03-19".to_string(),
        "BankNifty".to_string(),
        2,
        Decimal::from_hundredths(150),
        Decimal::from_hundredths(100),
        TradeAction::Sell,
        Decimal::from_hundredths(25),
        "stop hit".to_string(),
    );
    assert_eq!(entry.id(), Some("t-17"));
    assert_eq!(entry.date(), "2025-03-19");
    assert_eq!(entry.symbol(), "BankNifty");
    assert_eq!(entry.quantity(), 2);
    assert_eq!(entry.buy_price().hundredths, 150);
    assert_eq!(entry.sell_price().hundredths, 100);
    assert_eq!(entry.action(), TradeAction::Sell);
    assert_eq!(entry.fees().hundredths, 25);
    assert_eq!(entry.notes(), "stop hit");
    assert_eq!(entry.pnl().hundredths, -125);
    let copy = entry.clone();
    assert_eq!(copy.id(), Some("t-17"));
    assert_eq!(copy.pnl().hundredths, -125);
}

#[test]
fn blank_entry_is_a_buy_of_nothing() {
    let entry = JournalEntry::blank("2025-03-20".to_string());
    assert_eq!(entry.id(), None);
    assert_eq!(entry.date(), "2025-03-20");
    assert_eq!(entry.symbol(), "");
    assert_eq!(entry.quantity(), 0);
    assert_eq!(entry.buy_price(), Decimal::zero());
    assert_eq!(entry.sell_price(), Decimal::zero());
    assert_eq!(entry.fees(), Decimal::zero());
    assert_eq!(entry.action(), TradeAction::Buy);
    assert_eq!(entry.notes(), "");
    assert_eq!(entry.pnl().hundredths, 0);
}

#[test]
fn trade_action_reads_exact_names_only() {
    assert_eq!(TradeAction::from_text("Buy"), Some(TradeAction::Buy));
    assert_eq!(TradeAction::from_text("Sell"), Some(TradeAction::Sell));
    assert_eq!(TradeAction::from_text("buy"), None);
    assert_eq!(TradeAction::from_text("Sell "), None);
    assert_eq!(TradeAction::from_text(""), None);
    assert_eq!(TradeAction::from_text("Selk"), None);
    assert_eq!(TradeAction::Buy.label(), "Buy");
    assert_eq!(TradeAction::Sell.label(), "Sell");
}

#[test]
fn form_input_updates_fields_and_pnl() {
    let mut form = JournalForm::new("2025-03-20".to_string());
    form.handle_input(FormField::Symbol, "Nifty 50");
    form.handle_input(FormField::BuyPrice, "100.00");
    form.handle_input(FormField::SellPrice, "110.00");
    assert_eq!(form.entry().pnl().hundredths, 0);
    form.handle_input(FormField::Quantity, "10");
    assert_eq!(form.entry().pnl().hundredths, 10000);
    form.handle_input(FormField::Fees, "5.00");
    assert_eq!(form.entry().pnl().hundredths, 9500);
    assert_eq!(form.pnl_text(), "95.00");
    form.handle_input(FormField::Action, "Sell");
    form.handle_input(FormField::Notes, "gap up");
    let entry = form.entry();
    assert_eq!(entry.symbol(), "Nifty 50");
    assert_eq!(entry.quantity(), 10);
    assert_eq!(entry.buy_price().hundredths, 10000);
    assert_eq!(entry.sell_price().hundredths, 11000);
    assert_eq!(entry.fees().hundredths, 500);
    assert_eq!(entry.action(), TradeAction::Sell);
    assert_eq!(entry.notes(), "gap up");
    assert_eq!(entry.pnl().hundredths, 9500);
}

#[test]
fn form_edit_of_quantity_to_zero_leaves_minus_fees() {
    let mut form = JournalForm::new(String::new());
    form.handle_input(FormField::BuyPrice, "100.00");
    form.handle_input(FormField::SellPrice, "110.00");
    form.handle_input(FormField::Quantity, "10");
    form.handle_input(FormField::Fees, "5.00");
    assert_eq!(form.pnl_text(), "95.00");
    form.handle_input(FormField::Quantity, "0");
    assert_eq!(form.entry().pnl().hundredths, -500);
    assert_eq!(form.pnl_text(), "-5.00");
}

#[test]
fn form_takes_bad_numbers_as_zero() {
    let mut form = JournalForm::new(String::new());
    form.handle_input(FormField::Quantity, "10");
    form.handle_input(FormField::BuyPrice, "1.50");
    form.handle_input(FormField::SellPrice, "2.50");
    form.handle_input(FormField::Fees, "0.25");
    assert_eq!(form.entry().pnl().hundredths, 975);
    form.handle_input(FormField::Quantity, "ten");
    assert_eq!(form.entry().quantity(), 0);
    assert_eq!(form.entry().pnl().hundredths, -25);
    form.handle_input(FormField::Quantity, "4");
    form.handle_input(FormField::BuyPrice, "");
    assert_eq!(form.entry().buy_price(), Decimal::zero());
    assert_eq!(form.entry().pnl().hundredths, 975);
    form.handle_input(FormField::SellPrice, "abc");
    assert_eq!(form.entry().sell_price(), Decimal::zero());
    form.handle_input(FormField::Fees, "1.2.3");
    assert_eq!(form.entry().fees(), Decimal::zero());
    assert_eq!(form.entry().pnl().hundredths, 0);
    form.handle_input(FormField::Quantity, "2147483648");
    assert_eq!(form.entry().quantity(), 0);
}

#[test]
fn form_reads_every_decimal_number() {
    let mut form = JournalForm::new(String::new());
    form.handle_input(FormField::Quantity, "1");
    form.handle_input(FormField::BuyPrice, "100.000");
    assert_eq!(form.entry().buy_price().hundredths, 10000);
    form.handle_input(FormField::BuyPrice, "1e2");
    assert_eq!(form.entry().buy_price().hundredths, 10000);
    form.handle_input(FormField::SellPrice, "1.234");
    assert_eq!(form.entry().sell_price().hundredths, 123);
    form.handle_input(FormField::Fees, "0.255");
    assert_eq!(form.entry().fees().hundredths, 26);
    assert_eq!(form.entry().pnl().hundredths, 123 - 10000 - 26);
    assert_eq!(form.entry().quantity(), 1);
    assert_eq!(form.entry().symbol(), "");
    form.handle_input(FormField::SellPrice, "1.1E+2");
    assert_eq!(form.entry().sell_price().hundredths, 11000);
    assert_eq!(form.pnl_text(), "9.74");
}

#[test]
fn form_keeps_side_on_unknown_action() {
    let mut form = JournalForm::new(String::new());
    form.handle_input(FormField::Action, "Sell");
    form.handle_input(FormField::Action, "Hold");
    assert_eq!(form.entry().action(), TradeAction::Sell);
    form.handle_input(FormField::Action, "Buy");
    assert_eq!(form.entry().action(), TradeAction::Buy);
}

#[test]
fn form_field_texts_show_the_entry() {
    let mut form = JournalForm::new(String::new());
    assert_eq!(form.field_text(FormField::Quantity), "0");
    assert_eq!(form.field_text(FormField::BuyPrice), "0");
    assert_eq!(form.field_text(FormField::Action), "Buy");
    assert_eq!(form.pnl_text(), "0.00");
    form.handle_input(FormField::Symbol, "Midcap");
    form.handle_input(FormField::Quantity, "-12");
    form.handle_input(FormField::BuyPrice, "100.5");
    form.handle_input(FormField::SellPrice, "100.25");
    form.handle_input(FormField::Fees, "3");
    form.handle_input(FormField::Notes, "n");
    form.handle_input(FormField::Action, "Sell");
    assert_eq!(form.field_text(FormField::Symbol), "Midcap");
    assert_eq!(form.field_text(FormField::Quantity), "-12");
    assert_eq!(form.field_text(FormField::BuyPrice), "100.5");
    assert_eq!(form.field_text(FormField::SellPrice), "100.25");
    assert_eq!(form.field_text(FormField::Fees), "3");
    assert_eq!(form.field_text(FormField::Notes), "n");
    assert_eq!(form.field_text(FormField::Action), "Sell");
    assert_eq!(form.pnl_text(), "0.00");
    form.handle_input(FormField::Fees, "0");
    assert_eq!(form.pnl_text(), "3.00");
}

#[test]
fn save_hands_out_the_entry_and_resets_the_form() {
    let mut form = JournalForm::new("2025-03-20".to_string());
    form.handle_input(FormField::Symbol, "Nifty 50");
    form.handle_input(FormField::BuyPrice, "100.00");
    form.handle_input(FormField::SellPrice, "110.00");
    form.handle_input(FormField::Quantity, "10");
    form.handle_input(FormField::Fees, "5.00");
    form.handle_input(FormField::Action, "Sell");
    form.handle_input(FormField::Notes, "note");
    let saved = form.save();
    assert_eq!(saved.symbol(), "Nifty 50");
    assert_eq!(saved.date(), "2025-03-20");
    assert_eq!(saved.quantity(), 10);
    assert_eq!(saved.action(), TradeAction::Sell);
    assert_eq!(saved.notes(), "note");
    assert_eq!(saved.pnl().hundredths, 9500);
    let entry = form.entry();
    assert_eq!(entry.date(), "2025-03-20");
    assert_eq!(entry.symbol(), "");
    assert_eq!(entry.quantity(), 0);
    assert_eq!(entry.buy_price(), Decimal::zero());
    assert_eq!(entry.sell_price(), Decimal::zero());
    assert_eq!(entry.fees(), Decimal::zero());
    assert_eq!(entry.action(), TradeAction::Buy);
    assert_eq!(entry.notes(), "");
    assert_eq!(entry.pnl().hundredths, 0);
}

#[test]
fn cancel_resets_the_form() {
    let mut form = JournalForm::new("2025-03-20".to_string());
    form.handle_input(FormField::Symbol, "Sensex");
    form.handle_input(FormField::Quantity, "3");
    form.handle_input(FormField::SellPrice, "2");
    form.cancel();
    assert_eq!(form.entry().symbol(), "");
    assert_eq!(form.entry().quantity(), 0);
    assert_eq!(form.entry().sell_price(), Decimal::zero());
    assert_eq!(form.entry().date(), "2025-03-20");
    assert_eq!(form.entry().pnl().hundredths, 0);
}

#[test]
fn journal_keeps_entries_in_order() {
    let mut journal = Journal::new();
    assert_eq!(journal.len(), 0);
    assert!(journal.get(0).is_none());
    let mut first = sample_entry();
    first.set_symbol("A".to_string());
    let mut second = sample_entry();
    second.set_symbol("B".to_string());
    second.set_quantity(0);
    let mut third = sample_entry();
    third.set_symbol("C".to_string());
    journal.add(first);
    journal.add(second);
    journal.add(third);
    assert_eq!(journal.len(), 3);
    assert_eq!(journal.get(0).unwrap().symbol(), "A");
    assert_eq!(journal.get(1).unwrap().symbol(), "B");
    assert_eq!(journal.get(1).unwrap().pnl().hundredths, -500);
    assert_eq!(journal.get(2).unwrap().symbol(), "C");
    assert!(journal.get(3).is_none());
    let removed = journal.remove(1).unwrap();
    assert_eq!(removed.symbol(), "B");
    assert_eq!(journal.len(), 2);
    assert_eq!(journal.get(0).unwrap().symbol(), "A");
    assert_eq!(journal.get(1).unwrap().symbol(), "C");
    assert!(journal.remove(2).is_none());
    assert_eq!(journal.len(), 2);
}

#[test]
fn journal_rows_format_money() {
    let row = journal_row(&sample_entry());
    assert_eq!(row.symbol, "Nifty 50");
    assert_eq!(row.quantity, "10");
    assert_eq!(row.buy_price, "₹100");
    assert_eq!(row.sell_price, "₹110");
    assert_eq!(row.action, "Buy");
    assert_eq!(row.fees, "₹5");
    assert_eq!(row.pnl, "₹95.00");
    assert!(row.pnl_positive);
    assert_eq!(row.notes, "");

    let mut losing = sample_entry();
    losing.set_sell_price(Decimal::from_hundredths(9950));
    losing.set_fees(Decimal::from_hundredths(505));
    losing.set_action(TradeAction::Sell);
    let mut journal = Journal::new();
    journal.add(sample_entry());
    journal.add(losing);
    let rows = journal.rows();
    assert_eq!(rows.len(), 2);
    assert_eq!(rows[0].pnl, "₹95.00");
    assert_eq!(rows[1].sell_price, "₹99.5");
    assert_eq!(rows[1].fees, "₹5.05");
    assert_eq!(rows[1].pnl, "₹-10.05");
    assert!(!rows[1].pnl_positive);
    assert_eq!(rows[1].action, "Sell");
}

#[test]
fn row_of_zero_pnl_counts_as_positive() {
    let row = journal_row(&JournalEntry::blank(String::new()));
    assert_eq!(row.pnl, "₹0.00");
    assert!(row.pnl_positive);
    assert_eq!(row.buy_price, "₹0");
}

#[test]
fn retyping_what_a_field_shows_changes_nothing() {
    let mut form = JournalForm::new("2025-03-20".to_string());
    form.handle_input(FormField::Symbol, "Nifty 50");
    form.handle_input(FormField::Quantity, "-2147483648");
    form.handle_input(FormField::BuyPrice, "92233720368547758.07");
    form.handle_input(FormField::SellPrice, "-0.5");
    form.handle_input(FormField::Fees, "12.30");
    form.handle_input(FormField::Action, "Sell");
    form.handle_input(FormField::Notes, "n");
    let pnl = form.entry().pnl();
    for field in [
        FormField::Symbol,
        FormField::Quantity,
        FormField::BuyPrice,
        FormField::SellPrice,
        FormField::Action,
        FormField::Fees,
        FormField::Notes,
    ] {
        let shown = form.field_text(field);
        form.handle_input(field, &shown);
        assert_eq!(form.field_text(field), shown);
    }
    assert_eq!(form.entry().quantity(), i32::MIN);
    assert_eq!(form.entry().buy_price().hundredths, i64::MAX);
    assert_eq!(form.entry().sell_price().hundredths, -50);
    assert_eq!(form.entry().fees().hundredths, 1230);
    assert_eq!(form.entry().action(), TradeAction::Sell);
    assert_eq!(form.entry().pnl(), pnl);
    assert_eq!(form.field_text(FormField::Fees), "12.3");
}
