//! Market data: live quotes and daily price history.

use vstd::prelude::*;
use crate::decimal::{append_fixed, fixed_text, Decimal};
use crate::text::{append_nat, int_digits};

verus! {

/// A quote, as plain values; the figures are in hundredths.
pub struct QuoteModel {
    pub symbol: Seq<char>,
    pub price: int,
    pub change: int,
    pub change_percent: int,
}

impl QuoteModel {
    /// A quote that did not fall counts as positive.
    pub open spec fn is_positive(self) -> bool {
        self.change >= 0
    }

    /// `"+"` in front of a positive quote's figures, nothing otherwise.
    pub open spec fn sign_prefix(self) -> Seq<char> {
        if self.is_positive() {
            seq!['+']
        } else {
            Seq::empty()
        }
    }

    /// The price line: the rupee sign and the price with two decimals.
    pub open spec fn price_label(self) -> Seq<char> {
        seq!['₹'] + fixed_text(self.price)
    }

    /// The change line: the change, then the change in percent in
    /// brackets, both with two decimals and both with the prefix of the
    /// quote's polarity, as in `+123.45 (+0.51%)`.
    pub open spec fn change_label(self) -> Seq<char> {
        self.sign_prefix() + fixed_text(self.change) + seq![' ', '('] + self.sign_prefix()
            + fixed_text(self.change_percent) + seq!['%', ')']
    }
}

/// A snapshot of a live quote.
#[derive(Debug)]
pub struct MarketData {
    pub symbol: String,
    pub price: Decimal,
    pub change: Decimal,
    pub change_percent: Decimal,
}

impl View for MarketData {
    type V = QuoteModel;

    open spec fn view(&self) -> QuoteModel {
        QuoteModel {
            symbol: self.symbol@,
            price: self.price@,
            change: self.change@,
            change_percent: self.change_percent@,
        }
    }
}

impl Clone for MarketData {
    fn clone(&self) -> (r: Self)
        ensures
            r@ == self@,
    {
        MarketData {
            symbol: self.symbol.clone(),
            price: self.price,
            change: self.change,
            change_percent: self.change_percent,
        }
    }
}

impl MarketData {
    /// A quote from its figures in hundredths.
    pub fn new(symbol: &str, price: i64, change: i64, change_percent: i64) -> (q: Self)
        ensures
            q@ == (QuoteModel {
                symbol: symbol@,
                price: price as int,
                change: change as int,
                change_percent: change_percent as int,
            }),
    {
        MarketData {
            symbol: symbol.to_owned(),
            price: Decimal::from_hundredths(price),
            change: Decimal::from_hundredths(change),
            change_percent: Decimal::from_hundredths(change_percent),
        }
    }

    /// Whether the quote shows as positive: its change is zero or more.
    pub fn is_positive(&self) -> (b: bool)
        ensures
            b == self@.is_positive(),
    {
        self.change.is_positive()
    }

    /// The price line of the quote's card.
    pub fn price_label(&self) -> (r: String)
        ensures
            r@ == self@.price_label(),
    {
        proof {
            reveal_strlit("₹");
        }
        let mut out = String::new();
        out.append("₹");
        append_fixed(&mut out, self.price.hundredths as i128);
        out
    }

    /// The change line of the quote's card.
    pub fn change_label(&self) -> (r: String)
        ensures
            r@ == self@.change_label(),
    {
        proof {
            reveal_strlit("+");
            reveal_strlit(" (");
            reveal_strlit("%)");
        }
        let positive = self.is_positive();
        let mut out = String::new();
        if positive {
            out.append("+");
        }
        append_fixed(&mut out, self.change.hundredths as i128);
        out.append(" (");
        if positive {
            out.append("+");
        }
        assert(out@ =~= self@.sign_prefix() + fixed_text(self@.change) + seq![' ', '(']
            + self@.sign_prefix());
        append_fixed(&mut out, self.change_percent.hundredths as i128);
        out.append("%)");
        out
    }
}

/// The views of a list of quotes.
pub open spec fn quote_models(quotes: Seq<MarketData>) -> Seq<QuoteModel> {
    quotes.map_values(|q: MarketData| q@)
}

/// The quotes of the sample market overview.
pub open spec fn sample_quotes() -> Seq<QuoteModel> {
    seq![
        QuoteModel { symbol: "Nifty 50"@, price: 2458725, change: 12345, change_percent: 51 },
        QuoteModel { symbol: "BankNifty"@, price: 4732580, change: -8765, change_percent: -18 },
        QuoteModel { symbol: "FinNifty"@, price: 2263150, change: 4520, change_percent: 20 },
        QuoteModel { symbol: "Sensex"@, price: 8097510, change: 31230, change_percent: 39 },
        QuoteModel { symbol: "Midcap"@, price: 4687560, change: -15640, change_percent: -33 },
    ]
}

/// The quotes of the market overview: a fixed sample of five indices.
pub fn market_overview() -> (quotes: Vec<MarketData>)
    ensures
        quote_models(quotes@) == sample_quotes(),
{
    let mut quotes: Vec<MarketData> = Vec::new();
    quotes.push(MarketData::new("Nifty 50", 2458725, 12345, 51));
    quotes.push(MarketData::new("BankNifty", 4732580, -8765, -18));
    quotes.push(MarketData::new("FinNifty", 2263150, 4520, 20));
    quotes.push(MarketData::new("Sensex", 8097510, 31230, 39));
    quotes.push(MarketData::new("Midcap", 4687560, -15640, -33));
    quotes
}

/// The symbols that the selectors offer, as plain values.
pub open spec fn sample_symbols() -> Seq<Seq<char>> {
    seq!["Nifty 50"@, "BankNifty"@, "FinNifty"@, "Sensex"@, "Midcap"@]
}

/// The views of a list of literals.
pub open spec fn literal_texts(names: Seq<&'static str>) -> Seq<Seq<char>> {
    names.map_values(|s: &'static str| s@)
}

/// The symbols that the selectors offer.
pub fn symbols() -> (names: Vec<&'static str>)
    ensures
        literal_texts(names@) == sample_symbols(),
{
    let mut names: Vec<&'static str> = Vec::new();
    names.push("Nifty 50");
    names.push("BankNifty");
    names.push("FinNifty");
    names.push("Sensex");
    names.push("Midcap");
    names
}

/// One day of price history, as plain values; prices in hundredths.
pub struct BarModel {
    pub symbol: Seq<char>,
    pub date: Seq<char>,
    pub open: int,
    pub high: int,
    pub low: int,
    pub close: int,
    pub volume: int,
}

/// One day of price history: open, high, low, close and volume.
#[derive(Debug)]
pub struct OHLCVData {
    pub symbol: String,
    pub date: String,
    pub open: Decimal,
    pub high: Decimal,
    pub low: Decimal,
    pub close: Decimal,
    pub volume: i64,
}

impl View for OHLCVData {
    type V = BarModel;

    open spec fn view(&self) -> BarModel {
        BarModel {
            symbol: self.symbol@,
            date: self.date@,
            open: self.open@,
            high: self.high@,
            low: self.low@,
            close: self.close@,
            volume: self.volume as int,
        }
    }
}

impl Clone for OHLCVData {
    fn clone(&self) -> (r: Self)
        ensures
            r@ == self@,
    {
        OHLCVData {
            symbol: self.symbol.clone(),
            date: self.date.clone(),
            open: self.open,
            high: self.high,
            low: self.low,
            close: self.close,
            volume: self.volume,
        }
    }
}

/// The texts of one row of the history table, as plain values.
pub struct BarTexts {
    pub date: Seq<char>,
    pub open: Seq<char>,
    pub high: Seq<char>,
    pub low: Seq<char>,
    pub close: Seq<char>,
    pub volume: Seq<char>,
}

/// The texts of one row of the history table.
#[derive(Debug)]
pub struct OhlcvRow {
    pub date: String,
    pub open: String,
    pub high: String,
    pub low: String,
    pub close: String,
    pub volume: String,
}

impl View for OhlcvRow {
    type V = BarTexts;

    open spec fn view(&self) -> BarTexts {
        BarTexts {
            date: self.date@,
            open: self.open@,
            high: self.high@,
            low: self.low@,
            close: self.close@,
            volume: self.volume@,
        }
    }
}

impl BarModel {
    /// The table row of the day: prices with the rupee sign and two
    /// decimals, the volume as a whole number.
    pub open spec fn row(self) -> BarTexts {
        BarTexts {
            date: self.date,
            open: seq!['₹'] + fixed_text(self.open),
            high: seq!['₹'] + fixed_text(self.high),
            low: seq!['₹'] + fixed_text(self.low),
            close: seq!['₹'] + fixed_text(self.close),
            volume: int_digits(self.volume),
        }
    }
}

fn rupees(price: Decimal) -> (r: String)
    ensures
        r@ == seq!['₹'] + fixed_text(price@),
{
    proof {
        reveal_strlit("₹");
    }
    let mut out = String::new();
    out.append("₹");
    append_fixed(&mut out, price.hundredths as i128);
    out
}

fn volume_text(volume: i64) -> (r: String)
    ensures
        r@ == int_digits(volume as int),
{
    let mut out = String::new();
    if volume < 0 {
        proof {
            reveal_strlit("-");
        }
        out.append("-");
        append_nat(&mut out, (-(volume as i128)) as u128);
    } else {
        append_nat(&mut out, volume as u128);
    }
    out
}

impl OHLCVData {
    /// One day of history from its figures; prices in hundredths.
    pub fn new(
        symbol: &str,
        date: &str,
        open: i64,
        high: i64,
        low: i64,
        close: i64,
        volume: i64,
    ) -> (bar: Self)
        ensures
            bar@ == (BarModel {
                symbol: symbol@,
                date: date@,
                open: open as int,
                high: high as int,
                low: low as int,
                close: close as int,
                volume: volume as int,
            }),
    {
        OHLCVData {
            symbol: symbol.to_owned(),
            date: date.to_owned(),
            open: Decimal::from_hundredths(open),
            high: Decimal::from_hundredths(high),
            low: Decimal::from_hundredths(low),
            close: Decimal::from_hundredths(close),
            volume,
        }
    }

    /// The texts that the history table shows for the day.
    pub fn row(&self) -> (r: OhlcvRow)
        ensures
            r@ == self@.row(),
    {
        OhlcvRow {
            date: self.date.clone(),
            open: rupees(self.open),
            high: rupees(self.high),
            low: rupees(self.low),
            close: rupees(self.close),
            volume: volume_text(self.volume),
        }
    }
}

/// The views of a list of days.
pub open spec fn bar_models(bars: Seq<OHLCVData>) -> Seq<BarModel> {
    bars.map_values(|b: OHLCVData| b@)
}

/// The sample history of a symbol: five trading days, the latest first.
pub open spec fn sample_history(symbol: Seq<char>) -> Seq<BarModel> {
    seq![
        BarModel {
            symbol,
            date: "2025-03-20"@,
            open: 2451075,
            high: 2465030,
            low: 2443520,
            close: 2458725,
            volume: 128500000,
        },
        BarModel {
            symbol,
            date: "2025-03-19"@,
            open: 2438050,
            high: 2453080,
            low: 2435010,
            close: 2446380,
            volume: 115300000,
        },
        BarModel {
            symbol,
            date: "2025-03-18"@,
            open: 2427530,
            high: 2441060,
            low: 2421090,
            close: 2438540,
            volume: 98700000,
        },
        BarModel {
            symbol,
            date: "2025-03-17"@,
            open: 2415020,
            high: 2432040,
            low: 2408075,
            close: 2427530,
            volume: 106400000,
        },
        BarModel {
            symbol,
            date: "2025-03-14"@,
            open: 2408015,
            high: 2422035,
            low: 2398050,
            close: 2415020,
            volume: 92800000,
        },
    ]
}

/// The price history of a symbol: a fixed sample of five days, the latest
/// first, each carrying the symbol asked for.
pub fn ohlcv_history(symbol: &str) -> (bars: Vec<OHLCVData>)
    ensures
        bar_models(bars@) == sample_history(symbol@),
        bars@.len() == 5,
        forall|i: int| 0 <= i < bars@.len() ==> (#[trigger] bars@[i]).symbol@ == symbol@,
{
    let mut bars: Vec<OHLCVData> = Vec::new();
    bars.push(
        OHLCVData::new(symbol, "2025-03-20", 2451075, 2465030, 2443520, 2458725, 128500000),
    );
    bars.push(
        OHLCVData::new(symbol, "2025-03-19", 2438050, 2453080, 2435010, 2446380, 115300000),
    );
    bars.push(
        OHLCVData::new(symbol, "2025-03-18", 2427530, 2441060, 2421090, 2438540, 98700000),
    );
    bars.push(
        OHLCVData::new(symbol, "2025-03-17", 2415020, 2432040, 2408075, 2427530, 106400000),
    );
    bars.push(
        OHLCVData::new(symbol, "2025-03-14", 2408015, 2422035, 2398050, 2415020, 92800000),
    );
    bars
}

} // verus!
