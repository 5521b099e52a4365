//! The analysis of a symbol: three categories of named metrics and a list
//! of suggestions.

use vstd::prelude::*;

verus! {

/// One metric, as plain values.
pub struct RowText {
    pub name: Seq<char>,
    pub value: Seq<char>,
    pub description: Option<Seq<char>>,
}

impl RowText {
    /// A row that can be shown: it has a name and a value.
    pub open spec fn wf(self) -> bool {
        self.name.len() > 0 && self.value.len() > 0
    }

    /// What the description column shows: the description, or nothing.
    pub open spec fn description_text(self) -> Seq<char> {
        match self.description {
            Some(d) => d,
            None => Seq::empty(),
        }
    }
}

/// One metric of an analysis: its name, its formatted value, and a note.
#[derive(Debug)]
pub struct AnalysisRow {
    pub name: String,
    pub value: String,
    pub description: Option<String>,
}

impl View for AnalysisRow {
    type V = RowText;

    open spec fn view(&self) -> RowText {
        RowText {
            name: self.name@,
            value: self.value@,
            description: match self.description {
                Some(d) => Some(d@),
                None => None,
            },
        }
    }
}

impl Clone for AnalysisRow {
    fn clone(&self) -> (r: Self)
        ensures
            r@ == self@,
    {
        AnalysisRow {
            name: self.name.clone(),
            value: self.value.clone(),
            description: match &self.description {
                Some(d) => Some(d.clone()),
                None => None,
            },
        }
    }
}

impl AnalysisRow {
    /// A row with a description.
    pub fn new(name: &str, value: &str, description: &str) -> (r: Self)
        ensures
            r@ == (RowText { name: name@, value: value@, description: Some(description@) }),
    {
        AnalysisRow {
            name: name.to_owned(),
            value: value.to_owned(),
            description: Some(description.to_owned()),
        }
    }

    /// Whether the row has a name and a value.
    pub fn is_valid(&self) -> (b: bool)
        ensures
            b == self@.wf(),
    {
        !self.name.as_str().is_empty() && !self.value.as_str().is_empty()
    }

    /// What the description column shows: the description, or nothing.
    pub fn description_text(&self) -> (r: String)
        ensures
            r@ == self@.description_text(),
    {
        match &self.description {
            Some(d) => d.clone(),
            None => String::new(),
        }
    }
}

/// The views of a list of rows.
pub open spec fn row_texts(rows: Seq<AnalysisRow>) -> Seq<RowText> {
    rows.map_values(|r: AnalysisRow| r@)
}

/// The views of a list of texts.
pub open spec fn texts(lines: Seq<String>) -> Seq<Seq<char>> {
    lines.map_values(|s: String| s@)
}

/// A category that can be shown: it has a row, and every row has a name and
/// a value.
pub open spec fn category_wf(rows: Seq<RowText>) -> bool {
    rows.len() > 0 && forall|i: int| 0 <= i < rows.len() ==> (#[trigger] rows[i]).wf()
}

/// An analysis, as plain values.
pub struct ResultModel {
    pub statistical: Seq<RowText>,
    pub visual: Seq<RowText>,
    pub indicator: Seq<RowText>,
    pub suggestions: Seq<Seq<char>>,
}

impl ResultModel {
    /// Each of the three categories has a row, and every row has a name and
    /// a value.
    pub open spec fn wf(self) -> bool {
        category_wf(self.statistical) && category_wf(self.visual) && category_wf(self.indicator)
    }
}

/// The result of one analysis run. It is made in one piece and not changed
/// afterwards; the next run replaces it.
#[derive(Debug)]
pub struct AnalysisResult {
    statistical: Vec<AnalysisRow>,
    visual: Vec<AnalysisRow>,
    indicator: Vec<AnalysisRow>,
    suggestions: Vec<String>,
}

impl View for AnalysisResult {
    type V = ResultModel;

    closed spec fn view(&self) -> ResultModel {
        ResultModel {
            statistical: row_texts(self.statistical@),
            visual: row_texts(self.visual@),
            indicator: row_texts(self.indicator@),
            suggestions: texts(self.suggestions@),
        }
    }
}

/// Whether a category has a row and every row has a name and a value.
pub fn category_is_valid(rows: &Vec<AnalysisRow>) -> (b: bool)
    ensures
        b == category_wf(row_texts(rows@)),
{
    if rows.len() == 0 {
        return false;
    }
    let mut i: usize = 0;
    while i < rows.len()
        invariant
            i <= rows.len(),
            forall|k: int| 0 <= k < i ==> (#[trigger] row_texts(rows@)[k]).wf(),
        decreases rows.len() - i,
    {
        if !rows[i].is_valid() {
            assert(!row_texts(rows@)[i as int].wf());
            return false;
        }
        i = i + 1;
    }
    true
}

/// A copy of a list of rows.
fn clone_rows(rows: &Vec<AnalysisRow>) -> (r: Vec<AnalysisRow>)
    ensures
        row_texts(r@) == row_texts(rows@),
{
    let mut r: Vec<AnalysisRow> = Vec::new();
    let mut i: usize = 0;
    while i < rows.len()
        invariant
            i <= rows.len(),
            r@.len() == i,
            forall|k: int| 0 <= k < i ==> (#[trigger] r@[k])@ == rows@[k]@,
        decreases rows.len() - i,
    {
        r.push(rows[i].clone());
        i = i + 1;
    }
    r
}

/// A copy of a list of texts.
fn clone_texts(lines: &Vec<String>) -> (r: Vec<String>)
    ensures
        texts(r@) == texts(lines@),
{
    let mut r: Vec<String> = Vec::new();
    let mut i: usize = 0;
    while i < lines.len()
        invariant
            i <= lines.len(),
            r@.len() == i,
            forall|k: int| 0 <= k < i ==> (#[trigger] r@[k])@ == lines@[k]@,
        decreases lines.len() - i,
    {
        r.push(lines[i].clone());
        i = i + 1;
    }
    r
}

impl Clone for AnalysisResult {
    fn clone(&self) -> (r: Self)
        ensures
            r@ == self@,
    {
        proof {
            use_type_invariant(self);
        }
        AnalysisResult {
            statistical: clone_rows(&self.statistical),
            visual: clone_rows(&self.visual),
            indicator: clone_rows(&self.indicator),
            suggestions: clone_texts(&self.suggestions),
        }
    }
}

impl AnalysisResult {
    #[verifier::type_invariant]
    spec fn inv(self) -> bool {
        category_wf(row_texts(self.statistical@)) && category_wf(row_texts(self.visual@))
            && category_wf(row_texts(self.indicator@))
    }

    /// Puts an analysis together. Refuses, with `None`, categories that are
    /// empty or hold a row without a name or a value.
    pub fn new(
        statistical: Vec<AnalysisRow>,
        visual: Vec<AnalysisRow>,
        indicator: Vec<AnalysisRow>,
        suggestions: Vec<String>,
    ) -> (r: Option<Self>)
        ensures
            r is Some <==> category_wf(row_texts(statistical@)) && category_wf(
                row_texts(visual@),
            ) && category_wf(row_texts(indicator@)),
            r matches Some(a) ==> a@ == (ResultModel {
                statistical: row_texts(statistical@),
                visual: row_texts(visual@),
                indicator: row_texts(indicator@),
                suggestions: texts(suggestions@),
            }),
    {
        if category_is_valid(&statistical) && category_is_valid(&visual) && category_is_valid(
            &indicator,
        ) {
            Some(AnalysisResult { statistical, visual, indicator, suggestions })
        } else {
            None
        }
    }

    /// The statistical metrics. Like the other two categories, they are
    /// never empty, and each row has a name and a value.
    pub fn statistical(&self) -> (rows: &Vec<AnalysisRow>)
        ensures
            row_texts(rows@) == self@.statistical,
            self@.wf(),
    {
        proof {
            use_type_invariant(self);
        }
        &self.statistical
    }

    /// The metrics read off the chart.
    pub fn visual(&self) -> (rows: &Vec<AnalysisRow>)
        ensures
            row_texts(rows@) == self@.visual,
            self@.wf(),
    {
        proof {
            use_type_invariant(self);
        }
        &self.visual
    }

    /// The technical indicators.
    pub fn indicator(&self) -> (rows: &Vec<AnalysisRow>)
        ensures
            row_texts(rows@) == self@.indicator,
            self@.wf(),
    {
        proof {
            use_type_invariant(self);
        }
        &self.indicator
    }

    /// The suggestions, in order.
    pub fn suggestions(&self) -> (lines: &Vec<String>)
        ensures
            texts(lines@) == self@.suggestions,
    {
        &self.suggestions
    }
}

/// The statistical metrics of the sample analysis.
pub open spec fn sample_statistical() -> Seq<RowText> {
    seq![
        RowText {
            name: "Mean"@,
            value: "₹24,587.25"@,
            description: Some("Average price over the period"@),
        },
        RowText {
            name: "Standard Deviation"@,
            value: "₹235.42"@,
            description: Some("Volatility measure"@),
        },
        RowText {
            name: "Range"@,
            value: "₹980.75"@,
            description: Some("Difference between highest and lowest price"@),
        },
    ]
}

/// The chart metrics of the sample analysis.
pub open spec fn sample_visual() -> Seq<RowText> {
    seq![
        RowText {
            name: "Trend"@,
            value: "Uptrend"@,
            description: Some("Current price direction"@),
        },
        RowText {
            name: "Pattern"@,
            value: "Double Bottom"@,
            description: Some("Recent price pattern"@),
        },
        RowText {
            name: "Support"@,
            value: "₹24,320.00"@,
            description: Some("Price level with buying interest"@),
        },
        RowText {
            name: "Resistance"@,
            value: "₹24,750.00"@,
            description: Some("Price level with selling interest"@),
        },
    ]
}

/// The indicators of the sample analysis.
pub open spec fn sample_indicator() -> Seq<RowText> {
    seq![
        RowText { name: "RSI (14)"@, value: "58.32"@, description: Some("Neutral"@) },
        RowText { name: "MACD"@, value: "35.76"@, description: Some("Bullish"@) },
        RowText {
            name: "Moving Average (50)"@,
            value: "₹24,320.75"@,
            description: Some("Below current price"@),
        },
        RowText {
            name: "Moving Average (200)"@,
            value: "₹23,875.40"@,
            description: Some("Below current price"@),
        },
    ]
}

/// The suggestions of the sample analysis.
pub open spec fn sample_suggestions() -> Seq<Seq<char>> {
    seq![
        "Consider buying at ₹24,400 with stop loss at ₹24,320"@,
        "Sell target at ₹24,750"@,
        "Hold positions if already long"@,
    ]
}

/// The sample analysis that stands in for a computed one.
pub open spec fn sample_analysis() -> ResultModel {
    ResultModel {
        statistical: sample_statistical(),
        visual: sample_visual(),
        indicator: sample_indicator(),
        suggestions: sample_suggestions(),
    }
}

fn build_statistical() -> (rows: Vec<AnalysisRow>)
    ensures
        row_texts(rows@) == sample_statistical(),
        category_wf(row_texts(rows@)),
{
    proof {
        reveal_strlit("Mean");
        reveal_strlit("₹24,587.25");
        reveal_strlit("Standard Deviation");
        reveal_strlit("₹235.42");
        reveal_strlit("Range");
        reveal_strlit("₹980.75");
    }
    let mut rows: Vec<AnalysisRow> = Vec::new();
    rows.push(AnalysisRow::new("Mean", "₹24,587.25", "Average price over the period"));
    rows.push(AnalysisRow::new("Standard Deviation", "₹235.42", "Volatility measure"));
    rows.push(
        AnalysisRow::new("Range", "₹980.75", "Difference between highest and lowest price"),
    );
    rows
}

fn build_visual() -> (rows: Vec<AnalysisRow>)
    ensures
        row_texts(rows@) == sample_visual(),
        category_wf(row_texts(rows@)),
{
    proof {
        reveal_strlit("Trend");
        reveal_strlit("Uptrend");
        reveal_strlit("Pattern");
        reveal_strlit("Double Bottom");
        reveal_strlit("Support");
        reveal_strlit("₹24,320.00");
        reveal_strlit("Resistance");
        reveal_strlit("₹24,750.00");
    }
    let mut rows: Vec<AnalysisRow> = Vec::new();
    rows.push(AnalysisRow::new("Trend", "Uptrend", "Current price direction"));
    rows.push(AnalysisRow::new("Pattern", "Double Bottom", "Recent price pattern"));
    rows.push(AnalysisRow::new("Support", "₹24,320.00", "Price level with buying interest"));
    rows.push(AnalysisRow::new("Resistance", "₹24,750.00", "Price level with selling interest"));
    rows
}

fn build_indicator() -> (rows: Vec<AnalysisRow>)
    ensures
        row_texts(rows@) == sample_indicator(),
        category_wf(row_texts(rows@)),
{
    proof {
        reveal_strlit("RSI (14)");
        reveal_strlit("58.32");
        reveal_strlit("MACD");
        reveal_strlit("35.76");
        reveal_strlit("Moving Average (50)");
        reveal_strlit("₹24,320.75");
        reveal_strlit("Moving Average (200)");
        reveal_strlit("₹23,875.40");
    }
    let mut rows: Vec<AnalysisRow> = Vec::new();
    rows.push(AnalysisRow::new("RSI (14)", "58.32", "Neutral"));
    rows.push(AnalysisRow::new("MACD", "35.76", "Bullish"));
    rows.push(AnalysisRow::new("Moving Average (50)", "₹24,320.75", "Below current price"));
    rows.push(AnalysisRow::new("Moving Average (200)", "₹23,875.40", "Below current price"));
    rows
}

fn build_suggestions() -> (lines: Vec<String>)
    ensures
        texts(lines@) == sample_suggestions(),
{
    let mut lines: Vec<String> = Vec::new();
    lines.push("Consider buying at ₹24,400 with stop loss at ₹24,320".to_owned());
    lines.push("Sell target at ₹24,750".to_owned());
    lines.push("Hold positions if already long".to_owned());
    lines
}

/// Analyses a symbol over a time range. The figures are a fixed sample that
/// depends on neither; what holds of every result is its shape: three
/// categories, none empty, each row with a name and a value.
pub fn analyze(symbol: &str, range: &str) -> (result: AnalysisResult)
    ensures
        result@ == sample_analysis(),
        result@.wf(),
{
    AnalysisResult {
        statistical: build_statistical(),
        visual: build_visual(),
        indicator: build_indicator(),
        suggestions: build_suggestions(),
    }
}

/// A headline figure, as plain values.
pub struct StatText {
    pub title: Seq<char>,
    pub value: Seq<char>,
    pub description: Option<Seq<char>>,
}

/// A headline figure above the tables: a title, a formatted value and a
/// note.
#[derive(Debug)]
pub struct StatData {
    pub title: String,
    pub value: String,
    pub description: Option<String>,
}

impl View for StatData {
    type V = StatText;

    open spec fn view(&self) -> StatText {
        StatText {
            title: self.title@,
            value: self.value@,
            description: match self.description {
                Some(d) => Some(d@),
                None => None,
            },
        }
    }
}

impl Clone for StatData {
    fn clone(&self) -> (r: Self)
        ensures
            r@ == self@,
    {
        StatData {
            title: self.title.clone(),
            value: self.value.clone(),
            description: match &self.description {
                Some(d) => Some(d.clone()),
                None => None,
            },
        }
    }
}

/// The headline figures of the sample analysis.
pub open spec fn sample_stats() -> Seq<StatText> {
    seq![
        StatText {
            title: "Current Price"@,
            value: "₹24,587.25"@,
            description: Some("As of now"@),
        },
        StatText {
            title: "Day Change"@,
            value: "+₹123.45 (+0.51%)"@,
            description: Some("Today's movement"@),
        },
        StatText {
            title: "Volume"@,
            value: "128.5M"@,
            description: Some("Today's trading volume"@),
        },
    ]
}

/// The views of a list of headline figures.
pub open spec fn stat_texts(stats: Seq<StatData>) -> Seq<StatText> {
    stats.map_values(|s: StatData| s@)
}

fn stat(title: &str, value: &str, description: &str) -> (s: StatData)
    ensures
        s@ == (StatText { title: title@, value: value@, description: Some(description@) }),
{
    StatData {
        title: title.to_owned(),
        value: value.to_owned(),
        description: Some(description.to_owned()),
    }
}

/// The headline figures shown above an analysis.
pub fn summary_stats() -> (stats: Vec<StatData>)
    ensures
        stat_texts(stats@) == sample_stats(),
{
    let mut stats: Vec<StatData> = Vec::new();
    stats.push(stat("Current Price", "₹24,587.25", "As of now"));
    stats.push(stat("Day Change", "+₹123.45 (+0.51%)", "Today's movement"));
    stats.push(stat("Volume", "128.5M", "Today's trading volume"));
    stats
}

} // verus!
