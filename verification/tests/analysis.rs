use slynqix::analysis::{
    analyze, category_is_valid, summary_stats, AnalysisResult, AnalysisRow,
};

fn names(rows: &Vec<AnalysisRow>) -> Vec<&str> {
    rows.iter().map(|r| r.name.as_str()).collect()
}

fn values(rows: &Vec<AnalysisRow>) -> Vec<&str> {
    rows.iter().map(|r| r.value.as_str()).collect()
}

#[test]
fn analysis_has_three_filled_categories() {
    for (symbol, range) in [("Nifty 50", "1D"), ("Sensex", "1M"), ("", "")] {
        let result = analyze(symbol, range);
        for rows in [result.statistical(), result.visual(), result.indicator()] {
            assert!(!rows.is_empty());
            for row in rows {
                assert!(!row.name.is_empty());
                assert!(!row.value.is_empty());
            }
        }
        assert_eq!(result.suggestions().len(), 3);
    }
}

#[test]
fn analysis_carries_the_sample_figures() {
    let result = analyze("Nifty 50", "1D");
    assert_eq!(names(result.statistical()), vec!["Mean", "Standard Deviation", "Range"]);
    assert_eq!(values(result.statistical()), vec!["₹24,587.25", "₹235.42", "₹980.75"]);
    assert_eq!(names(result.visual()), vec!["Trend", "Pattern", "Support", "Resistance"]);
    assert_eq!(
        values(result.visual()),
        vec!["Uptrend", "Double Bottom", "₹24,320.00", "₹24,750.00"]
    );
    assert_eq!(
        names(result.indicator()),
        vec!["RSI (14)", "MACD", "Moving Average (50)", "Moving Average (200)"]
    );
    assert_eq!(values(result.indicator()), vec!["58.32", "35.76", "₹24,320.75", "₹23,875.40"]);
    assert_eq!(
        result.statistical()[0].description.as_deref(),
        Some("Average price over the period")
    );
    assert_eq!(result.indicator()[1].description.as_deref(), Some("Bullish"));
    assert_eq!(
        result.suggestions(),
        &vec![
            "Consider buying at ₹24,400 with stop loss at ₹24,320".to_string(),
            "Sell target at ₹24,750".to_string(),
            "Hold positions if already long".to_string(),
        ]
    );
}

#[test]
fn analysis_result_refuses_empty_categories_and_blank_rows() {
    let row = || vec![AnalysisRow::new("n", "v", "d")];
    assert!(AnalysisResult::new(row(), row(), row(), Vec::new()).is_some());
    assert!(AnalysisResult::new(Vec::new(), row(), row(), Vec::new()).is_none());
    assert!(AnalysisResult::new(row(), Vec::new(), row(), Vec::new()).is_none());
    assert!(AnalysisResult::new(row(), row(), Vec::new(), Vec::new()).is_none());
    let no_value = vec![AnalysisRow::new("n", "v", "d"), AnalysisRow::new("n", "", "d")];
    assert!(AnalysisResult::new(row(), no_value, row(), Vec::new()).is_none());
    let no_name = vec![AnalysisRow::new("", "v", "d")];
    assert!(AnalysisResult::new(row(), row(), no_name, Vec::new()).is_none());
    let bare = vec![AnalysisRow { name: "n".to_string(), value: "v".to_string(), description: None }];
    let built = AnalysisResult::new(bare, row(), row(), vec!["s".to_string()]).unwrap();
    assert_eq!(built.statistical()[0].description, None);
    assert_eq!(built.suggestions(), &vec!["s".to_string()]);
}

#[test]
fn row_helpers_describe_rows() {
    let full = AnalysisRow::new("Mean", "1", "Average");
    assert!(full.is_valid());
    assert_eq!(full.description_text(), "Average");
    let bare = AnalysisRow { name: "Mean".to_string(), value: "1".to_string(), description: None };
    assert!(bare.is_valid());
    assert_eq!(bare.description_text(), "");
    assert!(!AnalysisRow::new("", "1", "").is_valid());
    assert!(!AnalysisRow::new("a", "", "").is_valid());
    assert!(!category_is_valid(&Vec::new()));
    assert!(category_is_valid(&vec![full.clone(), bare.clone()]));
    assert!(!category_is_valid(&vec![full.clone(), AnalysisRow::new("a", "", "")]));
    let copy = vec![full.clone(), bare.clone()];
    assert_eq!(names(&copy), vec!["Mean", "Mean"]);
    assert_eq!(copy[0].description.as_deref(), Some("Average"));
    assert_eq!(copy[1].description, None);
}

#[test]
fn analysis_clone_is_equal_row_by_row() {
    let result = analyze("Midcap", "1W");
    let copy = result.clone();
    assert_eq!(names(copy.visual()), names(result.visual()));
    assert_eq!(values(copy.indicator()), values(result.indicator()));
    assert_eq!(copy.suggestions(), result.suggestions());
}

#[test]
fn summary_shows_three_headline_figures() {
    let stats = summary_stats();
    assert_eq!(stats.len(), 3);
    assert_eq!(stats[0].title, "Current Price");
    assert_eq!(stats[0].value, "₹24,587.25");
    assert_eq!(stats[0].description.as_deref(), Some("As of now"));
    assert_eq!(stats[1].title, "Day Change");
    assert_eq!(stats[1].value, "+₹123.45 (+0.51%)");
    assert_eq!(stats[1].description.as_deref(), Some("Today's movement"));
    assert_eq!(stats[2].title, "Volume");
    assert_eq!(stats[2].value, "128.5M");
    assert_eq!(stats[2].clone().description.as_deref(), Some("Today's trading volume"));
}
