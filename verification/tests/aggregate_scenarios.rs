use giga_stonks::finnhub_api::symbol_quote::{SymbolQuoteExtended, SymbolQuoteFrontend};
use giga_stonks::finnhub_api::RateLimitSnapshot;
use giga_stonks::handlers::finnhub::{aggregate, PercentAverage, Sentiment};

// One percentage point of delta is stored as 10_000 fixed-point units.
const SCALE: i64 = 10_000;

fn quote(symbol: &str, dp_units: i64, remaining: u32, reset_at: u128) -> SymbolQuoteExtended {
    SymbolQuoteExtended {
        current_price: 100 * SCALE,
        delta: dp_units,
        delta_percent: dp_units,
        high: 110 * SCALE,
        low: 90 * SCALE,
        open: 95 * SCALE,
        previous_close: 98 * SCALE,
        timestamp: 1_700_000_000_000,
        symbol: symbol.to_string(),
        name: format!("{symbol} Inc"),
        rate_limit_info: RateLimitSnapshot { remaining, reset_at },
    }
}

fn avg_as_f32(avg: &PercentAverage) -> f32 {
    (avg.sum as f32 / SCALE as f32) / avg.count as f32
}

#[test]
fn scenario_mixed_batch() {
    // AAPL +2.0 %, IBM -1.0 %, KO 0.0 %
    let batch = vec![
        quote("AAPL", 2 * SCALE, 55, 111),
        quote("IBM", -1 * SCALE, 54, 222),
        quote("KO", 0, 53, 333),
    ];
    let r = aggregate(&batch);
    assert_eq!(r.gainers.len(), 1);
    assert_eq!(r.gainers[0].symbol, "AAPL");
    assert_eq!(r.losers.len(), 1);
    assert_eq!(r.losers[0].symbol, "IBM");
    // One gainer against one loser: the counts tie, so the label is
    // neutral; the zero-mover KO counts for neither side.
    assert_eq!(r.sentiment, Sentiment::Neutral);
    assert_eq!(avg_as_f32(&r.avg_gain_percent.unwrap()), 2.0);
    assert_eq!(avg_as_f32(&r.avg_loss_percent.unwrap()), -1.0);
}

#[test]
fn scenario_all_zero_movers() {
    let batch = vec![quote("A", 0, 10, 1), quote("B", 0, 9, 2), quote("C", 0, 8, 3)];
    let r = aggregate(&batch);
    assert!(r.gainers.is_empty());
    assert!(r.losers.is_empty());
    assert_eq!(r.sentiment, Sentiment::Neutral);
    assert!(r.avg_gain_percent.is_none());
    assert!(r.avg_loss_percent.is_none());
}

#[test]
fn rate_limit_min_is_over_whole_batch() {
    let batch = vec![
        quote("A", 5 * SCALE, 40, 1),
        quote("B", -3 * SCALE, 7, 2),
        quote("C", 0, 12, 3),
        quote("D", SCALE, 9, 4),
    ];
    let r = aggregate(&batch);
    // The zero-mover C does not rank anywhere, but its budget still counts.
    assert_eq!(r.rate_limit_remaining_min, 7);
}

#[test]
fn rate_limit_reset_is_last_in_registry_order() {
    let batch = vec![
        quote("A", 2 * SCALE, 40, 900),
        quote("B", 3 * SCALE, 41, 100),
        quote("C", -1 * SCALE, 42, 500),
    ];
    let r = aggregate(&batch);
    // The documented rule picks the last element's reset time, not the max.
    assert_eq!(r.rate_limit_reset_selected, 500);
}

#[test]
fn gainers_descend_losers_ascend() {
    let batch = vec![
        quote("G1", 1 * SCALE, 10, 1),
        quote("L1", -2 * SCALE, 10, 1),
        quote("G2", 3 * SCALE, 10, 1),
        quote("L2", -1 * SCALE, 10, 1),
        quote("G3", 2 * SCALE, 10, 1),
    ];
    let r = aggregate(&batch);
    let g: Vec<&str> = r.gainers.iter().map(|q| q.symbol.as_str()).collect();
    let l: Vec<&str> = r.losers.iter().map(|q| q.symbol.as_str()).collect();
    assert_eq!(g, ["G2", "G3", "G1"]);
    assert_eq!(l, ["L1", "L2"]);
    assert_eq!(r.sentiment, Sentiment::Bullish);
}

#[test]
fn ties_keep_batch_order() {
    // Two gainers tie at +1.5 %; the earlier one stays first.
    let batch = vec![
        quote("FIRST", 15_000, 10, 1),
        quote("TOP", 2 * SCALE, 10, 1),
        quote("SECOND", 15_000, 10, 1),
        quote("LOW", -15_000, 10, 1),
        quote("LAST", 15_000, 10, 1),
    ];
    let r = aggregate(&batch);
    let g: Vec<&str> = r.gainers.iter().map(|q| q.symbol.as_str()).collect();
    assert_eq!(g, ["TOP", "FIRST", "SECOND", "LAST"]);
}

#[test]
fn bearish_when_losers_outnumber_gainers() {
    let batch = vec![
        quote("A", -1 * SCALE, 10, 1),
        quote("B", -2 * SCALE, 10, 1),
        quote("C", 3 * SCALE, 10, 1),
    ];
    let r = aggregate(&batch);
    assert_eq!(r.sentiment, Sentiment::Bearish);
    assert_eq!(avg_as_f32(&r.avg_loss_percent.unwrap()), -1.5);
}

fn frontends_equal(a: &[SymbolQuoteFrontend], b: &[SymbolQuoteFrontend]) -> bool {
    a.len() == b.len()
        && a.iter().zip(b.iter()).all(|(x, y)| {
            x.symbol == y.symbol && x.delta_percent == y.delta_percent
                && x.current_price == y.current_price && x.timestamp == y.timestamp
        })
}

#[test]
fn aggregate_is_idempotent() {
    let batch = vec![
        quote("A", 17_500, 40, 900),
        quote("B", -12_345, 7, 100),
        quote("C", 0, 12, 500),
        quote("D", 17_500, 9, 400),
    ];
    let r1 = aggregate(&batch);
    let r2 = aggregate(&batch);
    assert!(frontends_equal(&r1.gainers, &r2.gainers));
    assert!(frontends_equal(&r1.losers, &r2.losers));
    assert_eq!(r1.sentiment, r2.sentiment);
    assert_eq!(r1.avg_gain_percent, r2.avg_gain_percent);
    assert_eq!(r1.avg_loss_percent, r2.avg_loss_percent);
    assert_eq!(r1.rate_limit_remaining_min, r2.rate_limit_remaining_min);
    assert_eq!(r1.rate_limit_reset_selected, r2.rate_limit_reset_selected);
}

#[test]
fn single_quote_batch() {
    let batch = vec![quote("ONLY", -5 * SCALE, 3, 77)];
    let r = aggregate(&batch);
    assert!(r.gainers.is_empty());
    assert_eq!(r.losers.len(), 1);
    assert_eq!(r.sentiment, Sentiment::Bearish);
    assert_eq!(r.avg_loss_percent, Some(PercentAverage { sum: -5 * SCALE as i128, count: 1 }));
    assert_eq!(r.rate_limit_remaining_min, 3);
    assert_eq!(r.rate_limit_reset_selected, 77);
}
