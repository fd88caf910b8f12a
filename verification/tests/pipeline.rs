use giga_stonks::finnhub_api::symbol_quote::{FetchOutcome, SymbolQuote};
use giga_stonks::handlers::finnhub::{aggregate, collect_batch, Sentiment};
use giga_stonks::indices::{dow_jones, parse_index};
use giga_stonks::AppState;

fn parsed(dp: i64, remaining: u32) -> Option<FetchOutcome> {
    Some(FetchOutcome::Parsed(
        SymbolQuote { c: 0, d: 0, dp, h: 0, l: 0, o: 0, pc: 0, t: 1 },
        Some(remaining.to_string()),
        Some("1700000000".to_string()),
    ))
}

#[test]
fn djia_pipeline_covers_whole_registry() {
    let registry = dow_jones();
    assert_eq!(parse_index("djia"), Some(giga_stonks::indices::Index::DowJones));

    // Alternate gainers and losers across the thirty tickers.
    let outcomes: Vec<Option<FetchOutcome>> = (0..registry.len())
        .map(|i| {
            let sign: i64 = if i % 2 == 0 { 1 } else { -1 };
            parsed(sign * (i as i64 + 1) * 1000, 60 - i as u32)
        })
        .collect();

    let batch = collect_batch(&registry, &outcomes, 7);
    assert_eq!(batch.len(), 30);
    assert_eq!(batch[0].symbol, "JPM");
    assert_eq!(batch[29].symbol, "CSCO");

    let r = aggregate(&batch);
    // Every quote ranks somewhere: 15 gain, 15 lose, none stands still.
    assert_eq!(r.gainers.len() + r.losers.len(), 30);
    assert_eq!(r.sentiment, Sentiment::Neutral);
    // The last fan-in slot carries the smallest budget: 60 - 29.
    assert_eq!(r.rate_limit_remaining_min, 31);
    assert_eq!(r.rate_limit_reset_selected, 1_700_000_000);
}

#[test]
fn rejected_selector_reaches_no_registry() {
    // The request path stops at selector validation: no index, no fan-out.
    assert_eq!(parse_index("xyz"), None);
}

#[test]
fn sentiment_wire_spellings() {
    assert_eq!(Sentiment::Bullish.as_str(), "bullish");
    assert_eq!(Sentiment::Bearish.as_str(), "bearish");
    assert_eq!(Sentiment::Neutral.as_str(), "neutral");
}

#[test]
fn app_state_holds_both_tokens() {
    let state = AppState::new("fh".to_string(), "av".to_string());
    assert_eq!(state.api_token_finnhub, "fh");
    assert_eq!(state.api_token_alphavantage, "av");
}
