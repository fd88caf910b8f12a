use giga_stonks::finnhub_api::symbol_quote::{enrich_quote, sentinel_quote, FetchOutcome,
    SymbolQuote};
use giga_stonks::finnhub_api::{rate_limit_info_from_headers, RateLimitInfo};
use giga_stonks::handlers::finnhub::{aggregate, collect_batch};
use giga_stonks::indices::IndexEntry;

fn entry(ticker: &str, name: &str) -> IndexEntry {
    IndexEntry { ticker: ticker.to_string(), display_name: name.to_string() }
}

fn parsed(dp: i64, remaining: &str, reset: &str) -> FetchOutcome {
    FetchOutcome::Parsed(
        SymbolQuote { c: 1, d: 2, dp, h: 4, l: 5, o: 6, pc: 7, t: 99 },
        Some(remaining.to_string()),
        Some(reset.to_string()),
    )
}

#[test]
fn enrich_keeps_parsed_fields_and_identity() {
    let e = entry("AAPL", "Apple Inc");
    let q = enrich_quote(&e, parsed(123, "55", "1700000001"), 42);
    assert_eq!(q.symbol, "AAPL");
    assert_eq!(q.name, "Apple Inc");
    assert_eq!(q.delta_percent, 123);
    assert_eq!(q.current_price, 1);
    assert_eq!(q.timestamp, 99);
    assert_eq!(q.rate_limit_info.remaining, 55);
    assert_eq!(q.rate_limit_info.reset_at, 1_700_000_001);
}

#[test]
fn enrich_degrades_undecodable_body_to_placeholder() {
    let e = entry("IBM", "International Business Machines Corp");
    let q = enrich_quote(
        &e,
        FetchOutcome::Undecodable(Some("9".to_string()), None),
        1_700_000_000_123,
    );
    // Identity is kept, prices zero out, the clock stamps the quote.
    assert_eq!(q.symbol, "IBM");
    assert_eq!(q.delta_percent, 0);
    assert_eq!(q.current_price, 0);
    assert_eq!(q.timestamp, 1_700_000_000_123);
    // Headers of the malformed response still count; the missing one is zero.
    assert_eq!(q.rate_limit_info.remaining, 9);
    assert_eq!(q.rate_limit_info.reset_at, 0);
}

#[test]
fn enrich_degrades_transport_failure_to_placeholder() {
    let e = entry("KO", "Coca-Cola Co");
    let q = enrich_quote(&e, FetchOutcome::TransportFailed, 7);
    assert_eq!(q.symbol, "KO");
    assert_eq!(q.name, "Coca-Cola Co");
    assert_eq!(q.delta_percent, 0);
    assert_eq!(q.timestamp, 7);
    assert_eq!(q.rate_limit_info.remaining, 0);
    assert_eq!(q.rate_limit_info.reset_at, 0);
}

#[test]
fn sentinel_is_fully_empty() {
    let q = sentinel_quote(5);
    assert_eq!(q.symbol, "");
    assert_eq!(q.name, "");
    assert_eq!(q.delta_percent, 0);
    assert_eq!(q.timestamp, 5);
    assert_eq!(q.rate_limit_info.remaining, 0);
}

#[test]
fn missing_headers_fall_back_to_zero_text() {
    let info = rate_limit_info_from_headers(None, Some("88".to_string()));
    assert_eq!(info.ratelimit_remaining, "0");
    assert_eq!(info.ratelimit_reset, "88");
    let snap = info.snapshot();
    assert_eq!(snap.remaining, 0);
    assert_eq!(snap.reset_at, 88);
}

#[test]
fn unparseable_headers_fall_back_to_zero_value() {
    let info = RateLimitInfo {
        ratelimit_remaining: "not-a-number".to_string(),
        ratelimit_reset: "-3".to_string(),
    };
    let snap = info.snapshot();
    assert_eq!(snap.remaining, 0);
    assert_eq!(snap.reset_at, 0);
}

#[test]
fn one_failure_among_five_still_yields_five_quotes() {
    let registry = vec![
        entry("A", "A Co"),
        entry("B", "B Co"),
        entry("C", "C Co"),
        entry("D", "D Co"),
        entry("E", "E Co"),
    ];
    let outcomes = vec![
        Some(parsed(10_000, "50", "1")),
        Some(parsed(-10_000, "49", "2")),
        Some(FetchOutcome::TransportFailed),
        Some(parsed(20_000, "48", "3")),
        Some(parsed(-20_000, "47", "4")),
    ];
    let batch = collect_batch(&registry, &outcomes, 1234);
    assert_eq!(batch.len(), 5);
    assert_eq!(batch[2].symbol, "C");
    assert_eq!(batch[2].delta_percent, 0);

    // The placeholder's zero delta keeps it out of both partitions.
    let r = aggregate(&batch);
    assert_eq!(r.gainers.len(), 2);
    assert_eq!(r.losers.len(), 2);
    assert!(r.gainers.iter().all(|q| q.symbol != "C"));
    assert!(r.losers.iter().all(|q| q.symbol != "C"));
    // The failed slot's zeroed budget wins the minimum, as documented.
    assert_eq!(r.rate_limit_remaining_min, 0);
}

#[test]
fn destroyed_task_yields_sentinel_in_place() {
    let registry = vec![entry("A", "A Co"), entry("B", "B Co")];
    let outcomes = vec![Some(parsed(10_000, "50", "1")), None];
    let batch = collect_batch(&registry, &outcomes, 9);
    assert_eq!(batch.len(), 2);
    assert_eq!(batch[1].symbol, "");
    assert_eq!(batch[1].timestamp, 9);
}
