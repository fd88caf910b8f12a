use giga_stonks::alphavantage_api::market_status::MarketStatusInfo;
use giga_stonks::alphavantage_api::retain_served_regions;
use giga_stonks::finnhub_api::symbol_quote::SymbolQuoteFrontend;
use giga_stonks::handlers::finnhub::{sort_asc_vec, sort_desc_vec};

fn fq(symbol: &str, dp: i64) -> SymbolQuoteFrontend {
    SymbolQuoteFrontend {
        current_price: 0,
        delta: 0,
        delta_percent: dp,
        high: 0,
        low: 0,
        open: 0,
        previous_close: 0,
        timestamp: 0,
        symbol: symbol.to_string(),
        name: symbol.to_string(),
    }
}

fn symbols(v: &[SymbolQuoteFrontend]) -> Vec<&str> {
    v.iter().map(|q| q.symbol.as_str()).collect()
}

#[test]
fn sort_desc_ranks_largest_first() {
    let v = vec![fq("a", 3), fq("b", 9), fq("c", -2), fq("d", 5)];
    assert_eq!(symbols(&sort_desc_vec(v)), ["b", "d", "a", "c"]);
}

#[test]
fn sort_asc_ranks_most_negative_first() {
    let v = vec![fq("a", 3), fq("b", 9), fq("c", -2), fq("d", 5)];
    assert_eq!(symbols(&sort_asc_vec(v)), ["c", "a", "d", "b"]);
}

#[test]
fn sorts_keep_ties_in_input_order() {
    let v = vec![fq("first", 5), fq("mid", 7), fq("second", 5), fq("third", 5)];
    assert_eq!(symbols(&sort_desc_vec(v.clone())), ["mid", "first", "second", "third"]);
    assert_eq!(symbols(&sort_asc_vec(v)), ["first", "second", "third", "mid"]);
}

#[test]
fn empty_and_singleton_sorts() {
    assert!(sort_desc_vec(Vec::new()).is_empty());
    let one = sort_asc_vec(vec![fq("x", 1)]);
    assert_eq!(symbols(&one), ["x"]);
}

fn status(region: &str) -> MarketStatusInfo {
    MarketStatusInfo {
        region: region.to_string(),
        local_open: "09:30".to_string(),
        local_close: "16:00".to_string(),
        current_status: "open".to_string(),
    }
}

#[test]
fn only_served_regions_are_kept() {
    let rows = vec![
        status("United States"),
        status("Japan"),
        status("Germany"),
        status("United Kingdom"),
    ];
    let kept = retain_served_regions(rows);
    let regions: Vec<&str> = kept.iter().map(|m| m.region.as_str()).collect();
    assert_eq!(regions, ["United States", "Germany"]);
}

#[test]
fn no_served_region_yields_empty() {
    let kept = retain_served_regions(vec![status("France")]);
    assert!(kept.is_empty());
}
