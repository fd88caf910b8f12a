//! Quote payloads and the per-ticker enrichment decision.
//!
//! Price fields are fixed-point integers: every value is the provider's
//! floating-point number scaled by one uniform factor that the caller
//! picks and applies before handing data in. Ordering, signs and sums —
//! everything the aggregation reads — survive that representation.

use vstd::prelude::*;

use crate::finnhub_api::{header_or_zero, rate_limit_info_from_headers, spec_snapshot_of,
    RateLimitSnapshot};
use crate::indices::IndexEntry;

verus! {

/// One quote as the provider reports it: current price, delta, delta
/// percent, high, low, open, previous close (scaled fixed-point), and the
/// provider's timestamp.
#[derive(Clone, Copy, Debug, PartialEq, Eq, Structural)]
pub struct SymbolQuote {
    pub c: i64,
    pub d: i64,
    pub dp: i64,
    pub h: i64,
    pub l: i64,
    pub o: i64,
    pub pc: i64,
    pub t: u128,
}

/// A quote enriched with its ticker's identity and the rate-limit
/// telemetry of the response that carried it.
#[derive(Clone, Debug)]
pub struct SymbolQuoteExtended {
    pub current_price: i64,
    pub delta: i64,
    pub delta_percent: i64,
    pub high: i64,
    pub low: i64,
    pub open: i64,
    pub previous_close: i64,
    pub timestamp: u128,
    pub symbol: String,
    pub name: String,
    pub rate_limit_info: RateLimitSnapshot,
}

/// The slice of an enriched quote that is served to callers: identity and
/// prices, without telemetry.
#[derive(Clone, Debug)]
pub struct SymbolQuoteFrontend {
    pub current_price: i64,
    pub delta: i64,
    pub delta_percent: i64,
    pub high: i64,
    pub low: i64,
    pub open: i64,
    pub previous_close: i64,
    pub timestamp: u128,
    pub symbol: String,
    pub name: String,
}

/// What one upstream call came back with, as far as the pipeline's
/// decisions are concerned.
pub enum FetchOutcome {
    /// The body parsed into a quote; the two rate-limit headers as
    /// received, where present.
    Parsed(SymbolQuote, Option<String>, Option<String>),
    /// A response arrived but its body could not be decoded; its headers,
    /// where present.
    Undecodable(Option<String>, Option<String>),
    /// The request could not be built or executed; nothing arrived.
    TransportFailed,
}

/// The enriched quote an outcome must turn into. A decodable body keeps
/// its fields; any failure degrades to an all-zero placeholder stamped
/// with the current wall-clock time, keeping the real ticker identity so
/// that the batch stays one-quote-per-entry.
pub open spec fn spec_enriched(entry: IndexEntry, outcome: FetchOutcome, now_millis: u128)
    -> SymbolQuoteExtended {
    match outcome {
        FetchOutcome::Parsed(q, remaining, reset) => SymbolQuoteExtended {
            current_price: q.c,
            delta: q.d,
            delta_percent: q.dp,
            high: q.h,
            low: q.l,
            open: q.o,
            previous_close: q.pc,
            timestamp: q.t,
            symbol: entry.ticker,
            name: entry.display_name,
            rate_limit_info: spec_snapshot_of(header_or_zero(remaining), header_or_zero(reset)),
        },
        FetchOutcome::Undecodable(remaining, reset) => SymbolQuoteExtended {
            current_price: 0,
            delta: 0,
            delta_percent: 0,
            high: 0,
            low: 0,
            open: 0,
            previous_close: 0,
            timestamp: now_millis,
            symbol: entry.ticker,
            name: entry.display_name,
            rate_limit_info: spec_snapshot_of(header_or_zero(remaining), header_or_zero(reset)),
        },
        FetchOutcome::TransportFailed => SymbolQuoteExtended {
            current_price: 0,
            delta: 0,
            delta_percent: 0,
            high: 0,
            low: 0,
            open: 0,
            previous_close: 0,
            timestamp: now_millis,
            symbol: entry.ticker,
            name: entry.display_name,
            rate_limit_info: RateLimitSnapshot { remaining: 0, reset_at: 0 },
        },
    }
}

/// Turns one fetch outcome into the enriched quote for its registry entry.
/// Never fails: every outcome, including a failed call, yields exactly one
/// quote, as the batch invariant demands.
pub fn enrich_quote(entry: &IndexEntry, outcome: FetchOutcome, now_millis: u128) -> (r:
    SymbolQuoteExtended)
    ensures
        r == spec_enriched(*entry, outcome, now_millis),
{
    match outcome {
        FetchOutcome::Parsed(q, remaining, reset) => {
            let info = rate_limit_info_from_headers(remaining, reset);
            SymbolQuoteExtended {
                current_price: q.c,
                delta: q.d,
                delta_percent: q.dp,
                high: q.h,
                low: q.l,
                open: q.o,
                previous_close: q.pc,
                timestamp: q.t,
                symbol: entry.ticker.clone(),
                name: entry.display_name.clone(),
                rate_limit_info: info.snapshot(),
            }
        },
        FetchOutcome::Undecodable(remaining, reset) => {
            let info = rate_limit_info_from_headers(remaining, reset);
            SymbolQuoteExtended {
                current_price: 0,
                delta: 0,
                delta_percent: 0,
                high: 0,
                low: 0,
                open: 0,
                previous_close: 0,
                timestamp: now_millis,
                symbol: entry.ticker.clone(),
                name: entry.display_name.clone(),
                rate_limit_info: info.snapshot(),
            }
        },
        FetchOutcome::TransportFailed => SymbolQuoteExtended {
            current_price: 0,
            delta: 0,
            delta_percent: 0,
            high: 0,
            low: 0,
            open: 0,
            previous_close: 0,
            timestamp: now_millis,
            symbol: entry.ticker.clone(),
            name: entry.display_name.clone(),
            rate_limit_info: RateLimitSnapshot { remaining: 0, reset_at: 0 },
        },
    }
}

/// A fully empty sentinel: what the dispatcher substitutes when a fetch
/// task itself is destroyed, with no identity left to keep.
pub open spec fn is_sentinel(q: SymbolQuoteExtended, now_millis: u128) -> bool {
    &&& q.current_price == 0
    &&& q.delta == 0
    &&& q.delta_percent == 0
    &&& q.high == 0
    &&& q.low == 0
    &&& q.open == 0
    &&& q.previous_close == 0
    &&& q.timestamp == now_millis
    &&& q.symbol@ == Seq::<char>::empty()
    &&& q.name@ == Seq::<char>::empty()
    &&& q.rate_limit_info == RateLimitSnapshot { remaining: 0, reset_at: 0 }
}

/// Builds the empty sentinel quote.
pub fn sentinel_quote(now_millis: u128) -> (r: SymbolQuoteExtended)
    ensures
        is_sentinel(r, now_millis),
{
    SymbolQuoteExtended {
        current_price: 0,
        delta: 0,
        delta_percent: 0,
        high: 0,
        low: 0,
        open: 0,
        previous_close: 0,
        timestamp: now_millis,
        symbol: String::new(),
        name: String::new(),
        rate_limit_info: RateLimitSnapshot { remaining: 0, reset_at: 0 },
    }
}

/// The frontend slice of an enriched quote.
pub open spec fn frontend_of(q: SymbolQuoteExtended) -> SymbolQuoteFrontend {
    SymbolQuoteFrontend {
        current_price: q.current_price,
        delta: q.delta,
        delta_percent: q.delta_percent,
        high: q.high,
        low: q.low,
        open: q.open,
        previous_close: q.previous_close,
        timestamp: q.timestamp,
        symbol: q.symbol,
        name: q.name,
    }
}

/// Strips an enriched quote down to its frontend slice.
pub fn to_frontend(q: &SymbolQuoteExtended) -> (r: SymbolQuoteFrontend)
    ensures
        r == frontend_of(*q),
{
    SymbolQuoteFrontend {
        current_price: q.current_price,
        delta: q.delta,
        delta_percent: q.delta_percent,
        high: q.high,
        low: q.low,
        open: q.open,
        previous_close: q.previous_close,
        timestamp: q.timestamp,
        symbol: q.symbol.clone(),
        name: q.name.clone(),
    }
}

} // verus!
