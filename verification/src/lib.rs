//! Market-sentiment aggregation over near-real-time stock quotes.
//!
//! The library covers the quote pipeline's logic: building upstream request
//! URLs, turning per-ticker fetch outcomes into enriched quotes (tolerating
//! per-ticker failure), collecting a batch in registry order, and reducing
//! the batch into a ranked, labeled sentiment summary. All network and
//! serialization work stays outside; the functions here are pure and carry
//! proved contracts.

use vstd::prelude::*;

pub mod alphavantage_api;
pub mod decimal;
pub mod finnhub_api;
pub mod handlers;
pub mod indices;

verus! {

/// Shared application configuration: one API token per upstream provider.
pub struct AppState {
    pub api_token_finnhub: String,
    pub api_token_alphavantage: String,
}

impl AppState {
    /// Bundles the two provider tokens.
    pub fn new(api_token_finnhub: String, api_token_alphavantage: String) -> (s: AppState)
        ensures
            s.api_token_finnhub == api_token_finnhub,
            s.api_token_alphavantage == api_token_alphavantage,
    {
        AppState { api_token_finnhub, api_token_alphavantage }
    }
}

} // verus!
