//! AlphaVantage request wiring.

use vstd::prelude::*;

use crate::alphavantage_api::{AlphaVantageAPI, Endpoint};

verus! {

/// A client for one request: the given key, aimed at `endpoint`.
pub fn setup_av_api(endpoint: Endpoint, api_token: &str) -> (r: AlphaVantageAPI)
    ensures
        r.spec_endpoint() == endpoint,
        r.spec_api_key() == api_token@,
{
    let mut av_api = AlphaVantageAPI::new(api_token);
    av_api.endpoint(endpoint);
    av_api
}

} // verus!
