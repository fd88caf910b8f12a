//! Market open/close status rows as the provider reports them.

use vstd::prelude::*;

verus! {

/// The trading status of one regional market.
#[derive(Clone, Debug)]
pub struct MarketStatusInfo {
    pub region: String,
    pub local_open: String,
    pub local_close: String,
    pub current_status: String,
}

/// The provider's market-status response: the endpoint echoed back and
/// the rows.
#[derive(Clone, Debug)]
pub struct MarketStatusResponse {
    pub endpoint: String,
    pub markets: Vec<MarketStatusInfo>,
}

} // verus!
