//! Company profiles as the provider reports them.

use vstd::prelude::*;

verus! {

/// The profile of one listed company.
#[derive(Clone, Debug)]
pub struct CompanyProfile {
    pub country: String,
    pub currency: String,
    pub exchange: String,
    pub finnhub_industry: String,
    pub ipo: String,
    pub logo: String,
    pub name: String,
    pub ticker: String,
    pub weburl: String,
}

} // verus!
