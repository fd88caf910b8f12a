//! Market-news articles as the provider reports them.

use vstd::prelude::*;

verus! {

/// One general market-news article.
#[derive(Clone, Debug)]
pub struct ArticleMarketNews {
    pub headline: String,
    pub category: String,
    pub datetime: u32,
    pub id: u32,
    pub image: String,
    pub source: String,
    pub summary: String,
    pub url: String,
}

/// The query parameters of a company-news request.
#[derive(Clone, Debug)]
pub struct QueryCompanyNews {
    pub symbol: String,
    pub time_from: String,
    pub time_to: String,
}

} // verus!
