//! The AlphaVantage provider: endpoints, request URLs, and the
//! market-status post-processing.

pub mod market_status;
pub mod news_sentiment;

use vstd::prelude::*;

use crate::indices::str_contents_eq;
use market_status::MarketStatusInfo;

verus! {

/// The provider endpoints this service calls.
#[derive(Clone, Copy, Debug, PartialEq, Eq, Structural)]
pub enum Endpoint {
    MarketStatus,
    NewsSentiment,
}

impl Endpoint {
    /// The query-function name this endpoint stands for.
    pub open spec fn spec_str(&self) -> Seq<char> {
        match self {
            Endpoint::MarketStatus => "MARKET_STATUS"@,
            Endpoint::NewsSentiment => "NEWS_SENTIMENT"@,
        }
    }

    /// The query-function name as an owned string.
    pub fn to_string(&self) -> (r: String)
        ensures
            r@ == self.spec_str(),
    {
        match self {
            Endpoint::MarketStatus => "MARKET_STATUS".to_owned(),
            Endpoint::NewsSentiment => "NEWS_SENTIMENT".to_owned(),
        }
    }
}

/// A configured AlphaVantage client: the API key and the endpoint
/// requests go to.
pub struct AlphaVantageAPI {
    api_key: String,
    endpoint: Endpoint,
}

/// The base of every AlphaVantage request URL.
pub open spec fn alphavantage_base_url() -> Seq<char> {
    "https://www.alphavantage.co/query?function="@
}

impl AlphaVantageAPI {
    /// The configured API key.
    pub closed spec fn spec_api_key(&self) -> Seq<char> {
        self.api_key@
    }

    /// The configured endpoint.
    pub closed spec fn spec_endpoint(&self) -> Endpoint {
        self.endpoint
    }

    /// A client for the given key, aimed at the market-status endpoint
    /// until told otherwise.
    pub fn new(api_key: &str) -> (r: AlphaVantageAPI)
        ensures
            r.spec_api_key() == api_key@,
            r.spec_endpoint() == Endpoint::MarketStatus,
    {
        AlphaVantageAPI { api_key: api_key.to_owned(), endpoint: Endpoint::MarketStatus }
    }

    /// Re-aims the client at `endpoint`, keeping the key.
    pub fn endpoint(&mut self, endpoint: Endpoint)
        ensures
            final(self).spec_endpoint() == endpoint,
            final(self).spec_api_key() == old(self).spec_api_key(),
    {
        self.endpoint = endpoint;
    }

    /// The authentication query fragment appended to every URL.
    pub fn get_api_key(&self) -> (r: String)
        ensures
            r@ == "&apikey="@ + self.spec_api_key(),
    {
        let mut s = "&apikey=".to_owned();
        s.append(self.api_key.as_str());
        s
    }

    /// The full request URL: base, query-function name, the optional
    /// addition (a complete query string), and the key.
    pub fn prepare_url(&self, url_add: Option<&str>) -> (r: String)
        ensures
            match url_add {
                Some(u) => r@ == alphavantage_base_url() + self.spec_endpoint().spec_str() + u@
                    + "&apikey="@ + self.spec_api_key(),
                None => r@ == alphavantage_base_url() + self.spec_endpoint().spec_str()
                    + "&apikey="@ + self.spec_api_key(),
            },
    {
        let mut url = "https://www.alphavantage.co/query?function=".to_owned();
        let fragment = self.endpoint.to_string();
        url.append(fragment.as_str());
        if let Some(u) = url_add {
            url.append(u);
        }
        let key = self.get_api_key();
        url.append(key.as_str());
        proof {
            match url_add {
                Some(u) => {
                    assert(url@ =~= alphavantage_base_url() + self.spec_endpoint().spec_str() + u@
                        + "&apikey="@ + self.spec_api_key());
                },
                None => {
                    assert(url@ =~= alphavantage_base_url() + self.spec_endpoint().spec_str()
                        + "&apikey="@ + self.spec_api_key());
                },
            }
        }
        url
    }
}

/// The news-sentiment query fragment for a start time:
/// `&time_from=<time>T0000`.
pub fn news_sentiment_url_add(time_from: &str) -> (r: String)
    ensures
        r@ == "&time_from="@ + time_from@ + "T0000"@,
{
    let mut s = "&time_from=".to_owned();
    s.append(time_from);
    s.append("T0000");
    proof {
        assert(s@ =~= "&time_from="@ + time_from@ + "T0000"@);
    }
    s
}

/// Whether a market-status row is kept for the response: only the United
/// States and Germany are served.
pub open spec fn spec_region_kept(m: MarketStatusInfo) -> bool {
    m.region@ == "United States"@ || m.region@ == "Germany"@
}

/// The row-keeping rule as a first-class predicate.
pub open spec fn region_kept_pred() -> spec_fn(MarketStatusInfo) -> bool {
    |m: MarketStatusInfo| spec_region_kept(m)
}

/// Keeps only the market-status rows of the served regions, in order.
pub fn retain_served_regions(markets: Vec<MarketStatusInfo>) -> (r: Vec<MarketStatusInfo>)
    ensures
        r@ == markets@.filter(region_kept_pred()),
{
    let mut out: Vec<MarketStatusInfo> = Vec::new();
    let mut i: usize = 0;
    while i < markets.len()
        invariant
            0 <= i <= markets@.len(),
            out@ == markets@.take(i as int).filter(region_kept_pred()),
        decreases markets@.len() - i,
    {
        let m = &markets[i];
        let keep = str_contents_eq(m.region.as_str(), "United States") || str_contents_eq(
            m.region.as_str(),
            "Germany",
        );
        proof {
            assert(markets@.take(i + 1) =~= markets@.take(i as int).push(markets@[i as int]));
            markets@.take(i as int).lemma_filter_push(markets@[i as int], region_kept_pred());
        }
        if keep {
            out.push(clone_market_status(m));
        }
        i = i + 1;
    }
    proof {
        assert(markets@.take(markets@.len() as int) =~= markets@);
    }
    out
}

/// Copies one market-status row field by field.
fn clone_market_status(m: &MarketStatusInfo) -> (r: MarketStatusInfo)
    ensures
        r == *m,
{
    MarketStatusInfo {
        region: m.region.clone(),
        local_open: m.local_open.clone(),
        local_close: m.local_close.clone(),
        current_status: m.current_status.clone(),
    }
}

} // verus!
