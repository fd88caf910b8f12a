//! The Finnhub quote provider: endpoints, request URLs, and the rate-limit
//! telemetry carried in its response headers.

pub mod company_profile;
pub mod market_news;
pub mod social_sentiment;
pub mod symbol_quote;

use vstd::prelude::*;

use crate::decimal::{dec_u128_or_zero, dec_u32_or_zero, parse_u128_or_zero, parse_u32_or_zero};

verus! {

/// The provider endpoints this service calls.
#[derive(Clone, Copy, Debug, PartialEq, Eq, Structural)]
pub enum Endpoint {
    MarketNews,
    Quote,
    CompanyProfile,
    SocialSentiment,
}

impl Endpoint {
    /// The URL path fragment this endpoint stands for.
    pub open spec fn spec_str(&self) -> Seq<char> {
        match self {
            Endpoint::MarketNews => "news?category=general"@,
            Endpoint::Quote => "quote?symbol="@,
            Endpoint::CompanyProfile => "stock/profile2?symbol="@,
            Endpoint::SocialSentiment => "stock/social-sentiment"@,
        }
    }

    /// The URL path fragment as an owned string.
    pub fn to_string(&self) -> (r: String)
        ensures
            r@ == self.spec_str(),
    {
        match self {
            Endpoint::MarketNews => "news?category=general".to_owned(),
            Endpoint::Quote => "quote?symbol=".to_owned(),
            Endpoint::CompanyProfile => "stock/profile2?symbol=".to_owned(),
            Endpoint::SocialSentiment => "stock/social-sentiment".to_owned(),
        }
    }
}

/// The two rate-limit headers of one response, as received: raw text.
#[derive(Clone, Debug)]
pub struct RateLimitInfo {
    pub ratelimit_remaining: String,
    pub ratelimit_reset: String,
}

/// Rate-limit telemetry with its numeric meaning: the remaining call
/// budget and the time the budget resets.
#[derive(Clone, Copy, Debug, PartialEq, Eq, Structural)]
pub struct RateLimitSnapshot {
    pub remaining: u32,
    pub reset_at: u128,
}

/// The header text `h` carried, with `"0"` substituted for a missing header.
pub open spec fn header_or_zero(h: Option<String>) -> Seq<char> {
    match h {
        Some(s) => s@,
        None => "0"@,
    }
}

/// The snapshot a pair of raw header strings denotes: each field parsed as
/// a decimal integer, with zero for an unparseable value.
pub open spec fn spec_snapshot_of(remaining: Seq<char>, reset: Seq<char>) -> RateLimitSnapshot {
    RateLimitSnapshot {
        remaining: dec_u32_or_zero(remaining) as u32,
        reset_at: dec_u128_or_zero(reset) as u128,
    }
}

/// Keeps the raw header text of a response, substituting `"0"` for a header
/// that did not arrive.
pub fn rate_limit_info_from_headers(remaining: Option<String>, reset: Option<String>) -> (r:
    RateLimitInfo)
    ensures
        r.ratelimit_remaining@ == header_or_zero(remaining),
        r.ratelimit_reset@ == header_or_zero(reset),
{
    let rem = match remaining {
        Some(s) => s,
        None => "0".to_owned(),
    };
    let rst = match reset {
        Some(s) => s,
        None => "0".to_owned(),
    };
    RateLimitInfo { ratelimit_remaining: rem, ratelimit_reset: rst }
}

impl RateLimitInfo {
    /// Parses both headers, falling back to zero where the text holds no
    /// usable number.
    pub fn snapshot(&self) -> (r: RateLimitSnapshot)
        ensures
            r == spec_snapshot_of(self.ratelimit_remaining@, self.ratelimit_reset@),
    {
        RateLimitSnapshot {
            remaining: parse_u32_or_zero(self.ratelimit_remaining.as_str()),
            reset_at: parse_u128_or_zero(self.ratelimit_reset.as_str()),
        }
    }
}

/// A configured Finnhub client: the API key and the endpoint requests go to.
pub struct FinnhubAPI {
    api_key: String,
    endpoint: Endpoint,
}

/// The base of every Finnhub request URL.
pub open spec fn finnhub_base_url() -> Seq<char> {
    "https://finnhub.io/api/v1/"@
}

impl FinnhubAPI {
    /// The configured API key.
    pub closed spec fn spec_api_key(&self) -> Seq<char> {
        self.api_key@
    }

    /// The configured endpoint.
    pub closed spec fn spec_endpoint(&self) -> Endpoint {
        self.endpoint
    }

    /// A client for the given key, aimed at the market-news endpoint until
    /// told otherwise.
    pub fn new(api_key: &str) -> (r: FinnhubAPI)
        ensures
            r.spec_api_key() == api_key@,
            r.spec_endpoint() == Endpoint::MarketNews,
    {
        FinnhubAPI { api_key: api_key.to_owned(), endpoint: Endpoint::MarketNews }
    }

    /// Re-aims the client at `endpoint`, keeping the key.
    pub fn endpoint(&mut self, endpoint: Endpoint)
        ensures
            final(self).spec_endpoint() == endpoint,
            final(self).spec_api_key() == old(self).spec_api_key(),
    {
        self.endpoint = endpoint;
    }

    /// The authentication query fragment appended to every URL.
    pub fn get_api_token(&self) -> (r: String)
        ensures
            r@ == "&token="@ + self.spec_api_key(),
    {
        let mut s = "&token=".to_owned();
        s.append(self.api_key.as_str());
        s
    }

    /// The full request URL: base, endpoint fragment, the optional addition
    /// (a ticker symbol or query string), and the token.
    pub fn prepare_url(&self, url_add: Option<&str>) -> (r: String)
        ensures
            match url_add {
                Some(u) => r@ == finnhub_base_url() + self.spec_endpoint().spec_str() + u@
                    + "&token="@ + self.spec_api_key(),
                None => r@ == finnhub_base_url() + self.spec_endpoint().spec_str() + "&token="@
                    + self.spec_api_key(),
            },
{
        let mut url = "https://finnhub.io/api/v1/".to_owned();
        let fragment = self.endpoint.to_string();
        url.append(fragment.as_str());
        if let Some(u) = url_add {
            url.append(u);
        }
        let token = self.get_api_token();
        url.append(token.as_str());
        proof {
            match url_add {
                Some(u) => {
                    assert(url@ =~= finnhub_base_url() + self.spec_endpoint().spec_str() + u@
                        + "&token="@ + self.spec_api_key());
                },
                None => {
                    assert(url@ =~= finnhub_base_url() + self.spec_endpoint().spec_str()
                        + "&token="@ + self.spec_api_key());
                },
            }
        }
        url
    }
}

} // verus!
