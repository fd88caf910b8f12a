//! Social-sentiment requests: the query parameters and the URL fragment
//! they turn into. The scored entries the provider returns carry floating
//! point and are handled outside the library.

use vstd::prelude::*;

verus! {

/// The query parameters of a social-sentiment request.
#[derive(Clone, Debug)]
pub struct QuerySocialSentiment {
    pub symbol: String,
    pub time_from: String,
}

/// The URL addition a social-sentiment query turns into:
/// `?symbol=<symbol>&from=<time_from>`.
pub fn social_sentiment_url_add(query: &QuerySocialSentiment) -> (r: String)
    ensures
        r@ == "?symbol="@ + query.symbol@ + "&from="@ + query.time_from@,
{
    let mut s = "?symbol=".to_owned();
    s.append(query.symbol.as_str());
    s.append("&from=");
    s.append(query.time_from.as_str());
    proof {
        assert(s@ =~= "?symbol="@ + query.symbol@ + "&from="@ + query.time_from@);
    }
    s
}

} // verus!
