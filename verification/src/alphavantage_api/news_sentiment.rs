//! News-sentiment requests. The scored feed entries the provider returns
//! carry floating point and are handled outside the library.

use vstd::prelude::*;

verus! {

/// The query parameters of a news-sentiment request.
#[derive(Clone, Debug)]
pub struct QueryNewsSentiment {
    pub time_from: String,
}

} // verus!
