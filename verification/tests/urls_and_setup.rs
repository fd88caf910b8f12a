use giga_stonks::alphavantage_api::{news_sentiment_url_add, AlphaVantageAPI};
use giga_stonks::alphavantage_api::Endpoint as AvEndpoint;
use giga_stonks::finnhub_api::social_sentiment::{social_sentiment_url_add,
    QuerySocialSentiment};
use giga_stonks::finnhub_api::{Endpoint, FinnhubAPI};
use giga_stonks::handlers::alphavantage::setup_av_api;
use giga_stonks::handlers::finnhub::setup_finnhub_api;

#[test]
fn finnhub_quote_url() {
    let api = setup_finnhub_api(Endpoint::Quote, "SECRET-REDACTED");
    assert_eq!(
        api.prepare_url(Some("AAPL")),
        "https://finnhub.io/api/v1/quote?symbol=AAPL&token=SECRET-REDACTED"
    );
}

#[test]
fn finnhub_market_news_url_without_addition() {
    let api = setup_finnhub_api(Endpoint::MarketNews, "tok");
    assert_eq!(
        api.prepare_url(None),
        "https://finnhub.io/api/v1/news?category=general&token=tok"
    );
}

#[test]
fn finnhub_company_profile_url() {
    let api = setup_finnhub_api(Endpoint::CompanyProfile, "tok");
    assert_eq!(
        api.prepare_url(Some("IBM")),
        "https://finnhub.io/api/v1/stock/profile2?symbol=IBM&token=tok"
    );
}

#[test]
fn finnhub_new_defaults_to_market_news() {
    let api = FinnhubAPI::new("tok");
    assert_eq!(
        api.prepare_url(None),
        "https://finnhub.io/api/v1/news?category=general&token=tok"
    );
}

#[test]
fn finnhub_endpoint_fragments() {
    assert_eq!(Endpoint::MarketNews.to_string(), "news?category=general");
    assert_eq!(Endpoint::Quote.to_string(), "quote?symbol=");
    assert_eq!(Endpoint::CompanyProfile.to_string(), "stock/profile2?symbol=");
    assert_eq!(Endpoint::SocialSentiment.to_string(), "stock/social-sentiment");
}

#[test]
fn social_sentiment_query_fragment() {
    let q = QuerySocialSentiment {
        symbol: "TSLA".to_string(),
        time_from: "2023-01-02".to_string(),
    };
    assert_eq!(social_sentiment_url_add(&q), "?symbol=TSLA&from=2023-01-02");
}

#[test]
fn alphavantage_market_status_url() {
    let api = setup_av_api(AvEndpoint::MarketStatus, "KEY");
    assert_eq!(
        api.prepare_url(None),
        "https://www.alphavantage.co/query?function=MARKET_STATUS&apikey=KEY"
    );
}

#[test]
fn alphavantage_news_sentiment_url() {
    let api = setup_av_api(AvEndpoint::NewsSentiment, "KEY");
    let add = news_sentiment_url_add("20230102");
    assert_eq!(add, "&time_from=20230102T0000");
    assert_eq!(
        api.prepare_url(Some(&add)),
        "https://www.alphavantage.co/query?function=NEWS_SENTIMENT&time_from=20230102T0000&apikey=KEY"
    );
}

#[test]
fn alphavantage_new_defaults_to_market_status() {
    let api = AlphaVantageAPI::new("KEY");
    assert_eq!(
        api.prepare_url(None),
        "https://www.alphavantage.co/query?function=MARKET_STATUS&apikey=KEY"
    );
}
