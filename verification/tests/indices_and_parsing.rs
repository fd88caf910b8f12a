use giga_stonks::decimal::{parse_u128, parse_u128_or_zero, parse_u32_or_zero};
use giga_stonks::indices::{dow_jones, invalid_index_message, nasdaq, parse_index, registry_for,
    str_contents_eq, Index};

#[test]
fn registries_have_documented_sizes() {
    assert_eq!(dow_jones().len(), 30);
    assert_eq!(nasdaq().len(), 60);
    assert_eq!(registry_for(Index::DowJones).len(), 30);
    assert_eq!(registry_for(Index::NASDAQ).len(), 60);
}

#[test]
fn registry_contents_spot_checks() {
    let dj = dow_jones();
    assert_eq!(dj[0].ticker, "JPM");
    assert_eq!(dj[0].display_name, "JPMorgan Chase & Co");
    assert_eq!(dj[4].ticker, "AAPL");
    assert_eq!(dj[29].ticker, "CSCO");
    let nq = nasdaq();
    assert_eq!(nq[0].ticker, "AMZN");
    assert_eq!(nq[59].ticker, "CMCSA");
}

#[test]
fn selectors_map_to_indices() {
    assert_eq!(parse_index("djia"), Some(Index::DowJones));
    assert_eq!(parse_index("nasdaq"), Some(Index::NASDAQ));
    assert_eq!(parse_index("xyz"), None);
    assert_eq!(parse_index(""), None);
    assert_eq!(parse_index("DJIA"), None);
}

#[test]
fn invalid_selector_message_is_documented() {
    assert_eq!(
        invalid_index_message(),
        "Given index not valid. Try 'djia' or 'nasdaq'."
    );
}

#[test]
fn index_names() {
    assert_eq!(Index::DowJones.to_string(), "djia");
    assert_eq!(Index::DowJones.as_str(), "djia");
    assert_eq!(Index::NASDAQ.to_string(), "nasdq");
    assert_eq!(Index::NASDAQ.as_str(), "nasdq");
}

#[test]
fn string_comparison_is_by_contents() {
    assert!(str_contents_eq("abc", "abc"));
    assert!(!str_contents_eq("abc", "abd"));
    assert!(!str_contents_eq("abc", "abcd"));
}

#[test]
fn decimal_parsing_accepts_plain_digit_strings() {
    assert_eq!(parse_u128("0"), Some(0));
    assert_eq!(parse_u128("123"), Some(123));
    assert_eq!(parse_u128("0057"), Some(57));
    assert_eq!(
        parse_u128("340282366920938463463374607431768211455"),
        Some(u128::MAX)
    );
}

#[test]
fn decimal_parsing_rejects_everything_else() {
    assert_eq!(parse_u128(""), None);
    assert_eq!(parse_u128("-1"), None);
    assert_eq!(parse_u128("1.5"), None);
    assert_eq!(parse_u128("12a"), None);
    assert_eq!(parse_u128(" 12"), None);
    // One past u128::MAX overflows.
    assert_eq!(parse_u128("340282366920938463463374607431768211456"), None);
}

#[test]
fn header_values_fall_back_to_zero() {
    assert_eq!(parse_u32_or_zero("55"), 55);
    assert_eq!(parse_u32_or_zero("4294967295"), u32::MAX);
    assert_eq!(parse_u32_or_zero("4294967296"), 0);
    assert_eq!(parse_u32_or_zero("oops"), 0);
    assert_eq!(parse_u128_or_zero("1700000000"), 1_700_000_000);
    assert_eq!(parse_u128_or_zero(""), 0);
}
