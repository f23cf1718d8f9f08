use grin_explorer::decimal::parse_decimal;
use grin_explorer::reading::{read_amount, read_quote};
use grin_explorer::rpc::{MarketFeed, PriceQuote, RpcError};
use serde_json::Value;

fn decimal_doc(text: &str) -> Value {
    serde_json::from_str(text).unwrap()
}

#[test]
fn a_decimal_is_read_in_the_places_asked_for() {
    assert_eq!(parse_decimal("0.0234", 3, true), Some(23));
    assert_eq!(parse_decimal("0.0234", 4, true), Some(234));
    assert_eq!(parse_decimal("0.0234", 6, true), Some(23400));
    assert_eq!(parse_decimal("2", 3, true), Some(2000));
    assert_eq!(parse_decimal("007.50", 1, true), Some(75));
    assert_eq!(parse_decimal("0", 8, true), Some(0));
    assert_eq!(parse_decimal("0.0", 0, false), Some(0));
}

#[test]
fn a_decimal_is_rounded_half_up_or_cut_off() {
    assert_eq!(parse_decimal("0.0235", 3, true), Some(24));
    assert_eq!(parse_decimal("0.0235", 3, false), Some(23));
    assert_eq!(parse_decimal("0.0234999", 3, true), Some(23));
    assert_eq!(parse_decimal("12345.678", 0, false), Some(12345));
    assert_eq!(parse_decimal("12345.678", 0, true), Some(12346));
    assert_eq!(parse_decimal("0.5", 0, true), Some(1));
    assert_eq!(parse_decimal("0.49", 0, true), Some(0));
    assert_eq!(parse_decimal("0.999999999", 8, true), Some(100000000));
}

#[test]
fn a_decimal_may_carry_an_exponent() {
    assert_eq!(parse_decimal("1e-7", 8, true), Some(10));
    assert_eq!(parse_decimal("1.5e3", 0, true), Some(1500));
    assert_eq!(parse_decimal("1.5E+3", 1, true), Some(15000));
    assert_eq!(parse_decimal("2.5e-1", 0, true), Some(0));
    assert_eq!(parse_decimal("2.5e-1", 1, true), Some(3));
    assert_eq!(parse_decimal("2.5e-1", 2, true), Some(25));
    assert_eq!(parse_decimal("1e0", 0, true), Some(1));
    assert_eq!(parse_decimal("0e99999", 0, true), Some(0));
    assert_eq!(parse_decimal("1e-4294967295", 0, true), Some(0));
    assert_eq!(parse_decimal("1e-50", 8, true), Some(0));
    assert_eq!(parse_decimal("340282366920938463463374607431768211455e-39", 0, true), Some(0));
}

#[test]
fn what_is_no_decimal_is_not_read() {
    for text in [
        "", ".", "1.", ".5", "1e", "1e+", "1e-", "e5", "1.5.2", "-1", "+1", " 1", "1 ", "1x",
        "1e5x", "1.e5", "1,5", "0x10", "NaN", "1e+-5", "1ee5", "--1",
    ] {
        assert_eq!(parse_decimal(text, 3, true), None, "{:?}", text);
    }
}

#[test]
fn a_decimal_beyond_the_limits_is_not_read() {
    assert_eq!(parse_decimal("18446744073709551615", 0, true), Some(u64::MAX));
    assert_eq!(parse_decimal("18446744073709551616", 0, true), None);
    assert_eq!(parse_decimal("18446744073709551615.4", 0, true), Some(u64::MAX));
    assert_eq!(parse_decimal("18446744073709551615.5", 0, true), None);
    assert_eq!(parse_decimal("18446744073709551615.5", 0, false), Some(u64::MAX));
    assert_eq!(parse_decimal("1e20", 0, true), None);
    assert_eq!(parse_decimal("1e19", 0, true), Some(10000000000000000000));
    assert_eq!(parse_decimal("1", 38, true), None);
    assert_eq!(parse_decimal("1e39", 0, true), None);
    assert_eq!(parse_decimal("1e4294967296", 0, true), None);
    assert_eq!(parse_decimal("1e-4294967296", 0, true), None);
    assert_eq!(parse_decimal("340282366920938463463374607431768211456e-39", 0, true), None);
    assert_eq!(parse_decimal("0.340282366920938463463374607431768211456", 0, true), None);
}

#[test]
fn an_amount_is_read_from_a_document() {
    let doc = decimal_doc(
        r#"{"whole": 7, "part": 0.0234, "small": 1e-7, "minus": -2, "text": "5", "big": 1e30}"#,
    );
    assert_eq!(read_amount(&doc, "/whole", 3, true), Some(7000));
    assert_eq!(read_amount(&doc, "/whole", 0, false), Some(7));
    assert_eq!(read_amount(&doc, "/whole", 38, true), None);
    assert_eq!(read_amount(&doc, "/part", 3, true), Some(23));
    assert_eq!(read_amount(&doc, "/small", 8, true), Some(10));
    assert_eq!(read_amount(&doc, "/minus", 3, true), None);
    assert_eq!(read_amount(&doc, "/text", 3, true), None);
    assert_eq!(read_amount(&doc, "/big", 0, true), None);
    assert_eq!(read_amount(&doc, "/missing", 3, true), None);
}

#[test]
fn a_quote_is_read() {
    let doc = decimal_doc(
        r#"{"grin": {"usd": 0.0234567, "btc": 4.5e-7, "usd_24h_vol": 12345.678,
            "btc_24h_vol": 0.23499}}"#,
    );
    assert_eq!(
        read_quote(&doc),
        MarketFeed::Quote(PriceQuote { usd: 23, btc: 45, usd_24h_vol: 12345, btc_24h_vol: 23 })
    );
    let whole = decimal_doc(
        r#"{"grin": {"usd": 1, "btc": 0.00002, "usd_24h_vol": 100, "btc_24h_vol": 2}}"#,
    );
    assert_eq!(
        read_quote(&whole),
        MarketFeed::Quote(PriceQuote { usd: 1000, btc: 2000, usd_24h_vol: 100, btc_24h_vol: 200 })
    );
}

#[test]
fn a_feed_that_refuses_says_why() {
    let doc = decimal_doc(
        r#"{"status": {"error_code": 429, "error_message": "You've exceeded the Rate Limit."}}"#,
    );
    assert_eq!(
        read_quote(&doc),
        MarketFeed::Refused(String::from("You've exceeded the Rate Limit."))
    );
    let mute = decimal_doc(r#"{"status": null, "grin": {"usd": 1}}"#);
    assert_eq!(read_quote(&mute), MarketFeed::Refused(String::new()));
}

#[test]
fn a_feed_without_a_quote_is_not_understood() {
    for text in [
        "{}",
        "null",
        r#"{"grin": {}}"#,
        r#"{"grin": {"usd": 0.02, "btc": 4.5e-7, "usd_24h_vol": 12345.678}}"#,
        r#"{"grin": {"usd": "0.02", "btc": 4.5e-7, "usd_24h_vol": 1, "btc_24h_vol": 1}}"#,
        r#"{"grin": {"usd": -0.02, "btc": 4.5e-7, "usd_24h_vol": 1, "btc_24h_vol": 1}}"#,
    ] {
        assert_eq!(read_quote(&decimal_doc(text)), MarketFeed::Failed(RpcError::Malformed));
    }
}
