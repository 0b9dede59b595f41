use certify::price::{
    binance_result, binance_url, coinbase_result, coinbase_symbol, coinbase_url,
    evaluate_price_feed, is_decimal_str, is_success_status, normalize_symbol, parse_symbol_flag,
    select_symbol, PriceFeedError,
};

#[test]
fn numeric_price_strings_are_accepted() {
    assert!(is_decimal_str("3000.125"));
    assert!(is_decimal_str("3000"));
    assert!(is_decimal_str("0"));
    assert!(is_decimal_str("5."));
    assert!(is_decimal_str(".5"));
}

#[test]
fn non_numeric_price_strings_are_rejected() {
    assert!(!is_decimal_str(""));
    assert!(!is_decimal_str("."));
    assert!(!is_decimal_str("30.1.2"));
    assert!(!is_decimal_str("abc"));
    assert!(!is_decimal_str("12a"));
    assert!(!is_decimal_str("-5"));
    assert!(!is_decimal_str(" 5"));
}

#[test]
fn only_2xx_statuses_succeed() {
    assert!(is_success_status(200));
    assert!(is_success_status(204));
    assert!(is_success_status(299));
    assert!(!is_success_status(199));
    assert!(!is_success_status(300));
    assert!(!is_success_status(404));
    assert!(!is_success_status(500));
}

#[test]
fn mocked_binance_response_is_certified() {
    let r = evaluate_price_feed(
        "ETHUSDT".to_string(),
        "3000.125".to_string(),
        200,
        "2024-01-01T00:00:00+00:00".to_string(),
        "Binance API".to_string(),
    )
    .unwrap();
    assert_eq!(r.symbol, "ETHUSDT");
    assert_eq!(r.raw_price, "3000.125");
    assert_eq!(r.timestamp, "2024-01-01T00:00:00+00:00");
    assert_eq!(r.source, "Binance API");
    assert!(r.certified);
    let price: f64 = r.raw_price.parse().unwrap();
    assert_eq!(price, 3000.125);
    assert_eq!(format!("{:.2}", price), "3000.12");
}

#[test]
fn non_2xx_status_is_rejected() {
    let r = evaluate_price_feed(
        "BTCUSDT".to_string(),
        "100.0".to_string(),
        404,
        "t".to_string(),
        "s".to_string(),
    );
    assert_eq!(r.unwrap_err(), PriceFeedError::BadStatus(404));
}

#[test]
fn non_numeric_price_is_rejected() {
    let r = evaluate_price_feed(
        "BTCUSDT".to_string(),
        "not-a-number".to_string(),
        200,
        "t".to_string(),
        "s".to_string(),
    );
    assert_eq!(r.unwrap_err(), PriceFeedError::NonNumericPrice);
}

#[test]
fn bad_status_wins_over_bad_price() {
    let r = evaluate_price_feed(
        "BTCUSDT".to_string(),
        "oops".to_string(),
        500,
        "t".to_string(),
        "s".to_string(),
    );
    assert_eq!(r.unwrap_err(), PriceFeedError::BadStatus(500));
}

#[test]
fn binance_result_labels_its_source() {
    let r = binance_result("ETHUSDT".to_string(), "3000.125".to_string(), 200).unwrap();
    assert_eq!(r.symbol, "ETHUSDT");
    assert_eq!(r.raw_price, "3000.125");
    assert_eq!(r.source, "Binance API");
    assert!(r.certified);
}

#[test]
fn coinbase_result_joins_base_and_currency() {
    let r = coinbase_result(
        "BTC".to_string(),
        "USD".to_string(),
        "64000.55".to_string(),
        200,
    )
    .unwrap();
    assert_eq!(r.symbol, "BTC-USD");
    assert_eq!(r.raw_price, "64000.55");
    assert_eq!(r.source, "Coinbase API");
    assert!(r.certified);
}

#[test]
fn endpoint_urls_embed_the_symbol() {
    assert_eq!(
        binance_url("ETHUSDT"),
        "https://api.binance.com/api/v3/ticker/price?symbol=ETHUSDT"
    );
    assert_eq!(
        coinbase_url("BTC-USD"),
        "https://api.coinbase.com/v2/prices/BTC-USD/spot"
    );
}

#[test]
fn coinbase_symbol_joins_with_a_dash() {
    assert_eq!(coinbase_symbol("BTC", "USD"), "BTC-USD");
    assert_eq!(coinbase_symbol("ETH", "EUR"), "ETH-EUR");
}

#[test]
fn symbol_flag_values_are_extracted() {
    assert_eq!(parse_symbol_flag("--symbol=ETHUSDT").as_deref(), Some("ETHUSDT"));
    assert_eq!(parse_symbol_flag("--symbol=").as_deref(), Some(""));
    assert_eq!(parse_symbol_flag("--symbol=a=b").as_deref(), Some("a"));
    assert_eq!(parse_symbol_flag("--symbols=X"), None);
    assert_eq!(parse_symbol_flag("-symbol=X"), None);
    assert_eq!(parse_symbol_flag("symbol"), None);
}

#[test]
fn selected_symbol_is_uppercased() {
    let args = vec!["prog".to_string(), "--symbol=ethusdt".to_string()];
    assert_eq!(select_symbol(&args), "ETHUSDT");
}

#[test]
fn missing_symbol_flag_falls_back_to_default() {
    let args = vec!["prog".to_string()];
    assert_eq!(select_symbol(&args), "BTCUSDT");
    let args = vec!["prog".to_string(), "--verbose".to_string()];
    assert_eq!(select_symbol(&args), "BTCUSDT");
}

#[test]
fn first_symbol_flag_wins() {
    let args = vec![
        "prog".to_string(),
        "--other=1".to_string(),
        "--symbol=btcusdt".to_string(),
        "--symbol=ethusdt".to_string(),
    ];
    assert_eq!(select_symbol(&args), "BTCUSDT");
}

#[test]
fn normalize_symbol_uppercases() {
    assert_eq!(normalize_symbol("btc-usd"), "BTC-USD");
    assert_eq!(normalize_symbol("Eth-Eur"), "ETH-EUR");
    assert_eq!(normalize_symbol(""), "");
}
