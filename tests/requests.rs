use binance_client::client::{quoted_in_usdt, usdt_symbols, BinanceCommon, BinanceTrade, BinanceUser};
use binance_client::endpoint::{
    BaseUrl, BinanceRequest, CommonEndpoint, Endpoint, TradeEndpoint, UserEndpoint,
};
use binance_client::error::BinanceError;
use binance_client::query::{field, serialize, with_timestamp};
use binance_client::request::{
    append_signature, attach_query, build_url, parse_method, prepare, request,
    request_with_signature, sign_and_prepare, HttpMethod,
};
use binance_client::signing::{
    create_signature, create_timestamp, millis_from_reading, timestamp_millis,
    timestamp_text_from_reading,
};
use binance_client::text::{decimal_text, signed_decimal_text};

fn names(fields: &[(String, String)]) -> Vec<&str> {
    fields.iter().map(|f| f.0.as_str()).collect()
}

fn order(order_type: &str) -> TradeEndpoint {
    TradeEndpoint::new_order(
        Some("BTCUSDT".to_string()),
        Some("BUY".to_string()),
        Some(order_type.to_string()),
        Some("GTC".to_string()),
        Some("0.01".to_string()),
        Some("30000".to_string()),
        Some("29000".to_string()),
        Some("1.5".to_string()),
    )
    .unwrap()
}

#[test]
fn klines_fields_in_order() {
    let e = CommonEndpoint::Klines {
        symbol: "BTCUSDT".to_string(),
        interval: "1m".to_string(),
        limit: Some(100),
    };
    assert_eq!(names(&e.query_fields()), vec!["symbol", "interval", "limit"]);
    assert_eq!(e.query(), "symbol=BTCUSDT&interval=1m&limit=100");
    assert_eq!(e.path(), "/fapi/v1/klines");
}

#[test]
fn klines_without_limit_sends_default() {
    let e = CommonEndpoint::Klines {
        symbol: "BTCUSDT".to_string(),
        interval: "1m".to_string(),
        limit: None,
    };
    assert_eq!(e.query(), "symbol=BTCUSDT&interval=1m&limit=500");
}

#[test]
fn fieldless_endpoints() {
    assert!(CommonEndpoint::ExchangeInfo.query_fields().is_empty());
    assert!(CommonEndpoint::Ticker.query_fields().is_empty());
    assert!(UserEndpoint::Balance.query_fields().is_empty());
    assert_eq!(CommonEndpoint::ExchangeInfo.path(), "/fapi/v1/exchangeInfo");
    assert_eq!(CommonEndpoint::Ticker.path(), "/fapi/v1/ticker/24hr");
    assert_eq!(UserEndpoint::Balance.path(), "/fapi/v3/balance");
}

#[test]
fn symbol_and_leverage_endpoints() {
    let q = UserEndpoint::QueryOrder { symbol: "ETHUSDT".to_string() };
    assert_eq!(q.query(), "symbol=ETHUSDT");
    assert_eq!(q.path(), "/fapi/v1/order");
    let a = UserEndpoint::AllOrders { symbol: "ETHUSDT".to_string() };
    assert_eq!(a.path(), "/fapi/v1/allOrders");
    let c = TradeEndpoint::CancelOrder { symbol: "ETHUSDT".to_string() };
    assert_eq!(c.query(), "symbol=ETHUSDT");
    assert_eq!(c.path(), "/fapi/v1/order");
    let o = TradeEndpoint::AllOpenOrder { symbol: "ETHUSDT".to_string() };
    assert_eq!(o.path(), "/fapi/v1/allOpenOrders");
    let l = TradeEndpoint::Leverage { symbol: "BTCUSDT".to_string(), leverage: 20 };
    assert_eq!(l.query(), "symbol=BTCUSDT&leverage=20");
    assert_eq!(l.path(), "/fapi/v1/leverage");
}

#[test]
fn new_order_fields_by_type() {
    assert_eq!(
        names(&order("LIMIT").query_fields()),
        vec!["symbol", "side", "type", "time_in_force", "quantity", "price"]
    );
    assert_eq!(names(&order("MARKET").query_fields()), vec!["symbol", "side", "type", "quantity"]);
    for t in ["STOP", "TAKE_PROFIT"] {
        assert_eq!(
            names(&order(t).query_fields()),
            vec!["symbol", "side", "type", "quantity", "price", "stop_price"]
        );
    }
    for t in ["STOP_MARKET", "TAKE_PROFIT_MARKET"] {
        assert_eq!(names(&order(t).query_fields()), vec!["symbol", "side", "type", "stop_price"]);
    }
    assert_eq!(
        names(&order("TRAILING_STOP_MARKET").query_fields()),
        vec!["symbol", "side", "type", "callback_rate"]
    );
    assert!(order("ICEBERG").query_fields().is_empty());
    assert_eq!(order("ICEBERG").query(), "");
    assert_eq!(order("NEW").path(), "/fapi/v1/order");
}

#[test]
fn market_order_ignores_price_fields() {
    assert_eq!(order("MARKET").query(), "symbol=BTCUSDT&side=BUY&type=MARKET&quantity=0.01");
}

#[test]
fn limit_order_query_text() {
    assert_eq!(
        order("LIMIT").query(),
        "symbol=BTCUSDT&side=BUY&type=LIMIT&time_in_force=GTC&quantity=0.01&price=30000"
    );
    assert_eq!(
        order("TRAILING_STOP_MARKET").query(),
        "symbol=BTCUSDT&side=BUY&type=TRAILING_STOP_MARKET&callback_rate=1.5"
    );
}

#[test]
fn new_order_defaults_and_missing_fields() {
    let e = TradeEndpoint::new_order(
        Some("BTCUSDT".to_string()),
        Some("SELL".to_string()),
        Some("STOP".to_string()),
        None,
        None,
        None,
        None,
        None,
    )
    .unwrap();
    assert_eq!(e.query(), "symbol=BTCUSDT&side=SELL&type=STOP&quantity=&price=&stop_price=0");
    let missing = TradeEndpoint::new_order(
        None,
        Some("SELL".to_string()),
        Some("MARKET".to_string()),
        None,
        None,
        None,
        None,
        None,
    );
    assert_eq!(missing.unwrap_err(), BinanceError::MissingField);
    let no_side = TradeEndpoint::new_order(
        Some("BTCUSDT".to_string()),
        None,
        Some("MARKET".to_string()),
        None,
        None,
        None,
        None,
        None,
    );
    assert_eq!(no_side.unwrap_err(), BinanceError::MissingField);
    let no_type = TradeEndpoint::new_order(
        Some("BTCUSDT".to_string()),
        Some("SELL".to_string()),
        None,
        None,
        None,
        None,
        None,
        None,
    );
    assert_eq!(no_type.unwrap_err(), BinanceError::MissingField);
}

#[test]
fn sign_fixture_is_reproducible() {
    let expected = "2ab6765436359ed0d99bde3f15fe5295bc908c56fc0ae55fd1e986354d5de793";
    let first = create_signature("abc", "symbol=BTCUSDT&timestamp=1700000000000").unwrap();
    let second = create_signature("abc", "symbol=BTCUSDT&timestamp=1700000000000").unwrap();
    assert_eq!(first, expected);
    assert_eq!(second, first);
}

#[test]
fn sign_known_vector_is_lowercase_hex() {
    let s = create_signature("key", "The quick brown fox jumps over the lazy dog").unwrap();
    assert_eq!(s, "f7bc83f430538424b13298e6aa6fb143ef4d59a14946175997479dbc2d1a3cd8");
    assert_eq!(s.len(), 64);
}

#[test]
fn build_url_with_and_without_trailing_slash() {
    let query = "symbol=BTCUSDT&interval=1m&limit=500";
    let expected = "https://fapi.example.com/fapi/v1/klines?symbol=BTCUSDT&interval=1m&limit=500";
    assert_eq!(build_url("https://fapi.example.com", "/fapi/v1/klines", query).unwrap(), expected);
    assert_eq!(build_url("https://fapi.example.com/", "/fapi/v1/klines", query).unwrap(), expected);
    assert_eq!(build_url("https://fapi.example.com/", "fapi/v1/klines", query).unwrap(), expected);
}

#[test]
fn build_url_rejects_unparsable_base() {
    assert_eq!(
        build_url("not a url", "/fapi/v1/klines", "a=1").unwrap_err(),
        BinanceError::UrlConstruction
    );
}

#[test]
fn verbs_are_case_insensitive() {
    assert_eq!(parse_method("get"), Ok(HttpMethod::Get));
    assert_eq!(parse_method("Post"), Ok(HttpMethod::Post));
    assert_eq!(parse_method("DELETE"), Ok(HttpMethod::Delete));
    assert_eq!(parse_method("Delete"), Ok(HttpMethod::Delete));
    assert_eq!(parse_method("PATCH"), Err(BinanceError::UnsupportedMethod));
    assert_eq!(parse_method("gets"), Err(BinanceError::UnsupportedMethod));
    assert_eq!(parse_method(""), Err(BinanceError::UnsupportedMethod));
}

#[test]
fn patch_is_rejected_before_any_url_work() {
    let model = BinanceRequest::new(BaseUrl::Future, CommonEndpoint::Ticker);
    assert_eq!(request("PATCH", &model).unwrap_err(), BinanceError::UnsupportedMethod);
    assert_eq!(
        prepare("PATCH", "not a url", "/x", "", None).unwrap_err(),
        BinanceError::UnsupportedMethod
    );
    assert_eq!(
        request_with_signature("PATCH", "sk", "ak", &model, 1_700_000_000_000).unwrap_err(),
        BinanceError::UnsupportedMethod
    );
}

#[test]
fn public_request_has_no_auth_parameters() {
    let model = BinanceRequest::new(
        BaseUrl::Future,
        CommonEndpoint::Klines { symbol: "BTCUSDT".to_string(), interval: "1m".to_string(), limit: None },
    );
    let p = request("get", &model).unwrap();
    assert_eq!(p.method, HttpMethod::Get);
    assert_eq!(p.url, "https://fapi.binance.com/fapi/v1/klines?symbol=BTCUSDT&interval=1m&limit=500");
    assert!(p.api_key.is_none());
    assert!(!p.url.contains("timestamp="));
    assert!(!p.url.contains("signature="));
}

#[test]
fn signed_request_carries_timestamp_then_signature() {
    let model = BinanceRequest::new(
        BaseUrl::Future,
        TradeEndpoint::Leverage { symbol: "BTCUSDT".to_string(), leverage: 10 },
    );
    let p = request_with_signature("POST", "sk", "ak", &model, 1_700_000_000_000).unwrap();
    assert_eq!(p.method, HttpMethod::Post);
    assert_eq!(p.api_key.as_deref(), Some("ak"));
    assert_eq!(
        p.url,
        "https://fapi.binance.com/fapi/v1/leverage?symbol=BTCUSDT&leverage=10&timestamp=1700000000000\
&signature=6f7f977613bdbd0eec7a96e6ff56c45d81b9dc782714824d8d6a59e033c45825"
    );
}

#[test]
fn balance_request_signs_timestamp_alone() {
    let user = BinanceUser::new("ak".to_string(), "sk".to_string());
    let p = user.account_balance_request(1_700_000_000_000).unwrap();
    assert_eq!(p.method, HttpMethod::Get);
    assert_eq!(
        p.url,
        "https://fapi.binance.com/fapi/v3/balance?timestamp=1700000000000\
&signature=dd66619df216f7f9a645c841757c0494552da576b7460b75235371de33abbcec"
    );
    assert_eq!(p.api_key.as_deref(), Some("ak"));
}

#[test]
fn user_requests_use_get() {
    let user = BinanceUser::new("ak".to_string(), "sk".to_string());
    let q = user.query_order_request("BTCUSDT", 5).unwrap();
    assert_eq!(q.method, HttpMethod::Get);
    assert!(q.url.starts_with("https://fapi.binance.com/fapi/v1/order?symbol=BTCUSDT&timestamp=5&signature="));
    let a = user.all_orders_request("BTCUSDT", 5).unwrap();
    assert!(a.url.starts_with("https://fapi.binance.com/fapi/v1/allOrders?symbol=BTCUSDT&timestamp=5&signature="));
    let posted = user
        .post(BinanceRequest::new(BaseUrl::Future, UserEndpoint::Balance), 5)
        .unwrap();
    assert_eq!(posted.method, HttpMethod::Post);
    let got = user.get(BinanceRequest::new(BaseUrl::Future, UserEndpoint::Balance), 5).unwrap();
    assert_eq!(got.method, HttpMethod::Get);
}

#[test]
fn trade_requests_pick_their_verbs() {
    let trade = BinanceTrade::new("ak".to_string(), "sk".to_string());
    let l = trade.change_leverage_request("BTCUSDT", 10, 1_700_000_000_000).unwrap();
    assert_eq!(l.method, HttpMethod::Post);
    let d = trade.all_open_orders_request("BTCUSDT", 1).unwrap();
    assert_eq!(d.method, HttpMethod::Delete);
    assert!(d.url.starts_with("https://fapi.binance.com/fapi/v1/allOpenOrders?symbol=BTCUSDT&timestamp=1&signature="));
    let n = trade
        .new_order_request(
            Some("BTCUSDT".to_string()),
            Some("BUY".to_string()),
            Some("MARKET".to_string()),
            None,
            Some("1".to_string()),
            Some("99".to_string()),
            None,
            None,
            7,
        )
        .unwrap();
    assert_eq!(n.method, HttpMethod::Post);
    assert!(n.url.starts_with(
        "https://fapi.binance.com/fapi/v1/order?symbol=BTCUSDT&side=BUY&type=MARKET&quantity=1&timestamp=7&signature="
    ));
    let missing = trade.new_order_request(None, None, None, None, None, None, None, None, 7);
    assert_eq!(missing.unwrap_err(), BinanceError::MissingField);
}

#[test]
fn common_requests_are_public() {
    let common = BinanceCommon::new();
    let k = common.kline_request("ETHUSDT", "1h", Some(3)).unwrap();
    assert_eq!(k.url, "https://fapi.binance.com/fapi/v1/klines?symbol=ETHUSDT&interval=1h&limit=3");
    assert!(k.api_key.is_none());
    let i = common.exchange_info_request().unwrap();
    assert_eq!(i.url, "https://fapi.binance.com/fapi/v1/exchangeInfo?");
    let t = common.ticker_request().unwrap();
    assert_eq!(t.url, "https://fapi.binance.com/fapi/v1/ticker/24hr?");
}

#[test]
fn request_model_accessors() {
    let model = BinanceRequest::new(BaseUrl::Spot, UserEndpoint::AllOrders { symbol: "X".to_string() });
    assert_eq!(model.base_url(), "https://api.binance.com");
    assert_eq!(model.path(), "/fapi/v1/allOrders");
    assert_eq!(model.query(), "symbol=X");
    assert_eq!(model.query_with_timestamp(42), "symbol=X&timestamp=42");
    assert_eq!(BaseUrl::Future.origin(), "https://fapi.binance.com");
}

#[test]
fn serializer_edges() {
    assert_eq!(serialize(&Vec::new()), "");
    let fields = vec![field("a", "1".to_string()), field("b", "x y".to_string())];
    assert_eq!(serialize(&fields), "a=1&b=x y");
    assert_eq!(with_timestamp(Vec::new(), 9), "&timestamp=9");
    assert_eq!(with_timestamp(fields, 18446744073709551615), "a=1&b=x y&timestamp=18446744073709551615");
    assert_eq!(append_signature("a=1".to_string(), "ff"), "a=1&signature=ff");
}

#[test]
fn decimal_rendering() {
    assert_eq!(decimal_text(0), "0");
    assert_eq!(decimal_text(1_700_000_000_000), "1700000000000");
    assert_eq!(signed_decimal_text(-42), "-42");
    assert_eq!(signed_decimal_text(i32::MIN), "-2147483648");
    assert_eq!(signed_decimal_text(500), "500");
}

#[test]
fn clock_reads_after_epoch() {
    let ms = timestamp_millis().unwrap();
    assert!(ms > 1_600_000_000_000);
    let text = create_timestamp().unwrap();
    assert!(!text.is_empty());
    assert!(text.chars().all(|c| c.is_ascii_digit()));
}

#[test]
fn usdt_pairs() {
    assert!(quoted_in_usdt("BTCUSDT"));
    assert!(quoted_in_usdt("USDT"));
    assert!(!quoted_in_usdt("BTCBUSD"));
    assert!(!quoted_in_usdt("SDT"));
    assert!(!quoted_in_usdt("USDTBTC"));
}

#[test]
fn timestamp_follows_the_endpoint_query() {
    assert_eq!(UserEndpoint::Balance.query_with_timestamp(7), "&timestamp=7");
    let model = BinanceRequest::new(BaseUrl::Future, CommonEndpoint::Ticker);
    assert_eq!(model.query_with_timestamp(7), "&timestamp=7");
    let l = TradeEndpoint::Leverage { symbol: "BTCUSDT".to_string(), leverage: 2 };
    assert_eq!(l.query_with_timestamp(7), "symbol=BTCUSDT&leverage=2&timestamp=7");
    assert_eq!(order("ICEBERG").query_with_timestamp(7), "&timestamp=7");
}

#[test]
fn signed_request_without_fields_signs_stamped_suffix() {
    let model = BinanceRequest::new(BaseUrl::Future, UserEndpoint::Balance);
    let p = request_with_signature("get", "sk", "ak", &model, 5).unwrap();
    assert_eq!(
        p.url,
        "https://fapi.binance.com/fapi/v3/balance?&timestamp=5\
&signature=d9f2ba26728e2879b64b65802180056c3179583f6c7cb73f867caebfe5238d36"
    );
}

#[test]
fn signed_leverage_request_literal() {
    let model = BinanceRequest::new(
        BaseUrl::Future,
        TradeEndpoint::Leverage { symbol: "BTCUSDT".to_string(), leverage: 20 },
    );
    let p = request_with_signature("post", "abc", "k", &model, 1_700_000_000_000).unwrap();
    assert_eq!(p.method, HttpMethod::Post);
    assert_eq!(p.api_key.as_deref(), Some("k"));
    assert_eq!(
        p.url,
        "https://fapi.binance.com/fapi/v1/leverage?symbol=BTCUSDT&leverage=20&timestamp=1700000000000\
&signature=91480a91def1f2fc8106f684c81af3dbf0510688e40e01630177ca7162797cb5"
    );
    assert_eq!(p.url.matches("timestamp=").count(), 1);
    assert_eq!(p.url.matches("signature=").count(), 1);
}

#[test]
fn sign_and_prepare_signs_given_text() {
    let p = sign_and_prepare("DELETE", "sk", "ak", "https://fapi.binance.com", "/fapi/v1/order", "&timestamp=5".to_string())
        .unwrap();
    assert_eq!(p.method, HttpMethod::Delete);
    assert_eq!(
        p.url,
        "https://fapi.binance.com/fapi/v1/order?&timestamp=5\
&signature=d9f2ba26728e2879b64b65802180056c3179583f6c7cb73f867caebfe5238d36"
    );
    assert_eq!(
        sign_and_prepare("PUT", "sk", "ak", "https://fapi.binance.com", "/x", String::new()).unwrap_err(),
        BinanceError::UnsupportedMethod
    );
    assert_eq!(
        sign_and_prepare("get", "sk", "ak", "no base", "/x", String::new()).unwrap_err(),
        BinanceError::UrlConstruction
    );
}

#[test]
fn clock_readings() {
    assert_eq!(millis_from_reading(Some(1_700_000_000_000)), Ok(1_700_000_000_000));
    assert_eq!(millis_from_reading(Some(0)), Ok(0));
    assert_eq!(millis_from_reading(None), Err(BinanceError::Clock));
    assert_eq!(millis_from_reading(Some(u64::MAX as u128 + 1)), Err(BinanceError::Clock));
    assert_eq!(timestamp_text_from_reading(Some(1_700_000_000_000)).unwrap(), "1700000000000");
    assert_eq!(timestamp_text_from_reading(Some(0)).unwrap(), "0");
    assert_eq!(timestamp_text_from_reading(None), Err(BinanceError::Clock));
}

#[test]
fn attach_query_keeps_query_verbatim() {
    assert_eq!(attach_query("https://h/p".to_string(), "a=1&b=2"), "https://h/p?a=1&b=2");
    assert_eq!(attach_query("https://h/p".to_string(), ""), "https://h/p?");
}

#[test]
fn usdt_symbols_keep_order() {
    let names = vec!["BTCUSDT".to_string(), "ETHBTC".to_string(), "XRPUSDT".to_string(), "USD".to_string()];
    assert_eq!(usdt_symbols(names), vec!["BTCUSDT".to_string(), "XRPUSDT".to_string()]);
    assert!(usdt_symbols(Vec::new()).is_empty());
}

#[test]
fn signature_is_sixty_four_hex_digits() {
    let s = create_signature("", "").unwrap();
    assert_eq!(s.len(), 64);
    assert!(s.chars().all(|c| c.is_ascii_digit() || ('a'..='f').contains(&c)));
}
