use cefi::binance;
use cefi::rest::{BinanceRest, BybitRest, HttpMethod};
use cefi::session::Credentials;
use cefi::sign::{sign, sign_message, ParamValue, Params};

fn creds(key: &str, secret: &str) -> Credentials {
    Credentials { api_key: key.to_string(), api_secret: secret.to_string() }
}

fn text(s: &str) -> ParamValue {
    ParamValue::Text(s.to_string())
}

#[test]
fn golden_signature_with_empty_params() {
    let p = Params::new();
    let query = p.canonical_query();
    assert_eq!(query, "");
    let sig = sign("x", "1", "y", "5000", &query);
    assert_eq!(sig, "be70e1e1755289ffb6a544f6243107e216e972b064634ccb759c03ab19376c7c");
}

#[test]
fn signature_is_lowercase_hex_of_32_bytes() {
    let sig = sign_message("key", "message");
    assert_eq!(sig.len(), 64);
    assert!(sig.chars().all(|c| c.is_ascii_digit() || ('a'..='f').contains(&c)));
}

#[test]
fn canonical_query_ignores_insertion_order() {
    let mut a = Params::new();
    a.insert("symbol", text("BTCUSDT"));
    a.insert("category", text("linear"));
    a.insert("limit", ParamValue::Int(5));
    let mut b = Params::new();
    b.insert("limit", ParamValue::Int(5));
    b.insert("symbol", text("BTCUSDT"));
    b.insert("category", text("linear"));
    assert_eq!(a.canonical_query(), "category=linear&limit=5&symbol=BTCUSDT");
    assert_eq!(a.canonical_query(), b.canonical_query());
    let sa = sign("secret", "1700000000000", "key", "5000", &a.canonical_query());
    let sb = sign("secret", "1700000000000", "key", "5000", &b.canonical_query());
    assert_eq!(sa, sb);
    assert_eq!(sa, "81c6bbd18073e039f19e37d86db7dbcb84b9d05991f544bfa6a9f99a1513c8df");
}

#[test]
fn canonical_body_is_sorted_json() {
    let mut p = Params::new();
    p.insert("symbol", text("SOLUSDT"));
    p.insert("category", text("linear"));
    let body = p.canonical_body();
    assert_eq!(body, "{\"category\":\"linear\",\"symbol\":\"SOLUSDT\"}");
    let sig = sign("secret", "1700000000000", "key", "5000", &body);
    assert_eq!(sig, "3e22e0b4e2f734bab146348acdc827c1adda548b3f7b76b6208f76ab68a0b440");
}

#[test]
fn canonical_body_writes_integers_and_escapes_text() {
    let mut p = Params::new();
    p.insert("positionIdx", ParamValue::Int(0));
    p.insert("note", text("a\"b"));
    assert_eq!(p.canonical_body(), "{\"note\":\"a\\\"b\",\"positionIdx\":0}");
}

#[test]
fn insert_replaces_an_existing_name() {
    let mut p = Params::new();
    p.insert("limit", ParamValue::Int(5));
    p.insert("symbol", text("ETHUSDT"));
    p.insert("limit", ParamValue::Int(-3));
    assert_eq!(p.len(), 2);
    assert_eq!(p.canonical_query(), "limit=-3&symbol=ETHUSDT");
}

#[test]
fn signed_get_request_carries_auth_headers() {
    let rest = BybitRest::new(creds("key", "secret"), "https://api.bybit.com".to_string());
    let req = rest.orderbook_request("linear", "BTCUSDT", 5);
    assert_eq!(req.method, HttpMethod::Get);
    assert_eq!(req.url, "https://api.bybit.com/v5/market/orderbook?category=linear&limit=5&symbol=BTCUSDT");
    assert!(req.headers.is_empty());
    assert!(req.body.is_none());

    let mut p = Params::new();
    p.insert("symbol", text("BTCUSDT"));
    p.insert("category", text("linear"));
    p.insert("limit", ParamValue::Int(5));
    let signed = rest.get_request("v5/market/orderbook", &p, Some(1700000000000));
    let expected = vec![
        ("X-BAPI-API-KEY", "key"),
        ("X-BAPI-SIGN", "81c6bbd18073e039f19e37d86db7dbcb84b9d05991f544bfa6a9f99a1513c8df"),
        ("X-BAPI-SIGN-TYPE", "2"),
        ("X-BAPI-TIMESTAMP", "1700000000000"),
        ("X-BAPI-RECV-WINDOW", "5000"),
        ("Content-Type", "application/json"),
    ];
    let got: Vec<(&str, &str)> = signed.headers.iter().map(|(k, v)| (k.as_str(), v.as_str())).collect();
    assert_eq!(got, expected);
}

#[test]
fn signed_post_request_sends_the_signed_body() {
    let rest = BybitRest::new(creds("key", "secret"), "https://api.bybit.com".to_string());
    let req = rest.cancel_all_orders_request("SOLUSDT", 1700000000000);
    assert_eq!(req.method, HttpMethod::Post);
    assert_eq!(req.url, "https://api.bybit.com/v5/order/cancel-all");
    assert_eq!(req.body.as_deref(), Some("{\"category\":\"linear\",\"symbol\":\"SOLUSDT\"}"));
    assert_eq!(req.headers[1].1, "3e22e0b4e2f734bab146348acdc827c1adda548b3f7b76b6208f76ab68a0b440");
}

#[test]
fn place_order_request_body() {
    let rest = BybitRest::new(creds("key", "secret"), "https://api.bybit.com".to_string());
    let req = rest.place_order_request("", "SOLUSDT", "Buy", "110", "0.1", 1);
    assert_eq!(
        req.body.as_deref(),
        Some("{\"category\":\"linear\",\"orderLinkId\":\"\",\"orderType\":\"Limit\",\"positionIdx\":0,\"price\":\"110\",\"qty\":\"0.1\",\"side\":\"Buy\",\"symbol\":\"SOLUSDT\",\"timeInForce\":\"GTC\"}")
    );
}

#[test]
fn binance_depth_request_defaults_to_five_levels() {
    let rest = BinanceRest::new(creds("api_key", "api_secret"), "https://fapi.binance.com".to_string());
    let req = rest.orderbook_request("BTCUSDT", None);
    assert_eq!(req.url, "https://fapi.binance.com/fapi/v1/depth?limit=5&symbol=BTCUSDT");
    let req = rest.orderbook_request("BTCUSDT", Some(10));
    assert_eq!(req.url, "https://fapi.binance.com/fapi/v1/depth?limit=10&symbol=BTCUSDT");
    let req = rest.server_time_request();
    assert_eq!(req.url, "https://fapi.binance.com/fapi/v1/time");
    assert_eq!(binance::DEFAULT_DEPTH, 5);
}

#[test]
fn control_characters_are_escaped_in_bodies() {
    let mut p = Params::new();
    p.insert("k", text("a\nb\u{1}\\"));
    assert_eq!(p.canonical_body(), "{\"k\":\"a\\nb\\u0001\\\\\"}");
}
