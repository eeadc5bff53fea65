use cefi::bybit;
use cefi::capability::{Venue, VenueError};
use cefi::decimal::{parse_decimal, render_decimal, Decimal};
use cefi::rest::{BinanceRest, BybitRest};
use cefi::session::Credentials;
use cefi::types::{nanos_text_to_millis, Orderbook};

fn creds() -> Credentials {
    Credentials { api_key: String::new(), api_secret: String::new() }
}

fn binance() -> Venue {
    Venue::Binance(BinanceRest::new(creds(), "https://fapi.binance.com".to_string()))
}

fn bybit_venue() -> Venue {
    Venue::Bybit(BybitRest::new(creds(), "https://api.bybit.com".to_string()))
}

fn dec(m: u64, s: u32) -> Decimal {
    Decimal { mantissa: m, scale: s }
}

const BINANCE_BOOK: &str = r#"{"lastUpdateId":1027024,"E":1589436922972,"T":1589436922959,"bids":[["4.00000000","431.00000000"],["3.99000000","12.50000000"],["3.98000000","7.00000000"],["3.97000000","1.00000000"],["3.96000000","2.25000000"]],"asks":[["4.00000200","12.00000000"],["4.01000000","3.00000000"],["4.02000000","8.50000000"],["4.03000000","6.00000000"],["4.04000000","9.10000000"]]}"#;

#[test]
fn binance_book_keeps_five_levels_in_order_and_event_time() {
    let venue = binance();
    let req = venue.orderbook_request("BTCUSDT", Some(5));
    assert_eq!(req.url, "https://fapi.binance.com/fapi/v1/depth?limit=5&symbol=BTCUSDT");
    let ob = venue.finish_orderbook("BTCUSDT", 200, BINANCE_BOOK).ok().expect("book");
    assert_eq!(ob.symbol, "BTCUSDT");
    assert_eq!(ob.bids.len(), 5);
    assert_eq!(ob.asks.len(), 5);
    assert_eq!(ob.timestamp_ms, 1589436922972);
    assert_eq!(ob.bids[0].price, dec(400000000, 8));
    assert_eq!(ob.bids[4].price, dec(396000000, 8));
    assert_eq!(ob.asks[0].price, dec(400000200, 8));
    assert_eq!(ob.asks[4].amount, dec(910000000, 8));
}

#[test]
fn bybit_book_is_normalized_from_its_envelope() {
    let body = r#"{"retCode":0,"retMsg":"OK","result":{"s":"SOLUSDT","b":[["123.73","242.2"],["123.72","209.3"],["123.71","288"],["123.7","487.2"],["123.69","832.5"]],"a":[["123.74","8.5"],["123.75","275.9"],["123.76","386.9"],["123.77","379.9"],["123.78","965.2"]],"ts":1741615623678,"u":46138715,"seq":191265669802,"cts":1741615623677},"retExtInfo":{},"time":1741615623709}"#;
    let venue = bybit_venue();
    let req = venue.orderbook_request("SOLUSDT", None);
    assert_eq!(req.url, "https://api.bybit.com/v5/market/orderbook?category=linear&limit=10&symbol=SOLUSDT");
    let ob = venue.finish_orderbook("SOLUSDT", 200, body).ok().expect("book");
    assert_eq!(ob.bids.len(), 5);
    assert_eq!(ob.asks.len(), 5);
    assert_eq!(ob.timestamp_ms, 1741615623678);
    assert_eq!(ob.bids[0].price, dec(12373, 2));
    assert_eq!(ob.bids[2].amount, dec(288, 0));
    assert_eq!(ob.asks[4].amount, dec(9652, 1));
    let raw = bybit::finish_orderbook(200, body).ok().expect("raw book");
    assert_eq!(raw.symbol, "SOLUSDT");
    assert_eq!(raw.update_id, 46138715);
    assert_eq!(raw.seq, 191265669802);
    assert_eq!(raw.cross_seq, 1741615623677);
}

#[test]
fn unparseable_price_fails_the_book() {
    let body = r#"{"E":1,"T":1,"bids":[["4.0","1"]],"asks":[["abc","1"]]}"#;
    assert!(matches!(binance().finish_orderbook("X", 200, body), Err(VenueError::Binance(_))));
    let raw = cefi::binance::finish_order_book(200, body).ok().expect("raw");
    assert!(Orderbook::from_binance_orderbook(raw, "X".to_string()).is_err());
}

#[test]
fn decimal_text_round_trips() {
    for text in ["123.70", "0.001", "5", "0", "4.00000200", "18446744073709551615", "0.00000000000000000000000001"] {
        let d = parse_decimal(text).expect("decimal");
        assert_eq!(render_decimal(d), text);
        assert_eq!(parse_decimal(&render_decimal(d)), Some(d));
    }
    assert_eq!(parse_decimal("123.70"), Some(dec(12370, 2)));
    assert_eq!(render_decimal(dec(5, 3)), "0.005");
    assert_eq!(render_decimal(dec(12, 0)), "12");
    assert_eq!(parse_decimal("007.5"), Some(dec(75, 1)));
}

#[test]
fn decimal_text_rejects_what_is_not_a_decimal() {
    for text in ["", ".5", "5.", "-1", "1e5", "1.2.3", "+1", " 1", "18446744073709551616", "1844674407370955161.6"] {
        assert_eq!(parse_decimal(text), None, "{text}");
    }
}

#[test]
fn server_time_from_each_venue() {
    let body = r#"{"retCode":0,"retMsg":"OK","result":{"timeSecond":"1688639403","timeNano":"1688639403423213947"},"retExtInfo":{},"time":1688639403423}"#;
    assert_eq!(bybit_venue().finish_server_time(200, body).ok(), Some(1688639403423));
    assert_eq!(binance().finish_server_time(200, r#"{"serverTime":1499827319559}"#).ok(), Some(1499827319559));
    assert_eq!(nanos_text_to_millis("1999999"), Some(1));
    assert_eq!(nanos_text_to_millis("1.5"), None);
}

#[test]
fn order_placement_through_the_interface() {
    let venue = bybit_venue();
    let params = cefi::trade::PlaceOrderParams {
        symbol: "SOLUSDT".to_string(),
        is_buy: true,
        price: dec(110, 0),
        amount: dec(1, 1),
    };
    let req = venue.place_order_request(&params, "", 1).ok().expect("request");
    assert!(req.body.expect("body").contains("\"price\":\"110\",\"qty\":\"0.1\",\"side\":\"Buy\""));
    let res = venue
        .finish_place_order(200, r#"{"retCode":0,"retMsg":"OK","result":{"orderId":"abc","orderLinkId":"c1"}}"#)
        .ok()
        .expect("placed");
    assert_eq!(res.order_id, "abc");
    assert_eq!(res.order_link_id, "c1");
    assert!(matches!(binance().place_order_request(&params, "", 1), Err(VenueError::Unsupported)));
}

#[test]
fn capability_failures_carry_the_venue_error() {
    let rejected = r#"{"retCode":10001,"retMsg":"params error: symbol invalid","result":{},"retExtInfo":{},"time":1741615413686}"#;
    match bybit_venue().finish_place_order(200, rejected) {
        Err(VenueError::Bybit(cefi::errors::BybitError::ApiError(code, msg))) => {
            assert_eq!(code, 10001);
            assert_eq!(msg, "params error: symbol invalid");
        }
        _ => panic!("expected the venue's rejection"),
    }
    assert!(matches!(
        bybit_venue().finish_orderbook("SOLUSDT", 200, rejected),
        Err(VenueError::Bybit(cefi::errors::BybitError::ApiError(10001, _)))
    ));
    assert!(matches!(
        bybit_venue().finish_server_time(503, "Service Unavailable"),
        Err(VenueError::Bybit(cefi::errors::BybitError::Unknown(_)))
    ));
    assert!(matches!(
        binance().finish_orderbook("X", 400, r#"{"code":-1121,"msg":"Invalid symbol."}"#),
        Err(VenueError::Binance(cefi::errors::BinanceError::ApiError(-1121, _)))
    ));
    let req = bybit_venue().cancel_all_orders_request("SOLUSDT", 1).ok().expect("request");
    assert_eq!(req.url, "https://api.bybit.com/v5/order/cancel-all");
    assert_eq!(req.body.as_deref(), Some("{\"category\":\"linear\",\"symbol\":\"SOLUSDT\"}"));
}
