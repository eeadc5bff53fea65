use cefi::bybit_types::{BybitOrderStatus, BybitSide};
use cefi::session::{
    auth_frame_at, ping_frame, subscribe_frame, ConnectionState, Credentials, SessionAction,
    SessionEvent, WsSession,
};
use cefi::ws_types::{classify_frame, BybitUpdateData, BybitWsUpdate};

const PONG: &str = r#"
        {"req_id":"100001","op":"pong","args":["1727434943071"],"conn_id":"cmjonqvavkfduu60h6d0-231ex0"}
        "#;

#[test]
fn test_deserialize_pong() {
    match classify_frame(PONG).ok().expect("JSON") {
        Some(BybitWsUpdate::Pong(p)) => {
            assert_eq!(p.op, "pong");
            assert_eq!(p.args, vec!["1727434943071".to_string()]);
            assert_eq!(p.conn_id, "cmjonqvavkfduu60h6d0-231ex0");
        }
        _ => panic!("expected a pong"),
    }
}

#[test]
fn test_deserialize_auth_response() {
    let json_data = r#"
        {"success":true,"ret_msg":"","op":"auth","conn_id":"cmjoqsm8dkqdvjssdqvg-232sm4"}
        "#;
    match classify_frame(json_data).ok().expect("JSON") {
        Some(BybitWsUpdate::AuthResponse(a)) => {
            assert!(a.success);
            assert_eq!(a.op, "auth");
            assert_eq!(a.ret_msg, "");
        }
        _ => panic!("expected an acknowledgment"),
    }
}

#[test]
fn test_deserialize_order_linear() {
    let json_data = r#"
        {"topic":"order.linear","id":"62552242_SOLUSDT_149260954383","creationTime":1727433749096,"data":[{"category":"linear","symbol":"SOLUSDT","orderId":"f38c5e38-46ef-4a8a-b115-fd3392d4f144","orderLinkId":"","blockTradeId":"","side":"Buy","positionIdx":0,"orderStatus":"Cancelled","cancelType":"CancelByUser","rejectReason":"EC_PerCancelRequest","timeInForce":"GTC","isLeverage":"","price":"99","qty":"0.1","avgPrice":"","leavesQty":"0","leavesValue":"0","cumExecQty":"0","cumExecValue":"0","cumExecFee":"0","orderType":"Limit","stopOrderType":"","orderIv":"","triggerPrice":"","takeProfit":"","stopLoss":"","triggerBy":"","tpTriggerBy":"","slTriggerBy":"","triggerDirection":0,"placeType":"","lastPriceOnCreated":"156.17","closeOnTrigger":false,"reduceOnly":false,"smpGroup":0,"smpType":"None","smpOrderId":"","slLimitPrice":"0","tpLimitPrice":"0","tpslMode":"UNKNOWN","createType":"CreateByUser","marketUnit":"","createdTime":"1727433748480","updatedTime":"1727433749095","feeCurrency":""}]}
        "#;
    match classify_frame(json_data).ok().expect("JSON") {
        Some(BybitWsUpdate::BybitUpdateData(BybitUpdateData::OrderLinear(orders))) => {
            assert_eq!(orders.len(), 1);
            assert_eq!(orders[0].symbol, "SOLUSDT");
            assert_eq!(orders[0].side, BybitSide::Buy);
            assert_eq!(orders[0].order_status, BybitOrderStatus::Cancelled);
            assert_eq!(orders[0].price, "99");
        }
        _ => panic!("expected an order update"),
    }
}

#[test]
fn test_deserialize_position() {
    let res = r#"{
        "id": "48746281_position.linear_1737878863176",
        "topic": "position.linear",
        "creationTime": 1737878863176,
        "data": [
            {
            "positionIdx": 0,
            "tradeMode": 0,
            "riskId": 11,
            "riskLimitValue": "900000",
            "symbol": "ETHUSDT",
            "side": "",
            "size": "0",
            "entryPrice": "0",
            "sessionAvgPrice": "",
            "leverage": "10",
            "positionValue": "0",
            "positionBalance": "0",
            "markPrice": "3342.31",
            "positionIM": "0",
            "positionMM": "0",
            "takeProfit": "0",
            "stopLoss": "0",
            "trailingStop": "0",
            "unrealisedPnl": "0",
            "cumRealisedPnl": "-323.44165063",
            "curRealisedPnl": "0",
            "createdTime": "1716645225709",
            "updatedTime": "1717818863076",
            "tpslMode": "Full",
            "liqPrice": "",
            "bustPrice": "",
            "category": "linear",
            "positionStatus": "Normal",
            "adlRankIndicator": 0,
            "autoAddMargin": 0,
            "leverageSysUpdatedTime": "",
            "mmrSysUpdatedTime": "",
            "seq": 213418534265,
            "isReduceOnly": false
            }
        ]
        }"#;
    match classify_frame(res).ok().expect("JSON") {
        Some(BybitWsUpdate::BybitUpdateData(BybitUpdateData::PositionLinear(ps))) => {
            assert_eq!(ps.len(), 1);
            assert_eq!(ps[0].symbol, "ETHUSDT");
            assert_eq!(ps[0].side, BybitSide::Flat);
            assert_eq!(ps[0].mark_price, "3342.31");
        }
        _ => panic!("expected a position update"),
    }
}

#[test]
fn unknown_shapes_and_non_json_text() {
    assert!(matches!(classify_frame(r#"{"hello":"world"}"#), Ok(None)));
    assert!(matches!(classify_frame(r#"{"topic":"trade.BTCUSDT","data":[]}"#), Ok(None)));
    assert!(classify_frame("{oops").is_err());
}

fn creds() -> Credentials {
    Credentials { api_key: "key".to_string(), api_secret: "sec".to_string() }
}

fn streaming_session() -> WsSession {
    let mut s = WsSession::new(creds(), vec!["order.linear".to_string()], true);
    s.on_event(SessionEvent::Start);
    s.on_event(SessionEvent::Dialed { now_ms: 1700000000000 });
    s.on_event(SessionEvent::Sent);
    s.on_event(SessionEvent::Sent);
    assert_eq!(s.state, ConnectionState::Streaming);
    s
}

#[test]
fn pong_is_classified_and_not_forwarded_as_a_topic_update() {
    let mut s = streaming_session();
    match s.on_event(SessionEvent::Text(PONG.to_string())) {
        SessionAction::Deliver(BybitWsUpdate::Pong(p)) => assert_eq!(p.op, "pong"),
        _ => panic!("expected the pong to be delivered as a pong"),
    }
    assert_eq!(s.state, ConnectionState::Streaming);
}

#[test]
fn private_session_authenticates_then_subscribes_then_streams() {
    let mut s = WsSession::new(creds(), vec!["order.linear".to_string(), "position.linear".to_string()], true);
    assert_eq!(s.state, ConnectionState::Disconnected);
    assert!(matches!(s.on_event(SessionEvent::Start), SessionAction::Dial));
    assert_eq!(s.state, ConnectionState::Connecting);
    match s.on_event(SessionEvent::Dialed { now_ms: 1700000000000 }) {
        SessionAction::Send(f) => assert_eq!(
            f,
            "{\"req_id\":null,\"op\":\"auth\",\"args\":[\"key\",\"1700000005000\",\"f18d0d6ed26344478a0f59953e935ac193b5e29808a5a9d69b5c648ee7ed25ac\"]}"
        ),
        _ => panic!("expected the auth frame"),
    }
    assert_eq!(s.state, ConnectionState::Authenticating);
    match s.on_event(SessionEvent::Sent) {
        SessionAction::Send(f) => assert_eq!(
            f,
            "{\"args\":[\"order.linear\",\"position.linear\"],\"op\":\"subscribe\",\"req_id\":\"1\"}"
        ),
        _ => panic!("expected the subscribe frame"),
    }
    assert_eq!(s.state, ConnectionState::Subscribing);
    assert!(matches!(s.on_event(SessionEvent::Sent), SessionAction::StartStreaming));
    assert_eq!(s.state, ConnectionState::Streaming);
    match s.on_event(SessionEvent::HeartbeatDue) {
        SessionAction::Send(f) => assert_eq!(f, "{\"op\":\"ping\",\"req_id\":\"100001\"}"),
        _ => panic!("expected a ping"),
    }
}

#[test]
fn public_session_skips_authentication() {
    let mut s = WsSession::new(creds(), vec!["orderbook.50.BTCUSDT".to_string()], false);
    s.on_event(SessionEvent::Start);
    match s.on_event(SessionEvent::Dialed { now_ms: 1 }) {
        SessionAction::Send(f) => assert!(f.contains("\"op\":\"subscribe\"")),
        _ => panic!("expected the subscribe frame"),
    }
    assert_eq!(s.state, ConnectionState::Subscribing);
}

#[test]
fn session_drops_unknown_frames_and_closes_on_failures() {
    let mut s = streaming_session();
    assert!(matches!(s.on_event(SessionEvent::Text("{\"x\":1}".to_string())), SessionAction::Ignore));
    assert!(matches!(s.on_event(SessionEvent::Control), SessionAction::Ignore));
    assert_eq!(s.state, ConnectionState::Streaming);
    assert!(matches!(s.on_event(SessionEvent::Text("garbage".to_string())), SessionAction::Stop));
    assert_eq!(s.state, ConnectionState::Closed);
    assert!(matches!(s.on_event(SessionEvent::Start), SessionAction::Ignore));
    assert_eq!(s.state, ConnectionState::Closed);

    let mut s = streaming_session();
    assert!(matches!(s.on_event(SessionEvent::CloseFrame), SessionAction::Stop));
    assert_eq!(s.state, ConnectionState::Closed);
    let mut s = streaming_session();
    assert!(matches!(s.on_event(SessionEvent::SocketError), SessionAction::Stop));
    let mut s = WsSession::new(creds(), vec![], true);
    s.on_event(SessionEvent::Start);
    assert!(matches!(s.on_event(SessionEvent::HeartbeatDue), SessionAction::Ignore));
    assert!(matches!(s.on_event(SessionEvent::Shutdown), SessionAction::Stop));
    assert_eq!(s.state, ConnectionState::Closed);
}

#[test]
fn frames_are_built_exactly() {
    assert_eq!(ping_frame(), "{\"op\":\"ping\",\"req_id\":\"100001\"}");
    assert_eq!(subscribe_frame(&vec![]), "{\"args\":[],\"op\":\"subscribe\",\"req_id\":\"1\"}");
    let f = auth_frame_at(&creds(), u64::MAX - 1);
    assert!(f.contains(&format!("\"{}\"", u64::MAX)));
}

#[test]
fn failed_heartbeat_keeps_the_session_but_failed_handshake_ends_it() {
    let mut s = streaming_session();
    assert!(matches!(s.on_event(SessionEvent::HeartbeatDue), SessionAction::Send(_)));
    assert!(matches!(s.on_event(SessionEvent::SendFailed), SessionAction::Ignore));
    assert_eq!(s.state, ConnectionState::Streaming);

    let mut s = WsSession::new(creds(), vec![], true);
    s.on_event(SessionEvent::Start);
    s.on_event(SessionEvent::Dialed { now_ms: 1 });
    assert_eq!(s.state, ConnectionState::Authenticating);
    assert!(matches!(s.on_event(SessionEvent::SendFailed), SessionAction::Stop));
    assert_eq!(s.state, ConnectionState::Closed);
}
