use cefi::binance;
use cefi::bybit;
use cefi::bybit_types::{
    decode_bybit_account_info, decode_get_position_response, decode_order_response, BybitSide,
};
use cefi::envelope::{decode_envelope, finish_bybit, EnvelopeLayout};
use cefi::errors::{BinanceError, BybitError};
use cefi::json::parse_value;

#[test]
fn rejected_envelope_yields_api_error_without_reading_payload() {
    let layout = EnvelopeLayout::new("code", "message", "payload");
    let body = r#"{"code":10001,"message":"params error: symbol invalid","payload":{}}"#;
    match decode_envelope(&layout, body) {
        Err(BybitError::ApiError(code, msg)) => {
            assert_eq!(code, 10001);
            assert_eq!(msg, "params error: symbol invalid");
        }
        _ => panic!("expected an API error"),
    }
    // The payload is never read, whatever it holds.
    let body = r#"{"code":10001,"message":"params error: symbol invalid","payload":[1,2]}"#;
    assert!(matches!(decode_envelope(&layout, body), Err(BybitError::ApiError(10001, _))));
    let body = r#"{"code":10001,"message":"params error: symbol invalid"}"#;
    assert!(matches!(decode_envelope(&layout, body), Err(BybitError::ApiError(10001, _))));
}

#[test]
fn accepted_envelope_yields_the_order_placement() {
    let body = r#"{"retCode":0,"result":{"orderId":"abc","orderLinkId":""}}"#;
    let order = bybit::finish_order(200, body).ok().expect("accepted");
    assert_eq!(order.order_id, "abc");
    assert_eq!(order.order_link_id, "");

    let layout = EnvelopeLayout::new("code", "message", "payload");
    let body = r#"{"code":0,"payload":{"orderId":"abc","orderLinkId":""}}"#;
    let payload = decode_envelope(&layout, body).ok().expect("accepted");
    let order = decode_order_response(&payload).expect("order");
    assert_eq!(order.order_id, "abc");
    assert_eq!(order.order_link_id, "");
}

#[test]
fn deserialize_http_response_error() {
    let json_data = r#"{"retCode":10001,"retMsg":"Qty invalid","result":{},"retExtInfo":{},"time":1727663049561}"#;
    match bybit::finish_order(200, json_data) {
        Err(BybitError::ApiError(code, msg)) => {
            assert_eq!(code, 10001);
            assert_eq!(msg, "Qty invalid");
        }
        _ => panic!("expected an API error"),
    }
}

#[test]
fn deserialize_http_order_response() {
    let json_data = r#"{"retCode":0,"retMsg":"OK","result":{"orderId":"29c242ff-7da2-47d4-a243-ba6ff034005e","orderLinkId":""},"retExtInfo":{},"time":1727663866609}"#;
    let order = bybit::finish_order(200, json_data).ok().expect("accepted");
    assert_eq!(order.order_id, "29c242ff-7da2-47d4-a243-ba6ff034005e");
    assert_eq!(order.order_link_id, "");
}

#[test]
fn test_deserialize() {
    let res = r#"{
            "retCode": 0,
            "retMsg": "OK",
            "result": {
                "list": [
                    {
                        "orderId": "1616024329462743808",
                        "orderLinkId": "1616024329462743809"
                    },
                    {
                        "orderId": "1616024287544869632",
                        "orderLinkId": "1616024287544869633"
                    }
                ],
                "success": "1"
            },
            "retExtInfo": {},
            "time": 1707381118116
        }"#;
    let res = bybit::finish_cancel_all(200, res).ok().expect("accepted");
    assert_eq!(res.list.len(), 2);
    assert_eq!(res.list[0].order_id, "1616024329462743808");
    assert_eq!(res.list[1].order_link_id, "1616024287544869633");
}

#[test]
fn test_deserialize_get_positions_response() {
    let response = r#"{"category":"linear","list":[{"adlRankIndicator":2,"autoAddMargin":0,"avgPrice":"149.127428","bustPrice":"0.010","createdTime":"1715069854842","cumRealisedPnl":"-0.86731017","curRealisedPnl":"-1.36077531","isReduceOnly":false,"leverage":"10","leverageSysUpdatedTime":"","liqPrice":"","markPrice":"173.732","mmrSysUpdatedTime":"","positionBalance":"7.49328044","positionIM":"0.9916974","positionIdx":0,"positionMM":"0.0000325","positionStatus":"Normal","positionValue":"74.563714","riskId":281,"riskLimitValue":"210000","seq":155916379358,"sessionAvgPrice":"","side":"Buy","size":"0.5","stopLoss":"0.000","symbol":"SOLUSDT","takeProfit":"0.000","tpslMode":"Full","tradeMode":0,"trailingStop":"0.000","unrealisedPnl":"12.302286","updatedTime":"1730087396775"},{"adlRankIndicator":2,"autoAddMargin":0,"avgPrice":"1.3841","bustPrice":"15.22880","createdTime":"1724910435941","cumRealisedPnl":"-5.7101154","curRealisedPnl":"0.38234475","isReduceOnly":false,"leverage":"10","leverageSysUpdatedTime":"","liqPrice":"15.21490","markPrice":"1.69352","mmrSysUpdatedTime":"","positionBalance":"4.48667381","positionIM":"0.27682","positionIdx":0,"positionMM":"1.52288","positionStatus":"Normal","positionValue":"13.841","riskId":1,"riskLimitValue":"200000","seq":184120255016,"sessionAvgPrice":"","side":"Sell","size":"10","stopLoss":"0.00000","symbol":"SUIUSDT","takeProfit":"0.00000","tpslMode":"Full","tradeMode":0,"trailingStop":"0.00000","unrealisedPnl":"-3.0942","updatedTime":"1730087396775"},{"adlRankIndicator":2,"autoAddMargin":0,"avgPrice":"1.6729","bustPrice":"36.0273","createdTime":"1723618141587","cumRealisedPnl":"0.11741437","curRealisedPnl":"0.11741437","isReduceOnly":false,"leverage":"10","leverageSysUpdatedTime":"","liqPrice":"36.0161","markPrice":"2.3678","mmrSysUpdatedTime":"","positionBalance":"3.45280842","positionIM":"0.08899828","positionIdx":0,"positionMM":"0.96553164","positionStatus":"Normal","positionValue":"6.6916","riskId":1,"riskLimitValue":"100000","seq":135593215329,"sessionAvgPrice":"","side":"Sell","size":"4","stopLoss":"0.0000","symbol":"WIFUSDT","takeProfit":"0.0000","tpslMode":"Full","tradeMode":0,"trailingStop":"0.0000","unrealisedPnl":"-2.7796","updatedTime":"1730087396775"},{"adlRankIndicator":4,"autoAddMargin":0,"avgPrice":"0.116144","bustPrice":"0.439317","createdTime":"1723618019735","cumRealisedPnl":"0.30966853","curRealisedPnl":"0.30966853","isReduceOnly":false,"leverage":"10","leverageSysUpdatedTime":"","liqPrice":"0.434671","markPrice":"0.063599","mmrSysUpdatedTime":"","positionBalance":"5.02440687","positionIM":"3.9953536","positionIdx":0,"positionMM":"7.5562524","positionStatus":"Normal","positionValue":"49.94192","riskId":1,"riskLimitValue":"25000","seq":30747967432,"sessionAvgPrice":"","side":"Sell","size":"430","stopLoss":"0.000000","symbol":"MOTHERUSDT","takeProfit":"0.000000","tpslMode":"Full","tradeMode":0,"trailingStop":"0.000000","unrealisedPnl":"22.59435","updatedTime":"1730082173992"}],"nextPageCursor":""}"#;
    let doc = parse_value(response).ok().expect("JSON");
    let res = decode_get_position_response(&doc).expect("positions");
    assert_eq!(res.category, "linear");
    assert_eq!(res.list.len(), 4);
    assert_eq!(res.list[0].symbol, "SOLUSDT");
    assert_eq!(res.list[0].side, BybitSide::Buy);
    assert_eq!(res.list[1].side, BybitSide::Sell);
    assert_eq!(res.list[3].position_im, "3.9953536");
    assert_eq!(res.next_page_cursor, "");
}

#[test]
fn test_deserialize_get_account_info() {
    let response = "{\"marginMode\":\"REGULAR_MARGIN\",\"updatedTime\":\"0\",\"unifiedMarginStatus\":1,\"dcpStatus\":\"OFF\",\"timeWindow\":0,\"smpGroup\":0,\"isMasterTrader\":false,\"spotHedgingStatus\":\"OFF\"}";
    let doc = parse_value(response).ok().expect("JSON");
    let res = decode_bybit_account_info(&doc).expect("account info");
    assert_eq!(res.unified_margin_status, 1);
    assert_eq!(res.margin_mode, "REGULAR_MARGIN");
    assert!(!res.is_master_trader);
    assert_eq!(res.spot_hedging_status, "OFF");
    assert_eq!(res.updated_time, "0");
}

#[test]
fn malformed_body_keeps_raw_text_and_cause() {
    match finish_bybit(200, "not json") {
        Err(BybitError::DeserializeError(m)) => assert!(m.starts_with("not json: ")),
        _ => panic!("expected a deserialize error"),
    }
    match finish_bybit(200, r#"{"retMsg":"OK"}"#) {
        Err(BybitError::DeserializeError(m)) => assert!(m.starts_with("{\"retMsg\":\"OK\"}: ")),
        _ => panic!("expected a deserialize error"),
    }
    assert!(matches!(
        finish_bybit(200, r#"{"retCode":10001,"result":{}}"#),
        Err(BybitError::DeserializeError(_))
    ));
}

#[test]
fn failing_status_with_non_json_body_is_a_transport_error() {
    match finish_bybit(502, "Bad Gateway") {
        Err(BybitError::Unknown(d)) => assert_eq!(d, "HTTP 502: Bad Gateway"),
        _ => panic!("expected a transport error"),
    }
    match binance::finish_server_time(504, "") {
        Err(BinanceError::Unknown(d)) => assert_eq!(d, "HTTP 504: "),
        _ => panic!("expected a transport error"),
    }
}

#[test]
fn payload_of_the_wrong_shape_is_a_deserialize_error() {
    let body = r#"{"retCode":0,"retMsg":"OK","result":{"orderId":5}}"#;
    assert!(matches!(bybit::finish_order(200, body), Err(BybitError::DeserializeError(_))));
}

#[test]
fn binance_rejection_and_direct_decoding() {
    let body = r#"{"code":-1121,"msg":"Invalid symbol."}"#;
    match binance::finish_order_book(400, body) {
        Err(e) => {
            assert!(matches!(e, BinanceError::ApiError(-1121, _)));
            assert_eq!(e.describe(), "code -1121: Invalid symbol.");
        }
        _ => panic!("expected an API error"),
    }
    let t = binance::finish_server_time(200, r#"{"serverTime":1700000000123}"#).ok().expect("time");
    assert_eq!(t.server_time, 1700000000123);
    match binance::finish_server_time(200, r#"{"serverTime":"soon"}"#) {
        Err(BinanceError::DeserializeError(m)) => assert!(m.starts_with("{\"serverTime\":\"soon\"}: ")),
        _ => panic!("expected a deserialize error"),
    }
}

#[test]
fn bybit_api_error_description() {
    let e = BybitError::ApiError(10001, "params error: symbol invalid".to_string());
    assert_eq!(e.describe(), "code 10001: params error: symbol invalid");
}

#[test]
fn test_deserialize_get_wallet_balance() {
    let response = "{\"list\":[{\"totalEquity\":\"233057.94428155\",\"accountIMRate\":\"0.5492\",\"totalMarginBalance\":\"227393.49283372\",\"totalInitialMargin\":\"124896.73199212\",\"accountType\":\"UNIFIED\",\"totalAvailableBalance\":\"102496.7608416\",\"accountMMRate\":\"0.4201\",\"totalPerpUPL\":\"-54464.69617576\",\"totalWalletBalance\":\"281858.18900948\",\"accountLTV\":\"0.1807\",\"totalMaintenanceMargin\":\"95534.19984428\",\"coin\":[{\"availableToBorrow\":\"\",\"bonus\":\"0\",\"accruedInterest\":\"0\",\"availableToWithdraw\":\"0.99961\",\"totalOrderIM\":\"\",\"equity\":\"0.99961\",\"totalPositionMM\":\"\",\"usdValue\":\"0.9996\",\"unrealisedPnl\":\"0\",\"collateralSwitch\":true,\"spotHedgingQty\":\"0\",\"borrowAmount\":\"0.000000000000000000\",\"totalPositionIM\":\"\",\"walletBalance\":\"0.99961\",\"cumRealisedPnl\":\"0\",\"locked\":\"0\",\"marginCollateral\":true,\"coin\":\"USDC\"},{\"availableToBorrow\":\"\",\"bonus\":\"0\",\"accruedInterest\":\"0\",\"availableToWithdraw\":\"1.04517272\",\"totalOrderIM\":\"\",\"equity\":\"2.83028992\",\"totalPositionMM\":\"\",\"usdValue\":\"283221.95954498\",\"unrealisedPnl\":\"0\",\"collateralSwitch\":true,\"spotHedgingQty\":\"0\",\"borrowAmount\":\"0.000000000000000000\",\"totalPositionIM\":\"\",\"walletBalance\":\"2.83028992\",\"cumRealisedPnl\":\"-0.00000008\",\"locked\":\"0\",\"marginCollateral\":true,\"coin\":\"BTC\"},{\"availableToBorrow\":\"\",\"bonus\":\"0\",\"accruedInterest\":\"1.91429833\",\"availableToWithdraw\":\"0\",\"totalOrderIM\":\"\",\"equity\":\"-50119.76896898\",\"totalPositionMM\":\"\",\"usdValue\":\"-50165.02712036\",\"unrealisedPnl\":\"-54415.55892605\",\"collateralSwitch\":true,\"spotHedgingQty\":\"0\",\"borrowAmount\":\"50119.768968985806327169\",\"totalPositionIM\":\"\",\"walletBalance\":\"4295.78995706\",\"cumRealisedPnl\":\"-221545.17712055\",\"locked\":\"0\",\"marginCollateral\":true,\"coin\":\"USDT\"},{\"availableToBorrow\":\"\",\"bonus\":\"0\",\"accruedInterest\":\"0\",\"availableToWithdraw\":\"0.008\",\"totalOrderIM\":\"\",\"equity\":\"0.008\",\"totalPositionMM\":\"\",\"usdValue\":\"0.01223879\",\"unrealisedPnl\":\"0\",\"collateralSwitch\":false,\"spotHedgingQty\":\"0\",\"borrowAmount\":\"0.000000000000000000\",\"totalPositionIM\":\"\",\"walletBalance\":\"0.008\",\"cumRealisedPnl\":\"0\",\"locked\":\"0\",\"marginCollateral\":true,\"coin\":\"POPCAT\"},{\"availableToBorrow\":\"\",\"bonus\":\"0\",\"accruedInterest\":\"0\",\"availableToWithdraw\":\"0.00129138\",\"totalOrderIM\":\"\",\"equity\":\"0.00129138\",\"totalPositionMM\":\"\",\"usdValue\":\"0.00001813\",\"unrealisedPnl\":\"0\",\"collateralSwitch\":false,\"spotHedgingQty\":\"0\",\"borrowAmount\":\"0.000000000000000000\",\"totalPositionIM\":\"\",\"walletBalance\":\"0.00129138\",\"cumRealisedPnl\":\"0\",\"locked\":\"0\",\"marginCollateral\":true,\"coin\":\"BLAST\"}]}]}";
    let doc = parse_value(response).ok().expect("JSON");
    let res = cefi::bybit_types::decode_get_wallet_balance_response(&doc).expect("balance");
    assert_eq!(res.list.len(), 1);
    assert_eq!(res.list[0].account_type, "UNIFIED");
    assert_eq!(res.list[0].total_perp_upl, "-54464.69617576");
    assert_eq!(res.list[0].coin.len(), 5);
    assert_eq!(res.list[0].coin[2].coin, "USDT");
    assert_eq!(res.list[0].coin[2].unrealised_pnl.as_deref(), Some("-54415.55892605"));
    assert!(!res.list[0].coin[4].collateral_switch);

    let body = format!("{{\"retCode\":0,\"retMsg\":\"OK\",\"result\":{}}}", response);
    let res = bybit::finish_wallet_balance(200, &body).ok().expect("balance");
    assert_eq!(res.list[0].coin[0].bonus.as_deref(), Some("0"));
}

#[test]
fn optional_text_members_may_be_absent_or_null() {
    let coin = r#"{"coin":"BTC","equity":"1","usdValue":"1","walletBalance":"1","locked":"0","spotHedgingQty":"0","borrowAmount":"0","availableToWithdraw":"1","accruedInterest":"0","totalOrderIM":"","totalPositionIM":"","totalPositionMM":"","unrealisedPnl":null,"marginCollateral":true,"collateralSwitch":false}"#;
    let doc = parse_value(coin).ok().expect("JSON");
    let c = cefi::bybit_types::decode_wallet_balance_coin(&doc).expect("coin");
    assert!(c.unrealised_pnl.is_none());
    assert!(c.bonus.is_none());
    let bad = coin.replace("\"unrealisedPnl\":null", "\"unrealisedPnl\":5");
    let doc = parse_value(&bad).ok().expect("JSON");
    assert!(cefi::bybit_types::decode_wallet_balance_coin(&doc).is_none());
}

#[test]
fn instruments_and_exchange_info_are_decoded() {
    let body = r#"{"retCode":0,"retMsg":"OK","result":{"category":"linear","list":[{"symbol":"BTCUSDT","contractType":"LinearPerpetual","status":"Trading","baseCoin":"BTC","quoteCoin":"USDT","launchTime":"1585526400000","deliveryTime":"0","deliveryFeeRate":"","priceScale":"2","leverageFilter":{"minLeverage":"1","maxLeverage":"100.00","leverageStep":"0.01"},"priceFilter":{"minPrice":"0.10","maxPrice":"199999.80","tickSize":"0.10"},"lotSizeFilter":{"maxOrderQty":"1190.000","minOrderQty":"0.001","qtyStep":"0.001","postOnlyMaxOrderQty":"1190.000","maxMktOrderQty":"500.000","minNotionalValue":"5"},"unifiedMarginTrade":true,"fundingInterval":480,"settleCoin":"USDT","copyTrading":"both","upperFundingRate":"0.00375","lowerFundingRate":"-0.00375","isPreListing":false,"preListingInfo":null,"riskParameters":{"priceLimitRatioX":"0.01","priceLimitRatioY":"0.02"}}],"nextPageCursor":""},"retExtInfo":{},"time":1707186451514}"#;
    let info = bybit::finish_instruments_info(200, body).ok().expect("instruments");
    assert_eq!(info.list.len(), 1);
    assert_eq!(info.list[0].funding_interval, 480);
    assert_eq!(info.list[0].lot_size_filter.qty_step, "0.001");
    assert!(info.list[0].pre_listing_info.is_none());
    assert_eq!(info.list[0].risk_parameters.price_limit_ratio_y, "0.02");

    let body = r#"{"timezone":"UTC","rateLimits":[{"interval":"MINUTE","intervalNum":1,"limit":2400,"rateLimitType":"REQUEST_WEIGHT"}],"assets":[{"asset":"USDT","marginAvailable":true,"autoAssetExchange":"-10000"},{"asset":"BTC","marginAvailable":true,"autoAssetExchange":null}],"symbols":[{"symbol":"BTCUSDT","pair":"BTCUSDT","contractType":"PERPETUAL","deliveryDate":4133404800000,"onboardDate":1569398400000,"status":"TRADING","baseAsset":"BTC","quoteAsset":"USDT","marginAsset":"USDT","pricePrecision":2,"quantityPrecision":3,"baseAssetPrecision":8,"quotePrecision":8,"underlyingType":"COIN","underlyingSubType":["PoW"],"settlePlan":0,"triggerProtect":"0.0500","timeInForce":["GTC","IOC"],"liquidationFee":"0.012500","marketTakeBound":"0.05","filters":[]}]}"#;
    let info = binance::finish_exchange_info(200, body).ok().expect("exchange info");
    assert_eq!(info.timezone, "UTC");
    assert_eq!(info.rate_limits[0].limit, 2400);
    assert_eq!(info.assets[0].auto_asset_exchange.as_deref(), Some("-10000"));
    assert!(info.assets[1].auto_asset_exchange.is_none());
    assert_eq!(info.symbols[0].underlying_sub_type, vec!["PoW".to_string()]);
    assert_eq!(info.symbols[0].settle_plan, Some(0));
    assert!(info.symbols[0].order_types.is_none());
    assert_eq!(info.symbols[0].delivery_date, 4133404800000);
}

#[test]
fn wrong_payload_shape_keeps_the_body_and_the_payload() {
    let body = r#"{"retCode":0,"retMsg":"OK","result":{"orderId":5}}"#;
    match bybit::finish_order(200, body) {
        Err(BybitError::DeserializeError(m)) => {
            assert!(m.starts_with(&format!("{body}: ")));
            assert!(m.ends_with("{\"orderId\":5}"));
        }
        _ => panic!("expected a deserialize error"),
    }
}
