//! Bybit's operations: the request of each, and the decoding of its response.
use vstd::prelude::*;
use crate::bybit_market::{
    decode_instruments_info_response, decode_orderbook, decode_server_time,
    instruments_info_response_of, instruments_info_response_shape, orderbook_of, orderbook_shape,
    server_time_of, server_time_shape, InstrumentsInfoResponse, OrderbookResponse,
    ServerTimeResponse,
};
use crate::bybit_types::{
    bybit_account_info_of, bybit_account_info_shape, decode_bybit_account_info,
    decode_cancel_all_orders_response, decode_get_order_response, decode_get_position_response,
    decode_get_tickers_response, decode_get_wallet_balance_response, decode_order_response,
    get_order_response_of, get_wallet_balance_response_of, get_wallet_balance_response_shape,
    get_order_response_shape, get_position_response_of, get_position_response_shape,
    get_tickers_response_of, get_tickers_response_shape, order_response_list_of,
    order_response_list_shape, order_response_of, order_response_shape, BybitAccountInfo,
    CancelAllOrdersResponse, GetOrderResponse, GetPositionResponse, GetTickersResponse,
    GetWalletBalanceResponse, OrderResponse,
};
use crate::envelope::{
    bybit_outcome, finish_bybit, http_success, is_api_error, is_deserialize_error,
    transport_detail, Outcome,
};
use crate::errors::{raw_and_cause, reports_raw, BybitError};
use crate::json::{json_parse, member, value_text, Json};
use crate::rest::{is_get, is_post, BybitRest, HttpRequest};
use crate::sign::{ParamValue, ParamView, Params};

verus! {

/// `r` is what a Bybit response decodes to when its payload is read by a
/// decoder with the given shape and contents.
pub open spec fn bybit_result<T>(
    status: u16,
    body: Seq<char>,
    r: Result<T, BybitError>,
    shape: spec_fn(Json) -> bool,
    of: spec_fn(Json, T) -> bool,
) -> bool {
    if !http_success(status) && json_parse(body) is None {
        r matches Err(BybitError::Unknown(d)) && d@ == transport_detail(status, body)
    } else {
        match bybit_outcome(body) {
            Outcome::Malformed => r is Err && is_deserialize_error(r->Err_0, body),
            Outcome::Rejected(c, m) => r is Err && is_api_error(r->Err_0, c, m),
            Outcome::Accepted(p) => if shape(p) {
                r is Ok && of(p, r->Ok_0)
            } else {
                r is Err && is_deserialize_error(r->Err_0, body)
            },
        }
    }
}

/// Whatever decoder reads the payload, a body that the venue rejected
/// decodes to the venue's code and message.
pub proof fn lemma_rejection_for_any_payload<T>(
    status: u16,
    body: Seq<char>,
    r: Result<T, BybitError>,
    shape: spec_fn(Json) -> bool,
    of: spec_fn(Json, T) -> bool,
    code: i64,
    msg: Seq<char>,
)
    requires
        bybit_result(status, body, r, shape, of),
        bybit_outcome(body) == Outcome::Rejected(code, msg),
        http_success(status) || json_parse(body) is Some,
    ensures
        r matches Err(BybitError::ApiError(c, m)) && c == code && m@ == msg,
{
}

/// The failure of a payload of the wrong shape: the raw body, then the
/// payload that did not fit.
fn shape_error(body: &str, payload: &serde_json::Value) -> (r: BybitError)
    ensures
        r matches BybitError::DeserializeError(m) && reports_raw(m@, body@),
{
    let mut cause = "payload of unexpected shape ".to_owned();
    let raw = value_text(payload);
    cause.append(raw.as_str());
    BybitError::DeserializeError(raw_and_cause(body, cause.as_str()))
}

/// Decodes the response to a server time request.
pub fn finish_server_time(status: u16, body: &str) -> (r: Result<ServerTimeResponse, BybitError>)
    ensures
        bybit_result(status, body@, r, |j: Json| server_time_shape(j), |j: Json, x: ServerTimeResponse| server_time_of(j, x)),
{
    let payload = match finish_bybit(status, body) { Ok(p) => p, Err(e) => return Err(e) };
    match decode_server_time(&payload) { Some(x) => Ok(x), None => Err(shape_error(body, &payload)) }
}

/// Decodes the response to an instruments request.
pub fn finish_instruments_info(status: u16, body: &str) -> (r: Result<InstrumentsInfoResponse, BybitError>)
    ensures
        bybit_result(status, body@, r, |j: Json| instruments_info_response_shape(j),
            |j: Json, x: InstrumentsInfoResponse| instruments_info_response_of(j, x)),
{
    let payload = match finish_bybit(status, body) { Ok(p) => p, Err(e) => return Err(e) };
    match decode_instruments_info_response(&payload) { Some(x) => Ok(x), None => Err(shape_error(body, &payload)) }
}

/// Decodes the response to an order book request.
pub fn finish_orderbook(status: u16, body: &str) -> (r: Result<OrderbookResponse, BybitError>)
    ensures
        bybit_result(status, body@, r, |j: Json| orderbook_shape(j), |j: Json, x: OrderbookResponse| orderbook_of(j, x)),
{
    let payload = match finish_bybit(status, body) { Ok(p) => p, Err(e) => return Err(e) };
    match decode_orderbook(&payload) { Some(x) => Ok(x), None => Err(shape_error(body, &payload)) }
}

/// Decodes the response to placing, cancelling or amending an order.
pub fn finish_order(status: u16, body: &str) -> (r: Result<OrderResponse, BybitError>)
    ensures
        bybit_result(status, body@, r, |j: Json| order_response_shape(j), |j: Json, x: OrderResponse| order_response_of(j, x)),
{
    let payload = match finish_bybit(status, body) { Ok(p) => p, Err(e) => return Err(e) };
    match decode_order_response(&payload) { Some(x) => Ok(x), None => Err(shape_error(body, &payload)) }
}

/// The payload of a cancel-all response has a `list` of orders.
pub open spec fn cancel_all_shape(j: Json) -> bool {
    member(j, "list"@) is Some && order_response_list_shape(member(j, "list"@)->Some_0)
}

/// Decodes the response to cancelling all orders of a symbol.
pub fn finish_cancel_all(status: u16, body: &str) -> (r: Result<CancelAllOrdersResponse, BybitError>)
    ensures
        bybit_result(status, body@, r, |j: Json| cancel_all_shape(j),
            |j: Json, x: CancelAllOrdersResponse| order_response_list_of(member(j, "list"@)->Some_0, x.list@)),
{
    let payload = match finish_bybit(status, body) { Ok(p) => p, Err(e) => return Err(e) };
    match decode_cancel_all_orders_response(&payload) { Some(x) => Ok(x), None => Err(shape_error(body, &payload)) }
}

/// Decodes the response to an open orders request.
pub fn finish_open_orders(status: u16, body: &str) -> (r: Result<GetOrderResponse, BybitError>)
    ensures
        bybit_result(status, body@, r, |j: Json| get_order_response_shape(j), |j: Json, x: GetOrderResponse| get_order_response_of(j, x)),
{
    let payload = match finish_bybit(status, body) { Ok(p) => p, Err(e) => return Err(e) };
    match decode_get_order_response(&payload) { Some(x) => Ok(x), None => Err(shape_error(body, &payload)) }
}

/// Decodes the response to a positions request.
pub fn finish_positions(status: u16, body: &str) -> (r: Result<GetPositionResponse, BybitError>)
    ensures
        bybit_result(status, body@, r, |j: Json| get_position_response_shape(j), |j: Json, x: GetPositionResponse| get_position_response_of(j, x)),
{
    let payload = match finish_bybit(status, body) { Ok(p) => p, Err(e) => return Err(e) };
    match decode_get_position_response(&payload) { Some(x) => Ok(x), None => Err(shape_error(body, &payload)) }
}

/// Decodes the response to a tickers request.
pub fn finish_tickers(status: u16, body: &str) -> (r: Result<GetTickersResponse, BybitError>)
    ensures
        bybit_result(status, body@, r, |j: Json| get_tickers_response_shape(j), |j: Json, x: GetTickersResponse| get_tickers_response_of(j, x)),
{
    let payload = match finish_bybit(status, body) { Ok(p) => p, Err(e) => return Err(e) };
    match decode_get_tickers_response(&payload) { Some(x) => Ok(x), None => Err(shape_error(body, &payload)) }
}

/// Decodes the response to an account information request.
pub fn finish_account_info(status: u16, body: &str) -> (r: Result<BybitAccountInfo, BybitError>)
    ensures
        bybit_result(status, body@, r, |j: Json| bybit_account_info_shape(j), |j: Json, x: BybitAccountInfo| bybit_account_info_of(j, x)),
{
    let payload = match finish_bybit(status, body) { Ok(p) => p, Err(e) => return Err(e) };
    match decode_bybit_account_info(&payload) { Some(x) => Ok(x), None => Err(shape_error(body, &payload)) }
}

/// Decodes the response to a wallet balance request.
pub fn finish_wallet_balance(status: u16, body: &str) -> (r: Result<GetWalletBalanceResponse, BybitError>)
    ensures
        bybit_result(status, body@, r, |j: Json| get_wallet_balance_response_shape(j),
            |j: Json, x: GetWalletBalanceResponse| get_wallet_balance_response_of(j, x)),
{
    let payload = match finish_bybit(status, body) { Ok(p) => p, Err(e) => return Err(e) };
    match decode_get_wallet_balance_response(&payload) { Some(x) => Ok(x), None => Err(shape_error(body, &payload)) }
}

/// A text parameter.
pub open spec fn txt(s: Seq<char>) -> ParamView {
    ParamView::Text(s)
}

impl BybitRest {
    /// `GET v5/market/time`, unsigned.
    pub fn server_time_request(&self) -> (r: HttpRequest)
        ensures
            is_get(self, "v5/market/time"@, seq![], None, &r),
    {
        let p = Params::new();
        assert(p@ =~= seq![]);
        self.get_request("v5/market/time", &p, None)
    }

    /// `GET v5/market/instruments-info?category=..`, unsigned.
    pub fn instruments_info_request(&self, category: &str) -> (r: HttpRequest)
        ensures
            is_get(self, "v5/market/instruments-info"@, seq![("category"@, txt(category@))], None, &r),
    {
        let mut p = Params::new();
        p.insert("category", ParamValue::Text(category.to_owned()));
        assert(p@ =~= seq![("category"@, txt(category@))]);
        self.get_request("v5/market/instruments-info", &p, None)
    }

    /// `GET v5/market/orderbook` with category, symbol and depth, unsigned.
    pub fn orderbook_request(&self, category: &str, symbol: &str, limit: i32) -> (r: HttpRequest)
        ensures
            is_get(self, "v5/market/orderbook"@, seq![
                ("category"@, txt(category@)),
                ("symbol"@, txt(symbol@)),
                ("limit"@, ParamView::Int(limit as int)),
            ], None, &r),
    {
        proof {
            reveal_strlit("category");
            reveal_strlit("symbol");
            reveal_strlit("limit");
            assert("category"@.len() == 8);
            assert("symbol"@.len() == 6);
            assert("limit"@.len() == 5);
        }
        let mut p = Params::new();
        p.insert("category", ParamValue::Text(category.to_owned()));
        p.insert("symbol", ParamValue::Text(symbol.to_owned()));
        p.insert("limit", ParamValue::Int(limit as i64));
        assert(p@ =~= seq![
            ("category"@, txt(category@)),
            ("symbol"@, txt(symbol@)),
            ("limit"@, ParamView::Int(limit as int)),
        ]);
        self.get_request("v5/market/orderbook", &p, None)
    }

    /// `GET v5/market/tickers?category=linear`, unsigned.
    pub fn tickers_request(&self) -> (r: HttpRequest)
        ensures
            is_get(self, "v5/market/tickers"@, seq![("category"@, txt("linear"@))], None, &r),
    {
        let mut p = Params::new();
        p.insert("category", ParamValue::Text("linear".to_owned()));
        assert(p@ =~= seq![("category"@, txt("linear"@))]);
        self.get_request("v5/market/tickers", &p, None)
    }

    /// `GET v5/position/list` of linear USDT positions, signed at `ts`.
    pub fn positions_request(&self, ts: u64) -> (r: HttpRequest)
        ensures
            is_get(self, "v5/position/list"@, seq![
                ("category"@, txt("linear"@)),
                ("settleCoin"@, txt("USDT"@)),
                ("limit"@, ParamView::Int(200)),
            ], Some(ts), &r),
    {
        proof {
            reveal_strlit("category");
            reveal_strlit("settleCoin");
            reveal_strlit("limit");
            assert("category"@.len() == 8);
            assert("settleCoin"@.len() == 10);
            assert("limit"@.len() == 5);
        }
        let mut p = Params::new();
        p.insert("category", ParamValue::Text("linear".to_owned()));
        p.insert("settleCoin", ParamValue::Text("USDT".to_owned()));
        p.insert("limit", ParamValue::Int(200));
        assert(p@ =~= seq![
            ("category"@, txt("linear"@)),
            ("settleCoin"@, txt("USDT"@)),
            ("limit"@, ParamView::Int(200)),
        ]);
        self.get_request("v5/position/list", &p, Some(ts))
    }

    /// `GET v5/account/wallet-balance?accountType=UNIFIED`, signed at `ts`.
    pub fn wallet_balance_request(&self, ts: u64) -> (r: HttpRequest)
        ensures
            is_get(self, "v5/account/wallet-balance"@, seq![("accountType"@, txt("UNIFIED"@))], Some(ts), &r),
    {
        let mut p = Params::new();
        p.insert("accountType", ParamValue::Text("UNIFIED".to_owned()));
        assert(p@ =~= seq![("accountType"@, txt("UNIFIED"@))]);
        self.get_request("v5/account/wallet-balance", &p, Some(ts))
    }

    /// `GET v5/account/info`, signed at `ts`.
    pub fn account_info_request(&self, ts: u64) -> (r: HttpRequest)
        ensures
            is_get(self, "v5/account/info"@, seq![], Some(ts), &r),
    {
        let p = Params::new();
        assert(p@ =~= seq![]);
        self.get_request("v5/account/info", &p, Some(ts))
    }

    /// `GET v5/order/realtime`: the open linear USDT orders of a symbol,
    /// or the one with the given client order id; signed at `ts`.
    pub fn open_order_request(&self, symbol: &str, cloid: Option<&str>, ts: u64) -> (r: HttpRequest)
        ensures
            cloid is None ==> is_get(self, "v5/order/realtime"@, seq![
                ("category"@, txt("linear"@)),
                ("symbol"@, txt(symbol@)),
                ("settleCoin"@, txt("USDT"@)),
            ], Some(ts), &r),
            cloid is Some ==> is_get(self, "v5/order/realtime"@, seq![
                ("category"@, txt("linear"@)),
                ("symbol"@, txt(symbol@)),
                ("settleCoin"@, txt("USDT"@)),
                ("orderLinkId"@, txt(cloid->Some_0@)),
            ], Some(ts), &r),
    {
        proof {
            reveal_strlit("category"); reveal_strlit("symbol");
            reveal_strlit("settleCoin"); reveal_strlit("orderLinkId");
            assert("category"@.len() == 8);
            assert("symbol"@.len() == 6);
            assert("settleCoin"@.len() == 10);
            assert("orderLinkId"@.len() == 11);
        }
        let mut p = Params::new();
        p.insert("category", ParamValue::Text("linear".to_owned()));
        p.insert("symbol", ParamValue::Text(symbol.to_owned()));
        p.insert("settleCoin", ParamValue::Text("USDT".to_owned()));
        match cloid {
            Some(c) => {
                p.insert("orderLinkId", ParamValue::Text(c.to_owned()));
                assert(p@ =~= seq![
            ("category"@, txt("linear"@)),
            ("symbol"@, txt(symbol@)),
            ("settleCoin"@, txt("USDT"@)),
            ("orderLinkId"@, txt(c@)),
        ]);
            },
            None => {
                assert(p@ =~= seq![
            ("category"@, txt("linear"@)),
            ("symbol"@, txt(symbol@)),
            ("settleCoin"@, txt("USDT"@)),
        ]);
            },
        }
        self.get_request("v5/order/realtime", &p, Some(ts))
    }

    /// `POST v5/order/create`: a good-till-cancelled linear limit order in
    /// one-way mode, signed at `ts`.
    pub fn place_order_request(&self, cloid: &str, symbol: &str, side: &str, price: &str, qty: &str, ts: u64) -> (r: HttpRequest)
        ensures
            is_post(self, "v5/order/create"@, seq![
                ("orderLinkId"@, txt(cloid@)),
                ("category"@, txt("linear"@)),
                ("symbol"@, txt(symbol@)),
                ("side"@, txt(side@)),
                ("positionIdx"@, ParamView::Int(0)),
                ("orderType"@, txt("Limit"@)),
                ("qty"@, txt(qty@)),
                ("price"@, txt(price@)),
                ("timeInForce"@, txt("GTC"@)),
            ], ts, &r),
    {
        proof {
            reveal_strlit("orderLinkId"); reveal_strlit("category"); reveal_strlit("symbol");
            reveal_strlit("side"); reveal_strlit("positionIdx"); reveal_strlit("orderType");
            reveal_strlit("qty"); reveal_strlit("price"); reveal_strlit("timeInForce");
            assert("orderLinkId"@.len() == 11);
            assert("category"@.len() == 8);
            assert("symbol"@.len() == 6);
            assert("side"@.len() == 4);
            assert("positionIdx"@.len() == 11);
            assert("orderType"@.len() == 9);
            assert("qty"@.len() == 3);
            assert("price"@.len() == 5);
            assert("timeInForce"@.len() == 11);
            assert("orderLinkId"@[0] == 'o');
            assert("positionIdx"@[0] == 'p');
            assert("timeInForce"@[0] == 't');
        }
        let mut p = Params::new();
        p.insert("orderLinkId", ParamValue::Text(cloid.to_owned()));
        p.insert("category", ParamValue::Text("linear".to_owned()));
        p.insert("symbol", ParamValue::Text(symbol.to_owned()));
        p.insert("side", ParamValue::Text(side.to_owned()));
        p.insert("positionIdx", ParamValue::Int(0));
        p.insert("orderType", ParamValue::Text("Limit".to_owned()));
        p.insert("qty", ParamValue::Text(qty.to_owned()));
        p.insert("price", ParamValue::Text(price.to_owned()));
        p.insert("timeInForce", ParamValue::Text("GTC".to_owned()));
        assert(p@ =~= seq![
            ("orderLinkId"@, txt(cloid@)),
            ("category"@, txt("linear"@)),
            ("symbol"@, txt(symbol@)),
            ("side"@, txt(side@)),
            ("positionIdx"@, ParamView::Int(0)),
            ("orderType"@, txt("Limit"@)),
            ("qty"@, txt(qty@)),
            ("price"@, txt(price@)),
            ("timeInForce"@, txt("GTC"@)),
        ]);
        self.post_request("v5/order/create", &p, ts)
    }

    /// `POST v5/order/cancel` of a linear order by client order id, signed at `ts`.
    pub fn cancel_order_request(&self, symbol: &str, cloid: &str, ts: u64) -> (r: HttpRequest)
        ensures
            is_post(self, "v5/order/cancel"@, seq![
                ("category"@, txt("linear"@)),
                ("symbol"@, txt(symbol@)),
                ("orderLinkId"@, txt(cloid@)),
            ], ts, &r),
    {
        proof {
            reveal_strlit("category");
            reveal_strlit("symbol");
            reveal_strlit("orderLinkId");
            assert("category"@.len() == 8);
            assert("symbol"@.len() == 6);
            assert("orderLinkId"@.len() == 11);
        }
        let mut p = Params::new();
        p.insert("category", ParamValue::Text("linear".to_owned()));
        p.insert("symbol", ParamValue::Text(symbol.to_owned()));
        p.insert("orderLinkId", ParamValue::Text(cloid.to_owned()));
        assert(p@ =~= seq![
            ("category"@, txt("linear"@)),
            ("symbol"@, txt(symbol@)),
            ("orderLinkId"@, txt(cloid@)),
        ]);
        self.post_request("v5/order/cancel", &p, ts)
    }

    /// `POST v5/order/cancel-all` of a linear symbol, signed at `ts`.
    pub fn cancel_all_orders_request(&self, symbol: &str, ts: u64) -> (r: HttpRequest)
        ensures
            is_post(self, "v5/order/cancel-all"@, seq![
                ("category"@, txt("linear"@)),
                ("symbol"@, txt(symbol@)),
            ], ts, &r),
    {
        proof {
            reveal_strlit("category");
            reveal_strlit("symbol");
            assert("category"@.len() == 8);
            assert("symbol"@.len() == 6);
        }
        let mut p = Params::new();
        p.insert("category", ParamValue::Text("linear".to_owned()));
        p.insert("symbol", ParamValue::Text(symbol.to_owned()));
        assert(p@ =~= seq![
            ("category"@, txt("linear"@)),
            ("symbol"@, txt(symbol@)),
        ]);
        self.post_request("v5/order/cancel-all", &p, ts)
    }

    /// `POST v5/order/amend`: a new price for a linear order, signed at `ts`.
    pub fn amend_order_request(&self, symbol: &str, cloid: &str, price: &str, ts: u64) -> (r: HttpRequest)
        ensures
            is_post(self, "v5/order/amend"@, seq![
                ("category"@, txt("linear"@)),
                ("orderLinkId"@, txt(cloid@)),
                ("symbol"@, txt(symbol@)),
                ("price"@, txt(price@)),
            ], ts, &r),
    {
        proof {
            reveal_strlit("category");
            reveal_strlit("orderLinkId");
            reveal_strlit("symbol");
            reveal_strlit("price");
            assert("category"@.len() == 8);
            assert("orderLinkId"@.len() == 11);
            assert("symbol"@.len() == 6);
            assert("price"@.len() == 5);
        }
        let mut p = Params::new();
        p.insert("category", ParamValue::Text("linear".to_owned()));
        p.insert("orderLinkId", ParamValue::Text(cloid.to_owned()));
        p.insert("symbol", ParamValue::Text(symbol.to_owned()));
        p.insert("price", ParamValue::Text(price.to_owned()));
        assert(p@ =~= seq![
            ("category"@, txt("linear"@)),
            ("orderLinkId"@, txt(cloid@)),
            ("symbol"@, txt(symbol@)),
            ("price"@, txt(price@)),
        ]);
        self.post_request("v5/order/amend", &p, ts)
    }
}

} // verus!
