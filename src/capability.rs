//! One interface over every venue: each operation is a request to send and
//! a decoding of what came back, with the venue chosen from a closed set.
use vstd::prelude::*;
use crate::binance::{self, depth_of, is_rejection, order_book_shape};
use crate::bybit;
use crate::bybit_market::{orderbook_shape, server_time_shape};
use crate::decimal::{render_decimal, render_spec};
use crate::envelope::{bybit_outcome, http_success, is_api_error, is_deserialize_error, transport_detail, Outcome};
use crate::errors::{raw_and_cause, reports_raw, BinanceError, BybitError};
use crate::json::{int_member, json_parse, member, nat_member, str_member, Json};
use crate::levels::levels_of;
use crate::rest::{endpoint_url, is_get, is_post, BinanceRest, BybitRest, HttpMethod, HttpRequest};
use crate::sign::{canonical_query, ParamView};
use crate::trade::{CancelAllOrdersResponse, PlaceOrderParams, PlaceOrderResponse};
use crate::types::{all_parse, millis_of_nanos, nanos_text_to_millis, normalized, Orderbook};

verus! {

/// A venue the library can talk to.
pub enum Venue {
    Binance(BinanceRest),
    Bybit(BybitRest),
}

/// A failure of a capability operation.
pub enum VenueError {
    Binance(BinanceError),
    Bybit(BybitError),
    /// The venue offers no such operation here.
    Unsupported,
}

/// The order book depth asked of Bybit when none is given.
pub const BYBIT_DEFAULT_DEPTH: i32 = 10;

/// The depth asked of Bybit: `limit`, or the default when none is given.
pub open spec fn bybit_depth(limit: Option<i32>) -> int {
    match limit {
        Some(l) => l as int,
        None => BYBIT_DEFAULT_DEPTH as int,
    }
}

/// A Binance body that is JSON and no rejection.
pub open spec fn binance_payload(status: u16, body: Seq<char>) -> Option<Json> {
    match json_parse(body) {
        Some(j) => if http_success(status) || !is_rejection(j) { Some(j) } else { None },
        None => None,
    }
}

/// The payload of a Bybit body that the venue accepted.
pub open spec fn bybit_payload(status: u16, body: Seq<char>) -> Option<Json> {
    if !http_success(status) && json_parse(body) is None {
        None
    } else {
        match bybit_outcome(body) {
            Outcome::Accepted(p) => Some(p),
            _ => None,
        }
    }
}

/// The Bybit error that a response gives when it yields no value: a
/// transport failure, the venue's rejection with its code and message, or
/// a deserialization failure that keeps the raw body when the body itself
/// is malformed.
pub open spec fn bybit_failure(status: u16, body: Seq<char>, e: BybitError) -> bool {
    if !http_success(status) && json_parse(body) is None {
        e matches BybitError::Unknown(d) && d@ == transport_detail(status, body)
    } else {
        match bybit_outcome(body) {
            Outcome::Malformed => is_deserialize_error(e, body),
            Outcome::Rejected(c, m) => is_api_error(e, c, m),
            Outcome::Accepted(_) => e is DeserializeError,
        }
    }
}

/// The Binance error that a response gives when it yields no value: a
/// transport failure, the venue's rejection with its code and message, or
/// a deserialization failure.
pub open spec fn binance_failure(status: u16, body: Seq<char>, e: BinanceError) -> bool {
    match json_parse(body) {
        None => if !http_success(status) {
            e matches BinanceError::Unknown(d) && d@ == transport_detail(status, body)
        } else {
            e matches BinanceError::DeserializeError(m) && reports_raw(m@, body)
        },
        Some(j) => if !http_success(status) && is_rejection(j) {
            e matches BinanceError::ApiError(c, m)
                && Some(c) == int_member(j, "code"@) && Some(m@) == str_member(j, "msg"@)
        } else {
            e is DeserializeError
        },
    }
}

/// A failed `r` carries the venue's own error for this response.
pub open spec fn venue_failure<T>(binance: bool, status: u16, body: Seq<char>, r: Result<T, VenueError>) -> bool {
    r is Err ==> if binance {
        r->Err_0 is Binance && binance_failure(status, body, r->Err_0->Binance_0)
    } else {
        r->Err_0 is Bybit && bybit_failure(status, body, r->Err_0->Bybit_0)
    }
}

/// The server time in milliseconds that a venue's response gives.
pub open spec fn server_time_ms(binance: bool, status: u16, body: Seq<char>) -> Option<u64> {
    if binance {
        match binance_payload(status, body) {
            Some(j) => nat_member(j, "serverTime"@),
            None => None,
        }
    } else {
        match bybit_payload(status, body) {
            Some(p) => if server_time_shape(p) { millis_of_nanos(str_member(p, "timeNano"@)->Some_0) } else { None },
            None => None,
        }
    }
}

impl Venue {
    pub open spec fn is_binance(&self) -> bool {
        self is Binance
    }

    /// The request for the venue's clock.
    pub fn server_time_request(&self) -> (r: HttpRequest)
        ensures
            self matches Venue::Binance(b) ==> r.method == HttpMethod::Get && r.body is None
                && r.url@ == endpoint_url(b.host@, "fapi/v1/time"@) && r.headers@.len() == 0,
            self matches Venue::Bybit(b) ==> is_get(&b, "v5/market/time"@, seq![], None, &r),
    {
        match self {
            Venue::Binance(b) => b.server_time_request(),
            Venue::Bybit(b) => b.server_time_request(),
        }
    }

    /// The venue's clock in milliseconds from its response; Bybit's is given
    /// in nanoseconds and truncated.
    pub fn finish_server_time(&self, status: u16, body: &str) -> (r: Result<u64, VenueError>)
        ensures
            server_time_ms(self.is_binance(), status, body@) matches Some(ms) ==> r == Ok::<u64, VenueError>(ms),
            server_time_ms(self.is_binance(), status, body@) is None ==> r is Err,
            venue_failure(self.is_binance(), status, body@, r),
    {
        match self {
            Venue::Binance(_) => match binance::finish_server_time(status, body) {
                Ok(t) => Ok(t.server_time),
                Err(e) => Err(VenueError::Binance(e)),
            },
            Venue::Bybit(_) => match bybit::finish_server_time(status, body) {
                Ok(t) => match nanos_text_to_millis(t.time_nano.as_str()) {
                    Some(ms) => Ok(ms),
                    None => Err(VenueError::Bybit(BybitError::DeserializeError(
                        raw_and_cause(t.time_nano.as_str(), "not a whole number of nanoseconds"),
                    ))),
                },
                Err(e) => Err(VenueError::Bybit(e)),
            },
        }
    }

    /// The request for a symbol's order book, `limit` levels a side (the
    /// venue's default when none is given); Bybit's linear market is asked.
    pub fn orderbook_request(&self, symbol: &str, limit: Option<i32>) -> (r: HttpRequest)
        ensures
            self matches Venue::Binance(b) ==> r.method == HttpMethod::Get && r.body is None
                && r.headers@.len() == 0
                && r.url@ == endpoint_url(b.host@, "fapi/v1/depth"@) + "?"@ + canonical_query(seq![
                    ("symbol"@, ParamView::Text(symbol@)),
                    ("limit"@, ParamView::Int(depth_of(limit))),
                ]),
            self matches Venue::Bybit(b) ==> is_get(&b, "v5/market/orderbook"@, seq![
                ("category"@, ParamView::Text("linear"@)),
                ("symbol"@, ParamView::Text(symbol@)),
                ("limit"@, ParamView::Int(bybit_depth(limit))),
            ], None, &r),
    {
        match self {
            Venue::Binance(b) => b.orderbook_request(symbol, limit),
            Venue::Bybit(b) => {
                let depth: i32 = match limit { Some(l) => l, None => BYBIT_DEFAULT_DEPTH };
                assert(depth as int == bybit_depth(limit));
                b.orderbook_request("linear", symbol, depth)
            },
        }
    }

    /// The shared order book from the venue's response: Binance's timed by
    /// its event time, Bybit's by its `ts`.
    pub fn finish_orderbook(&self, symbol: &str, status: u16, body: &str) -> (r: Result<Orderbook, VenueError>)
        ensures
            self.is_binance() ==> (binance_payload(status, body@) matches Some(j) && order_book_shape(j)
                && all_parse(levels_of(member(j, "asks"@)->Some_0)->Some_0)
                && all_parse(levels_of(member(j, "bids"@)->Some_0)->Some_0)
                <==> r is Ok),
            self.is_binance() && r is Ok ==> normalized(r->Ok_0, symbol@,
                levels_of(member(json_parse(body@)->Some_0, "asks"@)->Some_0)->Some_0,
                levels_of(member(json_parse(body@)->Some_0, "bids"@)->Some_0)->Some_0,
                int_member(json_parse(body@)->Some_0, "E"@)->Some_0),
            !self.is_binance() ==> (bybit_payload(status, body@) matches Some(p) && orderbook_shape(p)
                && all_parse(levels_of(member(p, "a"@)->Some_0)->Some_0)
                && all_parse(levels_of(member(p, "b"@)->Some_0)->Some_0)
                <==> r is Ok),
            venue_failure(self.is_binance(), status, body@, r),
            !self.is_binance() && r is Ok ==> normalized(r->Ok_0, symbol@,
                levels_of(member(bybit_payload(status, body@)->Some_0, "a"@)->Some_0)->Some_0,
                levels_of(member(bybit_payload(status, body@)->Some_0, "b"@)->Some_0)->Some_0,
                int_member(bybit_payload(status, body@)->Some_0, "ts"@)->Some_0),
    {
        match self {
            Venue::Binance(_) => match binance::finish_order_book(status, body) {
                Ok(ob) => match Orderbook::from_binance_orderbook(ob, symbol.to_owned()) {
                    Ok(x) => Ok(x),
                    Err(e) => Err(VenueError::Binance(e)),
                },
                Err(e) => Err(VenueError::Binance(e)),
            },
            Venue::Bybit(_) => match bybit::finish_orderbook(status, body) {
                Ok(ob) => match Orderbook::from_bybit_orderbook(ob, symbol.to_owned()) {
                    Ok(x) => Ok(x),
                    Err(e) => Err(VenueError::Bybit(e)),
                },
                Err(e) => Err(VenueError::Bybit(e)),
            },
        }
    }

    /// The request that places a limit order, signed at `ts`: on Bybit a
    /// linear good-till-cancelled order with prices written as decimals.
    /// Binance's adapter offers no order placement.
    pub fn place_order_request(&self, params: &PlaceOrderParams, client_order_id: &str, ts: u64) -> (r: Result<HttpRequest, VenueError>)
        ensures
            self.is_binance() <==> r matches Err(VenueError::Unsupported),
            self matches Venue::Bybit(b) ==> r is Ok && is_post(&b, "v5/order/create"@, seq![
                ("orderLinkId"@, ParamView::Text(client_order_id@)),
                ("category"@, ParamView::Text("linear"@)),
                ("symbol"@, ParamView::Text(params.symbol@)),
                ("side"@, ParamView::Text(if params.is_buy { "Buy"@ } else { "Sell"@ })),
                ("positionIdx"@, ParamView::Int(0)),
                ("orderType"@, ParamView::Text("Limit"@)),
                ("qty"@, ParamView::Text(render_spec(params.amount))),
                ("price"@, ParamView::Text(render_spec(params.price))),
                ("timeInForce"@, ParamView::Text("GTC"@)),
            ], ts, &r->Ok_0),
    {
        match self {
            Venue::Binance(_) => Err(VenueError::Unsupported),
            Venue::Bybit(b) => {
                let side = if params.is_buy { "Buy" } else { "Sell" };
                let price = render_decimal(params.price);
                let qty = render_decimal(params.amount);
                Ok(b.place_order_request(client_order_id, params.symbol.as_str(), side, price.as_str(), qty.as_str(), ts))
            },
        }
    }

    /// The identifiers of the placed order from the venue's response.
    pub fn finish_place_order(&self, status: u16, body: &str) -> (r: Result<PlaceOrderResponse, VenueError>)
        ensures
            self.is_binance() ==> r matches Err(VenueError::Unsupported),
            !self.is_binance() ==> ((bybit_payload(status, body@) matches Some(p)
                && str_member(p, "orderId"@) is Some && str_member(p, "orderLinkId"@) is Some) <==> r is Ok),
            !self.is_binance() && r is Ok ==>
                str_member(bybit_payload(status, body@)->Some_0, "orderId"@) == Some(r->Ok_0.order_id@)
                && str_member(bybit_payload(status, body@)->Some_0, "orderLinkId"@) == Some(r->Ok_0.order_link_id@),
            !self.is_binance() ==> venue_failure(false, status, body@, r),
    {
        match self {
            Venue::Binance(_) => Err(VenueError::Unsupported),
            Venue::Bybit(_) => match bybit::finish_order(status, body) {
                Ok(o) => Ok(PlaceOrderResponse { order_id: o.order_id, order_link_id: o.order_link_id }),
                Err(e) => Err(VenueError::Bybit(e)),
            },
        }
    }

    /// The request that cancels every order of a symbol, signed at `ts`.
    pub fn cancel_all_orders_request(&self, symbol: &str, ts: u64) -> (r: Result<HttpRequest, VenueError>)
        ensures
            self.is_binance() <==> r matches Err(VenueError::Unsupported),
            self matches Venue::Bybit(b) ==> r is Ok && is_post(&b, "v5/order/cancel-all"@, seq![
                ("category"@, ParamView::Text("linear"@)),
                ("symbol"@, ParamView::Text(symbol@)),
            ], ts, &r->Ok_0),
    {
        match self {
            Venue::Binance(_) => Err(VenueError::Unsupported),
            Venue::Bybit(b) => Ok(b.cancel_all_orders_request(symbol, ts)),
        }
    }

    /// Whether the venue accepted a cancel-all request.
    pub fn finish_cancel_all_orders(&self, status: u16, body: &str) -> (r: Result<CancelAllOrdersResponse, VenueError>)
        ensures
            self.is_binance() ==> r matches Err(VenueError::Unsupported),
            !self.is_binance() ==> ((bybit_payload(status, body@) matches Some(p) && bybit::cancel_all_shape(p)) <==> r is Ok),
            !self.is_binance() ==> venue_failure(false, status, body@, r),
    {
        match self {
            Venue::Binance(_) => Err(VenueError::Unsupported),
            Venue::Bybit(_) => match bybit::finish_cancel_all(status, body) {
                Ok(_) => Ok(CancelAllOrdersResponse {}),
                Err(e) => Err(VenueError::Bybit(e)),
            },
        }
    }
}

} // verus!
