//! Bybit's trading and account payloads.
use vstd::prelude::*;
use crate::json::{
    as_array, bool_member, bool_value_member, get_member, json_of, member,
    opt_text_member, opt_text_of, opt_text_shape,
    nat_member, str_member, text_member, u64_member, Json,
};

verus! {

/// The side of an order or a position; a flat position has the empty side.
#[derive(Clone, Copy, PartialEq, Eq, Structural, Debug)]
pub enum BybitSide {
    Buy,
    Sell,
    Flat,
}

/// The side that a text names: `Buy`, `Sell`, or the empty text.
pub open spec fn side_of(s: Seq<char>) -> Option<BybitSide> {
    if s == "Buy"@ {
        Some(BybitSide::Buy)
    } else if s == "Sell"@ {
        Some(BybitSide::Sell)
    } else if s == ""@ {
        Some(BybitSide::Flat)
    } else {
        None
    }
}

impl BybitSide {
    /// The side that a text names.
    pub fn from_text(s: &str) -> (r: Option<BybitSide>)
        ensures
            r == side_of(s@),
    {
        let t = s.to_owned();
        if t == "Buy".to_owned() {
            Some(BybitSide::Buy)
        } else if t == "Sell".to_owned() {
            Some(BybitSide::Sell)
        } else if t == "".to_owned() {
            Some(BybitSide::Flat)
        } else {
            None
        }
    }
}

/// The state of an order.
#[derive(Clone, Copy, PartialEq, Eq, Structural, Debug)]
pub enum BybitOrderStatus {
    New,
    PartiallyFilled,
    Untriggered,
    Rejected,
    PartiallyFilledCanceled,
    Filled,
    Cancelled,
    Triggered,
    Deactivated,
}

/// The status that a text names.
pub open spec fn status_of(s: Seq<char>) -> Option<BybitOrderStatus> {
    if s == "New"@ { Some(BybitOrderStatus::New) }
    else if s == "PartiallyFilled"@ { Some(BybitOrderStatus::PartiallyFilled) }
    else if s == "Untriggered"@ { Some(BybitOrderStatus::Untriggered) }
    else if s == "Rejected"@ { Some(BybitOrderStatus::Rejected) }
    else if s == "PartiallyFilledCanceled"@ { Some(BybitOrderStatus::PartiallyFilledCanceled) }
    else if s == "Filled"@ { Some(BybitOrderStatus::Filled) }
    else if s == "Cancelled"@ { Some(BybitOrderStatus::Cancelled) }
    else if s == "Triggered"@ { Some(BybitOrderStatus::Triggered) }
    else if s == "Deactivated"@ { Some(BybitOrderStatus::Deactivated) }
    else { None }
}

impl BybitOrderStatus {
    /// The status that a text names.
    pub fn from_text(s: &str) -> (r: Option<BybitOrderStatus>)
        ensures
            r == status_of(s@),
    {
        let t = s.to_owned();
        if t == "New".to_owned() { Some(BybitOrderStatus::New) }
        else if t == "PartiallyFilled".to_owned() { Some(BybitOrderStatus::PartiallyFilled) }
        else if t == "Untriggered".to_owned() { Some(BybitOrderStatus::Untriggered) }
        else if t == "Rejected".to_owned() { Some(BybitOrderStatus::Rejected) }
        else if t == "PartiallyFilledCanceled".to_owned() { Some(BybitOrderStatus::PartiallyFilledCanceled) }
        else if t == "Filled".to_owned() { Some(BybitOrderStatus::Filled) }
        else if t == "Cancelled".to_owned() { Some(BybitOrderStatus::Cancelled) }
        else if t == "Triggered".to_owned() { Some(BybitOrderStatus::Triggered) }
        else if t == "Deactivated".to_owned() { Some(BybitOrderStatus::Deactivated) }
        else { None }
    }
}

/// Bybit's response envelope.
pub struct BybitHttpResponse {
    pub ret_code: i64,
    pub ret_msg: String,
    pub result: serde_json::Value,
    pub ret_ext_info: serde_json::Value,
    pub time: Option<u64>,
}

/// The identifiers of an order that was placed, cancelled or amended.
pub struct OrderResponse {
    pub order_id: String,
    pub order_link_id: String,
}

/// The document has the members of OrderResponse.
pub open spec fn order_response_shape(j: Json) -> bool {
    str_member(j, "orderId"@) is Some
    && str_member(j, "orderLinkId"@) is Some
}

/// `r` holds what the document says.
pub open spec fn order_response_of(j: Json, r: OrderResponse) -> bool {
    str_member(j, "orderId"@) == Some(r.order_id@)
    && str_member(j, "orderLinkId"@) == Some(r.order_link_id@)
}

/// Reads OrderResponse from a document; members not listed are ignored.
pub fn decode_order_response(v: &serde_json::Value) -> (r: Option<OrderResponse>)
    ensures
        r is Some == order_response_shape(json_of(*v)),
        r is Some ==> order_response_of(json_of(*v), r->Some_0),
{
    let order_id = match text_member(v, "orderId") { Some(x) => x, None => return None };
    let order_link_id = match text_member(v, "orderLinkId") { Some(x) => x, None => return None };
    Some(OrderResponse { order_id, order_link_id })
}

/// The document is an array of OrderResponse documents.
pub open spec fn order_response_list_shape(j: Json) -> bool {
    j is Arr && forall|i: int| 0 <= i < j->Arr_0.len() ==> order_response_shape(#[trigger] j->Arr_0[i])
}

/// `r` holds the elements of the array, in order.
pub open spec fn order_response_list_of(j: Json, r: Seq<OrderResponse>) -> bool {
    j is Arr && j->Arr_0.len() == r.len()
        && forall|i: int| 0 <= i < r.len() ==> order_response_of(#[trigger] j->Arr_0[i], r[i])
}

/// Reads an array of OrderResponse, in order.
pub fn decode_order_response_list(v: &serde_json::Value) -> (r: Option<Vec<OrderResponse>>)
    ensures
        r is Some == order_response_list_shape(json_of(*v)),
        r is Some ==> order_response_list_of(json_of(*v), r->Some_0@),
{
    let items = match as_array(v) {
        Some(a) => a,
        None => return None,
    };
    let ghost xs = items@.map_values(|x: serde_json::Value| json_of(x));
    let mut out: Vec<OrderResponse> = Vec::new();
    let mut i: usize = 0;
    while i < items.len()
        invariant
            xs == items@.map_values(|x: serde_json::Value| json_of(x)),
            json_of(*v) == Json::Arr(xs),
            i <= items@.len(),
            out@.len() == i,
            forall|k: int| 0 <= k < i ==> order_response_shape(#[trigger] xs[k]),
            forall|k: int| 0 <= k < i ==> order_response_of(#[trigger] xs[k], out@[k]),
        decreases items@.len() - i,
    {
        match decode_order_response(&items[i]) {
            Some(x) => out.push(x),
            None => {
                assert(json_of(*v)->Arr_0[i as int] == xs[i as int]);
                assert(!order_response_shape(json_of(*v)->Arr_0[i as int]));
                return None;
            },
        }
        i = i + 1;
    }
    Some(out)
}

/// The orders that a cancel-all request cancelled.
pub struct CancelAllOrdersResponse {
    pub list: Vec<OrderResponse>,
}

/// Reads the payload of a cancel-all request: `list`, an array of orders.
pub fn decode_cancel_all_orders_response(v: &serde_json::Value) -> (r: Option<CancelAllOrdersResponse>)
    ensures
        r is Some == (member(json_of(*v), "list"@) is Some
            && order_response_list_shape(member(json_of(*v), "list"@)->Some_0)),
        r is Some ==> order_response_list_of(member(json_of(*v), "list"@)->Some_0, r->Some_0.list@),
{
    match get_member(v, "list") {
        Some(l) => match decode_order_response_list(l) {
            Some(list) => Some(CancelAllOrdersResponse { list }),
            None => None,
        },
        None => None,
    }
}

/// One open order.
pub struct GetOrderResponseData {
    pub order_id: String,
    pub order_link_id: String,
    pub symbol: String,
    pub price: String,
    pub qty: String,
    pub side: BybitSide,
    pub order_status: BybitOrderStatus,
    pub create_type: String,
    pub cancel_type: String,
    pub reject_reason: String,
    pub leaves_qty: String,
    pub cum_exec_qty: String,
    pub created_time: u64,
    pub updated_time: u64,
}

/// The document has the members of GetOrderResponseData.
pub open spec fn get_order_response_data_shape(j: Json) -> bool {
    str_member(j, "orderId"@) is Some
    && str_member(j, "orderLinkId"@) is Some
    && str_member(j, "symbol"@) is Some
    && str_member(j, "price"@) is Some
    && str_member(j, "qty"@) is Some
    && str_member(j, "side"@) is Some && side_of(str_member(j, "side"@)->Some_0) is Some
    && str_member(j, "orderStatus"@) is Some && status_of(str_member(j, "orderStatus"@)->Some_0) is Some
    && str_member(j, "createType"@) is Some
    && str_member(j, "cancelType"@) is Some
    && str_member(j, "rejectReason"@) is Some
    && str_member(j, "leavesQty"@) is Some
    && str_member(j, "cumExecQty"@) is Some
    && nat_member(j, "createdTime"@) is Some
    && nat_member(j, "updatedTime"@) is Some
}

/// `r` holds what the document says.
pub open spec fn get_order_response_data_of(j: Json, r: GetOrderResponseData) -> bool {
    str_member(j, "orderId"@) == Some(r.order_id@)
    && str_member(j, "orderLinkId"@) == Some(r.order_link_id@)
    && str_member(j, "symbol"@) == Some(r.symbol@)
    && str_member(j, "price"@) == Some(r.price@)
    && str_member(j, "qty"@) == Some(r.qty@)
    && str_member(j, "side"@) is Some && side_of(str_member(j, "side"@)->Some_0) == Some(r.side)
    && str_member(j, "orderStatus"@) is Some && status_of(str_member(j, "orderStatus"@)->Some_0) == Some(r.order_status)
    && str_member(j, "createType"@) == Some(r.create_type@)
    && str_member(j, "cancelType"@) == Some(r.cancel_type@)
    && str_member(j, "rejectReason"@) == Some(r.reject_reason@)
    && str_member(j, "leavesQty"@) == Some(r.leaves_qty@)
    && str_member(j, "cumExecQty"@) == Some(r.cum_exec_qty@)
    && nat_member(j, "createdTime"@) == Some(r.created_time)
    && nat_member(j, "updatedTime"@) == Some(r.updated_time)
}

/// Reads GetOrderResponseData from a document; members not listed are ignored.
pub fn decode_get_order_response_data(v: &serde_json::Value) -> (r: Option<GetOrderResponseData>)
    ensures
        r is Some == get_order_response_data_shape(json_of(*v)),
        r is Some ==> get_order_response_data_of(json_of(*v), r->Some_0),
{
    let order_id = match text_member(v, "orderId") { Some(x) => x, None => return None };
    let order_link_id = match text_member(v, "orderLinkId") { Some(x) => x, None => return None };
    let symbol = match text_member(v, "symbol") { Some(x) => x, None => return None };
    let price = match text_member(v, "price") { Some(x) => x, None => return None };
    let qty = match text_member(v, "qty") { Some(x) => x, None => return None };
    let side = match text_member(v, "side") { Some(x) => match BybitSide::from_text(x.as_str()) { Some(s) => s, None => return None }, None => return None };
    let order_status = match text_member(v, "orderStatus") { Some(x) => match BybitOrderStatus::from_text(x.as_str()) { Some(s) => s, None => return None }, None => return None };
    let create_type = match text_member(v, "createType") { Some(x) => x, None => return None };
    let cancel_type = match text_member(v, "cancelType") { Some(x) => x, None => return None };
    let reject_reason = match text_member(v, "rejectReason") { Some(x) => x, None => return None };
    let leaves_qty = match text_member(v, "leavesQty") { Some(x) => x, None => return None };
    let cum_exec_qty = match text_member(v, "cumExecQty") { Some(x) => x, None => return None };
    let created_time = match u64_member(v, "createdTime") { Some(x) => x, None => return None };
    let updated_time = match u64_member(v, "updatedTime") { Some(x) => x, None => return None };
    Some(GetOrderResponseData { order_id, order_link_id, symbol, price, qty, side, order_status, create_type, cancel_type, reject_reason, leaves_qty, cum_exec_qty, created_time, updated_time })
}

/// The document is an array of GetOrderResponseData documents.
pub open spec fn get_order_response_data_list_shape(j: Json) -> bool {
    j is Arr && forall|i: int| 0 <= i < j->Arr_0.len() ==> get_order_response_data_shape(#[trigger] j->Arr_0[i])
}

/// `r` holds the elements of the array, in order.
pub open spec fn get_order_response_data_list_of(j: Json, r: Seq<GetOrderResponseData>) -> bool {
    j is Arr && j->Arr_0.len() == r.len()
        && forall|i: int| 0 <= i < r.len() ==> get_order_response_data_of(#[trigger] j->Arr_0[i], r[i])
}

/// Reads an array of GetOrderResponseData, in order.
pub fn decode_get_order_response_data_list(v: &serde_json::Value) -> (r: Option<Vec<GetOrderResponseData>>)
    ensures
        r is Some == get_order_response_data_list_shape(json_of(*v)),
        r is Some ==> get_order_response_data_list_of(json_of(*v), r->Some_0@),
{
    let items = match as_array(v) {
        Some(a) => a,
        None => return None,
    };
    let ghost xs = items@.map_values(|x: serde_json::Value| json_of(x));
    let mut out: Vec<GetOrderResponseData> = Vec::new();
    let mut i: usize = 0;
    while i < items.len()
        invariant
            xs == items@.map_values(|x: serde_json::Value| json_of(x)),
            json_of(*v) == Json::Arr(xs),
            i <= items@.len(),
            out@.len() == i,
            forall|k: int| 0 <= k < i ==> get_order_response_data_shape(#[trigger] xs[k]),
            forall|k: int| 0 <= k < i ==> get_order_response_data_of(#[trigger] xs[k], out@[k]),
        decreases items@.len() - i,
    {
        match decode_get_order_response_data(&items[i]) {
            Some(x) => out.push(x),
            None => {
                assert(json_of(*v)->Arr_0[i as int] == xs[i as int]);
                assert(!get_order_response_data_shape(json_of(*v)->Arr_0[i as int]));
                return None;
            },
        }
        i = i + 1;
    }
    Some(out)
}

/// A page of open orders.
pub struct GetOrderResponse {
    pub next_page_cursor: String,
    pub category: String,
    pub list: Vec<GetOrderResponseData>,
}

/// The document has the members of GetOrderResponse.
pub open spec fn get_order_response_shape(j: Json) -> bool {
    str_member(j, "nextPageCursor"@) is Some
    && str_member(j, "category"@) is Some
    && member(j, "list"@) is Some && get_order_response_data_list_shape(member(j, "list"@)->Some_0)
}

/// `r` holds what the document says.
pub open spec fn get_order_response_of(j: Json, r: GetOrderResponse) -> bool {
    str_member(j, "nextPageCursor"@) == Some(r.next_page_cursor@)
    && str_member(j, "category"@) == Some(r.category@)
    && member(j, "list"@) is Some && get_order_response_data_list_of(member(j, "list"@)->Some_0, r.list@)
}

/// Reads GetOrderResponse from a document; members not listed are ignored.
pub fn decode_get_order_response(v: &serde_json::Value) -> (r: Option<GetOrderResponse>)
    ensures
        r is Some == get_order_response_shape(json_of(*v)),
        r is Some ==> get_order_response_of(json_of(*v), r->Some_0),
{
    let next_page_cursor = match text_member(v, "nextPageCursor") { Some(x) => x, None => return None };
    let category = match text_member(v, "category") { Some(x) => x, None => return None };
    let list = match get_member(v, "list") { Some(x) => match decode_get_order_response_data_list(x) { Some(l) => l, None => return None }, None => return None };
    Some(GetOrderResponse { next_page_cursor, category, list })
}

/// A compact order book: `s`, `b`, `a`, each level a list of texts.
pub struct OrderbookResponse {
    pub s: String,
    pub b: Vec<Vec<String>>,
    pub a: Vec<Vec<String>>,
}

/// One linear position.
pub struct BybitLinearPosition {
    pub created_time: String,
    pub leverage: String,
    pub liq_price: String,
    pub mark_price: String,
    pub position_balance: String,
    pub position_im: String,
    pub position_idx: u8,
    pub position_mm: String,
    pub position_status: String,
    pub position_value: String,
    pub risk_limit_value: String,
    pub side: BybitSide,
    pub size: String,
    pub symbol: String,
    pub unrealised_pnl: String,
    pub updated_time: String,
}

/// The document has the members of BybitLinearPosition.
pub open spec fn bybit_linear_position_shape(j: Json) -> bool {
    str_member(j, "createdTime"@) is Some
    && str_member(j, "leverage"@) is Some
    && str_member(j, "liqPrice"@) is Some
    && str_member(j, "markPrice"@) is Some
    && str_member(j, "positionBalance"@) is Some
    && str_member(j, "positionIM"@) is Some
    && nat_member(j, "positionIdx"@) is Some && nat_member(j, "positionIdx"@)->Some_0 <= 255
    && str_member(j, "positionMM"@) is Some
    && str_member(j, "positionStatus"@) is Some
    && str_member(j, "positionValue"@) is Some
    && str_member(j, "riskLimitValue"@) is Some
    && str_member(j, "side"@) is Some && side_of(str_member(j, "side"@)->Some_0) is Some
    && str_member(j, "size"@) is Some
    && str_member(j, "symbol"@) is Some
    && str_member(j, "unrealisedPnl"@) is Some
    && str_member(j, "updatedTime"@) is Some
}

/// `r` holds what the document says.
pub open spec fn bybit_linear_position_of(j: Json, r: BybitLinearPosition) -> bool {
    str_member(j, "createdTime"@) == Some(r.created_time@)
    && str_member(j, "leverage"@) == Some(r.leverage@)
    && str_member(j, "liqPrice"@) == Some(r.liq_price@)
    && str_member(j, "markPrice"@) == Some(r.mark_price@)
    && str_member(j, "positionBalance"@) == Some(r.position_balance@)
    && str_member(j, "positionIM"@) == Some(r.position_im@)
    && nat_member(j, "positionIdx"@) == Some(r.position_idx as u64)
    && str_member(j, "positionMM"@) == Some(r.position_mm@)
    && str_member(j, "positionStatus"@) == Some(r.position_status@)
    && str_member(j, "positionValue"@) == Some(r.position_value@)
    && str_member(j, "riskLimitValue"@) == Some(r.risk_limit_value@)
    && str_member(j, "side"@) is Some && side_of(str_member(j, "side"@)->Some_0) == Some(r.side)
    && str_member(j, "size"@) == Some(r.size@)
    && str_member(j, "symbol"@) == Some(r.symbol@)
    && str_member(j, "unrealisedPnl"@) == Some(r.unrealised_pnl@)
    && str_member(j, "updatedTime"@) == Some(r.updated_time@)
}

/// Reads BybitLinearPosition from a document; members not listed are ignored.
pub fn decode_bybit_linear_position(v: &serde_json::Value) -> (r: Option<BybitLinearPosition>)
    ensures
        r is Some == bybit_linear_position_shape(json_of(*v)),
        r is Some ==> bybit_linear_position_of(json_of(*v), r->Some_0),
{
    let created_time = match text_member(v, "createdTime") { Some(x) => x, None => return None };
    let leverage = match text_member(v, "leverage") { Some(x) => x, None => return None };
    let liq_price = match text_member(v, "liqPrice") { Some(x) => x, None => return None };
    let mark_price = match text_member(v, "markPrice") { Some(x) => x, None => return None };
    let position_balance = match text_member(v, "positionBalance") { Some(x) => x, None => return None };
    let position_im = match text_member(v, "positionIM") { Some(x) => x, None => return None };
    let position_idx: u8 = match u64_member(v, "positionIdx") { Some(x) => if x <= 255 { x as u8 } else { return None }, None => return None };
    let position_mm = match text_member(v, "positionMM") { Some(x) => x, None => return None };
    let position_status = match text_member(v, "positionStatus") { Some(x) => x, None => return None };
    let position_value = match text_member(v, "positionValue") { Some(x) => x, None => return None };
    let risk_limit_value = match text_member(v, "riskLimitValue") { Some(x) => x, None => return None };
    let side = match text_member(v, "side") { Some(x) => match BybitSide::from_text(x.as_str()) { Some(s) => s, None => return None }, None => return None };
    let size = match text_member(v, "size") { Some(x) => x, None => return None };
    let symbol = match text_member(v, "symbol") { Some(x) => x, None => return None };
    let unrealised_pnl = match text_member(v, "unrealisedPnl") { Some(x) => x, None => return None };
    let updated_time = match text_member(v, "updatedTime") { Some(x) => x, None => return None };
    Some(BybitLinearPosition { created_time, leverage, liq_price, mark_price, position_balance, position_im, position_idx, position_mm, position_status, position_value, risk_limit_value, side, size, symbol, unrealised_pnl, updated_time })
}

/// The document is an array of BybitLinearPosition documents.
pub open spec fn bybit_linear_position_list_shape(j: Json) -> bool {
    j is Arr && forall|i: int| 0 <= i < j->Arr_0.len() ==> bybit_linear_position_shape(#[trigger] j->Arr_0[i])
}

/// `r` holds the elements of the array, in order.
pub open spec fn bybit_linear_position_list_of(j: Json, r: Seq<BybitLinearPosition>) -> bool {
    j is Arr && j->Arr_0.len() == r.len()
        && forall|i: int| 0 <= i < r.len() ==> bybit_linear_position_of(#[trigger] j->Arr_0[i], r[i])
}

/// Reads an array of BybitLinearPosition, in order.
pub fn decode_bybit_linear_position_list(v: &serde_json::Value) -> (r: Option<Vec<BybitLinearPosition>>)
    ensures
        r is Some == bybit_linear_position_list_shape(json_of(*v)),
        r is Some ==> bybit_linear_position_list_of(json_of(*v), r->Some_0@),
{
    let items = match as_array(v) {
        Some(a) => a,
        None => return None,
    };
    let ghost xs = items@.map_values(|x: serde_json::Value| json_of(x));
    let mut out: Vec<BybitLinearPosition> = Vec::new();
    let mut i: usize = 0;
    while i < items.len()
        invariant
            xs == items@.map_values(|x: serde_json::Value| json_of(x)),
            json_of(*v) == Json::Arr(xs),
            i <= items@.len(),
            out@.len() == i,
            forall|k: int| 0 <= k < i ==> bybit_linear_position_shape(#[trigger] xs[k]),
            forall|k: int| 0 <= k < i ==> bybit_linear_position_of(#[trigger] xs[k], out@[k]),
        decreases items@.len() - i,
    {
        match decode_bybit_linear_position(&items[i]) {
            Some(x) => out.push(x),
            None => {
                assert(json_of(*v)->Arr_0[i as int] == xs[i as int]);
                assert(!bybit_linear_position_shape(json_of(*v)->Arr_0[i as int]));
                return None;
            },
        }
        i = i + 1;
    }
    Some(out)
}

/// A page of positions.
pub struct GetPositionResponse {
    pub category: String,
    pub list: Vec<BybitLinearPosition>,
    pub next_page_cursor: String,
}

/// The document has the members of GetPositionResponse.
pub open spec fn get_position_response_shape(j: Json) -> bool {
    str_member(j, "category"@) is Some
    && member(j, "list"@) is Some && bybit_linear_position_list_shape(member(j, "list"@)->Some_0)
    && str_member(j, "nextPageCursor"@) is Some
}

/// `r` holds what the document says.
pub open spec fn get_position_response_of(j: Json, r: GetPositionResponse) -> bool {
    str_member(j, "category"@) == Some(r.category@)
    && member(j, "list"@) is Some && bybit_linear_position_list_of(member(j, "list"@)->Some_0, r.list@)
    && str_member(j, "nextPageCursor"@) == Some(r.next_page_cursor@)
}

/// Reads GetPositionResponse from a document; members not listed are ignored.
pub fn decode_get_position_response(v: &serde_json::Value) -> (r: Option<GetPositionResponse>)
    ensures
        r is Some == get_position_response_shape(json_of(*v)),
        r is Some ==> get_position_response_of(json_of(*v), r->Some_0),
{
    let category = match text_member(v, "category") { Some(x) => x, None => return None };
    let list = match get_member(v, "list") { Some(x) => match decode_bybit_linear_position_list(x) { Some(l) => l, None => return None }, None => return None };
    let next_page_cursor = match text_member(v, "nextPageCursor") { Some(x) => x, None => return None };
    Some(GetPositionResponse { category, list, next_page_cursor })
}

/// A symbol's mark price.
pub struct BybitTicker {
    pub symbol: String,
    pub mark_price: String,
}

/// The document has the members of BybitTicker.
pub open spec fn bybit_ticker_shape(j: Json) -> bool {
    str_member(j, "symbol"@) is Some
    && str_member(j, "markPrice"@) is Some
}

/// `r` holds what the document says.
pub open spec fn bybit_ticker_of(j: Json, r: BybitTicker) -> bool {
    str_member(j, "symbol"@) == Some(r.symbol@)
    && str_member(j, "markPrice"@) == Some(r.mark_price@)
}

/// Reads BybitTicker from a document; members not listed are ignored.
pub fn decode_bybit_ticker(v: &serde_json::Value) -> (r: Option<BybitTicker>)
    ensures
        r is Some == bybit_ticker_shape(json_of(*v)),
        r is Some ==> bybit_ticker_of(json_of(*v), r->Some_0),
{
    let symbol = match text_member(v, "symbol") { Some(x) => x, None => return None };
    let mark_price = match text_member(v, "markPrice") { Some(x) => x, None => return None };
    Some(BybitTicker { symbol, mark_price })
}

/// The document is an array of BybitTicker documents.
pub open spec fn bybit_ticker_list_shape(j: Json) -> bool {
    j is Arr && forall|i: int| 0 <= i < j->Arr_0.len() ==> bybit_ticker_shape(#[trigger] j->Arr_0[i])
}

/// `r` holds the elements of the array, in order.
pub open spec fn bybit_ticker_list_of(j: Json, r: Seq<BybitTicker>) -> bool {
    j is Arr && j->Arr_0.len() == r.len()
        && forall|i: int| 0 <= i < r.len() ==> bybit_ticker_of(#[trigger] j->Arr_0[i], r[i])
}

/// Reads an array of BybitTicker, in order.
pub fn decode_bybit_ticker_list(v: &serde_json::Value) -> (r: Option<Vec<BybitTicker>>)
    ensures
        r is Some == bybit_ticker_list_shape(json_of(*v)),
        r is Some ==> bybit_ticker_list_of(json_of(*v), r->Some_0@),
{
    let items = match as_array(v) {
        Some(a) => a,
        None => return None,
    };
    let ghost xs = items@.map_values(|x: serde_json::Value| json_of(x));
    let mut out: Vec<BybitTicker> = Vec::new();
    let mut i: usize = 0;
    while i < items.len()
        invariant
            xs == items@.map_values(|x: serde_json::Value| json_of(x)),
            json_of(*v) == Json::Arr(xs),
            i <= items@.len(),
            out@.len() == i,
            forall|k: int| 0 <= k < i ==> bybit_ticker_shape(#[trigger] xs[k]),
            forall|k: int| 0 <= k < i ==> bybit_ticker_of(#[trigger] xs[k], out@[k]),
        decreases items@.len() - i,
    {
        match decode_bybit_ticker(&items[i]) {
            Some(x) => out.push(x),
            None => {
                assert(json_of(*v)->Arr_0[i as int] == xs[i as int]);
                assert(!bybit_ticker_shape(json_of(*v)->Arr_0[i as int]));
                return None;
            },
        }
        i = i + 1;
    }
    Some(out)
}

/// The tickers of a category.
pub struct GetTickersResponse {
    pub category: String,
    pub list: Vec<BybitTicker>,
}

/// The document has the members of GetTickersResponse.
pub open spec fn get_tickers_response_shape(j: Json) -> bool {
    str_member(j, "category"@) is Some
    && member(j, "list"@) is Some && bybit_ticker_list_shape(member(j, "list"@)->Some_0)
}

/// `r` holds what the document says.
pub open spec fn get_tickers_response_of(j: Json, r: GetTickersResponse) -> bool {
    str_member(j, "category"@) == Some(r.category@)
    && member(j, "list"@) is Some && bybit_ticker_list_of(member(j, "list"@)->Some_0, r.list@)
}

/// Reads GetTickersResponse from a document; members not listed are ignored.
pub fn decode_get_tickers_response(v: &serde_json::Value) -> (r: Option<GetTickersResponse>)
    ensures
        r is Some == get_tickers_response_shape(json_of(*v)),
        r is Some ==> get_tickers_response_of(json_of(*v), r->Some_0),
{
    let category = match text_member(v, "category") { Some(x) => x, None => return None };
    let list = match get_member(v, "list") { Some(x) => match decode_bybit_ticker_list(x) { Some(l) => l, None => return None }, None => return None };
    Some(GetTickersResponse { category, list })
}

/// The settings of an account.
pub struct BybitAccountInfo {
    pub unified_margin_status: u8,
    pub margin_mode: String,
    pub is_master_trader: bool,
    pub spot_hedging_status: String,
    pub updated_time: String,
}

/// The document has the members of BybitAccountInfo.
pub open spec fn bybit_account_info_shape(j: Json) -> bool {
    nat_member(j, "unifiedMarginStatus"@) is Some && nat_member(j, "unifiedMarginStatus"@)->Some_0 <= 255
    && str_member(j, "marginMode"@) is Some
    && bool_member(j, "isMasterTrader"@) is Some
    && str_member(j, "spotHedgingStatus"@) is Some
    && str_member(j, "updatedTime"@) is Some
}

/// `r` holds what the document says.
pub open spec fn bybit_account_info_of(j: Json, r: BybitAccountInfo) -> bool {
    nat_member(j, "unifiedMarginStatus"@) == Some(r.unified_margin_status as u64)
    && str_member(j, "marginMode"@) == Some(r.margin_mode@)
    && bool_member(j, "isMasterTrader"@) == Some(r.is_master_trader)
    && str_member(j, "spotHedgingStatus"@) == Some(r.spot_hedging_status@)
    && str_member(j, "updatedTime"@) == Some(r.updated_time@)
}

/// Reads BybitAccountInfo from a document; members not listed are ignored.
pub fn decode_bybit_account_info(v: &serde_json::Value) -> (r: Option<BybitAccountInfo>)
    ensures
        r is Some == bybit_account_info_shape(json_of(*v)),
        r is Some ==> bybit_account_info_of(json_of(*v), r->Some_0),
{
    let unified_margin_status: u8 = match u64_member(v, "unifiedMarginStatus") { Some(x) => if x <= 255 { x as u8 } else { return None }, None => return None };
    let margin_mode = match text_member(v, "marginMode") { Some(x) => x, None => return None };
    let is_master_trader = match bool_value_member(v, "isMasterTrader") { Some(x) => x, None => return None };
    let spot_hedging_status = match text_member(v, "spotHedgingStatus") { Some(x) => x, None => return None };
    let updated_time = match text_member(v, "updatedTime") { Some(x) => x, None => return None };
    Some(BybitAccountInfo { unified_margin_status, margin_mode, is_master_trader, spot_hedging_status, updated_time })
}

/// One coin of an account balance.
pub struct WalletBalanceCoin {
    pub coin: String,
    pub equity: String,
    pub usd_value: String,
    pub wallet_balance: String,
    pub locked: String,
    pub spot_hedging_qty: String,
    pub borrow_amount: String,
    pub available_to_withdraw: String,
    pub accrued_interest: String,
    pub total_order_im: String,
    pub total_position_im: String,
    pub total_position_mm: String,
    pub unrealised_pnl: Option<String>,
    pub cum_realised_pnl: Option<String>,
    pub bonus: Option<String>,
    pub margin_collateral: bool,
    pub collateral_switch: bool,
}

/// The document has the members of WalletBalanceCoin.
pub open spec fn wallet_balance_coin_shape(j: Json) -> bool {
    str_member(j, "coin"@) is Some
    && str_member(j, "equity"@) is Some
    && str_member(j, "usdValue"@) is Some
    && str_member(j, "walletBalance"@) is Some
    && str_member(j, "locked"@) is Some
    && str_member(j, "spotHedgingQty"@) is Some
    && str_member(j, "borrowAmount"@) is Some
    && str_member(j, "availableToWithdraw"@) is Some
    && str_member(j, "accruedInterest"@) is Some
    && str_member(j, "totalOrderIM"@) is Some
    && str_member(j, "totalPositionIM"@) is Some
    && str_member(j, "totalPositionMM"@) is Some
    && opt_text_shape(j, "unrealisedPnl"@)
    && opt_text_shape(j, "cumRealisedPnl"@)
    && opt_text_shape(j, "bonus"@)
    && bool_member(j, "marginCollateral"@) is Some
    && bool_member(j, "collateralSwitch"@) is Some
}

/// `r` holds what the document says.
pub open spec fn wallet_balance_coin_of(j: Json, r: WalletBalanceCoin) -> bool {
    str_member(j, "coin"@) == Some(r.coin@)
    && str_member(j, "equity"@) == Some(r.equity@)
    && str_member(j, "usdValue"@) == Some(r.usd_value@)
    && str_member(j, "walletBalance"@) == Some(r.wallet_balance@)
    && str_member(j, "locked"@) == Some(r.locked@)
    && str_member(j, "spotHedgingQty"@) == Some(r.spot_hedging_qty@)
    && str_member(j, "borrowAmount"@) == Some(r.borrow_amount@)
    && str_member(j, "availableToWithdraw"@) == Some(r.available_to_withdraw@)
    && str_member(j, "accruedInterest"@) == Some(r.accrued_interest@)
    && str_member(j, "totalOrderIM"@) == Some(r.total_order_im@)
    && str_member(j, "totalPositionIM"@) == Some(r.total_position_im@)
    && str_member(j, "totalPositionMM"@) == Some(r.total_position_mm@)
    && (r.unrealised_pnl is Some) == (opt_text_of(j, "unrealisedPnl"@) is Some) && (r.unrealised_pnl is Some ==> opt_text_of(j, "unrealisedPnl"@) == Some(r.unrealised_pnl->Some_0@))
    && (r.cum_realised_pnl is Some) == (opt_text_of(j, "cumRealisedPnl"@) is Some) && (r.cum_realised_pnl is Some ==> opt_text_of(j, "cumRealisedPnl"@) == Some(r.cum_realised_pnl->Some_0@))
    && (r.bonus is Some) == (opt_text_of(j, "bonus"@) is Some) && (r.bonus is Some ==> opt_text_of(j, "bonus"@) == Some(r.bonus->Some_0@))
    && bool_member(j, "marginCollateral"@) == Some(r.margin_collateral)
    && bool_member(j, "collateralSwitch"@) == Some(r.collateral_switch)
}

/// Reads WalletBalanceCoin from a document; members not listed are ignored.
pub fn decode_wallet_balance_coin(v: &serde_json::Value) -> (r: Option<WalletBalanceCoin>)
    ensures
        r is Some == wallet_balance_coin_shape(json_of(*v)),
        r is Some ==> wallet_balance_coin_of(json_of(*v), r->Some_0),
{
    let coin = match text_member(v, "coin") { Some(x) => x, None => return None };
    let equity = match text_member(v, "equity") { Some(x) => x, None => return None };
    let usd_value = match text_member(v, "usdValue") { Some(x) => x, None => return None };
    let wallet_balance = match text_member(v, "walletBalance") { Some(x) => x, None => return None };
    let locked = match text_member(v, "locked") { Some(x) => x, None => return None };
    let spot_hedging_qty = match text_member(v, "spotHedgingQty") { Some(x) => x, None => return None };
    let borrow_amount = match text_member(v, "borrowAmount") { Some(x) => x, None => return None };
    let available_to_withdraw = match text_member(v, "availableToWithdraw") { Some(x) => x, None => return None };
    let accrued_interest = match text_member(v, "accruedInterest") { Some(x) => x, None => return None };
    let total_order_im = match text_member(v, "totalOrderIM") { Some(x) => x, None => return None };
    let total_position_im = match text_member(v, "totalPositionIM") { Some(x) => x, None => return None };
    let total_position_mm = match text_member(v, "totalPositionMM") { Some(x) => x, None => return None };
    let unrealised_pnl = match opt_text_member(v, "unrealisedPnl") { Some(x) => x, None => return None };
    let cum_realised_pnl = match opt_text_member(v, "cumRealisedPnl") { Some(x) => x, None => return None };
    let bonus = match opt_text_member(v, "bonus") { Some(x) => x, None => return None };
    let margin_collateral = match bool_value_member(v, "marginCollateral") { Some(x) => x, None => return None };
    let collateral_switch = match bool_value_member(v, "collateralSwitch") { Some(x) => x, None => return None };
    Some(WalletBalanceCoin { coin, equity, usd_value, wallet_balance, locked, spot_hedging_qty, borrow_amount, available_to_withdraw, accrued_interest, total_order_im, total_position_im, total_position_mm, unrealised_pnl, cum_realised_pnl, bonus, margin_collateral, collateral_switch })
}

/// The document is an array of WalletBalanceCoin documents.
pub open spec fn wallet_balance_coin_list_shape(j: Json) -> bool {
    j is Arr && forall|i: int| 0 <= i < j->Arr_0.len() ==> wallet_balance_coin_shape(#[trigger] j->Arr_0[i])
}

/// `r` holds the elements of the array, in order.
pub open spec fn wallet_balance_coin_list_of(j: Json, r: Seq<WalletBalanceCoin>) -> bool {
    j is Arr && j->Arr_0.len() == r.len()
        && forall|i: int| 0 <= i < r.len() ==> wallet_balance_coin_of(#[trigger] j->Arr_0[i], r[i])
}

/// Reads an array of WalletBalanceCoin, in order.
pub fn decode_wallet_balance_coin_list(v: &serde_json::Value) -> (r: Option<Vec<WalletBalanceCoin>>)
    ensures
        r is Some == wallet_balance_coin_list_shape(json_of(*v)),
        r is Some ==> wallet_balance_coin_list_of(json_of(*v), r->Some_0@),
{
    let items = match as_array(v) {
        Some(a) => a,
        None => return None,
    };
    let ghost xs = items@.map_values(|x: serde_json::Value| json_of(x));
    let mut out: Vec<WalletBalanceCoin> = Vec::new();
    let mut i: usize = 0;
    while i < items.len()
        invariant
            xs == items@.map_values(|x: serde_json::Value| json_of(x)),
            json_of(*v) == Json::Arr(xs),
            i <= items@.len(),
            out@.len() == i,
            forall|k: int| 0 <= k < i ==> wallet_balance_coin_shape(#[trigger] xs[k]),
            forall|k: int| 0 <= k < i ==> wallet_balance_coin_of(#[trigger] xs[k], out@[k]),
        decreases items@.len() - i,
    {
        match decode_wallet_balance_coin(&items[i]) {
            Some(x) => out.push(x),
            None => {
                assert(json_of(*v)->Arr_0[i as int] == xs[i as int]);
                assert(!wallet_balance_coin_shape(json_of(*v)->Arr_0[i as int]));
                return None;
            },
        }
        i = i + 1;
    }
    Some(out)
}

/// One account's balance.
pub struct WalletBalance {
    pub account_type: String,
    pub account_im_rate: String,
    pub account_mm_rate: String,
    pub total_equity: String,
    pub total_wallet_balance: String,
    pub total_margin_balance: String,
    pub total_available_balance: String,
    pub total_perp_upl: String,
    pub total_initial_margin: String,
    pub total_maintenance_margin: String,
    pub coin: Vec<WalletBalanceCoin>,
}

/// The document has the members of WalletBalance.
pub open spec fn wallet_balance_shape(j: Json) -> bool {
    str_member(j, "accountType"@) is Some
    && str_member(j, "accountIMRate"@) is Some
    && str_member(j, "accountMMRate"@) is Some
    && str_member(j, "totalEquity"@) is Some
    && str_member(j, "totalWalletBalance"@) is Some
    && str_member(j, "totalMarginBalance"@) is Some
    && str_member(j, "totalAvailableBalance"@) is Some
    && str_member(j, "totalPerpUPL"@) is Some
    && str_member(j, "totalInitialMargin"@) is Some
    && str_member(j, "totalMaintenanceMargin"@) is Some
    && member(j, "coin"@) is Some && wallet_balance_coin_list_shape(member(j, "coin"@)->Some_0)
}

/// `r` holds what the document says.
pub open spec fn wallet_balance_of(j: Json, r: WalletBalance) -> bool {
    str_member(j, "accountType"@) == Some(r.account_type@)
    && str_member(j, "accountIMRate"@) == Some(r.account_im_rate@)
    && str_member(j, "accountMMRate"@) == Some(r.account_mm_rate@)
    && str_member(j, "totalEquity"@) == Some(r.total_equity@)
    && str_member(j, "totalWalletBalance"@) == Some(r.total_wallet_balance@)
    && str_member(j, "totalMarginBalance"@) == Some(r.total_margin_balance@)
    && str_member(j, "totalAvailableBalance"@) == Some(r.total_available_balance@)
    && str_member(j, "totalPerpUPL"@) == Some(r.total_perp_upl@)
    && str_member(j, "totalInitialMargin"@) == Some(r.total_initial_margin@)
    && str_member(j, "totalMaintenanceMargin"@) == Some(r.total_maintenance_margin@)
    && member(j, "coin"@) is Some && wallet_balance_coin_list_of(member(j, "coin"@)->Some_0, r.coin@)
}

/// Reads WalletBalance from a document; members not listed are ignored.
pub fn decode_wallet_balance(v: &serde_json::Value) -> (r: Option<WalletBalance>)
    ensures
        r is Some == wallet_balance_shape(json_of(*v)),
        r is Some ==> wallet_balance_of(json_of(*v), r->Some_0),
{
    let account_type = match text_member(v, "accountType") { Some(x) => x, None => return None };
    let account_im_rate = match text_member(v, "accountIMRate") { Some(x) => x, None => return None };
    let account_mm_rate = match text_member(v, "accountMMRate") { Some(x) => x, None => return None };
    let total_equity = match text_member(v, "totalEquity") { Some(x) => x, None => return None };
    let total_wallet_balance = match text_member(v, "totalWalletBalance") { Some(x) => x, None => return None };
    let total_margin_balance = match text_member(v, "totalMarginBalance") { Some(x) => x, None => return None };
    let total_available_balance = match text_member(v, "totalAvailableBalance") { Some(x) => x, None => return None };
    let total_perp_upl = match text_member(v, "totalPerpUPL") { Some(x) => x, None => return None };
    let total_initial_margin = match text_member(v, "totalInitialMargin") { Some(x) => x, None => return None };
    let total_maintenance_margin = match text_member(v, "totalMaintenanceMargin") { Some(x) => x, None => return None };
    let coin = match get_member(v, "coin") { Some(x) => match decode_wallet_balance_coin_list(x) { Some(l) => l, None => return None }, None => return None };
    Some(WalletBalance { account_type, account_im_rate, account_mm_rate, total_equity, total_wallet_balance, total_margin_balance, total_available_balance, total_perp_upl, total_initial_margin, total_maintenance_margin, coin })
}

/// The document is an array of WalletBalance documents.
pub open spec fn wallet_balance_list_shape(j: Json) -> bool {
    j is Arr && forall|i: int| 0 <= i < j->Arr_0.len() ==> wallet_balance_shape(#[trigger] j->Arr_0[i])
}

/// `r` holds the elements of the array, in order.
pub open spec fn wallet_balance_list_of(j: Json, r: Seq<WalletBalance>) -> bool {
    j is Arr && j->Arr_0.len() == r.len()
        && forall|i: int| 0 <= i < r.len() ==> wallet_balance_of(#[trigger] j->Arr_0[i], r[i])
}

/// Reads an array of WalletBalance, in order.
pub fn decode_wallet_balance_list(v: &serde_json::Value) -> (r: Option<Vec<WalletBalance>>)
    ensures
        r is Some == wallet_balance_list_shape(json_of(*v)),
        r is Some ==> wallet_balance_list_of(json_of(*v), r->Some_0@),
{
    let items = match as_array(v) {
        Some(a) => a,
        None => return None,
    };
    let ghost xs = items@.map_values(|x: serde_json::Value| json_of(x));
    let mut out: Vec<WalletBalance> = Vec::new();
    let mut i: usize = 0;
    while i < items.len()
        invariant
            xs == items@.map_values(|x: serde_json::Value| json_of(x)),
            json_of(*v) == Json::Arr(xs),
            i <= items@.len(),
            out@.len() == i,
            forall|k: int| 0 <= k < i ==> wallet_balance_shape(#[trigger] xs[k]),
            forall|k: int| 0 <= k < i ==> wallet_balance_of(#[trigger] xs[k], out@[k]),
        decreases items@.len() - i,
    {
        match decode_wallet_balance(&items[i]) {
            Some(x) => out.push(x),
            None => {
                assert(json_of(*v)->Arr_0[i as int] == xs[i as int]);
                assert(!wallet_balance_shape(json_of(*v)->Arr_0[i as int]));
                return None;
            },
        }
        i = i + 1;
    }
    Some(out)
}

/// The balances of the accounts.
pub struct GetWalletBalanceResponse {
    pub list: Vec<WalletBalance>,
}

/// The document has the members of GetWalletBalanceResponse.
pub open spec fn get_wallet_balance_response_shape(j: Json) -> bool {
    member(j, "list"@) is Some && wallet_balance_list_shape(member(j, "list"@)->Some_0)
}

/// `r` holds what the document says.
pub open spec fn get_wallet_balance_response_of(j: Json, r: GetWalletBalanceResponse) -> bool {
    member(j, "list"@) is Some && wallet_balance_list_of(member(j, "list"@)->Some_0, r.list@)
}

/// Reads GetWalletBalanceResponse from a document; members not listed are ignored.
pub fn decode_get_wallet_balance_response(v: &serde_json::Value) -> (r: Option<GetWalletBalanceResponse>)
    ensures
        r is Some == get_wallet_balance_response_shape(json_of(*v)),
        r is Some ==> get_wallet_balance_response_of(json_of(*v), r->Some_0),
{
    let list = match get_member(v, "list") { Some(x) => match decode_wallet_balance_list(x) { Some(l) => l, None => return None }, None => return None };
    Some(GetWalletBalanceResponse { list })
}

} // verus!
