//! Bybit stream messages and their classification by shape.
use vstd::prelude::*;
use crate::bybit_types::{
    bybit_linear_position_list_of, bybit_linear_position_list_shape, decode_bybit_linear_position_list,
    side_of, status_of, BybitLinearPosition, BybitOrderStatus, BybitSide,
};
use crate::json::{
    as_array, bool_member, bool_value_member, decode_texts, error_text, get_member, json_of,
    json_parse, member, parse_value, str_member, text_member, texts_of, Json,
};

verus! {

/// An inbound stream message.
pub enum BybitWsUpdate {
    /// The acknowledgment of an operation (authentication, subscription).
    AuthResponse(OpResponse),
    /// Data pushed on a subscribed topic.
    BybitUpdateData(BybitUpdateData),
    /// The reply to a ping.
    Pong(Pong),
}

/// The reply to a ping: the operation, its arguments and the connection.
pub struct Pong {
    pub op: String,
    pub args: Vec<String>,
    pub conn_id: String,
}

/// The acknowledgment of an operation.
pub struct OpResponse {
    pub success: bool,
    pub ret_msg: String,
    pub op: String,
    pub conn_id: String,
}

/// Data pushed on a topic; the topic names the shape of the data.
pub enum BybitUpdateData {
    OrderLinear(Vec<BybitOrderLinearData>),
    ExecutionLinear(Vec<BybitExecutionLinearData>),
    PositionLinear(Vec<BybitLinearPosition>),
}

/// An order event.
pub struct BybitOrderLinearData {
    pub category: String,
    pub symbol: String,
    pub order_id: String,
    pub order_link_id: String,
    pub side: BybitSide,
    pub price: String,
    pub qty: String,
    pub order_status: BybitOrderStatus,
    pub create_type: String,
    pub cancel_type: String,
    pub reject_reason: String,
    pub leaves_qty: String,
    pub cum_exec_qty: String,
    pub created_time: String,
    pub updated_time: String,
}

/// The document has the members of BybitOrderLinearData.
pub open spec fn bybit_order_linear_data_shape(j: Json) -> bool {
    str_member(j, "category"@) is Some
    && str_member(j, "symbol"@) is Some
    && str_member(j, "orderId"@) is Some
    && str_member(j, "orderLinkId"@) is Some
    && str_member(j, "side"@) is Some && side_of(str_member(j, "side"@)->Some_0) is Some
    && str_member(j, "price"@) is Some
    && str_member(j, "qty"@) is Some
    && str_member(j, "orderStatus"@) is Some && status_of(str_member(j, "orderStatus"@)->Some_0) is Some
    && str_member(j, "createType"@) is Some
    && str_member(j, "cancelType"@) is Some
    && str_member(j, "rejectReason"@) is Some
    && str_member(j, "leavesQty"@) is Some
    && str_member(j, "cumExecQty"@) is Some
    && str_member(j, "createdTime"@) is Some
    && str_member(j, "updatedTime"@) is Some
}

/// `r` holds what the document says.
pub open spec fn bybit_order_linear_data_of(j: Json, r: BybitOrderLinearData) -> bool {
    str_member(j, "category"@) == Some(r.category@)
    && str_member(j, "symbol"@) == Some(r.symbol@)
    && str_member(j, "orderId"@) == Some(r.order_id@)
    && str_member(j, "orderLinkId"@) == Some(r.order_link_id@)
    && str_member(j, "side"@) is Some && side_of(str_member(j, "side"@)->Some_0) == Some(r.side)
    && str_member(j, "price"@) == Some(r.price@)
    && str_member(j, "qty"@) == Some(r.qty@)
    && str_member(j, "orderStatus"@) is Some && status_of(str_member(j, "orderStatus"@)->Some_0) == Some(r.order_status)
    && str_member(j, "createType"@) == Some(r.create_type@)
    && str_member(j, "cancelType"@) == Some(r.cancel_type@)
    && str_member(j, "rejectReason"@) == Some(r.reject_reason@)
    && str_member(j, "leavesQty"@) == Some(r.leaves_qty@)
    && str_member(j, "cumExecQty"@) == Some(r.cum_exec_qty@)
    && str_member(j, "createdTime"@) == Some(r.created_time@)
    && str_member(j, "updatedTime"@) == Some(r.updated_time@)
}

/// Reads BybitOrderLinearData from a document; members not listed are ignored.
pub fn decode_bybit_order_linear_data(v: &serde_json::Value) -> (r: Option<BybitOrderLinearData>)
    ensures
        r is Some == bybit_order_linear_data_shape(json_of(*v)),
        r is Some ==> bybit_order_linear_data_of(json_of(*v), r->Some_0),
{
    let category = match text_member(v, "category") { Some(x) => x, None => return None };
    let symbol = match text_member(v, "symbol") { Some(x) => x, None => return None };
    let order_id = match text_member(v, "orderId") { Some(x) => x, None => return None };
    let order_link_id = match text_member(v, "orderLinkId") { Some(x) => x, None => return None };
    let side = match text_member(v, "side") { Some(x) => match BybitSide::from_text(x.as_str()) { Some(s) => s, None => return None }, None => return None };
    let price = match text_member(v, "price") { Some(x) => x, None => return None };
    let qty = match text_member(v, "qty") { Some(x) => x, None => return None };
    let order_status = match text_member(v, "orderStatus") { Some(x) => match BybitOrderStatus::from_text(x.as_str()) { Some(s) => s, None => return None }, None => return None };
    let create_type = match text_member(v, "createType") { Some(x) => x, None => return None };
    let cancel_type = match text_member(v, "cancelType") { Some(x) => x, None => return None };
    let reject_reason = match text_member(v, "rejectReason") { Some(x) => x, None => return None };
    let leaves_qty = match text_member(v, "leavesQty") { Some(x) => x, None => return None };
    let cum_exec_qty = match text_member(v, "cumExecQty") { Some(x) => x, None => return None };
    let created_time = match text_member(v, "createdTime") { Some(x) => x, None => return None };
    let updated_time = match text_member(v, "updatedTime") { Some(x) => x, None => return None };
    Some(BybitOrderLinearData { category, symbol, order_id, order_link_id, side, price, qty, order_status, create_type, cancel_type, reject_reason, leaves_qty, cum_exec_qty, created_time, updated_time })
}

/// The document is an array of BybitOrderLinearData documents.
pub open spec fn bybit_order_linear_data_list_shape(j: Json) -> bool {
    j is Arr && forall|i: int| 0 <= i < j->Arr_0.len() ==> bybit_order_linear_data_shape(#[trigger] j->Arr_0[i])
}

/// `r` holds the elements of the array, in order.
pub open spec fn bybit_order_linear_data_list_of(j: Json, r: Seq<BybitOrderLinearData>) -> bool {
    j is Arr && j->Arr_0.len() == r.len()
        && forall|i: int| 0 <= i < r.len() ==> bybit_order_linear_data_of(#[trigger] j->Arr_0[i], r[i])
}

/// Reads an array of BybitOrderLinearData, in order.
pub fn decode_bybit_order_linear_data_list(v: &serde_json::Value) -> (r: Option<Vec<BybitOrderLinearData>>)
    ensures
        r is Some == bybit_order_linear_data_list_shape(json_of(*v)),
        r is Some ==> bybit_order_linear_data_list_of(json_of(*v), r->Some_0@),
{
    let items = match as_array(v) {
        Some(a) => a,
        None => return None,
    };
    let ghost xs = items@.map_values(|x: serde_json::Value| json_of(x));
    let mut out: Vec<BybitOrderLinearData> = Vec::new();
    let mut i: usize = 0;
    while i < items.len()
        invariant
            xs == items@.map_values(|x: serde_json::Value| json_of(x)),
            json_of(*v) == Json::Arr(xs),
            i <= items@.len(),
            out@.len() == i,
            forall|k: int| 0 <= k < i ==> bybit_order_linear_data_shape(#[trigger] xs[k]),
            forall|k: int| 0 <= k < i ==> bybit_order_linear_data_of(#[trigger] xs[k], out@[k]),
        decreases items@.len() - i,
    {
        match decode_bybit_order_linear_data(&items[i]) {
            Some(x) => out.push(x),
            None => {
                assert(json_of(*v)->Arr_0[i as int] == xs[i as int]);
                assert(!bybit_order_linear_data_shape(json_of(*v)->Arr_0[i as int]));
                return None;
            },
        }
        i = i + 1;
    }
    Some(out)
}

/// An execution event.
pub struct BybitExecutionLinearData {
    pub category: String,
    pub symbol: String,
    pub order_id: String,
    pub order_link_id: String,
    pub side: BybitSide,
    pub order_price: String,
    pub order_qty: String,
    pub leaves_qty: String,
    pub order_type: String,
    pub exec_fee: String,
    pub exec_id: String,
    pub exec_price: String,
    pub exec_qty: String,
    pub exec_type: String,
    pub exec_value: String,
    pub exec_time: String,
    pub is_maker: bool,
    pub fee_rate: String,
    pub mark_price: String,
}

/// The document has the members of BybitExecutionLinearData.
pub open spec fn bybit_execution_linear_data_shape(j: Json) -> bool {
    str_member(j, "category"@) is Some
    && str_member(j, "symbol"@) is Some
    && str_member(j, "orderId"@) is Some
    && str_member(j, "orderLinkId"@) is Some
    && str_member(j, "side"@) is Some && side_of(str_member(j, "side"@)->Some_0) is Some
    && str_member(j, "orderPrice"@) is Some
    && str_member(j, "orderQty"@) is Some
    && str_member(j, "leavesQty"@) is Some
    && str_member(j, "orderType"@) is Some
    && str_member(j, "execFee"@) is Some
    && str_member(j, "execId"@) is Some
    && str_member(j, "execPrice"@) is Some
    && str_member(j, "execQty"@) is Some
    && str_member(j, "execType"@) is Some
    && str_member(j, "execValue"@) is Some
    && str_member(j, "execTime"@) is Some
    && bool_member(j, "isMaker"@) is Some
    && str_member(j, "feeRate"@) is Some
    && str_member(j, "markPrice"@) is Some
}

/// `r` holds what the document says.
pub open spec fn bybit_execution_linear_data_of(j: Json, r: BybitExecutionLinearData) -> bool {
    str_member(j, "category"@) == Some(r.category@)
    && str_member(j, "symbol"@) == Some(r.symbol@)
    && str_member(j, "orderId"@) == Some(r.order_id@)
    && str_member(j, "orderLinkId"@) == Some(r.order_link_id@)
    && str_member(j, "side"@) is Some && side_of(str_member(j, "side"@)->Some_0) == Some(r.side)
    && str_member(j, "orderPrice"@) == Some(r.order_price@)
    && str_member(j, "orderQty"@) == Some(r.order_qty@)
    && str_member(j, "leavesQty"@) == Some(r.leaves_qty@)
    && str_member(j, "orderType"@) == Some(r.order_type@)
    && str_member(j, "execFee"@) == Some(r.exec_fee@)
    && str_member(j, "execId"@) == Some(r.exec_id@)
    && str_member(j, "execPrice"@) == Some(r.exec_price@)
    && str_member(j, "execQty"@) == Some(r.exec_qty@)
    && str_member(j, "execType"@) == Some(r.exec_type@)
    && str_member(j, "execValue"@) == Some(r.exec_value@)
    && str_member(j, "execTime"@) == Some(r.exec_time@)
    && bool_member(j, "isMaker"@) == Some(r.is_maker)
    && str_member(j, "feeRate"@) == Some(r.fee_rate@)
    && str_member(j, "markPrice"@) == Some(r.mark_price@)
}

/// Reads BybitExecutionLinearData from a document; members not listed are ignored.
pub fn decode_bybit_execution_linear_data(v: &serde_json::Value) -> (r: Option<BybitExecutionLinearData>)
    ensures
        r is Some == bybit_execution_linear_data_shape(json_of(*v)),
        r is Some ==> bybit_execution_linear_data_of(json_of(*v), r->Some_0),
{
    let category = match text_member(v, "category") { Some(x) => x, None => return None };
    let symbol = match text_member(v, "symbol") { Some(x) => x, None => return None };
    let order_id = match text_member(v, "orderId") { Some(x) => x, None => return None };
    let order_link_id = match text_member(v, "orderLinkId") { Some(x) => x, None => return None };
    let side = match text_member(v, "side") { Some(x) => match BybitSide::from_text(x.as_str()) { Some(s) => s, None => return None }, None => return None };
    let order_price = match text_member(v, "orderPrice") { Some(x) => x, None => return None };
    let order_qty = match text_member(v, "orderQty") { Some(x) => x, None => return None };
    let leaves_qty = match text_member(v, "leavesQty") { Some(x) => x, None => return None };
    let order_type = match text_member(v, "orderType") { Some(x) => x, None => return None };
    let exec_fee = match text_member(v, "execFee") { Some(x) => x, None => return None };
    let exec_id = match text_member(v, "execId") { Some(x) => x, None => return None };
    let exec_price = match text_member(v, "execPrice") { Some(x) => x, None => return None };
    let exec_qty = match text_member(v, "execQty") { Some(x) => x, None => return None };
    let exec_type = match text_member(v, "execType") { Some(x) => x, None => return None };
    let exec_value = match text_member(v, "execValue") { Some(x) => x, None => return None };
    let exec_time = match text_member(v, "execTime") { Some(x) => x, None => return None };
    let is_maker = match bool_value_member(v, "isMaker") { Some(x) => x, None => return None };
    let fee_rate = match text_member(v, "feeRate") { Some(x) => x, None => return None };
    let mark_price = match text_member(v, "markPrice") { Some(x) => x, None => return None };
    Some(BybitExecutionLinearData { category, symbol, order_id, order_link_id, side, order_price, order_qty, leaves_qty, order_type, exec_fee, exec_id, exec_price, exec_qty, exec_type, exec_value, exec_time, is_maker, fee_rate, mark_price })
}

/// The document is an array of BybitExecutionLinearData documents.
pub open spec fn bybit_execution_linear_data_list_shape(j: Json) -> bool {
    j is Arr && forall|i: int| 0 <= i < j->Arr_0.len() ==> bybit_execution_linear_data_shape(#[trigger] j->Arr_0[i])
}

/// `r` holds the elements of the array, in order.
pub open spec fn bybit_execution_linear_data_list_of(j: Json, r: Seq<BybitExecutionLinearData>) -> bool {
    j is Arr && j->Arr_0.len() == r.len()
        && forall|i: int| 0 <= i < r.len() ==> bybit_execution_linear_data_of(#[trigger] j->Arr_0[i], r[i])
}

/// Reads an array of BybitExecutionLinearData, in order.
pub fn decode_bybit_execution_linear_data_list(v: &serde_json::Value) -> (r: Option<Vec<BybitExecutionLinearData>>)
    ensures
        r is Some == bybit_execution_linear_data_list_shape(json_of(*v)),
        r is Some ==> bybit_execution_linear_data_list_of(json_of(*v), r->Some_0@),
{
    let items = match as_array(v) {
        Some(a) => a,
        None => return None,
    };
    let ghost xs = items@.map_values(|x: serde_json::Value| json_of(x));
    let mut out: Vec<BybitExecutionLinearData> = Vec::new();
    let mut i: usize = 0;
    while i < items.len()
        invariant
            xs == items@.map_values(|x: serde_json::Value| json_of(x)),
            json_of(*v) == Json::Arr(xs),
            i <= items@.len(),
            out@.len() == i,
            forall|k: int| 0 <= k < i ==> bybit_execution_linear_data_shape(#[trigger] xs[k]),
            forall|k: int| 0 <= k < i ==> bybit_execution_linear_data_of(#[trigger] xs[k], out@[k]),
        decreases items@.len() - i,
    {
        match decode_bybit_execution_linear_data(&items[i]) {
            Some(x) => out.push(x),
            None => {
                assert(json_of(*v)->Arr_0[i as int] == xs[i as int]);
                assert(!bybit_execution_linear_data_shape(json_of(*v)->Arr_0[i as int]));
                return None;
            },
        }
        i = i + 1;
    }
    Some(out)
}

/// The document has the members of OpResponse.
pub open spec fn op_response_shape(j: Json) -> bool {
    bool_member(j, "success"@) is Some
    && str_member(j, "ret_msg"@) is Some
    && str_member(j, "op"@) is Some
    && str_member(j, "conn_id"@) is Some
}

/// `r` holds what the document says.
pub open spec fn op_response_of(j: Json, r: OpResponse) -> bool {
    bool_member(j, "success"@) == Some(r.success)
    && str_member(j, "ret_msg"@) == Some(r.ret_msg@)
    && str_member(j, "op"@) == Some(r.op@)
    && str_member(j, "conn_id"@) == Some(r.conn_id@)
}

/// Reads OpResponse from a document; members not listed are ignored.
pub fn decode_op_response(v: &serde_json::Value) -> (r: Option<OpResponse>)
    ensures
        r is Some == op_response_shape(json_of(*v)),
        r is Some ==> op_response_of(json_of(*v), r->Some_0),
{
    let success = match bool_value_member(v, "success") { Some(x) => x, None => return None };
    let ret_msg = match text_member(v, "ret_msg") { Some(x) => x, None => return None };
    let op = match text_member(v, "op") { Some(x) => x, None => return None };
    let conn_id = match text_member(v, "conn_id") { Some(x) => x, None => return None };
    Some(OpResponse { success, ret_msg, op, conn_id })
}

/// The document has the members of a pong.
pub open spec fn pong_shape(j: Json) -> bool {
    str_member(j, "op"@) is Some
    && member(j, "args"@) is Some && texts_of(member(j, "args"@)->Some_0) is Some
    && str_member(j, "conn_id"@) is Some
}

/// `r` holds what the document says.
pub open spec fn pong_of(j: Json, r: Pong) -> bool {
    str_member(j, "op"@) == Some(r.op@)
    && member(j, "args"@) is Some
    && texts_of(member(j, "args"@)->Some_0) == Some(r.args@.map_values(|s: String| s@))
    && str_member(j, "conn_id"@) == Some(r.conn_id@)
}

/// Reads a pong.
pub fn decode_pong(v: &serde_json::Value) -> (r: Option<Pong>)
    ensures
        r is Some == pong_shape(json_of(*v)),
        r is Some ==> pong_of(json_of(*v), r->Some_0),
{
    let op = match text_member(v, "op") { Some(x) => x, None => return None };
    let args = match get_member(v, "args") {
        Some(a) => match decode_texts(a) { Some(t) => t, None => return None },
        None => return None,
    };
    let conn_id = match text_member(v, "conn_id") { Some(x) => x, None => return None };
    Some(Pong { op, args, conn_id })
}

/// The data of a topic push: `topic` names one of the known topics and
/// `data` is a list of that topic's records.
pub open spec fn update_shape(j: Json) -> bool {
    &&& str_member(j, "topic"@) is Some
    &&& member(j, "data"@) is Some
    &&& {
        let t = str_member(j, "topic"@)->Some_0;
        let d = member(j, "data"@)->Some_0;
        ||| (t == "order.linear"@ && bybit_order_linear_data_list_shape(d))
        ||| (t == "execution.linear"@ && bybit_execution_linear_data_list_shape(d))
        ||| (t == "position.linear"@ && bybit_linear_position_list_shape(d))
    }
}

/// `r` holds what the push says.
pub open spec fn update_of(j: Json, r: BybitUpdateData) -> bool {
    &&& str_member(j, "topic"@) is Some
    &&& member(j, "data"@) is Some
    &&& {
        let t = str_member(j, "topic"@)->Some_0;
        let d = member(j, "data"@)->Some_0;
        match r {
            BybitUpdateData::OrderLinear(v) => t == "order.linear"@ && bybit_order_linear_data_list_of(d, v@),
            BybitUpdateData::ExecutionLinear(v) => t == "execution.linear"@ && bybit_execution_linear_data_list_of(d, v@),
            BybitUpdateData::PositionLinear(v) => t == "position.linear"@ && bybit_linear_position_list_of(d, v@),
        }
    }
}

/// Reads a topic push.
pub fn decode_update(v: &serde_json::Value) -> (r: Option<BybitUpdateData>)
    ensures
        r is Some == update_shape(json_of(*v)),
        r is Some ==> update_of(json_of(*v), r->Some_0),
{
    proof {
        reveal_strlit("order.linear");
        reveal_strlit("execution.linear");
        reveal_strlit("position.linear");
        assert("order.linear"@.len() == 12);
        assert("execution.linear"@.len() == 16);
        assert("position.linear"@.len() == 15);
    }
    let topic = match text_member(v, "topic") { Some(t) => t, None => return None };
    let data = match get_member(v, "data") { Some(d) => d, None => return None };
    if topic == "order.linear".to_owned() {
        match decode_bybit_order_linear_data_list(data) {
            Some(l) => Some(BybitUpdateData::OrderLinear(l)),
            None => None,
        }
    } else if topic == "execution.linear".to_owned() {
        match decode_bybit_execution_linear_data_list(data) {
            Some(l) => Some(BybitUpdateData::ExecutionLinear(l)),
            None => None,
        }
    } else if topic == "position.linear".to_owned() {
        match decode_bybit_linear_position_list(data) {
            Some(l) => Some(BybitUpdateData::PositionLinear(l)),
            None => None,
        }
    } else {
        None
    }
}

/// The kinds of stream message, tried in this order.
pub enum MessageKind {
    AuthAck,
    TopicUpdate,
    Pong,
    Unrecognized,
}

/// The kind of a document: the first shape it has, in the fixed order
/// acknowledgment, topic push, pong.
pub open spec fn message_kind(j: Json) -> MessageKind {
    if op_response_shape(j) {
        MessageKind::AuthAck
    } else if update_shape(j) {
        MessageKind::TopicUpdate
    } else if pong_shape(j) {
        MessageKind::Pong
    } else {
        MessageKind::Unrecognized
    }
}

/// `r` is the message that the document of kind `message_kind(j)` is.
pub open spec fn classified_as(j: Json, r: Option<BybitWsUpdate>) -> bool {
    match message_kind(j) {
        MessageKind::AuthAck => r matches Some(BybitWsUpdate::AuthResponse(a)) && op_response_of(j, a),
        MessageKind::TopicUpdate => r matches Some(BybitWsUpdate::BybitUpdateData(d)) && update_of(j, d),
        MessageKind::Pong => r matches Some(BybitWsUpdate::Pong(p)) && pong_of(j, p),
        MessageKind::Unrecognized => r is None,
    }
}

/// Classifies a text frame. `Err` holds the cause when the text is not JSON;
/// `Ok(None)` is a JSON document of no known shape.
pub fn classify_frame(text: &str) -> (r: Result<Option<BybitWsUpdate>, String>)
    ensures
        r is Err == json_parse(text@) is None,
        r is Ok ==> classified_as(json_parse(text@)->Some_0, r->Ok_0),
{
    let doc = match parse_value(text) {
        Ok(d) => d,
        Err(e) => return Err(error_text(&e)),
    };
    if let Some(a) = decode_op_response(&doc) {
        return Ok(Some(BybitWsUpdate::AuthResponse(a)));
    }
    if let Some(d) = decode_update(&doc) {
        return Ok(Some(BybitWsUpdate::BybitUpdateData(d)));
    }
    if let Some(p) = decode_pong(&doc) {
        return Ok(Some(BybitWsUpdate::Pong(p)));
    }
    Ok(None)
}

/// A frame with the members of a pong and no `topic` is never taken for a
/// topic update: it is a pong, or an acknowledgment when it also has that
/// shape, which comes first in the order.
pub proof fn lemma_pong_is_not_a_topic_update(j: Json, r: Option<BybitWsUpdate>)
    requires
        pong_shape(j),
        member(j, "topic"@) is None,
        classified_as(j, r),
    ensures
        !(r matches Some(BybitWsUpdate::BybitUpdateData(_))),
        !op_response_shape(j) ==> (r matches Some(BybitWsUpdate::Pong(p)) && pong_of(j, p)),
{
}

} // verus!
