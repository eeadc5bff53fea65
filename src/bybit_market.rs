//! Bybit market data: server time, instruments and order books.
use vstd::prelude::*;
use crate::json::{
    as_array, bool_member, bool_value_member, get_member, i64_member, int_member, json_of, member,
    opt_value_member, str_member, text_member, Json,
};
use crate::levels::{decode_levels, levels_of, text_levels};

verus! {

/// Bybit's server time, as decimal text.
pub struct ServerTimeResponse {
    pub time_second: String,
    pub time_nano: String,
}

/// The leverage an instrument allows.
pub struct LeverageFilter {
    pub min_leverage: String,
    pub max_leverage: String,
    pub leverage_step: String,
}

/// The document has the members of LeverageFilter.
pub open spec fn leverage_filter_shape(j: Json) -> bool {
    str_member(j, "minLeverage"@) is Some
    && str_member(j, "maxLeverage"@) is Some
    && str_member(j, "leverageStep"@) is Some
}

/// `r` holds what the document says.
pub open spec fn leverage_filter_of(j: Json, r: LeverageFilter) -> bool {
    str_member(j, "minLeverage"@) == Some(r.min_leverage@)
    && str_member(j, "maxLeverage"@) == Some(r.max_leverage@)
    && str_member(j, "leverageStep"@) == Some(r.leverage_step@)
}

/// Reads LeverageFilter from a document; members not listed are ignored.
pub fn decode_leverage_filter(v: &serde_json::Value) -> (r: Option<LeverageFilter>)
    ensures
        r is Some == leverage_filter_shape(json_of(*v)),
        r is Some ==> leverage_filter_of(json_of(*v), r->Some_0),
{
    let min_leverage = match text_member(v, "minLeverage") { Some(x) => x, None => return None };
    let max_leverage = match text_member(v, "maxLeverage") { Some(x) => x, None => return None };
    let leverage_step = match text_member(v, "leverageStep") { Some(x) => x, None => return None };
    Some(LeverageFilter { min_leverage, max_leverage, leverage_step })
}

/// The prices an instrument allows.
pub struct PriceFilter {
    pub min_price: String,
    pub max_price: String,
    pub tick_size: String,
}

/// The document has the members of PriceFilter.
pub open spec fn price_filter_shape(j: Json) -> bool {
    str_member(j, "minPrice"@) is Some
    && str_member(j, "maxPrice"@) is Some
    && str_member(j, "tickSize"@) is Some
}

/// `r` holds what the document says.
pub open spec fn price_filter_of(j: Json, r: PriceFilter) -> bool {
    str_member(j, "minPrice"@) == Some(r.min_price@)
    && str_member(j, "maxPrice"@) == Some(r.max_price@)
    && str_member(j, "tickSize"@) == Some(r.tick_size@)
}

/// Reads PriceFilter from a document; members not listed are ignored.
pub fn decode_price_filter(v: &serde_json::Value) -> (r: Option<PriceFilter>)
    ensures
        r is Some == price_filter_shape(json_of(*v)),
        r is Some ==> price_filter_of(json_of(*v), r->Some_0),
{
    let min_price = match text_member(v, "minPrice") { Some(x) => x, None => return None };
    let max_price = match text_member(v, "maxPrice") { Some(x) => x, None => return None };
    let tick_size = match text_member(v, "tickSize") { Some(x) => x, None => return None };
    Some(PriceFilter { min_price, max_price, tick_size })
}

/// The quantities an instrument allows.
pub struct LotSizeFilter {
    pub max_order_qty: String,
    pub min_order_qty: String,
    pub qty_step: String,
    pub post_only_max_order_qty: String,
    pub max_mkt_order_qty: String,
    pub min_notional_value: String,
}

/// The document has the members of LotSizeFilter.
pub open spec fn lot_size_filter_shape(j: Json) -> bool {
    str_member(j, "maxOrderQty"@) is Some
    && str_member(j, "minOrderQty"@) is Some
    && str_member(j, "qtyStep"@) is Some
    && str_member(j, "postOnlyMaxOrderQty"@) is Some
    && str_member(j, "maxMktOrderQty"@) is Some
    && str_member(j, "minNotionalValue"@) is Some
}

/// `r` holds what the document says.
pub open spec fn lot_size_filter_of(j: Json, r: LotSizeFilter) -> bool {
    str_member(j, "maxOrderQty"@) == Some(r.max_order_qty@)
    && str_member(j, "minOrderQty"@) == Some(r.min_order_qty@)
    && str_member(j, "qtyStep"@) == Some(r.qty_step@)
    && str_member(j, "postOnlyMaxOrderQty"@) == Some(r.post_only_max_order_qty@)
    && str_member(j, "maxMktOrderQty"@) == Some(r.max_mkt_order_qty@)
    && str_member(j, "minNotionalValue"@) == Some(r.min_notional_value@)
}

/// Reads LotSizeFilter from a document; members not listed are ignored.
pub fn decode_lot_size_filter(v: &serde_json::Value) -> (r: Option<LotSizeFilter>)
    ensures
        r is Some == lot_size_filter_shape(json_of(*v)),
        r is Some ==> lot_size_filter_of(json_of(*v), r->Some_0),
{
    let max_order_qty = match text_member(v, "maxOrderQty") { Some(x) => x, None => return None };
    let min_order_qty = match text_member(v, "minOrderQty") { Some(x) => x, None => return None };
    let qty_step = match text_member(v, "qtyStep") { Some(x) => x, None => return None };
    let post_only_max_order_qty = match text_member(v, "postOnlyMaxOrderQty") { Some(x) => x, None => return None };
    let max_mkt_order_qty = match text_member(v, "maxMktOrderQty") { Some(x) => x, None => return None };
    let min_notional_value = match text_member(v, "minNotionalValue") { Some(x) => x, None => return None };
    Some(LotSizeFilter { max_order_qty, min_order_qty, qty_step, post_only_max_order_qty, max_mkt_order_qty, min_notional_value })
}

/// The price limits of an instrument.
pub struct RiskParameters {
    pub price_limit_ratio_x: String,
    pub price_limit_ratio_y: String,
}

/// The document has the members of RiskParameters.
pub open spec fn risk_parameters_shape(j: Json) -> bool {
    str_member(j, "priceLimitRatioX"@) is Some
    && str_member(j, "priceLimitRatioY"@) is Some
}

/// `r` holds what the document says.
pub open spec fn risk_parameters_of(j: Json, r: RiskParameters) -> bool {
    str_member(j, "priceLimitRatioX"@) == Some(r.price_limit_ratio_x@)
    && str_member(j, "priceLimitRatioY"@) == Some(r.price_limit_ratio_y@)
}

/// Reads RiskParameters from a document; members not listed are ignored.
pub fn decode_risk_parameters(v: &serde_json::Value) -> (r: Option<RiskParameters>)
    ensures
        r is Some == risk_parameters_shape(json_of(*v)),
        r is Some ==> risk_parameters_of(json_of(*v), r->Some_0),
{
    let price_limit_ratio_x = match text_member(v, "priceLimitRatioX") { Some(x) => x, None => return None };
    let price_limit_ratio_y = match text_member(v, "priceLimitRatioY") { Some(x) => x, None => return None };
    Some(RiskParameters { price_limit_ratio_x, price_limit_ratio_y })
}

/// One instrument's trading rules.
pub struct InstrumentInfo {
    pub symbol: String,
    pub contract_type: String,
    pub status: String,
    pub base_coin: String,
    pub quote_coin: String,
    pub launch_time: String,
    pub delivery_time: String,
    pub delivery_fee_rate: String,
    pub price_scale: String,
    pub leverage_filter: LeverageFilter,
    pub price_filter: PriceFilter,
    pub lot_size_filter: LotSizeFilter,
    pub unified_margin_trade: bool,
    pub funding_interval: i32,
    pub settle_coin: String,
    pub copy_trading: String,
    pub upper_funding_rate: String,
    pub lower_funding_rate: String,
    pub is_pre_listing: bool,
    pub pre_listing_info: Option<serde_json::Value>,
    pub risk_parameters: RiskParameters,
}

/// The document has the members of InstrumentInfo.
pub open spec fn instrument_info_shape(j: Json) -> bool {
    str_member(j, "symbol"@) is Some
    && str_member(j, "contractType"@) is Some
    && str_member(j, "status"@) is Some
    && str_member(j, "baseCoin"@) is Some
    && str_member(j, "quoteCoin"@) is Some
    && str_member(j, "launchTime"@) is Some
    && str_member(j, "deliveryTime"@) is Some
    && str_member(j, "deliveryFeeRate"@) is Some
    && str_member(j, "priceScale"@) is Some
    && member(j, "leverageFilter"@) is Some && leverage_filter_shape(member(j, "leverageFilter"@)->Some_0)
    && member(j, "priceFilter"@) is Some && price_filter_shape(member(j, "priceFilter"@)->Some_0)
    && member(j, "lotSizeFilter"@) is Some && lot_size_filter_shape(member(j, "lotSizeFilter"@)->Some_0)
    && bool_member(j, "unifiedMarginTrade"@) is Some
    && int_member(j, "fundingInterval"@) is Some && i32::MIN <= int_member(j, "fundingInterval"@)->Some_0 <= i32::MAX
    && str_member(j, "settleCoin"@) is Some
    && str_member(j, "copyTrading"@) is Some
    && str_member(j, "upperFundingRate"@) is Some
    && str_member(j, "lowerFundingRate"@) is Some
    && bool_member(j, "isPreListing"@) is Some
    && true
    && member(j, "riskParameters"@) is Some && risk_parameters_shape(member(j, "riskParameters"@)->Some_0)
}

/// `r` holds what the document says.
pub open spec fn instrument_info_of(j: Json, r: InstrumentInfo) -> bool {
    str_member(j, "symbol"@) == Some(r.symbol@)
    && str_member(j, "contractType"@) == Some(r.contract_type@)
    && str_member(j, "status"@) == Some(r.status@)
    && str_member(j, "baseCoin"@) == Some(r.base_coin@)
    && str_member(j, "quoteCoin"@) == Some(r.quote_coin@)
    && str_member(j, "launchTime"@) == Some(r.launch_time@)
    && str_member(j, "deliveryTime"@) == Some(r.delivery_time@)
    && str_member(j, "deliveryFeeRate"@) == Some(r.delivery_fee_rate@)
    && str_member(j, "priceScale"@) == Some(r.price_scale@)
    && member(j, "leverageFilter"@) is Some && leverage_filter_of(member(j, "leverageFilter"@)->Some_0, r.leverage_filter)
    && member(j, "priceFilter"@) is Some && price_filter_of(member(j, "priceFilter"@)->Some_0, r.price_filter)
    && member(j, "lotSizeFilter"@) is Some && lot_size_filter_of(member(j, "lotSizeFilter"@)->Some_0, r.lot_size_filter)
    && bool_member(j, "unifiedMarginTrade"@) == Some(r.unified_margin_trade)
    && int_member(j, "fundingInterval"@) == Some(r.funding_interval as i64)
    && str_member(j, "settleCoin"@) == Some(r.settle_coin@)
    && str_member(j, "copyTrading"@) == Some(r.copy_trading@)
    && str_member(j, "upperFundingRate"@) == Some(r.upper_funding_rate@)
    && str_member(j, "lowerFundingRate"@) == Some(r.lower_funding_rate@)
    && bool_member(j, "isPreListing"@) == Some(r.is_pre_listing)
    && (r.pre_listing_info is Some) == (member(j, "preListingInfo"@) is Some && !(member(j, "preListingInfo"@)->Some_0 is Null)) && (r.pre_listing_info is Some ==> member(j, "preListingInfo"@) == Some(json_of(r.pre_listing_info->Some_0)))
    && member(j, "riskParameters"@) is Some && risk_parameters_of(member(j, "riskParameters"@)->Some_0, r.risk_parameters)
}

/// Reads InstrumentInfo from a document; members not listed are ignored.
pub fn decode_instrument_info(v: &serde_json::Value) -> (r: Option<InstrumentInfo>)
    ensures
        r is Some == instrument_info_shape(json_of(*v)),
        r is Some ==> instrument_info_of(json_of(*v), r->Some_0),
{
    let symbol = match text_member(v, "symbol") { Some(x) => x, None => return None };
    let contract_type = match text_member(v, "contractType") { Some(x) => x, None => return None };
    let status = match text_member(v, "status") { Some(x) => x, None => return None };
    let base_coin = match text_member(v, "baseCoin") { Some(x) => x, None => return None };
    let quote_coin = match text_member(v, "quoteCoin") { Some(x) => x, None => return None };
    let launch_time = match text_member(v, "launchTime") { Some(x) => x, None => return None };
    let delivery_time = match text_member(v, "deliveryTime") { Some(x) => x, None => return None };
    let delivery_fee_rate = match text_member(v, "deliveryFeeRate") { Some(x) => x, None => return None };
    let price_scale = match text_member(v, "priceScale") { Some(x) => x, None => return None };
    let leverage_filter = match get_member(v, "leverageFilter") { Some(x) => match decode_leverage_filter(x) { Some(o) => o, None => return None }, None => return None };
    let price_filter = match get_member(v, "priceFilter") { Some(x) => match decode_price_filter(x) { Some(o) => o, None => return None }, None => return None };
    let lot_size_filter = match get_member(v, "lotSizeFilter") { Some(x) => match decode_lot_size_filter(x) { Some(o) => o, None => return None }, None => return None };
    let unified_margin_trade = match bool_value_member(v, "unifiedMarginTrade") { Some(x) => x, None => return None };
    let funding_interval: i32 = match i64_member(v, "fundingInterval") { Some(x) => if i32::MIN as i64 <= x && x <= i32::MAX as i64 { x as i32 } else { return None }, None => return None };
    let settle_coin = match text_member(v, "settleCoin") { Some(x) => x, None => return None };
    let copy_trading = match text_member(v, "copyTrading") { Some(x) => x, None => return None };
    let upper_funding_rate = match text_member(v, "upperFundingRate") { Some(x) => x, None => return None };
    let lower_funding_rate = match text_member(v, "lowerFundingRate") { Some(x) => x, None => return None };
    let is_pre_listing = match bool_value_member(v, "isPreListing") { Some(x) => x, None => return None };
    let pre_listing_info = opt_value_member(v, "preListingInfo");
    let risk_parameters = match get_member(v, "riskParameters") { Some(x) => match decode_risk_parameters(x) { Some(o) => o, None => return None }, None => return None };
    Some(InstrumentInfo { symbol, contract_type, status, base_coin, quote_coin, launch_time, delivery_time, delivery_fee_rate, price_scale, leverage_filter, price_filter, lot_size_filter, unified_margin_trade, funding_interval, settle_coin, copy_trading, upper_funding_rate, lower_funding_rate, is_pre_listing, pre_listing_info, risk_parameters })
}

/// The document is an array of InstrumentInfo documents.
pub open spec fn instrument_info_list_shape(j: Json) -> bool {
    j is Arr && forall|i: int| 0 <= i < j->Arr_0.len() ==> instrument_info_shape(#[trigger] j->Arr_0[i])
}

/// `r` holds the elements of the array, in order.
pub open spec fn instrument_info_list_of(j: Json, r: Seq<InstrumentInfo>) -> bool {
    j is Arr && j->Arr_0.len() == r.len()
        && forall|i: int| 0 <= i < r.len() ==> instrument_info_of(#[trigger] j->Arr_0[i], r[i])
}

/// Reads an array of InstrumentInfo, in order.
pub fn decode_instrument_info_list(v: &serde_json::Value) -> (r: Option<Vec<InstrumentInfo>>)
    ensures
        r is Some == instrument_info_list_shape(json_of(*v)),
        r is Some ==> instrument_info_list_of(json_of(*v), r->Some_0@),
{
    let items = match as_array(v) {
        Some(a) => a,
        None => return None,
    };
    let ghost xs = items@.map_values(|x: serde_json::Value| json_of(x));
    let mut out: Vec<InstrumentInfo> = Vec::new();
    let mut i: usize = 0;
    while i < items.len()
        invariant
            xs == items@.map_values(|x: serde_json::Value| json_of(x)),
            json_of(*v) == Json::Arr(xs),
            i <= items@.len(),
            out@.len() == i,
            forall|k: int| 0 <= k < i ==> instrument_info_shape(#[trigger] xs[k]),
            forall|k: int| 0 <= k < i ==> instrument_info_of(#[trigger] xs[k], out@[k]),
        decreases items@.len() - i,
    {
        match decode_instrument_info(&items[i]) {
            Some(x) => out.push(x),
            None => {
                assert(json_of(*v)->Arr_0[i as int] == xs[i as int]);
                assert(!instrument_info_shape(json_of(*v)->Arr_0[i as int]));
                return None;
            },
        }
        i = i + 1;
    }
    Some(out)
}

/// The instruments of a category, one page.
pub struct InstrumentsInfoResponse {
    pub category: String,
    pub list: Vec<InstrumentInfo>,
    pub next_page_cursor: String,
}

/// The document has the members of InstrumentsInfoResponse.
pub open spec fn instruments_info_response_shape(j: Json) -> bool {
    str_member(j, "category"@) is Some
    && member(j, "list"@) is Some && instrument_info_list_shape(member(j, "list"@)->Some_0)
    && str_member(j, "nextPageCursor"@) is Some
}

/// `r` holds what the document says.
pub open spec fn instruments_info_response_of(j: Json, r: InstrumentsInfoResponse) -> bool {
    str_member(j, "category"@) == Some(r.category@)
    && member(j, "list"@) is Some && instrument_info_list_of(member(j, "list"@)->Some_0, r.list@)
    && str_member(j, "nextPageCursor"@) == Some(r.next_page_cursor@)
}

/// Reads InstrumentsInfoResponse from a document; members not listed are ignored.
pub fn decode_instruments_info_response(v: &serde_json::Value) -> (r: Option<InstrumentsInfoResponse>)
    ensures
        r is Some == instruments_info_response_shape(json_of(*v)),
        r is Some ==> instruments_info_response_of(json_of(*v), r->Some_0),
{
    let category = match text_member(v, "category") { Some(x) => x, None => return None };
    let list = match get_member(v, "list") { Some(x) => match decode_instrument_info_list(x) { Some(l) => l, None => return None }, None => return None };
    let next_page_cursor = match text_member(v, "nextPageCursor") { Some(x) => x, None => return None };
    Some(InstrumentsInfoResponse { category, list, next_page_cursor })
}

/// Bybit's order book: `s`, `a`, `b`, `ts`, `u`, `seq`, `cts`.
pub struct OrderbookResponse {
    pub symbol: String,
    pub asks: Vec<[String; 2]>,
    pub bids: Vec<[String; 2]>,
    pub timestamp: i64,
    pub update_id: i64,
    pub seq: i64,
    pub cross_seq: i64,
}

/// The document has the shape of a server time.
pub open spec fn server_time_shape(j: Json) -> bool {
    str_member(j, "timeSecond"@) is Some && str_member(j, "timeNano"@) is Some
}

/// `r` holds what the document says.
pub open spec fn server_time_of(j: Json, r: ServerTimeResponse) -> bool {
    str_member(j, "timeSecond"@) == Some(r.time_second@) && str_member(j, "timeNano"@) == Some(r.time_nano@)
}

/// Reads a server time payload (`timeSecond`, `timeNano`).
pub fn decode_server_time(v: &serde_json::Value) -> (r: Option<ServerTimeResponse>)
    ensures
        r is Some == server_time_shape(json_of(*v)),
        r is Some ==> server_time_of(json_of(*v), r->Some_0),
{
    let time_second = match text_member(v, "timeSecond") { Some(t) => t, None => return None };
    let time_nano = match text_member(v, "timeNano") { Some(t) => t, None => return None };
    Some(ServerTimeResponse { time_second, time_nano })
}

/// The document has the shape of an order book.
pub open spec fn orderbook_shape(j: Json) -> bool {
    &&& str_member(j, "s"@) is Some
    &&& member(j, "a"@) is Some && levels_of(member(j, "a"@)->Some_0) is Some
    &&& member(j, "b"@) is Some && levels_of(member(j, "b"@)->Some_0) is Some
    &&& int_member(j, "ts"@) is Some
    &&& int_member(j, "u"@) is Some
    &&& int_member(j, "seq"@) is Some
    &&& int_member(j, "cts"@) is Some
}

/// `r` holds what the document says, levels in the order sent.
pub open spec fn orderbook_of(j: Json, r: OrderbookResponse) -> bool {
    &&& str_member(j, "s"@) == Some(r.symbol@)
    &&& levels_of(member(j, "a"@)->Some_0) == Some(text_levels(r.asks@))
    &&& levels_of(member(j, "b"@)->Some_0) == Some(text_levels(r.bids@))
    &&& int_member(j, "ts"@) == Some(r.timestamp)
    &&& int_member(j, "u"@) == Some(r.update_id)
    &&& int_member(j, "seq"@) == Some(r.seq)
    &&& int_member(j, "cts"@) == Some(r.cross_seq)
}

/// Reads an order book payload.
pub fn decode_orderbook(v: &serde_json::Value) -> (r: Option<OrderbookResponse>)
    ensures
        r is Some == orderbook_shape(json_of(*v)),
        r is Some ==> orderbook_of(json_of(*v), r->Some_0),
{
    let symbol = match text_member(v, "s") { Some(t) => t, None => return None };
    let asks = match get_member(v, "a") {
        Some(a) => match decode_levels(a) { Some(l) => l, None => return None },
        None => return None,
    };
    let bids = match get_member(v, "b") {
        Some(b) => match decode_levels(b) { Some(l) => l, None => return None },
        None => return None,
    };
    let timestamp = match i64_member(v, "ts") { Some(t) => t, None => return None };
    let update_id = match i64_member(v, "u") { Some(t) => t, None => return None };
    let seq = match i64_member(v, "seq") { Some(t) => t, None => return None };
    let cross_seq = match i64_member(v, "cts") { Some(t) => t, None => return None };
    Some(OrderbookResponse { symbol, asks, bids, timestamp, update_id, seq, cross_seq })
}

} // verus!
