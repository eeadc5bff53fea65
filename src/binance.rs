//! Binance futures: payload types, direct decoding, and requests.
use vstd::prelude::*;
use crate::envelope::{http_success, transport_detail, transport_detail_text};
use crate::errors::{raw_and_cause, reports_raw, BinanceError};
use crate::json::{
    as_array, bool_member, bool_value_member, decode_texts, error_text, get_member, i64_member,
    int_member, json_of, json_parse, member, nat_member, opt_i32_member, opt_i32_of,
    opt_i32_shape, opt_text_member, opt_text_of, opt_text_shape, opt_texts_member, opt_texts_of,
    opt_texts_shape, parse_value, str_member, text_member, texts_of, u64_member, Json,
};
use crate::levels::{decode_levels, levels_of, text_levels};
use crate::rest::{endpoint_url, BinanceRest, HttpMethod, HttpRequest};
use crate::sign::{canonical_query, ParamValue, ParamView, Params};

verus! {

/// The server's clock in milliseconds.
pub struct ServerTimeResponse {
    pub server_time: u64,
}

/// A request or order rate limit.
pub struct RateLimit {
    pub interval: String,
    pub interval_num: i32,
    pub limit: i32,
    pub rate_limit_type: String,
}

/// The document has the members of RateLimit.
pub open spec fn rate_limit_shape(j: Json) -> bool {
    str_member(j, "interval"@) is Some
    && int_member(j, "intervalNum"@) is Some && i32::MIN <= int_member(j, "intervalNum"@)->Some_0 <= i32::MAX
    && int_member(j, "limit"@) is Some && i32::MIN <= int_member(j, "limit"@)->Some_0 <= i32::MAX
    && str_member(j, "rateLimitType"@) is Some
}

/// `r` holds what the document says.
pub open spec fn rate_limit_of(j: Json, r: RateLimit) -> bool {
    str_member(j, "interval"@) == Some(r.interval@)
    && int_member(j, "intervalNum"@) == Some(r.interval_num as i64)
    && int_member(j, "limit"@) == Some(r.limit as i64)
    && str_member(j, "rateLimitType"@) == Some(r.rate_limit_type@)
}

/// Reads RateLimit from a document; members not listed are ignored.
pub fn decode_rate_limit(v: &serde_json::Value) -> (r: Option<RateLimit>)
    ensures
        r is Some == rate_limit_shape(json_of(*v)),
        r is Some ==> rate_limit_of(json_of(*v), r->Some_0),
{
    let interval = match text_member(v, "interval") { Some(x) => x, None => return None };
    let interval_num: i32 = match i64_member(v, "intervalNum") { Some(x) => if i32::MIN as i64 <= x && x <= i32::MAX as i64 { x as i32 } else { return None }, None => return None };
    let limit: i32 = match i64_member(v, "limit") { Some(x) => if i32::MIN as i64 <= x && x <= i32::MAX as i64 { x as i32 } else { return None }, None => return None };
    let rate_limit_type = match text_member(v, "rateLimitType") { Some(x) => x, None => return None };
    Some(RateLimit { interval, interval_num, limit, rate_limit_type })
}

/// The document is an array of RateLimit documents.
pub open spec fn rate_limit_list_shape(j: Json) -> bool {
    j is Arr && forall|i: int| 0 <= i < j->Arr_0.len() ==> rate_limit_shape(#[trigger] j->Arr_0[i])
}

/// `r` holds the elements of the array, in order.
pub open spec fn rate_limit_list_of(j: Json, r: Seq<RateLimit>) -> bool {
    j is Arr && j->Arr_0.len() == r.len()
        && forall|i: int| 0 <= i < r.len() ==> rate_limit_of(#[trigger] j->Arr_0[i], r[i])
}

/// Reads an array of RateLimit, in order.
pub fn decode_rate_limit_list(v: &serde_json::Value) -> (r: Option<Vec<RateLimit>>)
    ensures
        r is Some == rate_limit_list_shape(json_of(*v)),
        r is Some ==> rate_limit_list_of(json_of(*v), r->Some_0@),
{
    let items = match as_array(v) {
        Some(a) => a,
        None => return None,
    };
    let ghost xs = items@.map_values(|x: serde_json::Value| json_of(x));
    let mut out: Vec<RateLimit> = Vec::new();
    let mut i: usize = 0;
    while i < items.len()
        invariant
            xs == items@.map_values(|x: serde_json::Value| json_of(x)),
            json_of(*v) == Json::Arr(xs),
            i <= items@.len(),
            out@.len() == i,
            forall|k: int| 0 <= k < i ==> rate_limit_shape(#[trigger] xs[k]),
            forall|k: int| 0 <= k < i ==> rate_limit_of(#[trigger] xs[k], out@[k]),
        decreases items@.len() - i,
    {
        match decode_rate_limit(&items[i]) {
            Some(x) => out.push(x),
            None => {
                assert(json_of(*v)->Arr_0[i as int] == xs[i as int]);
                assert(!rate_limit_shape(json_of(*v)->Arr_0[i as int]));
                return None;
            },
        }
        i = i + 1;
    }
    Some(out)
}

/// A margin asset.
pub struct Asset {
    pub asset: String,
    pub margin_available: bool,
    pub auto_asset_exchange: Option<String>,
}

/// The document has the members of Asset.
pub open spec fn asset_shape(j: Json) -> bool {
    str_member(j, "asset"@) is Some
    && bool_member(j, "marginAvailable"@) is Some
    && opt_text_shape(j, "autoAssetExchange"@)
}

/// `r` holds what the document says.
pub open spec fn asset_of(j: Json, r: Asset) -> bool {
    str_member(j, "asset"@) == Some(r.asset@)
    && bool_member(j, "marginAvailable"@) == Some(r.margin_available)
    && (r.auto_asset_exchange is Some) == (opt_text_of(j, "autoAssetExchange"@) is Some) && (r.auto_asset_exchange is Some ==> opt_text_of(j, "autoAssetExchange"@) == Some(r.auto_asset_exchange->Some_0@))
}

/// Reads Asset from a document; members not listed are ignored.
pub fn decode_asset(v: &serde_json::Value) -> (r: Option<Asset>)
    ensures
        r is Some == asset_shape(json_of(*v)),
        r is Some ==> asset_of(json_of(*v), r->Some_0),
{
    let asset = match text_member(v, "asset") { Some(x) => x, None => return None };
    let margin_available = match bool_value_member(v, "marginAvailable") { Some(x) => x, None => return None };
    let auto_asset_exchange = match opt_text_member(v, "autoAssetExchange") { Some(x) => x, None => return None };
    Some(Asset { asset, margin_available, auto_asset_exchange })
}

/// The document is an array of Asset documents.
pub open spec fn asset_list_shape(j: Json) -> bool {
    j is Arr && forall|i: int| 0 <= i < j->Arr_0.len() ==> asset_shape(#[trigger] j->Arr_0[i])
}

/// `r` holds the elements of the array, in order.
pub open spec fn asset_list_of(j: Json, r: Seq<Asset>) -> bool {
    j is Arr && j->Arr_0.len() == r.len()
        && forall|i: int| 0 <= i < r.len() ==> asset_of(#[trigger] j->Arr_0[i], r[i])
}

/// Reads an array of Asset, in order.
pub fn decode_asset_list(v: &serde_json::Value) -> (r: Option<Vec<Asset>>)
    ensures
        r is Some == asset_list_shape(json_of(*v)),
        r is Some ==> asset_list_of(json_of(*v), r->Some_0@),
{
    let items = match as_array(v) {
        Some(a) => a,
        None => return None,
    };
    let ghost xs = items@.map_values(|x: serde_json::Value| json_of(x));
    let mut out: Vec<Asset> = Vec::new();
    let mut i: usize = 0;
    while i < items.len()
        invariant
            xs == items@.map_values(|x: serde_json::Value| json_of(x)),
            json_of(*v) == Json::Arr(xs),
            i <= items@.len(),
            out@.len() == i,
            forall|k: int| 0 <= k < i ==> asset_shape(#[trigger] xs[k]),
            forall|k: int| 0 <= k < i ==> asset_of(#[trigger] xs[k], out@[k]),
        decreases items@.len() - i,
    {
        match decode_asset(&items[i]) {
            Some(x) => out.push(x),
            None => {
                assert(json_of(*v)->Arr_0[i as int] == xs[i as int]);
                assert(!asset_shape(json_of(*v)->Arr_0[i as int]));
                return None;
            },
        }
        i = i + 1;
    }
    Some(out)
}

/// A tradable contract.
pub struct Symbol {
    pub symbol: String,
    pub pair: String,
    pub contract_type: String,
    pub delivery_date: i64,
    pub onboard_date: i64,
    pub status: String,
    pub base_asset: String,
    pub quote_asset: String,
    pub margin_asset: String,
    pub price_precision: i32,
    pub quantity_precision: i32,
    pub base_asset_precision: i32,
    pub quote_precision: i32,
    pub underlying_type: String,
    pub underlying_sub_type: Vec<String>,
    pub settle_plan: Option<i32>,
    pub trigger_protect: String,
    pub order_types: Option<Vec<String>>,
    pub time_in_force: Vec<String>,
    pub liquidation_fee: String,
    pub market_take_bound: String,
}

/// The document has the members of Symbol.
pub open spec fn symbol_shape(j: Json) -> bool {
    str_member(j, "symbol"@) is Some
    && str_member(j, "pair"@) is Some
    && str_member(j, "contractType"@) is Some
    && int_member(j, "deliveryDate"@) is Some
    && int_member(j, "onboardDate"@) is Some
    && str_member(j, "status"@) is Some
    && str_member(j, "baseAsset"@) is Some
    && str_member(j, "quoteAsset"@) is Some
    && str_member(j, "marginAsset"@) is Some
    && int_member(j, "pricePrecision"@) is Some && i32::MIN <= int_member(j, "pricePrecision"@)->Some_0 <= i32::MAX
    && int_member(j, "quantityPrecision"@) is Some && i32::MIN <= int_member(j, "quantityPrecision"@)->Some_0 <= i32::MAX
    && int_member(j, "baseAssetPrecision"@) is Some && i32::MIN <= int_member(j, "baseAssetPrecision"@)->Some_0 <= i32::MAX
    && int_member(j, "quotePrecision"@) is Some && i32::MIN <= int_member(j, "quotePrecision"@)->Some_0 <= i32::MAX
    && str_member(j, "underlyingType"@) is Some
    && member(j, "underlyingSubType"@) is Some && texts_of(member(j, "underlyingSubType"@)->Some_0) is Some
    && opt_i32_shape(j, "settlePlan"@)
    && str_member(j, "triggerProtect"@) is Some
    && opt_texts_shape(j, "OrderType"@)
    && member(j, "timeInForce"@) is Some && texts_of(member(j, "timeInForce"@)->Some_0) is Some
    && str_member(j, "liquidationFee"@) is Some
    && str_member(j, "marketTakeBound"@) is Some
}

/// `r` holds what the document says.
pub open spec fn symbol_of(j: Json, r: Symbol) -> bool {
    str_member(j, "symbol"@) == Some(r.symbol@)
    && str_member(j, "pair"@) == Some(r.pair@)
    && str_member(j, "contractType"@) == Some(r.contract_type@)
    && int_member(j, "deliveryDate"@) == Some(r.delivery_date)
    && int_member(j, "onboardDate"@) == Some(r.onboard_date)
    && str_member(j, "status"@) == Some(r.status@)
    && str_member(j, "baseAsset"@) == Some(r.base_asset@)
    && str_member(j, "quoteAsset"@) == Some(r.quote_asset@)
    && str_member(j, "marginAsset"@) == Some(r.margin_asset@)
    && int_member(j, "pricePrecision"@) == Some(r.price_precision as i64)
    && int_member(j, "quantityPrecision"@) == Some(r.quantity_precision as i64)
    && int_member(j, "baseAssetPrecision"@) == Some(r.base_asset_precision as i64)
    && int_member(j, "quotePrecision"@) == Some(r.quote_precision as i64)
    && str_member(j, "underlyingType"@) == Some(r.underlying_type@)
    && member(j, "underlyingSubType"@) is Some && texts_of(member(j, "underlyingSubType"@)->Some_0) == Some(r.underlying_sub_type@.map_values(|s: String| s@))
    && r.settle_plan == opt_i32_of(j, "settlePlan"@)
    && str_member(j, "triggerProtect"@) == Some(r.trigger_protect@)
    && (r.order_types is Some) == (opt_texts_of(j, "OrderType"@) is Some) && (r.order_types is Some ==> opt_texts_of(j, "OrderType"@) == Some(r.order_types->Some_0@.map_values(|s: String| s@)))
    && member(j, "timeInForce"@) is Some && texts_of(member(j, "timeInForce"@)->Some_0) == Some(r.time_in_force@.map_values(|s: String| s@))
    && str_member(j, "liquidationFee"@) == Some(r.liquidation_fee@)
    && str_member(j, "marketTakeBound"@) == Some(r.market_take_bound@)
}

/// Reads Symbol from a document; members not listed are ignored.
pub fn decode_symbol(v: &serde_json::Value) -> (r: Option<Symbol>)
    ensures
        r is Some == symbol_shape(json_of(*v)),
        r is Some ==> symbol_of(json_of(*v), r->Some_0),
{
    let symbol = match text_member(v, "symbol") { Some(x) => x, None => return None };
    let pair = match text_member(v, "pair") { Some(x) => x, None => return None };
    let contract_type = match text_member(v, "contractType") { Some(x) => x, None => return None };
    let delivery_date = match i64_member(v, "deliveryDate") { Some(x) => x, None => return None };
    let onboard_date = match i64_member(v, "onboardDate") { Some(x) => x, None => return None };
    let status = match text_member(v, "status") { Some(x) => x, None => return None };
    let base_asset = match text_member(v, "baseAsset") { Some(x) => x, None => return None };
    let quote_asset = match text_member(v, "quoteAsset") { Some(x) => x, None => return None };
    let margin_asset = match text_member(v, "marginAsset") { Some(x) => x, None => return None };
    let price_precision: i32 = match i64_member(v, "pricePrecision") { Some(x) => if i32::MIN as i64 <= x && x <= i32::MAX as i64 { x as i32 } else { return None }, None => return None };
    let quantity_precision: i32 = match i64_member(v, "quantityPrecision") { Some(x) => if i32::MIN as i64 <= x && x <= i32::MAX as i64 { x as i32 } else { return None }, None => return None };
    let base_asset_precision: i32 = match i64_member(v, "baseAssetPrecision") { Some(x) => if i32::MIN as i64 <= x && x <= i32::MAX as i64 { x as i32 } else { return None }, None => return None };
    let quote_precision: i32 = match i64_member(v, "quotePrecision") { Some(x) => if i32::MIN as i64 <= x && x <= i32::MAX as i64 { x as i32 } else { return None }, None => return None };
    let underlying_type = match text_member(v, "underlyingType") { Some(x) => x, None => return None };
    let underlying_sub_type = match get_member(v, "underlyingSubType") { Some(x) => match decode_texts(x) { Some(t) => t, None => return None }, None => return None };
    let settle_plan = match opt_i32_member(v, "settlePlan") { Some(x) => x, None => return None };
    let trigger_protect = match text_member(v, "triggerProtect") { Some(x) => x, None => return None };
    let order_types = match opt_texts_member(v, "OrderType") { Some(x) => x, None => return None };
    let time_in_force = match get_member(v, "timeInForce") { Some(x) => match decode_texts(x) { Some(t) => t, None => return None }, None => return None };
    let liquidation_fee = match text_member(v, "liquidationFee") { Some(x) => x, None => return None };
    let market_take_bound = match text_member(v, "marketTakeBound") { Some(x) => x, None => return None };
    Some(Symbol { symbol, pair, contract_type, delivery_date, onboard_date, status, base_asset, quote_asset, margin_asset, price_precision, quantity_precision, base_asset_precision, quote_precision, underlying_type, underlying_sub_type, settle_plan, trigger_protect, order_types, time_in_force, liquidation_fee, market_take_bound })
}

/// The document is an array of Symbol documents.
pub open spec fn symbol_list_shape(j: Json) -> bool {
    j is Arr && forall|i: int| 0 <= i < j->Arr_0.len() ==> symbol_shape(#[trigger] j->Arr_0[i])
}

/// `r` holds the elements of the array, in order.
pub open spec fn symbol_list_of(j: Json, r: Seq<Symbol>) -> bool {
    j is Arr && j->Arr_0.len() == r.len()
        && forall|i: int| 0 <= i < r.len() ==> symbol_of(#[trigger] j->Arr_0[i], r[i])
}

/// Reads an array of Symbol, in order.
pub fn decode_symbol_list(v: &serde_json::Value) -> (r: Option<Vec<Symbol>>)
    ensures
        r is Some == symbol_list_shape(json_of(*v)),
        r is Some ==> symbol_list_of(json_of(*v), r->Some_0@),
{
    let items = match as_array(v) {
        Some(a) => a,
        None => return None,
    };
    let ghost xs = items@.map_values(|x: serde_json::Value| json_of(x));
    let mut out: Vec<Symbol> = Vec::new();
    let mut i: usize = 0;
    while i < items.len()
        invariant
            xs == items@.map_values(|x: serde_json::Value| json_of(x)),
            json_of(*v) == Json::Arr(xs),
            i <= items@.len(),
            out@.len() == i,
            forall|k: int| 0 <= k < i ==> symbol_shape(#[trigger] xs[k]),
            forall|k: int| 0 <= k < i ==> symbol_of(#[trigger] xs[k], out@[k]),
        decreases items@.len() - i,
    {
        match decode_symbol(&items[i]) {
            Some(x) => out.push(x),
            None => {
                assert(json_of(*v)->Arr_0[i as int] == xs[i as int]);
                assert(!symbol_shape(json_of(*v)->Arr_0[i as int]));
                return None;
            },
        }
        i = i + 1;
    }
    Some(out)
}

/// The exchange's rules and instruments.
pub struct ExchangeInfo {
    pub rate_limits: Vec<RateLimit>,
    pub assets: Vec<Asset>,
    pub symbols: Vec<Symbol>,
    pub timezone: String,
}

/// The document has the members of ExchangeInfo.
pub open spec fn exchange_info_shape(j: Json) -> bool {
    member(j, "rateLimits"@) is Some && rate_limit_list_shape(member(j, "rateLimits"@)->Some_0)
    && member(j, "assets"@) is Some && asset_list_shape(member(j, "assets"@)->Some_0)
    && member(j, "symbols"@) is Some && symbol_list_shape(member(j, "symbols"@)->Some_0)
    && str_member(j, "timezone"@) is Some
}

/// `r` holds what the document says.
pub open spec fn exchange_info_of(j: Json, r: ExchangeInfo) -> bool {
    member(j, "rateLimits"@) is Some && rate_limit_list_of(member(j, "rateLimits"@)->Some_0, r.rate_limits@)
    && member(j, "assets"@) is Some && asset_list_of(member(j, "assets"@)->Some_0, r.assets@)
    && member(j, "symbols"@) is Some && symbol_list_of(member(j, "symbols"@)->Some_0, r.symbols@)
    && str_member(j, "timezone"@) == Some(r.timezone@)
}

/// Reads ExchangeInfo from a document; members not listed are ignored.
pub fn decode_exchange_info(v: &serde_json::Value) -> (r: Option<ExchangeInfo>)
    ensures
        r is Some == exchange_info_shape(json_of(*v)),
        r is Some ==> exchange_info_of(json_of(*v), r->Some_0),
{
    let rate_limits = match get_member(v, "rateLimits") { Some(x) => match decode_rate_limit_list(x) { Some(l) => l, None => return None }, None => return None };
    let assets = match get_member(v, "assets") { Some(x) => match decode_asset_list(x) { Some(l) => l, None => return None }, None => return None };
    let symbols = match get_member(v, "symbols") { Some(x) => match decode_symbol_list(x) { Some(l) => l, None => return None }, None => return None };
    let timezone = match text_member(v, "timezone") { Some(x) => x, None => return None };
    Some(ExchangeInfo { rate_limits, assets, symbols, timezone })
}

/// A trading rule of a symbol, tagged by `filterType`.
pub enum Filter {
    PriceFilter { max_price: String, min_price: String, tick_size: String },
    LotSize { max_qty: String, min_qty: String, step_size: String },
    MarketLotSize { max_qty: String, min_qty: String, step_size: String },
    MaxNumOrders { limit: i32 },
    MaxNumAlgoOrders { limit: i32 },
    MinNotional { notional: String },
    PercentPrice { multiplier_up: String, multiplier_down: String, multiplier_decimal: i32 },
}

/// Binance's order book: update id, event time `E`, transaction time `T`,
/// and the levels.
pub struct OrderBook {
    pub last_update_id: Option<i64>,
    pub event_time: i64,
    pub transaction_time: i64,
    pub bids: Vec<[String; 2]>,
    pub asks: Vec<[String; 2]>,
}

/// The document has the shape of a server time.
pub open spec fn server_time_shape(j: Json) -> bool {
    nat_member(j, "serverTime"@) is Some
}

/// Reads a server time (`serverTime`).
pub fn decode_server_time(v: &serde_json::Value) -> (r: Option<ServerTimeResponse>)
    ensures
        r is Some == server_time_shape(json_of(*v)),
        r is Some ==> nat_member(json_of(*v), "serverTime"@) == Some(r->Some_0.server_time),
{
    match u64_member(v, "serverTime") {
        Some(t) => Some(ServerTimeResponse { server_time: t }),
        None => None,
    }
}

/// The document has the shape of an order book; `lastUpdateId` may be
/// absent, but not of another kind.
pub open spec fn order_book_shape(j: Json) -> bool {
    &&& (member(j, "lastUpdateId"@) is None || int_member(j, "lastUpdateId"@) is Some)
    &&& int_member(j, "E"@) is Some
    &&& int_member(j, "T"@) is Some
    &&& member(j, "bids"@) is Some && levels_of(member(j, "bids"@)->Some_0) is Some
    &&& member(j, "asks"@) is Some && levels_of(member(j, "asks"@)->Some_0) is Some
}

/// `r` holds what the document says, levels in the order sent.
pub open spec fn order_book_of(j: Json, r: OrderBook) -> bool {
    &&& r.last_update_id == int_member(j, "lastUpdateId"@)
    &&& int_member(j, "E"@) == Some(r.event_time)
    &&& int_member(j, "T"@) == Some(r.transaction_time)
    &&& levels_of(member(j, "bids"@)->Some_0) == Some(text_levels(r.bids@))
    &&& levels_of(member(j, "asks"@)->Some_0) == Some(text_levels(r.asks@))
}

/// Reads an order book.
pub fn decode_order_book(v: &serde_json::Value) -> (r: Option<OrderBook>)
    ensures
        r is Some == order_book_shape(json_of(*v)),
        r is Some ==> order_book_of(json_of(*v), r->Some_0),
{
    let last_update_id = match get_member(v, "lastUpdateId") {
        Some(_) => match i64_member(v, "lastUpdateId") {
            Some(id) => Some(id),
            None => return None,
        },
        None => None,
    };
    let event_time = match i64_member(v, "E") { Some(t) => t, None => return None };
    let transaction_time = match i64_member(v, "T") { Some(t) => t, None => return None };
    let bids = match get_member(v, "bids") {
        Some(b) => match decode_levels(b) { Some(l) => l, None => return None },
        None => return None,
    };
    let asks = match get_member(v, "asks") {
        Some(a) => match decode_levels(a) { Some(l) => l, None => return None },
        None => return None,
    };
    Some(OrderBook { last_update_id, event_time, transaction_time, bids, asks })
}

/// A rejection in Binance's error shape: integer `code`, text `msg`.
pub open spec fn is_rejection(j: Json) -> bool {
    int_member(j, "code"@) is Some && str_member(j, "msg"@) is Some
}

/// `r` is what a Binance response decodes to when the whole body is read by
/// a decoder with the given shape and contents.
pub open spec fn binance_result<T>(
    status: u16,
    body: Seq<char>,
    r: Result<T, BinanceError>,
    shape: spec_fn(Json) -> bool,
    of: spec_fn(Json, T) -> bool,
) -> bool {
    match json_parse(body) {
        None => if !http_success(status) {
            r matches Err(BinanceError::Unknown(d)) && d@ == transport_detail(status, body)
        } else {
            r matches Err(BinanceError::DeserializeError(m)) && reports_raw(m@, body)
        },
        Some(j) => if !http_success(status) && is_rejection(j) {
            r matches Err(BinanceError::ApiError(c, m))
                && Some(c) == int_member(j, "code"@) && Some(m@) == str_member(j, "msg"@)
        } else if shape(j) {
            r is Ok && of(j, r->Ok_0)
        } else {
            r matches Err(BinanceError::DeserializeError(m)) && reports_raw(m@, body)
        },
    }
}

/// Parses a Binance body into its document, or says why it failed as a
/// Binance error.
pub fn finish_document(status: u16, body: &str) -> (r: Result<serde_json::Value, BinanceError>)
    ensures
        json_parse(body@) is None ==> r is Err && (if !http_success(status) {
            r matches Err(BinanceError::Unknown(d)) && d@ == transport_detail(status, body@)
        } else {
            r matches Err(BinanceError::DeserializeError(m)) && reports_raw(m@, body@)
        }),
        json_parse(body@) matches Some(j) ==> (if !http_success(status) && is_rejection(j) {
            r matches Err(BinanceError::ApiError(c, m))
                && Some(c) == int_member(j, "code"@) && Some(m@) == str_member(j, "msg"@)
        } else {
            r is Ok && json_of(r->Ok_0) == j
        }),
{
    let ok = 200 <= status && status < 300;
    let doc = match parse_value(body) {
        Ok(d) => d,
        Err(e) => {
            if !ok {
                return Err(BinanceError::Unknown(transport_detail_text(status, body)));
            }
            let cause = error_text(&e);
            return Err(BinanceError::DeserializeError(raw_and_cause(body, cause.as_str())));
        },
    };
    if !ok {
        match (i64_member(&doc, "code"), text_member(&doc, "msg")) {
            (Some(c), Some(m)) => return Err(BinanceError::ApiError(c, m)),
            _ => {},
        }
    }
    Ok(doc)
}

/// Decodes the response to a server time request.
pub fn finish_server_time(status: u16, body: &str) -> (r: Result<ServerTimeResponse, BinanceError>)
    ensures
        binance_result(status, body@, r, |j: Json| server_time_shape(j),
            |j: Json, x: ServerTimeResponse| nat_member(j, "serverTime"@) == Some(x.server_time)),
{
    let doc = match finish_document(status, body) { Ok(d) => d, Err(e) => return Err(e) };
    match decode_server_time(&doc) {
        Some(x) => Ok(x),
        None => Err(BinanceError::DeserializeError(raw_and_cause(body, "unexpected shape"))),
    }
}

/// Decodes the response to an exchange information request.
pub fn finish_exchange_info(status: u16, body: &str) -> (r: Result<ExchangeInfo, BinanceError>)
    ensures
        binance_result(status, body@, r, |j: Json| exchange_info_shape(j), |j: Json, x: ExchangeInfo| exchange_info_of(j, x)),
{
    let doc = match finish_document(status, body) { Ok(d) => d, Err(e) => return Err(e) };
    match decode_exchange_info(&doc) {
        Some(x) => Ok(x),
        None => Err(BinanceError::DeserializeError(raw_and_cause(body, "unexpected shape"))),
    }
}

/// Decodes the response to an order book request.
pub fn finish_order_book(status: u16, body: &str) -> (r: Result<OrderBook, BinanceError>)
    ensures
        binance_result(status, body@, r, |j: Json| order_book_shape(j), |j: Json, x: OrderBook| order_book_of(j, x)),
{
    let doc = match finish_document(status, body) { Ok(d) => d, Err(e) => return Err(e) };
    match decode_order_book(&doc) {
        Some(x) => Ok(x),
        None => Err(BinanceError::DeserializeError(raw_and_cause(body, "unexpected shape"))),
    }
}

/// The depth that an order book request asks for when none is given.
pub const DEFAULT_DEPTH: i32 = 5;

/// The depth asked for: `limit`, or the default when none is given.
pub open spec fn depth_of(limit: Option<i32>) -> int {
    match limit {
        Some(l) => l as int,
        None => DEFAULT_DEPTH as int,
    }
}

impl BinanceRest {
    /// `GET fapi/v1/time`.
    pub fn server_time_request(&self) -> (r: HttpRequest)
        ensures
            r.method == HttpMethod::Get,
            r.url@ == endpoint_url(self.host@, "fapi/v1/time"@),
            r.headers@.len() == 0,
            r.body is None,
    {
        let p = Params::new();
        self.get_request("fapi/v1/time", &p)
    }

    /// `GET fapi/v1/exchangeInfo`.
    pub fn exchange_info_request(&self) -> (r: HttpRequest)
        ensures
            r.method == HttpMethod::Get,
            r.url@ == endpoint_url(self.host@, "fapi/v1/exchangeInfo"@),
            r.headers@.len() == 0,
            r.body is None,
    {
        let p = Params::new();
        self.get_request("fapi/v1/exchangeInfo", &p)
    }

    /// `GET fapi/v1/depth` of a symbol, `limit` levels a side (five when
    /// none is given).
    pub fn orderbook_request(&self, symbol: &str, limit: Option<i32>) -> (r: HttpRequest)
        ensures
            r.method == HttpMethod::Get,
            r.url@ == endpoint_url(self.host@, "fapi/v1/depth"@) + "?"@ + canonical_query(seq![
                ("symbol"@, ParamView::Text(symbol@)),
                ("limit"@, ParamView::Int(depth_of(limit))),
            ]),
            r.headers@.len() == 0,
            r.body is None,
    {
        proof {
            reveal_strlit("symbol");
            reveal_strlit("limit");
            assert("symbol"@.len() == 6);
            assert("limit"@.len() == 5);
        }
        let depth: i32 = match limit { Some(l) => l, None => DEFAULT_DEPTH };
        assert(depth as int == depth_of(limit));
        let mut p = Params::new();
        p.insert("symbol", ParamValue::Text(symbol.to_owned()));
        p.insert("limit", ParamValue::Int(depth as i64));
        assert(p@ =~= seq![
            ("symbol"@, ParamView::Text(symbol@)),
            ("limit"@, ParamView::Int(depth_of(limit))),
        ]);
        self.get_request("fapi/v1/depth", &p)
    }
}

} // verus!
