//! The venue-neutral order book, and the normalization of venue levels into it.
use vstd::prelude::*;
use crate::binance::OrderBook;
use crate::bybit_market::OrderbookResponse;
use crate::decimal::{lemma_render_roundtrip, parse_decimal, parse_spec, render_spec, Decimal};
use crate::errors::{raw_and_cause, BinanceError, BybitError};
use crate::levels::{text_level, text_levels};

verus! {

/// One price level: a price and the amount offered at it.
#[derive(Clone, Copy, PartialEq, Eq, Structural, Debug)]
pub struct OrderbookLevel {
    pub price: Decimal,
    pub amount: Decimal,
}

/// An order book in the shared model: levels best to worst, as the venue
/// sent them, and the venue's time of the book in milliseconds.
pub struct Orderbook {
    pub symbol: String,
    pub asks: Vec<OrderbookLevel>,
    pub bids: Vec<OrderbookLevel>,
    pub timestamp_ms: i64,
}

/// Both texts of a level are decimals.
pub open spec fn level_parses(l: (Seq<char>, Seq<char>)) -> bool {
    parse_spec(l.0) is Some && parse_spec(l.1) is Some
}

/// The level that two decimal texts denote.
pub open spec fn level_value(l: (Seq<char>, Seq<char>)) -> OrderbookLevel {
    OrderbookLevel { price: parse_spec(l.0).unwrap(), amount: parse_spec(l.1).unwrap() }
}

/// Every level of the sequence parses.
pub open spec fn all_parse(ls: Seq<(Seq<char>, Seq<char>)>) -> bool {
    forall|i: int| 0 <= i < ls.len() ==> #[trigger] level_parses(ls[i])
}

/// The levels that texts denote, in the same order.
pub open spec fn levels_value(ls: Seq<(Seq<char>, Seq<char>)>) -> Seq<OrderbookLevel> {
    ls.map_values(|l: (Seq<char>, Seq<char>)| level_value(l))
}

/// Converts textual levels into numbers, keeping their order. A text that is
/// not a decimal is returned as the error.
pub fn normalize_levels(levels: &Vec<[String; 2]>) -> (r: Result<Vec<OrderbookLevel>, String>)
    ensures
        r is Ok == all_parse(text_levels(levels@)),
        r is Ok ==> r->Ok_0@ == levels_value(text_levels(levels@)),
        r is Err ==> exists|i: int| 0 <= i < levels@.len()
            && ((parse_spec(levels@[i]@[0]@) is None && r->Err_0@ == levels@[i]@[0]@)
                || (parse_spec(levels@[i]@[1]@) is None && r->Err_0@ == levels@[i]@[1]@)),
{
    let ghost ls = text_levels(levels@);
    let mut out: Vec<OrderbookLevel> = Vec::new();
    let mut i: usize = 0;
    while i < levels.len()
        invariant
            ls == text_levels(levels@),
            i <= levels@.len(),
            out@.len() == i,
            forall|k: int| 0 <= k < i ==> #[trigger] level_parses(ls[k]),
            forall|k: int| 0 <= k < i ==> out@[k] == level_value(#[trigger] ls[k]),
        decreases levels@.len() - i,
    {
        let level = &levels[i];
        assert(ls[i as int] == text_level(levels@[i as int]));
        let price = match parse_decimal(level[0].as_str()) {
            Some(p) => p,
            None => {
                assert(!level_parses(ls[i as int]));
                return Err(level[0].clone());
            },
        };
        let amount = match parse_decimal(level[1].as_str()) {
            Some(a) => a,
            None => {
                assert(!level_parses(ls[i as int]));
                return Err(level[1].clone());
            },
        };
        out.push(OrderbookLevel { price, amount });
        i = i + 1;
    }
    assert(out@ =~= levels_value(ls));
    Ok(out)
}

/// `ob` is the book of `symbol` with the levels that the texts denote, in
/// the order sent, at time `ts`.
pub open spec fn normalized(
    ob: Orderbook,
    symbol: Seq<char>,
    asks: Seq<(Seq<char>, Seq<char>)>,
    bids: Seq<(Seq<char>, Seq<char>)>,
    ts: i64,
) -> bool {
    &&& ob.symbol@ == symbol
    &&& ob.asks@ == levels_value(asks)
    &&& ob.bids@ == levels_value(bids)
    &&& ob.timestamp_ms == ts
}

impl Orderbook {
    /// The shared book of a Bybit book, timed by its `ts`. A price or amount
    /// that is not a decimal fails the whole book.
    pub fn from_bybit_orderbook(orderbook: OrderbookResponse, symbol: String) -> (r: Result<Orderbook, BybitError>)
        ensures
            r is Ok == (all_parse(text_levels(orderbook.asks@)) && all_parse(text_levels(orderbook.bids@))),
            r is Ok ==> normalized(r->Ok_0, symbol@, text_levels(orderbook.asks@), text_levels(orderbook.bids@), orderbook.timestamp),
            r is Err ==> r->Err_0 is DeserializeError,
    {
        let asks = match normalize_levels(&orderbook.asks) {
            Ok(l) => l,
            Err(t) => return Err(BybitError::DeserializeError(raw_and_cause(t.as_str(), "not a decimal"))),
        };
        let bids = match normalize_levels(&orderbook.bids) {
            Ok(l) => l,
            Err(t) => return Err(BybitError::DeserializeError(raw_and_cause(t.as_str(), "not a decimal"))),
        };
        Ok(Orderbook { symbol, asks, bids, timestamp_ms: orderbook.timestamp })
    }

    /// The shared book of a Binance book, timed by its event time `E`. A
    /// price or amount that is not a decimal fails the whole book.
    pub fn from_binance_orderbook(orderbook: OrderBook, symbol: String) -> (r: Result<Orderbook, BinanceError>)
        ensures
            r is Ok == (all_parse(text_levels(orderbook.asks@)) && all_parse(text_levels(orderbook.bids@))),
            r is Ok ==> normalized(r->Ok_0, symbol@, text_levels(orderbook.asks@), text_levels(orderbook.bids@), orderbook.event_time),
            r is Err ==> r->Err_0 is DeserializeError,
    {
        let asks = match normalize_levels(&orderbook.asks) {
            Ok(l) => l,
            Err(t) => return Err(BinanceError::DeserializeError(raw_and_cause(t.as_str(), "not a decimal"))),
        };
        let bids = match normalize_levels(&orderbook.bids) {
            Ok(l) => l,
            Err(t) => return Err(BinanceError::DeserializeError(raw_and_cause(t.as_str(), "not a decimal"))),
        };
        Ok(Orderbook { symbol, asks, bids, timestamp_ms: orderbook.event_time })
    }
}

/// Normalizing levels keeps their number and order, and writing a
/// normalized price or amount back as text gives a text that denotes the
/// same decimal as the text the venue sent.
pub proof fn lemma_levels_roundtrip(texts: Seq<(Seq<char>, Seq<char>)>)
    requires
        all_parse(texts),
    ensures
        levels_value(texts).len() == texts.len(),
        forall|i: int| 0 <= i < texts.len() ==>
            parse_spec(render_spec(#[trigger] levels_value(texts)[i].price)) == parse_spec(texts[i].0)
            && parse_spec(render_spec(levels_value(texts)[i].amount)) == parse_spec(texts[i].1),
{
    assert forall|i: int| 0 <= i < texts.len() implies
        parse_spec(render_spec(#[trigger] levels_value(texts)[i].price)) == parse_spec(texts[i].0)
        && parse_spec(render_spec(levels_value(texts)[i].amount)) == parse_spec(texts[i].1) by {
        assert(level_parses(texts[i]));
        lemma_render_roundtrip(levels_value(texts)[i].price);
        lemma_render_roundtrip(levels_value(texts)[i].amount);
    }
}

/// Milliseconds from a text of nanoseconds: a whole decimal number, divided
/// by one million.
pub open spec fn millis_of_nanos(s: Seq<char>) -> Option<u64> {
    match parse_spec(s) {
        Some(d) => if d.scale == 0 { Some(d.mantissa / 1_000_000) } else { None },
        None => None,
    }
}

/// Converts a text of nanoseconds into milliseconds.
pub fn nanos_text_to_millis(s: &str) -> (r: Option<u64>)
    ensures
        r == millis_of_nanos(s@),
{
    match parse_decimal(s) {
        Some(d) => if d.scale == 0 { Some(d.mantissa / 1_000_000) } else { None },
        None => None,
    }
}

} // verus!
