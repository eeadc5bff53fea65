//! Venue-neutral order values.
use vstd::prelude::*;
use crate::decimal::Decimal;

verus! {

/// A limit order to place.
pub struct PlaceOrderParams {
    pub symbol: String,
    pub is_buy: bool,
    pub price: Decimal,
    pub amount: Decimal,
}

/// The venue's and the client's identifiers of a placed order.
pub struct PlaceOrderResponse {
    pub order_id: String,
    pub order_link_id: String,
}

pub struct CancelOrderResponse {}

pub struct CancelAllOrdersResponse {}

pub struct AmendOrderParams {}

pub struct AmendOrderResponse {}

} // verus!
