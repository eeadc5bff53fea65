//! The connectivity core of a multi-venue trading client: request signing
//! over a canonical parameter order, REST request planning, response
//! envelope decoding into typed errors, exact decimal prices, order book
//! normalization, and the streaming session state machine. Sending and
//! receiving bytes is left to the caller.
pub mod binance;
pub mod bybit;
pub mod bybit_market;
pub mod bybit_types;
pub mod capability;
pub mod decimal;
pub mod envelope;
pub mod errors;
pub mod json;
pub mod levels;
pub mod order;
pub mod rest;
pub mod session;
pub mod sign;
pub mod text;
pub mod trade;
pub mod types;
pub mod ws_types;
