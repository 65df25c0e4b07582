//! The shape of an order creation request: two token addresses and the
//! application data attached to the order, in one of three encodings.
//!
//! `request` is the plain form of a request body, as far as an order reads
//! it; `app_data` holds the encodings and the rule that picks one from what
//! a request holds under `appData` and `appDataHash`; `order` holds the
//! order itself; `error` holds the one way in which a request is turned
//! down.

pub mod app_data;
pub mod error;
pub mod order;
pub mod request;
