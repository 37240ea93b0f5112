//! Verified core of the currency exchange gateway: currencies and amounts,
//! exmo market routes, nonces, retry policies, error kinds, request signing
//! and the decision steps of the exchange service.

pub mod amount;
pub mod config;
pub mod currency;
pub mod decimal;
pub mod exmo;
pub mod models;
pub mod nonce;
pub mod order_type;
pub mod repos;
pub mod retry;
pub mod routes;
pub mod services;
pub mod utils;
pub mod validation;
