//! The stock database: the stock of every local shop, as last reported,
//! and the ids handed to newly registered local shops.
pub mod connection_handler;
pub mod stock_handler;
pub mod laws;
