//! The first version of the stock database: a request/response server
//! over the stocks of the local shops and the order results pending for
//! each e-commerce server.
pub mod global_stock;
pub mod laws;
pub mod pending_deliveries;
pub mod pending_order_results;
pub mod db_handler;
pub mod db_request;
