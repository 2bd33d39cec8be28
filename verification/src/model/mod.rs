//! Data shared by every node of the system: products, orders and stocks.
pub mod product;
pub mod stock;
pub mod order;
pub mod stock_laws;
pub mod messages;
pub mod id_set;
