//! Stock and order management for a distributed chain of shops: the
//! verified core behind the e-commerce servers, the local shops and the
//! stock database.
pub mod model;
pub mod console;
pub mod ferris_local_shop;
pub mod local_shop;
pub mod ferris_db;
pub mod customsync;
pub mod database;
pub mod e_commerce;
pub mod ferris_e_commerce;
pub mod random;
pub mod text;
pub mod viewscalc;
