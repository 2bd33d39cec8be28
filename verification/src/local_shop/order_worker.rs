use vstd::prelude::*;

use crate::model::order::Order;
use crate::model::product::Product;

verus! {

/// The answer of the stock to a worker that asked to take a product.
#[derive(Debug, PartialEq, Eq)]
pub enum AnswerTakeProduct {
    StockProductGiven { product: Product },
    StockNoProduct,
}

/// The answer of the stock to a worker that asked to reserve a product.
#[derive(Debug, PartialEq, Eq)]
pub enum AnswerReserveProduct {
    StockProductReserved,
    StockNoProduct,
}

/// A worker gets its id.
#[derive(Debug, PartialEq, Eq)]
pub struct StartUp {
    pub id: usize,
}

/// A worker gets an order to prepare.
#[derive(Debug, PartialEq, Eq)]
pub struct WorkNewOrder {
    pub order: Order,
}

} // verus!
