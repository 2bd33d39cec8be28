use std::collections::HashMap;
use vstd::prelude::*;

use super::order::Order;
use super::stock::Stock;

verus! {

/// What an e-commerce server says to another one.
#[derive(Debug)]
pub enum SSMessage {
    TakeMyId { ss_id: u16, sl_id: u16 },
    ElectLeader { requestor_id: u16 },
    SelectedLeader { leader_ss_id: u16, leader_sl_id: u16 },
    DelegateOrderToLeader { order: Order },
    SolvedPreviouslyDelegatedOrder { order: Order, was_completed: bool },
    CannotDispatchPreviouslyDelegatedOrder { order: Order },
    DelegateAskForStockProductToLeader {
        requestor_ss_id: u16,
        requestor_worker_id: u16,
        product_name: String,
    },
    SolvedAskForStockProduct {
        requestor_ss_id: u16,
        requestor_worker_id: u16,
        product_name: String,
        stock: HashMap<u16, i32>,
    },
}

/// What an e-commerce server says to a local shop.
#[derive(Debug)]
pub enum SLMessage {
    LeaderMessage { leader_sl_id: u16 },
    LocalSuccessfullyRegistered { local_id: u16 },
    LocalSuccessfullyLoggedIn,
    AskAllStock,
    WorkNewOrder { order: Order },
}

/// What a local shop says to an e-commerce server.
#[derive(Debug)]
pub enum LSMessage {
    AskLeaderMessage,
    RegisterLocalMessage,
    LoginLocalMessage { local_id: u16 },
    Stock { stock: Stock },
    OrderCompleted { order: Order },
    OrderCancelled { order: Order },
}

/// What an e-commerce server asks the database.
#[derive(Debug)]
pub enum DBRequest {
    TakeMyEcommerceId { ecommerce_id: u16 },
    GetNewLocalId,
    PostStockFromLocal { local_id: u16, stock: Stock },
    PostOrderResult { order: Order },
    GetProductQuantityFromAllLocals { ss_id: u16, worker_id: u16, product_name: String },
}

/// What the database answers an e-commerce server.
#[derive(Debug)]
pub enum DBResponse {
    NewLocalId { local_id: u16 },
    ProductQuantityFromAllLocals {
        ss_id: u16,
        worker_id: u16,
        product_name: String,
        product_quantity_by_local_id: HashMap<u16, i32>,
    },
}

} // verus!
