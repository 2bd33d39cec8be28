use std::collections::HashMap;
use vstd::prelude::*;

use super::pending_order_results::OrderResult;
use crate::model::order::Order;
use crate::model::stock::Stock;

verus! {

/// What a request to the database is about.
#[derive(Debug, PartialEq, Eq, Clone, Copy)]
pub enum RequestCategory {
    PendingDelivery,
    ProductStock,
    NewLocalId,
    CheckLocalId,
}

/// What a request asks to do.
#[derive(Debug, PartialEq, Eq, Clone, Copy)]
pub enum RequestType {
    GetOne,
    GetAll,
    Post,
    Unspecified,
}

/// What a request or a response carries.
#[derive(Debug)]
pub enum DatabaseMessageBody {
    EcommerceId(u16),
    OrderId(u32),
    ProductsToDelivery(Vec<OrderResult>),
    ProductName(String),
    ProductQuantityFromLocals(HashMap<u16, i32>),
    GlobalStockResponse(HashMap<u16, Stock>),
    Order(Order),
    GlobalStock(u16, Stock),
    LocalId(u16),
    Empty,
}

/// A request to the database.
#[derive(Debug)]
pub struct DatabaseRequest {
    pub request_category: RequestCategory,
    pub request_type: RequestType,
    pub body: DatabaseMessageBody,
}

impl DatabaseRequest {
    pub fn new(
        request_category: RequestCategory,
        request_type: RequestType,
        body: DatabaseMessageBody,
    ) -> (request: DatabaseRequest)
        ensures
            request == (DatabaseRequest { request_category, request_type, body }),
    {
        DatabaseRequest { request_category, request_type, body }
    }
}

/// Whether the database did what it was asked.
#[derive(Debug, PartialEq, Eq)]
pub enum ResponseStatus {
    Success,
    Error(String),
}

/// The answer of the database to a request.
#[derive(Debug)]
pub struct DatabaseResponse {
    pub response_status: ResponseStatus,
    pub body: DatabaseMessageBody,
}

impl DatabaseResponse {
    pub fn new(response_status: ResponseStatus, body: DatabaseMessageBody) -> (response:
        DatabaseResponse)
        ensures
            response == (DatabaseResponse { response_status, body }),
    {
        DatabaseResponse { response_status, body }
    }
}

} // verus!
