use vstd::prelude::*;

use super::db_request::{
    DatabaseMessageBody, DatabaseRequest, DatabaseResponse, RequestCategory, RequestType,
    ResponseStatus,
};
use super::global_stock::{order_product_fits, GlobalStock};
use super::pending_order_results::{
    result_views, results_of, OrderResult, OrderResultView, OrderResultsPendingToReport,
};
use crate::ferris_db::stock_handler::quantities_in_locals;

verus! {

broadcast use vstd::string::to_string_from_display_ensures_for_str;

pub const NOT_FOUND_ECOMMERCE_ID: &'static str = "Not found ecommerce_id";

pub const BAD_REQUEST: &'static str = "Bad Request";

pub const NOT_FOUND_PRODUCT: &'static str = "Not found product";

pub const NOT_FOUND_LOCAL_ID: &'static str = "Not found local_id";

/// The state of the database: the order results waiting for each
/// e-commerce server, the stock of each local shop, and the last id handed
/// to a local shop.
#[derive(Debug)]
pub struct DBHandlerActor {
    pub pending_deliveries: OrderResultsPendingToReport,
    pub global_stock: GlobalStock,
    pub last_local_id: u16,
}

/// Whether `response` is an error with `message` and an empty body.
pub open spec fn is_error(response: &DatabaseResponse, message: Seq<char>) -> bool {
    &&& response.response_status matches ResponseStatus::Error(m) && m@ == message
    &&& response.body is Empty
}

/// Whether the request adds the products of an order to a stock.
pub open spec fn posts_order(request: &DatabaseRequest) -> bool {
    request.request_category is ProductStock && request.request_type is Post
        && request.body is Order
}

/// Whether the request asks for a new local shop id.
pub open spec fn asks_new_local_id(request: &DatabaseRequest) -> bool {
    request.request_category is NewLocalId && request.request_type is GetOne
}

impl DBHandlerActor {
    pub closed spec fn wf(&self) -> bool {
        self.global_stock.wf()
    }

    /// The order results waiting for each e-commerce server.
    pub open spec fn pending(&self) -> Map<u16, Seq<OrderResultView>> {
        self.pending_deliveries.pending()
    }

    /// The stock of each local shop.
    pub open spec fn stocks(&self) -> Map<u16, Map<Seq<char>, i32>> {
        self.global_stock.stocks()
    }

    pub fn new(pending_deliveries: OrderResultsPendingToReport, global_stock: GlobalStock) -> (handler:
        DBHandlerActor)
        requires
            global_stock.wf(),
        ensures
            handler.wf(),
            handler.pending() == pending_deliveries.pending(),
            handler.stocks() == global_stock.stocks(),
            handler.last_local_id == 0,
    {
        DBHandlerActor { pending_deliveries, global_stock, last_local_id: 0 }
    }

    /// Hands out the next local shop id.
    pub fn get_new_local_id(&mut self) -> (id: u16)
        requires
            old(self).last_local_id < u16::MAX,
        ensures
            id == old(self).last_local_id + 1,
            final(self).last_local_id == id,
            final(self).pending_deliveries == old(self).pending_deliveries,
            final(self).global_stock == old(self).global_stock,
    {
        self.last_local_id = self.last_local_id + 1;
        self.last_local_id
    }

    /// Answers one request, changing the state as the request asks.
    #[verifier::rlimit(50)]
    pub fn handle_request(&mut self, request: DatabaseRequest) -> (response: DatabaseResponse)
        requires
            old(self).wf(),
            asks_new_local_id(&request) ==> old(self).last_local_id < u16::MAX,
            posts_order(&request) ==> (request.body matches DatabaseMessageBody::Order(order)
                && forall|i: int|
                0 <= i < order@.products.len() ==> #[trigger] order_product_fits(
                    old(self).stocks(),
                    order@.local_id,
                    order@.products,
                    i,
                )),
            request.body matches DatabaseMessageBody::GlobalStock(_, stock) ==> stock.wf(),
        ensures
            final(self).wf(),
            match request.request_category {
                RequestCategory::PendingDelivery => {
                    &&& final(self).stocks() == old(self).stocks()
                    &&& final(self).last_local_id == old(self).last_local_id
                    &&& match request.request_type {
                        RequestType::GetOne | RequestType::GetAll => match request.body {
                            DatabaseMessageBody::EcommerceId(id) => {
                                &&& response.response_status is Success
                                &&& response.body matches DatabaseMessageBody::ProductsToDelivery(
                                    results,
                                ) && result_views(results@) == results_of(old(self).pending(), id)
                                &&& final(self).pending() == old(self).pending().remove(id)
                            },
                            _ => is_error(&response, NOT_FOUND_ECOMMERCE_ID@) && final(self).pending()
                                == old(self).pending(),
                        },
                        RequestType::Post => match request.body {
                            DatabaseMessageBody::ProductsToDelivery(results) => {
                                &&& response.response_status is Success
                                &&& response.body matches DatabaseMessageBody::ProductsToDelivery(
                                    answered,
                                ) && result_views(answered@) == result_views(results@)
                                &&& final(self).pending() == super::pending_order_results::results_added(
                                    old(self).pending(),
                                    result_views(results@),
                                )
                            },
                            _ => is_error(&response, BAD_REQUEST@) && final(self).pending()
                                == old(self).pending(),
                        },
                        RequestType::Unspecified => is_error(&response, BAD_REQUEST@) && final(self).pending()
                            == old(self).pending(),
                    }
                },
                RequestCategory::ProductStock => {
                    &&& final(self).pending() == old(self).pending()
                    &&& final(self).last_local_id == old(self).last_local_id
                    &&& match request.request_type {
                        RequestType::GetAll => {
                            &&& response.response_status is Success
                            &&& response.body matches DatabaseMessageBody::GlobalStockResponse(all)
                                && all@.dom() == old(self).stocks().dom() && forall|id: u16| #[trigger]
                                all@.contains_key(id) ==> all@[id]@ == old(self).stocks()[id]
                            &&& final(self).stocks() == old(self).stocks()
                        },
                        RequestType::GetOne => {
                            &&& final(self).stocks() == old(self).stocks()
                            &&& match request.body {
                                DatabaseMessageBody::ProductName(name) => {
                                    &&& response.response_status is Success
                                    &&& response.body matches DatabaseMessageBody::ProductQuantityFromLocals(
                                        quantities,
                                    ) && quantities@ == quantities_in_locals(old(self).stocks(), name@)
                                },
                                _ => is_error(&response, NOT_FOUND_PRODUCT@),
                            }
                        },
                        RequestType::Post => {
                            &&& is_error(&response, BAD_REQUEST@)
                            &&& match request.body {
                                DatabaseMessageBody::Order(order) => final(self).stocks() == match super::global_stock::apply_order_products(
                                    old(self).stocks(),
                                    order@.local_id,
                                    order@.products,
                                ) {
                                    Some(after) => after,
                                    None => old(self).stocks(),
                                },
                                DatabaseMessageBody::GlobalStock(id, stock) => final(self).stocks()
                                    == old(self).stocks().insert(id, stock@),
                                _ => final(self).stocks() == old(self).stocks(),
                            }
                        },
                        RequestType::Unspecified => is_error(&response, BAD_REQUEST@) && final(self).stocks()
                            == old(self).stocks(),
                    }
                },
                RequestCategory::NewLocalId => {
                    &&& final(self).pending() == old(self).pending()
                    &&& final(self).stocks() == old(self).stocks()
                    &&& match request.request_type {
                        RequestType::GetOne => {
                            &&& response.response_status is Success
                            &&& response.body == DatabaseMessageBody::LocalId(
                                (old(self).last_local_id + 1) as u16,
                            )
                            &&& final(self).last_local_id == old(self).last_local_id + 1
                        },
                        _ => is_error(&response, BAD_REQUEST@) && final(self).last_local_id
                            == old(self).last_local_id,
                    }
                },
                RequestCategory::CheckLocalId => {
                    &&& final(self).pending() == old(self).pending()
                    &&& final(self).stocks() == old(self).stocks()
                    &&& final(self).last_local_id == old(self).last_local_id
                    &&& match request.request_type {
                        RequestType::GetOne => match request.body {
                            DatabaseMessageBody::LocalId(id) => if old(self).stocks().contains_key(id) {
                                response.response_status is Success && response.body
                                    == DatabaseMessageBody::LocalId(id)
                            } else {
                                is_error(&response, NOT_FOUND_LOCAL_ID@)
                            },
                            _ => is_error(&response, BAD_REQUEST@),
                        },
                        _ => is_error(&response, BAD_REQUEST@),
                    }
                },
            },
    {
        match request.request_category {
            RequestCategory::PendingDelivery => match request.request_type {
                RequestType::GetOne | RequestType::GetAll => {
                    if let DatabaseMessageBody::EcommerceId(ecommerce_id) = request.body {
                        let deliveries = self.pending_deliveries.get_delivery(ecommerce_id);
                        DatabaseResponse::new(
                            ResponseStatus::Success,
                            DatabaseMessageBody::ProductsToDelivery(deliveries),
                        )
                    } else {
                        Self::error(NOT_FOUND_ECOMMERCE_ID)
                    }
                },
                RequestType::Post => {
                    if let DatabaseMessageBody::ProductsToDelivery(products_to_delivery) = request.body {
                        let copy = copy_results(&products_to_delivery);
                        self.pending_deliveries.add_order_results(copy);
                        DatabaseResponse::new(
                            ResponseStatus::Success,
                            DatabaseMessageBody::ProductsToDelivery(products_to_delivery),
                        )
                    } else {
                        Self::error(BAD_REQUEST)
                    }
                },
                RequestType::Unspecified => Self::error(BAD_REQUEST),
            },
            RequestCategory::ProductStock => match request.request_type {
                RequestType::GetAll => {
                    DatabaseResponse::new(
                        ResponseStatus::Success,
                        DatabaseMessageBody::GlobalStockResponse(
                            self.global_stock.get_all_local_shops_stock(),
                        ),
                    )
                },
                RequestType::GetOne => {
                    if let DatabaseMessageBody::ProductName(product_name) = request.body {
                        let product_quantities = self.global_stock.get_products_quantity_in_locals(
                            product_name,
                        );
                        DatabaseResponse::new(
                            ResponseStatus::Success,
                            DatabaseMessageBody::ProductQuantityFromLocals(product_quantities),
                        )
                    } else {
                        Self::error(NOT_FOUND_PRODUCT)
                    }
                },
                RequestType::Post => {
                    match request.body {
                        DatabaseMessageBody::Order(order) => {
                            // The outcome of the order is not part of the answer.
                            let _outcome = self.global_stock.process_order_in_stock(order);
                        },
                        DatabaseMessageBody::GlobalStock(local_shop_id, local_shop_stock) => {
                            self.global_stock.add_local_shop_stock(local_shop_id, local_shop_stock);
                        },
                        _ => {},
                    }
                    Self::error(BAD_REQUEST)
                },
                RequestType::Unspecified => Self::error(BAD_REQUEST),
            },
            RequestCategory::NewLocalId => match request.request_type {
                RequestType::GetOne => {
                    let id = self.get_new_local_id();
                    DatabaseResponse::new(ResponseStatus::Success, DatabaseMessageBody::LocalId(id))
                },
                RequestType::Unspecified | RequestType::Post | RequestType::GetAll => Self::error(
                    BAD_REQUEST,
                ),
            },
            RequestCategory::CheckLocalId => match request.request_type {
                RequestType::GetOne => {
                    if let DatabaseMessageBody::LocalId(local_id) = request.body {
                        if self.global_stock.check_local_id_exists(local_id) {
                            DatabaseResponse::new(
                                ResponseStatus::Success,
                                DatabaseMessageBody::LocalId(local_id),
                            )
                        } else {
                            Self::error(NOT_FOUND_LOCAL_ID)
                        }
                    } else {
                        Self::error(BAD_REQUEST)
                    }
                },
                RequestType::Unspecified | RequestType::Post | RequestType::GetAll => Self::error(
                    BAD_REQUEST,
                ),
            },
        }
    }

    /// An error response with `message` and an empty body.
    fn error(message: &'static str) -> (response: DatabaseResponse)
        ensures
            is_error(&response, message@),
    {
        DatabaseResponse::new(ResponseStatus::Error(message.to_string()), DatabaseMessageBody::Empty)
    }
}

/// A copy of a list of order results, result by result.
fn copy_results(results: &Vec<OrderResult>) -> (copy: Vec<OrderResult>)
    ensures
        result_views(copy@) == result_views(results@),
{
    let mut copy: Vec<OrderResult> = Vec::new();
    let mut i: usize = 0;
    while i < results.len()
        invariant
            i <= results.len(),
            copy@.len() == i,
            result_views(copy@) == result_views(results@).take(i as int),
        decreases results.len() - i,
    {
        let ghost before = copy@;
        let item = results[i].clone();
        copy.push(item);
        proof {
            assert(copy@ == before.push(item));
            assert forall|j: int| 0 <= j < i + 1 implies #[trigger] result_views(copy@)[j]
                == result_views(results@).take(i + 1)[j] by {
                if j < i {
                    assert(result_views(before)[j] == result_views(results@).take(i as int)[j]);
                }
            }
            assert(result_views(copy@) =~= result_views(results@).take(i + 1));
        }
        i = i + 1;
    }
    proof {
        assert(result_views(results@).take(results@.len() as int) =~= result_views(results@));
    }
    copy
}

} // verus!
