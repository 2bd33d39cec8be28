use std::collections::{HashMap, HashSet};
use vstd::prelude::*;

use super::stock_handler;
use crate::model::messages::{DBRequest, DBResponse};
use crate::model::order::Order;
use crate::model::stock::Stock;

verus! {

broadcast use vstd::std_specs::hash::group_hash_axioms;

/// Hands out the ids of new local shops, one after the other from 1 on,
/// and remembers which servers are connected.
#[derive(Debug)]
pub struct ConnectionHandler {
    last_local_id: u16,
    db_middlemen: HashSet<u16>,
}

/// A server connected under the given id.
#[derive(Debug, PartialEq, Eq)]
pub struct SaveDBMiddlemanWithId {
    pub ecommerce_id: u16,
}

/// A server asks for the id of a new local shop.
#[derive(Debug, PartialEq, Eq)]
pub struct GetNewLocalId {}

/// A server passes on the stock a local shop reported.
#[derive(Debug)]
pub struct PostStockFromLocal {
    pub local_id: u16,
    pub stock: Stock,
}

/// A server passes on an order that a local shop completed.
#[derive(Debug, PartialEq, Eq)]
pub struct PostOrderResult {
    pub order: Order,
}

/// A server's worker asks how much of a product each local shop holds.
#[derive(Debug, PartialEq, Eq)]
pub struct GetProductQuantityFromAllLocals {
    pub requestor_ss_id: u16,
    pub requestor_worker_id: u16,
    pub product_name: String,
}

/// How much of a product each local shop holds, for the worker that asked.
#[derive(Debug)]
pub struct ReplyToRequestorWithProductQuantityFromAllLocals {
    pub product_quantity_in_locals: HashMap<u16, i32>,
    pub requestor_ss_id: u16,
    pub requestor_worker_id: u16,
    pub product_name: String,
}

/// What a request of a server asks of the database.
#[derive(Debug)]
pub enum DBRouted {
    SaveDBMiddlemanWithId(SaveDBMiddlemanWithId),
    GetNewLocalId(GetNewLocalId),
    PostStockFromLocal(PostStockFromLocal),
    PostOrderResult(PostOrderResult),
    GetProductQuantityFromAllLocals(GetProductQuantityFromAllLocals),
}

impl ConnectionHandler {
    /// The last id handed out; zero before any.
    pub closed spec fn last_id(&self) -> u16 {
        self.last_local_id
    }

    /// The ids of the connected servers.
    pub closed spec fn servers(&self) -> Set<u16> {
        self.db_middlemen@
    }

    pub fn new() -> (handler: ConnectionHandler)
        ensures
            handler.last_id() == 0,
            handler.servers() == Set::<u16>::empty(),
    {
        ConnectionHandler { last_local_id: 0, db_middlemen: HashSet::new() }
    }

    /// The last id handed out; zero before any.
    pub fn get_last_local_id(&self) -> (id: u16)
        ensures
            id == self.last_id(),
    {
        self.last_local_id
    }

    /// The next id: one more than the last one handed out.
    pub fn get_new_local_id(&mut self) -> (local_id: u16)
        requires
            old(self).last_id() < u16::MAX,
        ensures
            local_id == old(self).last_id() + 1,
            final(self).last_id() == local_id,
            final(self).servers() == old(self).servers(),
    {
        self.last_local_id = self.last_local_id + 1;
        self.last_local_id
    }

    /// Remembers the connected server.
    pub fn handle_save_db_middleman_with_id(&mut self, msg: SaveDBMiddlemanWithId)
        ensures
            final(self).last_id() == old(self).last_id(),
            final(self).servers() == old(self).servers().insert(msg.ecommerce_id),
    {
        self.db_middlemen.insert(msg.ecommerce_id);
    }

    /// Answers the id of a new local shop.
    pub fn handle_get_new_local_id(&mut self, msg: GetNewLocalId) -> (response: DBResponse)
        requires
            old(self).last_id() < u16::MAX,
        ensures
            response == (DBResponse::NewLocalId { local_id: (old(self).last_id() + 1) as u16 }),
            final(self).last_id() == old(self).last_id() + 1,
            final(self).servers() == old(self).servers(),
    {
        let local_id = self.get_new_local_id();
        DBResponse::NewLocalId { local_id }
    }

    /// Passes the reported stock on to the stock handler.
    pub fn handle_post_stock_from_local(&self, msg: PostStockFromLocal) -> (forward: stock_handler::PostStockFromLocal)
        ensures
            forward.local_id == msg.local_id,
            forward.stock@ == msg.stock@,
            forward.stock.wf() == msg.stock.wf(),
    {
        stock_handler::PostStockFromLocal { local_id: msg.local_id, stock: msg.stock }
    }

    /// Passes the completed order on to the stock handler.
    pub fn handle_post_order_result(&self, msg: PostOrderResult) -> (forward: stock_handler::PostOrderResult)
        ensures
            forward.order@ == msg.order@,
    {
        stock_handler::PostOrderResult { order: msg.order }
    }

    /// Passes the question on to the stock handler.
    pub fn handle_get_product_quantity_from_all_locals(
        &self,
        msg: GetProductQuantityFromAllLocals,
    ) -> (forward: stock_handler::GetProductQuantityFromAllLocals)
        ensures
            forward.requestor_ss_id == msg.requestor_ss_id,
            forward.requestor_worker_id == msg.requestor_worker_id,
            forward.product_name@ == msg.product_name@,
    {
        stock_handler::GetProductQuantityFromAllLocals {
            requestor_ss_id: msg.requestor_ss_id,
            requestor_worker_id: msg.requestor_worker_id,
            product_name: msg.product_name,
        }
    }

    /// The answer to the server's worker that asked.
    pub fn handle_reply_to_requestor(
        &self,
        msg: ReplyToRequestorWithProductQuantityFromAllLocals,
    ) -> (response: DBResponse)
        ensures
            response matches DBResponse::ProductQuantityFromAllLocals {
                ss_id,
                worker_id,
                product_name,
                product_quantity_by_local_id,
            } && ss_id == msg.requestor_ss_id && worker_id == msg.requestor_worker_id && product_name@
                == msg.product_name@ && product_quantity_by_local_id@ == msg.product_quantity_in_locals@,
    {
        DBResponse::ProductQuantityFromAllLocals {
            ss_id: msg.requestor_ss_id,
            worker_id: msg.requestor_worker_id,
            product_name: msg.product_name,
            product_quantity_by_local_id: msg.product_quantity_in_locals,
        }
    }
}

/// What a request of a server asks of the database.
pub fn route_db_request(request: DBRequest) -> (routed: DBRouted)
    ensures
        match request {
            DBRequest::TakeMyEcommerceId { ecommerce_id } => routed == DBRouted::SaveDBMiddlemanWithId(
                SaveDBMiddlemanWithId { ecommerce_id },
            ),
            DBRequest::GetNewLocalId => routed is GetNewLocalId,
            DBRequest::PostStockFromLocal { local_id, stock } => routed matches DBRouted::PostStockFromLocal(post)
                && post.local_id == local_id && post.stock@ == stock@ && post.stock.wf() == stock.wf(),
            DBRequest::PostOrderResult { order } => routed matches DBRouted::PostOrderResult(post) && post.order@
                == order@,
            DBRequest::GetProductQuantityFromAllLocals { ss_id, worker_id, product_name } => routed matches DBRouted::GetProductQuantityFromAllLocals(
                ask,
            ) && ask.requestor_ss_id == ss_id && ask.requestor_worker_id == worker_id && ask.product_name@
                == product_name@,
        },
{
    match request {
        DBRequest::TakeMyEcommerceId { ecommerce_id } => DBRouted::SaveDBMiddlemanWithId(
            SaveDBMiddlemanWithId { ecommerce_id },
        ),
        DBRequest::GetNewLocalId => DBRouted::GetNewLocalId(GetNewLocalId {}),
        DBRequest::PostStockFromLocal { local_id, stock } => DBRouted::PostStockFromLocal(
            PostStockFromLocal { local_id, stock },
        ),
        DBRequest::PostOrderResult { order } => DBRouted::PostOrderResult(PostOrderResult { order }),
        DBRequest::GetProductQuantityFromAllLocals { ss_id, worker_id, product_name } => DBRouted::GetProductQuantityFromAllLocals(
            GetProductQuantityFromAllLocals {
                requestor_ss_id: ss_id,
                requestor_worker_id: worker_id,
                product_name,
            },
        ),
    }
}

} // verus!
