use std::collections::HashSet;
use vstd::prelude::*;

use crate::model::order::{copy_orders, order_views, Order, OrderView};

verus! {

broadcast use vstd::std_specs::hash::group_hash_axioms;

/// Holds the orders of the server and the ids of the local shops that
/// connected.
#[derive(Debug)]
pub struct OrderHandler {
    orders: Vec<Order>,
    local_shop_ids: HashSet<u32>,
}

/// Push the orders.
#[derive(Debug, PartialEq, Eq)]
pub struct PushOrders {}

/// A local shop connected under the given id.
#[derive(Debug, PartialEq, Eq)]
pub struct AddSLMiddlemanAddr {
    pub local_shop_id: u32,
}

impl OrderHandler {
    /// The orders of the server.
    pub closed spec fn orders(&self) -> Seq<OrderView> {
        order_views(self.orders@)
    }

    /// The ids of the local shops that connected.
    pub closed spec fn local_shops(&self) -> Set<u32> {
        self.local_shop_ids@
    }

    pub fn new(orders: &[Order]) -> (handler: OrderHandler)
        ensures
            handler.orders() == order_views(orders@),
            handler.local_shops() == Set::<u32>::empty(),
    {
        OrderHandler { orders: copy_orders(orders), local_shop_ids: HashSet::new() }
    }

    /// Remembers the local shop that connected.
    pub fn handle_add_sl_middleman_addr(&mut self, msg: AddSLMiddlemanAddr)
        ensures
            final(self).orders() == old(self).orders(),
            final(self).local_shops() == old(self).local_shops().insert(msg.local_shop_id),
    {
        self.local_shop_ids.insert(msg.local_shop_id);
    }
}

} // verus!
