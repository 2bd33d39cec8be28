use vstd::prelude::*;

use crate::model::order::{copy_orders, order_views, Order, OrderView};

verus! {

/// Holds the orders to push to the local shops.
#[derive(Debug)]
pub struct OrderPusherActor {
    orders: Vec<Order>,
}

/// Push the orders.
#[derive(Debug, PartialEq, Eq)]
pub struct PushOrders {}

impl OrderPusherActor {
    /// The orders to push.
    pub closed spec fn orders(&self) -> Seq<OrderView> {
        order_views(self.orders@)
    }

    pub fn new(orders: &[Order]) -> (pusher: OrderPusherActor)
        ensures
            pusher.orders() == order_views(orders@),
    {
        OrderPusherActor { orders: copy_orders(orders) }
    }
}

} // verus!
