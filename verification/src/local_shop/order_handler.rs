use vstd::prelude::*;

use super::order_worker::{StartUp, WorkNewOrder};
use crate::ferris_local_shop::order_handler::{given_views, take_next_order, takes_local};
use crate::model::order::{order_views, Order, OrderView};

verus! {

broadcast use vstd::string::to_string_from_display_ensures_for_str;

pub const NO_MORE_ORDERS: &'static str = "No more orders to send.";

pub const NO_WORKER: &'static str = "No worker with given id.";

pub const WORKER_BUSY: &'static str = "Worker already has an order.";

pub const FINISHED_FROM_UNKNOWN: &'static str = "Order finished from unknown worker.";

pub const NOT_FINISHED_FROM_UNKNOWN: &'static str = "Order not finished from unknown OrderWorker.";

/// Hands the orders of a local shop to its workers, balancing local and
/// web orders among them. Worker ids are 0, 1, 2, ... in the order the
/// workers joined.
#[derive(Debug)]
pub struct OrderHandlerActor {
    local_orders: Vec<Order>,
    web_orders: Vec<Order>,
    given_orders: Vec<Option<Order>>,
}

/// A new worker joins.
#[derive(Debug, PartialEq, Eq)]
pub struct AddNewOrderWorker {}

/// Hand the next order to the given worker.
#[derive(Debug, PartialEq, Eq)]
pub struct SendOrder {
    pub worker_id: usize,
}

/// A worker gathered every product of its order.
#[derive(Debug, PartialEq, Eq)]
pub struct OrderFinished {
    pub worker_id: usize,
    pub order: Order,
}

/// A worker could not gather the products of its order.
#[derive(Debug, PartialEq, Eq)]
pub struct OrderNotFinished {
    pub worker_id: usize,
    pub order: Order,
}

impl OrderHandlerActor {
    /// The local orders still to hand out; the last one goes first.
    pub closed spec fn local_orders(&self) -> Seq<OrderView> {
        order_views(self.local_orders@)
    }

    /// The web orders still to hand out; the last one goes first.
    pub closed spec fn web_orders(&self) -> Seq<OrderView> {
        order_views(self.web_orders@)
    }

    /// For the worker of each id, the order it is working on, if any.
    pub closed spec fn given(&self) -> Seq<Option<OrderView>> {
        given_views(self.given_orders@)
    }

    pub fn new(local_orders: Vec<Order>) -> (handler: OrderHandlerActor)
        ensures
            handler.local_orders() == order_views(local_orders@),
            handler.web_orders() == Seq::<OrderView>::empty(),
            handler.given() == Seq::<Option<OrderView>>::empty(),
    {
        let handler = OrderHandlerActor { local_orders, web_orders: Vec::new(), given_orders: Vec::new() };
        assert(handler.web_orders() =~= Seq::<OrderView>::empty());
        assert(handler.given() =~= Seq::<Option<OrderView>>::empty());
        handler
    }

    /// Takes out the order to hand out next, as `takes_local` says.
    pub fn get_order(&mut self) -> (order: Option<Order>)
        ensures
            final(self).given() == old(self).given(),
            if old(self).local_orders().len() == 0 && old(self).web_orders().len() == 0 {
                &&& order is None
                &&& final(self).local_orders() == old(self).local_orders()
                &&& final(self).web_orders() == old(self).web_orders()
            } else if takes_local(old(self).given(), old(self).local_orders(), old(self).web_orders()) {
                &&& order matches Some(o) && o@ == old(self).local_orders().last()
                &&& final(self).local_orders() == old(self).local_orders().drop_last()
                &&& final(self).web_orders() == old(self).web_orders()
            } else {
                &&& order matches Some(o) && o@ == old(self).web_orders().last()
                &&& final(self).local_orders() == old(self).local_orders()
                &&& final(self).web_orders() == old(self).web_orders().drop_last()
            },
    {
        let order = take_next_order(&self.given_orders, &mut self.local_orders, &mut self.web_orders);
        proof {
            assert(self.given() =~= old(self).given());
            assert(self.local_orders() =~= old(self).local_orders() || self.local_orders() =~= old(
                self,
            ).local_orders().drop_last());
            assert(self.web_orders() =~= old(self).web_orders() || self.web_orders() =~= old(
                self,
            ).web_orders().drop_last());
        }
        order
    }

    /// A new worker joins, idle, under the next id: it is told its id and
    /// gets an order.
    pub fn handle_add_new_order_worker(&mut self, msg: AddNewOrderWorker) -> (steps: (StartUp, SendOrder))
        ensures
            steps.0.id == old(self).given().len(),
            steps.1.worker_id == old(self).given().len(),
            final(self).given() == old(self).given().push(None),
            final(self).local_orders() == old(self).local_orders(),
            final(self).web_orders() == old(self).web_orders(),
    {
        let id = self.given_orders.len();
        self.given_orders.push(None);
        assert(self.given() =~= old(self).given().push(None));
        (StartUp { id }, SendOrder { worker_id: id })
    }

    /// Hands the next order to the worker, which must be idle. With no order
    /// left this is an error; the order is taken out first, and is lost
    /// when the worker is unknown or busy.
    pub fn handle_send_order(&mut self, msg: SendOrder) -> (result: Result<WorkNewOrder, String>)
        ensures
            if old(self).local_orders().len() == 0 && old(self).web_orders().len() == 0 {
                &&& result matches Err(e) && e@ == NO_MORE_ORDERS@
                &&& final(self).local_orders() == old(self).local_orders()
                &&& final(self).web_orders() == old(self).web_orders()
                &&& final(self).given() == old(self).given()
            } else {
                let local = takes_local(old(self).given(), old(self).local_orders(), old(self).web_orders());
                let next = if local {
                    old(self).local_orders().last()
                } else {
                    old(self).web_orders().last()
                };
                &&& final(self).local_orders() == if local {
                    old(self).local_orders().drop_last()
                } else {
                    old(self).local_orders()
                }
                &&& final(self).web_orders() == if local {
                    old(self).web_orders()
                } else {
                    old(self).web_orders().drop_last()
                }
                &&& if msg.worker_id >= old(self).given().len() {
                    &&& result matches Err(e) && e@ == NO_WORKER@
                    &&& final(self).given() == old(self).given()
                } else if old(self).given()[msg.worker_id as int] is Some {
                    &&& result matches Err(e) && e@ == WORKER_BUSY@
                    &&& final(self).given() == old(self).given()
                } else {
                    &&& result matches Ok(work) && work.order@ == next
                    &&& final(self).given() == old(self).given().update(msg.worker_id as int, Some(next))
                }
            },
    {
        let order = match self.get_order() {
            Some(order) => order,
            None => {
                return Err(NO_MORE_ORDERS.to_string());
            },
        };
        if msg.worker_id >= self.given_orders.len() {
            return Err(NO_WORKER.to_string());
        }
        if self.given_orders[msg.worker_id].is_some() {
            return Err(WORKER_BUSY.to_string());
        }
        let given = order.clone();
        self.given_orders.set(msg.worker_id, Some(given));
        proof {
            assert(self.given() =~= old(self).given().update(msg.worker_id as int, Some(order@)));
        }
        Ok(WorkNewOrder { order })
    }

    /// Frees the worker that ended `order`, which must be the order it was
    /// given; the worker then gets the next order.
    fn release(&mut self, worker_id: usize, order: &Order, unknown: &'static str) -> (result: Result<SendOrder, String>)
        ensures
            final(self).local_orders() == old(self).local_orders(),
            final(self).web_orders() == old(self).web_orders(),
            if worker_id >= old(self).given().len() {
                &&& result matches Err(e) && e@ == NO_WORKER@
                &&& final(self).given() == old(self).given()
            } else if old(self).given()[worker_id as int] != Some(order@) {
                &&& result matches Err(e) && e@ == unknown@
                &&& final(self).given() == old(self).given()
            } else {
                &&& result == Ok::<SendOrder, String>(SendOrder { worker_id })
                &&& final(self).given() == old(self).given().update(worker_id as int, None)
            },
    {
        if worker_id >= self.given_orders.len() {
            return Err(NO_WORKER.to_string());
        }
        let matches = match &self.given_orders[worker_id] {
            Some(given) => given.same_as(order),
            None => false,
        };
        if !matches {
            return Err(unknown.to_string());
        }
        self.given_orders.set(worker_id, None);
        assert(self.given() =~= old(self).given().update(worker_id as int, None));
        Ok(SendOrder { worker_id })
    }

    /// A worker finished its order: it is idle again and gets the next one.
    pub fn handle_order_finished(&mut self, msg: OrderFinished) -> (result: Result<SendOrder, String>)
        ensures
            final(self).local_orders() == old(self).local_orders(),
            final(self).web_orders() == old(self).web_orders(),
            if msg.worker_id >= old(self).given().len() {
                &&& result matches Err(e) && e@ == NO_WORKER@
                &&& final(self).given() == old(self).given()
            } else if old(self).given()[msg.worker_id as int] != Some(msg.order@) {
                &&& result matches Err(e) && e@ == FINISHED_FROM_UNKNOWN@
                &&& final(self).given() == old(self).given()
            } else {
                &&& result == Ok::<SendOrder, String>(SendOrder { worker_id: msg.worker_id })
                &&& final(self).given() == old(self).given().update(msg.worker_id as int, None)
            },
    {
        self.release(msg.worker_id, &msg.order, FINISHED_FROM_UNKNOWN)
    }

    /// A worker could not finish its order: it is idle again and gets the
    /// next one.
    pub fn handle_order_not_finished(&mut self, msg: OrderNotFinished) -> (result: Result<SendOrder, String>)
        ensures
            final(self).local_orders() == old(self).local_orders(),
            final(self).web_orders() == old(self).web_orders(),
            if msg.worker_id >= old(self).given().len() {
                &&& result matches Err(e) && e@ == NO_WORKER@
                &&& final(self).given() == old(self).given()
            } else if old(self).given()[msg.worker_id as int] != Some(msg.order@) {
                &&& result matches Err(e) && e@ == NOT_FINISHED_FROM_UNKNOWN@
                &&& final(self).given() == old(self).given()
            } else {
                &&& result == Ok::<SendOrder, String>(SendOrder { worker_id: msg.worker_id })
                &&& final(self).given() == old(self).given().update(msg.worker_id as int, None)
            },
    {
        self.release(msg.worker_id, &msg.order, NOT_FINISHED_FROM_UNKNOWN)
    }
}

} // verus!
