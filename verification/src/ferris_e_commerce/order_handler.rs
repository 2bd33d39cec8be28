use std::collections::HashMap;
use vstd::prelude::*;

use super::order_worker;
use crate::model::order::{copy_orders, order_views, Order, OrderView, WebOrder};
use crate::model::product::{Product, ProductView};
use crate::model::stock::product_views;

verus! {

broadcast use {
    vstd::std_specs::hash::group_hash_axioms,
    vstd::string::to_string_from_display_ensures_for_str,
};

pub const NO_WORKER: &'static str = "No worker with given id.";

pub const WORKER_BUSY: &'static str = "Worker already has an order.";

pub const COMPLETED_FROM_UNKNOWN_WORKER: &'static str = "Order completed from unknown worker.";

pub const CANCELLED_FROM_UNKNOWN_WORKER: &'static str = "Order cancelled from unknown OrderWorker.";

/// The web orders of a server still to be handed out, one product each,
/// and the order each worker is working on.
#[derive(Debug)]
pub struct OrderHandler {
    orders: Vec<Order>,
    order_workers: HashMap<u16, Option<Order>>,
}

/// A new worker joins, under the given id.
#[derive(Debug, PartialEq, Eq)]
pub struct AddOrderWorkerAddr {
    pub order_worker_id: u16,
}

/// Start handing out orders.
#[derive(Debug, PartialEq, Eq)]
pub struct StartUp {}

/// Look for idle workers, from the given worker id on.
#[derive(Debug, PartialEq, Eq)]
pub struct TryFindEmptyOrderWorker {
    pub curr_worker_id: u16,
}

/// Hand the next order to the given worker.
#[derive(Debug, PartialEq, Eq)]
pub struct SendOrderToWorker {
    pub worker_id: u16,
}

/// A worker found a local shop that completed its order.
#[derive(Debug, PartialEq, Eq)]
pub struct OrderCompleted {
    pub worker_id: u16,
    pub order: Order,
}

/// A worker could not get its order completed.
#[derive(Debug, PartialEq, Eq)]
pub struct OrderCancelled {
    pub worker_id: u16,
    pub order: Order,
}

/// What to do after looking at one worker for idleness: perhaps hand it an
/// order, and perhaps look at the next worker.
#[derive(Debug, PartialEq, Eq)]
pub struct EmptyWorkerSearch {
    pub send_order: Option<SendOrderToWorker>,
    pub next: Option<TryFindEmptyOrderWorker>,
}

/// The order made of the single product `product`.
pub open spec fn single_product_order(product: ProductView) -> OrderView {
    OrderView {
        is_web: true,
        products: seq![product],
        local_id: None,
        worker_id: None,
        ss_id: None,
        sl_id: None,
    }
}

/// One web order per product of the web orders of `orders`, in order;
/// local orders are left out.
pub open spec fn single_product_orders(orders: Seq<OrderView>) -> Seq<OrderView>
    decreases orders.len(),
{
    if orders.len() == 0 {
        Seq::empty()
    } else {
        let before = single_product_orders(orders.drop_last());
        if orders.last().is_web {
            before + orders.last().products.map_values(|p: ProductView| single_product_order(p))
        } else {
            before
        }
    }
}

/// The views of the orders given to the workers.
pub open spec fn given_views(workers: Map<u16, Option<Order>>) -> Map<u16, Option<OrderView>> {
    workers.map_values(
        |given: Option<Order>|
            match given {
                Some(o) => Some(o@),
                None => None,
            },
    )
}

/// The products of the web orders of `orders`, order after order.
pub open spec fn web_products(orders: Seq<OrderView>) -> Seq<ProductView>
    decreases orders.len(),
{
    if orders.len() == 0 {
        Seq::empty()
    } else if orders.last().is_web {
        web_products(orders.drop_last()) + orders.last().products
    } else {
        web_products(orders.drop_last())
    }
}

/// Dividing the orders into single products keeps every product of the web
/// orders, in order, one per order, and nothing else.
pub proof fn law_division_keeps_every_web_product(orders: Seq<OrderView>)
    ensures
        single_product_orders(orders).len() == web_products(orders).len(),
        forall|i: int|
            0 <= i < single_product_orders(orders).len() ==> #[trigger] single_product_orders(orders)[i]
                == single_product_order(web_products(orders)[i]),
    decreases orders.len(),
{
    if orders.len() > 0 {
        law_division_keeps_every_web_product(orders.drop_last());
        let before = single_product_orders(orders.drop_last());
        let products = web_products(orders.drop_last());
        if orders.last().is_web {
            let added = orders.last().products.map_values(|p: ProductView| single_product_order(p));
            assert forall|i: int|
                0 <= i < single_product_orders(orders).len() implies #[trigger] single_product_orders(orders)[i]
                == single_product_order(web_products(orders)[i]) by {
                if i < before.len() {
                    assert(single_product_orders(orders)[i] == before[i]);
                    assert(web_products(orders)[i] == products[i]);
                } else {
                    assert(single_product_orders(orders)[i] == added[i - before.len()]);
                    assert(web_products(orders)[i] == orders.last().products[i - products.len()]);
                }
            }
        }
    }
}

impl OrderHandler {
    /// The orders still to hand out; the last one goes first.
    pub closed spec fn pending_orders(&self) -> Seq<OrderView> {
        order_views(self.orders@)
    }

    /// For each worker, the order it is working on, if any.
    pub closed spec fn workers(&self) -> Map<u16, Option<OrderView>> {
        given_views(self.order_workers@)
    }

    pub fn new(orders: &[Order]) -> (handler: OrderHandler)
        ensures
            handler.pending_orders() == single_product_orders(order_views(orders@)),
            handler.workers() == Map::<u16, Option<OrderView>>::empty(),
    {
        let received = copy_orders(orders);
        let handler = OrderHandler {
            orders: Self::divide_orders_into_single_products(received),
            order_workers: HashMap::new(),
        };
        assert(handler.workers() =~= Map::<u16, Option<OrderView>>::empty());
        handler
    }

    /// One web order per product of each web order; local orders are dropped.
    fn divide_orders_into_single_products(received_orders: Vec<Order>) -> (orders: Vec<Order>)
        ensures
            order_views(orders@) == single_product_orders(order_views(received_orders@)),
    {
        let mut new_orders: Vec<Order> = Vec::new();
        let ghost received = order_views(received_orders@);
        let mut i: usize = 0;
        while i < received_orders.len()
            invariant
                i <= received_orders.len(),
                received == order_views(received_orders@),
                order_views(new_orders@) == single_product_orders(received.take(i as int)),
            decreases received_orders.len() - i,
        {
            proof {
                assert(received.take(i + 1).drop_last() =~= received.take(i as int));
            }
            let order = &received_orders[i];
            proof {
                assert(received[i as int] == received_orders@[i as int]@);
                assert(received.take(i + 1).last() == received[i as int]);
            }
            if let Order::Web(web_order) = order {
                proof {
                    assert(received.take(i + 1).last() == order@);
                }
                let products = web_order.get_products();
                let ghost base = order_views(new_orders@);
                let mut k: usize = 0;
                while k < products.len()
                    invariant
                        k <= products.len(),
                        product_views(products@) == order@.products,
                        new_orders@.len() == base.len() + k,
                        order_views(new_orders@) == base + product_views(products@).take(k as int).map_values(
                            |p: ProductView| single_product_order(p),
                        ),
                    decreases products.len() - k,
                {
                    let mut new_products: Vec<Product> = Vec::new();
                    new_products.push(products[k].clone());
                    proof {
                        assert(product_views(new_products@) =~= seq![products@[k as int]@]);
                    }
                    let ghost before = new_orders@;
                    let item = Order::Web(WebOrder::new(new_products));
                    new_orders.push(item);
                    proof {
                        let target = base + product_views(products@).take(k + 1).map_values(
                            |p: ProductView| single_product_order(p),
                        );
                        assert(new_orders@ == before.push(item));
                        assert(item@ == single_product_order(products@[k as int]@));
                        assert forall|j: int| 0 <= j < target.len() implies #[trigger] order_views(new_orders@)[j]
                            == target[j] by {
                            if j < base.len() + k {
                                assert(order_views(before)[j] == order_views(new_orders@)[j]);
                            }
                        }
                        assert(order_views(new_orders@) =~= base + product_views(products@).take(k + 1).map_values(
                            |p: ProductView| single_product_order(p),
                        ));
                    }
                    k = k + 1;
                }
                proof {
                    assert(product_views(products@).take(products@.len() as int) =~= product_views(products@));
                    let t = received.take(i + 1);
                    assert(t.last().is_web);
                    assert(single_product_orders(t) == single_product_orders(t.drop_last()) + t.last().products.map_values(
                        |p: ProductView| single_product_order(p),
                    ));
                }
            } else {
                proof {
                    let t = received.take(i + 1);
                    assert(t.last() == order@);
                    assert(!t.last().is_web);
                    assert(single_product_orders(t) == single_product_orders(t.drop_last()));
                }
            }
            i = i + 1;
        }
        proof {
            assert(received.take(received.len() as int) =~= received);
        }
        new_orders
    }

    /// Takes out the order to hand out next.
    pub fn get_order(&mut self) -> (order: Option<Order>)
        ensures
            final(self).workers() == old(self).workers(),
            if old(self).pending_orders().len() == 0 {
                order is None && final(self).pending_orders() == old(self).pending_orders()
            } else {
                order matches Some(o) && o@ == old(self).pending_orders().last()
                    && final(self).pending_orders() == old(self).pending_orders().drop_last()
            },
    {
        let order = self.orders.pop();
        proof {
            assert(self.pending_orders() =~= if old(self).pending_orders().len() == 0 {
                old(self).pending_orders()
            } else {
                old(self).pending_orders().drop_last()
            });
        }
        order
    }

    /// Registers an idle worker under its id.
    pub fn handle_add_order_worker_addr(&mut self, msg: AddOrderWorkerAddr)
        ensures
            final(self).pending_orders() == old(self).pending_orders(),
            final(self).workers() == old(self).workers().insert(msg.order_worker_id, None),
    {
        self.order_workers.insert(msg.order_worker_id, None);
        assert(self.workers() =~= old(self).workers().insert(msg.order_worker_id, None));
    }

    /// Starts the search for idle workers from the first worker.
    pub fn handle_start_up(&self, msg: StartUp) -> (next: TryFindEmptyOrderWorker)
        ensures
            next.curr_worker_id == 0,
    {
        TryFindEmptyOrderWorker { curr_worker_id: 0 }
    }

    /// Looks at one worker: an idle one gets an order; then the search goes
    /// on with the next id, until the ids run past the number of workers.
    pub fn handle_try_find_empty_order_worker(&self, msg: TryFindEmptyOrderWorker) -> (search:
        EmptyWorkerSearch)
        requires
            msg.curr_worker_id < self.workers().len() ==> msg.curr_worker_id < u16::MAX,
        ensures
            if msg.curr_worker_id >= self.workers().len() {
                search.send_order is None && search.next is None
            } else {
                &&& search.send_order == (if self.workers().contains_key(msg.curr_worker_id)
                    && self.workers()[msg.curr_worker_id] is None {
                    Some(SendOrderToWorker { worker_id: msg.curr_worker_id })
                } else {
                    None
                })
                &&& search.next == Some(TryFindEmptyOrderWorker { curr_worker_id: (msg.curr_worker_id + 1) as u16 })
            },
    {
        proof {
            assert(self.workers().dom() == self.order_workers@.dom());
        }
        if msg.curr_worker_id as usize >= self.order_workers.len() {
            return EmptyWorkerSearch { send_order: None, next: None };
        }
        let send_order = match self.order_workers.get(&msg.curr_worker_id) {
            Some(given) => if given.is_none() {
                Some(SendOrderToWorker { worker_id: msg.curr_worker_id })
            } else {
                None
            },
            None => None,
        };
        EmptyWorkerSearch {
            send_order,
            next: Some(TryFindEmptyOrderWorker { curr_worker_id: msg.curr_worker_id + 1 }),
        }
    }

    /// Hands the next order to the worker, which must be idle.
    ///
    /// The order is taken out first: when the worker is unknown or busy it
    /// is lost, as the error says.
    pub fn handle_send_order_to_worker(&mut self, msg: SendOrderToWorker) -> (result: Result<
        Option<order_worker::WorkNewOrder>,
        String,
    >)
        ensures
            if old(self).pending_orders().len() == 0 {
                &&& result == Ok::<Option<order_worker::WorkNewOrder>, String>(None)
                &&& final(self).pending_orders() == old(self).pending_orders()
                &&& final(self).workers() == old(self).workers()
            } else {
                &&& final(self).pending_orders() == old(self).pending_orders().drop_last()
                &&& if !old(self).workers().contains_key(msg.worker_id) {
                    &&& result matches Err(e) && e@ == NO_WORKER@
                    &&& final(self).workers() == old(self).workers()
                } else if old(self).workers()[msg.worker_id] is Some {
                    &&& result matches Err(e) && e@ == WORKER_BUSY@
                    &&& final(self).workers() == old(self).workers()
                } else {
                    &&& result matches Ok(Some(work)) && work.order@ == old(self).pending_orders().last()
                    &&& final(self).workers() == old(self).workers().insert(
                        msg.worker_id,
                        Some(old(self).pending_orders().last()),
                    )
                }
            },
    {
        match self.get_order() {
            Some(order) => {
                match self.order_workers.get(&msg.worker_id) {
                    Some(given) => {
                        if given.is_some() {
                            return Err(WORKER_BUSY.to_string());
                        }
                    },
                    None => {
                        return Err(NO_WORKER.to_string());
                    },
                }
                let given = order.clone();
                self.order_workers.insert(msg.worker_id, Some(given));
                proof {
                    assert(self.workers() =~= old(self).workers().insert(
                        msg.worker_id,
                        Some(old(self).pending_orders().last()),
                    ));
                }
                Ok(Some(order_worker::WorkNewOrder { order }))
            },
            None => Ok(None),
        }
    }

    /// Frees the worker that finished `order`, which must be the order it
    /// was given; the worker then gets the next order.
    fn finish(&mut self, worker_id: u16, order: &Order, unknown: &'static str) -> (result: Result<
        SendOrderToWorker,
        String,
    >)
        ensures
            final(self).pending_orders() == old(self).pending_orders(),
            if !old(self).workers().contains_key(worker_id) {
                &&& result matches Err(e) && e@ == NO_WORKER@
                &&& final(self).workers() == old(self).workers()
            } else if old(self).workers()[worker_id] != Some(order@) {
                &&& result matches Err(e) && e@ == unknown@
                &&& final(self).workers() == old(self).workers()
            } else {
                &&& result == Ok::<SendOrderToWorker, String>(SendOrderToWorker { worker_id })
                &&& final(self).workers() == old(self).workers().insert(worker_id, None)
            },
    {
        match self.order_workers.get(&worker_id) {
            Some(given) => {
                let matches = match given {
                    Some(g) => g.same_as(order),
                    None => false,
                };
                if !matches {
                    return Err(unknown.to_string());
                }
            },
            None => {
                return Err(NO_WORKER.to_string());
            },
        }
        self.order_workers.insert(worker_id, None);
        assert(self.workers() =~= old(self).workers().insert(worker_id, None));
        Ok(SendOrderToWorker { worker_id })
    }

    /// A worker completed its order: it is idle again and gets the next one.
    pub fn handle_order_completed(&mut self, msg: OrderCompleted) -> (result: Result<
        SendOrderToWorker,
        String,
    >)
        ensures
            final(self).pending_orders() == old(self).pending_orders(),
            if !old(self).workers().contains_key(msg.worker_id) {
                &&& result matches Err(e) && e@ == NO_WORKER@
                &&& final(self).workers() == old(self).workers()
            } else if old(self).workers()[msg.worker_id] != Some(msg.order@) {
                &&& result matches Err(e) && e@ == COMPLETED_FROM_UNKNOWN_WORKER@
                &&& final(self).workers() == old(self).workers()
            } else {
                &&& result == Ok::<SendOrderToWorker, String>(SendOrderToWorker { worker_id: msg.worker_id })
                &&& final(self).workers() == old(self).workers().insert(msg.worker_id, None)
            },
    {
        self.finish(msg.worker_id, &msg.order, COMPLETED_FROM_UNKNOWN_WORKER)
    }

    /// A worker gave up its order: it is idle again and gets the next one.
    pub fn handle_order_cancelled(&mut self, msg: OrderCancelled) -> (result: Result<
        SendOrderToWorker,
        String,
    >)
        ensures
            final(self).pending_orders() == old(self).pending_orders(),
            if !old(self).workers().contains_key(msg.worker_id) {
                &&& result matches Err(e) && e@ == NO_WORKER@
                &&& final(self).workers() == old(self).workers()
            } else if old(self).workers()[msg.worker_id] != Some(msg.order@) {
                &&& result matches Err(e) && e@ == CANCELLED_FROM_UNKNOWN_WORKER@
                &&& final(self).workers() == old(self).workers()
            } else {
                &&& result == Ok::<SendOrderToWorker, String>(SendOrderToWorker { worker_id: msg.worker_id })
                &&& final(self).workers() == old(self).workers().insert(msg.worker_id, None)
            },
    {
        self.finish(msg.worker_id, &msg.order, CANCELLED_FROM_UNKNOWN_WORKER)
    }
}

} // verus!
