use std::collections::HashMap;
use vstd::prelude::*;
use vstd::std_specs::iter::IteratorSpec;

use super::connection_handler::{self, AskForStockProductFromOrderWorker};
use super::order_handler::{OrderCancelled, OrderCompleted};
use crate::model::order::{Order, OrderView, WebOrder};
use crate::model::stock::product_views;
use crate::random::random_below;

verus! {

broadcast use {
    vstd::std_specs::hash::group_hash_axioms,
    vstd::string::to_string_from_display_ensures_for_str,
};

pub const PRODUCT_NOT_IN_ORDER: &'static str = "Product should be in order.";

pub const NO_ORDER: &'static str = "No order to work on.";

pub const ORDER_NOT_TAKEN: &'static str = "Order not taken by local.";

pub const COMPLETED_FROM_UNKNOWN_LOCAL: &'static str = "Order completed from unknown local.";

pub const CANCELLED_MISMATCH: &'static str = "Order cancelled doesn't match with current order.";

pub const CURRENT_ORDER_EMPTY: &'static str = "Current order is empty.";

pub const NO_LOCAL_ID: &'static str = "";

/// A worker of an e-commerce server: it finds a local shop with enough
/// stock for its current web order, and another one when a shop cannot
/// take it.
#[derive(Debug)]
pub struct OrderWorker {
    id: u16,
    curr_order: Option<Order>,
    cache_of_available_locals_for_curr_order: Vec<u16>,
}

/// A worker gets a new order to work on.
#[derive(Debug, PartialEq, Eq)]
pub struct WorkNewOrder {
    pub order: Order,
}

/// The stock of a product in every local shop, as the database reported it.
#[derive(Debug)]
pub struct SolvedStockProductQueryForOrderWorker {
    pub product_name: String,
    pub stock: HashMap<u16, i32>,
    pub my_ss_id: u16,
    pub my_sl_id: u16,
}

/// The local shop chosen for the current order could not take it.
#[derive(Debug, PartialEq, Eq)]
pub struct OrderNotTakenFromLocal {}

/// A local shop completed an order.
#[derive(Debug, PartialEq, Eq)]
pub struct OrderCompletedFromLocal {
    pub order: Order,
}

/// A local shop cancelled an order.
#[derive(Debug, PartialEq, Eq)]
pub struct OrderCancelledFromLocal {
    pub order: Order,
}

/// What a worker does once it knows where its order could go.
#[derive(Debug, PartialEq, Eq)]
pub enum DispatchDecision {
    /// No local shop can take the order.
    Cancel(OrderCancelled),
    /// The order goes to the local shop it now names.
    Dispatch(connection_handler::WorkNewOrder),
}

/// The local shops that hold at least `required` of a product.
pub open spec fn able_locals(stock: Map<u16, i32>, required: i32) -> Set<u16> {
    Set::new(|id: u16| stock.contains_key(id) && stock[id] >= required)
}

/// The quantity of `name` that a web order asks for: that of its first
/// product of that name.
pub open spec fn required_quantity(order: OrderView, name: Seq<char>) -> Option<i32> {
    if exists|i: int| 0 <= i < order.products.len() && order.products[i].name == name {
        let i = choose|i: int|
            0 <= i < order.products.len() && order.products[i].name == name && forall|j: int|
                0 <= j < i ==> #[trigger] order.products[j].name != name;
        Some(order.products[i].quantity)
    } else {
        None
    }
}

impl OrderWorker {
    pub closed spec fn worker_id(&self) -> u16 {
        self.id
    }

    /// The order the worker is working on.
    pub closed spec fn current(&self) -> Option<OrderView> {
        match self.curr_order {
            Some(o) => Some(o@),
            None => None,
        }
    }

    /// The other local shops that could still take the current order.
    pub closed spec fn spare_locals(&self) -> Seq<u16> {
        self.cache_of_available_locals_for_curr_order@
    }

    pub fn new(id: u16) -> (worker: OrderWorker)
        ensures
            worker.worker_id() == id,
            worker.current() is None,
            worker.spare_locals() == Seq::<u16>::empty(),
    {
        OrderWorker { id, curr_order: None, cache_of_available_locals_for_curr_order: Vec::new() }
    }

    /// Takes on `order` and asks for the stock of each of its products.
    pub fn handle_work_new_order(&mut self, msg: WorkNewOrder) -> (asks: Vec<
        AskForStockProductFromOrderWorker,
    >)
        ensures
            final(self).worker_id() == old(self).worker_id(),
            final(self).current() == Some(msg.order@),
            final(self).spare_locals() == Seq::<u16>::empty(),
            asks@.len() == msg.order@.products.len(),
            forall|i: int| #![trigger asks@[i]]
                0 <= i < asks@.len() ==> asks@[i].product_name@ == msg.order@.products[i].name
                    && asks@[i].worker_id == old(self).worker_id(),
    {
        let products = msg.order.get_products();
        self.curr_order = Some(msg.order);
        self.cache_of_available_locals_for_curr_order = Vec::new();
        let mut asks: Vec<AskForStockProductFromOrderWorker> = Vec::new();
        let mut i: usize = 0;
        while i < products.len()
            invariant
                i <= products.len(),
                asks@.len() == i,
                forall|j: int| #![trigger asks@[j]]
                    0 <= j < i ==> asks@[j].product_name@ == products@[j]@.name
                        && asks@[j].worker_id == self.id,
            decreases products.len() - i,
        {
            asks.push(AskForStockProductFromOrderWorker { product_name: products[i].get_name(), worker_id: self.id });
            i = i + 1;
        }
        proof {
            assert forall|j: int| 0 <= j < asks@.len() implies #[trigger] product_views(products@)[j] == products@[j]@ by {}
        }
        asks
    }

    /// The local shops of `stock` that hold at least `required`.
    fn able_local_ids(stock: &HashMap<u16, i32>, required: i32) -> (able: Vec<u16>)
        ensures
            able@.no_duplicates(),
            able@.to_set() == able_locals(stock@, required),
    {
        let mut able: Vec<u16> = Vec::new();
        for entry in it: stock.iter()
            invariant
                it.seq() == vstd::std_specs::hash::spec_hash_map_iter(stock).remaining(),
                it.seq().no_duplicates(),
                able@.no_duplicates(),
                forall|id: u16| #[trigger]
                    able@.contains(id) <==> exists|j: int|
                        0 <= j < it.index() && *it.seq()[j].0 == id && *it.seq()[j].1 >= required,
                forall|id: u16| #[trigger] able@.contains(id) ==> able_locals(stock@, required).contains(id),
        {
            let (id, quantity) = entry;
            proof {
                assert(entry == it.seq()[it.index()]);
                assert(stock@.contains_key(*id));
                assert(stock@[*id] == *quantity);
            }
            let ghost idx = it.index();
            let ghost before = able@;
            if *quantity >= required {
                proof {
                    assert forall|j: int| 0 <= j < idx implies *it.seq()[j].0 != *id by {
                        if *it.seq()[j].0 == *id {
                            assert(stock@[*id] == *it.seq()[j].1);
                            assert(it.seq()[j] == it.seq()[idx]);
                        }
                    }
                    assert(!before.contains(*id));
                }
                able.push(*id);
                proof {
                    assert forall|a: int, b: int| 0 <= a < able@.len() && 0 <= b < able@.len() && a != b implies able@[a] != able@[b] by {
                        if a == before.len() {
                            assert(able@[a] == *id);
                            assert(able@[b] == before[b]);
                            assert(before.contains(before[b]));
                        } else if b == before.len() {
                            assert(able@[b] == *id);
                            assert(able@[a] == before[a]);
                            assert(before.contains(before[a]));
                        } else {
                            assert(able@[a] == before[a]);
                            assert(able@[b] == before[b]);
                        }
                    }
                }
            }
            proof {
                assert forall|x: u16| #[trigger] able@.contains(x) implies exists|j: int|
                    0 <= j < idx + 1 && *it.seq()[j].0 == x && *it.seq()[j].1 >= required by {
                    if !before.contains(x) {
                        assert(x == *id);
                        assert(*it.seq()[idx].0 == x);
                    }
                }
                assert forall|x: u16| (exists|j: int|
                    0 <= j < idx + 1 && *it.seq()[j].0 == x && *it.seq()[j].1 >= required) implies #[trigger] able@.contains(x) by {
                    let j = choose|j: int| 0 <= j < idx + 1 && *it.seq()[j].0 == x && *it.seq()[j].1 >= required;
                    if j < idx {
                        assert(before.contains(x));
                        let k = choose|k: int| 0 <= k < before.len() && before[k] == x;
                        assert(able@[k] == x);
                    } else {
                        assert(*it.seq()[idx].1 == *quantity);
                        assert(able@.last() == x);
                    }
                }
            }
        }
        proof {
            let seq = vstd::std_specs::hash::spec_hash_map_iter(stock).remaining();
            assert forall|id: u16| #[trigger] able_locals(stock@, required).contains(id) implies able@.contains(id) by {
                assert(seq.contains((&id, &stock@[id])));
                let j = choose|j: int| 0 <= j < seq.len() && seq[j] == (&id, &stock@[id]);
                assert(*seq[j].0 == id);
            }
            assert(able@.to_set() =~= able_locals(stock@, required));
        }
        able
    }

    /// Chooses, at random, one of the local shops that hold enough of the
    /// product for the current web order, and keeps the others in case the
    /// chosen one cannot take it; cancels when there are none.
    pub fn handle_solved_stock_product_query(
        &mut self,
        msg: SolvedStockProductQueryForOrderWorker,
    ) -> (result: Result<DispatchDecision, String>)
        ensures
            final(self).worker_id() == old(self).worker_id(),
            match old(self).current() {
                Some(order) if order.is_web => match required_quantity(order, msg.product_name@) {
                    None => {
                        &&& result matches Err(e) && e@ == PRODUCT_NOT_IN_ORDER@
                        &&& final(self).current() == old(self).current()
                        &&& final(self).spare_locals() == old(self).spare_locals()
                    },
                    Some(required) => if able_locals(msg.stock@, required).is_empty() {
                        &&& result matches Ok(DispatchDecision::Cancel(cancel)) && cancel.worker_id
                            == old(self).worker_id() && cancel.order@ == order
                        &&& final(self).current() == old(self).current()
                        &&& final(self).spare_locals() == old(self).spare_locals()
                    } else {
                        let able = able_locals(msg.stock@, required);
                        &&& final(self).current() matches Some(assigned) && assigned.local_id
                            matches Some(chosen) && able.contains(chosen) && assigned == (OrderView {
                            local_id: Some(chosen),
                            worker_id: Some(old(self).worker_id()),
                            ss_id: Some(msg.my_ss_id),
                            sl_id: Some(msg.my_sl_id),
                            ..order
                        }) && final(self).spare_locals().to_set() == able.remove(chosen)
                        &&& final(self).spare_locals().no_duplicates()
                        &&& result matches Ok(DispatchDecision::Dispatch(work)) && Some(work.order@)
                            == final(self).current()
                    },
                },
                _ => {
                    &&& result matches Err(e) && e@ == NO_ORDER@
                    &&& final(self).current() == old(self).current()
                    &&& final(self).spare_locals() == old(self).spare_locals()
                },
            },
    {
        let mut current = match self.curr_order.take() {
            Some(Order::Web(order)) => order,
            other => {
                self.curr_order = other;
                return Err(NO_ORDER.to_string());
            },
        };
        let required = match current.find_product(&msg.product_name) {
            Some(product) => {
                proof {
                    let order = old(self).current()->0;
                    let i = choose|i: int|
                        0 <= i < order.products.len() && order.products[i] == product@
                            && product@.name == msg.product_name@ && forall|j: int|
                            0 <= j < i ==> #[trigger] order.products[j].name != msg.product_name@;
                    let k = choose|k: int|
                        0 <= k < order.products.len() && order.products[k].name == msg.product_name@
                            && forall|j: int|
                            0 <= j < k ==> #[trigger] order.products[j].name != msg.product_name@;
                    if k < i {
                        assert(order.products[k].name != msg.product_name@);
                    } else if i < k {
                        assert(order.products[i].name != msg.product_name@);
                    }
                }
                product.get_quantity()
            },
            None => {
                self.curr_order = Some(Order::Web(current));
                return Err(PRODUCT_NOT_IN_ORDER.to_string());
            },
        };
        let mut available_locals = Self::able_local_ids(&msg.stock, required);
        if available_locals.len() == 0 {
            proof {
                assert(able_locals(msg.stock@, required) =~= available_locals@.to_set());
            }
            let cancelled = Order::Web(current.clone());
            self.curr_order = Some(Order::Web(current));
            return Ok(DispatchDecision::Cancel(OrderCancelled { worker_id: self.id, order: cancelled }));
        }
        let closest_local = random_below(available_locals.len());
        let closest_local_id = available_locals[closest_local];
        current.set_local_id(closest_local_id);
        current.set_worker_id(self.id);
        current.set_ss_id(msg.my_ss_id);
        current.set_sl_id(msg.my_sl_id);
        let ghost before_removal = available_locals@;
        available_locals.remove(closest_local);
        proof {
            assert(before_removal.contains(closest_local_id));
            lemma_remove_from_unique(before_removal, closest_local as int);
        }
        self.cache_of_available_locals_for_curr_order = available_locals;
        let dispatched = Order::Web(current.clone());
        self.curr_order = Some(Order::Web(current));
        Ok(DispatchDecision::Dispatch(connection_handler::WorkNewOrder { order: dispatched }))
    }

    /// The chosen local shop could not take the order: tries another of the
    /// spare ones, chosen at random, or cancels when none is left.
    pub fn handle_order_not_taken_from_local(&mut self, msg: OrderNotTakenFromLocal) -> (result:
        Result<DispatchDecision, String>)
        ensures
            final(self).worker_id() == old(self).worker_id(),
            match old(self).current() {
                Some(order) if order.is_web => if old(self).spare_locals().len() == 0 {
                    &&& result matches Ok(DispatchDecision::Cancel(cancel)) && cancel.worker_id
                        == old(self).worker_id() && cancel.order@ == order
                    &&& final(self).current() == old(self).current()
                    &&& final(self).spare_locals() == old(self).spare_locals()
                } else {
                    &&& exists|r: int|
                        0 <= r < old(self).spare_locals().len() && final(self).spare_locals()
                            == old(self).spare_locals().remove(r) && final(self).current() == Some(
                            OrderView { local_id: Some(old(self).spare_locals()[r]), ..order },
                        )
                    &&& result matches Ok(DispatchDecision::Dispatch(work)) && Some(work.order@)
                        == final(self).current()
                },
                _ => {
                    &&& result matches Err(e) && e@ == ORDER_NOT_TAKEN@
                    &&& final(self).current() == old(self).current()
                    &&& final(self).spare_locals() == old(self).spare_locals()
                },
            },
    {
        let mut current = match self.curr_order.take() {
            Some(Order::Web(order)) => order,
            other => {
                self.curr_order = other;
                return Err(ORDER_NOT_TAKEN.to_string());
            },
        };
        if self.cache_of_available_locals_for_curr_order.len() == 0 {
            let cancelled = Order::Web(current.clone());
            self.curr_order = Some(Order::Web(current));
            return Ok(DispatchDecision::Cancel(OrderCancelled { worker_id: self.id, order: cancelled }));
        }
        let new_closest_local = random_below(self.cache_of_available_locals_for_curr_order.len());
        let new_closest_local_id = self.cache_of_available_locals_for_curr_order[new_closest_local];
        current.set_local_id(new_closest_local_id);
        self.cache_of_available_locals_for_curr_order.remove(new_closest_local);
        let dispatched = Order::Web(current.clone());
        self.curr_order = Some(Order::Web(current));
        proof {
            assert(final(self).spare_locals() == old(self).spare_locals().remove(new_closest_local as int));
        }
        Ok(DispatchDecision::Dispatch(connection_handler::WorkNewOrder { order: dispatched }))
    }

    /// A local shop completed `order`: if it is the current web order, the
    /// worker reports it done and becomes idle.
    pub fn handle_order_completed_from_local(&mut self, msg: OrderCompletedFromLocal) -> (result:
        Result<OrderCompleted, String>)
        ensures
            final(self).worker_id() == old(self).worker_id(),
            if old(self).current() != Some(msg.order@) {
                &&& result matches Err(e) && e@ == COMPLETED_FROM_UNKNOWN_LOCAL@
                &&& final(self).current() == old(self).current()
                &&& final(self).spare_locals() == old(self).spare_locals()
            } else if !msg.order@.is_web {
                &&& result matches Err(e) && e@ == CURRENT_ORDER_EMPTY@
                &&& final(self).current() == old(self).current()
                &&& final(self).spare_locals() == old(self).spare_locals()
            } else if msg.order@.local_id is None {
                &&& result matches Err(e) && e@ == NO_LOCAL_ID@
                &&& final(self).current() == old(self).current()
                &&& final(self).spare_locals() == old(self).spare_locals()
            } else {
                &&& result matches Ok(done) && done.worker_id == old(self).worker_id() && done.order@
                    == msg.order@
                &&& final(self).current() is None
                &&& final(self).spare_locals() == Seq::<u16>::empty()
            },
    {
        let matches = match &self.curr_order {
            Some(current) => current.same_as(&msg.order),
            None => false,
        };
        if !matches {
            return Err(COMPLETED_FROM_UNKNOWN_LOCAL.to_string());
        }
        if !msg.order.is_web() {
            return Err(CURRENT_ORDER_EMPTY.to_string());
        }
        if msg.order.get_local_id().is_none() {
            return Err(NO_LOCAL_ID.to_string());
        }
        self.curr_order = None;
        self.cache_of_available_locals_for_curr_order = Vec::new();
        Ok(OrderCompleted { worker_id: self.id, order: msg.order })
    }

    /// Whether `handle_order_cancelled_from_local` may be told of `order`:
    /// when it is the current web order with a local shop, it has a product
    /// to ask for again.
    pub fn cancellation_fits(&self, order: &Order) -> (fits: bool)
        ensures
            fits == (self.current() == Some(order@) && order@.is_web && order@.local_id is Some
                ==> order@.products.len() > 0),
    {
        let matches = match &self.curr_order {
            Some(current) => current.same_as(order),
            None => false,
        };
        !matches || !order.is_web() || order.get_local_id().is_none() || order.get_products().len() > 0
    }

    /// A local shop cancelled `order`: if it is the current web order, the
    /// worker forgets the spare local shops and asks for the stock of its
    /// first product again.
    pub fn handle_order_cancelled_from_local(&mut self, msg: OrderCancelledFromLocal) -> (result:
        Result<AskForStockProductFromOrderWorker, String>)
        requires
            old(self).current() == Some(msg.order@) && msg.order@.is_web && msg.order@.local_id is Some
                ==> msg.order@.products.len() > 0,
        ensures
            final(self).worker_id() == old(self).worker_id(),
            final(self).current() == old(self).current(),
            if old(self).current() != Some(msg.order@) {
                &&& result matches Err(e) && e@ == CANCELLED_MISMATCH@
                &&& final(self).spare_locals() == old(self).spare_locals()
            } else if !msg.order@.is_web {
                &&& result matches Err(e) && e@ == CURRENT_ORDER_EMPTY@
                &&& final(self).spare_locals() == old(self).spare_locals()
            } else if msg.order@.local_id is None {
                &&& result matches Err(e) && e@ == NO_LOCAL_ID@
                &&& final(self).spare_locals() == old(self).spare_locals()
            } else {
                &&& result matches Ok(ask) && ask.worker_id == old(self).worker_id()
                    && ask.product_name@ == msg.order@.products[0].name
                &&& final(self).spare_locals() == Seq::<u16>::empty()
            },
    {
        let matches = match &self.curr_order {
            Some(current) => current.same_as(&msg.order),
            None => false,
        };
        if !matches {
            return Err(CANCELLED_MISMATCH.to_string());
        }
        if !msg.order.is_web() {
            return Err(CURRENT_ORDER_EMPTY.to_string());
        }
        if msg.order.get_local_id().is_none() {
            return Err(NO_LOCAL_ID.to_string());
        }
        let products = msg.order.get_products();
        proof {
            assert(product_views(products@)[0] == products@[0]@);
        }
        let product_name = products[0].get_name();
        self.cache_of_available_locals_for_curr_order = Vec::new();
        Ok(AskForStockProductFromOrderWorker { product_name, worker_id: self.id })
    }
}

/// Removing the element at `index` from a sequence without duplicates
/// leaves the set of its elements without that element, and no duplicates.
pub proof fn lemma_remove_from_unique(s: Seq<u16>, index: int)
    requires
        s.no_duplicates(),
        0 <= index < s.len(),
    ensures
        s.remove(index).no_duplicates(),
        s.remove(index).to_set() == s.to_set().remove(s[index]),
{
    let r = s.remove(index);
    assert forall|a: int, b: int| 0 <= a < r.len() && 0 <= b < r.len() && a != b implies r[a] != r[b] by {
        let sa = if a < index { a } else { a + 1 };
        let sb = if b < index { b } else { b + 1 };
        assert(r[a] == s[sa]);
        assert(r[b] == s[sb]);
    }
    assert forall|x: u16| #[trigger] r.to_set().contains(x) <==> s.to_set().remove(s[index]).contains(x) by {
        if r.contains(x) {
            let a = choose|a: int| 0 <= a < r.len() && r[a] == x;
            let sa = if a < index { a } else { a + 1 };
            assert(s[sa] == x);
        }
        if s.contains(x) && x != s[index] {
            let k = choose|k: int| 0 <= k < s.len() && s[k] == x;
            if k < index {
                assert(r[k] == x);
            } else {
                assert(k != index);
                assert(r[k - 1] == x);
            }
        }
    }
    assert(r.to_set() =~= s.to_set().remove(s[index]));
}

} // verus!
