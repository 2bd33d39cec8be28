use std::collections::HashMap;
use vstd::prelude::*;

use crate::model::order::{Order, OrderView};

verus! {

broadcast use vstd::std_specs::hash::group_hash_axioms;

/// The outcome of an order that an e-commerce server asked a local shop for.
#[derive(Debug, PartialEq, Eq)]
pub struct OrderResult {
    ecommerce_id: u16,
    order: Order,
    was_completed: bool,
}

/// What an order result is as a mathematical value.
pub struct OrderResultView {
    pub ecommerce_id: u16,
    pub order: OrderView,
    pub was_completed: bool,
}

impl View for OrderResult {
    type V = OrderResultView;

    closed spec fn view(&self) -> OrderResultView {
        OrderResultView {
            ecommerce_id: self.ecommerce_id,
            order: self.order@,
            was_completed: self.was_completed,
        }
    }
}

impl OrderResult {
    pub fn new(ecommerce_id: u16, order: Order, was_completed: bool) -> (result: OrderResult)
        ensures
            result@ == (OrderResultView { ecommerce_id, order: order@, was_completed }),
    {
        OrderResult { ecommerce_id, order, was_completed }
    }

    pub fn was_completed(&self) -> (completed: bool)
        ensures
            completed == self@.was_completed,
    {
        self.was_completed
    }

    pub fn get_ecommerce_id(&self) -> (ecommerce_id: u16)
        ensures
            ecommerce_id == self@.ecommerce_id,
    {
        self.ecommerce_id
    }

    pub fn get_order(&self) -> (order: Order)
        ensures
            order@ == self@.order,
    {
        self.order.clone()
    }
}

impl Clone for OrderResult {
    fn clone(&self) -> (copy: Self)
        ensures
            copy@ == self@,
    {
        OrderResult {
            ecommerce_id: self.ecommerce_id,
            order: self.order.clone(),
            was_completed: self.was_completed,
        }
    }
}

/// The views of a list of order results.
pub open spec fn result_views(results: Seq<OrderResult>) -> Seq<OrderResultView> {
    results.map_values(|d: OrderResult| d@)
}

/// The list kept for `id` in `pending`, empty when none is.
pub open spec fn results_of(pending: Map<u16, Seq<OrderResultView>>, id: u16) -> Seq<
    OrderResultView,
> {
    if pending.contains_key(id) {
        pending[id]
    } else {
        Seq::empty()
    }
}

/// `pending` after each of `results`, in order, is appended to the list
/// of its e-commerce server.
pub open spec fn results_added(
    pending: Map<u16, Seq<OrderResultView>>,
    results: Seq<OrderResultView>,
) -> Map<u16, Seq<OrderResultView>>
    decreases results.len(),
{
    if results.len() == 0 {
        pending
    } else {
        let before = results_added(pending, results.drop_last());
        let id = results.last().ecommerce_id;
        before.insert(id, results_of(before, id).push(results.last()))
    }
}

/// The order results waiting to be reported, grouped by e-commerce server.
#[derive(Debug)]
pub struct OrderResultsPendingToReport {
    pending_order_results: HashMap<u16, Vec<OrderResult>>,
}

impl OrderResultsPendingToReport {
    /// The pending results of each e-commerce server, oldest first.
    pub closed spec fn pending(&self) -> Map<u16, Seq<OrderResultView>> {
        self.pending_order_results@.map_values(|list: Vec<OrderResult>| result_views(list@))
    }

    pub fn new() -> (pending: OrderResultsPendingToReport)
        ensures
            pending.pending() == Map::<u16, Seq<OrderResultView>>::empty(),
    {
        let pending = OrderResultsPendingToReport { pending_order_results: HashMap::new() };
        assert(pending.pending() =~= Map::<u16, Seq<OrderResultView>>::empty());
        pending
    }

    /// Appends each result to the list of its e-commerce server.
    pub fn add_order_results(&mut self, results: Vec<OrderResult>)
        ensures
            final(self).pending() == results_added(old(self).pending(), result_views(results@)),
    {
        let ghost views = result_views(results@);
        let mut i: usize = 0;
        while i < results.len()
            invariant
                i <= results.len(),
                views == result_views(results@),
                self.pending() == results_added(old(self).pending(), views.take(i as int)),
            decreases results.len() - i,
        {
            let result = results[i].clone();
            let ecommerce_id = result.get_ecommerce_id();
            let ghost before = self.pending();
            let mut list = match self.pending_order_results.remove(&ecommerce_id) {
                Some(list) => list,
                None => Vec::new(),
            };
            proof {
                assert(result_views(list@) =~= results_of(before, ecommerce_id));
            }
            list.push(result);
            self.pending_order_results.insert(ecommerce_id, list);
            proof {
                assert(views.take(i + 1).drop_last() =~= views.take(i as int));
                assert(views.take(i + 1).last() == views[i as int]);
                assert(result_views(list@) =~= results_of(before, ecommerce_id).push(views[i as int]));
                assert(self.pending() =~= before.insert(
                    ecommerce_id,
                    results_of(before, ecommerce_id).push(views[i as int]),
                ));
            }
            i = i + 1;
        }
        proof {
            assert(views.take(views.len() as int) =~= views);
        }
    }

    /// Takes out and returns every pending result of an e-commerce server.
    pub fn get_delivery(&mut self, ecommerce_id: u16) -> (results: Vec<OrderResult>)
        ensures
            result_views(results@) == results_of(old(self).pending(), ecommerce_id),
            final(self).pending() == old(self).pending().remove(ecommerce_id),
    {
        let removed = self.pending_order_results.remove(&ecommerce_id);
        proof {
            assert(self.pending() =~= old(self).pending().remove(ecommerce_id));
        }
        match removed {
            Some(list) => list,
            None => {
                let empty: Vec<OrderResult> = Vec::new();
                assert(result_views(empty@) =~= Seq::<OrderResultView>::empty());
                empty
            },
        }
    }
}

} // verus!
