use std::collections::HashMap;
use vstd::prelude::*;

use crate::model::order::{Order, OrderView};

verus! {

broadcast use vstd::std_specs::hash::group_hash_axioms;

/// An order that a local shop has to deliver for an e-commerce server.
#[derive(Debug, PartialEq, Eq)]
pub struct OrderToDelivery {
    ecommerce_id: u16,
    order: Order,
}

/// What an order to deliver is as a mathematical value.
pub struct OrderToDeliveryView {
    pub ecommerce_id: u16,
    pub order: OrderView,
}

impl View for OrderToDelivery {
    type V = OrderToDeliveryView;

    closed spec fn view(&self) -> OrderToDeliveryView {
        OrderToDeliveryView { ecommerce_id: self.ecommerce_id, order: self.order@ }
    }
}

impl OrderToDelivery {
    pub fn new(ecommerce_id: u16, order: Order) -> (delivery: OrderToDelivery)
        ensures
            delivery@ == (OrderToDeliveryView { ecommerce_id, order: order@ }),
    {
        OrderToDelivery { ecommerce_id, order }
    }

    pub fn get_ecommerce_id(&self) -> (ecommerce_id: u16)
        ensures
            ecommerce_id == self@.ecommerce_id,
    {
        self.ecommerce_id
    }

    pub fn get_order(&self) -> (order: Order)
        ensures
            order@ == self@.order,
    {
        self.order.clone()
    }
}

impl Clone for OrderToDelivery {
    fn clone(&self) -> (copy: Self)
        ensures
            copy@ == self@,
    {
        OrderToDelivery { ecommerce_id: self.ecommerce_id, order: self.order.clone() }
    }
}

/// The views of a list of orders to deliver.
pub open spec fn delivery_views(deliveries: Seq<OrderToDelivery>) -> Seq<OrderToDeliveryView> {
    deliveries.map_values(|d: OrderToDelivery| d@)
}

/// The list kept for `id` in `pending`, empty when none is.
pub open spec fn deliveries_of(pending: Map<u16, Seq<OrderToDeliveryView>>, id: u16) -> Seq<
    OrderToDeliveryView,
> {
    if pending.contains_key(id) {
        pending[id]
    } else {
        Seq::empty()
    }
}

/// `pending` after each of `deliveries`, in order, is appended to the list
/// of its e-commerce server.
pub open spec fn deliveries_added(
    pending: Map<u16, Seq<OrderToDeliveryView>>,
    deliveries: Seq<OrderToDeliveryView>,
) -> Map<u16, Seq<OrderToDeliveryView>>
    decreases deliveries.len(),
{
    if deliveries.len() == 0 {
        pending
    } else {
        let before = deliveries_added(pending, deliveries.drop_last());
        let id = deliveries.last().ecommerce_id;
        before.insert(id, deliveries_of(before, id).push(deliveries.last()))
    }
}

/// The orders waiting to be delivered, grouped by e-commerce server.
#[derive(Debug)]
pub struct PendingDeliveries {
    deliveries: HashMap<u16, Vec<OrderToDelivery>>,
}

impl PendingDeliveries {
    /// The pending orders of each e-commerce server, oldest first.
    pub closed spec fn pending(&self) -> Map<u16, Seq<OrderToDeliveryView>> {
        self.deliveries@.map_values(|list: Vec<OrderToDelivery>| delivery_views(list@))
    }

    pub fn new() -> (pending: PendingDeliveries)
        ensures
            pending.pending() == Map::<u16, Seq<OrderToDeliveryView>>::empty(),
    {
        let pending = PendingDeliveries { deliveries: HashMap::new() };
        assert(pending.pending() =~= Map::<u16, Seq<OrderToDeliveryView>>::empty());
        pending
    }

    /// Appends each delivery to the list of its e-commerce server.
    pub fn add_deliveries(&mut self, deliveries: Vec<OrderToDelivery>)
        ensures
            final(self).pending() == deliveries_added(old(self).pending(), delivery_views(deliveries@)),
    {
        let ghost views = delivery_views(deliveries@);
        let mut i: usize = 0;
        while i < deliveries.len()
            invariant
                i <= deliveries.len(),
                views == delivery_views(deliveries@),
                self.pending() == deliveries_added(old(self).pending(), views.take(i as int)),
            decreases deliveries.len() - i,
        {
            let delivery = deliveries[i].clone();
            let ecommerce_id = delivery.get_ecommerce_id();
            let ghost before = self.pending();
            let mut list = match self.deliveries.remove(&ecommerce_id) {
                Some(list) => list,
                None => Vec::new(),
            };
            proof {
                assert(delivery_views(list@) =~= deliveries_of(before, ecommerce_id));
            }
            list.push(delivery);
            self.deliveries.insert(ecommerce_id, list);
            proof {
                assert(views.take(i + 1).drop_last() =~= views.take(i as int));
                assert(views.take(i + 1).last() == views[i as int]);
                assert(delivery_views(list@) =~= deliveries_of(before, ecommerce_id).push(views[i as int]));
                assert(self.pending() =~= before.insert(
                    ecommerce_id,
                    deliveries_of(before, ecommerce_id).push(views[i as int]),
                ));
            }
            i = i + 1;
        }
        proof {
            assert(views.take(views.len() as int) =~= views);
        }
    }

    /// Takes out and returns every pending delivery of an e-commerce server.
    pub fn get_delivery(&mut self, ecommerce_id: u16) -> (deliveries: Vec<OrderToDelivery>)
        ensures
            delivery_views(deliveries@) == deliveries_of(old(self).pending(), ecommerce_id),
            final(self).pending() == old(self).pending().remove(ecommerce_id),
    {
        let removed = self.deliveries.remove(&ecommerce_id);
        proof {
            assert(self.pending() =~= old(self).pending().remove(ecommerce_id));
        }
        match removed {
            Some(list) => list,
            None => {
                let empty: Vec<OrderToDelivery> = Vec::new();
                assert(delivery_views(empty@) =~= Seq::<OrderToDeliveryView>::empty());
                empty
            },
        }
    }
}

} // verus!
