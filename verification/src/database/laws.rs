use vstd::prelude::*;

use super::pending_deliveries::{deliveries_added, deliveries_of, OrderToDeliveryView};
use super::pending_order_results::{results_added, results_of, OrderResultView};
use super::global_stock::{apply_order_products, order_product_fits, stock_of};
use crate::model::product::ProductView;
use crate::model::stock_laws::{ordered_quantity, orders_name, quantity_or_zero};

verus! {

/// Applying an order to the stock of a shop, where no entry leaves `i32`,
/// adds every product of the order to that shop: afterwards the shop holds
/// exactly the names it held before and the names the order asks for, and
/// each quantity is the one held before (zero when none was) plus the total
/// the order asks of it. The other shops keep their stock.
pub proof fn law_order_adds_every_product(
    global: Map<u16, Map<Seq<char>, i32>>,
    id: u16,
    products: Seq<ProductView>,
)
    requires
        forall|i: int| 0 <= i < products.len() ==> #[trigger] order_product_fits(global, Some(id), products, i),
    ensures
        apply_order_products(global, Some(id), products) is Some,
        forall|other: u16|
            other != id ==> #[trigger] stock_of(apply_order_products(global, Some(id), products)->0, other)
                == stock_of(global, other),
        forall|name: Seq<char>|
            #[trigger] stock_of(apply_order_products(global, Some(id), products)->0, id).contains_key(name) <==> (
            stock_of(global, id).contains_key(name) || orders_name(products, name)),
        forall|name: Seq<char>|
            #[trigger] quantity_or_zero(stock_of(apply_order_products(global, Some(id), products)->0, id), name)
                == quantity_or_zero(stock_of(global, id), name) + ordered_quantity(products, name),
    decreases products.len(),
{
    if products.len() > 0 {
        let n = products.len() - 1;
        let prefix = products.drop_last();
        let p = products.last();
        assert forall|i: int| 0 <= i < prefix.len() implies #[trigger] order_product_fits(
            global,
            Some(id),
            prefix,
            i,
        ) by {
            assert(prefix.take(i) =~= products.take(i));
            assert(order_product_fits(global, Some(id), products, i));
        }
        law_order_adds_every_product(global, id, prefix);
        let before = apply_order_products(global, Some(id), prefix)->0;
        assert(products.take(n) =~= prefix);
        assert(order_product_fits(global, Some(id), products, n));
        let after = before.insert(id, crate::model::stock::deposited(stock_of(before, id), p));
        assert(apply_order_products(global, Some(id), products) == Some(after));
        assert forall|other: u16| other != id implies #[trigger] stock_of(after, other) == stock_of(global, other) by {
            assert(stock_of(before, other) == stock_of(global, other));
        }
        assert forall|name: Seq<char>| #[trigger] stock_of(after, id).contains_key(name) <==> (stock_of(
            global,
            id,
        ).contains_key(name) || orders_name(products, name)) by {
            assert(stock_of(before, id).contains_key(name) <==> (stock_of(global, id).contains_key(name)
                || orders_name(prefix, name)));
            if orders_name(prefix, name) {
                let i = choose|i: int| 0 <= i < prefix.len() && #[trigger] prefix[i].name == name;
                assert(products[i].name == name);
            }
            if orders_name(products, name) && name != p.name {
                let i = choose|i: int| 0 <= i < products.len() && #[trigger] products[i].name == name;
                assert(prefix[i].name == name);
            }
            if name == p.name {
                assert(products[n].name == name);
            }
        }
        assert forall|name: Seq<char>| #[trigger] quantity_or_zero(stock_of(after, id), name) == quantity_or_zero(
            stock_of(global, id),
            name,
        ) + ordered_quantity(products, name) by {
            assert(quantity_or_zero(stock_of(before, id), name) == quantity_or_zero(stock_of(global, id), name)
                + ordered_quantity(prefix, name));
        }
    }
}

/// Once a batch of deliveries is added, the deliveries kept for a server
/// are those kept before followed by the batch's deliveries for that
/// server, in the batch's order; taking that server's deliveries then
/// leaves none for it.
pub proof fn law_added_deliveries_are_handed_out_in_order(
    pending: Map<u16, Seq<OrderToDeliveryView>>,
    deliveries: Seq<OrderToDeliveryView>,
    id: u16,
)
    ensures
        deliveries_of(deliveries_added(pending, deliveries), id) == deliveries_of(pending, id) + deliveries.filter(
            |d: OrderToDeliveryView| d.ecommerce_id == id,
        ),
        deliveries_of(deliveries_added(pending, deliveries).remove(id), id) == Seq::<OrderToDeliveryView>::empty(),
    decreases deliveries.len(),
{
    reveal(Seq::filter);
    if deliveries.len() > 0 {
        law_added_deliveries_are_handed_out_in_order(pending, deliveries.drop_last(), id);
        let before = deliveries_of(pending, id) + deliveries.drop_last().filter(
            |d: OrderToDeliveryView| d.ecommerce_id == id,
        );
        if deliveries.last().ecommerce_id == id {
            assert(before.push(deliveries.last()) =~= deliveries_of(pending, id) + deliveries.drop_last().filter(
                |d: OrderToDeliveryView| d.ecommerce_id == id,
            ).push(deliveries.last()));
        }
    } else {
        assert(deliveries.filter(|d: OrderToDeliveryView| d.ecommerce_id == id) =~= Seq::<
            OrderToDeliveryView,
        >::empty());
        assert(deliveries_of(pending, id) + Seq::<OrderToDeliveryView>::empty() =~= deliveries_of(pending, id));
    }
}

/// Once a batch of order results is added, the results kept for a server
/// are those kept before followed by the batch's results for that server,
/// in the batch's order; taking that server's results then leaves none for
/// it.
pub proof fn law_added_results_are_handed_out_in_order(
    pending: Map<u16, Seq<OrderResultView>>,
    results: Seq<OrderResultView>,
    id: u16,
)
    ensures
        results_of(results_added(pending, results), id) == results_of(pending, id) + results.filter(
            |r: OrderResultView| r.ecommerce_id == id,
        ),
        results_of(results_added(pending, results).remove(id), id) == Seq::<OrderResultView>::empty(),
    decreases results.len(),
{
    reveal(Seq::filter);
    if results.len() > 0 {
        law_added_results_are_handed_out_in_order(pending, results.drop_last(), id);
        let before = results_of(pending, id) + results.drop_last().filter(|r: OrderResultView| r.ecommerce_id == id);
        if results.last().ecommerce_id == id {
            assert(before.push(results.last()) =~= results_of(pending, id) + results.drop_last().filter(
                |r: OrderResultView| r.ecommerce_id == id,
            ).push(results.last()));
        }
    } else {
        assert(results.filter(|r: OrderResultView| r.ecommerce_id == id) =~= Seq::<OrderResultView>::empty());
        assert(results_of(pending, id) + Seq::<OrderResultView>::empty() =~= results_of(pending, id));
    }
}

} // verus!
