use vstd::prelude::*;

use super::stock_handler::{apply_result_products, result_product_fits};
use crate::model::product::ProductView;
use crate::model::stock_laws::ordered_quantity;

verus! {

/// Applying a completed order whose products the shop all holds, where no
/// entry leaves `i32`, takes every product out of that shop: it succeeds,
/// the shop keeps the same names, each quantity is the one held before
/// minus the total the order asks of it, and the other shops keep their
/// stock.
pub proof fn law_completed_order_takes_every_product(
    global: Map<u16, Map<Seq<char>, i32>>,
    id: u16,
    products: Seq<ProductView>,
)
    requires
        global.contains_key(id),
        forall|i: int| 0 <= i < products.len() ==> global[id].contains_key(#[trigger] products[i].name),
        forall|i: int| 0 <= i < products.len() ==> #[trigger] result_product_fits(global, Some(id), products, i),
    ensures
        apply_result_products(global, Some(id), products).1 is None,
        apply_result_products(global, Some(id), products).0.dom() == global.dom(),
        forall|other: u16|
            other != id && global.contains_key(other) ==> #[trigger] apply_result_products(
                global,
                Some(id),
                products,
            ).0[other] == global[other],
        apply_result_products(global, Some(id), products).0[id].dom() == global[id].dom(),
        forall|name: Seq<char>|
            global[id].contains_key(name) ==> #[trigger] apply_result_products(global, Some(id), products).0[id][name]
                == global[id][name] - ordered_quantity(products, name),
    decreases products.len(),
{
    if products.len() > 0 {
        let n = products.len() - 1;
        let prefix = products.drop_last();
        let p = products.last();
        assert forall|i: int| 0 <= i < prefix.len() implies #[trigger] result_product_fits(
            global,
            Some(id),
            prefix,
            i,
        ) by {
            assert(prefix.take(i) =~= products.take(i));
            assert(result_product_fits(global, Some(id), products, i));
        }
        assert forall|i: int| 0 <= i < prefix.len() implies global[id].contains_key(#[trigger] prefix[i].name) by {
            assert(global[id].contains_key(products[i].name));
        }
        law_completed_order_takes_every_product(global, id, prefix);
        let before = apply_result_products(global, Some(id), prefix).0;
        assert(products.take(n) =~= prefix);
        assert(result_product_fits(global, Some(id), products, n));
        assert(global[id].contains_key(products[n].name));
        let after = before.insert(id, crate::model::stock::withdrawn(before[id], p));
        assert(apply_result_products(global, Some(id), products) == (after, None::<super::stock_handler::OrderResultError>));
        assert(after.dom() =~= global.dom());
        assert(after[id].dom() =~= global[id].dom());
    } else {
        assert(apply_result_products(global, Some(id), products).0[id].dom() =~= global[id].dom());
    }
}

} // verus!
