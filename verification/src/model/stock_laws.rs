use vstd::prelude::*;

use super::product::ProductView;
use super::stock::{can_give, deposit_fits, deposited, deposited_if_held, withdraw_fits, withdrawn};

verus! {

/// The quantity of `name` in `stock`, zero when it holds none.
pub open spec fn quantity_or_zero(stock: Map<Seq<char>, i32>, name: Seq<char>) -> int {
    if stock.contains_key(name) {
        stock[name] as int
    } else {
        0
    }
}

/// The total quantity of `name` over the products of an order.
pub open spec fn ordered_quantity(products: Seq<ProductView>, name: Seq<char>) -> int
    decreases products.len(),
{
    if products.len() == 0 {
        0
    } else {
        ordered_quantity(products.drop_last(), name) + if products.last().name == name {
            products.last().quantity as int
        } else {
            0
        }
    }
}

/// Whether some product of an order is called `name`.
pub open spec fn orders_name(products: Seq<ProductView>, name: Seq<char>) -> bool {
    exists|i: int| 0 <= i < products.len() && #[trigger] products[i].name == name
}

/// Whether no entry of `stock` is negative.
pub open spec fn all_nonnegative(stock: Map<Seq<char>, i32>) -> bool {
    forall|name: Seq<char>| #[trigger] stock.contains_key(name) ==> stock[name] >= 0
}

/// Putting back a product that was just taken gives back the stock as it was.
pub proof fn law_return_undoes_take(stock: Map<Seq<char>, i32>, product: ProductView)
    requires
        can_give(stock, product),
        withdraw_fits(stock, product),
    ensures
        deposited(withdrawn(stock, product), product) == stock,
{
    assert(deposited(withdrawn(stock, product), product) =~= stock);
}

/// Releasing a product that was just reserved puts the shelves back as
/// they were, and leaves the reserved stock as it was, except that an entry
/// for the product, at zero, remains if there was none before.
pub proof fn law_unreserve_undoes_reserve(
    shelves: Map<Seq<char>, i32>,
    reserved: Map<Seq<char>, i32>,
    product: ProductView,
)
    requires
        can_give(shelves, product),
        withdraw_fits(shelves, product),
        deposit_fits(reserved, product),
    ensures
        deposited_if_held(withdrawn(shelves, product), product) == shelves,
        withdrawn(deposited(reserved, product), product) == (if reserved.contains_key(product.name) {
            reserved
        } else {
            reserved.insert(product.name, 0)
        }),
{
    assert(deposited_if_held(withdrawn(shelves, product), product) =~= shelves);
    if reserved.contains_key(product.name) {
        assert(withdrawn(deposited(reserved, product), product) =~= reserved);
    } else {
        assert(withdrawn(deposited(reserved, product), product) =~= reserved.insert(product.name, 0));
    }
}

/// A reservation moves quantity from the shelves to the reserved stock:
/// for every product, shelves and reserved stock together hold as much as
/// before.
pub proof fn law_reserve_keeps_total(
    shelves: Map<Seq<char>, i32>,
    reserved: Map<Seq<char>, i32>,
    product: ProductView,
    name: Seq<char>,
)
    requires
        can_give(shelves, product),
        withdraw_fits(shelves, product),
        deposit_fits(reserved, product),
    ensures
        quantity_or_zero(withdrawn(shelves, product), name) + quantity_or_zero(
            deposited(reserved, product),
            name,
        ) == quantity_or_zero(shelves, name) + quantity_or_zero(reserved, name),
{
}

/// Taking a non-negative quantity that the stock holds never leaves a
/// negative quantity behind.
pub proof fn law_take_keeps_nonnegative(stock: Map<Seq<char>, i32>, product: ProductView)
    requires
        all_nonnegative(stock),
        product.quantity >= 0,
        can_give(stock, product),
    ensures
        all_nonnegative(withdrawn(stock, product)),
{
}

} // verus!
