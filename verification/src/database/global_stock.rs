use std::collections::HashMap;
use vstd::prelude::*;
use vstd::std_specs::iter::IteratorSpec;

use crate::ferris_db::stock_handler::{quantities_in_locals, quantity_in};
use crate::model::order::Order;
use crate::model::product::ProductView;
use crate::model::stock::{deposit_fits, deposited, product_views, Stock};

verus! {

broadcast use vstd::std_specs::hash::group_hash_axioms;

/// The stocks of all local shops, each under the id of its shop.
#[derive(Debug)]
pub struct GlobalStock {
    global_stock: HashMap<u16, Stock>,
}

/// Why an order could not be applied to the global stock.
#[derive(Debug, PartialEq, Eq)]
pub enum ProductError {
    NegativeQuantity,
}

/// The stock recorded for `id` in `global`, empty when none is.
pub open spec fn stock_of(global: Map<u16, Map<Seq<char>, i32>>, id: u16) -> Map<Seq<char>, i32> {
    if global.contains_key(id) {
        global[id]
    } else {
        Map::empty()
    }
}

/// `global` after the products of an order are added one after the other
/// to the stock of `local`; `None` when the order names no local shop and
/// has products.
pub open spec fn apply_order_products(
    global: Map<u16, Map<Seq<char>, i32>>,
    local: Option<u16>,
    products: Seq<ProductView>,
) -> Option<Map<u16, Map<Seq<char>, i32>>>
    decreases products.len(),
{
    if products.len() == 0 {
        Some(global)
    } else {
        match apply_order_products(global, local, products.drop_last()) {
            None => None,
            Some(before) => match local {
                None => None,
                Some(id) => Some(before.insert(id, deposited(stock_of(before, id), products.last()))),
            },
        }
    }
}

/// Whether adding the product at `index`, once the ones before it are
/// added, stays within `i32`.
pub open spec fn order_product_fits(
    global: Map<u16, Map<Seq<char>, i32>>,
    local: Option<u16>,
    products: Seq<ProductView>,
    index: int,
) -> bool {
    match (apply_order_products(global, local, products.take(index)), local) {
        (Some(before), Some(id)) => deposit_fits(stock_of(before, id), products[index]),
        _ => true,
    }
}

impl GlobalStock {
    pub closed spec fn wf(&self) -> bool {
        forall|id: u16| #[trigger] self.global_stock@.contains_key(id) ==> self.global_stock@[id].wf()
    }

    /// The stock of each local shop, under its id.
    pub closed spec fn stocks(&self) -> Map<u16, Map<Seq<char>, i32>> {
        self.global_stock@.map_values(|stock: Stock| stock@)
    }

    pub fn new() -> (global: GlobalStock)
        ensures
            global.wf(),
            global.stocks() == Map::<u16, Map<Seq<char>, i32>>::empty(),
    {
        let global = GlobalStock { global_stock: HashMap::new() };
        assert(global.stocks() =~= Map::<u16, Map<Seq<char>, i32>>::empty());
        global
    }

    pub fn check_local_id_exists(&self, local_id: u16) -> (exists: bool)
        ensures
            exists == self.stocks().contains_key(local_id),
    {
        self.global_stock.contains_key(&local_id)
    }

    /// Records `local_shop_stock` as the stock of the local shop
    /// `local_shop_id`, replacing what was recorded before.
    pub fn add_local_shop_stock(&mut self, local_shop_id: u16, local_shop_stock: Stock)
        requires
            old(self).wf(),
            local_shop_stock.wf(),
        ensures
            final(self).wf(),
            final(self).stocks() == old(self).stocks().insert(local_shop_id, local_shop_stock@),
    {
        self.global_stock.insert(local_shop_id, local_shop_stock);
        assert(self.stocks() =~= old(self).stocks().insert(local_shop_id, local_shop_stock@));
    }

    /// A copy of the recorded stock of the local shop `local_shop_id`.
    pub fn get_local_shop_stock(&self, local_shop_id: u16) -> (stock: Option<Stock>)
        requires
            self.wf(),
        ensures
            match stock {
                Some(s) => self.stocks().contains_key(local_shop_id) && s.wf() && s@
                    == self.stocks()[local_shop_id],
                None => !self.stocks().contains_key(local_shop_id),
            },
    {
        match self.global_stock.get(&local_shop_id) {
            Some(stock) => Some(stock.clone()),
            None => None,
        }
    }

    /// For each local shop, the quantity of `product_name` it holds.
    pub fn get_products_quantity_in_locals(&self, product_name: String) -> (quantities:
        HashMap<u16, i32>)
        requires
            self.wf(),
        ensures
            quantities@ == quantities_in_locals(self.stocks(), product_name@),
    {
        let mut quantities: HashMap<u16, i32> = HashMap::new();
        for entry in it: self.global_stock.iter()
            invariant
                self.wf(),
                it.seq() == vstd::std_specs::hash::spec_hash_map_iter(&self.global_stock).remaining(),
                forall|id: u16| #[trigger]
                    quantities@.contains_key(id) <==> exists|j: int|
                        0 <= j < it.index() && *it.seq()[j].0 == id,
                forall|id: u16| #[trigger]
                    quantities@.contains_key(id) ==> self.global_stock@.contains_key(id)
                        && quantities@[id] == quantity_in(self.global_stock@[id]@, product_name@),
        {
            let (id, stock) = entry;
            proof {
                assert(entry == it.seq()[it.index()]);
                assert(self.global_stock@.contains_key(*id));
                assert(self.global_stock@[*id] == *stock);
            }
            let quantity = match stock.get_quantity(&product_name) {
                Some(q) => q,
                None => 0,
            };
            quantities.insert(*id, quantity);
        }
        proof {
            let seq = vstd::std_specs::hash::spec_hash_map_iter(&self.global_stock).remaining();
            assert forall|id: u16| #[trigger] self.global_stock@.contains_key(id) implies quantities@.contains_key(id) by {
                assert(seq.contains((&id, &self.global_stock@[id])));
                let j = choose|j: int| 0 <= j < seq.len() && seq[j] == (&id, &self.global_stock@[id]);
                assert(*seq[j].0 == id);
            }
            assert(quantities@ =~= quantities_in_locals(self.stocks(), product_name@));
        }
        quantities
    }

    /// The quantity of `product_name` held by the local shop
    /// `local_shop_id`, if that shop and that product are recorded.
    pub fn get_product_quantity_from_local_shop_stock(
        &self,
        local_shop_id: u16,
        product_name: String,
    ) -> (quantity: Option<i32>)
        requires
            self.wf(),
        ensures
            quantity == (if self.stocks().contains_key(local_shop_id) && self.stocks()[local_shop_id].contains_key(product_name@) {
                Some(self.stocks()[local_shop_id][product_name@])
            } else {
                None::<i32>
            }),
    {
        match self.global_stock.get(&local_shop_id) {
            Some(stock) => stock.get_quantity(&product_name),
            None => None,
        }
    }

    /// A copy of every recorded stock.
    pub fn get_all_local_shops_stock(&self) -> (all: HashMap<u16, Stock>)
        requires
            self.wf(),
        ensures
            all@.dom() == self.stocks().dom(),
            forall|id: u16| #[trigger] all@.contains_key(id) ==> all@[id].wf() && all@[id]@ == self.stocks()[id],
    {
        self.global_stock.clone()
    }

    /// Whether adding the products of `order` one after the other keeps
    /// every entry within `i32`: what `process_order_in_stock` needs.
    pub fn order_fits(&self, order: &Order) -> (fits: bool)
        requires
            self.wf(),
        ensures
            fits == (forall|i: int|
                0 <= i < order@.products.len() ==> #[trigger] order_product_fits(
                    self.stocks(),
                    order@.local_id,
                    order@.products,
                    i,
                )),
    {
        let products = order.get_products();
        let ghost views = product_views(products@);
        let local_shop_id = match order.get_local_id() {
            Some(id) => id,
            None => {
                return true;
            },
        };
        let mut stock = match self.global_stock.get(&local_shop_id) {
            Some(recorded) => recorded.clone(),
            None => Stock::new(),
        };
        proof {
            assert(views.take(0) =~= Seq::<ProductView>::empty());
            assert(stock_of(self.stocks(), local_shop_id) == stock@);
        }
        let mut i: usize = 0;
        while i < products.len()
            invariant
                stock.wf(),
                i <= products.len(),
                views == product_views(products@),
                views == order@.products,
                order@.local_id == Some(local_shop_id),
                apply_order_products(self.stocks(), order@.local_id, views.take(i as int)) is Some,
                stock_of(apply_order_products(self.stocks(), order@.local_id, views.take(i as int))->0, local_shop_id)
                    == stock@,
                forall|j: int|
                    0 <= j < i ==> #[trigger] order_product_fits(self.stocks(), order@.local_id, order@.products, j),
            decreases products.len() - i,
        {
            proof {
                assert(views.take(i + 1).drop_last() =~= views.take(i as int));
                assert(views.take(i + 1).last() == views[i as int]);
                assert(products@[i as int]@ == views[i as int]);
            }
            if !stock.can_deposit(&products[i]) {
                proof {
                    assert(!order_product_fits(self.stocks(), order@.local_id, order@.products, i as int));
                }
                return false;
            }
            let ghost before = apply_order_products(self.stocks(), order@.local_id, views.take(i as int))->0;
            stock.deposit(products[i].clone());
            proof {
                assert(order_product_fits(self.stocks(), order@.local_id, order@.products, i as int));
                let after = before.insert(local_shop_id, deposited(stock_of(before, local_shop_id), views[i as int]));
                assert(apply_order_products(self.stocks(), order@.local_id, views.take(i + 1)) == Some(after));
                assert(stock_of(after, local_shop_id) == stock@);
            }
            i = i + 1;
        }
        true
    }

    /// Adds the products of an order to the recorded stock of the local
    /// shop it names, creating the entries that are missing.
    pub fn process_order_in_stock(&mut self, order: Order) -> (result: Result<(), ProductError>)
        requires
            old(self).wf(),
            forall|i: int|
                0 <= i < order@.products.len() ==> #[trigger] order_product_fits(
                    old(self).stocks(),
                    order@.local_id,
                    order@.products,
                    i,
                ),
        ensures
            final(self).wf(),
            match apply_order_products(old(self).stocks(), order@.local_id, order@.products) {
                Some(after) => result is Ok && final(self).stocks() == after,
                None => result == Err::<(), ProductError>(ProductError::NegativeQuantity) && final(self).stocks()
                    == old(self).stocks(),
            },
    {
        let products = order.get_products();
        let ghost views = product_views(products@);
        let mut i: usize = 0;
        while i < products.len()
            invariant
                self.wf(),
                i <= products.len(),
                views == product_views(products@),
                views == order@.products,
                forall|j: int|
                    0 <= j < order@.products.len() ==> #[trigger] order_product_fits(
                        old(self).stocks(),
                        order@.local_id,
                        order@.products,
                        j,
                    ),
                apply_order_products(old(self).stocks(), order@.local_id, views.take(i as int))
                    == Some(self.stocks()),
                i > 0 ==> order@.local_id is Some,
                i == 0 ==> self.stocks() == old(self).stocks(),
            decreases products.len() - i,
        {
            proof {
                assert(views.take(i + 1).drop_last() =~= views.take(i as int));
                assert(views.take(i + 1).last() == views[i as int]);
                assert(order_product_fits(old(self).stocks(), order@.local_id, order@.products, i as int));
            }
            let local_shop_id = match order.get_local_id() {
                Some(id) => id,
                None => {
                    proof {
                        lemma_missing_local_persists(old(self).stocks(), views, i as int + 1);
                    }
                    return Err(ProductError::NegativeQuantity);
                },
            };
            let ghost before = self.stocks();
            let product = products[i].clone();
            match self.global_stock.remove(&local_shop_id) {
                Some(mut stock) => {
                    proof {
                        assert(stock_of(before, local_shop_id) == stock@);
                    }
                    stock.deposit(product);
                    self.global_stock.insert(local_shop_id, stock);
                },
                None => {
                    let mut stock = Stock::new();
                    proof {
                        assert(stock_of(before, local_shop_id) == stock@);
                    }
                    stock.deposit(product);
                    self.global_stock.insert(local_shop_id, stock);
                },
            }
            proof {
                assert(self.stocks() =~= before.insert(
                    local_shop_id,
                    deposited(stock_of(before, local_shop_id), views[i as int]),
                ));
            }
            i = i + 1;
        }
        proof {
            assert(views.take(views.len() as int) =~= views);
        }
        Ok(())
    }
}

/// An order with no local shop stops as soon as it has a product.
pub proof fn lemma_missing_local_persists(
    global: Map<u16, Map<Seq<char>, i32>>,
    products: Seq<ProductView>,
    index: int,
)
    requires
        1 <= index <= products.len(),
    ensures
        apply_order_products(global, None, products) is None,
{
    lemma_missing_local_stops(global, products, products.len() as int);
    assert(products.take(products.len() as int) =~= products);
}

proof fn lemma_missing_local_stops(
    global: Map<u16, Map<Seq<char>, i32>>,
    products: Seq<ProductView>,
    len: int,
)
    requires
        1 <= len <= products.len(),
    ensures
        apply_order_products(global, None, products.take(len)) is None,
    decreases len,
{
    assert(products.take(len).drop_last() =~= products.take(len - 1));
    if len > 1 {
        lemma_missing_local_stops(global, products, len - 1);
    }
}

} // verus!
