use std::collections::HashMap;
use vstd::prelude::*;
use vstd::std_specs::iter::IteratorSpec;

use super::connection_handler::ReplyToRequestorWithProductQuantityFromAllLocals;
use crate::model::order::Order;
use crate::model::product::ProductView;
use crate::model::stock::{product_views, withdraw_fits, withdrawn, Stock};

verus! {

broadcast use {
    vstd::std_specs::hash::group_hash_axioms,
    vstd::string::to_string_from_display_ensures_for_str,
};

/// The stocks of all local shops, each under the id of its shop.
#[derive(Debug)]
pub struct StockHandler {
    global_stock: HashMap<u16, Stock>,
}

/// The quantity of `name` that `stock` holds, zero when it holds none.
pub open spec fn quantity_in(stock: Map<Seq<char>, i32>, name: Seq<char>) -> i32 {
    if stock.contains_key(name) {
        stock[name]
    } else {
        0
    }
}

/// For each local shop of `global`, the quantity of `name` it holds.
pub open spec fn quantities_in_locals(global: Map<u16, Map<Seq<char>, i32>>, name: Seq<char>) -> Map<
    u16,
    i32,
> {
    Map::new(|id: u16| global.contains_key(id), |id: u16| quantity_in(global[id], name))
}

/// Why an order result could not be applied to the global stock.
pub enum OrderResultError {
    MissingLocalId,
    LocalNotFound,
    ProductNotFound,
}

/// The message given for each reason an order result could not be applied.
pub open spec fn order_result_error_message(error: OrderResultError) -> Seq<char> {
    match error {
        OrderResultError::MissingLocalId => MISSING_LOCAL_ID@,
        OrderResultError::LocalNotFound => LOCAL_NOT_FOUND@,
        OrderResultError::ProductNotFound => PRODUCT_NOT_FOUND@,
    }
}

pub const MISSING_LOCAL_ID: &'static str = "Couldn't get local shop id from order";

pub const LOCAL_NOT_FOUND: &'static str = "Local shop not found in global stock";

pub const PRODUCT_NOT_FOUND: &'static str = "Product not found in local shop stock";

/// `global` after one product of an order that `local` completed is taken
/// out of the stock of `local`, or why that cannot be done.
pub open spec fn apply_result_product(
    global: Map<u16, Map<Seq<char>, i32>>,
    local: Option<u16>,
    product: ProductView,
) -> (Map<u16, Map<Seq<char>, i32>>, Option<OrderResultError>) {
    match local {
        None => (global, Some(OrderResultError::MissingLocalId)),
        Some(id) => if !global.contains_key(id) {
            (global, Some(OrderResultError::LocalNotFound))
        } else if !global[id].contains_key(product.name) {
            (global, Some(OrderResultError::ProductNotFound))
        } else {
            (global.insert(id, withdrawn(global[id], product)), None)
        },
    }
}

/// `global` after the products of an order that `local` completed are
/// taken out of the stock of `local` one after the other, stopping at the
/// first that cannot be; and the reason it stopped, if it did.
pub open spec fn apply_result_products(
    global: Map<u16, Map<Seq<char>, i32>>,
    local: Option<u16>,
    products: Seq<ProductView>,
) -> (Map<u16, Map<Seq<char>, i32>>, Option<OrderResultError>)
    decreases products.len(),
{
    if products.len() == 0 {
        (global, None)
    } else {
        let (before, error) = apply_result_products(global, local, products.drop_last());
        if error is Some {
            (before, error)
        } else {
            apply_result_product(before, local, products.last())
        }
    }
}

/// Whether taking the product at `index` out of the stock, once the ones
/// before it are taken, stays within `i32`.
pub open spec fn result_product_fits(
    global: Map<u16, Map<Seq<char>, i32>>,
    local: Option<u16>,
    products: Seq<ProductView>,
    index: int,
) -> bool {
    let (before, error) = apply_result_products(global, local, products.take(index));
    error is None && local is Some && before.contains_key(local->0) ==> withdraw_fits(
        before[local->0],
        products[index],
    )
}

/// A local shop reported its stock.
#[derive(Debug)]
pub struct PostStockFromLocal {
    pub local_id: u16,
    pub stock: Stock,
}

/// A local shop completed an order.
#[derive(Debug, PartialEq, Eq)]
pub struct PostOrderResult {
    pub order: Order,
}

/// A server's worker asks how much of a product each local shop holds.
#[derive(Debug, PartialEq, Eq)]
pub struct GetProductQuantityFromAllLocals {
    pub requestor_ss_id: u16,
    pub requestor_worker_id: u16,
    pub product_name: String,
}

impl StockHandler {
    pub closed spec fn wf(&self) -> bool {
        forall|id: u16| #[trigger] self.global_stock@.contains_key(id) ==> self.global_stock@[id].wf()
    }

    /// The stock of each local shop, under its id.
    pub closed spec fn stocks(&self) -> Map<u16, Map<Seq<char>, i32>> {
        self.global_stock@.map_values(|stock: Stock| stock@)
    }

    pub fn new() -> (handler: StockHandler)
        ensures
            handler.wf(),
            handler.stocks() == Map::<u16, Map<Seq<char>, i32>>::empty(),
    {
        let handler = StockHandler { global_stock: HashMap::new() };
        assert(handler.stocks() =~= Map::<u16, Map<Seq<char>, i32>>::empty());
        handler
    }

    pub fn check_local_id_exists(&self, local_id: u16) -> (exists: bool)
        ensures
            exists == self.stocks().contains_key(local_id),
    {
        self.global_stock.contains_key(&local_id)
    }

    /// Records `local_shop_stock` as the stock of the local shop
    /// `local_shop_id`, replacing what was recorded before.
    pub fn add_local_shop_stock(&mut self, local_shop_id: u16, local_shop_stock: Stock)
        requires
            old(self).wf(),
            local_shop_stock.wf(),
        ensures
            final(self).wf(),
            final(self).stocks() == old(self).stocks().insert(local_shop_id, local_shop_stock@),
    {
        self.global_stock.insert(local_shop_id, local_shop_stock);
        assert(self.stocks() =~= old(self).stocks().insert(local_shop_id, local_shop_stock@));
    }

    /// A copy of the recorded stock of the local shop `local_shop_id`.
    pub fn get_local_shop_stock(&self, local_shop_id: u16) -> (stock: Option<Stock>)
        requires
            self.wf(),
        ensures
            match stock {
                Some(s) => self.stocks().contains_key(local_shop_id) && s.wf() && s@
                    == self.stocks()[local_shop_id],
                None => !self.stocks().contains_key(local_shop_id),
            },
    {
        match self.global_stock.get(&local_shop_id) {
            Some(stock) => Some(stock.clone()),
            None => None,
        }
    }

    /// For each local shop, the quantity of `product_name` it holds.
    pub fn get_quantity_of_product_from_all_stocks(&self, product_name: String) -> (quantities:
        HashMap<u16, i32>)
        requires
            self.wf(),
        ensures
            quantities@ == quantities_in_locals(self.stocks(), product_name@),
    {
        let mut quantities: HashMap<u16, i32> = HashMap::new();
        for entry in it: self.global_stock.iter()
            invariant
                self.wf(),
                it.seq() == vstd::std_specs::hash::spec_hash_map_iter(&self.global_stock).remaining(),
                forall|id: u16| #[trigger]
                    quantities@.contains_key(id) <==> exists|j: int|
                        0 <= j < it.index() && *it.seq()[j].0 == id,
                forall|id: u16| #[trigger]
                    quantities@.contains_key(id) ==> self.global_stock@.contains_key(id)
                        && quantities@[id] == quantity_in(self.global_stock@[id]@, product_name@),
        {
            let (id, stock) = entry;
            proof {
                assert(entry == it.seq()[it.index()]);
                assert(self.global_stock@.contains_key(*id));
                assert(self.global_stock@[*id] == *stock);
            }
            let quantity = match stock.get_quantity(&product_name) {
                Some(q) => q,
                None => 0,
            };
            quantities.insert(*id, quantity);
        }
        proof {
            let seq = vstd::std_specs::hash::spec_hash_map_iter(&self.global_stock).remaining();
            assert forall|id: u16| #[trigger] self.global_stock@.contains_key(id) implies quantities@.contains_key(id) by {
                assert(seq.contains((&id, &self.global_stock@[id])));
                let j = choose|j: int| 0 <= j < seq.len() && seq[j] == (&id, &self.global_stock@[id]);
                assert(*seq[j].0 == id);
            }
            assert(quantities@ =~= quantities_in_locals(self.stocks(), product_name@));
        }
        quantities
    }

    /// The quantity of `product_name` held by the local shop
    /// `local_shop_id`, if that shop and that product are recorded.
    pub fn get_quantity_of_product_from_specific_stock(
        &self,
        local_shop_id: u16,
        product_name: String,
    ) -> (quantity: Option<i32>)
        requires
            self.wf(),
        ensures
            quantity == (if self.stocks().contains_key(local_shop_id) && self.stocks()[local_shop_id].contains_key(product_name@) {
                Some(self.stocks()[local_shop_id][product_name@])
            } else {
                None::<i32>
            }),
    {
        match self.global_stock.get(&local_shop_id) {
            Some(stock) => stock.get_quantity(&product_name),
            None => None,
        }
    }

    /// A copy of every recorded stock.
    pub fn get_all_local_shops_stock(&self) -> (all: HashMap<u16, Stock>)
        requires
            self.wf(),
        ensures
            all@.dom() == self.stocks().dom(),
            forall|id: u16| #[trigger] all@.contains_key(id) ==> all@[id].wf() && all@[id]@ == self.stocks()[id],
    {
        self.global_stock.clone()
    }

    /// Takes the products of an order that a local shop completed out of
    /// the recorded stock of that shop, one product after the other.
    ///
    /// Stops at the first product that cannot be taken, keeping what was
    /// taken before it.
    pub fn process_order_result_in_stock(&mut self, order: Order) -> (result: Result<(), String>)
        requires
            old(self).wf(),
            forall|i: int|
                0 <= i < order@.products.len() ==> #[trigger] result_product_fits(
                    old(self).stocks(),
                    order@.local_id,
                    order@.products,
                    i,
                ),
        ensures
            final(self).wf(),
            final(self).stocks() == apply_result_products(old(self).stocks(), order@.local_id, order@.products).0,
            match apply_result_products(old(self).stocks(), order@.local_id, order@.products).1 {
                None => result is Ok,
                Some(error) => result matches Err(message) && message@ == order_result_error_message(error),
            },
    {
        let products = order.get_products();
        let ghost views = product_views(products@);
        let mut i: usize = 0;
        while i < products.len()
            invariant
                self.wf(),
                i <= products.len(),
                views == product_views(products@),
                views == order@.products,
                forall|j: int|
                    0 <= j < order@.products.len() ==> #[trigger] result_product_fits(
                        old(self).stocks(),
                        order@.local_id,
                        order@.products,
                        j,
                    ),
                apply_result_products(old(self).stocks(), order@.local_id, views.take(i as int)) == (
                self.stocks(),
                None::<OrderResultError>,
                ),
            decreases products.len() - i,
        {
            proof {
                assert(views.take(i + 1).drop_last() =~= views.take(i as int));
                assert(views.take(i + 1).last() == views[i as int]);
            }
            let local_shop_id = match order.get_local_id() {
                Some(id) => id,
                None => {
                    proof {
                        lemma_error_persists(old(self).stocks(), order@.local_id, views, i as int + 1);
                    }
                    return Err(MISSING_LOCAL_ID.to_string());
                },
            };
            let ghost before = self.stocks();
            match self.global_stock.remove(&local_shop_id) {
                Some(mut stock) => {
                    let name = products[i].get_name();
                    if stock.contains(&name) {
                        proof {
                            assert(before[local_shop_id] == stock@);
                            assert(result_product_fits(old(self).stocks(), order@.local_id, order@.products, i as int));
                        }
                        stock.withdraw(&products[i]);
                        self.global_stock.insert(local_shop_id, stock);
                        proof {
                            assert(self.stocks() =~= before.insert(local_shop_id, withdrawn(before[local_shop_id], views[i as int])));
                        }
                    } else {
                        self.global_stock.insert(local_shop_id, stock);
                        proof {
                            assert(self.stocks() =~= before);
                            lemma_error_persists(old(self).stocks(), order@.local_id, views, i as int + 1);
                        }
                        return Err(PRODUCT_NOT_FOUND.to_string());
                    }
                },
                None => {
                    proof {
                        assert(self.stocks() =~= before);
                        lemma_error_persists(old(self).stocks(), order@.local_id, views, i as int + 1);
                    }
                    return Err(LOCAL_NOT_FOUND.to_string());
                },
            }
            i = i + 1;
        }
        proof {
            assert(views.take(views.len() as int) =~= views);
        }
        Ok(())
    }

    /// Whether taking the products of a completed `order` out one after
    /// the other keeps every entry within `i32`: what
    /// `process_order_result_in_stock` needs.
    pub fn order_result_fits(&self, order: &Order) -> (fits: bool)
        requires
            self.wf(),
        ensures
            fits == (forall|i: int|
                0 <= i < order@.products.len() ==> #[trigger] result_product_fits(
                    self.stocks(),
                    order@.local_id,
                    order@.products,
                    i,
                )),
    {
        let products = order.get_products();
        let ghost views = product_views(products@);
        let local_shop_id = match order.get_local_id() {
            Some(id) => id,
            None => {
                return true;
            },
        };
        let mut stock = match self.global_stock.get(&local_shop_id) {
            Some(recorded) => recorded.clone(),
            None => {
                proof {
                    assert forall|i: int| 0 <= i < order@.products.len() implies #[trigger] result_product_fits(
                        self.stocks(),
                        order@.local_id,
                        order@.products,
                        i,
                    ) by {
                        assert(!self.stocks().contains_key(local_shop_id));
                        assert(views.take(0) =~= Seq::<ProductView>::empty());
                        if i > 0 {
                            assert(views.take(1).drop_last() =~= views.take(0));
                            assert(views.take(1).last() == views[0]);
                            assert(apply_result_products(self.stocks(), order@.local_id, views.take(0)) == (
                                self.stocks(),
                                None::<OrderResultError>,
                            ));
                            assert(apply_result_products(self.stocks(), order@.local_id, views.take(1)).1 is Some);
                            lemma_fits_after_error(self.stocks(), order@.local_id, views, 1);
                        }
                    }
                }
                return true;
            },
        };
        let mut i: usize = 0;
        while i < products.len()
            invariant
                stock.wf(),
                i <= products.len(),
                views == product_views(products@),
                views == order@.products,
                order@.local_id == Some(local_shop_id),
                apply_result_products(self.stocks(), order@.local_id, views.take(i as int)).1 is None,
                apply_result_products(self.stocks(), order@.local_id, views.take(i as int)).0.contains_key(
                    local_shop_id,
                ),
                apply_result_products(self.stocks(), order@.local_id, views.take(i as int)).0[local_shop_id]
                    == stock@,
                forall|j: int|
                    0 <= j < i ==> #[trigger] result_product_fits(self.stocks(), order@.local_id, order@.products, j),
            decreases products.len() - i,
        {
            proof {
                assert(views.take(i + 1).drop_last() =~= views.take(i as int));
                assert(views.take(i + 1).last() == views[i as int]);
                assert(products@[i as int]@ == views[i as int]);
            }
            let name = products[i].get_name();
            if !stock.contains(&name) {
                proof {
                    assert(result_product_fits(self.stocks(), order@.local_id, order@.products, i as int));
                    lemma_fits_after_error(self.stocks(), order@.local_id, views, i as int + 1);
                }
                return true;
            }
            if !stock.can_withdraw(&products[i]) {
                proof {
                    assert(!result_product_fits(self.stocks(), order@.local_id, order@.products, i as int));
                }
                return false;
            }
            proof {
                assert(result_product_fits(self.stocks(), order@.local_id, order@.products, i as int));
            }
            stock.withdraw(&products[i]);
            i = i + 1;
        }
        true
    }

    /// Records the stock a local shop reported.
    pub fn process_post_to_stock_from_local(&mut self, local_id: u16, stock: Stock)
        requires
            old(self).wf(),
            stock.wf(),
        ensures
            final(self).wf(),
            final(self).stocks() == old(self).stocks().insert(local_id, stock@),
    {
        self.add_local_shop_stock(local_id, stock);
    }

    /// Records the stock a local shop reported.
    pub fn handle_post_stock_from_local(&mut self, msg: PostStockFromLocal)
        requires
            old(self).wf(),
            msg.stock.wf(),
        ensures
            final(self).wf(),
            final(self).stocks() == old(self).stocks().insert(msg.local_id, msg.stock@),
    {
        self.process_post_to_stock_from_local(msg.local_id, msg.stock);
    }

    /// Takes the products of a completed order out of the stock of its shop.
    pub fn handle_post_order_result(&mut self, msg: PostOrderResult) -> (result: Result<(), String>)
        requires
            old(self).wf(),
            forall|i: int|
                0 <= i < msg.order@.products.len() ==> #[trigger] result_product_fits(
                    old(self).stocks(),
                    msg.order@.local_id,
                    msg.order@.products,
                    i,
                ),
        ensures
            final(self).wf(),
            final(self).stocks() == apply_result_products(old(self).stocks(), msg.order@.local_id, msg.order@.products).0,
            match apply_result_products(old(self).stocks(), msg.order@.local_id, msg.order@.products).1 {
                None => result is Ok,
                Some(error) => result matches Err(message) && message@ == order_result_error_message(error),
            },
    {
        self.process_order_result_in_stock(msg.order)
    }

    /// Answers how much of the product each local shop holds.
    pub fn handle_get_product_quantity_from_all_locals(
        &self,
        msg: GetProductQuantityFromAllLocals,
    ) -> (reply: ReplyToRequestorWithProductQuantityFromAllLocals)
        requires
            self.wf(),
        ensures
            reply.product_quantity_in_locals@ == quantities_in_locals(self.stocks(), msg.product_name@),
            reply.requestor_ss_id == msg.requestor_ss_id,
            reply.requestor_worker_id == msg.requestor_worker_id,
            reply.product_name@ == msg.product_name@,
    {
        let product_quantity_in_locals = self.get_quantity_of_product_from_all_stocks(msg.product_name.clone());
        ReplyToRequestorWithProductQuantityFromAllLocals {
            product_quantity_in_locals,
            requestor_ss_id: msg.requestor_ss_id,
            requestor_worker_id: msg.requestor_worker_id,
            product_name: msg.product_name,
        }
    }
}

/// Once the products up to `index` stop at an error, every product after
/// `index` fits: nothing more is taken out.
proof fn lemma_fits_after_error(
    global: Map<u16, Map<Seq<char>, i32>>,
    local: Option<u16>,
    products: Seq<ProductView>,
    index: int,
)
    requires
        0 <= index <= products.len(),
        apply_result_products(global, local, products.take(index)).1 is Some,
    ensures
        forall|j: int| index <= j < products.len() ==> #[trigger] result_product_fits(global, local, products, j),
{
    assert forall|j: int| index <= j < products.len() implies #[trigger] result_product_fits(
        global,
        local,
        products,
        j,
    ) by {
        assert(products.take(j).take(index) =~= products.take(index));
        lemma_error_persists(global, local, products.take(j), index);
    }
}

/// Once the products up to `index` stop at an error, the whole sequence
/// stops at that same error with the same stocks.
pub proof fn lemma_error_persists(
    global: Map<u16, Map<Seq<char>, i32>>,
    local: Option<u16>,
    products: Seq<ProductView>,
    index: int,
)
    requires
        0 <= index <= products.len(),
        apply_result_products(global, local, products.take(index)).1 is Some,
    ensures
        apply_result_products(global, local, products) == apply_result_products(
            global,
            local,
            products.take(index),
        ),
    decreases products.len() - index,
{
    if index < products.len() {
        assert(products.take(index + 1).drop_last() =~= products.take(index));
        lemma_error_persists(global, local, products, index + 1);
    } else {
        assert(products.take(index) =~= products);
    }
}

} // verus!
