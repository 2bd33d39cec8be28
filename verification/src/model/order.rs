use vstd::prelude::*;

use super::product::{Product, ProductView};
use super::stock::product_views;

verus! {

/// What an order is as a mathematical value.
///
/// A local order only ever carries a local shop id; a web order also
/// records the worker, the e-commerce server and its local-shop port that
/// handle it.
pub struct OrderView {
    pub is_web: bool,
    pub products: Seq<ProductView>,
    pub local_id: Option<u16>,
    pub worker_id: Option<u16>,
    pub ss_id: Option<u16>,
    pub sl_id: Option<u16>,
}

/// An order placed in person at a local shop.
#[derive(Debug, PartialEq, Eq)]
pub struct LocalOrder {
    products: Vec<Product>,
    local_id: Option<u16>,
}

/// An order placed through the e-commerce site.
#[derive(Debug, PartialEq, Eq)]
pub struct WebOrder {
    products: Vec<Product>,
    local_id: Option<u16>,
    worker_id: Option<u16>,
    ss_id: Option<u16>,
    sl_id: Option<u16>,
}

#[derive(Debug, PartialEq, Eq)]
pub enum Order {
    Local(LocalOrder),
    Web(WebOrder),
}

/// A copy of `products`, product by product.
pub fn copy_products(products: &Vec<Product>) -> (copy: Vec<Product>)
    ensures
        product_views(copy@) == product_views(products@),
{
    let mut copy: Vec<Product> = Vec::new();
    let mut i: usize = 0;
    while i < products.len()
        invariant
            i <= products.len(),
            copy@.len() == i,
            product_views(copy@) == product_views(products@).take(i as int),
        decreases products.len() - i,
    {
        let ghost before = copy@;
        let item = products[i].clone();
        copy.push(item);
        proof {
            assert(copy@ == before.push(item));
            assert forall|j: int| 0 <= j < i + 1 implies #[trigger] product_views(copy@)[j]
                == product_views(products@).take(i + 1)[j] by {
                if j < i {
                    assert(product_views(before)[j] == product_views(products@).take(i as int)[j]);
                }
            }
            assert(product_views(copy@) =~= product_views(products@).take(i + 1));
        }
        i = i + 1;
    }
    proof {
        assert(product_views(products@).take(products@.len() as int) =~= product_views(products@));
    }
    copy
}

/// Whether both lists hold the same products in the same order.
pub fn same_products(a: &Vec<Product>, b: &Vec<Product>) -> (same: bool)
    ensures
        same == (product_views(a@) == product_views(b@)),
{
    if a.len() != b.len() {
        proof {
            assert(product_views(a@).len() != product_views(b@).len());
        }
        return false;
    }
    let mut i: usize = 0;
    while i < a.len()
        invariant
            a.len() == b.len(),
            i <= a.len(),
            forall|j: int| 0 <= j < i ==> #[trigger] a@[j]@ == b@[j]@,
        decreases a.len() - i,
    {
        if !a[i].same_as(&b[i]) {
            proof {
                assert(product_views(a@)[i as int] != product_views(b@)[i as int]);
            }
            return false;
        }
        i = i + 1;
    }
    proof {
        assert(product_views(a@) =~= product_views(b@));
    }
    true
}

impl View for LocalOrder {
    type V = OrderView;

    closed spec fn view(&self) -> OrderView {
        OrderView {
            is_web: false,
            products: product_views(self.products@),
            local_id: self.local_id,
            worker_id: None,
            ss_id: None,
            sl_id: None,
        }
    }
}

impl View for WebOrder {
    type V = OrderView;

    closed spec fn view(&self) -> OrderView {
        OrderView {
            is_web: true,
            products: product_views(self.products@),
            local_id: self.local_id,
            worker_id: self.worker_id,
            ss_id: self.ss_id,
            sl_id: self.sl_id,
        }
    }
}

impl View for Order {
    type V = OrderView;

    open spec fn view(&self) -> OrderView {
        match self {
            Order::Local(order) => OrderView {
                is_web: false,
                worker_id: None,
                ss_id: None,
                sl_id: None,
                ..order@
            },
            Order::Web(order) => OrderView { is_web: true, ..order@ },
        }
    }
}

impl LocalOrder {
    pub fn new(products: Vec<Product>) -> (order: LocalOrder)
        ensures
            order@ == (OrderView {
                is_web: false,
                products: product_views(products@),
                local_id: None,
                worker_id: None,
                ss_id: None,
                sl_id: None,
            }),
    {
        LocalOrder { products, local_id: None }
    }

    pub fn get_products(&self) -> (products: Vec<Product>)
        ensures
            product_views(products@) == self@.products,
    {
        copy_products(&self.products)
    }

    pub fn get_local_id(&self) -> (local_id: Option<u16>)
        ensures
            local_id == self@.local_id,
    {
        self.local_id
    }

    pub fn set_local_id(&mut self, local_id: u16)
        ensures
            final(self)@ == (OrderView { local_id: Some(local_id), ..old(self)@ }),
    {
        self.local_id = Some(local_id);
    }
}

impl WebOrder {
    pub fn new(products: Vec<Product>) -> (order: WebOrder)
        ensures
            order@ == (OrderView {
                is_web: true,
                products: product_views(products@),
                local_id: None,
                worker_id: None,
                ss_id: None,
                sl_id: None,
            }),
    {
        WebOrder { products, local_id: None, worker_id: None, ss_id: None, sl_id: None }
    }

    pub fn get_products(&self) -> (products: Vec<Product>)
        ensures
            product_views(products@) == self@.products,
    {
        copy_products(&self.products)
    }

    /// The first product of the order called `name`, if any.
    pub fn find_product(&self, name: &String) -> (product: Option<Product>)
        ensures
            match product {
                Some(p) => exists|i: int|
                    0 <= i < self@.products.len() && self@.products[i] == p@ && p@.name == name@
                        && forall|j: int| 0 <= j < i ==> #[trigger] self@.products[j].name != name@,
                None => forall|j: int|
                    0 <= j < self@.products.len() ==> #[trigger] self@.products[j].name != name@,
            },
    {
        let mut i: usize = 0;
        while i < self.products.len()
            invariant
                i <= self.products.len(),
                forall|j: int| 0 <= j < i ==> #[trigger] self.products@[j]@.name != name@,
            decreases self.products.len() - i,
        {
            if self.products[i].has_name(name) {
                let found = self.products[i].clone();
                proof {
                    assert(self@.products[i as int] == found@);
                    assert forall|j: int| 0 <= j < i implies #[trigger] self@.products[j].name != name@ by {
                        assert(self@.products[j] == self.products@[j]@);
                    }
                }
                return Some(found);
            }
            i = i + 1;
        }
        proof {
            assert forall|j: int| 0 <= j < self@.products.len() implies #[trigger] self@.products[j].name != name@ by {
                assert(self@.products[j] == self.products@[j]@);
            }
        }
        None
    }

    pub fn get_local_id(&self) -> (local_id: Option<u16>)
        ensures
            local_id == self@.local_id,
    {
        self.local_id
    }

    pub fn set_local_id(&mut self, local_id: u16)
        ensures
            final(self)@ == (OrderView { local_id: Some(local_id), ..old(self)@ }),
    {
        self.local_id = Some(local_id);
    }

    pub fn set_worker_id(&mut self, worker_id: u16)
        ensures
            final(self)@ == (OrderView { worker_id: Some(worker_id), ..old(self)@ }),
    {
        self.worker_id = Some(worker_id);
    }

    pub fn set_ss_id(&mut self, ss_id: u16)
        ensures
            final(self)@ == (OrderView { ss_id: Some(ss_id), ..old(self)@ }),
    {
        self.ss_id = Some(ss_id);
    }

    pub fn set_sl_id(&mut self, sl_id: u16)
        ensures
            final(self)@ == (OrderView { sl_id: Some(sl_id), ..old(self)@ }),
    {
        self.sl_id = Some(sl_id);
    }
}

impl Order {
    pub fn get_products(&self) -> (products: Vec<Product>)
        ensures
            product_views(products@) == self@.products,
    {
        match self {
            Order::Local(order) => order.get_products(),
            Order::Web(order) => order.get_products(),
        }
    }

    pub fn get_local_id(&self) -> (local_id: Option<u16>)
        ensures
            local_id == self@.local_id,
    {
        match self {
            Order::Local(order) => order.get_local_id(),
            Order::Web(order) => order.get_local_id(),
        }
    }

    pub fn set_local_id(&mut self, local_id: u16)
        ensures
            final(self)@ == (OrderView { local_id: Some(local_id), ..old(self)@ }),
    {
        match self {
            Order::Local(order) => order.set_local_id(local_id),
            Order::Web(order) => order.set_local_id(local_id),
        }
    }

    pub fn is_web(&self) -> (web: bool)
        ensures
            web == self@.is_web,
    {
        match self {
            Order::Local(_) => false,
            Order::Web(_) => true,
        }
    }

    pub fn is_local(&self) -> (local: bool)
        ensures
            local == !self@.is_web,
    {
        !self.is_web()
    }

    /// The server that handles the order, for a web order.
    pub fn get_ss_id_web(&self) -> (ss_id: Option<u16>)
        ensures
            ss_id == self@.ss_id,
    {
        match self {
            Order::Local(_) => None,
            Order::Web(order) => order.ss_id,
        }
    }

    /// The worker that handles the order, for a web order.
    pub fn get_worker_id_web(&self) -> (worker_id: Option<u16>)
        ensures
            worker_id == self@.worker_id,
    {
        match self {
            Order::Local(_) => None,
            Order::Web(order) => order.worker_id,
        }
    }

    /// The local-shop port of the server that handles the order, for a web order.
    pub fn get_sl_id_web(&self) -> (sl_id: Option<u16>)
        ensures
            sl_id == self@.sl_id,
    {
        match self {
            Order::Local(_) => None,
            Order::Web(order) => order.sl_id,
        }
    }

    /// Whether both orders are the same order.
    pub fn same_as(&self, other: &Order) -> (same: bool)
        ensures
            same == (self@ == other@),
    {
        match (self, other) {
            (Order::Local(a), Order::Local(b)) => a.local_id == b.local_id && same_products(
                &a.products,
                &b.products,
            ),
            (Order::Web(a), Order::Web(b)) => a.local_id == b.local_id && a.worker_id == b.worker_id
                && a.ss_id == b.ss_id && a.sl_id == b.sl_id && same_products(&a.products, &b.products),
            _ => false,
        }
    }
}

impl Clone for LocalOrder {
    fn clone(&self) -> (copy: Self)
        ensures
            copy@ == self@,
    {
        LocalOrder { products: copy_products(&self.products), local_id: self.local_id }
    }
}

impl Clone for WebOrder {
    fn clone(&self) -> (copy: Self)
        ensures
            copy@ == self@,
    {
        WebOrder {
            products: copy_products(&self.products),
            local_id: self.local_id,
            worker_id: self.worker_id,
            ss_id: self.ss_id,
            sl_id: self.sl_id,
        }
    }
}

impl Clone for Order {
    fn clone(&self) -> (copy: Self)
        ensures
            copy@ == self@,
    {
        match self {
            Order::Local(order) => Order::Local(order.clone()),
            Order::Web(order) => Order::Web(order.clone()),
        }
    }
}

/// The views of a list of orders.
pub open spec fn order_views(orders: Seq<Order>) -> Seq<OrderView> {
    orders.map_values(|o: Order| o@)
}

/// A copy of `orders`, order by order.
pub fn copy_orders(orders: &[Order]) -> (copy: Vec<Order>)
    ensures
        order_views(copy@) == order_views(orders@),
{
    let mut copy: Vec<Order> = Vec::new();
    let mut i: usize = 0;
    while i < orders.len()
        invariant
            i <= orders.len(),
            copy@.len() == i,
            order_views(copy@) == order_views(orders@).take(i as int),
        decreases orders.len() - i,
    {
        let ghost before = copy@;
        let item = orders[i].clone();
        copy.push(item);
        proof {
            assert(copy@ == before.push(item));
            assert forall|j: int| 0 <= j < i + 1 implies #[trigger] order_views(copy@)[j]
                == order_views(orders@).take(i + 1)[j] by {
                if j < i {
                    assert(order_views(before)[j] == order_views(orders@).take(i as int)[j]);
                }
            }
            assert(order_views(copy@) =~= order_views(orders@).take(i + 1));
        }
        i = i + 1;
    }
    proof {
        assert(order_views(orders@).take(orders@.len() as int) =~= order_views(orders@));
    }
    copy
}

} // verus!
