use vstd::prelude::*;

use super::product::{fits_i32, Product, ProductView};

verus! {

/// The stock of one shop: for each product name, the quantity held.
///
/// Each name appears at most once among the held products.
#[derive(Debug)]
pub struct Stock {
    products: Vec<Product>,
}

/// Whether no name appears twice in `products`.
pub open spec fn unique_names(products: Seq<ProductView>) -> bool {
    forall|i: int, j: int|
        0 <= i < products.len() && 0 <= j < products.len() && i != j ==> products[i].name
            != products[j].name
}

/// Whether some product in `products` is called `name`.
pub open spec fn names_product(products: Seq<ProductView>, name: Seq<char>) -> bool {
    exists|i: int| 0 <= i < products.len() && products[i].name == name
}

/// The map from each name to the quantity of the product of that name.
pub open spec fn quantities(products: Seq<ProductView>) -> Map<Seq<char>, i32> {
    Map::new(
        |name: Seq<char>| names_product(products, name),
        |name: Seq<char>|
            products[choose|i: int| 0 <= i < products.len() && products[i].name == name].quantity,
    )
}

/// The views of a sequence of products.
pub open spec fn product_views(products: Seq<Product>) -> Seq<ProductView> {
    products.map_values(|p: Product| p@)
}

/// Looking up the name of the product at `i` gives its quantity.
pub proof fn lemma_quantities_at(products: Seq<ProductView>, i: int)
    requires
        unique_names(products),
        0 <= i < products.len(),
    ensures
        quantities(products).contains_key(products[i].name),
        quantities(products)[products[i].name] == products[i].quantity,
{
    let name = products[i].name;
    assert(names_product(products, name));
    let j = choose|j: int| 0 <= j < products.len() && products[j].name == name;
    assert(j == i);
}

impl View for Stock {
    type V = Map<Seq<char>, i32>;

    closed spec fn view(&self) -> Map<Seq<char>, i32> {
        quantities(product_views(self.products@))
    }
}

impl Stock {
    /// The stock holds each name at most once.
    pub closed spec fn wf(&self) -> bool {
        unique_names(product_views(self.products@))
    }

    pub fn new() -> (stock: Stock)
        ensures
            stock.wf(),
            stock@ == Map::<Seq<char>, i32>::empty(),
    {
        let stock = Stock { products: Vec::new() };
        assert(stock@ =~= Map::<Seq<char>, i32>::empty());
        stock
    }

    /// The position of the product called `name`, if the stock holds one.
    fn find(&self, name: &String) -> (index: Option<usize>)
        requires
            self.wf(),
        ensures
            match index {
                Some(i) => i < self.products.len() && self.products@[i as int]@.name == name@,
                None => !self@.contains_key(name@),
            },
    {
        let mut i: usize = 0;
        while i < self.products.len()
            invariant
                i <= self.products.len(),
                forall|j: int| 0 <= j < i ==> self.products@[j]@.name != name@,
            decreases self.products.len() - i,
        {
            if self.products[i].has_name(name) {
                return Some(i);
            }
            i = i + 1;
        }
        proof {
            let views = product_views(self.products@);
            if names_product(views, name@) {
                let j = choose|j: int| 0 <= j < views.len() && views[j].name == name@;
                assert(self.products@[j]@.name == name@);
            }
        }
        None
    }

    /// Whether the stock holds a product called `name`.
    pub fn contains(&self, name: &String) -> (held: bool)
        requires
            self.wf(),
        ensures
            held == self@.contains_key(name@),
    {
        match self.find(name) {
            Some(i) => {
                proof {
                    lemma_quantities_at(product_views(self.products@), i as int);
                }
                true
            },
            None => false,
        }
    }

    /// The quantity held of the product called `name`, if any.
    pub fn get_quantity(&self, name: &String) -> (quantity: Option<i32>)
        requires
            self.wf(),
        ensures
            quantity == (if self@.contains_key(name@) {
                Some(self@[name@])
            } else {
                None::<i32>
            }),
    {
        match self.find(name) {
            Some(i) => {
                proof {
                    lemma_quantities_at(product_views(self.products@), i as int);
                }
                Some(self.products[i].get_quantity())
            },
            None => None,
        }
    }

    /// A copy of the product called `name`, if the stock holds one.
    pub fn get(&self, name: &String) -> (product: Option<Product>)
        requires
            self.wf(),
        ensures
            match product {
                Some(p) => self@.contains_key(name@) && p@ == (ProductView {
                    name: name@,
                    quantity: self@[name@],
                }),
                None => !self@.contains_key(name@),
            },
    {
        match self.find(name) {
            Some(i) => {
                proof {
                    lemma_quantities_at(product_views(self.products@), i as int);
                }
                Some(self.products[i].clone())
            },
            None => None,
        }
    }

    /// Puts `product` in the stock, replacing the product of the same name.
    pub fn insert(&mut self, product: Product)
        requires
            old(self).wf(),
        ensures
            final(self).wf(),
            final(self)@ == old(self)@.insert(product@.name, product@.quantity),
    {
        let name = product.get_name();
        match self.find(&name) {
            Some(i) => {
                let ghost old_views = product_views(self.products@);
                self.products.set(i, product);
                proof {
                    let views = product_views(self.products@);
                    assert(views == old_views.update(i as int, views[i as int]));
                    assert forall|a: int, b: int|
                        0 <= a < views.len() && 0 <= b < views.len() && a != b implies views[a].name
                        != views[b].name by {
                        assert(views[a].name == old_views[a].name);
                        assert(views[b].name == old_views[b].name);
                    }
                    assert forall|n: Seq<char>| #[trigger]
                        self@.contains_key(n) == old(self)@.insert(name@, views[i as int].quantity).contains_key(n)
                        && (self@.contains_key(n) ==> self@[n] == old(self)@.insert(name@, views[i as int].quantity)[n]) by {
                        if n == name@ {
                            lemma_quantities_at(views, i as int);
                        } else {
                            if names_product(views, n) {
                                let j = choose|j: int| 0 <= j < views.len() && views[j].name == n;
                                lemma_quantities_at(views, j);
                                lemma_quantities_at(old_views, j);
                            }
                            if names_product(old_views, n) {
                                let j = choose|j: int| 0 <= j < old_views.len() && old_views[j].name == n;
                                assert(views[j].name == n);
                            }
                        }
                    }
                    assert(self@ =~= old(self)@.insert(name@, views[i as int].quantity));
                }
            },
            None => {
                let ghost old_views = product_views(self.products@);
                self.products.push(product);
                proof {
                    let views = product_views(self.products@);
                    let last = views.len() - 1;
                    assert(views == old_views.push(views[last]));
                    assert forall|a: int, b: int|
                        0 <= a < views.len() && 0 <= b < views.len() && a != b implies views[a].name
                        != views[b].name by {
                        if a == last {
                            assert(!names_product(old_views, name@));
                            assert(old_views[b].name == views[b].name);
                        } else if b == last {
                            assert(!names_product(old_views, name@));
                            assert(old_views[a].name == views[a].name);
                        }
                    }
                    assert forall|n: Seq<char>| #[trigger]
                        self@.contains_key(n) == old(self)@.insert(name@, views[last].quantity).contains_key(n)
                        && (self@.contains_key(n) ==> self@[n] == old(self)@.insert(name@, views[last].quantity)[n]) by {
                        if n == name@ {
                            lemma_quantities_at(views, last);
                        } else {
                            if names_product(views, n) {
                                let j = choose|j: int| 0 <= j < views.len() && views[j].name == n;
                                lemma_quantities_at(views, j);
                                lemma_quantities_at(old_views, j);
                            }
                            if names_product(old_views, n) {
                                let j = choose|j: int| 0 <= j < old_views.len() && old_views[j].name == n;
                                assert(views[j].name == n);
                            }
                        }
                    }
                    assert(self@ =~= old(self)@.insert(name@, views[last].quantity));
                }
            },
        }
    }

    /// Adds `delta` to the quantity of the held product called `name`.
    pub fn affect_quantity(&mut self, name: &String, delta: i32)
        requires
            old(self).wf(),
            old(self)@.contains_key(name@),
            fits_i32(old(self)@[name@] + delta),
        ensures
            final(self).wf(),
            final(self)@ == old(self)@.insert(name@, (old(self)@[name@] + delta) as i32),
    {
        let current = self.get(name);
        match current {
            Some(mut product) => {
                product.affect_quantity_with_value(delta);
                self.insert(product);
            },
            None => {},
        }
    }

    /// The held products, each name once.
    pub fn products(&self) -> (products: &Vec<Product>)
        requires
            self.wf(),
        ensures
            unique_names(product_views(products@)),
            self@ == quantities(product_views(products@)),
    {
        &self.products
    }

    /// The number of different products held.
    pub fn len(&self) -> (count: usize)
        requires
            self.wf(),
        ensures
            count == self@.dom().len(),
    {
        proof {
            self.lemma_len();
        }
        self.products.len()
    }

    proof fn lemma_len(&self)
        requires
            self.wf(),
        ensures
            self.products@.len() == self@.dom().len(),
    {
        let views = product_views(self.products@);
        let names = views.map_values(|p: ProductView| p.name);
        assert(names.no_duplicates()) by {
            assert forall|a: int, b: int|
                0 <= a < names.len() && 0 <= b < names.len() && a != b implies names[a]
                != names[b] by {
                assert(names[a] == views[a].name);
                assert(names[b] == views[b].name);
            }
        }
        names.unique_seq_to_set();
        assert(names.to_set() =~= self@.dom()) by {
            assert forall|n: Seq<char>| names.to_set().contains(n) implies #[trigger] self@.dom().contains(n) by {
                let i = choose|i: int| 0 <= i < names.len() && names[i] == n;
                assert(views[i].name == n);
            }
            assert forall|n: Seq<char>| #[trigger] self@.dom().contains(n) implies names.to_set().contains(n) by {
                let i = choose|i: int| 0 <= i < views.len() && views[i].name == n;
                assert(names[i] == n);
            }
        }
    }

    /// Whether both stocks hold the same quantities of the same products.
    pub fn same_contents(&self, other: &Stock) -> (same: bool)
        requires
            self.wf(),
            other.wf(),
        ensures
            same == (self@ == other@),
    {
        let mut i: usize = 0;
        while i < self.products.len()
            invariant
                self.wf(),
                other.wf(),
                i <= self.products.len(),
                forall|j: int| #![trigger self.products@[j]] 0 <= j < i ==> other@.contains_key(self.products@[j]@.name)
                    && other@[self.products@[j]@.name] == self.products@[j]@.quantity,
            decreases self.products.len() - i,
        {
            let name = self.products[i].get_name();
            let quantity = other.get_quantity(&name);
            proof {
                lemma_quantities_at(product_views(self.products@), i as int);
            }
            match quantity {
                Some(q) => {
                    if q != self.products[i].get_quantity() {
                        return false;
                    }
                },
                None => {
                    return false;
                },
            }
            i = i + 1;
        }
        let mut k: usize = 0;
        while k < other.products.len()
            invariant
                self.wf(),
                other.wf(),
                k <= other.products.len(),
                forall|j: int| #![trigger other.products@[j]] 0 <= j < k ==> self@.contains_key(other.products@[j]@.name),
            decreases other.products.len() - k,
        {
            let name = other.products[k].get_name();
            if !self.contains(&name) {
                proof {
                    lemma_quantities_at(product_views(other.products@), k as int);
                }
                return false;
            }
            k = k + 1;
        }
        proof {
            let sv = product_views(self.products@);
            let ov = product_views(other.products@);
            assert forall|n: Seq<char>| #[trigger] self@.contains_key(n) implies other@.contains_key(n)
                && other@[n] == self@[n] by {
                let j = choose|j: int| 0 <= j < sv.len() && sv[j].name == n;
                assert(self.products@[j]@.name == n);
                lemma_quantities_at(sv, j);
            }
            assert forall|n: Seq<char>| #[trigger] other@.contains_key(n) implies self@.contains_key(n) by {
                let j = choose|j: int| 0 <= j < ov.len() && ov[j].name == n;
                assert(other.products@[j]@.name == n);
            }
            assert(self@ =~= other@);
        }
        true
    }
}

/// Whether `stock` holds at least the quantity of `product` under its name.
pub open spec fn can_give(stock: Map<Seq<char>, i32>, product: ProductView) -> bool {
    stock.contains_key(product.name) && stock[product.name] >= product.quantity
}

/// `stock` after the quantity of `product` is taken from its entry.
pub open spec fn withdrawn(stock: Map<Seq<char>, i32>, product: ProductView) -> Map<Seq<char>, i32> {
    stock.insert(product.name, (stock[product.name] - product.quantity) as i32)
}

/// `stock` after `product` is put in: added to the entry of its name, or
/// held as a new entry.
pub open spec fn deposited(stock: Map<Seq<char>, i32>, product: ProductView) -> Map<Seq<char>, i32> {
    if stock.contains_key(product.name) {
        stock.insert(product.name, (stock[product.name] + product.quantity) as i32)
    } else {
        stock.insert(product.name, product.quantity)
    }
}

/// `stock` after `product` is added to the entry of its name, if it has one.
pub open spec fn deposited_if_held(stock: Map<Seq<char>, i32>, product: ProductView) -> Map<
    Seq<char>,
    i32,
> {
    if stock.contains_key(product.name) {
        stock.insert(product.name, (stock[product.name] + product.quantity) as i32)
    } else {
        stock
    }
}

/// Whether taking `product` out of the entry of its name stays within `i32`.
pub open spec fn withdraw_fits(stock: Map<Seq<char>, i32>, product: ProductView) -> bool {
    stock.contains_key(product.name) ==> fits_i32(stock[product.name] - product.quantity)
}

/// Whether adding `product` to the entry of its name stays within `i32`.
pub open spec fn deposit_fits(stock: Map<Seq<char>, i32>, product: ProductView) -> bool {
    stock.contains_key(product.name) ==> fits_i32(stock[product.name] + product.quantity)
}

impl Stock {
    /// Takes `product` out of the stock if the stock holds at least that
    /// much of it; tells whether it did.
    pub fn withdraw_if_available(&mut self, product: &Product) -> (taken: bool)
        requires
            old(self).wf(),
            can_give(old(self)@, product@) ==> withdraw_fits(old(self)@, product@),
        ensures
            final(self).wf(),
            taken == can_give(old(self)@, product@),
            taken ==> final(self)@ == withdrawn(old(self)@, product@),
            !taken ==> final(self)@ == old(self)@,
    {
        let name = product.get_name();
        let quantity = product.get_quantity();
        match self.get_quantity(&name) {
            Some(held) => {
                if held >= quantity {
                    self.withdraw(product);
                    true
                } else {
                    false
                }
            },
            None => false,
        }
    }

    /// Takes `product` out of the entry of its name, which must exist.
    pub fn withdraw(&mut self, product: &Product)
        requires
            old(self).wf(),
            old(self)@.contains_key(product@.name),
            withdraw_fits(old(self)@, product@),
        ensures
            final(self).wf(),
            final(self)@ == withdrawn(old(self)@, product@),
    {
        let name = product.get_name();
        let quantity = product.get_quantity();
        if quantity == i32::MIN {
            // The entry can only absorb this when it is negative.
            let held = self.get_quantity(&name);
            match held {
                Some(h) => {
                    let p = Product::new(name, h - quantity);
                    self.insert(p);
                },
                None => {},
            }
        } else {
            self.affect_quantity(&name, -quantity);
        }
    }

    /// Whether putting `product` in keeps its entry within `i32`.
    pub fn can_deposit(&self, product: &Product) -> (fits: bool)
        requires
            self.wf(),
        ensures
            fits == deposit_fits(self@, product@),
    {
        match self.get_quantity(&product.get_name()) {
            Some(quantity) => {
                let total: i64 = quantity as i64 + product.get_quantity() as i64;
                i32::MIN as i64 <= total && total <= i32::MAX as i64
            },
            None => true,
        }
    }

    /// Whether taking `product` out keeps its entry within `i32`.
    pub fn can_withdraw(&self, product: &Product) -> (fits: bool)
        requires
            self.wf(),
        ensures
            fits == withdraw_fits(self@, product@),
    {
        match self.get_quantity(&product.get_name()) {
            Some(quantity) => {
                let left: i64 = quantity as i64 - product.get_quantity() as i64;
                i32::MIN as i64 <= left && left <= i32::MAX as i64
            },
            None => true,
        }
    }

    /// Puts `product` in: adds it to the entry of its name, or holds it as a
    /// new entry.
    pub fn deposit(&mut self, product: Product)
        requires
            old(self).wf(),
            deposit_fits(old(self)@, product@),
        ensures
            final(self).wf(),
            final(self)@ == deposited(old(self)@, product@),
    {
        let name = product.get_name();
        if self.contains(&name) {
            let quantity = product.get_quantity();
            self.affect_quantity(&name, quantity);
        } else {
            self.insert(product);
        }
    }

    /// Adds `product` to the entry of its name, if the stock has one.
    pub fn deposit_if_held(&mut self, product: &Product)
        requires
            old(self).wf(),
            deposit_fits(old(self)@, product@),
        ensures
            final(self).wf(),
            final(self)@ == deposited_if_held(old(self)@, product@),
    {
        let name = product.get_name();
        if self.contains(&name) {
            let quantity = product.get_quantity();
            self.affect_quantity(&name, quantity);
        }
    }
}

impl Clone for Stock {
    fn clone(&self) -> (copy: Self)
        ensures
            copy.wf() == self.wf(),
            copy@ == self@,
    {
        let copy = Stock { products: self.products.clone() };
        proof {
            assert(product_views(copy.products@) =~= product_views(self.products@)) by {
                assert forall|i: int| 0 <= i < self.products@.len() implies copy.products@[i]@ == self.products@[i]@ by {
                    assert(cloned::<Product>(self.products[i], copy.products[i]));
                }
            }
        }
        copy
    }
}

} // verus!
