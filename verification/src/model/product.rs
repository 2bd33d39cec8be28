use vstd::prelude::*;

verus! {

/// What a product is as a mathematical value: its name and its quantity.
pub struct ProductView {
    pub name: Seq<char>,
    pub quantity: i32,
}

/// A named quantity of one product.
#[derive(Debug, PartialEq, Eq)]
pub struct Product {
    name: String,
    quantity: i32,
}

impl View for Product {
    type V = ProductView;

    closed spec fn view(&self) -> ProductView {
        ProductView { name: self.name@, quantity: self.quantity }
    }
}

/// Whether adding `delta` to `quantity` stays within the range of `i32`.
pub open spec fn fits_i32(value: int) -> bool {
    i32::MIN <= value <= i32::MAX
}

impl Product {
    pub fn new(name: String, quantity: i32) -> (product: Product)
        ensures
            product@ == (ProductView { name: name@, quantity }),
    {
        Product { name, quantity }
    }

    pub fn get_name(&self) -> (name: String)
        ensures
            name@ == self@.name,
    {
        self.name.clone()
    }

    pub fn get_quantity(&self) -> (quantity: i32)
        ensures
            quantity == self@.quantity,
    {
        self.quantity
    }

    /// Whether the product is called `name`.
    pub fn has_name(&self, name: &String) -> (same: bool)
        ensures
            same == (self@.name == name@),
    {
        self.name == *name
    }

    /// Adds `value` (which may be negative) to the quantity.
    pub fn affect_quantity_with_value(&mut self, value: i32)
        requires
            fits_i32(old(self)@.quantity + value),
        ensures
            final(self)@ == (ProductView { quantity: (old(self)@.quantity + value) as i32, ..old(self)@ }),
    {
        self.quantity = self.quantity + value;
    }

    /// Whether two products have the same name and quantity.
    pub fn same_as(&self, other: &Product) -> (same: bool)
        ensures
            same == (self@ == other@),
    {
        self.name == other.name && self.quantity == other.quantity
    }
}

impl Clone for Product {
    fn clone(&self) -> (copy: Self)
        ensures
            copy@ == self@,
    {
        Product { name: self.name.clone(), quantity: self.quantity }
    }
}

} // verus!
