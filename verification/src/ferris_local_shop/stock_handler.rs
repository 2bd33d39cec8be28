use vstd::prelude::*;

use super::order_worker::{
    StockNoProduct, StockProductGiven, StockProductReserved, StockReservedProductGiven,
};
use super::connection_handler::ResponseAllStockMessage;
use crate::model::product::{Product, ProductView};
use crate::model::stock::{
    can_give, deposit_fits, deposited, deposited_if_held, withdraw_fits, withdrawn, Stock,
};

verus! {

broadcast use vstd::string::to_string_from_display_ensures_for_str;

/// The stock of a local shop: what is on the shelves, and what is set
/// aside for web orders that are being prepared.
#[derive(Debug)]
pub struct StockHandlerActor {
    stock: Stock,
    reserved_stock: Stock,
}

/// A worker asks to take a product off the shelves.
#[derive(Debug, PartialEq, Eq)]
pub struct TakeProduct {
    pub product: Product,
}

/// The connection handler asks for the whole stock on the shelves.
#[derive(Debug, PartialEq, Eq)]
pub struct AskAllStock {}

/// A worker gives back a product it had taken.
#[derive(Debug, PartialEq, Eq)]
pub struct ReturnProduct {
    pub product: Product,
}

/// A worker asks to set a product aside for a web order.
#[derive(Debug, PartialEq, Eq)]
pub struct ReserveProduct {
    pub product: Product,
}

/// A worker takes a product it had set aside.
#[derive(Debug, PartialEq, Eq)]
pub struct TakeReservedProduct {
    pub product: Product,
}

/// A worker puts a product it had set aside back on the shelves.
#[derive(Debug, PartialEq, Eq)]
pub struct UnreserveProduct {
    pub product: Product,
}

/// The answer the stock sends back to the asking worker.
#[derive(Debug, PartialEq, Eq)]
pub enum StockReply {
    Given(StockProductGiven),
    Reserved(StockProductReserved),
    ReservedGiven(StockReservedProductGiven),
    NoProduct(StockNoProduct),
}

/// The message of the error given when a reserved product is missing.
pub const MISSING_RESERVED_PRODUCT: &'static str =
    "Should not happen, the requested reserved product must be in the reserved stock.";

/// The message of the error given when an unreserved product is missing.
pub const MISSING_UNRESERVED_PRODUCT: &'static str =
    "Should not happen, the reserved product must be in the reserved stock.";

impl StockHandlerActor {
    pub closed spec fn wf(&self) -> bool {
        self.stock.wf() && self.reserved_stock.wf()
    }

    /// What is on the shelves.
    pub closed spec fn shelves(&self) -> Map<Seq<char>, i32> {
        self.stock@
    }

    /// What is set aside.
    pub closed spec fn reserved(&self) -> Map<Seq<char>, i32> {
        self.reserved_stock@
    }

    pub fn new(stock: Stock) -> (handler: StockHandlerActor)
        requires
            stock.wf(),
        ensures
            handler.wf(),
            handler.shelves() == stock@,
            handler.reserved() == Map::<Seq<char>, i32>::empty(),
    {
        StockHandlerActor { stock, reserved_stock: Stock::new() }
    }

    /// The whole stock on the shelves, for the server.
    pub fn handle_ask_all_stock(&self, msg: AskAllStock) -> (response: ResponseAllStockMessage)
        requires
            self.wf(),
        ensures
            response.stock.wf(),
            response.stock@ == self.shelves(),
    {
        ResponseAllStockMessage { stock: self.stock.clone() }
    }

    /// Whether the shelves hold at least the quantity of `product`.
    fn gives(&self, product: &Product) -> (gives: bool)
        requires
            self.wf(),
        ensures
            gives == can_give(self.shelves(), product@),
    {
        match self.stock.get_quantity(&product.get_name()) {
            Some(quantity) => quantity >= product.get_quantity(),
            None => false,
        }
    }

    /// Whether `product` may be asked of `handle_take_product`: taking it,
    /// when the shelves hold enough, stays within `i32`.
    pub fn take_fits(&self, product: &Product) -> (fits: bool)
        requires
            self.wf(),
        ensures
            fits == (can_give(self.shelves(), product@) ==> withdraw_fits(self.shelves(), product@)),
    {
        !self.gives(product) || self.stock.can_withdraw(product)
    }

    /// Whether `product` may be asked of `handle_return_product`.
    pub fn return_fits(&self, product: &Product) -> (fits: bool)
        requires
            self.wf(),
        ensures
            fits == deposit_fits(self.shelves(), product@),
    {
        self.stock.can_deposit(product)
    }

    /// Whether `product` may be asked of `handle_reserve_product`: taking it
    /// off the shelves and setting it aside, when the shelves hold enough,
    /// stays within `i32`.
    pub fn reserve_fits(&self, product: &Product) -> (fits: bool)
        requires
            self.wf(),
        ensures
            fits == (can_give(self.shelves(), product@) ==> withdraw_fits(self.shelves(), product@)
                && deposit_fits(self.reserved(), product@)),
    {
        !self.gives(product) || (self.stock.can_withdraw(product) && self.reserved_stock.can_deposit(product))
    }

    /// Whether `product` may be asked of `handle_take_reserved_product`.
    pub fn take_reserved_fits(&self, product: &Product) -> (fits: bool)
        requires
            self.wf(),
        ensures
            fits == withdraw_fits(self.reserved(), product@),
    {
        self.reserved_stock.can_withdraw(product)
    }

    /// Whether `product` may be asked of `handle_unreserve_product`.
    pub fn unreserve_fits(&self, product: &Product) -> (fits: bool)
        requires
            self.wf(),
        ensures
            fits == (withdraw_fits(self.reserved(), product@) && deposit_fits(self.shelves(), product@)),
    {
        self.reserved_stock.can_withdraw(product) && self.stock.can_deposit(product)
    }

    /// Takes the product off the shelves if enough of it is there.
    pub fn handle_take_product(&mut self, msg: TakeProduct) -> (reply: StockReply)
        requires
            old(self).wf(),
            can_give(old(self).shelves(), msg.product@) ==> withdraw_fits(
                old(self).shelves(),
                msg.product@,
            ),
        ensures
            final(self).wf(),
            final(self).reserved() == old(self).reserved(),
            if can_give(old(self).shelves(), msg.product@) {
                &&& final(self).shelves() == withdrawn(old(self).shelves(), msg.product@)
                &&& reply matches StockReply::Given(given) && given.product@ == msg.product@
            } else {
                &&& final(self).shelves() == old(self).shelves()
                &&& reply matches StockReply::NoProduct(_)
            },
    {
        if self.stock.withdraw_if_available(&msg.product) {
            let name = msg.product.get_name();
            let quantity = msg.product.get_quantity();
            StockReply::Given(StockProductGiven { product: Product::new(name, quantity) })
        } else {
            StockReply::NoProduct(StockNoProduct {})
        }
    }

    /// Puts a returned product back on the shelves.
    pub fn handle_return_product(&mut self, msg: ReturnProduct)
        requires
            old(self).wf(),
            deposit_fits(old(self).shelves(), msg.product@),
        ensures
            final(self).wf(),
            final(self).reserved() == old(self).reserved(),
            final(self).shelves() == deposited(old(self).shelves(), msg.product@),
    {
        self.stock.deposit(msg.product);
    }

    /// Moves the product from the shelves to the reserved stock if enough
    /// of it is on the shelves.
    pub fn handle_reserve_product(&mut self, msg: ReserveProduct) -> (reply: StockReply)
        requires
            old(self).wf(),
            can_give(old(self).shelves(), msg.product@) ==> withdraw_fits(
                old(self).shelves(),
                msg.product@,
            ) && deposit_fits(old(self).reserved(), msg.product@),
        ensures
            final(self).wf(),
            if can_give(old(self).shelves(), msg.product@) {
                &&& final(self).shelves() == withdrawn(old(self).shelves(), msg.product@)
                &&& final(self).reserved() == deposited(old(self).reserved(), msg.product@)
                &&& reply matches StockReply::Reserved(_)
            } else {
                &&& final(self).shelves() == old(self).shelves()
                &&& final(self).reserved() == old(self).reserved()
                &&& reply matches StockReply::NoProduct(_)
            },
    {
        if self.stock.withdraw_if_available(&msg.product) {
            self.reserved_stock.deposit(msg.product);
            StockReply::Reserved(StockProductReserved {})
        } else {
            StockReply::NoProduct(StockNoProduct {})
        }
    }

    /// Hands over a product set aside before.
    pub fn handle_take_reserved_product(&mut self, msg: TakeReservedProduct) -> (reply: Result<
        StockReply,
        String,
    >)
        requires
            old(self).wf(),
            withdraw_fits(old(self).reserved(), msg.product@),
        ensures
            final(self).wf(),
            final(self).shelves() == old(self).shelves(),
            if old(self).reserved().contains_key(msg.product@.name) {
                &&& final(self).reserved() == withdrawn(old(self).reserved(), msg.product@)
                &&& reply matches Ok(StockReply::ReservedGiven(given)) && given.product@
                    == msg.product@
            } else {
                &&& final(self).reserved() == old(self).reserved()
                &&& reply matches Err(e) && e@ == MISSING_RESERVED_PRODUCT@
            },
    {
        let name = msg.product.get_name();
        if self.reserved_stock.contains(&name) {
            self.reserved_stock.withdraw(&msg.product);
            let quantity = msg.product.get_quantity();
            Ok(StockReply::ReservedGiven(StockReservedProductGiven { product: Product::new(name, quantity) }))
        } else {
            Err(MISSING_RESERVED_PRODUCT.to_string())
        }
    }

    /// Puts a product set aside back on the shelves.
    pub fn handle_unreserve_product(&mut self, msg: UnreserveProduct) -> (result: Result<(), String>)
        requires
            old(self).wf(),
            withdraw_fits(old(self).reserved(), msg.product@),
            deposit_fits(old(self).shelves(), msg.product@),
        ensures
            final(self).wf(),
            if old(self).reserved().contains_key(msg.product@.name) {
                &&& final(self).reserved() == withdrawn(old(self).reserved(), msg.product@)
                &&& final(self).shelves() == deposited_if_held(old(self).shelves(), msg.product@)
                &&& result is Ok
            } else {
                &&& final(self).reserved() == old(self).reserved()
                &&& final(self).shelves() == old(self).shelves()
                &&& result matches Err(e) && e@ == MISSING_UNRESERVED_PRODUCT@
            },
    {
        let name = msg.product.get_name();
        if self.reserved_stock.contains(&name) {
            self.reserved_stock.withdraw(&msg.product);
            self.stock.deposit_if_held(&msg.product);
            Ok(())
        } else {
            Err(MISSING_UNRESERVED_PRODUCT.to_string())
        }
    }
}

} // verus!
