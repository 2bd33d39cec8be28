use vstd::prelude::*;

use super::order_worker::{AnswerReserveProduct, AnswerTakeProduct};
use crate::model::product::Product;
use crate::model::stock::{
    can_give, deposit_fits, deposited, deposited_if_held, withdraw_fits, withdrawn, Stock,
};

verus! {

/// The stock of a local shop, with the products set aside for web orders.
#[derive(Debug)]
pub struct StockHandlerActor {
    stock: Stock,
    reserved_stock: Stock,
}

/// A worker asks to take a product off the shelves.
#[derive(Debug, PartialEq, Eq)]
pub struct TakeProduct {
    pub product: Product,
}

/// A worker asks to set a product aside.
#[derive(Debug, PartialEq, Eq)]
pub struct ReserveProduct {
    pub product: Product,
}

/// A worker takes a product it had set aside.
#[derive(Debug, PartialEq, Eq)]
pub struct TakeReservedProduct {
    pub product: Product,
}

/// A worker puts a product it had set aside back on the shelves.
#[derive(Debug, PartialEq, Eq)]
pub struct UnreserveProduct {
    pub product: Product,
}

impl StockHandlerActor {
    pub closed spec fn wf(&self) -> bool {
        self.stock.wf() && self.reserved_stock.wf()
    }

    /// What is on the shelves.
    pub closed spec fn shelves(&self) -> Map<Seq<char>, i32> {
        self.stock@
    }

    /// What is set aside.
    pub closed spec fn reserved(&self) -> Map<Seq<char>, i32> {
        self.reserved_stock@
    }

    pub fn new(stock: Stock) -> (handler: StockHandlerActor)
        requires
            stock.wf(),
        ensures
            handler.wf(),
            handler.shelves() == stock@,
            handler.reserved() == Map::<Seq<char>, i32>::empty(),
    {
        StockHandlerActor { stock, reserved_stock: Stock::new() }
    }

    /// Takes the product off the shelves if enough of it is there.
    pub fn handle_take_product(&mut self, msg: TakeProduct) -> (answer: AnswerTakeProduct)
        requires
            old(self).wf(),
            can_give(old(self).shelves(), msg.product@) ==> withdraw_fits(
                old(self).shelves(),
                msg.product@,
            ),
        ensures
            final(self).wf(),
            final(self).reserved() == old(self).reserved(),
            if can_give(old(self).shelves(), msg.product@) {
                &&& final(self).shelves() == withdrawn(old(self).shelves(), msg.product@)
                &&& answer matches AnswerTakeProduct::StockProductGiven { product } && product@
                    == msg.product@
            } else {
                &&& final(self).shelves() == old(self).shelves()
                &&& answer matches AnswerTakeProduct::StockNoProduct
            },
    {
        if self.stock.withdraw_if_available(&msg.product) {
            let name = msg.product.get_name();
            let quantity = msg.product.get_quantity();
            AnswerTakeProduct::StockProductGiven { product: Product::new(name, quantity) }
        } else {
            AnswerTakeProduct::StockNoProduct
        }
    }

    /// Moves the product from the shelves to the reserved stock if enough
    /// of it is on the shelves.
    pub fn handle_reserve_product(&mut self, msg: ReserveProduct) -> (answer: AnswerReserveProduct)
        requires
            old(self).wf(),
            can_give(old(self).shelves(), msg.product@) ==> withdraw_fits(
                old(self).shelves(),
                msg.product@,
            ) && deposit_fits(old(self).reserved(), msg.product@),
        ensures
            final(self).wf(),
            if can_give(old(self).shelves(), msg.product@) {
                &&& final(self).shelves() == withdrawn(old(self).shelves(), msg.product@)
                &&& final(self).reserved() == deposited(old(self).reserved(), msg.product@)
                &&& answer matches AnswerReserveProduct::StockProductReserved
            } else {
                &&& final(self).shelves() == old(self).shelves()
                &&& final(self).reserved() == old(self).reserved()
                &&& answer matches AnswerReserveProduct::StockNoProduct
            },
    {
        if self.stock.withdraw_if_available(&msg.product) {
            self.reserved_stock.deposit(msg.product);
            AnswerReserveProduct::StockProductReserved
        } else {
            AnswerReserveProduct::StockNoProduct
        }
    }

    /// Hands over a product set aside before; answers that there is no such
    /// product when none of it was set aside.
    pub fn handle_take_reserved_product(&mut self, msg: TakeReservedProduct) -> (answer:
        AnswerTakeProduct)
        requires
            old(self).wf(),
            withdraw_fits(old(self).reserved(), msg.product@),
        ensures
            final(self).wf(),
            final(self).shelves() == old(self).shelves(),
            if old(self).reserved().contains_key(msg.product@.name) {
                &&& final(self).reserved() == withdrawn(old(self).reserved(), msg.product@)
                &&& answer matches AnswerTakeProduct::StockProductGiven { product } && product@
                    == msg.product@
            } else {
                &&& final(self).reserved() == old(self).reserved()
                &&& answer matches AnswerTakeProduct::StockNoProduct
            },
    {
        let name = msg.product.get_name();
        if self.reserved_stock.contains(&name) {
            self.reserved_stock.withdraw(&msg.product);
            let quantity = msg.product.get_quantity();
            AnswerTakeProduct::StockProductGiven { product: Product::new(name, quantity) }
        } else {
            AnswerTakeProduct::StockNoProduct
        }
    }

    /// Puts a product set aside back on the shelves.
    pub fn handle_unreserve_product(&mut self, msg: UnreserveProduct) -> (answer:
        AnswerReserveProduct)
        requires
            old(self).wf(),
            withdraw_fits(old(self).reserved(), msg.product@),
            deposit_fits(old(self).shelves(), msg.product@),
        ensures
            final(self).wf(),
            if old(self).reserved().contains_key(msg.product@.name) {
                &&& final(self).reserved() == withdrawn(old(self).reserved(), msg.product@)
                &&& final(self).shelves() == deposited_if_held(old(self).shelves(), msg.product@)
                &&& answer matches AnswerReserveProduct::StockProductReserved
            } else {
                &&& final(self).reserved() == old(self).reserved()
                &&& final(self).shelves() == old(self).shelves()
                &&& answer matches AnswerReserveProduct::StockNoProduct
            },
    {
        let name = msg.product.get_name();
        if self.reserved_stock.contains(&name) {
            self.reserved_stock.withdraw(&msg.product);
            self.stock.deposit_if_held(&msg.product);
            AnswerReserveProduct::StockProductReserved
        } else {
            AnswerReserveProduct::StockNoProduct
        }
    }
}

} // verus!
