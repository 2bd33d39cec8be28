use vstd::prelude::*;

use super::order_handler::{OrderCancelled, OrderCompleted};
use super::stock_handler::{ReserveProduct, ReturnProduct, TakeProduct, TakeReservedProduct, UnreserveProduct};
use crate::model::order::{Order, OrderView};
use crate::model::product::{Product, ProductView};
use crate::model::stock::product_views;
use crate::random::random_below;

verus! {

broadcast use vstd::string::to_string_from_display_ensures_for_str;

pub const NOT_READY: &'static str = "Should not happen, the worker is not ready.";

pub const NO_CURRENT_PRODUCT: &'static str = "Should not happen, the current product cannot be None.";

pub const NOT_ASKED_PRODUCT: &'static str = "Should not happen, the received product is not the one asked.";

pub const NO_WORKER_ID: &'static str = "Should not happen, the worker id cannot be None.";

pub const NO_CURRENT_ORDER: &'static str = "Should not happen, the current order cannot be None.";

pub const NOTHING_ASKED: &'static str = "";

/// A worker of a local shop: it gathers the products of one order from
/// the stock, taking them for a local order and reserving them first for a
/// web order, and gives everything back when a product is missing.
#[derive(Debug)]
pub struct OrderWorker {
    id: Option<usize>,
    curr_order: Option<Order>,
    taken_products: Vec<Product>,
    reserved_products: Vec<Product>,
    remaining_products: Vec<Product>,
    curr_asked_product: Option<Product>,
}

/// The worker gets its id and is ready.
#[derive(Debug, PartialEq, Eq)]
pub struct StartUp {
    pub id: usize,
}

/// The worker gets a new order.
#[derive(Debug, PartialEq, Eq)]
pub struct WorkNewOrder {
    pub order: Order,
}

/// The stock handed over the product a worker asked to take.
#[derive(Debug, PartialEq, Eq)]
pub struct StockProductGiven {
    pub product: Product,
}

/// The stock reserved the product a worker asked to reserve.
#[derive(Debug, PartialEq, Eq)]
pub struct StockProductReserved {}

/// The stock handed over a product that was reserved before.
#[derive(Debug, PartialEq, Eq)]
pub struct StockReservedProductGiven {
    pub product: Product,
}

/// The stock does not hold enough of the product a worker asked for.
#[derive(Debug, PartialEq, Eq)]
pub struct StockNoProduct {}

/// The messages a worker sends itself to go on with its order.
#[derive(Debug, PartialEq, Eq)]
pub enum WorkerFollowUp {
    TrySendTakeProduct,
    TryReserveProduct,
    RandomTakeReservedProduct,
    SendReturningProduct,
    SendUnreserveProduct,
    CleanUp,
}

/// What a worker does as a consequence of a message.
#[derive(Debug)]
pub enum WorkerStep {
    /// Go on with the order.
    FollowUp(WorkerFollowUp),
    Take(TakeProduct),
    Reserve(ReserveProduct),
    TakeReserved(TakeReservedProduct),
    Return(ReturnProduct),
    Unreserve(UnreserveProduct),
    Completed(OrderCompleted),
    Cancelled(OrderCancelled),
}

/// The views of an optional product.
pub open spec fn optional_view(product: Option<Product>) -> Option<ProductView> {
    match product {
        Some(p) => Some(p@),
        None => None,
    }
}

/// Whether `steps` is the single step `follow_up`.
pub open spec fn only_follow_up(steps: Seq<WorkerStep>, follow_up: WorkerFollowUp) -> bool {
    steps.len() == 1 && steps[0] == WorkerStep::FollowUp(follow_up)
}

impl OrderWorker {
    pub closed spec fn worker_id(&self) -> Option<usize> {
        self.id
    }

    /// The order being prepared.
    pub closed spec fn current(&self) -> Option<OrderView> {
        match self.curr_order {
            Some(o) => Some(o@),
            None => None,
        }
    }

    /// The products taken from the stock so far, in the order taken.
    pub closed spec fn taken(&self) -> Seq<ProductView> {
        product_views(self.taken_products@)
    }

    /// The products reserved so far, in the order reserved.
    pub closed spec fn reserved(&self) -> Seq<ProductView> {
        product_views(self.reserved_products@)
    }

    /// The products still to ask for; the last one goes first.
    pub closed spec fn remaining(&self) -> Seq<ProductView> {
        product_views(self.remaining_products@)
    }

    /// The product the stock was last asked for.
    pub closed spec fn asked(&self) -> Option<ProductView> {
        optional_view(self.curr_asked_product)
    }

    pub fn new() -> (worker: OrderWorker)
        ensures
            worker.worker_id() is None,
            worker.current() is None,
            worker.taken() == Seq::<ProductView>::empty(),
            worker.reserved() == Seq::<ProductView>::empty(),
            worker.remaining() == Seq::<ProductView>::empty(),
            worker.asked() is None,
    {
        let worker = OrderWorker {
            id: None,
            curr_order: None,
            taken_products: Vec::new(),
            reserved_products: Vec::new(),
            remaining_products: Vec::new(),
            curr_asked_product: None,
        };
        assert(worker.taken() =~= Seq::<ProductView>::empty());
        assert(worker.reserved() =~= Seq::<ProductView>::empty());
        assert(worker.remaining() =~= Seq::<ProductView>::empty());
        worker
    }

    /// The worker takes its id.
    pub fn handle_start_up(&mut self, msg: StartUp)
        ensures
            final(self).worker_id() == Some(msg.id),
            final(self).current() == old(self).current(),
            final(self).taken() == old(self).taken(),
            final(self).reserved() == old(self).reserved(),
            final(self).remaining() == old(self).remaining(),
            final(self).asked() == old(self).asked(),
    {
        self.id = Some(msg.id);
    }

    /// Starts on a new order: a local order is taken product by product, a
    /// web order is reserved product by product.
    pub fn handle_work_new_order(&mut self, msg: WorkNewOrder) -> (result: Result<Vec<WorkerStep>, String>)
        ensures
            if old(self).worker_id() is None {
                &&& result matches Err(e) && e@ == NOT_READY@
                &&& *final(self) == *old(self)
            } else {
                &&& final(self).worker_id() == old(self).worker_id()
                &&& final(self).current() == Some(msg.order@)
                &&& final(self).remaining() == msg.order@.products
                &&& final(self).taken() == old(self).taken()
                &&& final(self).reserved() == old(self).reserved()
                &&& final(self).asked() == old(self).asked()
                &&& result matches Ok(steps) && only_follow_up(
                    steps@,
                    if msg.order@.is_web {
                        WorkerFollowUp::TryReserveProduct
                    } else {
                        WorkerFollowUp::TrySendTakeProduct
                    },
                )
            },
    {
        if self.id.is_none() {
            return Err(NOT_READY.to_string());
        }
        self.remaining_products = msg.order.get_products();
        let web = msg.order.is_web();
        self.curr_order = Some(msg.order);
        let mut steps: Vec<WorkerStep> = Vec::new();
        if web {
            steps.push(WorkerStep::FollowUp(WorkerFollowUp::TryReserveProduct));
        } else {
            steps.push(WorkerStep::FollowUp(WorkerFollowUp::TrySendTakeProduct));
        }
        Ok(steps)
    }

    /// Whether `product` is the product the stock was last asked for.
    fn check_asked(&self, product: &Product) -> (result: Result<(), String>)
        ensures
            match self.asked() {
                None => result matches Err(e) && e@ == NO_CURRENT_PRODUCT@,
                Some(asked) => if asked != product@ {
                    result matches Err(e) && e@ == NOT_ASKED_PRODUCT@
                } else {
                    result is Ok
                },
            },
    {
        match &self.curr_asked_product {
            None => Err(NO_CURRENT_PRODUCT.to_string()),
            Some(asked) => if !asked.same_as(product) {
                Err(NOT_ASKED_PRODUCT.to_string())
            } else {
                Ok(())
            },
        }
    }

    /// The stock gave the asked product: it joins the taken ones, and the
    /// worker asks for the next.
    pub fn handle_stock_product_given(&mut self, msg: StockProductGiven) -> (result: Result<Vec<WorkerStep>, String>)
        ensures
            final(self).worker_id() == old(self).worker_id(),
            final(self).current() == old(self).current(),
            final(self).reserved() == old(self).reserved(),
            final(self).remaining() == old(self).remaining(),
            final(self).asked() == old(self).asked(),
            if old(self).worker_id() is None {
                &&& result matches Err(e) && e@ == NOT_READY@
                &&& final(self).taken() == old(self).taken()
            } else if old(self).asked() is None {
                &&& result matches Err(e) && e@ == NO_CURRENT_PRODUCT@
                &&& final(self).taken() == old(self).taken()
            } else if old(self).asked() != Some(msg.product@) {
                &&& result matches Err(e) && e@ == NOT_ASKED_PRODUCT@
                &&& final(self).taken() == old(self).taken()
            } else {
                &&& final(self).taken() == old(self).taken().push(msg.product@)
                &&& result matches Ok(steps) && only_follow_up(steps@, WorkerFollowUp::TrySendTakeProduct)
            },
    {
        if self.id.is_none() {
            return Err(NOT_READY.to_string());
        }
        self.check_asked(&msg.product)?;
        self.taken_products.push(msg.product);
        proof {
            assert(self.taken() =~= old(self).taken().push(msg.product@));
        }
        let mut steps: Vec<WorkerStep> = Vec::new();
        steps.push(WorkerStep::FollowUp(WorkerFollowUp::TrySendTakeProduct));
        Ok(steps)
    }

    /// Reports the current order done to the order handler and cleans up;
    /// the worker id is read before the order is taken out.
    fn complete(&mut self) -> (result: Result<Vec<WorkerStep>, String>)
        ensures
            final(self).worker_id() == old(self).worker_id(),
            final(self).taken() == old(self).taken(),
            final(self).reserved() == old(self).reserved(),
            final(self).remaining() == old(self).remaining(),
            final(self).asked() == old(self).asked(),
            match (old(self).worker_id(), old(self).current()) {
                (None, _) => result matches Err(e) && e@ == NO_WORKER_ID@ && final(self).current() == old(self).current(),
                (Some(_), None) => result matches Err(e) && e@ == NO_CURRENT_ORDER@ && final(self).current() is None,
                (Some(id), Some(order)) => {
                    &&& final(self).current() is None
                    &&& result matches Ok(steps) && steps@.len() == 2
                        && (steps@[0] matches WorkerStep::Completed(done) && done.worker_id == id && done.order@ == order)
                        && steps@[1] == WorkerStep::FollowUp(WorkerFollowUp::CleanUp)
                },
            },
    {
        let worker_id = match self.id {
            Some(id) => id,
            None => {
                return Err(NO_WORKER_ID.to_string());
            },
        };
        let order = match self.curr_order.take() {
            Some(order) => order,
            None => {
                return Err(NO_CURRENT_ORDER.to_string());
            },
        };
        let mut steps: Vec<WorkerStep> = Vec::new();
        steps.push(WorkerStep::Completed(OrderCompleted { worker_id, order }));
        steps.push(WorkerStep::FollowUp(WorkerFollowUp::CleanUp));
        Ok(steps)
    }

    /// Asks the stock to take the next remaining product; when none is
    /// left, the order is complete.
    pub fn handle_try_send_take_product(&mut self) -> (result: Result<Vec<WorkerStep>, String>)
        ensures
            final(self).worker_id() == old(self).worker_id(),
            final(self).taken() == old(self).taken(),
            final(self).reserved() == old(self).reserved(),
            if old(self).remaining().len() == 0 {
                &&& final(self).remaining() == old(self).remaining()
                &&& final(self).asked() is None
                &&& match (old(self).worker_id(), old(self).current()) {
                    (None, _) => result matches Err(e) && e@ == NO_WORKER_ID@ && final(self).current() == old(self).current(),
                    (Some(_), None) => result matches Err(e) && e@ == NO_CURRENT_ORDER@ && final(self).current() is None,
                    (Some(id), Some(order)) => {
                        &&& final(self).current() is None
                        &&& result matches Ok(steps) && steps@.len() == 2
                            && (steps@[0] matches WorkerStep::Completed(done) && done.worker_id == id && done.order@ == order)
                            && steps@[1] == WorkerStep::FollowUp(WorkerFollowUp::CleanUp)
                    },
                }
            } else {
                let next = old(self).remaining().last();
                &&& final(self).current() == old(self).current()
                &&& final(self).remaining() == old(self).remaining().drop_last()
                &&& final(self).asked() == Some(next)
                &&& result matches Ok(steps) && steps@.len() == 1 && (steps@[0] matches WorkerStep::Take(take)
                    && take.product@ == next)
            },
    {
        self.curr_asked_product = self.remaining_products.pop();
        proof {
            if old(self).remaining().len() > 0 {
                assert(self.remaining() =~= old(self).remaining().drop_last());
            } else {
                assert(self.remaining() =~= old(self).remaining());
            }
        }
        match &self.curr_asked_product {
            None => self.complete(),
            Some(product) => {
                let mut steps: Vec<WorkerStep> = Vec::new();
                steps.push(WorkerStep::Take(TakeProduct { product: product.clone() }));
                Ok(steps)
            },
        }
    }

    /// The stock reserved the asked product: it joins the reserved ones,
    /// and the worker reserves the next.
    pub fn handle_stock_product_reserved(&mut self, msg: StockProductReserved) -> (result: Result<
        Vec<WorkerStep>,
        String,
    >)
        ensures
            final(self).worker_id() == old(self).worker_id(),
            final(self).current() == old(self).current(),
            final(self).taken() == old(self).taken(),
            final(self).remaining() == old(self).remaining(),
            if old(self).worker_id() is None {
                &&& result matches Err(e) && e@ == NOT_READY@
                &&& final(self).reserved() == old(self).reserved()
                &&& final(self).asked() == old(self).asked()
            } else {
                match old(self).asked() {
                    None => {
                        &&& result matches Err(e) && e@ == NOTHING_ASKED@
                        &&& final(self).reserved() == old(self).reserved()
                        &&& final(self).asked() == old(self).asked()
                    },
                    Some(asked) => {
                        &&& final(self).reserved() == old(self).reserved().push(asked)
                        &&& final(self).asked() is None
                        &&& result matches Ok(steps) && only_follow_up(steps@, WorkerFollowUp::TryReserveProduct)
                    },
                }
            },
    {
        if self.id.is_none() {
            return Err(NOT_READY.to_string());
        }
        match self.curr_asked_product.take() {
            Some(product) => {
                self.reserved_products.push(product);
                proof {
                    assert(self.reserved() =~= old(self).reserved().push(old(self).asked()->0));
                }
            },
            None => {
                return Err(NOTHING_ASKED.to_string());
            },
        }
        let mut steps: Vec<WorkerStep> = Vec::new();
        steps.push(WorkerStep::FollowUp(WorkerFollowUp::TryReserveProduct));
        Ok(steps)
    }

    /// Asks the stock to reserve the next remaining product; when none is
    /// left, the worker starts to take the reserved ones.
    pub fn handle_try_reserve_product(&mut self) -> (steps: Vec<WorkerStep>)
        ensures
            final(self).worker_id() == old(self).worker_id(),
            final(self).current() == old(self).current(),
            final(self).taken() == old(self).taken(),
            final(self).reserved() == old(self).reserved(),
            if old(self).remaining().len() == 0 {
                &&& final(self).remaining() == old(self).remaining()
                &&& final(self).asked() is None
                &&& only_follow_up(steps@, WorkerFollowUp::RandomTakeReservedProduct)
            } else {
                let next = old(self).remaining().last();
                &&& final(self).remaining() == old(self).remaining().drop_last()
                &&& final(self).asked() == Some(next)
                &&& steps@.len() == 1 && (steps@[0] matches WorkerStep::Reserve(reserve) && reserve.product@ == next)
            },
    {
        self.curr_asked_product = self.remaining_products.pop();
        proof {
            if old(self).remaining().len() > 0 {
                assert(self.remaining() =~= old(self).remaining().drop_last());
            } else {
                assert(self.remaining() =~= old(self).remaining());
            }
        }
        let mut steps: Vec<WorkerStep> = Vec::new();
        match &self.curr_asked_product {
            None => steps.push(WorkerStep::FollowUp(WorkerFollowUp::RandomTakeReservedProduct)),
            Some(product) => steps.push(WorkerStep::Reserve(ReserveProduct { product: product.clone() })),
        }
        steps
    }

    /// The stock gave a reserved product: it joins the taken ones, and the
    /// worker goes on with the next reserved one.
    pub fn handle_stock_reserved_product_given(&mut self, msg: StockReservedProductGiven) -> (result:
        Result<Vec<WorkerStep>, String>)
        ensures
            final(self).worker_id() == old(self).worker_id(),
            final(self).current() == old(self).current(),
            final(self).reserved() == old(self).reserved(),
            final(self).remaining() == old(self).remaining(),
            final(self).asked() == old(self).asked(),
            if old(self).worker_id() is None {
                &&& result matches Err(e) && e@ == NOT_READY@
                &&& final(self).taken() == old(self).taken()
            } else if old(self).asked() is None {
                &&& result matches Err(e) && e@ == NO_CURRENT_PRODUCT@
                &&& final(self).taken() == old(self).taken()
            } else if old(self).asked() != Some(msg.product@) {
                &&& result matches Err(e) && e@ == NOT_ASKED_PRODUCT@
                &&& final(self).taken() == old(self).taken()
            } else {
                &&& final(self).taken() == old(self).taken().push(msg.product@)
                &&& result matches Ok(steps) && only_follow_up(steps@, WorkerFollowUp::RandomTakeReservedProduct)
            },
    {
        if self.id.is_none() {
            return Err(NOT_READY.to_string());
        }
        self.check_asked(&msg.product)?;
        self.taken_products.push(msg.product);
        proof {
            assert(self.taken() =~= old(self).taken().push(msg.product@));
        }
        let mut steps: Vec<WorkerStep> = Vec::new();
        steps.push(WorkerStep::FollowUp(WorkerFollowUp::RandomTakeReservedProduct));
        Ok(steps)
    }

    /// Goes on with the last reserved product, if any: with a drawn number
    /// of at least 6 (out of 0 to 9) the delivery is late and the reserved
    /// products are released; otherwise the product is taken. When no
    /// reserved product is left, the order is complete.
    pub fn take_reserved_or_release(&mut self, drawn: usize) -> (result: Result<Vec<WorkerStep>, String>)
        ensures
            final(self).worker_id() == old(self).worker_id(),
            final(self).taken() == old(self).taken(),
            final(self).remaining() == old(self).remaining(),
            if old(self).reserved().len() == 0 {
                &&& final(self).reserved() == old(self).reserved()
                &&& final(self).asked() is None
                &&& match (old(self).worker_id(), old(self).current()) {
                    (None, _) => result matches Err(e) && e@ == NO_WORKER_ID@ && final(self).current() == old(self).current(),
                    (Some(_), None) => result matches Err(e) && e@ == NO_CURRENT_ORDER@ && final(self).current() is None,
                    (Some(id), Some(order)) => {
                        &&& final(self).current() is None
                        &&& result matches Ok(steps) && steps@.len() == 2
                            && (steps@[0] matches WorkerStep::Completed(done) && done.worker_id == id && done.order@ == order)
                            && steps@[1] == WorkerStep::FollowUp(WorkerFollowUp::CleanUp)
                    },
                }
            } else {
                let next = old(self).reserved().last();
                &&& final(self).current() == old(self).current()
                &&& final(self).reserved() == old(self).reserved().drop_last()
                &&& final(self).asked() == Some(next)
                &&& if drawn >= 6 {
                    result matches Ok(steps) && only_follow_up(steps@, WorkerFollowUp::SendUnreserveProduct)
                } else {
                    result matches Ok(steps) && steps@.len() == 1 && (steps@[0] matches WorkerStep::TakeReserved(take)
                        && take.product@ == next)
                }
            },
    {
        self.curr_asked_product = self.reserved_products.pop();
        proof {
            if old(self).reserved().len() > 0 {
                assert(self.reserved() =~= old(self).reserved().drop_last());
            } else {
                assert(self.reserved() =~= old(self).reserved());
            }
        }
        match &self.curr_asked_product {
            None => self.complete(),
            Some(product) => {
                let mut steps: Vec<WorkerStep> = Vec::new();
                if drawn >= 6 {
                    steps.push(WorkerStep::FollowUp(WorkerFollowUp::SendUnreserveProduct));
                } else {
                    steps.push(WorkerStep::TakeReserved(TakeReservedProduct { product: product.clone() }));
                }
                Ok(steps)
            },
        }
    }

    /// Draws a number from 0 to 9 at random and goes on as
    /// `take_reserved_or_release` says for it.
    pub fn handle_random_take_reserved_product(&mut self) -> (result: Result<Vec<WorkerStep>, String>)
        ensures
            exists|drawn: usize| drawn < 10 && take_reserved_or_release_result(*old(self), *final(self), drawn, result),
    {
        let drawn = random_below(10);
        let ghost before = *self;
        let result = self.take_reserved_or_release(drawn);
        proof {
            assert(take_reserved_or_release_result(before, *self, drawn, result));
        }
        result
    }

    /// The stock lacks a product: the worker starts giving everything back.
    pub fn handle_stock_no_product(&self, msg: StockNoProduct) -> (result: Result<Vec<WorkerStep>, String>)
        ensures
            if self.worker_id() is None {
                result matches Err(e) && e@ == NOT_READY@
            } else {
                result matches Ok(steps) && only_follow_up(steps@, WorkerFollowUp::SendReturningProduct)
            },
    {
        if self.id.is_none() {
            return Err(NOT_READY.to_string());
        }
        let mut steps: Vec<WorkerStep> = Vec::new();
        steps.push(WorkerStep::FollowUp(WorkerFollowUp::SendReturningProduct));
        Ok(steps)
    }

    /// Gives the last taken product back to the stock and goes on; when
    /// none is left, starts releasing the reserved ones.
    pub fn handle_send_returning_product(&mut self) -> (steps: Vec<WorkerStep>)
        ensures
            final(self).worker_id() == old(self).worker_id(),
            final(self).current() == old(self).current(),
            final(self).reserved() == old(self).reserved(),
            final(self).remaining() == old(self).remaining(),
            final(self).asked() == old(self).asked(),
            if old(self).taken().len() == 0 {
                &&& final(self).taken() == old(self).taken()
                &&& only_follow_up(steps@, WorkerFollowUp::SendUnreserveProduct)
            } else {
                &&& final(self).taken() == old(self).taken().drop_last()
                &&& steps@.len() == 2
                &&& steps@[0] matches WorkerStep::Return(back) && back.product@ == old(self).taken().last()
                &&& steps@[1] == WorkerStep::FollowUp(WorkerFollowUp::SendReturningProduct)
            },
    {
        let mut steps: Vec<WorkerStep> = Vec::new();
        let popped = self.taken_products.pop();
        proof {
            if old(self).taken().len() > 0 {
                assert(self.taken() =~= old(self).taken().drop_last());
            } else {
                assert(self.taken() =~= old(self).taken());
            }
        }
        match popped {
            Some(product) => {
                steps.push(WorkerStep::Return(ReturnProduct { product }));
                steps.push(WorkerStep::FollowUp(WorkerFollowUp::SendReturningProduct));
            },
            None => {
                steps.push(WorkerStep::FollowUp(WorkerFollowUp::SendUnreserveProduct));
            },
        }
        steps
    }

    /// Releases the last reserved product and goes on; when none is left,
    /// the order is cancelled.
    pub fn handle_send_unreserve_product(&mut self) -> (result: Result<Vec<WorkerStep>, String>)
        ensures
            final(self).worker_id() == old(self).worker_id(),
            final(self).taken() == old(self).taken(),
            final(self).remaining() == old(self).remaining(),
            final(self).asked() == old(self).asked(),
            if old(self).reserved().len() == 0 {
                &&& final(self).reserved() == old(self).reserved()
                &&& match (old(self).worker_id(), old(self).current()) {
                    (None, _) => result matches Err(e) && e@ == NO_WORKER_ID@ && final(self).current() == old(self).current(),
                    (Some(_), None) => result matches Err(e) && e@ == NO_CURRENT_ORDER@ && final(self).current() is None,
                    (Some(id), Some(order)) => {
                        &&& final(self).current() is None
                        &&& result matches Ok(steps) && steps@.len() == 2
                            && (steps@[0] matches WorkerStep::Cancelled(undone) && undone.worker_id == id && undone.order@ == order)
                            && steps@[1] == WorkerStep::FollowUp(WorkerFollowUp::CleanUp)
                    },
                }
            } else {
                &&& final(self).current() == old(self).current()
                &&& final(self).reserved() == old(self).reserved().drop_last()
                &&& result matches Ok(steps) && steps@.len() == 2
                    && (steps@[0] matches WorkerStep::Unreserve(release) && release.product@ == old(self).reserved().last())
                    && steps@[1] == WorkerStep::FollowUp(WorkerFollowUp::SendUnreserveProduct)
            },
    {
        let popped = self.reserved_products.pop();
        proof {
            if old(self).reserved().len() > 0 {
                assert(self.reserved() =~= old(self).reserved().drop_last());
            } else {
                assert(self.reserved() =~= old(self).reserved());
            }
        }
        let mut steps: Vec<WorkerStep> = Vec::new();
        match popped {
            Some(product) => {
                steps.push(WorkerStep::Unreserve(UnreserveProduct { product }));
                steps.push(WorkerStep::FollowUp(WorkerFollowUp::SendUnreserveProduct));
                Ok(steps)
            },
            None => {
                let worker_id = match self.id {
                    Some(id) => id,
                    None => {
                        return Err(NO_WORKER_ID.to_string());
                    },
                };
                let order = match self.curr_order.take() {
                    Some(order) => order,
                    None => {
                        return Err(NO_CURRENT_ORDER.to_string());
                    },
                };
                steps.push(WorkerStep::Cancelled(OrderCancelled { worker_id, order }));
                steps.push(WorkerStep::FollowUp(WorkerFollowUp::CleanUp));
                Ok(steps)
            },
        }
    }

    /// Forgets the order and every product list; keeps the id.
    pub fn handle_clean_up(&mut self)
        ensures
            final(self).worker_id() == old(self).worker_id(),
            final(self).current() is None,
            final(self).taken() == Seq::<ProductView>::empty(),
            final(self).reserved() == Seq::<ProductView>::empty(),
            final(self).remaining() == Seq::<ProductView>::empty(),
            final(self).asked() is None,
    {
        self.curr_order = None;
        self.taken_products = Vec::new();
        self.reserved_products = Vec::new();
        self.remaining_products = Vec::new();
        self.curr_asked_product = None;
        assert(self.taken() =~= Seq::<ProductView>::empty());
        assert(self.reserved() =~= Seq::<ProductView>::empty());
        assert(self.remaining() =~= Seq::<ProductView>::empty());
    }
}

/// What `take_reserved_or_release` promises for the number `drawn`, from
/// `before` to `after`, with outcome `result`.
pub open spec fn take_reserved_or_release_result(
    before: OrderWorker,
    after: OrderWorker,
    drawn: usize,
    result: Result<Vec<WorkerStep>, String>,
) -> bool {
    &&& after.worker_id() == before.worker_id()
    &&& after.taken() == before.taken()
    &&& after.remaining() == before.remaining()
    &&& if before.reserved().len() == 0 {
        &&& after.reserved() == before.reserved()
        &&& after.asked() is None
        &&& match (before.worker_id(), before.current()) {
            (None, _) => result matches Err(e) && e@ == NO_WORKER_ID@ && after.current() == before.current(),
            (Some(_), None) => result matches Err(e) && e@ == NO_CURRENT_ORDER@ && after.current() is None,
            (Some(id), Some(order)) => {
                &&& after.current() is None
                &&& result matches Ok(steps) && steps@.len() == 2
                    && (steps@[0] matches WorkerStep::Completed(done) && done.worker_id == id && done.order@ == order)
                    && steps@[1] == WorkerStep::FollowUp(WorkerFollowUp::CleanUp)
            },
        }
    } else {
        let next = before.reserved().last();
        &&& after.current() == before.current()
        &&& after.reserved() == before.reserved().drop_last()
        &&& after.asked() == Some(next)
        &&& if drawn >= 6 {
            result matches Ok(steps) && only_follow_up(steps@, WorkerFollowUp::SendUnreserveProduct)
        } else {
            result matches Ok(steps) && steps@.len() == 1 && (steps@[0] matches WorkerStep::TakeReserved(take)
                && take.product@ == next)
        }
    }
}

} // verus!
