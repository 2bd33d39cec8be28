use vstd::prelude::*;

use super::connection_handler::TrySendFinishedOrder;
use super::order_worker;
use crate::model::order::{order_views, Order, OrderView};

verus! {

broadcast use vstd::string::to_string_from_display_ensures_for_str;

pub const NO_WORKER: &'static str = "No worker with given id.";

pub const WORKER_BUSY: &'static str = "Worker already has an order.";

pub const COMPLETED_DOES_NOT_MATCH: &'static str = "Order completed does not match.";

pub const CANCELLED_DOES_NOT_MATCH: &'static str = "Order cancelled does not match.";

/// Hands the orders of a local shop to its workers: the local orders it
/// started with and the web orders that arrive, balancing the two kinds
/// among the workers. Worker ids are 0, 1, 2, ... in the order the workers
/// joined.
#[derive(Debug)]
pub struct OrderHandler {
    local_orders: Vec<Order>,
    web_orders: Vec<Order>,
    given_orders: Vec<Option<Order>>,
    has_connection_handler: bool,
}

/// Start handing out orders.
#[derive(Debug, PartialEq, Eq)]
pub struct StartUp {}

/// A new worker joins.
#[derive(Debug, PartialEq, Eq)]
pub struct AddNewOrderWorker {}

/// The connection handler that reports finished orders is ready.
#[derive(Debug, PartialEq, Eq)]
pub struct AddNewConnectionHandler {}

/// A web order arrived from an e-commerce server.
#[derive(Debug, PartialEq, Eq)]
pub struct AddNewWebOrder {
    pub order: Order,
}

/// Look for idle workers, from the given worker id on.
#[derive(Debug, PartialEq, Eq)]
pub struct TryFindEmptyOrderWorker {
    pub curr_worker_id: usize,
}

/// Hand the next order to the given worker.
#[derive(Debug, PartialEq, Eq)]
pub struct SendOrder {
    pub worker_id: usize,
}

/// A worker gathered every product of its order.
#[derive(Debug, PartialEq, Eq)]
pub struct OrderCompleted {
    pub worker_id: usize,
    pub order: Order,
}

/// A worker could not gather the products of its order.
#[derive(Debug, PartialEq, Eq)]
pub struct OrderCancelled {
    pub worker_id: usize,
    pub order: Order,
}

/// An order left a worker, completed or not.
#[derive(Debug, PartialEq, Eq)]
pub struct HandleFinishedOrder {
    pub order: Order,
    pub was_completed: bool,
}

/// What to do after looking at one worker for idleness: perhaps hand it an
/// order, and perhaps look at the next worker.
#[derive(Debug, PartialEq, Eq)]
pub struct EmptyWorkerSearch {
    pub send_order: Option<SendOrder>,
    pub next: Option<TryFindEmptyOrderWorker>,
}

/// What follows a worker's finished order: the result to handle, and the
/// next order for the worker.
#[derive(Debug, PartialEq, Eq)]
pub struct FinishedOrderSteps {
    pub finished: HandleFinishedOrder,
    pub send_order: SendOrder,
}

/// The view of an optional order.
pub open spec fn optional_order_view(order: Option<Order>) -> Option<OrderView> {
    match order {
        Some(o) => Some(o@),
        None => None,
    }
}

/// How many workers hold an order of the given kind.
pub open spec fn count_given(given: Seq<Option<OrderView>>, web: bool) -> nat
    decreases given.len(),
{
    if given.len() == 0 {
        0
    } else {
        count_given(given.drop_last(), web) + if given.last() matches Some(o) && o.is_web == web {
            1nat
        } else {
            0nat
        }
    }
}

/// Whether the next order comes from the local orders: they go first when
/// fewer workers hold a local order than a web one, and only when no web
/// order is waiting otherwise.
pub open spec fn takes_local(given: Seq<Option<OrderView>>, locals: Seq<OrderView>, webs: Seq<OrderView>) -> bool {
    if count_given(given, false) < count_given(given, true) {
        locals.len() > 0
    } else {
        webs.len() == 0
    }
}

/// The views of the orders given to the workers.
pub open spec fn given_views(given: Seq<Option<Order>>) -> Seq<Option<OrderView>> {
    given.map_values(|g: Option<Order>| optional_order_view(g))
}

/// How many of the workers, whose orders are `given`, hold an order of the
/// given kind.
fn amount_given(given: &Vec<Option<Order>>, web: bool) -> (amount: usize)
    ensures
        amount == count_given(given_views(given@), web),
{
    let ghost views = given_views(given@);
    let mut amount: usize = 0;
    let mut i: usize = 0;
    while i < given.len()
        invariant
            i <= given.len(),
            views == given_views(given@),
            amount == count_given(views.take(i as int), web),
            amount <= i,
        decreases given.len() - i,
    {
        proof {
            let t = views.take(i + 1);
            assert(t.drop_last() =~= views.take(i as int));
            assert(t.last() == optional_order_view(given@[i as int]));
        }
        match &given[i] {
            Some(order) => {
                if order.is_web() == web {
                    amount = amount + 1;
                }
            },
            None => {},
        }
        i = i + 1;
    }
    assert(views.take(i as int) =~= views);
    amount
}

/// Takes out the order to hand out next to one of the workers whose orders
/// are `given`: from the local orders when `takes_local` says so, from the
/// web orders otherwise; the last order of a list goes first.
pub fn take_next_order(given: &Vec<Option<Order>>, local_orders: &mut Vec<Order>, web_orders: &mut Vec<Order>) -> (order:
    Option<Order>)
    ensures
        if old(local_orders)@.len() == 0 && old(web_orders)@.len() == 0 {
            &&& order is None
            &&& final(local_orders)@ == old(local_orders)@
            &&& final(web_orders)@ == old(web_orders)@
        } else if takes_local(given_views(given@), order_views(old(local_orders)@), order_views(old(web_orders)@)) {
            &&& order == Some(old(local_orders)@.last())
            &&& final(local_orders)@ == old(local_orders)@.drop_last()
            &&& final(web_orders)@ == old(web_orders)@
        } else {
            &&& order == Some(old(web_orders)@.last())
            &&& final(local_orders)@ == old(local_orders)@
            &&& final(web_orders)@ == old(web_orders)@.drop_last()
        },
{
    let locals = amount_given(given, false);
    let webs = amount_given(given, true);
    let from_locals = if locals < webs {
        !local_orders.is_empty()
    } else {
        web_orders.is_empty()
    };
    if from_locals {
        local_orders.pop()
    } else {
        web_orders.pop()
    }
}

/// The order handed out next, when some order waits.
pub open spec fn next_order(given: Seq<Option<OrderView>>, locals: Seq<OrderView>, webs: Seq<OrderView>) -> OrderView {
    if takes_local(given, locals, webs) {
        locals.last()
    } else {
        webs.last()
    }
}

/// The local orders once the next order is taken out.
pub open spec fn locals_after_take(given: Seq<Option<OrderView>>, locals: Seq<OrderView>, webs: Seq<OrderView>) -> Seq<
    OrderView,
> {
    if takes_local(given, locals, webs) {
        locals.drop_last()
    } else {
        locals
    }
}

/// The web orders once the next order is taken out.
pub open spec fn webs_after_take(given: Seq<Option<OrderView>>, locals: Seq<OrderView>, webs: Seq<OrderView>) -> Seq<
    OrderView,
> {
    if takes_local(given, locals, webs) {
        webs
    } else {
        webs.drop_last()
    }
}

/// The local orders once the next order, refused by a busy worker, is put
/// back at the end of the list of its kind.
pub open spec fn locals_after_refusal(given: Seq<Option<OrderView>>, locals: Seq<OrderView>, webs: Seq<OrderView>) -> Seq<
    OrderView,
> {
    let next = next_order(given, locals, webs);
    if next.is_web {
        locals_after_take(given, locals, webs)
    } else {
        locals_after_take(given, locals, webs).push(next)
    }
}

/// The web orders once the next order, refused by a busy worker, is put
/// back at the end of the list of its kind.
pub open spec fn webs_after_refusal(given: Seq<Option<OrderView>>, locals: Seq<OrderView>, webs: Seq<OrderView>) -> Seq<
    OrderView,
> {
    let next = next_order(given, locals, webs);
    if next.is_web {
        webs_after_take(given, locals, webs).push(next)
    } else {
        webs_after_take(given, locals, webs)
    }
}

/// Whether every order of `orders` is of the given kind.
pub open spec fn all_of_kind(orders: Seq<OrderView>, web: bool) -> bool {
    forall|i: int| 0 <= i < orders.len() ==> #[trigger] orders[i].is_web == web
}

/// Which kind of order goes out next: when both kinds wait, the kind that
/// fewer workers hold, a web order on a tie; when one kind waits, that
/// kind.
pub proof fn law_next_order_balances_kinds(
    given: Seq<Option<OrderView>>,
    locals: Seq<OrderView>,
    webs: Seq<OrderView>,
)
    ensures
        locals.len() > 0 && webs.len() > 0 ==> (takes_local(given, locals, webs) <==> count_given(given, false)
            < count_given(given, true)),
        locals.len() > 0 && webs.len() == 0 ==> takes_local(given, locals, webs),
        locals.len() == 0 && webs.len() > 0 ==> !takes_local(given, locals, webs),
{
}

/// An order refused by a busy worker goes back where it was taken from:
/// when each list holds orders of its own kind, both lists are as before.
pub proof fn law_refused_order_goes_back(
    given: Seq<Option<OrderView>>,
    locals: Seq<OrderView>,
    webs: Seq<OrderView>,
)
    requires
        locals.len() > 0 || webs.len() > 0,
        all_of_kind(locals, false),
        all_of_kind(webs, true),
    ensures
        locals_after_refusal(given, locals, webs) == locals,
        webs_after_refusal(given, locals, webs) == webs,
{
    if takes_local(given, locals, webs) {
        assert(locals.last().is_web == false);
        assert(locals.drop_last().push(locals.last()) =~= locals);
    } else {
        assert(webs.len() > 0);
        assert(webs.last().is_web);
        assert(webs.drop_last().push(webs.last()) =~= webs);
    }
}

impl OrderHandler {
    /// The local orders still to hand out; the last one goes first.
    pub closed spec fn local_orders(&self) -> Seq<OrderView> {
        order_views(self.local_orders@)
    }

    /// The web orders still to hand out; the last one goes first.
    pub closed spec fn web_orders(&self) -> Seq<OrderView> {
        order_views(self.web_orders@)
    }

    /// For the worker of each id, the order it is working on, if any.
    pub closed spec fn given(&self) -> Seq<Option<OrderView>> {
        given_views(self.given_orders@)
    }

    /// Whether finished orders can be reported.
    pub closed spec fn reports(&self) -> bool {
        self.has_connection_handler
    }

    pub fn new(local_orders: Vec<Order>) -> (handler: OrderHandler)
        ensures
            handler.local_orders() == order_views(local_orders@),
            handler.web_orders() == Seq::<OrderView>::empty(),
            handler.given() == Seq::<Option<OrderView>>::empty(),
            !handler.reports(),
    {
        let handler = OrderHandler {
            local_orders,
            web_orders: Vec::new(),
            given_orders: Vec::new(),
            has_connection_handler: false,
        };
        assert(handler.web_orders() =~= Seq::<OrderView>::empty());
        assert(handler.given() =~= Seq::<Option<OrderView>>::empty());
        handler
    }

    /// Takes out the order to hand out next, as `takes_local` says.
    pub fn get_order(&mut self) -> (order: Option<Order>)
        ensures
            final(self).given() == old(self).given(),
            final(self).reports() == old(self).reports(),
            if old(self).local_orders().len() == 0 && old(self).web_orders().len() == 0 {
                &&& order is None
                &&& final(self).local_orders() == old(self).local_orders()
                &&& final(self).web_orders() == old(self).web_orders()
            } else if takes_local(old(self).given(), old(self).local_orders(), old(self).web_orders()) {
                &&& order matches Some(o) && o@ == old(self).local_orders().last()
                &&& final(self).local_orders() == old(self).local_orders().drop_last()
                &&& final(self).web_orders() == old(self).web_orders()
            } else {
                &&& order matches Some(o) && o@ == old(self).web_orders().last()
                &&& final(self).local_orders() == old(self).local_orders()
                &&& final(self).web_orders() == old(self).web_orders().drop_last()
            },
    {
        let order = take_next_order(&self.given_orders, &mut self.local_orders, &mut self.web_orders);
        proof {
            assert(self.given() =~= old(self).given());
        }
        order
    }

    /// Starts the search for idle workers from the first worker.
    pub fn handle_start_up(&self, msg: StartUp) -> (next: TryFindEmptyOrderWorker)
        ensures
            next.curr_worker_id == 0,
    {
        TryFindEmptyOrderWorker { curr_worker_id: 0 }
    }

    /// A new worker joins, idle, under the next id; it is told its id.
    pub fn handle_add_new_order_worker(&mut self, msg: AddNewOrderWorker) -> (start: order_worker::StartUp)
        ensures
            start.id == old(self).given().len(),
            final(self).given() == old(self).given().push(None),
            final(self).local_orders() == old(self).local_orders(),
            final(self).web_orders() == old(self).web_orders(),
            final(self).reports() == old(self).reports(),
    {
        let id = self.given_orders.len();
        self.given_orders.push(None);
        assert(self.given() =~= old(self).given().push(None));
        order_worker::StartUp { id }
    }

    /// From now on finished orders are reported.
    pub fn handle_add_new_connection_handler(&mut self, msg: AddNewConnectionHandler)
        ensures
            final(self).reports(),
            final(self).given() == old(self).given(),
            final(self).local_orders() == old(self).local_orders(),
            final(self).web_orders() == old(self).web_orders(),
    {
        self.has_connection_handler = true;
    }

    /// Queues a web order and looks for idle workers from the first one.
    pub fn handle_add_new_web_order(&mut self, msg: AddNewWebOrder) -> (next: TryFindEmptyOrderWorker)
        ensures
            next.curr_worker_id == 0,
            final(self).web_orders() == old(self).web_orders().push(msg.order@),
            final(self).local_orders() == old(self).local_orders(),
            final(self).given() == old(self).given(),
            final(self).reports() == old(self).reports(),
    {
        self.web_orders.push(msg.order);
        assert(self.web_orders() =~= old(self).web_orders().push(msg.order@));
        TryFindEmptyOrderWorker { curr_worker_id: 0 }
    }

    /// Looks at one worker: an idle one gets an order; then the search goes
    /// on with the next id, until the ids run past the workers.
    pub fn handle_try_find_empty_order_worker(&self, msg: TryFindEmptyOrderWorker) -> (search: EmptyWorkerSearch)
        ensures
            if msg.curr_worker_id >= self.given().len() {
                search.send_order is None && search.next is None
            } else {
                &&& search.send_order == (if self.given()[msg.curr_worker_id as int] is None {
                    Some(SendOrder { worker_id: msg.curr_worker_id })
                } else {
                    None
                })
                &&& search.next == Some(TryFindEmptyOrderWorker { curr_worker_id: (msg.curr_worker_id + 1) as usize })
            },
    {
        if msg.curr_worker_id >= self.given_orders.len() {
            return EmptyWorkerSearch { send_order: None, next: None };
        }
        let send_order = if self.given_orders[msg.curr_worker_id].is_none() {
            Some(SendOrder { worker_id: msg.curr_worker_id })
        } else {
            None
        };
        EmptyWorkerSearch {
            send_order,
            next: Some(TryFindEmptyOrderWorker { curr_worker_id: msg.curr_worker_id + 1 }),
        }
    }

    /// Hands the next order to the worker, which must be idle.
    ///
    /// The order is taken out first: when the worker is unknown it is lost;
    /// when the worker is busy it goes back to the end of the list of its
    /// kind.
    pub fn handle_send_order(&mut self, msg: SendOrder) -> (result: Result<Option<order_worker::WorkNewOrder>, String>)
        ensures
            final(self).reports() == old(self).reports(),
            if old(self).local_orders().len() == 0 && old(self).web_orders().len() == 0 {
                &&& result == Ok::<Option<order_worker::WorkNewOrder>, String>(None)
                &&& final(self).local_orders() == old(self).local_orders()
                &&& final(self).web_orders() == old(self).web_orders()
                &&& final(self).given() == old(self).given()
            } else {
                let (g, l, w) = (old(self).given(), old(self).local_orders(), old(self).web_orders());
                let next = next_order(g, l, w);
                if msg.worker_id >= g.len() {
                    &&& result matches Err(e) && e@ == NO_WORKER@
                    &&& final(self).given() == g
                    &&& final(self).local_orders() == locals_after_take(g, l, w)
                    &&& final(self).web_orders() == webs_after_take(g, l, w)
                } else if g[msg.worker_id as int] is Some {
                    &&& result matches Err(e) && e@ == WORKER_BUSY@
                    &&& final(self).given() == g
                    &&& final(self).local_orders() == locals_after_refusal(g, l, w)
                    &&& final(self).web_orders() == webs_after_refusal(g, l, w)
                } else {
                    &&& result matches Ok(Some(work)) && work.order@ == next
                    &&& final(self).given() == g.update(msg.worker_id as int, Some(next))
                    &&& final(self).local_orders() == locals_after_take(g, l, w)
                    &&& final(self).web_orders() == webs_after_take(g, l, w)
                }
            },
    {
        match self.get_order() {
            Some(order) => {
                if msg.worker_id >= self.given_orders.len() {
                    return Err(NO_WORKER.to_string());
                }
                if self.given_orders[msg.worker_id].is_some() {
                    let ghost mid = *self;
                    if order.is_web() {
                        self.web_orders.push(order);
                        assert(self.web_orders() =~= mid.web_orders().push(order@));
                    } else {
                        self.local_orders.push(order);
                        assert(self.local_orders() =~= mid.local_orders().push(order@));
                    }
                    return Err(WORKER_BUSY.to_string());
                }
                let given = order.clone();
                self.given_orders.set(msg.worker_id, Some(given));
                proof {
                    assert(self.given() =~= old(self).given().update(msg.worker_id as int, Some(order@)));
                }
                Ok(Some(order_worker::WorkNewOrder { order }))
            },
            None => Ok(None),
        }
    }

    /// Frees the worker that finished `order`, which must be the order it
    /// was given; the result is then handled and the worker gets the next
    /// order.
    fn finish(&mut self, worker_id: usize, order: Order, was_completed: bool, mismatch: &'static str) -> (result:
        Result<FinishedOrderSteps, String>)
        ensures
            final(self).local_orders() == old(self).local_orders(),
            final(self).web_orders() == old(self).web_orders(),
            final(self).reports() == old(self).reports(),
            if worker_id >= old(self).given().len() {
                &&& result matches Err(e) && e@ == NO_WORKER@
                &&& final(self).given() == old(self).given()
            } else if old(self).given()[worker_id as int] != Some(order@) {
                &&& result matches Err(e) && e@ == mismatch@
                &&& final(self).given() == old(self).given()
            } else {
                &&& result matches Ok(steps) && steps.finished.order@ == order@ && steps.finished.was_completed
                    == was_completed && steps.send_order == SendOrder { worker_id }
                &&& final(self).given() == old(self).given().update(worker_id as int, None)
            },
    {
        if worker_id >= self.given_orders.len() {
            return Err(NO_WORKER.to_string());
        }
        let matches = match &self.given_orders[worker_id] {
            Some(given) => given.same_as(&order),
            None => false,
        };
        if !matches {
            return Err(mismatch.to_string());
        }
        self.given_orders.set(worker_id, None);
        assert(self.given() =~= old(self).given().update(worker_id as int, None));
        Ok(
            FinishedOrderSteps {
                finished: HandleFinishedOrder { order, was_completed },
                send_order: SendOrder { worker_id },
            },
        )
    }

    /// A worker completed its order: it is idle again and gets the next one.
    pub fn handle_order_completed(&mut self, msg: OrderCompleted) -> (result: Result<FinishedOrderSteps, String>)
        ensures
            final(self).local_orders() == old(self).local_orders(),
            final(self).web_orders() == old(self).web_orders(),
            final(self).reports() == old(self).reports(),
            if msg.worker_id >= old(self).given().len() {
                &&& result matches Err(e) && e@ == NO_WORKER@
                &&& final(self).given() == old(self).given()
            } else if old(self).given()[msg.worker_id as int] != Some(msg.order@) {
                &&& result matches Err(e) && e@ == COMPLETED_DOES_NOT_MATCH@
                &&& final(self).given() == old(self).given()
            } else {
                &&& result matches Ok(steps) && steps.finished.order@ == msg.order@ && steps.finished.was_completed
                    && steps.send_order == SendOrder { worker_id: msg.worker_id }
                &&& final(self).given() == old(self).given().update(msg.worker_id as int, None)
            },
    {
        self.finish(msg.worker_id, msg.order, true, COMPLETED_DOES_NOT_MATCH)
    }

    /// A worker cancelled its order: it is idle again and gets the next one.
    pub fn handle_order_cancelled(&mut self, msg: OrderCancelled) -> (result: Result<FinishedOrderSteps, String>)
        ensures
            final(self).local_orders() == old(self).local_orders(),
            final(self).web_orders() == old(self).web_orders(),
            final(self).reports() == old(self).reports(),
            if msg.worker_id >= old(self).given().len() {
                &&& result matches Err(e) && e@ == NO_WORKER@
                &&& final(self).given() == old(self).given()
            } else if old(self).given()[msg.worker_id as int] != Some(msg.order@) {
                &&& result matches Err(e) && e@ == CANCELLED_DOES_NOT_MATCH@
                &&& final(self).given() == old(self).given()
            } else {
                &&& result matches Ok(steps) && steps.finished.order@ == msg.order@ && !steps.finished.was_completed
                    && steps.send_order == SendOrder { worker_id: msg.worker_id }
                &&& final(self).given() == old(self).given().update(msg.worker_id as int, None)
            },
    {
        self.finish(msg.worker_id, msg.order, false, CANCELLED_DOES_NOT_MATCH)
    }

    /// Passes a finished order on to the connection handler: a web order
    /// always, a local one only when completed; nothing is passed before the
    /// connection handler is ready.
    pub fn handle_finished_order(&self, msg: HandleFinishedOrder) -> (report: Option<TrySendFinishedOrder>)
        ensures
            if self.reports() && (msg.order@.is_web || msg.was_completed) {
                report matches Some(r) && r.order@ == msg.order@ && r.was_completed == msg.was_completed
            } else {
                report is None
            },
    {
        if !self.has_connection_handler {
            return None;
        }
        if msg.order.is_web() || msg.was_completed {
            Some(TrySendFinishedOrder { order: msg.order, was_completed: msg.was_completed })
        } else {
            None
        }
    }
}

} // verus!
