use std::collections::HashMap;
use vstd::prelude::*;

use super::order_handler;
use super::order_worker::{self, OrderNotTakenFromLocal, SolvedStockProductQueryForOrderWorker};
use crate::model::id_set::{is_max, is_min, IdSet};
use crate::model::messages::{DBRequest, SLMessage, SSMessage};
use crate::model::order::{Order, OrderView};
use crate::model::stock::Stock;
use crate::text::{decimal_text, text_with_id};

verus! {

broadcast use {
    vstd::std_specs::hash::group_hash_axioms,
    vstd::string::to_string_from_display_ensures_for_str,
};

pub const MISSING_SERVER_PREFIX: &'static str = "No SS middleman found for server with id ";

pub const NO_LEADER_YET: &'static str = "No leader selected yet";

pub const NO_SERVER: &'static str = "No server found";

pub const NO_DB: &'static str = "DBMiddleman not found.";

pub const NO_LOCAL_ID: &'static str = "No local id set";

pub const NO_WORKER_ID: &'static str = "No worker id set";

pub const NOT_WEB: &'static str = "Order is not web.";

pub const NO_ORDER_WORKER: &'static str = "OrderWorker not found.";

pub const NO_WORKER_FOR_STOCK: &'static str = "OrderWorker not found to redirect asked stock.";

pub const NO_SERVER_IN_ORDER: &'static str = "SSMiddleman not found in the order.";

pub const LEADER_NOT_ELECTED: &'static str = "Leader should be elected.";

pub const CLOSING_ERROR: &'static str = "Error closing system.";

/// Told to a waiting side when it should connect or listen again.
pub const WAKE_UP_CONNECTION: &'static str = "rc";

/// Told to a waiting side when the server stops.
pub const EXIT_MSG: &'static str = "exit";

/// The connections of an e-commerce server and what it knows of the
/// leader: which local shops, servers and workers it can reach, whether it
/// reaches the database, and the order results it still has to hand to
/// other servers.
#[derive(Debug)]
pub struct ConnectionHandler {
    my_ss_id: u16,
    my_sl_id: u16,
    leader_ss_id: Option<u16>,
    leader_sl_id: Option<u16>,
    order_workers: IdSet,
    sl_communicators: IdSet,
    known_locals: IdSet,
    ss_communicators: IdSet,
    db_communicator: bool,
    order_results_pending_to_redirect: HashMap<u16, Vec<(Order, bool)>>,
    servers_console: bool,
    locals_console: bool,
}

/// What a worker of this server is told.
#[derive(Debug)]
pub enum WorkerMessage {
    NotTaken(OrderNotTakenFromLocal),
    Solved(SolvedStockProductQueryForOrderWorker),
    Completed(order_worker::OrderCompletedFromLocal),
    Cancelled(order_worker::OrderCancelledFromLocal),
}

/// What the server does as a consequence of a message.
#[derive(Debug)]
pub enum Effect {
    /// Say something to another server.
    ToServer { ss_id: u16, message: SSMessage },
    /// Say something to a local shop.
    ToLocal { local_id: u16, message: SLMessage },
    /// Ask something of the database.
    ToDatabase { request: DBRequest },
    /// Tell one of this server's workers something.
    ToWorker { worker_id: u16, message: WorkerMessage },
    /// Drop the connection with a local shop.
    CloseLocal { local_id: u16 },
    /// Handle a further message of this server.
    FollowUp(FollowUp),
    /// Drop the connection with another server.
    CloseServer { ss_id: u16 },
    /// Tell a waiting side something.
    Signal { listener: Listener, text: String },
    /// Stop the actor system.
    StopSystem,
}

/// The messages a server sends itself to go on with a task.
#[derive(Debug)]
pub enum FollowUp {
    HandlingOrderDispatch(HandlingOrderDispatch),
    HandlingCannotDispatchOrder(HandlingCannotDispatchOrder),
    DelegateOrderToLeader(DelegateOrderToLeader),
    DelegateCannotDispatchOrderToLeader(DelegateCannotDispatchOrderToLeader),
    SendOrderResultToOtherServer(SendOrderResultToOtherServer),
    TrySendPendingOrderResultsToOtherServer(TrySendPendingOrderResultsToOtherServer),
    SendOrderResultToDataBase(SendOrderResultToDataBase),
    WebOrderCompletedFromLocal(WebOrderCompletedFromLocal),
    SendOrderResultToOrderWorker(SendOrderResultToOrderWorker),
    AskForStockProduct(AskForStockProduct),
    RedirectAskForStockProduct(RedirectAskForStockProduct),
    RedirectSolvedAskForStockProductFromDB(RedirectSolvedAskForStockProductFromDB),
    AddSLMiddleman(AddSLMiddleman),
}

/// The side of a server that connects to other servers, or the side that
/// listens to local shops.
#[derive(Debug, PartialEq, Eq)]
pub enum Listener {
    Servers,
    Locals,
}

/// Start handing out the web orders.
#[derive(Debug, PartialEq, Eq)]
pub struct StartUp {}

/// The user drops the connections with the local shops.
#[derive(Debug, PartialEq, Eq)]
pub struct StopConnectionFromSL {}

/// The user drops the connections with the other servers.
#[derive(Debug, PartialEq, Eq)]
pub struct StopConnectionFromSS {}

/// The user asks to connect again.
#[derive(Debug, PartialEq, Eq)]
pub struct WakeUpConnection {}

/// The user stops the server.
#[derive(Debug, PartialEq, Eq)]
pub struct CloseSystem {}

/// The connection with the database is up.
#[derive(Debug, PartialEq, Eq)]
pub struct AddDBMiddlemanAddr {}

/// The connection with the database is down.
#[derive(Debug, PartialEq, Eq)]
pub struct RemoveDBMiddleman {}

/// A connection with another server is up; its id is known when this
/// server opened it.
#[derive(Debug, PartialEq, Eq)]
pub struct AddSSMiddlemanAddr {
    pub ss_id: Option<u16>,
}

/// Another server told its id.
#[derive(Debug, PartialEq, Eq)]
pub struct RegisterSSMiddleman {
    pub ss_id: u16,
}

/// A local shop is registered or logged in under `local_id`.
#[derive(Debug, PartialEq, Eq)]
pub struct AddSLMiddleman {
    pub local_id: u16,
}

/// The connection with a local shop is down.
#[derive(Debug, PartialEq, Eq)]
pub struct RemoveSLMiddleman {
    pub local_id: u16,
}

/// The connection with another server is down.
#[derive(Debug, PartialEq, Eq)]
pub struct RemoveSSMiddleman {
    pub ss_id: u16,
}

/// A worker of this server joins.
#[derive(Debug, PartialEq, Eq)]
pub struct AddOrderWorkerAddr {
    pub order_worker_id: u16,
}

/// Elect a leader among the servers this one reaches.
#[derive(Debug, PartialEq, Eq)]
pub struct LeaderElection {}

/// Another server announced itself as the leader.
#[derive(Debug, PartialEq, Eq)]
pub struct LeaderSelected {
    pub leader_ss_id: u16,
    pub leader_sl_id: u16,
}

/// The connection with another server closed; it may have been the leader.
#[derive(Debug, PartialEq, Eq)]
pub struct CheckIfTheOneWhoClosedWasLeader {
    pub closed_server_id: u16,
}

/// A local shop asks which server leads.
#[derive(Debug, PartialEq, Eq)]
pub struct AskLeaderMessage {}

/// A local shop asks for an id.
#[derive(Debug, PartialEq, Eq)]
pub struct RegisterLocal {}

/// The database handed out an id for the local shop that asked.
#[derive(Debug, PartialEq, Eq)]
pub struct ResponseGetNewLocalId {
    pub db_response_id: u16,
}

/// A local shop reported its whole stock.
#[derive(Debug)]
pub struct StockFromLocal {
    pub local_id: u16,
    pub stock: Stock,
}

/// A local shop logged in again under its id.
#[derive(Debug, PartialEq, Eq)]
pub struct LoginLocalMessage {
    pub local_id: u16,
}

/// A local shop completed an order.
#[derive(Debug, PartialEq, Eq)]
pub struct OrderCompletedFromLocal {
    pub order: Order,
}

/// A local shop completed a web order.
#[derive(Debug, PartialEq, Eq)]
pub struct WebOrderCompletedFromLocal {
    pub order: Order,
}

/// A local shop cancelled a web order.
#[derive(Debug, PartialEq, Eq)]
pub struct WebOrderCancelledFromLocal {
    pub order: Order,
}

/// An order worker asks for the stock of a product in every local shop.
#[derive(Debug, PartialEq, Eq)]
pub struct AskForStockProductFromOrderWorker {
    pub product_name: String,
    pub worker_id: u16,
}

/// An order worker hands over an order to dispatch to the local shop it chose.
#[derive(Debug, PartialEq, Eq)]
pub struct WorkNewOrder {
    pub order: Order,
}

/// Tell the worker of a web order what became of it.
#[derive(Debug, PartialEq, Eq)]
pub struct SendOrderResultToOrderWorker {
    pub order: Order,
    pub was_completed: bool,
}

/// Send an order to the local shop it names, or to the leader.
#[derive(Debug, PartialEq, Eq)]
pub struct HandlingOrderDispatch {
    pub order: Order,
}

/// The local shop an order names is not reachable.
#[derive(Debug, PartialEq, Eq)]
pub struct HandlingCannotDispatchOrder {
    pub order: Order,
}

/// Give back to the server of an order that it cannot be dispatched.
#[derive(Debug, PartialEq, Eq)]
pub struct DelegateCannotDispatchOrderToLeader {
    pub order: Order,
}

/// Hand an order to the leader, which reaches the local shops.
#[derive(Debug, PartialEq, Eq)]
pub struct DelegateOrderToLeader {
    pub order: Order,
}

/// The result of a web order could not be written to its server.
#[derive(Debug, PartialEq, Eq)]
pub struct OrderResultNotDelivered {
    pub order: Order,
    pub was_completed: bool,
}

/// Tell the server of a web order what became of it.
#[derive(Debug, PartialEq, Eq)]
pub struct SendOrderResultToOtherServer {
    pub order: Order,
    pub was_completed: bool,
}

/// Hand one of the order results kept for a server to it.
#[derive(Debug, PartialEq, Eq)]
pub struct TrySendPendingOrderResultsToOtherServer {
    pub dest_ss_id: u16,
}

/// Record a completed order in the database.
#[derive(Debug, PartialEq, Eq)]
pub struct SendOrderResultToDataBase {
    pub order: Order,
}

/// Ask the database for the stock of a product, for a worker of a server.
#[derive(Debug, PartialEq, Eq)]
pub struct AskForStockProduct {
    pub requestor_ss_id: u16,
    pub requestor_worker_id: u16,
    pub product_name: String,
}

/// Pass a stock question on to the leader.
#[derive(Debug, PartialEq, Eq)]
pub struct RedirectAskForStockProduct {
    pub requestor_ss_id: u16,
    pub requestor_worker_id: u16,
    pub product_name: String,
}

/// The database answered a stock question.
#[derive(Debug)]
pub struct HandleSolvedAskForStockProductFromDB {
    pub ss_id: u16,
    pub worker_id: u16,
    pub product_name: String,
    pub stock: HashMap<u16, i32>,
}

/// Pass the answer to a stock question on to the server that asked.
#[derive(Debug)]
pub struct RedirectSolvedAskForStockProductFromDB {
    pub ss_id: u16,
    pub worker_id: u16,
    pub product_name: String,
    pub stock: HashMap<u16, i32>,
}

/// The views of the order results kept for each server.
pub open spec fn pending_views(pending: Map<u16, Vec<(Order, bool)>>) -> Map<u16, Seq<(OrderView, bool)>> {
    pending.map_values(|list: Vec<(Order, bool)>| kept_result_views(list@))
}

/// The views of a list of kept order results.
pub open spec fn kept_result_views(list: Seq<(Order, bool)>) -> Seq<(OrderView, bool)> {
    list.map_values(|r: (Order, bool)| (r.0@, r.1))
}

impl ConnectionHandler {
    pub closed spec fn wf(&self) -> bool {
        &&& self.order_workers.wf()
        &&& self.sl_communicators.wf()
        &&& self.known_locals.wf()
        &&& self.sl_communicators@.subset_of(self.known_locals@)
        &&& self.ss_communicators.wf()
    }

    pub closed spec fn my_ss_id(&self) -> u16 {
        self.my_ss_id
    }

    pub closed spec fn my_sl_id(&self) -> u16 {
        self.my_sl_id
    }

    /// The server this one takes for the leader.
    pub closed spec fn leader_ss_id(&self) -> Option<u16> {
        self.leader_ss_id
    }

    /// The local-shop port of the leader.
    pub closed spec fn leader_sl_id(&self) -> Option<u16> {
        self.leader_sl_id
    }

    /// The workers of this server.
    pub closed spec fn workers(&self) -> Set<u16> {
        self.order_workers@
    }

    /// The local shops this server reaches.
    pub closed spec fn locals(&self) -> Set<u16> {
        self.sl_communicators@
    }

    /// Every local shop that this server has reached since it started,
    /// whether it is reached now or not.
    pub closed spec fn known_locals(&self) -> Set<u16> {
        self.known_locals@
    }

    /// The other servers this server reaches.
    pub closed spec fn servers(&self) -> Set<u16> {
        self.ss_communicators@
    }

    /// Whether this server reaches the database.
    pub closed spec fn has_database(&self) -> bool {
        self.db_communicator
    }

    /// The order results kept for each server, oldest first.
    /// Whether the side that connects to the other servers waits to be
    /// told to connect again or to stop.
    pub closed spec fn servers_console_waits(&self) -> bool {
        self.servers_console
    }

    /// Whether the side that listens to the local shops waits to be told
    /// to listen again or to stop.
    pub closed spec fn locals_console_waits(&self) -> bool {
        self.locals_console
    }

    pub closed spec fn pending_results(&self) -> Map<u16, Seq<(OrderView, bool)>> {
        pending_views(self.order_results_pending_to_redirect@)
    }

    /// Whether `other` is `self` with only the given parts changed.
    pub open spec fn same_except(
        &self,
        other: &Self,
        servers: bool,
        locals: bool,
        leader: bool,
        pending: bool,
        database: bool,
        workers: bool,
    ) -> bool {
        &&& other.my_ss_id() == self.my_ss_id()
        &&& other.my_sl_id() == self.my_sl_id()
        &&& !leader ==> other.leader_ss_id() == self.leader_ss_id() && other.leader_sl_id() == self.leader_sl_id()
        &&& !workers ==> other.workers() == self.workers()
        &&& !locals ==> other.locals() == self.locals() && other.known_locals() == self.known_locals()
        &&& !servers ==> other.servers() == self.servers()
        &&& !database ==> other.has_database() == self.has_database()
        &&& !pending ==> other.pending_results() == self.pending_results()
        &&& other.servers_console_waits() == self.servers_console_waits()
        &&& other.locals_console_waits() == self.locals_console_waits()
    }

    /// Whether `other` is `self` unchanged.
    pub open spec fn unchanged(&self, other: &Self) -> bool {
        self.same_except(other, false, false, false, false, false, false)
    }

    pub fn new(ss_id: u16, sl_id: u16) -> (handler: ConnectionHandler)
        ensures
            handler.wf(),
            handler.my_ss_id() == ss_id,
            handler.my_sl_id() == sl_id,
            handler.leader_ss_id() is None,
            handler.leader_sl_id() is None,
            handler.workers() == Set::<u16>::empty(),
            handler.locals() == Set::<u16>::empty(),
            handler.known_locals() == Set::<u16>::empty(),
            handler.servers() == Set::<u16>::empty(),
            !handler.has_database(),
            handler.pending_results() == Map::<u16, Seq<(OrderView, bool)>>::empty(),
    {
        let handler = ConnectionHandler {
            my_ss_id: ss_id,
            my_sl_id: sl_id,
            leader_ss_id: None,
            leader_sl_id: None,
            order_workers: IdSet::new(),
            sl_communicators: IdSet::new(),
            known_locals: IdSet::new(),
            ss_communicators: IdSet::new(),
            db_communicator: false,
            order_results_pending_to_redirect: HashMap::new(),
            servers_console: false,
            locals_console: false,
        };
        assert(handler.pending_results() =~= Map::<u16, Seq<(OrderView, bool)>>::empty());
        handler
    }

    /// Starts handing out the web orders.
    pub fn handle_start_up(&self, msg: StartUp) -> (start: order_handler::StartUp)
        ensures
            start == (order_handler::StartUp {}),
    {
        order_handler::StartUp {}
    }

    /// The user drops the connections with the local shops; the listening
    /// side then waits to be told to listen again or to stop.
    pub fn handle_stop_connection_from_sl(&mut self, msg: StopConnectionFromSL) -> (effects: Vec<Effect>)
        requires
            old(self).wf(),
        ensures
            final(self).wf(),
            final(self).my_ss_id() == old(self).my_ss_id(),
            final(self).my_sl_id() == old(self).my_sl_id(),
            final(self).leader_ss_id() == old(self).leader_ss_id(),
            final(self).leader_sl_id() == old(self).leader_sl_id(),
            final(self).workers() == old(self).workers(),
            final(self).locals() == old(self).locals(),
            final(self).known_locals() == old(self).known_locals(),
            final(self).servers() == old(self).servers(),
            final(self).has_database() == old(self).has_database(),
            final(self).pending_results() == old(self).pending_results(),
            final(self).servers_console_waits() == old(self).servers_console_waits(),
            final(self).locals_console_waits(),
            closes_each(effects@, old(self).locals()),
    {
        self.locals_console = true;
        let ids = self.sl_communicators.to_vec();
        let mut effects: Vec<Effect> = Vec::new();
        let mut i: usize = 0;
        while i < ids.len()
            invariant
                i <= ids.len(),
                effects@.len() == i,
                forall|j: int| #![trigger effects@[j]] 0 <= j < i ==> effects@[j] == (Effect::CloseLocal { local_id: ids@[j] }),
            decreases ids.len() - i,
        {
            effects.push(Effect::CloseLocal { local_id: ids[i] });
            i = i + 1;
        }
        proof {
            let targets = effects@.map_values(|e: Effect| match e {
                Effect::CloseLocal { local_id } => local_id,
                _ => 0,
            });
            assert(targets =~= ids@);
        }
        effects
    }

    /// The user drops the connections with the other servers; the
    /// connecting side then waits to be told to connect again or to stop.
    pub fn handle_stop_connection_from_ss(&mut self, msg: StopConnectionFromSS) -> (effects: Vec<Effect>)
        requires
            old(self).wf(),
        ensures
            final(self).wf(),
            final(self).my_ss_id() == old(self).my_ss_id(),
            final(self).my_sl_id() == old(self).my_sl_id(),
            final(self).leader_ss_id() == old(self).leader_ss_id(),
            final(self).leader_sl_id() == old(self).leader_sl_id(),
            final(self).workers() == old(self).workers(),
            final(self).locals() == old(self).locals(),
            final(self).known_locals() == old(self).known_locals(),
            final(self).servers() == old(self).servers(),
            final(self).has_database() == old(self).has_database(),
            final(self).pending_results() == old(self).pending_results(),
            final(self).locals_console_waits() == old(self).locals_console_waits(),
            final(self).servers_console_waits(),
            closes_each_server(effects@, old(self).servers()),
    {
        self.servers_console = true;
        let ids = self.ss_communicators.to_vec();
        let mut effects: Vec<Effect> = Vec::new();
        let mut i: usize = 0;
        while i < ids.len()
            invariant
                i <= ids.len(),
                effects@.len() == i,
                forall|j: int| #![trigger effects@[j]] 0 <= j < i ==> effects@[j] == (Effect::CloseServer { ss_id: ids@[j] }),
            decreases ids.len() - i,
        {
            effects.push(Effect::CloseServer { ss_id: ids[i] });
            i = i + 1;
        }
        proof {
            let targets = effects@.map_values(|e: Effect| match e {
                Effect::CloseServer { ss_id } => ss_id,
                _ => 0,
            });
            assert(targets =~= ids@);
        }
        effects
    }

    /// Tells the waiting sides to connect again: nothing when the
    /// connecting side does not wait; the listening side only after it.
    pub fn handle_wake_up_connection(&self, msg: WakeUpConnection) -> (effects: Vec<Effect>)
        ensures
            if !self.servers_console_waits() {
                effects@.len() == 0
            } else if !self.locals_console_waits() {
                effects@.len() == 1 && signals(effects@[0], Listener::Servers, WAKE_UP_CONNECTION)
            } else {
                &&& effects@.len() == 2
                &&& signals(effects@[0], Listener::Servers, WAKE_UP_CONNECTION)
                &&& signals(effects@[1], Listener::Locals, WAKE_UP_CONNECTION)
            },
    {
        let mut effects: Vec<Effect> = Vec::new();
        if self.servers_console {
            effects.push(Effect::Signal { listener: Listener::Servers, text: WAKE_UP_CONNECTION.to_string() });
            if self.locals_console {
                effects.push(Effect::Signal { listener: Listener::Locals, text: WAKE_UP_CONNECTION.to_string() });
            }
        }
        effects
    }

    /// Stops the server when an actor system runs, telling the waiting
    /// sides to stop first.
    pub fn handle_close_system(&self, msg: CloseSystem, system_running: bool) -> (result: Result<Vec<Effect>, String>)
        ensures
            if !system_running {
                result matches Err(e) && e@ == CLOSING_ERROR@
            } else {
                result matches Ok(effects) && {
                    let ss = if self.servers_console_waits() { 1int } else { 0int };
                    let sl = if self.locals_console_waits() { 1int } else { 0int };
                    &&& effects@.len() == ss + sl + 1
                    &&& self.servers_console_waits() ==> signals(effects@[0], Listener::Servers, EXIT_MSG)
                    &&& self.locals_console_waits() ==> signals(effects@[ss], Listener::Locals, EXIT_MSG)
                    &&& effects@[ss + sl] is StopSystem
                }
            },
    {
        if !system_running {
            return Err(CLOSING_ERROR.to_string());
        }
        let mut effects: Vec<Effect> = Vec::new();
        if self.servers_console {
            effects.push(Effect::Signal { listener: Listener::Servers, text: EXIT_MSG.to_string() });
        }
        if self.locals_console {
            effects.push(Effect::Signal { listener: Listener::Locals, text: EXIT_MSG.to_string() });
        }
        effects.push(Effect::StopSystem);
        Ok(effects)
    }

    pub fn handle_add_db_middleman_addr(&mut self, msg: AddDBMiddlemanAddr)
        ensures
            final(self).wf() == old(self).wf(),
            old(self).same_except(final(self), false, false, false, false, true, false),
            final(self).has_database(),
    {
        self.db_communicator = true;
    }

    pub fn handle_remove_db_middleman(&mut self, msg: RemoveDBMiddleman)
        ensures
            final(self).wf() == old(self).wf(),
            old(self).same_except(final(self), false, false, false, false, true, false),
            !final(self).has_database(),
    {
        self.db_communicator = false;
    }

    /// Records the server when its id is known, and tells it this server's ids.
    pub fn handle_add_ss_middleman_addr(&mut self, msg: AddSSMiddlemanAddr) -> (answer: SSMessage)
        requires
            old(self).wf(),
        ensures
            final(self).wf(),
            old(self).same_except(final(self), true, false, false, false, false, false),
            final(self).servers() == match msg.ss_id {
                Some(id) => old(self).servers().insert(id),
                None => old(self).servers(),
            },
            answer == (SSMessage::TakeMyId { ss_id: old(self).my_ss_id(), sl_id: old(self).my_sl_id() }),
    {
        if let Some(ss_id) = msg.ss_id {
            self.ss_communicators.insert(ss_id);
        }
        SSMessage::TakeMyId { ss_id: self.my_ss_id, sl_id: self.my_sl_id }
    }

    /// Records the server under the id it told, then hands it the results
    /// kept for it.
    pub fn handle_register_ss_middleman(&mut self, msg: RegisterSSMiddleman) -> (next:
        TrySendPendingOrderResultsToOtherServer)
        requires
            old(self).wf(),
        ensures
            final(self).wf(),
            old(self).same_except(final(self), true, false, false, false, false, false),
            final(self).servers() == old(self).servers().insert(msg.ss_id),
            next == (TrySendPendingOrderResultsToOtherServer { dest_ss_id: msg.ss_id }),
    {
        self.ss_communicators.insert(msg.ss_id);
        TrySendPendingOrderResultsToOtherServer { dest_ss_id: msg.ss_id }
    }

    /// Records the local shop; its connection learns its id.
    pub fn handle_add_sl_middleman(&mut self, msg: AddSLMiddleman) -> (local_id: u16)
        requires
            old(self).wf(),
        ensures
            final(self).wf(),
            old(self).same_except(final(self), false, true, false, false, false, false),
            final(self).locals() == old(self).locals().insert(msg.local_id),
            final(self).known_locals() == old(self).known_locals().insert(msg.local_id),
            local_id == msg.local_id,
    {
        self.sl_communicators.insert(msg.local_id);
        self.known_locals.insert(msg.local_id);
        msg.local_id
    }

    pub fn handle_remove_sl_middleman(&mut self, msg: RemoveSLMiddleman)
        requires
            old(self).wf(),
        ensures
            final(self).wf(),
            old(self).same_except(final(self), false, true, false, false, false, false),
            final(self).locals() == old(self).locals().remove(msg.local_id),
            final(self).known_locals() == old(self).known_locals(),
    {
        self.sl_communicators.remove(msg.local_id);
    }

    /// Lists every local shop this server has reached, each with whether it
    /// is connected now.
    pub fn handle_list_locals(&self) -> (listed: Vec<(u16, bool)>)
        requires
            self.wf(),
        ensures
            listed@.map_values(|entry: (u16, bool)| entry.0).no_duplicates(),
            listed@.map_values(|entry: (u16, bool)| entry.0).to_set() == self.known_locals(),
            forall|i: int| 0 <= i < listed@.len() ==> #[trigger] listed@[i].1 == self.locals().contains(
                listed@[i].0,
            ),
            self.locals().subset_of(self.known_locals()),
    {
        let ids = self.known_locals.to_vec();
        let mut listed: Vec<(u16, bool)> = Vec::new();
        let mut i: usize = 0;
        while i < ids.len()
            invariant
                i <= ids.len(),
                listed@.len() == i,
                forall|j: int| 0 <= j < i ==> #[trigger] listed@[j] == (ids@[j], self.locals().contains(ids@[j])),
            decreases ids.len() - i,
        {
            let id = ids[i];
            listed.push((id, self.sl_communicators.contains(id)));
            i = i + 1;
        }
        proof {
            assert(listed@.map_values(|entry: (u16, bool)| entry.0) =~= ids@);
        }
        listed
    }

    pub fn handle_remove_ss_middleman(&mut self, msg: RemoveSSMiddleman)
        requires
            old(self).wf(),
        ensures
            final(self).wf(),
            old(self).same_except(final(self), true, false, false, false, false, false),
            final(self).servers() == old(self).servers().remove(msg.ss_id),
    {
        self.ss_communicators.remove(msg.ss_id);
    }

    pub fn handle_add_order_worker_addr(&mut self, msg: AddOrderWorkerAddr)
        requires
            old(self).wf(),
        ensures
            final(self).wf(),
            old(self).same_except(final(self), false, false, false, false, false, true),
            final(self).workers() == old(self).workers().insert(msg.order_worker_id),
    {
        self.order_workers.insert(msg.order_worker_id);
    }

    /// Bully election: when a reachable server has a larger id, this server
    /// asks the largest of them to lead; otherwise it becomes the leader
    /// and announces it to every reachable server.
    pub fn handle_leader_election(&mut self, msg: LeaderElection) -> (effects: Vec<Effect>)
        requires
            old(self).wf(),
        ensures
            final(self).wf(),
            if exists|id: u16| #[trigger] old(self).servers().contains(id) && id > old(self).my_ss_id() {
                &&& old(self).unchanged(final(self))
                &&& effects@.len() == 1
                &&& effects@[0] matches Effect::ToServer { ss_id, message: SSMessage::ElectLeader { requestor_id } }
                    && is_max(old(self).servers(), ss_id) && requestor_id == old(self).my_ss_id()
            } else {
                &&& old(self).same_except(final(self), false, false, true, false, false, false)
                &&& final(self).leader_ss_id() == Some(old(self).my_ss_id())
                &&& final(self).leader_sl_id() == Some(old(self).my_sl_id())
                &&& is_announcement(effects@, old(self).servers(), old(self).my_ss_id(), old(self).my_sl_id())
            },
    {
        let largest = self.ss_communicators.max();
        if let Some(max_ss_id) = largest {
            if max_ss_id > self.my_ss_id {
                let mut effects: Vec<Effect> = Vec::new();
                effects.push(Effect::ToServer {
                    ss_id: max_ss_id,
                    message: SSMessage::ElectLeader { requestor_id: self.my_ss_id },
                });
                return effects;
            }
        }
        self.leader_ss_id = Some(self.my_ss_id);
        self.leader_sl_id = Some(self.my_sl_id);
        self.announce_leadership()
    }

    /// Another server leads now: this server drops its local shops, which
    /// reconnect to the leader.
    pub fn handle_leader_selected(&mut self, msg: LeaderSelected) -> (effects: Vec<Effect>)
        requires
            old(self).wf(),
        ensures
            final(self).wf(),
            old(self).same_except(final(self), false, false, true, false, false, false),
            final(self).leader_ss_id() == Some(msg.leader_ss_id),
            final(self).leader_sl_id() == Some(msg.leader_sl_id),
            closes_each(effects@, old(self).locals()),
    {
        self.leader_ss_id = Some(msg.leader_ss_id);
        self.leader_sl_id = Some(msg.leader_sl_id);
        let ids = self.sl_communicators.to_vec();
        let mut effects: Vec<Effect> = Vec::new();
        let mut i: usize = 0;
        while i < ids.len()
            invariant
                i <= ids.len(),
                effects@.len() == i,
                forall|j: int| #![trigger effects@[j]] 0 <= j < i ==> effects@[j] == (Effect::CloseLocal { local_id: ids@[j] }),
            decreases ids.len() - i,
        {
            effects.push(Effect::CloseLocal { local_id: ids[i] });
            i = i + 1;
        }
        proof {
            let targets = effects@.map_values(|e: Effect| match e {
                Effect::CloseLocal { local_id } => local_id,
                _ => 0,
            });
            assert(targets =~= ids@);
        }
        effects
    }

    /// Forgets the server whose connection closed. If it was the leader,
    /// this server leads when it is alone; otherwise, when its id is the
    /// smallest, it starts a new election with the largest server.
    pub fn handle_check_if_the_one_who_closed_was_leader(
        &mut self,
        msg: CheckIfTheOneWhoClosedWasLeader,
    ) -> (result: Result<Vec<Effect>, String>)
        requires
            old(self).wf(),
        ensures
            final(self).wf(),
            if !old(self).servers().contains(msg.closed_server_id) {
                &&& result matches Err(e) && e@ == MISSING_SERVER_PREFIX@ + decimal_text(
                    msg.closed_server_id as nat,
                )
                &&& old(self).unchanged(final(self))
            } else {
                let remaining = old(self).servers().remove(msg.closed_server_id);
                &&& old(self).same_except(final(self), true, false, true, false, false, false)
                &&& final(self).servers() == remaining
                &&& if old(self).leader_ss_id() != Some(msg.closed_server_id) {
                    &&& final(self).leader_ss_id() == old(self).leader_ss_id()
                    &&& final(self).leader_sl_id() == old(self).leader_sl_id()
                    &&& result matches Ok(effects) && effects@.len() == 0
                } else if remaining.is_empty() {
                    &&& final(self).leader_ss_id() == Some(old(self).my_ss_id())
                    &&& final(self).leader_sl_id() == Some(old(self).my_sl_id())
                    &&& result matches Ok(effects) && effects@.len() == 0
                } else {
                    &&& final(self).leader_ss_id() is None
                    &&& final(self).leader_sl_id() is None
                    &&& result matches Ok(effects) && if forall|id: u16| #[trigger] remaining.contains(id) ==> old(self).my_ss_id() < id {
                        &&& effects@.len() == 1
                        &&& effects@[0] matches Effect::ToServer { ss_id, message: SSMessage::ElectLeader { requestor_id } }
                            && is_max(remaining, ss_id) && requestor_id == old(self).my_ss_id()
                    } else {
                        effects@.len() == 0
                    }
                }
            },
    {
        if !self.ss_communicators.remove(msg.closed_server_id) {
            assert(old(self).servers().remove(msg.closed_server_id) =~= old(self).servers());
            return Err(text_with_id(MISSING_SERVER_PREFIX, msg.closed_server_id));
        }
        let mut effects: Vec<Effect> = Vec::new();
        if let Some(leader_id) = self.leader_ss_id {
            if leader_id != msg.closed_server_id {
                return Ok(effects);
            }
            self.leader_ss_id = None;
            self.leader_sl_id = None;
            let largest = self.ss_communicators.max();
            if let Some(max_ss_id) = largest {
                let smallest = self.ss_communicators.min();
                if let Some(min_ss_id) = smallest {
                    if self.my_ss_id < min_ss_id {
                        effects.push(Effect::ToServer {
                            ss_id: max_ss_id,
                            message: SSMessage::ElectLeader { requestor_id: self.my_ss_id },
                        });
                    }
                }
                return Ok(effects);
            }
            self.leader_ss_id = Some(self.my_ss_id);
            self.leader_sl_id = Some(self.my_sl_id);
        }
        Ok(effects)
    }

    /// A worker hands over an order: it goes on to be dispatched.
    pub fn handle_work_new_order(&self, msg: WorkNewOrder) -> (next: HandlingOrderDispatch)
        ensures
            next.order@ == msg.order@,
    {
        HandlingOrderDispatch { order: msg.order }
    }

    /// The leader sends an order to the local shop it names, or notes that
    /// the shop is out of reach; another server hands it to the leader.
    pub fn handle_handling_order_dispatch(&self, msg: HandlingOrderDispatch) -> (result: Result<
        Effect,
        String,
    >)
        ensures
            if self.leader_ss_id() == Some(self.my_ss_id()) {
                match msg.order@.local_id {
                    None => result matches Err(e) && e@ == NO_LOCAL_ID@,
                    Some(local) => if self.locals().contains(local) {
                        result matches Ok(Effect::ToLocal { local_id, message: SLMessage::WorkNewOrder { order } })
                            && local_id == local && order@ == msg.order@
                    } else {
                        result matches Ok(Effect::FollowUp(FollowUp::HandlingCannotDispatchOrder(next)))
                            && next.order@ == msg.order@
                    },
                }
            } else {
                result matches Ok(Effect::FollowUp(FollowUp::DelegateOrderToLeader(next)))
                    && next.order@ == msg.order@
            },
    {
        if self.leader_ss_id == Some(self.my_ss_id) {
            let local_id = match msg.order.get_local_id() {
                Some(id) => id,
                None => {
                    return Err(NO_LOCAL_ID.to_string());
                },
            };
            if self.sl_communicators.contains(local_id) {
                return Ok(Effect::ToLocal { local_id, message: SLMessage::WorkNewOrder { order: msg.order } });
            }
            return Ok(Effect::FollowUp(FollowUp::HandlingCannotDispatchOrder(HandlingCannotDispatchOrder { order: msg.order })));
        }
        Ok(Effect::FollowUp(FollowUp::DelegateOrderToLeader(DelegateOrderToLeader { order: msg.order })))
    }

    /// An order could not reach its local shop: the worker of this server
    /// that holds it tries another shop; an order of another server goes
    /// back to that server.
    pub fn handle_handling_cannot_dispatch_order(&self, msg: HandlingCannotDispatchOrder) -> (result:
        Result<Effect, String>)
        ensures
            if msg.order@.ss_id == Some(self.my_ss_id()) && (msg.order@.worker_id is None || msg.order@.local_id is None) {
                if msg.order@.worker_id is None {
                    result matches Err(e) && e@ == NO_WORKER_ID@
                } else {
                    result matches Err(e) && e@ == NO_LOCAL_ID@
                }
            } else if msg.order@.ss_id == Some(self.my_ss_id()) && self.workers().contains(msg.order@.worker_id->0) {
                result matches Ok(Effect::ToWorker { worker_id, message: WorkerMessage::NotTaken(_) })
                    && worker_id == msg.order@.worker_id->0
            } else {
                result matches Ok(Effect::FollowUp(FollowUp::DelegateCannotDispatchOrderToLeader(next)))
                    && next.order@ == msg.order@
            },
    {
        if msg.order.get_ss_id_web() == Some(self.my_ss_id) {
            let worker_id = match msg.order.get_worker_id_web() {
                Some(id) => id,
                None => {
                    return Err(NO_WORKER_ID.to_string());
                },
            };
            if msg.order.get_local_id().is_none() {
                return Err(NO_LOCAL_ID.to_string());
            }
            if self.order_workers.contains(worker_id) {
                return Ok(Effect::ToWorker { worker_id, message: WorkerMessage::NotTaken(OrderNotTakenFromLocal {}) });
            }
        }
        Ok(Effect::FollowUp(FollowUp::DelegateCannotDispatchOrderToLeader(DelegateCannotDispatchOrderToLeader { order: msg.order })))
    }

    /// Tells the server of an order that it could not be dispatched.
    pub fn handle_delegate_cannot_dispatch_order_to_leader(&self, msg: DelegateCannotDispatchOrderToLeader) -> (result:
        Result<Effect, String>)
        ensures
            match msg.order@.ss_id {
                Some(dest) if self.servers().contains(dest) => result matches Ok(Effect::ToServer {
                    ss_id,
                    message: SSMessage::CannotDispatchPreviouslyDelegatedOrder { order },
                }) && ss_id == dest && order@ == msg.order@,
                _ => result matches Err(e) && e@ == NO_SERVER@,
            },
    {
        if let Some(dest_ss_id) = msg.order.get_ss_id_web() {
            if self.ss_communicators.contains(dest_ss_id) {
                return Ok(Effect::ToServer {
                    ss_id: dest_ss_id,
                    message: SSMessage::CannotDispatchPreviouslyDelegatedOrder { order: msg.order },
                });
            }
        }
        Err(NO_SERVER.to_string())
    }

    /// Hands an order to the leader.
    pub fn handle_delegate_order_to_leader(&self, msg: DelegateOrderToLeader) -> (result: Result<
        Effect,
        String,
    >)
        ensures
            match self.leader_ss_id() {
                Some(leader) if self.servers().contains(leader) => result matches Ok(Effect::ToServer {
                    ss_id,
                    message: SSMessage::DelegateOrderToLeader { order },
                }) && ss_id == leader && order@ == msg.order@,
                _ => result matches Err(e) && e@ == NO_LEADER_YET@,
            },
    {
        if let Some(leader_ss_id) = self.leader_ss_id {
            if self.ss_communicators.contains(leader_ss_id) {
                return Ok(Effect::ToServer {
                    ss_id: leader_ss_id,
                    message: SSMessage::DelegateOrderToLeader { order: msg.order },
                });
            }
        }
        Err(NO_LEADER_YET.to_string())
    }

    /// Keeps the result of `order` for the server `dest_ss_id`, after the
    /// results already kept for it.
    fn keep_pending(&mut self, dest_ss_id: u16, order: Order, was_completed: bool)
        ensures
            old(self).same_except(final(self), false, false, false, true, false, false),
            final(self).wf() == old(self).wf(),
            final(self).pending_results() == old(self).pending_results().insert(
                dest_ss_id,
                results_kept_for(old(self).pending_results(), dest_ss_id).push((order@, was_completed)),
            ),
    {
        let ghost before = self.pending_results();
        let mut list = match self.order_results_pending_to_redirect.remove(&dest_ss_id) {
            Some(list) => list,
            None => Vec::new(),
        };
        proof {
            assert(kept_result_views(list@) =~= results_kept_for(before, dest_ss_id));
        }
        let ghost order_view = order@;
        let ghost old_list = list@;
        list.push((order, was_completed));
        proof {
            assert(kept_result_views(list@) =~= kept_result_views(old_list).push((order_view, was_completed)));
        }
        self.order_results_pending_to_redirect.insert(dest_ss_id, list);
        proof {
            assert(self.pending_results() =~= before.insert(
                dest_ss_id,
                results_kept_for(before, dest_ss_id).push((order_view, was_completed)),
            ));
        }
    }

    /// A result handed to another server could not be written to it: it is
    /// kept for that server, as when the server was out of reach.
    pub fn handle_order_result_not_delivered(&mut self, msg: OrderResultNotDelivered) -> (result: Result<(), String>)
        ensures
            old(self).same_except(final(self), false, false, false, true, false, false),
            final(self).wf() == old(self).wf(),
            result matches Err(e) && e@ == NO_SERVER_IN_ORDER@,
            match msg.order@.ss_id {
                Some(dest) => final(self).pending_results() == old(self).pending_results().insert(
                    dest,
                    results_kept_for(old(self).pending_results(), dest).push((msg.order@, msg.was_completed)),
                ),
                None => final(self).pending_results() == old(self).pending_results(),
            },
    {
        if let Some(dest_ss_id) = msg.order.get_ss_id_web() {
            self.keep_pending(dest_ss_id, msg.order, msg.was_completed);
        }
        Err(NO_SERVER_IN_ORDER.to_string())
    }

    /// Hands an order result to the server of the order; keeps it for later
    /// when that server is out of reach.
    pub fn handle_send_order_result_to_other_server(&mut self, msg: SendOrderResultToOtherServer) -> (result:
        Result<Effect, String>)
        ensures
            old(self).same_except(final(self), false, false, false, true, false, false),
            final(self).wf() == old(self).wf(),
            match msg.order@.ss_id {
                Some(dest) if old(self).servers().contains(dest) => {
                    &&& result matches Ok(Effect::ToServer {
                        ss_id,
                        message: SSMessage::SolvedPreviouslyDelegatedOrder { order, was_completed },
                    }) && ss_id == dest && order@ == msg.order@ && was_completed == msg.was_completed
                    &&& final(self).pending_results() == old(self).pending_results()
                },
                Some(dest) => {
                    &&& result matches Err(e) && e@ == NO_SERVER_IN_ORDER@
                    &&& final(self).pending_results() == old(self).pending_results().insert(
                        dest,
                        results_kept_for(old(self).pending_results(), dest).push((msg.order@, msg.was_completed)),
                    )
                },
                None => {
                    &&& result matches Err(e) && e@ == NO_SERVER_IN_ORDER@
                    &&& final(self).pending_results() == old(self).pending_results()
                },
            },
    {
        if let Some(dest_ss_id) = msg.order.get_ss_id_web() {
            if self.ss_communicators.contains(dest_ss_id) {
                return Ok(Effect::ToServer {
                    ss_id: dest_ss_id,
                    message: SSMessage::SolvedPreviouslyDelegatedOrder {
                        order: msg.order,
                        was_completed: msg.was_completed,
                    },
                });
            }
            self.keep_pending(dest_ss_id, msg.order, msg.was_completed);
        }
        Err(NO_SERVER_IN_ORDER.to_string())
    }

    /// Takes the newest order result kept for a server, to hand it over,
    /// and looks for the next one.
    pub fn handle_try_send_pending_order_results_to_other_server(
        &mut self,
        msg: TrySendPendingOrderResultsToOtherServer,
    ) -> (effects: Vec<Effect>)
        ensures
            old(self).same_except(final(self), false, false, false, true, false, false),
            final(self).wf() == old(self).wf(),
            if results_kept_for(old(self).pending_results(), msg.dest_ss_id).len() == 0 {
                &&& effects@.len() == 0
                &&& final(self).pending_results() == old(self).pending_results()
            } else {
                let kept = results_kept_for(old(self).pending_results(), msg.dest_ss_id);
                &&& final(self).pending_results() == old(self).pending_results().insert(msg.dest_ss_id, kept.drop_last())
                &&& effects@.len() == 2
                &&& effects@[0] matches Effect::FollowUp(FollowUp::SendOrderResultToOtherServer(next))
                    && next.order@ == kept.last().0 && next.was_completed == kept.last().1
                &&& effects@[1] matches Effect::FollowUp(FollowUp::TrySendPendingOrderResultsToOtherServer(again))
                    && again.dest_ss_id == msg.dest_ss_id
            },
    {
        let mut effects: Vec<Effect> = Vec::new();
        let ghost before = self.pending_results();
        match self.order_results_pending_to_redirect.remove(&msg.dest_ss_id) {
            Some(mut list) => {
                let ghost old_list = list@;
                let popped = list.pop();
                proof {
                    assert(before.contains_key(msg.dest_ss_id));
                    assert(before[msg.dest_ss_id] == kept_result_views(old_list));
                    if old_list.len() > 0 {
                        assert(kept_result_views(list@) =~= kept_result_views(old_list).drop_last());
                    }
                }
                match popped {
                    Some((order, was_completed)) => {
                        self.order_results_pending_to_redirect.insert(msg.dest_ss_id, list);
                        proof {
                            assert(self.pending_results() =~= before.insert(msg.dest_ss_id, results_kept_for(before, msg.dest_ss_id).drop_last()));
                        }
                        effects.push(Effect::FollowUp(FollowUp::SendOrderResultToOtherServer(SendOrderResultToOtherServer { order, was_completed })));
                        effects.push(Effect::FollowUp(FollowUp::TrySendPendingOrderResultsToOtherServer(msg)));
                    },
                    None => {
                        self.order_results_pending_to_redirect.insert(msg.dest_ss_id, list);
                        proof {
                            assert(self.pending_results() =~= before);
                        }
                    },
                }
            },
            None => {
                proof {
                    assert(self.pending_results() =~= before);
                }
            },
        }
        effects
    }

    /// Records a completed order in the database.
    pub fn handle_send_order_result_to_database(&self, msg: SendOrderResultToDataBase) -> (result: Result<
        Effect,
        String,
    >)
        ensures
            if self.has_database() {
                result matches Ok(Effect::ToDatabase { request: DBRequest::PostOrderResult { order } })
                    && order@ == msg.order@
            } else {
                result matches Err(e) && e@ == NO_DB@
            },
    {
        if self.db_communicator {
            return Ok(Effect::ToDatabase { request: DBRequest::PostOrderResult { order: msg.order } });
        }
        Err(NO_DB.to_string())
    }

    /// A local shop completed an order: a web order goes back to its
    /// worker, and every completed order is recorded in the database.
    pub fn handle_order_completed_from_local(&self, msg: OrderCompletedFromLocal) -> (effects: Vec<Effect>)
        ensures
            if msg.order@.is_web {
                &&& effects@.len() == 2
                &&& effects@[0] matches Effect::FollowUp(FollowUp::WebOrderCompletedFromLocal(next))
                    && next.order@ == msg.order@
                &&& effects@[1] matches Effect::FollowUp(FollowUp::SendOrderResultToDataBase(next))
                    && next.order@ == msg.order@
            } else {
                &&& effects@.len() == 1
                &&& effects@[0] matches Effect::FollowUp(FollowUp::SendOrderResultToDataBase(next))
                    && next.order@ == msg.order@
            },
    {
        let mut effects: Vec<Effect> = Vec::new();
        if msg.order.is_web() {
            effects.push(Effect::FollowUp(FollowUp::WebOrderCompletedFromLocal(WebOrderCompletedFromLocal { order: msg.order.clone() })));
        }
        effects.push(Effect::FollowUp(FollowUp::SendOrderResultToDataBase(SendOrderResultToDataBase { order: msg.order })));
        effects
    }

    /// Sends the result of a web order to its worker, when this server
    /// handles the order, or to the server that does.
    fn route_web_order_result(&self, order: Order, was_completed: bool) -> (result: Result<Effect, String>)
        ensures
            if !order@.is_web {
                result matches Err(e) && e@ == NOT_WEB@
            } else if order@.ss_id == Some(self.my_ss_id()) {
                result matches Ok(Effect::FollowUp(FollowUp::SendOrderResultToOrderWorker(next)))
                    && next.order@ == order@ && next.was_completed == was_completed
            } else {
                result matches Ok(Effect::FollowUp(FollowUp::SendOrderResultToOtherServer(next)))
                    && next.order@ == order@ && next.was_completed == was_completed
            },
    {
        if order.is_local() {
            return Err(NOT_WEB.to_string());
        }
        if order.get_ss_id_web() == Some(self.my_ss_id) {
            Ok(Effect::FollowUp(FollowUp::SendOrderResultToOrderWorker(SendOrderResultToOrderWorker { order, was_completed })))
        } else {
            Ok(Effect::FollowUp(FollowUp::SendOrderResultToOtherServer(SendOrderResultToOtherServer { order, was_completed })))
        }
    }

    pub fn handle_web_order_completed_from_local(&self, msg: WebOrderCompletedFromLocal) -> (result: Result<
        Effect,
        String,
    >)
        ensures
            if !msg.order@.is_web {
                result matches Err(e) && e@ == NOT_WEB@
            } else if msg.order@.ss_id == Some(self.my_ss_id()) {
                result matches Ok(Effect::FollowUp(FollowUp::SendOrderResultToOrderWorker(next)))
                    && next.order@ == msg.order@ && next.was_completed
            } else {
                result matches Ok(Effect::FollowUp(FollowUp::SendOrderResultToOtherServer(next)))
                    && next.order@ == msg.order@ && next.was_completed
            },
    {
        self.route_web_order_result(msg.order, true)
    }

    pub fn handle_web_order_cancelled_from_local(&self, msg: WebOrderCancelledFromLocal) -> (result: Result<
        Effect,
        String,
    >)
        ensures
            if !msg.order@.is_web {
                result matches Err(e) && e@ == NOT_WEB@
            } else if msg.order@.ss_id == Some(self.my_ss_id()) {
                result matches Ok(Effect::FollowUp(FollowUp::SendOrderResultToOrderWorker(next)))
                    && next.order@ == msg.order@ && !next.was_completed
            } else {
                result matches Ok(Effect::FollowUp(FollowUp::SendOrderResultToOtherServer(next)))
                    && next.order@ == msg.order@ && !next.was_completed
            },
    {
        self.route_web_order_result(msg.order, false)
    }

    /// Tells the worker of a web order that its order was completed or
    /// cancelled.
    pub fn handle_send_order_result_to_order_worker(&self, msg: SendOrderResultToOrderWorker) -> (result:
        Result<Effect, String>)
        ensures
            match msg.order@.worker_id {
                Some(worker) if self.workers().contains(worker) => if msg.was_completed {
                    result matches Ok(Effect::ToWorker { worker_id, message: WorkerMessage::Completed(done) })
                        && worker_id == worker && done.order@ == msg.order@
                } else {
                    result matches Ok(Effect::ToWorker { worker_id, message: WorkerMessage::Cancelled(done) })
                        && worker_id == worker && done.order@ == msg.order@
                },
                _ => result matches Err(e) && e@ == NO_ORDER_WORKER@,
            },
    {
        if let Some(order_worker_id) = msg.order.get_worker_id_web() {
            if self.order_workers.contains(order_worker_id) {
                if msg.was_completed {
                    return Ok(Effect::ToWorker {
                        worker_id: order_worker_id,
                        message: WorkerMessage::Completed(order_worker::OrderCompletedFromLocal { order: msg.order }),
                    });
                } else {
                    return Ok(Effect::ToWorker {
                        worker_id: order_worker_id,
                        message: WorkerMessage::Cancelled(order_worker::OrderCancelledFromLocal { order: msg.order }),
                    });
                }
            }
        }
        Err(NO_ORDER_WORKER.to_string())
    }

    /// A worker's stock question becomes a question of this server.
    pub fn handle_ask_for_stock_product_from_order_worker(&self, msg: AskForStockProductFromOrderWorker) -> (next:
        AskForStockProduct)
        ensures
            next.requestor_ss_id == self.my_ss_id(),
            next.requestor_worker_id == msg.worker_id,
            next.product_name@ == msg.product_name@,
    {
        AskForStockProduct {
            requestor_ss_id: self.my_ss_id,
            requestor_worker_id: msg.worker_id,
            product_name: msg.product_name,
        }
    }

    /// The leader asks the database; another server passes the question on
    /// to the leader.
    pub fn handle_ask_for_stock_product(&self, msg: AskForStockProduct) -> (result: Result<Effect, String>)
        ensures
            if self.leader_ss_id() != Some(self.my_ss_id()) {
                result matches Ok(Effect::FollowUp(FollowUp::RedirectAskForStockProduct(next)))
                    && next.requestor_ss_id == msg.requestor_ss_id
                    && next.requestor_worker_id == msg.requestor_worker_id
                    && next.product_name@ == msg.product_name@
            } else if self.has_database() {
                result matches Ok(Effect::ToDatabase {
                    request: DBRequest::GetProductQuantityFromAllLocals { ss_id, worker_id, product_name },
                }) && ss_id == msg.requestor_ss_id && worker_id == msg.requestor_worker_id
                    && product_name@ == msg.product_name@
            } else {
                result matches Err(e) && e@ == NO_DB@
            },
    {
        if self.leader_ss_id != Some(self.my_ss_id) {
            return Ok(Effect::FollowUp(FollowUp::RedirectAskForStockProduct(RedirectAskForStockProduct {
                requestor_ss_id: msg.requestor_ss_id,
                requestor_worker_id: msg.requestor_worker_id,
                product_name: msg.product_name,
            })));
        }
        if self.db_communicator {
            return Ok(Effect::ToDatabase {
                request: DBRequest::GetProductQuantityFromAllLocals {
                    ss_id: msg.requestor_ss_id,
                    worker_id: msg.requestor_worker_id,
                    product_name: msg.product_name,
                },
            });
        }
        Err(NO_DB.to_string())
    }

    /// Passes a stock question on to the leader.
    pub fn handle_redirect_ask_for_stock_product(&self, msg: RedirectAskForStockProduct) -> (result: Result<
        Effect,
        String,
    >)
        ensures
            match self.leader_ss_id() {
                Some(leader) if self.servers().contains(leader) => result matches Ok(Effect::ToServer {
                    ss_id,
                    message: SSMessage::DelegateAskForStockProductToLeader {
                        requestor_ss_id,
                        requestor_worker_id,
                        product_name,
                    },
                }) && ss_id == leader && requestor_ss_id == msg.requestor_ss_id
                    && requestor_worker_id == msg.requestor_worker_id && product_name@ == msg.product_name@,
                _ => result matches Err(e) && e@ == NO_LEADER_YET@,
            },
    {
        if let Some(leader_ss_id) = self.leader_ss_id {
            if self.ss_communicators.contains(leader_ss_id) {
                return Ok(Effect::ToServer {
                    ss_id: leader_ss_id,
                    message: SSMessage::DelegateAskForStockProductToLeader {
                        requestor_ss_id: msg.requestor_ss_id,
                        requestor_worker_id: msg.requestor_worker_id,
                        product_name: msg.product_name,
                    },
                });
            }
        }
        Err(NO_LEADER_YET.to_string())
    }

    /// The answer to a stock question goes to the worker that asked, or to
    /// its server.
    pub fn handle_solved_ask_for_stock_product_from_db(&self, msg: HandleSolvedAskForStockProductFromDB) -> (result:
        Result<Effect, String>)
        ensures
            if msg.ss_id != self.my_ss_id() {
                result matches Ok(Effect::FollowUp(FollowUp::RedirectSolvedAskForStockProductFromDB(next)))
                    && next.ss_id == msg.ss_id && next.worker_id == msg.worker_id
                    && next.product_name@ == msg.product_name@ && next.stock@ == msg.stock@
            } else if self.workers().contains(msg.worker_id) {
                result matches Ok(Effect::ToWorker { worker_id, message: WorkerMessage::Solved(solved) })
                    && worker_id == msg.worker_id && solved.product_name@ == msg.product_name@
                    && solved.stock@ == msg.stock@ && solved.my_ss_id == self.my_ss_id()
                    && solved.my_sl_id == self.my_sl_id()
            } else {
                result matches Err(e) && e@ == NO_WORKER_FOR_STOCK@
            },
    {
        if msg.ss_id != self.my_ss_id {
            return Ok(Effect::FollowUp(FollowUp::RedirectSolvedAskForStockProductFromDB(RedirectSolvedAskForStockProductFromDB {
                ss_id: msg.ss_id,
                worker_id: msg.worker_id,
                product_name: msg.product_name,
                stock: msg.stock,
            })));
        }
        if self.order_workers.contains(msg.worker_id) {
            return Ok(Effect::ToWorker {
                worker_id: msg.worker_id,
                message: WorkerMessage::Solved(SolvedStockProductQueryForOrderWorker {
                    product_name: msg.product_name,
                    stock: msg.stock,
                    my_ss_id: self.my_ss_id,
                    my_sl_id: self.my_sl_id,
                }),
            });
        }
        Err(NO_WORKER_FOR_STOCK.to_string())
    }

    /// Passes the answer to a stock question on to the server that asked.
    pub fn handle_redirect_solved_ask_for_stock_product_from_db(&self, msg: RedirectSolvedAskForStockProductFromDB) -> (result:
        Result<Effect, String>)
        ensures
            if self.servers().contains(msg.ss_id) {
                result matches Ok(Effect::ToServer {
                    ss_id,
                    message: SSMessage::SolvedAskForStockProduct {
                        requestor_ss_id,
                        requestor_worker_id,
                        product_name,
                        stock,
                    },
                }) && ss_id == msg.ss_id && requestor_ss_id == msg.ss_id
                    && requestor_worker_id == msg.worker_id && product_name@ == msg.product_name@
                    && stock@ == msg.stock@
            } else {
                result matches Err(e) && e@ == NO_SERVER@
            },
    {
        if self.ss_communicators.contains(msg.ss_id) {
            return Ok(Effect::ToServer {
                ss_id: msg.ss_id,
                message: SSMessage::SolvedAskForStockProduct {
                    requestor_ss_id: msg.ss_id,
                    requestor_worker_id: msg.worker_id,
                    product_name: msg.product_name,
                    stock: msg.stock,
                },
            });
        }
        Err(NO_SERVER.to_string())
    }

    /// Tells a local shop which server leads.
    pub fn handle_ask_leader_message(&self, msg: AskLeaderMessage) -> (result: Result<SLMessage, String>)
        ensures
            match self.leader_sl_id() {
                Some(leader) => result matches Ok(SLMessage::LeaderMessage { leader_sl_id }) && leader_sl_id == leader,
                None => result matches Err(e) && e@ == LEADER_NOT_ELECTED@,
            },
    {
        if let Some(leader_id) = self.leader_sl_id {
            return Ok(SLMessage::LeaderMessage { leader_sl_id: leader_id });
        }
        Err(LEADER_NOT_ELECTED.to_string())
    }

    /// Asks the database for an id for the local shop that asked.
    pub fn handle_register_local(&self, msg: RegisterLocal) -> (result: Result<DBRequest, String>)
        ensures
            if self.has_database() {
                result matches Ok(DBRequest::GetNewLocalId)
            } else {
                result matches Err(e) && e@ == NO_DB@
            },
    {
        if self.db_communicator {
            return Ok(DBRequest::GetNewLocalId);
        }
        Err(NO_DB.to_string())
    }

    /// The local shop that asked is registered under the id the database
    /// gave: it learns its id, and is asked for its stock.
    pub fn handle_response_get_new_local_id(&self, msg: ResponseGetNewLocalId) -> (accepted: (
        AddSLMiddleman,
        Vec<SLMessage>,
    ))
        ensures
            accepted.0 == (AddSLMiddleman { local_id: msg.db_response_id }),
            accepted.1@.len() == 2,
            accepted.1@[0] matches SLMessage::LocalSuccessfullyRegistered { local_id } && local_id
                == msg.db_response_id,
            accepted.1@[1] matches SLMessage::AskAllStock,
    {
        let mut replies: Vec<SLMessage> = Vec::new();
        replies.push(SLMessage::LocalSuccessfullyRegistered { local_id: msg.db_response_id });
        replies.push(SLMessage::AskAllStock);
        (AddSLMiddleman { local_id: msg.db_response_id }, replies)
    }

    /// Passes the stock a local shop reported on to the database.
    pub fn handle_stock_from_local(&self, msg: StockFromLocal) -> (result: Result<DBRequest, String>)
        ensures
            if self.has_database() {
                result matches Ok(DBRequest::PostStockFromLocal { local_id, stock }) && local_id == msg.local_id
                    && stock@ == msg.stock@ && stock.wf() == msg.stock.wf()
            } else {
                result matches Err(e) && e@ == NO_DB@
            },
    {
        if self.db_communicator {
            return Ok(DBRequest::PostStockFromLocal { local_id: msg.local_id, stock: msg.stock });
        }
        Err(NO_DB.to_string())
    }

    /// A local shop logged in under its id: it is registered again and
    /// told so.
    pub fn handle_login_local_message(&self, msg: LoginLocalMessage) -> (accepted: (AddSLMiddleman, SLMessage))
        ensures
            accepted.0 == (AddSLMiddleman { local_id: msg.local_id }),
            accepted.1 matches SLMessage::LocalSuccessfullyLoggedIn,
    {
        (AddSLMiddleman { local_id: msg.local_id }, SLMessage::LocalSuccessfullyLoggedIn)
    }

    /// Tells every reachable server that this one leads.
    fn announce_leadership(&self) -> (effects: Vec<Effect>)
        requires
            self.wf(),
        ensures
            is_announcement(effects@, self.servers(), self.my_ss_id(), self.my_sl_id()),
    {
        let ids = self.ss_communicators.to_vec();
        let mut effects: Vec<Effect> = Vec::new();
        let mut i: usize = 0;
        while i < ids.len()
            invariant
                i <= ids.len(),
                effects@.len() == i,
                forall|j: int| #![trigger effects@[j]]
                    0 <= j < i ==> effects@[j] == (Effect::ToServer {
                        ss_id: ids@[j],
                        message: SSMessage::SelectedLeader {
                            leader_ss_id: self.my_ss_id,
                            leader_sl_id: self.my_sl_id,
                        },
                    }),
            decreases ids.len() - i,
        {
            effects.push(Effect::ToServer {
                ss_id: ids[i],
                message: SSMessage::SelectedLeader { leader_ss_id: self.my_ss_id, leader_sl_id: self.my_sl_id },
            });
            i = i + 1;
        }
        proof {
            let targets = effects@.map_values(|e: Effect| match e {
                Effect::ToServer { ss_id, .. } => ss_id,
                _ => 0,
            });
            assert(targets =~= ids@);
        }
        effects
    }
}

/// The order results kept for `dest` in `pending`, empty when none are.
pub open spec fn results_kept_for(pending: Map<u16, Seq<(OrderView, bool)>>, dest: u16) -> Seq<(OrderView, bool)> {
    if pending.contains_key(dest) {
        pending[dest]
    } else {
        Seq::empty()
    }
}

/// Whether `effects` drops the connection with each of `locals` exactly once.
pub open spec fn closes_each(effects: Seq<Effect>, locals: Set<u16>) -> bool {
    &&& forall|j: int| #![trigger effects[j]] 0 <= j < effects.len() ==> effects[j] is CloseLocal
    &&& {
        let targets = effects.map_values(|e: Effect| match e {
            Effect::CloseLocal { local_id } => local_id,
            _ => 0,
        });
        targets.no_duplicates() && targets.to_set() == locals
    }
}

/// Whether `effects` drops the connection with each of `servers` exactly
/// once, and does nothing else.
pub open spec fn closes_each_server(effects: Seq<Effect>, servers: Set<u16>) -> bool {
    &&& forall|j: int| #![trigger effects[j]] 0 <= j < effects.len() ==> effects[j] is CloseServer
    &&& {
        let targets = effects.map_values(|e: Effect| match e {
            Effect::CloseServer { ss_id } => ss_id,
            _ => 0,
        });
        targets.no_duplicates() && targets.to_set() == servers
    }
}

/// Whether `effect` tells the side `listener` the text `text`.
pub open spec fn signals(effect: Effect, listener: Listener, text: &str) -> bool {
    effect matches Effect::Signal { listener: l, text: t } && l == listener && t@ == text@
}

/// Whether `effects` tells each of `servers` exactly once that the server
/// `leader_ss_id`, with local-shop port `leader_sl_id`, leads.
pub open spec fn is_announcement(effects: Seq<Effect>, servers: Set<u16>, leader_ss_id: u16, leader_sl_id: u16) -> bool {
    &&& forall|j: int| #![trigger effects[j]] 0 <= j < effects.len() ==> (effects[j] matches Effect::ToServer {
        ss_id,
        message: SSMessage::SelectedLeader { leader_ss_id: l_ss, leader_sl_id: l_sl },
    } && l_ss == leader_ss_id && l_sl == leader_sl_id)
    &&& {
        let targets = effects.map_values(|e: Effect| match e {
            Effect::ToServer { ss_id, .. } => ss_id,
            _ => 0,
        });
        targets.no_duplicates() && targets.to_set() == servers
    }
}

} // verus!
