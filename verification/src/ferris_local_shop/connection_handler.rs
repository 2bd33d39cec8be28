use vstd::prelude::*;

use super::order_handler::AddNewWebOrder;
use crate::model::messages::LSMessage;
use crate::model::order::{Order, OrderView};
use crate::model::stock::Stock;

verus! {

broadcast use vstd::string::to_string_from_display_ensures_for_str;

/// Told to the connecting side when the connection must be set up again.
pub const RECONNECT: &'static str = "RECONNECT";

/// Told to the connecting side when another server leads now.
pub const LEADER_CHANGED: &'static str = "LEADER_CHANGED";

pub const CLOSING_ERROR: &'static str = "Error closing system.";

pub const SERVER_NOT_SET: &'static str = "E-commerce address not set.";

pub const NO_MIDDLEMAN: &'static str = "Should not happen, the LSMiddleman must be set";

pub const NO_CURRENT_SERVER: &'static str = "Current e-commerce address not set, cannot connect to leader.";

pub const ONLY_LOCAL_RESULTS: &'static str = "Should not happen, only local order results are sent here.";

pub const ONLY_WEB_RESULTS: &'static str = "Should not happen, the order must be a web order.";

/// The state of a local shop's connection with the e-commerce servers:
/// whether the shop runs, its id once registered, the server it talks to,
/// whether a connection is up, whether the connecting side waits for a
/// signal, and the order results still to report, the last one first.
#[derive(Debug)]
pub struct ConnectionHandler {
    am_alive: bool,
    local_id: Option<u16>,
    currently_connected_server_id: Option<u16>,
    has_ls_middleman: bool,
    has_input_handler: bool,
    order_results_pending_to_report: Vec<(Order, bool)>,
}

/// Start handing out the orders.
#[derive(Debug, PartialEq, Eq)]
pub struct StartUp {}

/// Shut the shop down.
#[derive(Debug, PartialEq, Eq)]
pub struct CloseSystem {}

/// Whether the shop still runs.
#[derive(Debug, PartialEq, Eq)]
pub struct AskAlive {}

/// The id of the server the shop is connected to.
#[derive(Debug, PartialEq, Eq)]
pub struct AskServerId {}

/// A connection with the server `connected_ecommerce_id` is up.
#[derive(Debug, PartialEq, Eq)]
pub struct AddLSMiddleman {
    pub connected_ecommerce_id: u16,
}

/// The server says which server leads.
#[derive(Debug, PartialEq, Eq)]
pub struct LeaderMessage {
    pub leader_server_id: u16,
}

/// The shop is registered under `local_id`.
#[derive(Debug, PartialEq, Eq)]
pub struct LocalRegistered {
    pub local_id: u16,
}

/// The connection with the server ended.
#[derive(Debug, PartialEq, Eq)]
pub struct RemoveLSMiddleman {}

/// The user asks to drop the connection.
#[derive(Debug, PartialEq, Eq)]
pub struct StopConnection {}

/// The user asks to connect again.
#[derive(Debug, PartialEq, Eq)]
pub struct WakeUpConnection {}

/// The server asks for the whole stock.
#[derive(Debug, PartialEq, Eq)]
pub struct AskAllStockMessage {}

/// The whole stock, to send to the server.
#[derive(Debug)]
pub struct ResponseAllStockMessage {
    pub stock: Stock,
}

/// The server hands the shop a web order.
#[derive(Debug, PartialEq, Eq)]
pub struct WorkNewWebOrder {
    pub order: Order,
}

/// Report the results that could not be reported before.
#[derive(Debug, PartialEq, Eq)]
pub struct TrySendPendingOrderResults {}

/// Report the result of an order.
#[derive(Debug, PartialEq, Eq)]
pub struct TrySendFinishedOrder {
    pub order: Order,
    pub was_completed: bool,
}

/// Keep the result of an order until it can be reported.
#[derive(Debug, PartialEq, Eq)]
pub struct SaveFinishedOrderResultForLater {
    pub order: Order,
    pub was_completed: bool,
}

/// Report the result of a local order.
#[derive(Debug, PartialEq, Eq)]
pub struct TrySendFinishedLocalOrderResult {
    pub order: Order,
    pub was_finished: bool,
}

/// Report the result of a web order.
#[derive(Debug, PartialEq, Eq)]
pub struct TrySendFinishedWebOrder {
    pub order: Order,
    pub was_finished: bool,
}

/// What the connection handler has done as a consequence of a message.
#[derive(Debug)]
pub enum LocalEffect {
    /// Start the order handler.
    StartOrders,
    /// Stop the actor system.
    StopSystem,
    /// Drop the connection with the server.
    CloseConnection,
    /// Tell the connecting side the given signal.
    Notify(String),
    /// Send a message to the server.
    SendOnline(LSMessage),
    /// Ask the stock handler for the whole stock.
    AskAllStock,
    /// Queue a web order at the order handler.
    AddNewWebOrder(AddNewWebOrder),
    TrySendFinishedOrder(TrySendFinishedOrder),
    TrySendPendingOrderResults(TrySendPendingOrderResults),
    SaveForLater(SaveFinishedOrderResultForLater),
    TrySendFinishedLocalOrderResult(TrySendFinishedLocalOrderResult),
    TrySendFinishedWebOrder(TrySendFinishedWebOrder),
}

/// The views of the pending results.
pub open spec fn result_views(results: Seq<(Order, bool)>) -> Seq<(OrderView, bool)> {
    results.map_values(|r: (Order, bool)| (r.0@, r.1))
}

/// Whether `effects` is the single signal `signal` to the connecting side.
pub open spec fn only_notify(effects: Seq<LocalEffect>, signal: &str) -> bool {
    effects.len() == 1 && (effects[0] matches LocalEffect::Notify(s) && s@ == signal@)
}

/// A result kept while the shop could not report is the next one reported
/// once it can, and the results kept before it stay as they were.
pub proof fn law_kept_result_is_reported_next(pending: Seq<(OrderView, bool)>, result: (OrderView, bool))
    ensures
        pending.push(result).len() > 0,
        pending.push(result).last() == result,
        pending.push(result).drop_last() == pending,
{
    assert(pending.push(result).drop_last() =~= pending);
}

impl ConnectionHandler {
    pub closed spec fn alive(&self) -> bool {
        self.am_alive
    }

    /// The shop's id, once registered.
    pub closed spec fn local_id(&self) -> Option<u16> {
        self.local_id
    }

    /// The server the shop talks to.
    pub closed spec fn server_id(&self) -> Option<u16> {
        self.currently_connected_server_id
    }

    /// Whether a connection with a server is up.
    pub closed spec fn connected(&self) -> bool {
        self.has_ls_middleman
    }

    /// Whether the connecting side waits for a signal.
    pub closed spec fn listening(&self) -> bool {
        self.has_input_handler
    }

    /// The order results still to report; the last one goes first.
    pub closed spec fn pending(&self) -> Seq<(OrderView, bool)> {
        result_views(self.order_results_pending_to_report@)
    }

    /// Whether `other` has the same state as `self` but for what the
    /// arguments allow to change.
    pub open spec fn same_except(&self, other: &Self, connection: bool, pending: bool) -> bool {
        &&& other.alive() == self.alive()
        &&& other.local_id() == self.local_id()
        &&& connection || other.server_id() == self.server_id()
        &&& connection || other.connected() == self.connected()
        &&& connection || other.listening() == self.listening()
        &&& pending || other.pending() == self.pending()
    }

    pub fn new() -> (handler: ConnectionHandler)
        ensures
            handler.alive(),
            handler.local_id() is None,
            handler.server_id() is None,
            !handler.connected(),
            !handler.listening(),
            handler.pending() == Seq::<(OrderView, bool)>::empty(),
    {
        let handler = ConnectionHandler {
            am_alive: true,
            local_id: None,
            currently_connected_server_id: None,
            has_ls_middleman: false,
            has_input_handler: false,
            order_results_pending_to_report: Vec::new(),
        };
        assert(handler.pending() =~= Seq::<(OrderView, bool)>::empty());
        handler
    }

    /// Starts handing out the orders.
    pub fn handle_start_up(&self, msg: StartUp) -> (effects: Vec<LocalEffect>)
        ensures
            effects@.len() == 1 && effects@[0] is StartOrders,
    {
        let mut effects: Vec<LocalEffect> = Vec::new();
        effects.push(LocalEffect::StartOrders);
        effects
    }

    /// Shuts the shop down when an actor system runs: the system stops, the
    /// connection is dropped and the connecting side is told to give up.
    pub fn handle_close_system(&mut self, msg: CloseSystem, system_running: bool) -> (result: Result<
        Vec<LocalEffect>,
        String,
    >)
        ensures
            if !system_running {
                &&& result matches Err(e) && e@ == CLOSING_ERROR@
                &&& *final(self) == *old(self)
            } else {
                &&& !final(self).alive()
                &&& final(self).local_id() == old(self).local_id()
                &&& final(self).server_id() == old(self).server_id()
                &&& final(self).connected() == old(self).connected()
                &&& !final(self).listening()
                &&& final(self).pending() == old(self).pending()
                &&& result matches Ok(effects) && {
                    let close = if old(self).connected() { 1int } else { 0int };
                    let notify = if old(self).listening() { 1int } else { 0int };
                    &&& effects@.len() == 1 + close + notify
                    &&& effects@[0] is StopSystem
                    &&& old(self).connected() ==> effects@[1] is CloseConnection
                    &&& old(self).listening() ==> (effects@[1 + close] matches LocalEffect::Notify(s)
                        && s@ == RECONNECT@)
                }
            },
    {
        if !system_running {
            return Err(CLOSING_ERROR.to_string());
        }
        let mut effects: Vec<LocalEffect> = Vec::new();
        effects.push(LocalEffect::StopSystem);
        self.am_alive = false;
        if self.has_ls_middleman {
            effects.push(LocalEffect::CloseConnection);
        }
        if self.has_input_handler {
            self.has_input_handler = false;
            effects.push(LocalEffect::Notify(RECONNECT.to_string()));
        }
        Ok(effects)
    }

    /// Whether the shop still runs.
    pub fn handle_ask_alive(&self, msg: AskAlive) -> (alive: bool)
        ensures
            alive == self.alive(),
    {
        self.am_alive
    }

    /// The server the shop talks to.
    pub fn handle_ask_server_id(&self, msg: AskServerId) -> (result: Result<u16, String>)
        ensures
            match self.server_id() {
                Some(id) => result == Ok::<u16, String>(id),
                None => result matches Err(e) && e@ == SERVER_NOT_SET@,
            },
    {
        match self.currently_connected_server_id {
            Some(id) => Ok(id),
            None => Err(SERVER_NOT_SET.to_string()),
        }
    }

    /// A connection is up: the shop asks the server which server leads.
    pub fn handle_add_ls_middleman(&mut self, msg: AddLSMiddleman) -> (effects: Vec<LocalEffect>)
        ensures
            final(self).same_except(&*old(self), true, false),
            final(self).connected(),
            final(self).listening(),
            final(self).server_id() == Some(msg.connected_ecommerce_id),
            effects@.len() == 1 && (effects@[0] matches LocalEffect::SendOnline(m) && m is AskLeaderMessage),
    {
        self.has_ls_middleman = true;
        self.has_input_handler = true;
        self.currently_connected_server_id = Some(msg.connected_ecommerce_id);
        let mut effects: Vec<LocalEffect> = Vec::new();
        effects.push(LocalEffect::SendOnline(LSMessage::AskLeaderMessage));
        effects
    }

    /// The server says which server leads. When it is the server the shop
    /// talks to, the shop logs in, or registers when it has no id yet.
    /// Otherwise the shop remembers the leader and tells the connecting
    /// side to connect to it; when that side does not listen, the leader is
    /// remembered all the same and an error comes back.
    pub fn handle_leader_message(&mut self, msg: LeaderMessage) -> (result: Result<Vec<LocalEffect>, String>)
        ensures
            final(self).same_except(&*old(self), true, false),
            final(self).connected() == old(self).connected(),
            final(self).listening() == old(self).listening(),
            match old(self).server_id() {
                None => {
                    &&& result matches Err(e) && e@ == NO_CURRENT_SERVER@
                    &&& final(self).server_id() is None
                },
                Some(current) => if current == msg.leader_server_id {
                    &&& final(self).server_id() == old(self).server_id()
                    &&& if !old(self).connected() {
                        result matches Err(e) && e@ == NO_MIDDLEMAN@
                    } else {
                        result matches Ok(effects) && (effects@.len() == 1 && (effects@[0] matches LocalEffect::SendOnline(m)
                            && match old(self).local_id() {
                            Some(id) => m == LSMessage::LoginLocalMessage { local_id: id },
                            None => m is RegisterLocalMessage,
                        }))
                    }
                } else {
                    &&& final(self).server_id() == Some(msg.leader_server_id)
                    &&& if old(self).listening() {
                        result matches Ok(effects) && only_notify(effects@, LEADER_CHANGED)
                    } else {
                        result matches Err(e) && e@ == NO_CURRENT_SERVER@
                    }
                },
            },
    {
        match self.currently_connected_server_id {
            Some(current) => {
                if current == msg.leader_server_id {
                    if !self.has_ls_middleman {
                        return Err(NO_MIDDLEMAN.to_string());
                    }
                    let message = match self.local_id {
                        Some(local_id) => LSMessage::LoginLocalMessage { local_id },
                        None => LSMessage::RegisterLocalMessage,
                    };
                    let mut effects: Vec<LocalEffect> = Vec::new();
                    effects.push(LocalEffect::SendOnline(message));
                    return Ok(effects);
                }
                self.currently_connected_server_id = Some(msg.leader_server_id);
                if self.has_input_handler {
                    let mut effects: Vec<LocalEffect> = Vec::new();
                    effects.push(LocalEffect::Notify(LEADER_CHANGED.to_string()));
                    return Ok(effects);
                }
                Err(NO_CURRENT_SERVER.to_string())
            },
            None => Err(NO_CURRENT_SERVER.to_string()),
        }
    }

    /// The shop is registered under the given id.
    pub fn handle_local_registered(&mut self, msg: LocalRegistered)
        ensures
            final(self).local_id() == Some(msg.local_id),
            final(self).alive() == old(self).alive(),
            final(self).server_id() == old(self).server_id(),
            final(self).connected() == old(self).connected(),
            final(self).listening() == old(self).listening(),
            final(self).pending() == old(self).pending(),
    {
        self.local_id = Some(msg.local_id);
    }

    /// The connection ended: the shop forgets the server, and tells the
    /// connecting side to connect again when it listens.
    pub fn handle_remove_ls_middleman(&mut self, msg: RemoveLSMiddleman) -> (effects: Vec<LocalEffect>)
        ensures
            final(self).same_except(&*old(self), true, false),
            !final(self).connected(),
            !final(self).listening(),
            final(self).server_id() is None,
            if old(self).listening() {
                only_notify(effects@, RECONNECT)
            } else {
                effects@.len() == 0
            },
    {
        self.has_ls_middleman = false;
        self.currently_connected_server_id = None;
        let mut effects: Vec<LocalEffect> = Vec::new();
        if self.has_input_handler {
            self.has_input_handler = false;
            effects.push(LocalEffect::Notify(RECONNECT.to_string()));
        }
        effects
    }

    /// Drops the connection, if one is up, and forgets the server.
    pub fn handle_stop_connection(&mut self, msg: StopConnection) -> (effects: Vec<LocalEffect>)
        ensures
            final(self).same_except(&*old(self), true, false),
            final(self).listening() == old(self).listening(),
            !final(self).connected(),
            if old(self).connected() {
                &&& final(self).server_id() is None
                &&& effects@.len() == 1 && effects@[0] is CloseConnection
            } else {
                &&& final(self).server_id() == old(self).server_id()
                &&& effects@.len() == 0
            },
    {
        let mut effects: Vec<LocalEffect> = Vec::new();
        if self.has_ls_middleman {
            self.has_ls_middleman = false;
            self.currently_connected_server_id = None;
            effects.push(LocalEffect::CloseConnection);
        }
        effects
    }

    /// Tells the connecting side to connect again, when it listens.
    pub fn handle_wake_up_connection(&mut self, msg: WakeUpConnection) -> (effects: Vec<LocalEffect>)
        ensures
            final(self).same_except(&*old(self), true, false),
            final(self).server_id() == old(self).server_id(),
            final(self).connected() == old(self).connected(),
            !final(self).listening(),
            if old(self).listening() {
                only_notify(effects@, RECONNECT)
            } else {
                effects@.len() == 0
            },
    {
        let mut effects: Vec<LocalEffect> = Vec::new();
        if self.has_input_handler {
            self.has_input_handler = false;
            effects.push(LocalEffect::Notify(RECONNECT.to_string()));
        }
        effects
    }

    /// Asks the stock handler for the whole stock.
    pub fn handle_ask_all_stock_message(&self, msg: AskAllStockMessage) -> (effects: Vec<LocalEffect>)
        ensures
            effects@.len() == 1 && effects@[0] is AskAllStock,
    {
        let mut effects: Vec<LocalEffect> = Vec::new();
        effects.push(LocalEffect::AskAllStock);
        effects
    }

    /// Sends the whole stock to the server, when connected.
    pub fn handle_response_all_stock_message(&self, msg: ResponseAllStockMessage) -> (effects: Vec<LocalEffect>)
        ensures
            if self.connected() {
                effects@.len() == 1 && (effects@[0] matches LocalEffect::SendOnline(m) && (m matches LSMessage::Stock {
                    stock,
                } && stock@ == msg.stock@ && stock.wf() == msg.stock.wf()))
            } else {
                effects@.len() == 0
            },
    {
        let mut effects: Vec<LocalEffect> = Vec::new();
        if self.has_ls_middleman {
            effects.push(LocalEffect::SendOnline(LSMessage::Stock { stock: msg.stock }));
        }
        effects
    }

    /// Passes a web order from the server on to the order handler.
    pub fn handle_work_new_web_order(&self, msg: WorkNewWebOrder) -> (effects: Vec<LocalEffect>)
        ensures
            effects@.len() == 1 && (effects@[0] matches LocalEffect::AddNewWebOrder(add) && add.order@ == msg.order@),
    {
        let mut effects: Vec<LocalEffect> = Vec::new();
        effects.push(LocalEffect::AddNewWebOrder(AddNewWebOrder { order: msg.order }));
        effects
    }

    /// Whether results can be reported: the shop is registered and
    /// connected.
    pub open spec fn can_report(&self) -> bool {
        self.local_id() is Some && self.connected()
    }

    /// Reports the last pending result, and goes on with the others, once
    /// the shop is registered and connected.
    pub fn handle_try_send_pending_order_results(&mut self, msg: TrySendPendingOrderResults) -> (effects: Vec<
        LocalEffect,
    >)
        ensures
            final(self).same_except(&*old(self), false, true),
            if !old(self).can_report() || old(self).pending().len() == 0 {
                &&& final(self).pending() == old(self).pending()
                &&& effects@.len() == 0
            } else {
                let last = old(self).pending().last();
                &&& final(self).pending() == old(self).pending().drop_last()
                &&& effects@.len() == 2
                &&& effects@[0] matches LocalEffect::TrySendFinishedOrder(t) && t.order@ == last.0 && t.was_completed
                    == last.1
                &&& effects@[1] is TrySendPendingOrderResults
            },
    {
        let mut effects: Vec<LocalEffect> = Vec::new();
        if self.local_id.is_none() || !self.has_ls_middleman {
            return effects;
        }
        let popped = self.order_results_pending_to_report.pop();
        proof {
            if old(self).pending().len() > 0 {
                assert(self.pending() =~= old(self).pending().drop_last());
            } else {
                assert(self.pending() =~= old(self).pending());
            }
        }
        if let Some((order, was_finished)) = popped {
            effects.push(LocalEffect::TrySendFinishedOrder(TrySendFinishedOrder { order, was_completed: was_finished }));
            effects.push(LocalEffect::TrySendPendingOrderResults(TrySendPendingOrderResults {}));
        }
        effects
    }

    /// Reports the result of an order under the shop's id, by the kind of
    /// the order; before the shop is registered and connected, the result
    /// is kept for later.
    pub fn handle_try_send_finished_order(&self, msg: TrySendFinishedOrder) -> (effects: Vec<LocalEffect>)
        ensures
            effects@.len() == 1,
            match self.local_id() {
                Some(id) if self.connected() => {
                    let tagged = OrderView { local_id: Some(id), ..msg.order@ };
                    if msg.order@.is_web {
                        effects@[0] matches LocalEffect::TrySendFinishedWebOrder(t) && t.order@ == tagged
                            && t.was_finished == msg.was_completed
                    } else {
                        effects@[0] matches LocalEffect::TrySendFinishedLocalOrderResult(t) && t.order@ == tagged
                            && t.was_finished == msg.was_completed
                    }
                },
                _ => effects@[0] matches LocalEffect::SaveForLater(s) && s.order@ == msg.order@ && s.was_completed
                    == msg.was_completed,
            },
    {
        let mut effects: Vec<LocalEffect> = Vec::new();
        match self.local_id {
            Some(local_id) if self.has_ls_middleman => {
                let mut order = msg.order;
                order.set_local_id(local_id);
                if order.is_web() {
                    effects.push(
                        LocalEffect::TrySendFinishedWebOrder(
                            TrySendFinishedWebOrder { order, was_finished: msg.was_completed },
                        ),
                    );
                } else {
                    effects.push(
                        LocalEffect::TrySendFinishedLocalOrderResult(
                            TrySendFinishedLocalOrderResult { order, was_finished: msg.was_completed },
                        ),
                    );
                }
            },
            _ => {
                effects.push(
                    LocalEffect::SaveForLater(
                        SaveFinishedOrderResultForLater { order: msg.order, was_completed: msg.was_completed },
                    ),
                );
            },
        }
        effects
    }

    /// Keeps the result of an order until it can be reported.
    pub fn handle_save_finished_order_result_for_later(&mut self, msg: SaveFinishedOrderResultForLater)
        ensures
            final(self).same_except(&*old(self), false, true),
            final(self).pending() == old(self).pending().push((msg.order@, msg.was_completed)),
    {
        self.order_results_pending_to_report.push((msg.order, msg.was_completed));
        assert(self.pending() =~= old(self).pending().push((msg.order@, msg.was_completed)));
    }

    /// Reports a completed local order to the server; a local order that
    /// was not completed is not reported.
    pub fn handle_try_send_finished_local_order_result(&self, msg: TrySendFinishedLocalOrderResult) -> (result:
        Result<Vec<LocalEffect>, String>)
        ensures
            if !self.connected() {
                result matches Err(e) && e@ == NO_MIDDLEMAN@
            } else if msg.order@.is_web {
                result matches Err(e) && e@ == ONLY_LOCAL_RESULTS@
            } else if msg.was_finished {
                result matches Ok(effects) && (effects@.len() == 1 && (effects@[0] matches LocalEffect::SendOnline(m)
                    && (m matches LSMessage::OrderCompleted { order } && order@ == msg.order@)))
            } else {
                result matches Ok(effects) && effects@.len() == 0
            },
    {
        if !self.has_ls_middleman {
            return Err(NO_MIDDLEMAN.to_string());
        }
        if msg.order.is_web() {
            return Err(ONLY_LOCAL_RESULTS.to_string());
        }
        let mut effects: Vec<LocalEffect> = Vec::new();
        if msg.was_finished {
            effects.push(LocalEffect::SendOnline(LSMessage::OrderCompleted { order: msg.order }));
        }
        Ok(effects)
    }

    /// Reports a web order to the server, completed or cancelled.
    pub fn handle_try_send_finished_web_order(&self, msg: TrySendFinishedWebOrder) -> (result: Result<
        Vec<LocalEffect>,
        String,
    >)
        ensures
            if !self.connected() {
                result matches Err(e) && e@ == NO_MIDDLEMAN@
            } else if !msg.order@.is_web {
                result matches Err(e) && e@ == ONLY_WEB_RESULTS@
            } else if msg.was_finished {
                result matches Ok(effects) && (effects@.len() == 1 && (effects@[0] matches LocalEffect::SendOnline(m)
                    && (m matches LSMessage::OrderCompleted { order } && order@ == msg.order@)))
            } else {
                result matches Ok(effects) && (effects@.len() == 1 && (effects@[0] matches LocalEffect::SendOnline(m)
                    && (m matches LSMessage::OrderCancelled { order } && order@ == msg.order@)))
            },
    {
        if !self.has_ls_middleman {
            return Err(NO_MIDDLEMAN.to_string());
        }
        if !msg.order.is_web() {
            return Err(ONLY_WEB_RESULTS.to_string());
        }
        let mut effects: Vec<LocalEffect> = Vec::new();
        if msg.was_finished {
            effects.push(LocalEffect::SendOnline(LSMessage::OrderCompleted { order: msg.order }));
        } else {
            effects.push(LocalEffect::SendOnline(LSMessage::OrderCancelled { order: msg.order }));
        }
        Ok(effects)
    }
}

} // verus!
