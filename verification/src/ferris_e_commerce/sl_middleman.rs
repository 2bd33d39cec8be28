use vstd::prelude::*;

use super::connection_handler::{
    AskLeaderMessage, LoginLocalMessage, OrderCompletedFromLocal, RegisterLocal,
    RemoveSLMiddleman, StockFromLocal, WebOrderCancelledFromLocal,
};
use crate::model::messages::LSMessage;

verus! {

/// The end of a connection with a local shop.
#[derive(Debug)]
pub struct SLMiddleman {
    pub local_id: Option<u16>,
}

/// Drop the connection with the local shop.
#[derive(Debug, PartialEq, Eq)]
pub struct CloseConnection;

/// The local shop is registered under `local_id`.
#[derive(Debug, PartialEq, Eq)]
pub struct SetUpId {
    pub local_id: u16,
}

/// What a message of the local shop asks of the server.
#[derive(Debug)]
pub enum LSRouted {
    AskLeaderMessage(AskLeaderMessage),
    StockFromLocal(StockFromLocal),
    RegisterLocal(RegisterLocal),
    LoginLocalMessage(LoginLocalMessage),
    OrderCompletedFromLocal(OrderCompletedFromLocal),
    WebOrderCancelledFromLocal(WebOrderCancelledFromLocal),
    /// The shop sent its stock before registering: the connection is dropped.
    Close,
}

impl SLMiddleman {
    pub fn new() -> (middleman: SLMiddleman)
        ensures
            middleman.local_id is None,
    {
        SLMiddleman { local_id: None }
    }

    pub fn handle_set_up_id(&mut self, msg: SetUpId)
        ensures
            final(self).local_id == Some(msg.local_id),
    {
        self.local_id = Some(msg.local_id);
    }

    /// What a message of the local shop asks of the server.
    pub fn handle_online_msg(&self, message: LSMessage) -> (routed: LSRouted)
        ensures
            match message {
                LSMessage::AskLeaderMessage => routed is AskLeaderMessage,
                LSMessage::Stock { stock } => match self.local_id {
                    Some(id) => routed matches LSRouted::StockFromLocal(report) && report.local_id == id
                        && report.stock@ == stock@ && report.stock.wf() == stock.wf(),
                    None => routed is Close,
                },
                LSMessage::RegisterLocalMessage => routed is RegisterLocal,
                LSMessage::LoginLocalMessage { local_id } => routed == LSRouted::LoginLocalMessage(
                    LoginLocalMessage { local_id },
                ),
                LSMessage::OrderCompleted { order } => routed matches LSRouted::OrderCompletedFromLocal(
                    done,
                ) && done.order@ == order@,
                LSMessage::OrderCancelled { order } => routed matches LSRouted::WebOrderCancelledFromLocal(
                    cancelled,
                ) && cancelled.order@ == order@,
            },
    {
        match message {
            LSMessage::AskLeaderMessage => LSRouted::AskLeaderMessage(AskLeaderMessage {}),
            LSMessage::Stock { stock } => match self.local_id {
                Some(local_id) => LSRouted::StockFromLocal(StockFromLocal { local_id, stock }),
                None => LSRouted::Close,
            },
            LSMessage::RegisterLocalMessage => LSRouted::RegisterLocal(RegisterLocal {}),
            LSMessage::LoginLocalMessage { local_id } => LSRouted::LoginLocalMessage(
                LoginLocalMessage { local_id },
            ),
            LSMessage::OrderCompleted { order } => LSRouted::OrderCompletedFromLocal(
                OrderCompletedFromLocal { order },
            ),
            LSMessage::OrderCancelled { order } => LSRouted::WebOrderCancelledFromLocal(
                WebOrderCancelledFromLocal { order },
            ),
        }
    }

    /// When the connection ends, a registered local shop is forgotten.
    pub fn handle_close_connection(&self, msg: CloseConnection) -> (removal: Option<RemoveSLMiddleman>)
        ensures
            removal == match self.local_id {
                Some(id) => Some(RemoveSLMiddleman { local_id: id }),
                None => None,
            },
    {
        match self.local_id {
            Some(local_id) => Some(RemoveSLMiddleman { local_id }),
            None => None,
        }
    }
}

} // verus!
