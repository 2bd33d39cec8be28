use vstd::prelude::*;

use super::connection_handler::{
    AskAllStockMessage, LeaderMessage, LocalRegistered, TrySendPendingOrderResults, WorkNewWebOrder,
};
use crate::model::messages::SLMessage;

verus! {

/// Drop the connection with the server.
#[derive(Debug, PartialEq, Eq)]
pub struct CloseConnection {}

/// A line to write to the server.
#[derive(Debug, PartialEq, Eq)]
pub struct SendOnlineMessage {
    pub msg_to_send: String,
}

/// What a message of the server asks of the local shop.
#[derive(Debug)]
pub enum SLRouted {
    LeaderMessage(LeaderMessage),
    LocalRegistered(LocalRegistered),
    TrySendPendingOrderResults(TrySendPendingOrderResults),
    AskAllStockMessage(AskAllStockMessage),
    WorkNewWebOrder(WorkNewWebOrder),
}

/// What a message of the server asks of the local shop: a leader to
/// connect to, the shop's new id, the results to report after logging in,
/// the stock, or a web order to prepare.
pub fn route_server_message(message: SLMessage) -> (routed: SLRouted)
    ensures
        match message {
            SLMessage::LeaderMessage { leader_sl_id } => routed == SLRouted::LeaderMessage(
                LeaderMessage { leader_server_id: leader_sl_id },
            ),
            SLMessage::LocalSuccessfullyRegistered { local_id } => routed == SLRouted::LocalRegistered(
                LocalRegistered { local_id },
            ),
            SLMessage::LocalSuccessfullyLoggedIn => routed is TrySendPendingOrderResults,
            SLMessage::AskAllStock => routed is AskAllStockMessage,
            SLMessage::WorkNewOrder { order } => routed matches SLRouted::WorkNewWebOrder(work) && work.order@
                == order@,
        },
{
    match message {
        SLMessage::LeaderMessage { leader_sl_id } => SLRouted::LeaderMessage(
            LeaderMessage { leader_server_id: leader_sl_id },
        ),
        SLMessage::LocalSuccessfullyRegistered { local_id } => SLRouted::LocalRegistered(
            LocalRegistered { local_id },
        ),
        SLMessage::LocalSuccessfullyLoggedIn => SLRouted::TrySendPendingOrderResults(
            TrySendPendingOrderResults {},
        ),
        SLMessage::AskAllStock => SLRouted::AskAllStockMessage(AskAllStockMessage {}),
        SLMessage::WorkNewOrder { order } => SLRouted::WorkNewWebOrder(WorkNewWebOrder { order }),
    }
}

} // verus!
