use vstd::prelude::*;

use super::connection_handler::{
    CheckIfTheOneWhoClosedWasLeader, LeaderElection, LeaderSelected, OrderCompletedFromLocal,
    RegisterSSMiddleman, WebOrderCancelledFromLocal,
};
use crate::model::messages::SSMessage;
use crate::model::order::Order;

verus! {

/// The end of a connection with another e-commerce server.
#[derive(Debug)]
pub struct SSMiddleman {
    pub connected_server_ss_id: Option<u16>,
    pub connected_server_sl_id: Option<u16>,
}

/// Ask the connected server to lead.
#[derive(Debug, PartialEq, Eq)]
pub struct SendElectLeader {
    pub my_ss_id: u16,
    pub my_sl_id: u16,
}

/// Tell the connected server that this one leads.
#[derive(Debug, PartialEq, Eq)]
pub struct SendSelectedLeader {
    pub my_ss_id: u16,
    pub my_sl_id: u16,
}

/// Hand an order to the connected server, the leader.
#[derive(Debug, PartialEq, Eq)]
pub struct SendDelegateOrderToLeader {
    pub order: Order,
}

/// Tell the connected server what became of one of its orders.
#[derive(Debug, PartialEq, Eq)]
pub struct SendRedirectedOrderResult {
    pub order: Order,
    pub was_completed: bool,
}

/// The connected server told what became of an order of this server.
#[derive(Debug, PartialEq, Eq)]
pub struct HandleSolvedOrder {
    pub order: Order,
    pub was_completed: bool,
}

/// What a message of the connected server asks of this server.
#[derive(Debug)]
pub enum SSRouted {
    LeaderElection(LeaderElection),
    LeaderSelected(LeaderSelected),
    HandleSolvedOrder(HandleSolvedOrder),
    RegisterSSMiddleman(RegisterSSMiddleman),
    /// The message needs nothing more.
    Nothing,
}

/// Where the result of an order of this server goes.
#[derive(Debug)]
pub enum SolvedOrderRoute {
    Completed(OrderCompletedFromLocal),
    Cancelled(WebOrderCancelledFromLocal),
}

impl SendElectLeader {
    pub fn to_message(self) -> (message: SSMessage)
        ensures
            message == (SSMessage::ElectLeader { requestor_id: self.my_ss_id }),
    {
        SSMessage::ElectLeader { requestor_id: self.my_ss_id }
    }
}

impl SendSelectedLeader {
    pub fn to_message(self) -> (message: SSMessage)
        ensures
            message == (SSMessage::SelectedLeader { leader_ss_id: self.my_ss_id, leader_sl_id: self.my_sl_id }),
    {
        SSMessage::SelectedLeader { leader_ss_id: self.my_ss_id, leader_sl_id: self.my_sl_id }
    }
}

impl SendDelegateOrderToLeader {
    pub fn to_message(self) -> (message: SSMessage)
        ensures
            message matches SSMessage::DelegateOrderToLeader { order } && order@ == self.order@,
    {
        SSMessage::DelegateOrderToLeader { order: self.order }
    }
}

impl SendRedirectedOrderResult {
    pub fn to_message(self) -> (message: SSMessage)
        ensures
            message matches SSMessage::SolvedPreviouslyDelegatedOrder { order, was_completed } && order@
                == self.order@ && was_completed == self.was_completed,
    {
        SSMessage::SolvedPreviouslyDelegatedOrder { order: self.order, was_completed: self.was_completed }
    }
}

impl SSMiddleman {
    pub fn new() -> (middleman: SSMiddleman)
        ensures
            middleman.connected_server_ss_id is None,
            middleman.connected_server_sl_id is None,
    {
        SSMiddleman { connected_server_ss_id: None, connected_server_sl_id: None }
    }

    /// What a message from the connected server asks of this server; the
    /// message that tells the server's ids records them.
    pub fn handle_online_msg(&mut self, message: SSMessage) -> (routed: SSRouted)
        ensures
            match message {
                SSMessage::ElectLeader { .. } => routed is LeaderElection && *final(self) == *old(self),
                SSMessage::SelectedLeader { leader_ss_id, leader_sl_id } => routed == SSRouted::LeaderSelected(
                    LeaderSelected { leader_ss_id, leader_sl_id },
                ) && *final(self) == *old(self),
                SSMessage::SolvedPreviouslyDelegatedOrder { order, was_completed } => (routed matches SSRouted::HandleSolvedOrder(
                    solved,
                ) && solved.order@ == order@ && solved.was_completed == was_completed) && *final(self) == *old(self),
                SSMessage::TakeMyId { ss_id, sl_id } => {
                    &&& routed == SSRouted::RegisterSSMiddleman(RegisterSSMiddleman { ss_id })
                    &&& final(self).connected_server_ss_id == Some(ss_id)
                    &&& final(self).connected_server_sl_id == Some(sl_id)
                },
                _ => routed is Nothing && *final(self) == *old(self),
            },
    {
        match message {
            SSMessage::ElectLeader { requestor_id: _ } => SSRouted::LeaderElection(LeaderElection {}),
            SSMessage::SelectedLeader { leader_ss_id, leader_sl_id } => SSRouted::LeaderSelected(
                LeaderSelected { leader_ss_id, leader_sl_id },
            ),
            SSMessage::SolvedPreviouslyDelegatedOrder { order, was_completed } => SSRouted::HandleSolvedOrder(
                HandleSolvedOrder { order, was_completed },
            ),
            SSMessage::TakeMyId { ss_id, sl_id } => {
                self.connected_server_ss_id = Some(ss_id);
                self.connected_server_sl_id = Some(sl_id);
                SSRouted::RegisterSSMiddleman(RegisterSSMiddleman { ss_id })
            },
            _ => SSRouted::Nothing,
        }
    }

    /// The result of an order of this server goes on as a completed or a
    /// cancelled order.
    pub fn handle_solved_order(&self, msg: HandleSolvedOrder) -> (route: SolvedOrderRoute)
        ensures
            if msg.was_completed {
                route matches SolvedOrderRoute::Completed(done) && done.order@ == msg.order@
            } else {
                route matches SolvedOrderRoute::Cancelled(cancelled) && cancelled.order@ == msg.order@
            },
    {
        if msg.was_completed {
            SolvedOrderRoute::Completed(OrderCompletedFromLocal { order: msg.order })
        } else {
            SolvedOrderRoute::Cancelled(WebOrderCancelledFromLocal { order: msg.order })
        }
    }

    /// When the connection ends, the server it led to may have been the
    /// leader.
    pub fn finished(&self) -> (check: Option<CheckIfTheOneWhoClosedWasLeader>)
        ensures
            check == match self.connected_server_ss_id {
                Some(id) => Some(CheckIfTheOneWhoClosedWasLeader { closed_server_id: id }),
                None => None,
            },
    {
        match self.connected_server_ss_id {
            Some(id) => Some(CheckIfTheOneWhoClosedWasLeader { closed_server_id: id }),
            None => None,
        }
    }
}

} // verus!
