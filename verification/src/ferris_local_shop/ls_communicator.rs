//! How a local shop keeps looking for an e-commerce server: it tries the
//! servers' ports one after the other, and after the last one waits before
//! a new round, for as long as the shop runs.
use vstd::prelude::*;

use crate::ferris_e_commerce::{SL_INITIAL_PORT, SL_MAX_PORT};
use crate::ferris_local_shop::connection_handler::{LEADER_CHANGED, RECONNECT};
use crate::text::same_text;

verus! {

/// The seconds a shop waits between two rounds of connection attempts.
pub const RECONNECT_INTERVAL_SECS: u64 = 20;

/// What the shop does next while it looks for a server.
#[derive(Debug, PartialEq, Eq)]
pub enum ReconnectStep {
    /// Try to connect to the server listening on this port.
    TryPort(u16),
    /// Wait this many seconds, then start a new round.
    Wait(u64),
    /// The shop stopped: look no further.
    Stop,
}

/// The next step after trying `last_tried` (`None` at the start of a
/// round), given whether the shop still runs.
pub fn next_reconnect_step(last_tried: Option<u16>, alive: bool) -> (step: ReconnectStep)
    ensures
        !alive ==> step is Stop,
        alive && last_tried is None ==> step == ReconnectStep::TryPort(SL_INITIAL_PORT),
        last_tried matches Some(p) ==> (alive && p < SL_MAX_PORT ==> step == ReconnectStep::TryPort(
            (p + 1) as u16,
        )),
        last_tried matches Some(p) ==> (alive && p >= SL_MAX_PORT ==> step == ReconnectStep::Wait(
            RECONNECT_INTERVAL_SECS,
        )),
{
    if !alive {
        return ReconnectStep::Stop;
    }
    match last_tried {
        None => ReconnectStep::TryPort(SL_INITIAL_PORT),
        Some(p) => {
            if p < SL_MAX_PORT {
                ReconnectStep::TryPort(p + 1)
            } else {
                ReconnectStep::Wait(RECONNECT_INTERVAL_SECS)
            }
        },
    }
}

/// Whether the signal that ended a connection asks the shop to go on
/// looking for a server: only the shop's own notices do; anything else, or
/// no signal at all, is an error that ends the search.
pub fn signal_continues(signal: &Option<String>) -> (continues: bool)
    ensures
        continues <==> (signal matches Some(s) && (s@ == RECONNECT@ || s@ == LEADER_CHANGED@)),
{
    match signal {
        Some(s) => same_text(s, RECONNECT) || same_text(s, LEADER_CHANGED),
        None => false,
    }
}

} // verus!
