//! The commands that an e-commerce server and a local shop read from their
//! console, and what the listening sides of a server do with the notices
//! that reach them.
use vstd::prelude::*;

use crate::text::same_text;

verus! {

/// Stops the node.
pub const EXIT_COMMAND: &'static str = "exit";

/// Starts handing out the orders.
pub const START_ORDERS_COMMAND: &'static str = "push";

/// Drops the connections; the node keeps running.
pub const CLOSE_CONNECTION_COMMAND: &'static str = "cc";

/// Connects again after a `cc`.
pub const RECONNECT_COMMAND: &'static str = "rc";

/// Lists the local shops and whether each is connected.
pub const LIST_LOCALS_COMMAND: &'static str = "list_locals";

/// A line of the console, read as a command.
#[derive(Debug, PartialEq, Eq, Clone, Copy)]
pub enum ConsoleCommand {
    Exit,
    StartOrders,
    CloseConnection,
    Reconnect,
    ListLocals,
    Unknown,
}

/// The command that a console line asks for; any other line is unknown.
pub fn console_command(line: &String) -> (cmd: ConsoleCommand)
    ensures
        line@ == EXIT_COMMAND@ ==> cmd == ConsoleCommand::Exit,
        line@ == START_ORDERS_COMMAND@ ==> cmd == ConsoleCommand::StartOrders,
        line@ == CLOSE_CONNECTION_COMMAND@ ==> cmd == ConsoleCommand::CloseConnection,
        line@ == RECONNECT_COMMAND@ ==> cmd == ConsoleCommand::Reconnect,
        line@ == LIST_LOCALS_COMMAND@ ==> cmd == ConsoleCommand::ListLocals,
        line@ != EXIT_COMMAND@ && line@ != START_ORDERS_COMMAND@ && line@ != CLOSE_CONNECTION_COMMAND@
            && line@ != RECONNECT_COMMAND@ && line@ != LIST_LOCALS_COMMAND@ ==> cmd == ConsoleCommand::Unknown,
{
    proof {
        reveal_strlit("exit");
        reveal_strlit("push");
        reveal_strlit("cc");
        reveal_strlit("rc");
        reveal_strlit("list_locals");
        assert(LIST_LOCALS_COMMAND@[0] == 'l');
        assert(EXIT_COMMAND@[0] == 'e' && START_ORDERS_COMMAND@[0] == 'p');
        assert(CLOSE_CONNECTION_COMMAND@[0] == 'c' && RECONNECT_COMMAND@[0] == 'r');
    }
    if same_text(line, EXIT_COMMAND) {
        ConsoleCommand::Exit
    } else if same_text(line, START_ORDERS_COMMAND) {
        ConsoleCommand::StartOrders
    } else if same_text(line, CLOSE_CONNECTION_COMMAND) {
        ConsoleCommand::CloseConnection
    } else if same_text(line, RECONNECT_COMMAND) {
        ConsoleCommand::Reconnect
    } else if same_text(line, LIST_LOCALS_COMMAND) {
        ConsoleCommand::ListLocals
    } else {
        ConsoleCommand::Unknown
    }
}

/// What a listening side of a server does with a notice.
#[derive(Debug, PartialEq, Eq, Clone, Copy)]
pub enum ListenerAction {
    /// Go on as before.
    Keep,
    /// Stop accepting connections and wait for the next notice.
    Pause,
    /// Start again: the servers' side connects to the other servers and
    /// starts a leader election, the local shops' side listens again.
    Resume,
    /// The server stops: end the side.
    Stop,
    /// The notice makes no sense while waiting: end the side with an error.
    Fail,
}

/// What a listening side does with `notice`: while listening (`waiting`
/// false) `exit` ends it, `cc` pauses it and anything else is ignored;
/// while waiting `exit` ends it, `rc` starts it again and anything else is
/// an error.
pub fn listener_step(waiting: bool, notice: &String) -> (action: ListenerAction)
    ensures
        notice@ == EXIT_COMMAND@ ==> action == ListenerAction::Stop,
        !waiting && notice@ == CLOSE_CONNECTION_COMMAND@ ==> action == ListenerAction::Pause,
        !waiting && notice@ != EXIT_COMMAND@ && notice@ != CLOSE_CONNECTION_COMMAND@ ==> action
            == ListenerAction::Keep,
        waiting && notice@ == RECONNECT_COMMAND@ ==> action == ListenerAction::Resume,
        waiting && notice@ != EXIT_COMMAND@ && notice@ != RECONNECT_COMMAND@ ==> action
            == ListenerAction::Fail,
{
    proof {
        reveal_strlit("exit");
        reveal_strlit("push");
        reveal_strlit("cc");
        reveal_strlit("rc");
        assert(EXIT_COMMAND@[0] == 'e' && START_ORDERS_COMMAND@[0] == 'p');
        assert(CLOSE_CONNECTION_COMMAND@[0] == 'c' && RECONNECT_COMMAND@[0] == 'r');
    }
    if same_text(notice, EXIT_COMMAND) {
        ListenerAction::Stop
    } else if !waiting {
        if same_text(notice, CLOSE_CONNECTION_COMMAND) {
            ListenerAction::Pause
        } else {
            ListenerAction::Keep
        }
    } else if same_text(notice, RECONNECT_COMMAND) {
        ListenerAction::Resume
    } else {
        ListenerAction::Fail
    }
}

} // verus!
