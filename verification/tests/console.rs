use ferris_commerce::console::{console_command, listener_step, ConsoleCommand, ListenerAction};
use ferris_commerce::ferris_e_commerce::connection_handler::{
    ConnectionHandler, Effect, FollowUp, OrderResultNotDelivered, TrySendPendingOrderResultsToOtherServer,
};
use ferris_commerce::ferris_local_shop::ls_communicator::{
    next_reconnect_step, signal_continues, ReconnectStep, RECONNECT_INTERVAL_SECS,
};
use ferris_commerce::model::order::{Order, WebOrder};
use ferris_commerce::model::product::Product;

#[test]
fn console_lines_read_as_commands() {
    assert_eq!(console_command(&"exit".to_string()), ConsoleCommand::Exit);
    assert_eq!(console_command(&"push".to_string()), ConsoleCommand::StartOrders);
    assert_eq!(console_command(&"cc".to_string()), ConsoleCommand::CloseConnection);
    assert_eq!(console_command(&"rc".to_string()), ConsoleCommand::Reconnect);
    assert_eq!(console_command(&"list_locals".to_string()), ConsoleCommand::ListLocals);
    assert_eq!(console_command(&"locals".to_string()), ConsoleCommand::Unknown);
    assert_eq!(console_command(&"exit ".to_string()), ConsoleCommand::Unknown);
}

#[test]
fn listening_sides_pause_resume_and_stop() {
    assert_eq!(listener_step(false, &"exit".to_string()), ListenerAction::Stop);
    assert_eq!(listener_step(false, &"cc".to_string()), ListenerAction::Pause);
    assert_eq!(listener_step(false, &"rc".to_string()), ListenerAction::Keep);
    assert_eq!(listener_step(true, &"rc".to_string()), ListenerAction::Resume);
    assert_eq!(listener_step(true, &"exit".to_string()), ListenerAction::Stop);
    assert_eq!(listener_step(true, &"cc".to_string()), ListenerAction::Fail);
}

#[test]
fn shop_tries_every_port_then_waits_twenty_seconds() {
    assert_eq!(RECONNECT_INTERVAL_SECS, 20);
    assert_eq!(next_reconnect_step(None, true), ReconnectStep::TryPort(16000));
    assert_eq!(next_reconnect_step(Some(16000), true), ReconnectStep::TryPort(16001));
    assert_eq!(next_reconnect_step(Some(16008), true), ReconnectStep::TryPort(16009));
    assert_eq!(next_reconnect_step(Some(16009), true), ReconnectStep::Wait(20));
    assert_eq!(next_reconnect_step(Some(16003), false), ReconnectStep::Stop);
    assert_eq!(next_reconnect_step(None, false), ReconnectStep::Stop);
}

#[test]
fn only_the_shop_notices_keep_the_search_going() {
    assert!(signal_continues(&Some("RECONNECT".to_string())));
    assert!(signal_continues(&Some("LEADER_CHANGED".to_string())));
    assert!(!signal_continues(&Some("rc".to_string())));
    assert!(!signal_continues(&None));
}

#[test]
fn undelivered_result_is_kept_for_its_server() {
    let mut handler = ConnectionHandler::new(1, 10);
    let mut web = WebOrder::new(vec![Product::new("mate".to_string(), 2)]);
    web.set_ss_id(7);
    let order = Order::Web(web);
    let kept = handler.handle_order_result_not_delivered(OrderResultNotDelivered { order, was_completed: true });
    assert_eq!(kept, Err("SSMiddleman not found in the order.".to_string()));
    let effects = handler.handle_try_send_pending_order_results_to_other_server(TrySendPendingOrderResultsToOtherServer {
        dest_ss_id: 7,
    });
    assert_eq!(effects.len(), 2);
    assert!(matches!(
        &effects[0],
        Effect::FollowUp(FollowUp::SendOrderResultToOtherServer(next)) if next.was_completed
    ));
}
