use ferris_commerce::ferris_local_shop::connection_handler::{
    AddLSMiddleman, AskServerId, CloseSystem, ConnectionHandler, LeaderMessage, LocalEffect, LocalRegistered,
    RemoveLSMiddleman, SaveFinishedOrderResultForLater, StopConnection, TrySendFinishedLocalOrderResult,
    TrySendFinishedOrder, TrySendFinishedWebOrder, TrySendPendingOrderResults, WakeUpConnection,
};
use ferris_commerce::ferris_local_shop::ls_middleman::{route_server_message, SLRouted};
use ferris_commerce::model::messages::{LSMessage, SLMessage};
use ferris_commerce::model::order::{LocalOrder, Order, WebOrder};
use ferris_commerce::model::product::Product;

fn web() -> Order {
    Order::Web(WebOrder::new(vec![Product::new("p".to_string(), 2)]))
}

fn local() -> Order {
    Order::Local(LocalOrder::new(vec![Product::new("q".to_string(), 1)]))
}

fn connected(server: u16) -> ConnectionHandler {
    let mut handler = ConnectionHandler::new();
    let effects = handler.handle_add_ls_middleman(AddLSMiddleman { connected_ecommerce_id: server });
    assert!(matches!(effects[0], LocalEffect::SendOnline(LSMessage::AskLeaderMessage)));
    handler
}

#[test]
fn shop_registers_then_logs_in_with_the_leader() {
    let mut handler = connected(3);
    let effects = handler.handle_leader_message(LeaderMessage { leader_server_id: 3 }).unwrap();
    assert!(matches!(effects[0], LocalEffect::SendOnline(LSMessage::RegisterLocalMessage)));
    handler.handle_local_registered(LocalRegistered { local_id: 9 });
    let effects = handler.handle_leader_message(LeaderMessage { leader_server_id: 3 }).unwrap();
    assert!(matches!(effects[0], LocalEffect::SendOnline(LSMessage::LoginLocalMessage { local_id: 9 })));
    assert_eq!(handler.handle_ask_server_id(AskServerId {}), Ok(3));
}

#[test]
fn another_leader_makes_the_shop_reconnect() {
    let mut handler = connected(3);
    let effects = handler.handle_leader_message(LeaderMessage { leader_server_id: 5 }).unwrap();
    assert!(matches!(&effects[0], LocalEffect::Notify(s) if s == "LEADER_CHANGED"));
    assert_eq!(handler.handle_ask_server_id(AskServerId {}), Ok(5));
}

#[test]
fn leader_without_a_server_is_an_error() {
    let mut handler = ConnectionHandler::new();
    assert_eq!(
        handler.handle_leader_message(LeaderMessage { leader_server_id: 1 }).err(),
        Some("Current e-commerce address not set, cannot connect to leader.".to_string())
    );
    assert_eq!(handler.handle_ask_server_id(AskServerId {}), Err("E-commerce address not set.".to_string()));
}

#[test]
fn results_wait_offline_and_go_out_after_login() {
    let mut handler = ConnectionHandler::new();
    let effects = handler.handle_try_send_finished_order(TrySendFinishedOrder { order: web(), was_completed: true });
    match &effects[0] {
        LocalEffect::SaveForLater(save) => {
            handler.handle_save_finished_order_result_for_later(SaveFinishedOrderResultForLater {
                order: save.order.clone(),
                was_completed: save.was_completed,
            });
        },
        _ => panic!("the result should wait"),
    }
    assert!(handler.handle_try_send_pending_order_results(TrySendPendingOrderResults {}).is_empty());
    handler.handle_add_ls_middleman(AddLSMiddleman { connected_ecommerce_id: 1 });
    handler.handle_local_registered(LocalRegistered { local_id: 4 });
    let effects = handler.handle_try_send_pending_order_results(TrySendPendingOrderResults {});
    assert_eq!(effects.len(), 2);
    match &effects[0] {
        LocalEffect::TrySendFinishedOrder(t) => {
            assert!(t.order.same_as(&web()));
            assert!(t.was_completed);
        },
        _ => panic!("the saved result should go out"),
    }
    assert!(handler.handle_try_send_pending_order_results(TrySendPendingOrderResults {}).is_empty());
}

#[test]
fn online_results_carry_the_shop_id() {
    let mut handler = connected(1);
    handler.handle_local_registered(LocalRegistered { local_id: 4 });
    let effects = handler.handle_try_send_finished_order(TrySendFinishedOrder { order: web(), was_completed: false });
    match &effects[0] {
        LocalEffect::TrySendFinishedWebOrder(t) => {
            assert_eq!(t.order.get_local_id(), Some(4));
            assert!(!t.was_finished);
        },
        _ => panic!("a web order result"),
    }
}

#[test]
fn result_messages_follow_the_order_kind() {
    let handler = connected(1);
    let sent = handler
        .handle_try_send_finished_web_order(TrySendFinishedWebOrder { order: web(), was_finished: false })
        .unwrap();
    assert!(matches!(sent[0], LocalEffect::SendOnline(LSMessage::OrderCancelled { .. })));
    assert_eq!(
        handler.handle_try_send_finished_web_order(TrySendFinishedWebOrder { order: local(), was_finished: true }).err(),
        Some("Should not happen, the order must be a web order.".to_string())
    );
    let sent = handler
        .handle_try_send_finished_local_order_result(TrySendFinishedLocalOrderResult { order: local(), was_finished: false })
        .unwrap();
    assert!(sent.is_empty());
    assert_eq!(
        handler
            .handle_try_send_finished_local_order_result(TrySendFinishedLocalOrderResult { order: web(), was_finished: true })
            .err(),
        Some("Should not happen, only local order results are sent here.".to_string())
    );
    let offline = ConnectionHandler::new();
    assert_eq!(
        offline.handle_try_send_finished_web_order(TrySendFinishedWebOrder { order: web(), was_finished: true }).err(),
        Some("Should not happen, the LSMiddleman must be set".to_string())
    );
}

#[test]
fn connection_lifecycle_signals() {
    let mut handler = connected(2);
    let effects = handler.handle_stop_connection(StopConnection {});
    assert!(matches!(effects[0], LocalEffect::CloseConnection));
    assert!(handler.handle_stop_connection(StopConnection {}).is_empty());
    let effects = handler.handle_wake_up_connection(WakeUpConnection {});
    assert!(matches!(&effects[0], LocalEffect::Notify(s) if s == "RECONNECT"));
    assert!(handler.handle_wake_up_connection(WakeUpConnection {}).is_empty());
    let mut handler = connected(2);
    let effects = handler.handle_remove_ls_middleman(RemoveLSMiddleman {});
    assert!(matches!(&effects[0], LocalEffect::Notify(s) if s == "RECONNECT"));
    assert_eq!(handler.handle_ask_server_id(AskServerId {}), Err("E-commerce address not set.".to_string()));
}

#[test]
fn closing_needs_a_running_system() {
    let mut handler = connected(2);
    assert_eq!(handler.handle_close_system(CloseSystem {}, false).err(), Some("Error closing system.".to_string()));
    let effects = handler.handle_close_system(CloseSystem {}, true).unwrap();
    assert_eq!(effects.len(), 3);
    assert!(matches!(effects[0], LocalEffect::StopSystem));
    assert!(matches!(effects[1], LocalEffect::CloseConnection));
    assert!(!handler.handle_ask_alive(ferris_commerce::ferris_local_shop::connection_handler::AskAlive {}));
}

#[test]
fn server_messages_are_routed() {
    assert!(matches!(
        route_server_message(SLMessage::LeaderMessage { leader_sl_id: 7 }),
        SLRouted::LeaderMessage(LeaderMessage { leader_server_id: 7 })
    ));
    assert!(matches!(route_server_message(SLMessage::LocalSuccessfullyLoggedIn), SLRouted::TrySendPendingOrderResults(_)));
    assert!(matches!(route_server_message(SLMessage::AskAllStock), SLRouted::AskAllStockMessage(_)));
}
