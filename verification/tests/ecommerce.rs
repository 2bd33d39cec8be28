use ferris_commerce::ferris_e_commerce::connection_handler::{
    AddSLMiddleman, AddSSMiddlemanAddr, CheckIfTheOneWhoClosedWasLeader, CloseSystem, ConnectionHandler, Effect,
    LeaderElection, Listener, StopConnectionFromSL, StopConnectionFromSS, WakeUpConnection, CLOSING_ERROR,
};
use ferris_commerce::ferris_e_commerce::order_handler::{AddOrderWorkerAddr, OrderHandler, SendOrderToWorker};
use ferris_commerce::ferris_e_commerce::order_worker::{
    DispatchDecision, OrderWorker, SolvedStockProductQueryForOrderWorker, WorkNewOrder,
};
use ferris_commerce::model::messages::SSMessage;
use ferris_commerce::model::order::{LocalOrder, Order, WebOrder};
use ferris_commerce::model::product::Product;
use std::collections::HashMap;

fn web(products: &[(&str, i32)]) -> Order {
    Order::Web(WebOrder::new(products.iter().map(|(n, q)| Product::new(n.to_string(), *q)).collect()))
}

#[test]
fn web_orders_are_divided_into_single_products() {
    let orders = vec![
        web(&[("a", 1), ("b", 2)]),
        Order::Local(LocalOrder::new(vec![Product::new("c".to_string(), 3)])),
        web(&[("d", 4)]),
    ];
    let mut handler = OrderHandler::new(&orders);
    let mut names = Vec::new();
    while let Some(order) = handler.get_order() {
        let products = order.get_products();
        assert_eq!(products.len(), 1);
        assert!(order.is_web());
        names.push(products[0].get_name());
    }
    assert_eq!(names, vec!["d", "b", "a"]);
}

#[test]
fn orders_go_to_idle_workers_only() {
    let mut handler = OrderHandler::new(&[web(&[("a", 1), ("b", 1)])]);
    handler.handle_add_order_worker_addr(AddOrderWorkerAddr { order_worker_id: 0 });
    assert!(handler.handle_send_order_to_worker(SendOrderToWorker { worker_id: 0 }).unwrap().is_some());
    assert_eq!(
        handler.handle_send_order_to_worker(SendOrderToWorker { worker_id: 0 }).err(),
        Some("Worker already has an order.".to_string())
    );
    assert_eq!(handler.handle_send_order_to_worker(SendOrderToWorker { worker_id: 0 }), Ok(None));
}

#[test]
fn worker_picks_a_local_shop_with_enough_stock_at_random() {
    let mut seen: Vec<u16> = Vec::new();
    for _ in 0..300 {
        let mut worker = OrderWorker::new(0);
        worker.handle_work_new_order(WorkNewOrder { order: web(&[("p", 2)]) });
        let mut stock = HashMap::new();
        stock.insert(1u16, 5);
        stock.insert(2u16, 2);
        stock.insert(3u16, 9);
        stock.insert(4u16, 1);
        let decision = worker
            .handle_solved_stock_product_query(SolvedStockProductQueryForOrderWorker {
                product_name: "p".to_string(),
                stock,
                my_ss_id: 10,
                my_sl_id: 20,
            })
            .unwrap();
        match decision {
            DispatchDecision::Dispatch(work) => {
                let chosen = work.order.get_local_id().unwrap();
                assert!(chosen == 1 || chosen == 2 || chosen == 3);
                if !seen.contains(&chosen) {
                    seen.push(chosen);
                }
            },
            DispatchDecision::Cancel(_) => panic!("some local shop has enough"),
        }
    }
    assert_eq!(seen.len(), 3);
}

#[test]
fn no_local_shop_with_enough_stock_cancels() {
    let mut worker = OrderWorker::new(0);
    worker.handle_work_new_order(WorkNewOrder { order: web(&[("p", 7)]) });
    let mut stock = HashMap::new();
    stock.insert(1u16, 5);
    let decision = worker
        .handle_solved_stock_product_query(SolvedStockProductQueryForOrderWorker {
            product_name: "p".to_string(),
            stock,
            my_ss_id: 1,
            my_sl_id: 2,
        })
        .unwrap();
    assert!(matches!(decision, DispatchDecision::Cancel(_)));
}

#[test]
fn election_asks_the_largest_server_or_takes_the_lead() {
    let mut handler = ConnectionHandler::new(5, 50);
    handler.handle_add_ss_middleman_addr(AddSSMiddlemanAddr { ss_id: Some(3) });
    handler.handle_add_ss_middleman_addr(AddSSMiddlemanAddr { ss_id: Some(8) });
    handler.handle_add_ss_middleman_addr(AddSSMiddlemanAddr { ss_id: Some(7) });
    let effects = handler.handle_leader_election(LeaderElection {});
    assert_eq!(effects.len(), 1);
    assert!(matches!(
        effects[0],
        Effect::ToServer { ss_id: 8, message: SSMessage::ElectLeader { requestor_id: 5 } }
    ));
    let mut alone = ConnectionHandler::new(9, 90);
    alone.handle_add_ss_middleman_addr(AddSSMiddlemanAddr { ss_id: Some(2) });
    let effects = alone.handle_leader_election(LeaderElection {});
    assert_eq!(effects.len(), 1);
    assert!(matches!(
        effects[0],
        Effect::ToServer { ss_id: 2, message: SSMessage::SelectedLeader { leader_ss_id: 9, leader_sl_id: 90 } }
    ));
}

#[test]
fn unknown_closed_server_is_named_in_the_error() {
    let mut handler = ConnectionHandler::new(1, 2);
    assert_eq!(
        handler.handle_check_if_the_one_who_closed_was_leader(CheckIfTheOneWhoClosedWasLeader { closed_server_id: 417 }).err(),
        Some("No SS middleman found for server with id 417".to_string())
    );
}

#[test]
fn console_closes_connections_then_wakes_them_up_and_stops() {
    let mut handler = ConnectionHandler::new(4, 40);
    handler.handle_add_ss_middleman_addr(AddSSMiddlemanAddr { ss_id: Some(6) });
    handler.handle_add_sl_middleman(AddSLMiddleman { local_id: 11 });
    assert!(handler.handle_wake_up_connection(WakeUpConnection {}).is_empty());

    let closed = handler.handle_stop_connection_from_ss(StopConnectionFromSS {});
    assert_eq!(closed.len(), 1);
    assert!(matches!(closed[0], Effect::CloseServer { ss_id: 6 }));
    let woken = handler.handle_wake_up_connection(WakeUpConnection {});
    assert_eq!(woken.len(), 1);
    assert!(matches!(&woken[0], Effect::Signal { listener: Listener::Servers, text } if text == "rc"));

    let closed = handler.handle_stop_connection_from_sl(StopConnectionFromSL {});
    assert_eq!(closed.len(), 1);
    assert!(matches!(closed[0], Effect::CloseLocal { local_id: 11 }));
    let woken = handler.handle_wake_up_connection(WakeUpConnection {});
    assert_eq!(woken.len(), 2);
    assert!(matches!(&woken[1], Effect::Signal { listener: Listener::Locals, text } if text == "rc"));

    assert_eq!(handler.handle_close_system(CloseSystem {}, false).err(), Some(CLOSING_ERROR.to_string()));
    let stop = handler.handle_close_system(CloseSystem {}, true).unwrap();
    assert_eq!(stop.len(), 3);
    assert!(matches!(&stop[0], Effect::Signal { listener: Listener::Servers, text } if text == "exit"));
    assert!(matches!(&stop[1], Effect::Signal { listener: Listener::Locals, text } if text == "exit"));
    assert!(matches!(stop[2], Effect::StopSystem));
}
