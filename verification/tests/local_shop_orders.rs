use ferris_commerce::ferris_local_shop::connection_handler::TrySendFinishedOrder;
use ferris_commerce::ferris_local_shop::order_handler::{
    AddNewConnectionHandler, AddNewOrderWorker, AddNewWebOrder, HandleFinishedOrder, OrderCancelled, OrderCompleted,
    OrderHandler, SendOrder, TryFindEmptyOrderWorker,
};
use ferris_commerce::ferris_local_shop::order_worker::{
    OrderWorker, StartUp, StockProductReserved, WorkNewOrder, WorkerFollowUp, WorkerStep,
};
use ferris_commerce::model::order::{LocalOrder, Order, WebOrder};
use ferris_commerce::model::product::Product;

fn local(name: &str) -> Order {
    Order::Local(LocalOrder::new(vec![Product::new(name.to_string(), 1)]))
}

fn web(name: &str) -> Order {
    Order::Web(WebOrder::new(vec![Product::new(name.to_string(), 1)]))
}

fn handler_with_workers(locals: Vec<Order>, workers: usize) -> OrderHandler {
    let mut handler = OrderHandler::new(locals);
    for _ in 0..workers {
        handler.handle_add_new_order_worker(AddNewOrderWorker {});
    }
    handler
}

#[test]
fn workers_get_ids_in_order() {
    let mut handler = OrderHandler::new(vec![]);
    assert_eq!(handler.handle_add_new_order_worker(AddNewOrderWorker {}).id, 0);
    assert_eq!(handler.handle_add_new_order_worker(AddNewOrderWorker {}).id, 1);
}

#[test]
fn web_orders_go_first_on_a_tie_and_kinds_balance() {
    let mut handler = handler_with_workers(vec![local("l1"), local("l2")], 3);
    handler.handle_add_new_web_order(AddNewWebOrder { order: web("w1") });
    handler.handle_add_new_web_order(AddNewWebOrder { order: web("w2") });
    let first = handler.handle_send_order(SendOrder { worker_id: 0 }).unwrap().unwrap();
    assert!(first.order.same_as(&web("w2")));
    let second = handler.handle_send_order(SendOrder { worker_id: 1 }).unwrap().unwrap();
    assert!(second.order.same_as(&local("l2")));
    let third = handler.handle_send_order(SendOrder { worker_id: 2 }).unwrap().unwrap();
    assert!(third.order.same_as(&web("w1")));
}

#[test]
fn no_order_left_is_no_error() {
    let mut handler = handler_with_workers(vec![], 1);
    assert_eq!(handler.handle_send_order(SendOrder { worker_id: 0 }), Ok(None));
}

#[test]
fn busy_worker_refuses_and_order_goes_back() {
    let mut handler = handler_with_workers(vec![local("l1"), local("l2")], 1);
    handler.handle_send_order(SendOrder { worker_id: 0 }).unwrap();
    assert_eq!(
        handler.handle_send_order(SendOrder { worker_id: 0 }),
        Err("Worker already has an order.".to_string())
    );
    let again = handler.get_order().unwrap();
    assert!(again.same_as(&local("l1")));
}

#[test]
fn unknown_worker_is_an_error() {
    let mut handler = handler_with_workers(vec![local("l1")], 1);
    assert_eq!(handler.handle_send_order(SendOrder { worker_id: 5 }), Err("No worker with given id.".to_string()));
}

#[test]
fn search_stops_past_the_last_worker() {
    let mut handler = handler_with_workers(vec![local("l1")], 2);
    handler.handle_send_order(SendOrder { worker_id: 0 }).unwrap();
    let busy = handler.handle_try_find_empty_order_worker(TryFindEmptyOrderWorker { curr_worker_id: 0 });
    assert_eq!(busy.send_order, None);
    assert_eq!(busy.next, Some(TryFindEmptyOrderWorker { curr_worker_id: 1 }));
    let idle = handler.handle_try_find_empty_order_worker(TryFindEmptyOrderWorker { curr_worker_id: 1 });
    assert_eq!(idle.send_order, Some(SendOrder { worker_id: 1 }));
    let past = handler.handle_try_find_empty_order_worker(TryFindEmptyOrderWorker { curr_worker_id: 2 });
    assert_eq!(past.send_order, None);
    assert_eq!(past.next, None);
}

#[test]
fn completed_order_frees_the_worker() {
    let mut handler = handler_with_workers(vec![local("l1")], 1);
    handler.handle_send_order(SendOrder { worker_id: 0 }).unwrap();
    assert_eq!(
        handler.handle_order_completed(OrderCompleted { worker_id: 0, order: local("other") }),
        Err("Order completed does not match.".to_string())
    );
    let steps = handler.handle_order_completed(OrderCompleted { worker_id: 0, order: local("l1") }).unwrap();
    assert!(steps.finished.was_completed);
    assert_eq!(steps.send_order, SendOrder { worker_id: 0 });
    assert_eq!(
        handler.handle_order_cancelled(OrderCancelled { worker_id: 0, order: local("l1") }),
        Err("Order cancelled does not match.".to_string())
    );
}

#[test]
fn finished_orders_are_reported_by_kind() {
    let mut handler = handler_with_workers(vec![], 0);
    assert_eq!(handler.handle_finished_order(HandleFinishedOrder { order: web("w"), was_completed: true }), None);
    handler.handle_add_new_connection_handler(AddNewConnectionHandler {});
    assert_eq!(
        handler.handle_finished_order(HandleFinishedOrder { order: web("w"), was_completed: false }),
        Some(TrySendFinishedOrder { order: web("w"), was_completed: false })
    );
    assert_eq!(handler.handle_finished_order(HandleFinishedOrder { order: local("l"), was_completed: false }), None);
    assert_eq!(
        handler.handle_finished_order(HandleFinishedOrder { order: local("l"), was_completed: true }),
        Some(TrySendFinishedOrder { order: local("l"), was_completed: true })
    );
}

fn worker_with_reserved_product() -> OrderWorker {
    let mut worker = OrderWorker::new();
    worker.handle_start_up(StartUp { id: 0 });
    worker.handle_work_new_order(WorkNewOrder { order: web("p") }).unwrap();
    let steps = worker.handle_try_reserve_product();
    assert!(matches!(steps[0], WorkerStep::Reserve(_)));
    worker.handle_stock_product_reserved(StockProductReserved {}).unwrap();
    worker
}

#[test]
fn worker_not_started_refuses_orders() {
    let mut worker = OrderWorker::new();
    assert_eq!(
        worker.handle_work_new_order(WorkNewOrder { order: web("p") }).err(),
        Some("Should not happen, the worker is not ready.".to_string())
    );
}

#[test]
fn reserved_products_are_taken_or_released_at_random() {
    let mut taken = 0;
    let mut released = 0;
    for _ in 0..200 {
        let mut worker = worker_with_reserved_product();
        let steps = worker.handle_random_take_reserved_product().unwrap();
        match &steps[0] {
            WorkerStep::TakeReserved(take) => {
                assert_eq!(take.product, Product::new("p".to_string(), 1));
                taken += 1;
            },
            WorkerStep::FollowUp(WorkerFollowUp::SendUnreserveProduct) => released += 1,
            _ => panic!("unexpected step"),
        }
    }
    assert!(taken > 0);
    assert!(released > 0);
}

#[test]
fn drawn_number_decides_between_taking_and_releasing() {
    let mut worker = worker_with_reserved_product();
    let steps = worker.take_reserved_or_release(5).unwrap();
    assert!(matches!(steps[0], WorkerStep::TakeReserved(_)));
    let mut worker = worker_with_reserved_product();
    let steps = worker.take_reserved_or_release(6).unwrap();
    assert!(matches!(steps[0], WorkerStep::FollowUp(WorkerFollowUp::SendUnreserveProduct)));
}
