use ferris_commerce::database::pending_deliveries::{OrderToDelivery, PendingDeliveries};
use ferris_commerce::database::pending_order_results::{OrderResult, OrderResultsPendingToReport};
use ferris_commerce::ferris_db::connection_handler::{route_db_request, ConnectionHandler, DBRouted, GetNewLocalId};
use ferris_commerce::model::messages::{DBRequest, DBResponse};
use ferris_commerce::model::order::{LocalOrder, Order};
use ferris_commerce::model::product::Product;

fn order(name: &str) -> Order {
    Order::Local(LocalOrder::new(vec![Product::new(name.to_string(), 1)]))
}

#[test]
fn deliveries_come_back_per_server_in_order() {
    let mut pending = PendingDeliveries::new();
    pending.add_deliveries(vec![
        OrderToDelivery::new(1, order("a")),
        OrderToDelivery::new(2, order("b")),
        OrderToDelivery::new(1, order("c")),
    ]);
    pending.add_deliveries(vec![OrderToDelivery::new(1, order("d"))]);
    let first = pending.get_delivery(1);
    let names: Vec<String> = first.iter().map(|d| d.get_order().get_products()[0].get_name()).collect();
    assert_eq!(names, vec!["a", "c", "d"]);
    assert!(pending.get_delivery(1).is_empty());
    assert_eq!(pending.get_delivery(2).len(), 1);
}

#[test]
fn order_results_come_back_per_server_in_order() {
    let mut pending = OrderResultsPendingToReport::new();
    pending.add_order_results(vec![OrderResult::new(3, order("x"), true), OrderResult::new(3, order("y"), false)]);
    let results = pending.get_delivery(3);
    assert_eq!(results.len(), 2);
    assert!(results[0].was_completed());
    assert!(!results[1].was_completed());
    assert!(pending.get_delivery(3).is_empty());
}

#[test]
fn database_hands_out_new_local_ids_from_one() {
    let mut handler = ConnectionHandler::new();
    assert!(matches!(handler.handle_get_new_local_id(GetNewLocalId {}), DBResponse::NewLocalId { local_id: 1 }));
    assert!(matches!(handler.handle_get_new_local_id(GetNewLocalId {}), DBResponse::NewLocalId { local_id: 2 }));
    assert_eq!(handler.get_new_local_id(), 3);
}

#[test]
fn database_requests_are_routed() {
    assert!(matches!(route_db_request(DBRequest::GetNewLocalId), DBRouted::GetNewLocalId(_)));
    match route_db_request(DBRequest::TakeMyEcommerceId { ecommerce_id: 4 }) {
        DBRouted::SaveDBMiddlemanWithId(save) => assert_eq!(save.ecommerce_id, 4),
        _ => panic!("wrong route"),
    }
}
