use ferris_commerce::console::{console_command, ConsoleCommand};
use ferris_commerce::database::global_stock::GlobalStock;
use ferris_commerce::ferris_db::stock_handler::StockHandler;
use ferris_commerce::ferris_e_commerce::connection_handler::{AddSLMiddleman, ConnectionHandler, RemoveSLMiddleman};
use ferris_commerce::ferris_local_shop::stock_handler::StockHandlerActor;
use ferris_commerce::local_shop;
use ferris_commerce::model::order::{LocalOrder, Order};
use ferris_commerce::model::product::Product;
use ferris_commerce::model::stock::Stock;

fn one_product_stock(quantity: i32) -> Stock {
    let mut stock = Stock::new();
    stock.insert(Product::new("yerba".to_string(), quantity));
    stock
}

fn order_of(local_id: Option<u16>, quantities: &[i32]) -> Order {
    let mut order = LocalOrder::new(quantities.iter().map(|q| Product::new("yerba".to_string(), *q)).collect());
    if let Some(id) = local_id {
        order.set_local_id(id);
    }
    Order::Local(order)
}

#[test]
fn list_locals_is_a_command_and_lists_connected_and_gone_shops() {
    assert_eq!(console_command(&"list_locals".to_string()), ConsoleCommand::ListLocals);
    let mut handler = ConnectionHandler::new(1, 10);
    handler.handle_add_sl_middleman(AddSLMiddleman { local_id: 3 });
    handler.handle_add_sl_middleman(AddSLMiddleman { local_id: 8 });
    handler.handle_remove_sl_middleman(RemoveSLMiddleman { local_id: 3 });
    let mut listed = handler.handle_list_locals();
    listed.sort();
    assert_eq!(listed, vec![(3, false), (8, true)]);
}

#[test]
fn database_order_fits_only_within_i32() {
    let mut global = GlobalStock::new();
    global.add_local_shop_stock(1, one_product_stock(i32::MAX - 5));
    assert!(global.order_fits(&order_of(Some(1), &[2, 3])));
    assert!(!global.order_fits(&order_of(Some(1), &[2, 4])));
    assert!(global.order_fits(&order_of(Some(2), &[i32::MAX, 0])));
    assert!(!global.order_fits(&order_of(Some(2), &[i32::MAX, 1])));
    assert!(global.order_fits(&order_of(None, &[i32::MAX, i32::MAX])));
}

#[test]
fn completed_order_fits_only_within_i32() {
    let mut handler = StockHandler::new();
    handler.add_local_shop_stock(1, one_product_stock(i32::MIN + 5));
    assert!(handler.order_result_fits(&order_of(Some(1), &[2, 3])));
    assert!(!handler.order_result_fits(&order_of(Some(1), &[2, 4])));
    assert!(handler.order_result_fits(&order_of(Some(9), &[i32::MIN, i32::MAX])));
    assert!(handler.order_result_fits(&order_of(None, &[1])));
}

#[test]
fn shop_stock_steps_fit_only_within_i32() {
    let shop = StockHandlerActor::new(one_product_stock(i32::MAX));
    let yerba = |q: i32| Product::new("yerba".to_string(), q);
    assert!(!shop.return_fits(&yerba(1)));
    assert!(shop.return_fits(&yerba(-1)));
    assert!(!shop.take_fits(&yerba(-1)));
    assert!(shop.take_fits(&yerba(5)));
    assert!(shop.reserve_fits(&yerba(5)));
    assert!(shop.take_reserved_fits(&yerba(5)));
    assert!(!shop.unreserve_fits(&yerba(1)));
    assert!(shop.unreserve_fits(&yerba(-1)));
}

#[test]
fn first_shop_reads_its_orders_file() {
    assert_eq!(local_shop::run(&vec![]), Ok(local_shop::DEFAULT_ORDERS_FILEPATH.to_string()));
    assert_eq!(local_shop::run(&vec!["orders.txt".to_string()]), Ok("orders.txt".to_string()));
    assert_eq!(
        local_shop::run(&vec!["a".to_string(), "b".to_string()]),
        Err(local_shop::ShopError::ArgsParsingError("Too many arguments".to_string()))
    );
}
