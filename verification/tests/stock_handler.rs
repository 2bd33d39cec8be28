use ferris_commerce::ferris_db::stock_handler::StockHandler;
use ferris_commerce::model::product::Product;
use ferris_commerce::model::stock::Stock;
use std::collections::HashMap;

fn two_product_stock(first: i32, second: i32) -> Stock {
    let mut stock = Stock::new();
    stock.insert(Product::new("product1".to_string(), first));
    stock.insert(Product::new("product2".to_string(), second));
    stock
}

#[test]
fn stock_handler_test_add_local_shop_stock() {
    let mut global_stock = StockHandler::new();
    let local_shop_stock = two_product_stock(10, 20);
    global_stock.add_local_shop_stock(1, local_shop_stock.clone());
    if let Some(found) = global_stock.get_local_shop_stock(1) {
        assert!(found.same_contents(&local_shop_stock));
    } else {
        panic!("Local shop stock not found");
    }
}

#[test]
fn stock_handler_test_get_local_shop_stock() {
    let mut global_stock = StockHandler::new();
    let local_shop_stock = two_product_stock(10, 20);
    global_stock.add_local_shop_stock(1, local_shop_stock.clone());
    if let Some(found) = global_stock.get_local_shop_stock(1) {
        assert!(found.same_contents(&local_shop_stock));
    } else {
        panic!("Local shop stock not found");
    }
}

#[test]
fn stock_handler_test_get_products_quantity_in_locals() {
    let mut global_stock = StockHandler::new();
    global_stock.add_local_shop_stock(1, two_product_stock(10, 20));
    global_stock.add_local_shop_stock(2, two_product_stock(30, 40));
    let mut products_quantity_in_locals = HashMap::new();
    products_quantity_in_locals.insert(1, 10);
    products_quantity_in_locals.insert(2, 30);
    assert_eq!(
        global_stock.get_quantity_of_product_from_all_stocks("product1".to_string()),
        products_quantity_in_locals
    );
}
