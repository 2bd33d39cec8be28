use ferris_commerce::database::global_stock::GlobalStock;
use ferris_commerce::model::product::Product;
use ferris_commerce::model::stock::Stock;
use std::collections::HashMap;

fn two_product_stock(first: i32, second: i32) -> Stock {
    let mut stock = Stock::new();
    stock.insert(Product::new("product1".to_string(), first));
    stock.insert(Product::new("product2".to_string(), second));
    stock
}

#[test]
fn global_stock_test_add_local_shop_stock() {
    let mut global_stock = GlobalStock::new();
    let local_shop_stock = two_product_stock(10, 20);
    global_stock.add_local_shop_stock(1, local_shop_stock.clone());
    if let Some(found) = global_stock.get_local_shop_stock(1) {
        assert!(found.same_contents(&local_shop_stock));
    } else {
        panic!("Local shop stock not found");
    }
}

#[test]
fn global_stock_test_get_local_shop_stock() {
    let mut global_stock = GlobalStock::new();
    let local_shop_stock = two_product_stock(10, 20);
    global_stock.add_local_shop_stock(1, local_shop_stock.clone());
    if let Some(found) = global_stock.get_local_shop_stock(1) {
        assert!(found.same_contents(&local_shop_stock));
    } else {
        panic!("Local shop stock not found");
    }
}

#[test]
fn global_stock_test_get_products_quantity_in_locals() {
    let mut global_stock = GlobalStock::new();
    global_stock.add_local_shop_stock(1, two_product_stock(10, 20));
    global_stock.add_local_shop_stock(2, two_product_stock(30, 40));
    let mut products_quantity_in_locals = HashMap::new();
    products_quantity_in_locals.insert(1, 10);
    products_quantity_in_locals.insert(2, 30);
    assert_eq!(
        global_stock.get_products_quantity_in_locals("product1".to_string()),
        products_quantity_in_locals
    );
}

#[test]
fn global_stock_missing_shop_is_none() {
    let global_stock = GlobalStock::new();
    assert!(global_stock.get_local_shop_stock(7).is_none());
    assert!(!global_stock.check_local_id_exists(7));
}

#[test]
fn global_stock_missing_product_counts_zero() {
    let mut global_stock = GlobalStock::new();
    global_stock.add_local_shop_stock(3, two_product_stock(5, 6));
    let mut expected = HashMap::new();
    expected.insert(3, 0);
    assert_eq!(global_stock.get_products_quantity_in_locals("product9".to_string()), expected);
    assert_eq!(global_stock.get_product_quantity_from_local_shop_stock(3, "product2".to_string()), Some(6));
    assert_eq!(global_stock.get_product_quantity_from_local_shop_stock(4, "product2".to_string()), None);
}
