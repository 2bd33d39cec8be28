use ferris_commerce::local_shop::order_worker::{AnswerReserveProduct, AnswerTakeProduct};
use ferris_commerce::local_shop::stock_handler::{ReserveProduct, StockHandlerActor, TakeProduct};
use ferris_commerce::model::product::Product;
use ferris_commerce::model::stock::Stock;

fn generate_stock(size: i32) -> Stock {
    let mut stock = Stock::new();
    for i in 1..size + 1 {
        stock.insert(Product::new(format!("Product{}", i), i));
    }
    stock
}

#[test]
fn test01_order_worker_trying_to_take_product_but_stock_has_no_product_ok() {
    let mut stock_handler = StockHandlerActor::new(generate_stock(0));
    let asked_product = Product::new("Product1".to_string(), 1);
    let received = stock_handler.handle_take_product(TakeProduct { product: asked_product });
    assert_eq!(AnswerTakeProduct::StockNoProduct, received);
}

#[test]
fn test02_order_worker_trying_to_take_product_and_stock_does_not_have_that_quantity_ok() {
    let mut stock_handler = StockHandlerActor::new(generate_stock(3));
    let asked_product = Product::new("Product1".to_string(), 2);
    let received = stock_handler.handle_take_product(TakeProduct { product: asked_product });
    assert_eq!(AnswerTakeProduct::StockNoProduct, received);
}

#[test]
fn test03_order_worker_trying_to_take_product_and_stock_has_that_product_ok() {
    let mut stock_handler = StockHandlerActor::new(generate_stock(3));
    let asked_product = Product::new("Product1".to_string(), 1);
    let received = stock_handler.handle_take_product(TakeProduct { product: asked_product.clone() });
    assert_eq!(AnswerTakeProduct::StockProductGiven { product: asked_product }, received);
}

#[test]
fn test04_order_worker_trying_to_take_all_product_twice_ok() {
    let mut stock_handler = StockHandlerActor::new(generate_stock(3));
    let asked_product = Product::new("Product1".to_string(), 1);
    let received = stock_handler.handle_take_product(TakeProduct { product: asked_product.clone() });
    assert_eq!(AnswerTakeProduct::StockProductGiven { product: asked_product.clone() }, received);
    let received = stock_handler.handle_take_product(TakeProduct { product: asked_product.clone() });
    assert_eq!(AnswerTakeProduct::StockNoProduct, received);
}

#[test]
fn test01_order_worker_trying_to_reserve_product_but_stock_has_no_product_ok() {
    let mut stock_handler = StockHandlerActor::new(generate_stock(0));
    let asked_product = Product::new("Product1".to_string(), 1);
    let received = stock_handler.handle_reserve_product(ReserveProduct { product: asked_product });
    assert_eq!(AnswerReserveProduct::StockNoProduct, received);
}

#[test]
fn test02_order_worker_trying_to_reserve_product_and_stock_does_not_have_that_quantity_ok() {
    let mut stock_handler = StockHandlerActor::new(generate_stock(3));
    let asked_product = Product::new("Product1".to_string(), 2);
    let received = stock_handler.handle_reserve_product(ReserveProduct { product: asked_product });
    assert_eq!(AnswerReserveProduct::StockNoProduct, received);
}

#[test]
fn test03_order_worker_trying_to_reserve_product_and_stock_has_that_product_ok() {
    let mut stock_handler = StockHandlerActor::new(generate_stock(3));
    let asked_product = Product::new("Product1".to_string(), 1);
    let received = stock_handler.handle_reserve_product(ReserveProduct { product: asked_product });
    assert_eq!(AnswerReserveProduct::StockProductReserved, received);
}

#[test]
fn test04_order_worker_trying_to_reserve_all_product_twice_ok() {
    let mut stock_handler = StockHandlerActor::new(generate_stock(3));
    let asked_product = Product::new("Product1".to_string(), 1);
    let received = stock_handler.handle_reserve_product(ReserveProduct { product: asked_product.clone() });
    assert_eq!(AnswerReserveProduct::StockProductReserved, received);
    let received = stock_handler.handle_reserve_product(ReserveProduct { product: asked_product.clone() });
    assert_eq!(AnswerReserveProduct::StockNoProduct, received);
}
