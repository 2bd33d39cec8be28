use ferris_commerce::ferris_local_shop::stock_handler::{
    ReserveProduct, ReturnProduct, StockHandlerActor, StockReply, TakeProduct, UnreserveProduct,
};
use ferris_commerce::model::product::Product;
use ferris_commerce::model::stock::Stock;

fn stock() -> Stock {
    let mut stock = Stock::new();
    stock.insert(Product::new("apple".to_string(), 5));
    stock
}

#[test]
fn returning_a_taken_product_restores_the_stock() {
    let mut handler = StockHandlerActor::new(stock());
    let reply = handler.handle_take_product(TakeProduct { product: Product::new("apple".to_string(), 3) });
    assert!(matches!(reply, StockReply::Given(_)));
    handler.handle_return_product(ReturnProduct { product: Product::new("apple".to_string(), 3) });
    let reply = handler.handle_take_product(TakeProduct { product: Product::new("apple".to_string(), 5) });
    assert!(matches!(reply, StockReply::Given(_)));
    let reply = handler.handle_take_product(TakeProduct { product: Product::new("apple".to_string(), 1) });
    assert!(matches!(reply, StockReply::NoProduct(_)));
}

#[test]
fn unreserving_restores_the_shelves() {
    let mut handler = StockHandlerActor::new(stock());
    let reply = handler.handle_reserve_product(ReserveProduct { product: Product::new("apple".to_string(), 4) });
    assert!(matches!(reply, StockReply::Reserved(_)));
    let reply = handler.handle_take_product(TakeProduct { product: Product::new("apple".to_string(), 2) });
    assert!(matches!(reply, StockReply::NoProduct(_)));
    handler.handle_unreserve_product(UnreserveProduct { product: Product::new("apple".to_string(), 4) }).unwrap();
    let reply = handler.handle_take_product(TakeProduct { product: Product::new("apple".to_string(), 5) });
    assert!(matches!(reply, StockReply::Given(_)));
}
