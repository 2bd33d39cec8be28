//! The first version of the local shop node: a stock with reservations and
//! workers that each prepare one order at a time.
pub mod order_handler;
pub mod order_worker;
pub mod stock_handler;

use vstd::prelude::*;

use crate::text::texts;

verus! {

broadcast use vstd::string::to_string_from_display_ensures_for_str;

pub const DEFAULT_ORDERS_FILEPATH: &'static str = "/data/orders.txt";

pub const TOO_MANY_ARGUMENTS: &'static str = "Too many arguments";

/// The orders file that the command-line arguments name, or the message of
/// the error: no argument means the default file, one names it.
pub open spec fn orders_file(args: Seq<Seq<char>>) -> Result<Seq<char>, Seq<char>> {
    if args.len() == 0 {
        Ok(DEFAULT_ORDERS_FILEPATH@)
    } else if args.len() == 1 {
        Ok(args[0])
    } else {
        Err(TOO_MANY_ARGUMENTS@)
    }
}

/// Reads the command-line arguments of the shop, without the program name,
/// into the path of its orders file; the shop itself is started by the
/// caller.
pub fn run(args: &Vec<String>) -> (result: Result<String, ShopError>)
    ensures
        match orders_file(texts(args@)) {
            Ok(path) => result matches Ok(p) && p@ == path,
            Err(message) => result matches Err(ShopError::ArgsParsingError(m)) && m@ == message,
        },
{
    if args.len() == 0 {
        Ok(DEFAULT_ORDERS_FILEPATH.to_string())
    } else if args.len() == 1 {
        proof {
            assert(texts(args@)[0] == args@[0]@);
        }
        Ok(args[0].clone())
    } else {
        Err(ShopError::ArgsParsingError(TOO_MANY_ARGUMENTS.to_string()))
    }
}

/// What can go wrong while the shop starts or runs.
#[derive(Debug, PartialEq, Eq)]
pub enum ShopError {
    ArgsParsingError(String),
    OrdersFileParsingError(String),
    StockFileParsingError(String),
    ActorError(String),
    SystemError(String),
}

} // verus!
