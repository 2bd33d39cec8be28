//! A local shop node: its stock, the workers that prepare orders, the
//! handler that hands orders out, and the state of its connection with the
//! e-commerce servers.
pub mod connection_handler;
pub mod ls_communicator;
pub mod ls_middleman;
pub mod order_handler;
pub mod order_worker;
pub mod stock_handler;

use vstd::prelude::*;

use crate::text::{parse_unsigned, same_text, texts, unsigned_value};

verus! {

broadcast use vstd::string::to_string_from_display_ensures_for_str;

pub const DEFAULT_ORDERS_FILEPATH: &'static str = "/data/orders.txt";

pub const DEFAULT_STOCK_FILEPATH: &'static str = "/data/stock.txt";

pub const DEFAULT_NUM_WORKERS: usize = 5;

pub const LOG_LVL_INFO: &'static str = "INFO";

pub const INVALID_ARGUMENT: &'static str = "Invalid argument.";

pub const TOO_MANY_ARGUMENTS: &'static str = "Too many arguments";

pub const INVALID_NUM_WORKERS: &'static str = "Invalid number of workers";

/// What can go wrong while a local shop starts or runs.
#[derive(Debug, PartialEq, Eq)]
pub enum LocalShopError {
    ArgsParsingError(String),
    OrdersFileParsingError(String),
    StockFileParsingError(String),
    ActorError(String),
    SystemError(String),
}

/// What a local shop starts with.
#[derive(Debug, PartialEq, Eq)]
pub struct LocalShopConfig {
    pub orders_path: String,
    pub stock_path: String,
    pub num_workers: usize,
    pub log_level: String,
}

/// What a local shop starts with, as mathematical values.
pub struct LocalShopSettings {
    pub orders_path: Seq<char>,
    pub stock_path: Seq<char>,
    pub num_workers: nat,
    pub log_level: Seq<char>,
}

impl View for LocalShopConfig {
    type V = LocalShopSettings;

    open spec fn view(&self) -> LocalShopSettings {
        LocalShopSettings {
            orders_path: self.orders_path@,
            stock_path: self.stock_path@,
            num_workers: self.num_workers as nat,
            log_level: self.log_level@,
        }
    }
}

/// The settings when no argument is given.
pub open spec fn default_settings() -> LocalShopSettings {
    LocalShopSettings {
        orders_path: DEFAULT_ORDERS_FILEPATH@,
        stock_path: DEFAULT_STOCK_FILEPATH@,
        num_workers: DEFAULT_NUM_WORKERS as nat,
        log_level: LOG_LVL_INFO@,
    }
}

/// The settings after the option `flag` with the value `value`: `-o` sets
/// the orders file, `-s` the stock file, `-w` the number of workers, a
/// positive number, and `-l` the log level; anything else is an error.
pub open spec fn apply_option(settings: LocalShopSettings, flag: Seq<char>, value: Seq<char>) -> Result<
    LocalShopSettings,
    Seq<char>,
> {
    if flag == "-o"@ {
        Ok(LocalShopSettings { orders_path: value, ..settings })
    } else if flag == "-s"@ {
        Ok(LocalShopSettings { stock_path: value, ..settings })
    } else if flag == "-w"@ {
        match unsigned_value(value, usize::MAX as nat) {
            Some(n) if n > 0 => Ok(LocalShopSettings { num_workers: n, ..settings }),
            _ => Err(INVALID_NUM_WORKERS@),
        }
    } else if flag == "-l"@ {
        Ok(LocalShopSettings { log_level: value, ..settings })
    } else {
        Err(INVALID_ARGUMENT@)
    }
}

/// The settings after the first `n` pairs of option and value of `args`,
/// from the defaults on; the first error stops.
pub open spec fn apply_options(args: Seq<Seq<char>>, n: nat) -> Result<LocalShopSettings, Seq<char>>
    decreases n,
{
    if n == 0 {
        Ok(default_settings())
    } else {
        match apply_options(args, (n - 1) as nat) {
            Ok(settings) => apply_option(settings, args[2 * (n - 1)], args[2 * (n - 1) + 1]),
            Err(e) => Err(e),
        }
    }
}

/// The settings that the command-line arguments `args` ask for, or the
/// message of the error: no argument gives the defaults; an odd number of
/// arguments, or more than ten, is an error; otherwise the pairs of option
/// and value apply in turn.
pub open spec fn shop_settings(args: Seq<Seq<char>>) -> Result<LocalShopSettings, Seq<char>> {
    if args.len() == 0 {
        Ok(default_settings())
    } else if args.len() % 2 != 0 {
        Err(INVALID_ARGUMENT@)
    } else if args.len() > 10 {
        Err(TOO_MANY_ARGUMENTS@)
    } else {
        apply_options(args, args.len() / 2)
    }
}

/// Once an option is refused, the later ones do not matter.
proof fn lemma_refusal_stays(args: Seq<Seq<char>>, k: nat, n: nat)
    requires
        k <= n,
        apply_options(args, k) is Err,
    ensures
        apply_options(args, n) == apply_options(args, k),
    decreases n - k,
{
    if k < n {
        lemma_refusal_stays(args, k, (n - 1) as nat);
    }
}

/// Reads the command-line arguments of a local shop, without the program
/// name, into what the shop starts with; the shop itself is started by the
/// caller.
pub fn run(args: &Vec<String>) -> (result: Result<LocalShopConfig, LocalShopError>)
    ensures
        match shop_settings(texts(args@)) {
            Ok(settings) => result matches Ok(config) && config@ == settings,
            Err(message) => result matches Err(LocalShopError::ArgsParsingError(m)) && m@ == message,
        },
{
    let ghost all = texts(args@);
    let mut config = LocalShopConfig {
        orders_path: DEFAULT_ORDERS_FILEPATH.to_string(),
        stock_path: DEFAULT_STOCK_FILEPATH.to_string(),
        num_workers: DEFAULT_NUM_WORKERS,
        log_level: LOG_LVL_INFO.to_string(),
    };
    if args.len() == 0 {
        return Ok(config);
    }
    if args.len() % 2 != 0 {
        return Err(LocalShopError::ArgsParsingError(INVALID_ARGUMENT.to_string()));
    }
    if args.len() > 10 {
        return Err(LocalShopError::ArgsParsingError(TOO_MANY_ARGUMENTS.to_string()));
    }
    let mut k: usize = 0;
    while k < args.len() / 2
        invariant
            all == texts(args@),
            args.len() % 2 == 0,
            args.len() <= 10,
            k <= args.len() / 2,
            apply_options(all, k as nat) == Ok::<LocalShopSettings, Seq<char>>(config@),
        decreases args.len() / 2 - k,
    {
        let flag = &args[2 * k];
        let value = &args[2 * k + 1];
        proof {
            assert(all[2 * k as int] == flag@);
            assert(all[2 * k + 1] == value@);
        }
        if same_text(flag, "-o") {
            config.orders_path = value.clone();
        } else if same_text(flag, "-s") {
            config.stock_path = value.clone();
        } else if same_text(flag, "-w") {
            match parse_unsigned(value.as_str(), usize::MAX as u64) {
                Some(n) => {
                    if n == 0 {
                        proof {
                            lemma_refusal_stays(all, (k + 1) as nat, args.len() as nat / 2);
                        }
                        return Err(LocalShopError::ArgsParsingError(INVALID_NUM_WORKERS.to_string()));
                    }
                    config.num_workers = n as usize;
                },
                None => {
                    proof {
                        lemma_refusal_stays(all, (k + 1) as nat, args.len() as nat / 2);
                    }
                    return Err(LocalShopError::ArgsParsingError(INVALID_NUM_WORKERS.to_string()));
                },
            }
        } else if same_text(flag, "-l") {
            config.log_level = value.clone();
        } else {
            proof {
                lemma_refusal_stays(all, (k + 1) as nat, args.len() as nat / 2);
            }
            return Err(LocalShopError::ArgsParsingError(INVALID_ARGUMENT.to_string()));
        }
        k = k + 1;
    }
    Ok(config)
}

} // verus!
