//! An e-commerce server node: it splits web orders into single products,
//! finds a local shop with enough stock for each, and, together with the
//! other servers, elects the leader that talks to the database and to the
//! local shops.
pub mod connection_handler;
pub mod order_handler;
pub mod order_worker;
pub mod db_middleman;
pub mod sl_middleman;
pub mod ss_middleman;

use vstd::prelude::*;

use crate::text::{parse_unsigned, same_text, texts, unsigned_value};

verus! {

broadcast use vstd::string::to_string_from_display_ensures_for_str;

/// The first port on which servers listen to each other.
pub const SS_INITIAL_PORT: u16 = 15000;

/// The last port on which servers listen to each other.
pub const SS_MAX_PORT: u16 = 15009;

/// The first port on which servers listen to local shops.
pub const SL_INITIAL_PORT: u16 = 16000;

/// The last port on which servers listen to local shops.
pub const SL_MAX_PORT: u16 = 16009;

/// The port on which the database listens to servers.
pub const DB_LISTENING_PORT: u16 = 17000;

/// The host every node runs on.
pub const LOCALHOST: &'static str = "127.0.0.1";

pub const DEFAULT_ORDERS_FILEPATH: &'static str = "/data/orders.txt";

pub const DEFAULT_NUM_WORKERS: u16 = 5;

pub const LOG_LVL_INFO: &'static str = "INFO";

pub const TOO_FEW_ARGUMENTS: &'static str = "Too few arguments";

pub const TOO_MANY_ARGUMENTS: &'static str = "Too many arguments";

pub const INVALID_PORT: &'static str = "Invalid port number";

pub const INVALID_NUM_WORKERS: &'static str = "Invalid number of workers";

pub const INVALID_ARGUMENT: &'static str = "Invalid argument";

pub const SAME_PORTS: &'static str = "Servers and locals listening ports must be different";

/// What can go wrong while a server starts or runs.
#[derive(Debug, PartialEq, Eq)]
pub enum EcommerceError {
    ArgsParsingError(String),
    OrdersFileParsingError,
    InternalError(String),
}

/// What a server starts with.
#[derive(Debug, PartialEq, Eq)]
pub struct EcommerceConfig {
    pub servers_listening_port: u16,
    pub locals_listening_port: u16,
    pub orders_path: String,
    pub num_workers: u16,
    pub log_level: String,
}

/// What a server starts with, as mathematical values.
pub struct EcommerceSettings {
    pub servers_listening_port: u16,
    pub locals_listening_port: u16,
    pub orders_path: Seq<char>,
    pub num_workers: u16,
    pub log_level: Seq<char>,
}

impl View for EcommerceConfig {
    type V = EcommerceSettings;

    open spec fn view(&self) -> EcommerceSettings {
        EcommerceSettings {
            servers_listening_port: self.servers_listening_port,
            locals_listening_port: self.locals_listening_port,
            orders_path: self.orders_path@,
            num_workers: self.num_workers,
            log_level: self.log_level@,
        }
    }
}

/// The settings before any option applies.
pub open spec fn default_settings() -> EcommerceSettings {
    EcommerceSettings {
        servers_listening_port: SS_INITIAL_PORT,
        locals_listening_port: SL_INITIAL_PORT,
        orders_path: DEFAULT_ORDERS_FILEPATH@,
        num_workers: DEFAULT_NUM_WORKERS,
        log_level: LOG_LVL_INFO@,
    }
}

/// The settings after the option `flag` with the value `value`: `-ss` and
/// `-sl` set the two ports, `-o` the orders file, `-w` the number of
/// workers and `-l` the log level; anything else is an error. `-w` is
/// refused when the number of workers set so far is zero.
pub open spec fn apply_option(settings: EcommerceSettings, flag: Seq<char>, value: Seq<char>) -> Result<
    EcommerceSettings,
    Seq<char>,
> {
    if flag == "-ss"@ {
        match unsigned_value(value, u16::MAX as nat) {
            Some(port) => Ok(EcommerceSettings { servers_listening_port: port as u16, ..settings }),
            None => Err(INVALID_PORT@),
        }
    } else if flag == "-sl"@ {
        match unsigned_value(value, u16::MAX as nat) {
            Some(port) => Ok(EcommerceSettings { locals_listening_port: port as u16, ..settings }),
            None => Err(INVALID_PORT@),
        }
    } else if flag == "-o"@ {
        Ok(EcommerceSettings { orders_path: value, ..settings })
    } else if flag == "-w"@ {
        if settings.num_workers == 0 {
            Err(INVALID_NUM_WORKERS@)
        } else {
            match unsigned_value(value, u16::MAX as nat) {
                Some(n) => Ok(EcommerceSettings { num_workers: n as u16, ..settings }),
                None => Err(INVALID_PORT@),
            }
        }
    } else if flag == "-l"@ {
        Ok(EcommerceSettings { log_level: value, ..settings })
    } else {
        Err(INVALID_ARGUMENT@)
    }
}

/// The settings after the first `n` pairs of option and value of `args`,
/// from the defaults on; the first error stops.
pub open spec fn apply_options(args: Seq<Seq<char>>, n: nat) -> Result<EcommerceSettings, Seq<char>>
    decreases n,
{
    if n == 0 {
        Ok(default_settings())
    } else {
        match apply_options(args, (n - 1) as nat) {
            Ok(settings) => apply_option(settings, args[2 * (n - 1)], args[2 * (n - 1) + 1]),
            Err(e) => Err(e),
        }
    }
}

/// The settings that the command-line arguments `args` ask for, or the
/// message of the error: fewer than four arguments or an odd number of
/// them, or more than ten, is an error; otherwise the pairs of option and
/// value apply in turn, and the two ports must differ.
pub open spec fn server_settings(args: Seq<Seq<char>>) -> Result<EcommerceSettings, Seq<char>> {
    if args.len() < 4 || args.len() % 2 != 0 {
        Err(TOO_FEW_ARGUMENTS@)
    } else if args.len() > 10 {
        Err(TOO_MANY_ARGUMENTS@)
    } else {
        match apply_options(args, args.len() / 2) {
            Ok(settings) => if settings.servers_listening_port == settings.locals_listening_port {
                Err(SAME_PORTS@)
            } else {
                Ok(settings)
            },
            Err(e) => Err(e),
        }
    }
}

/// Once an option is refused, the later ones do not matter.
proof fn lemma_refusal_stays(args: Seq<Seq<char>>, k: nat, n: nat)
    requires
        k <= n,
        apply_options(args, k) is Err,
    ensures
        apply_options(args, n) == apply_options(args, k),
    decreases n - k,
{
    if k < n {
        lemma_refusal_stays(args, k, (n - 1) as nat);
    }
}

/// The port given as an option's value, or the error for it.
fn parse_port(value: &String) -> (port: Result<u16, EcommerceError>)
    ensures
        match unsigned_value(value@, u16::MAX as nat) {
            Some(n) => port == Ok::<u16, EcommerceError>(n as u16),
            None => port matches Err(EcommerceError::ArgsParsingError(m)) && m@ == INVALID_PORT@,
        },
{
    match parse_unsigned(value.as_str(), 65535) {
        Some(n) => Ok(n as u16),
        None => Err(EcommerceError::ArgsParsingError(INVALID_PORT.to_string())),
    }
}

/// The servers' port and the local shops' port must differ.
pub fn check_ports_differ(servers_listening_port: u16, locals_listening_port: u16) -> (result: Result<
    (),
    EcommerceError,
>)
    ensures
        if servers_listening_port == locals_listening_port {
            result matches Err(EcommerceError::ArgsParsingError(m)) && m@ == SAME_PORTS@
        } else {
            result is Ok
        },
{
    if servers_listening_port == locals_listening_port {
        return Err(EcommerceError::ArgsParsingError(SAME_PORTS.to_string()));
    }
    Ok(())
}

/// Reads the command-line arguments of a server, without the program name,
/// into what the server starts with. That the ports are free is checked by
/// the caller when it binds them, and the server itself is started by the
/// caller.
pub fn run(args: &Vec<String>) -> (result: Result<EcommerceConfig, EcommerceError>)
    ensures
        match server_settings(texts(args@)) {
            Ok(settings) => result matches Ok(config) && config@ == settings,
            Err(message) => result matches Err(EcommerceError::ArgsParsingError(m)) && m@ == message,
        },
{
    let ghost all = texts(args@);
    if args.len() < 4 || args.len() % 2 != 0 {
        return Err(EcommerceError::ArgsParsingError(TOO_FEW_ARGUMENTS.to_string()));
    }
    if args.len() > 10 {
        return Err(EcommerceError::ArgsParsingError(TOO_MANY_ARGUMENTS.to_string()));
    }
    let mut config = EcommerceConfig {
        servers_listening_port: SS_INITIAL_PORT,
        locals_listening_port: SL_INITIAL_PORT,
        orders_path: DEFAULT_ORDERS_FILEPATH.to_string(),
        num_workers: DEFAULT_NUM_WORKERS,
        log_level: LOG_LVL_INFO.to_string(),
    };
    let mut k: usize = 0;
    while k < args.len() / 2
        invariant
            all == texts(args@),
            4 <= args.len() <= 10,
            args.len() % 2 == 0,
            k <= args.len() / 2,
            apply_options(all, k as nat) == Ok::<EcommerceSettings, Seq<char>>(config@),
        decreases args.len() / 2 - k,
    {
        let flag = &args[2 * k];
        let value = &args[2 * k + 1];
        proof {
            assert(all[2 * k as int] == flag@);
            assert(all[2 * k + 1] == value@);
        }
        let step: Result<(), EcommerceError> = if same_text(flag, "-ss") {
            match parse_port(value) {
                Ok(port) => {
                    config.servers_listening_port = port;
                    Ok(())
                },
                Err(e) => Err(e),
            }
        } else if same_text(flag, "-sl") {
            match parse_port(value) {
                Ok(port) => {
                    config.locals_listening_port = port;
                    Ok(())
                },
                Err(e) => Err(e),
            }
        } else if same_text(flag, "-o") {
            config.orders_path = value.clone();
            Ok(())
        } else if same_text(flag, "-w") {
            if config.num_workers == 0 {
                Err(EcommerceError::ArgsParsingError(INVALID_NUM_WORKERS.to_string()))
            } else {
                match parse_port(value) {
                    Ok(n) => {
                        config.num_workers = n;
                        Ok(())
                    },
                    Err(e) => Err(e),
                }
            }
        } else if same_text(flag, "-l") {
            config.log_level = value.clone();
            Ok(())
        } else {
            Err(EcommerceError::ArgsParsingError(INVALID_ARGUMENT.to_string()))
        };
        if step.is_err() {
            proof {
                lemma_refusal_stays(all, (k + 1) as nat, args.len() as nat / 2);
            }
            return Err(step.unwrap_err());
        }
        k = k + 1;
    }
    match check_ports_differ(config.servers_listening_port, config.locals_listening_port) {
        Ok(()) => Ok(config),
        Err(e) => Err(e),
    }
}

} // verus!
