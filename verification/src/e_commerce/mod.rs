//! The first version of the e-commerce server: it reads its ports and its
//! orders file, and keeps the orders and the local shops that connect.
pub mod order_handler;
pub mod order_pusher;
pub mod ss_communicator;

use vstd::prelude::*;

use crate::text::{parse_unsigned, texts, unsigned_value};

verus! {

broadcast use vstd::string::to_string_from_display_ensures_for_str;

pub const DEFAULT_ORDERS_FILEPATH: &'static str = "/data/orders.txt";

/// The servers' port when only the orders file is given.
pub const DEFAULT_SERVERS_LISTENING_PORT: u16 = 15000;

/// The local shops' port when only the orders file is given.
pub const DEFAULT_LOCALS_LISTENING_PORT: u16 = 16000;

pub const TOO_FEW_ARGUMENTS: &'static str = "Too few arguments";

pub const TOO_MANY_ARGUMENTS: &'static str = "Too many arguments";

pub const INVALID_PORT: &'static str = "Invalid port number";

/// What can go wrong while the server starts or runs.
#[derive(Debug, PartialEq, Eq)]
pub enum EcommerceError {
    ArgsParsingError(String),
    OrdersFileParsingError,
    InternalError(String),
}

/// What the server starts with.
#[derive(Debug, PartialEq, Eq)]
pub struct EcommerceConfig {
    pub servers_listening_port: u16,
    pub locals_listening_port: u16,
    pub orders_path: String,
}

/// The settings that the command-line arguments `args` ask for, or the
/// message of the error: either the orders file alone, with the default
/// ports, or the servers' port, the local shops' port and, optionally, the
/// orders file.
pub open spec fn server_settings(args: Seq<Seq<char>>) -> Result<(u16, u16, Seq<char>), Seq<char>> {
    if args.len() == 0 {
        Err(TOO_FEW_ARGUMENTS@)
    } else if args.len() == 1 {
        Ok((DEFAULT_SERVERS_LISTENING_PORT, DEFAULT_LOCALS_LISTENING_PORT, args[0]))
    } else if args.len() > 3 {
        Err(TOO_MANY_ARGUMENTS@)
    } else {
        match (unsigned_value(args[0], u16::MAX as nat), unsigned_value(args[1], u16::MAX as nat)) {
            (Some(servers), Some(locals)) => Ok(
                (
                    servers as u16,
                    locals as u16,
                    if args.len() == 3 {
                        args[2]
                    } else {
                        DEFAULT_ORDERS_FILEPATH@
                    },
                ),
            ),
            _ => Err(INVALID_PORT@),
        }
    }
}

/// Reads a port.
fn parse_port(value: &String) -> (port: Result<u16, EcommerceError>)
    ensures
        match unsigned_value(value@, u16::MAX as nat) {
            Some(n) => port == Ok::<u16, EcommerceError>(n as u16),
            None => port matches Err(EcommerceError::ArgsParsingError(m)) && m@ == INVALID_PORT@,
        },
{
    match parse_unsigned(value.as_str(), 65535) {
        Some(n) => Ok(n as u16),
        None => Err(EcommerceError::ArgsParsingError(INVALID_PORT.to_string())),
    }
}

/// Reads the command-line arguments of the server, without the program
/// name, into what the server starts with; the server itself is started by
/// the caller.
pub fn run(args: &Vec<String>) -> (result: Result<EcommerceConfig, EcommerceError>)
    ensures
        match server_settings(texts(args@)) {
            Ok(settings) => result matches Ok(config) && config.servers_listening_port == settings.0
                && config.locals_listening_port == settings.1 && config.orders_path@ == settings.2,
            Err(message) => result matches Err(EcommerceError::ArgsParsingError(m)) && m@ == message,
        },
{
    if args.len() == 0 {
        return Err(EcommerceError::ArgsParsingError(TOO_FEW_ARGUMENTS.to_string()));
    }
    if args.len() == 1 {
        proof {
            assert(texts(args@)[0] == args@[0]@);
        }
        return Ok(
            EcommerceConfig {
                servers_listening_port: DEFAULT_SERVERS_LISTENING_PORT,
                locals_listening_port: DEFAULT_LOCALS_LISTENING_PORT,
                orders_path: args[0].clone(),
            },
        );
    }
    if args.len() > 3 {
        return Err(EcommerceError::ArgsParsingError(TOO_MANY_ARGUMENTS.to_string()));
    }
    proof {
        assert(texts(args@)[0] == args@[0]@);
        assert(texts(args@)[1] == args@[1]@);
    }
    let servers_listening_port = parse_port(&args[0])?;
    let locals_listening_port = parse_port(&args[1])?;
    let orders_path = if args.len() == 3 {
        proof {
            assert(texts(args@)[2] == args@[2]@);
        }
        args[2].clone()
    } else {
        DEFAULT_ORDERS_FILEPATH.to_string()
    };
    Ok(EcommerceConfig { servers_listening_port, locals_listening_port, orders_path })
}

} // verus!
