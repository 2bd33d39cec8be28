use ferris_commerce::e_commerce;
use ferris_commerce::ferris_e_commerce::{self, EcommerceError};
use ferris_commerce::ferris_local_shop::{self, LocalShopError};
use ferris_commerce::text::parse_unsigned;

fn args(items: &[&str]) -> Vec<String> {
    items.iter().map(|s| s.to_string()).collect()
}

#[test]
fn local_shop_defaults_without_arguments() {
    let config = ferris_local_shop::run(&args(&[])).unwrap();
    assert_eq!(config.orders_path, ferris_local_shop::DEFAULT_ORDERS_FILEPATH);
    assert_eq!(config.stock_path, ferris_local_shop::DEFAULT_STOCK_FILEPATH);
    assert_eq!(config.num_workers, ferris_local_shop::DEFAULT_NUM_WORKERS);
    assert_eq!(config.log_level, "INFO");
}

#[test]
fn local_shop_reads_every_option() {
    let config = ferris_local_shop::run(&args(&["-o", "o.txt", "-s", "s.txt", "-w", "7", "-l", "DEBUG"])).unwrap();
    assert_eq!(config.orders_path, "o.txt");
    assert_eq!(config.stock_path, "s.txt");
    assert_eq!(config.num_workers, 7);
    assert_eq!(config.log_level, "DEBUG");
}

#[test]
fn local_shop_refuses_bad_arguments() {
    let err = |e: &str| Err(LocalShopError::ArgsParsingError(e.to_string()));
    assert_eq!(ferris_local_shop::run(&args(&["-o"])), err("Invalid argument."));
    assert_eq!(ferris_local_shop::run(&args(&["-x", "1"])), err("Invalid argument."));
    assert_eq!(ferris_local_shop::run(&args(&["-w", "0"])), err("Invalid number of workers"));
    assert_eq!(ferris_local_shop::run(&args(&["-w", "many"])), err("Invalid number of workers"));
    let twelve = args(&["-o", "a", "-o", "a", "-o", "a", "-o", "a", "-o", "a", "-o", "a"]);
    assert_eq!(ferris_local_shop::run(&twelve), err("Too many arguments"));
}

#[test]
fn server_reads_ports_and_options() {
    let config = ferris_e_commerce::run(&args(&["-ss", "15001", "-sl", "16001", "-w", "3"])).unwrap();
    assert_eq!(config.servers_listening_port, 15001);
    assert_eq!(config.locals_listening_port, 16001);
    assert_eq!(config.num_workers, 3);
    assert_eq!(config.orders_path, ferris_e_commerce::DEFAULT_ORDERS_FILEPATH);
}

#[test]
fn server_refuses_bad_arguments() {
    let err = |e: &str| Err(EcommerceError::ArgsParsingError(e.to_string()));
    assert_eq!(ferris_e_commerce::run(&args(&["-ss", "1"])), err("Too few arguments"));
    assert_eq!(ferris_e_commerce::run(&args(&["-ss", "1", "-sl"])), err("Too few arguments"));
    assert_eq!(ferris_e_commerce::run(&args(&["-ss", "70000", "-sl", "1"])), err("Invalid port number"));
    assert_eq!(ferris_e_commerce::run(&args(&["-ss", "5", "-sl", "5"])), err("Servers and locals listening ports must be different"));
    assert_eq!(ferris_e_commerce::run(&args(&["-ss", "5", "-zz", "5"])), err("Invalid argument"));
    assert_eq!(ferris_e_commerce::run(&args(&["-ss", "5", "-sl", "6", "-w", "0", "-w", "2"])), err("Invalid number of workers"));
}

#[test]
fn first_server_version_reads_ports() {
    let config = e_commerce::run(&args(&["1000", "2000"])).unwrap();
    assert_eq!(config.servers_listening_port, 1000);
    assert_eq!(config.locals_listening_port, 2000);
    assert_eq!(config.orders_path, e_commerce::DEFAULT_ORDERS_FILEPATH);
    let config = e_commerce::run(&args(&["1000", "2000", "file"])).unwrap();
    assert_eq!(config.orders_path, "file");
    let config = e_commerce::run(&args(&["orders.txt"])).unwrap();
    assert_eq!(config.orders_path, "orders.txt");
    assert_eq!(config.servers_listening_port, e_commerce::DEFAULT_SERVERS_LISTENING_PORT);
    assert_eq!(config.locals_listening_port, e_commerce::DEFAULT_LOCALS_LISTENING_PORT);
    assert_eq!(e_commerce::run(&args(&[])), Err(e_commerce::EcommerceError::ArgsParsingError("Too few arguments".to_string())));
    assert_eq!(e_commerce::run(&args(&["1", "2", "3", "4"])), Err(e_commerce::EcommerceError::ArgsParsingError("Too many arguments".to_string())));
    assert_eq!(e_commerce::run(&args(&["1", "x"])), Err(e_commerce::EcommerceError::ArgsParsingError("Invalid port number".to_string())));
}

#[test]
fn unsigned_numerals_read_like_from_str() {
    assert_eq!(parse_unsigned("+12", 100), Some(12));
    assert_eq!(parse_unsigned("007", 100), Some(7));
    assert_eq!(parse_unsigned("101", 100), None);
    assert_eq!(parse_unsigned("", 100), None);
    assert_eq!(parse_unsigned("+", 100), None);
    assert_eq!(parse_unsigned("-1", 100), None);
    assert_eq!(parse_unsigned("18446744073709551615", u64::MAX), Some(u64::MAX));
    assert_eq!(parse_unsigned("18446744073709551616", u64::MAX), None);
    for n in [0u64, 9, 10, 65535, 123456789] {
        assert_eq!(parse_unsigned(&n.to_string(), u64::MAX), Some(n));
    }
}
