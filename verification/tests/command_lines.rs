use keyring::command::{parse_dec_u64, ChainCommand, ChainId, WalletAddress, WalletId};

fn sample() -> ChainCommand {
    ChainCommand::new(
        "gaiad".to_string(),
        ChainId("test-chain".to_string()),
        "/tmp/chain-home".to_string(),
        26657,
        9090,
        26656,
    )
}

#[test]
fn addresses_are_formatted_from_the_ports() {
    let cmd = sample();
    assert_eq!(cmd.rpc_address(), "http://localhost:26657");
    assert_eq!(cmd.websocket_address(), "ws://localhost:26657/websocket");
    assert_eq!(cmd.grpc_address(), "http://localhost:9090");
    assert_eq!(cmd.rpc_listen_address(), "tcp://localhost:26657");
    assert_eq!(cmd.grpc_listen_address(), "localhost:9090");
}

#[test]
fn help_and_initialize_arguments() {
    let cmd = sample();
    assert_eq!(cmd.help(), vec!["--help"]);
    assert_eq!(
        cmd.initialize(),
        vec!["--home", "/tmp/chain-home", "--chain-id", "test-chain", "init", "test-chain"]
    );
}

#[test]
fn wallet_identifier_carries_the_number_in_hex() {
    let cmd = sample();
    assert_eq!(cmd.add_random_wallet("user", 0x2b3c), "user-2b3c");
    assert_eq!(cmd.add_random_wallet("relayer", 0), "relayer-0");
    assert_eq!(cmd.add_random_wallet("w", u32::MAX), "w-ffffffff");
}

#[test]
fn wallet_and_balance_arguments() {
    let cmd = sample();
    assert_eq!(
        cmd.add_wallet_args("user-1"),
        vec![
            "--home",
            "/tmp/chain-home",
            "keys",
            "add",
            "user-1",
            "--keyring-backend",
            "test",
            "--output",
            "json"
        ]
    );
    assert_eq!(
        cmd.query_balance_args(&WalletAddress("cosmos1xyz".to_string()), "samoleans"),
        vec![
            "--node",
            "tcp://localhost:26657",
            "query",
            "bank",
            "balances",
            "cosmos1xyz",
            "--denom",
            "samoleans",
            "--output",
            "json"
        ]
    );
}

#[test]
fn genesis_arguments_join_the_amounts() {
    let cmd = sample();
    let amounts = vec![("stake".to_string(), 1_000_000u64), ("samoleans".to_string(), 500u64)];
    assert_eq!(
        cmd.add_genesis_account_args(&WalletAddress("cosmos1abc".to_string()), &amounts),
        vec![
            "--home",
            "/tmp/chain-home",
            "add-genesis-account",
            "cosmos1abc",
            "1000000stake,500samoleans"
        ]
    );
    let one = vec![("stake".to_string(), 7u64)];
    assert_eq!(
        cmd.add_genesis_account_args(&WalletAddress("cosmos1abc".to_string()), &one)[4],
        "7stake"
    );
    assert_eq!(
        cmd.add_genesis_validator(&WalletId("validator".to_string()), "stake", 1_000_000),
        vec![
            "--home",
            "/tmp/chain-home",
            "gentx",
            "validator",
            "--keyring-backend",
            "test",
            "--chain-id",
            "test-chain",
            "1000000stake"
        ]
    );
    assert_eq!(
        cmd.collect_gen_txs(),
        vec!["--home", "/tmp/chain-home", "collect-gentxs"]
    );
}

#[test]
fn decimal_parsing() {
    assert_eq!(parse_dec_u64("0"), Some(0));
    assert_eq!(parse_dec_u64("1000000"), Some(1_000_000));
    assert_eq!(parse_dec_u64("18446744073709551615"), Some(u64::MAX));
    assert_eq!(parse_dec_u64("18446744073709551616"), None);
    assert_eq!(parse_dec_u64(""), None);
    assert_eq!(parse_dec_u64("12a"), None);
    assert_eq!(parse_dec_u64("-5"), None);
    assert_eq!(parse_dec_u64("\u{ff11}\u{ff12}"), None);
}

#[test]
fn start_arguments_use_the_listen_addresses() {
    let cmd = sample();
    assert_eq!(
        cmd.start_args(),
        vec![
            "--home",
            "/tmp/chain-home",
            "start",
            "--pruning",
            "nothing",
            "--grpc.address",
            "localhost:9090",
            "--rpc.laddr",
            "tcp://localhost:26657"
        ]
    );
}
