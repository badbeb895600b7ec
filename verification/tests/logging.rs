use rsm::opi_log::{block_start, chain_folder, event_log_line, log_file_path, plan_log, LogPlan, MAINNET, REGTEST, SIGNET, TESTNET, TESTNET4};

#[test]
fn chain_folders() {
    assert_eq!(chain_folder(MAINNET), "");
    assert_eq!(chain_folder(REGTEST), "/regtest/");
    assert_eq!(chain_folder(SIGNET), "/signet/");
    assert_eq!(chain_folder(TESTNET), "/testnet3/");
    assert_eq!(chain_folder(TESTNET4), "/testnet4/");
    assert_eq!(chain_folder("other"), "");
    assert_eq!(log_file_path("regtest"), "/regtest/runes_output.txt");
    assert_eq!(log_file_path("mainnet"), "runes_output.txt");
}

#[test]
fn block_start_line() {
    assert_eq!(block_start(840000), "cmd;840000;block_start");
}

#[test]
fn log_plan_opens_block_once() {
    let first = plan_log("entry one", 7, true);
    assert_eq!(
        first,
        LogPlan { block_start: Some("cmd;7;block_start".to_string()), entry: Some("entry one".to_string()), first_in_block: false }
    );
    let second = plan_log("entry two", 7, first.first_in_block);
    assert_eq!(second, LogPlan { block_start: None, entry: Some("entry two".to_string()), first_in_block: false });
}

#[test]
fn empty_entry_writes_nothing() {
    assert_eq!(plan_log("", 7, true), LogPlan { block_start: None, entry: None, first_in_block: true });
    assert_eq!(plan_log("", 7, false), LogPlan { block_start: None, entry: None, first_in_block: false });
}

#[test]
fn event_line_format() {
    let txid = "4d3c2b1a00000000000000000000000000000000000000000000000000000000";
    assert_eq!(
        event_log_line(840000, "tx_events_burn2", txid, "rl", 1, "9:9", "2:1", 1000, "bc1qxyz"),
        format!("cmd;840000;tx_events_burn2;{};rl;1;9:9;2:1;1000;bc1qxyz", txid)
    );
    assert_eq!(
        event_log_line(12, "tx_events_init_contract", "ab", "init_contract", 0, "12:3", "12:3", 0, ""),
        "cmd;12;tx_events_init_contract;ab;init_contract;0;12:3;12:3;0;"
    );
}
