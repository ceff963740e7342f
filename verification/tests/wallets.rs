use dash_shielded::activity::{
    activity_transactions, entry_memos, entry_transaction, ActivityEntry, Direction,
};
use dash_shielded::alias_map::AliasMap;
use dash_shielded::client::{
    attached_manager, attached_wallet, derive_shielded_address, register_client, stop, ClientSlot,
    Clients,
};
use dash_shielded::memo::{memo_length, pad_memo};
use dash_shielded::poll::{balance_sum, poll, poll_target, Reading};
use dash_shielded::sync::{
    begin_sync, pass_wallet, record_progress, record_sync_pass, start_sync, stop_sync, PassOutcome,
};

fn enter(clients: &mut Clients<u8, char>, alias: &str) {
    register_client(
        clients,
        alias.to_string(),
        "words".to_string(),
        "testnet".to_string(),
        4,
        format!("address of {}", alias),
        "key".to_string(),
        7u8,
        'w',
    );
}

fn opened(aliases: &[&str]) -> Clients<u8, char> {
    let mut clients: Clients<u8, char> = AliasMap::new();
    for alias in aliases {
        enter(&mut clients, alias);
    }
    clients
}

fn slot<'a>(clients: &'a Clients<u8, char>, alias: &str) -> &'a ClientSlot<u8, char> {
    clients.get(alias).unwrap()
}

fn bare_slot() -> ClientSlot<u8, char> {
    ClientSlot {
        mnemonic: "words".to_string(),
        network: "mainnet".to_string(),
        account: 0,
        address: "address".to_string(),
        viewing_key: "key".to_string(),
        status: "DISCONNECTED".to_string(),
        available_credits: "5".to_string(),
        total_credits: "5".to_string(),
        proposals: AliasMap::new(),
        manager: None,
        wallet: None,
        total_scanned: 0,
        network_block_height: 12,
    }
}

fn reading(syncing: bool, running: bool, balance: Option<u64>, still_syncing: bool) -> Reading {
    Reading { syncing, running, balance, still_syncing, activity: Vec::new() }
}

fn entry(direction: Direction) -> ActivityEntry {
    ActivityEntry {
        id: vec![0xde, 0xad],
        direction,
        amount: 250,
        memo: Some(b"hi\0\0\0\0".to_vec()),
        created_at_ms: 1_700_000_000_999,
        block_height: Some(99),
        fee: Some(3),
        counterparty: Some(vec![1, 2, 3]),
    }
}

#[test]
fn entered_wallets_are_found() {
    let clients = opened(&["a", "b"]);
    let a = derive_shielded_address(&clients, "a".to_string()).unwrap();
    let b = derive_shielded_address(&clients, "b".to_string()).unwrap();
    assert_eq!(a.shielded_address, "address of a");
    assert_eq!(b.shielded_address, "address of b");
    assert_eq!(
        derive_shielded_address(&clients, "c".to_string()).err(),
        Some("unknown alias".to_string())
    );
    let a = slot(&clients, "a");
    assert_eq!(a.mnemonic, "words");
    assert_eq!(a.network, "testnet");
    assert_eq!(a.account, 4);
    assert_eq!(a.viewing_key, "key");
    assert_eq!(a.status, "DISCONNECTED");
    assert_eq!(a.available_credits, "0");
    assert_eq!(a.total_credits, "0");
    assert_eq!(a.proposals.len(), 0);
    assert_eq!(a.total_scanned, 0);
    assert_eq!(a.network_block_height, 0);
    assert_eq!(attached_manager(&clients, "a"), Ok(Some(&7u8)));
    assert_eq!(attached_wallet(&clients, "a"), Ok(Some(&'w')));
}

#[test]
fn closed_wallets_are_unknown() {
    let mut clients = opened(&["a", "b"]);
    assert_eq!(stop(&mut clients, "a".to_string()), Ok("STOPPED".to_string()));
    assert!(derive_shielded_address(&clients, "a".to_string()).is_err());
    assert!(derive_shielded_address(&clients, "b".to_string()).is_ok());
    assert_eq!(stop(&mut clients, "a".to_string()), Ok("STOPPED".to_string()));
    assert_eq!(clients.len(), 1);
    assert_eq!(attached_manager(&clients, "a"), Err("unknown alias".to_string()));
    assert_eq!(attached_wallet(&clients, "a"), Err("unknown alias".to_string()));
}

#[test]
fn scans_are_started_and_stopped() {
    let mut clients = opened(&["a", "b"]);
    assert_eq!(begin_sync(&clients, "a"), Ok(&7u8));
    assert_eq!(pass_wallet(&clients, "a"), Some(&'w'));
    assert_eq!(start_sync(&mut clients, "a".to_string()), Ok(()));
    assert_eq!(slot(&clients, "a").status, "SYNCING");
    assert_eq!(slot(&clients, "b").status, "DISCONNECTED");
    assert_eq!(stop_sync(&mut clients, "a".to_string()), Ok(()));
    assert_eq!(slot(&clients, "a").status, "STOPPED");
    assert_eq!(start_sync(&mut clients, "x".to_string()), Err("unknown alias".to_string()));
    assert_eq!(stop_sync(&mut clients, "x".to_string()), Err("unknown alias".to_string()));
    assert_eq!(begin_sync(&clients, "x"), Err("unknown alias".to_string()));
    assert_eq!(pass_wallet(&clients, "x"), None);
    clients.insert("bare".to_string(), bare_slot());
    assert_eq!(begin_sync(&clients, "bare"), Err("wallet not initialized".to_string()));
    assert_eq!(
        start_sync(&mut clients, "bare".to_string()),
        Err("wallet not initialized".to_string())
    );
    assert_eq!(slot(&clients, "bare").status, "DISCONNECTED");
    assert_eq!(pass_wallet(&clients, "bare"), None);
    assert_eq!(attached_manager(&clients, "bare"), Ok(None));
    assert_eq!(attached_wallet(&clients, "bare"), Ok(None));
}

#[test]
fn passes_are_recorded() {
    let mut clients = opened(&["a"]);
    record_sync_pass(&mut clients, "a", Some(PassOutcome::Scanned(512)));
    assert_eq!(slot(&clients, "a").total_scanned, 512);
    assert_eq!(slot(&clients, "a").status, "SYNCED");
    record_sync_pass(&mut clients, "a", Some(PassOutcome::Failed("timeout".to_string())));
    assert_eq!(slot(&clients, "a").total_scanned, 0);
    assert_eq!(slot(&clients, "a").status, "ERROR: timeout");
    record_sync_pass(&mut clients, "a", None);
    assert_eq!(slot(&clients, "a").total_scanned, 0);
    assert_eq!(slot(&clients, "a").status, "SYNCED");
    record_sync_pass(&mut clients, "gone", None);
    assert_eq!(clients.len(), 1);
}

#[test]
fn highest_height_is_recorded() {
    let mut heights: AliasMap<u64> = AliasMap::new();
    record_progress(&mut heights, "a", 0);
    assert_eq!(heights.get("a"), None);
    record_progress(&mut heights, "a", 20);
    record_progress(&mut heights, "a", 10);
    record_progress(&mut heights, "b", 5);
    assert_eq!(heights.get("a"), Some(&20));
    assert_eq!(heights.get("b"), Some(&5));
    record_progress(&mut heights, "a", 30);
    record_progress(&mut heights, "a", 0);
    assert_eq!(heights.get("a"), Some(&30));
}

#[test]
fn balances_are_summed() {
    assert_eq!(balance_sum(&Vec::new()), Some(0));
    assert_eq!(balance_sum(&vec![1, 2, 39]), Some(42));
    assert_eq!(balance_sum(&vec![u64::MAX, 0]), Some(u64::MAX));
    assert_eq!(balance_sum(&vec![u64::MAX, 1]), None);
}

#[test]
fn poll_reads_what_the_wallet_needs() {
    let mut clients = opened(&["a"]);
    let (manager, wallet, account, network) = poll_target(&clients, "a").unwrap();
    assert_eq!((manager, wallet, account, network.as_str()), (Some(&7), Some(&'w'), 4, "testnet"));
    assert_eq!(poll_target(&clients, "x").err(), Some("unknown alias".to_string()));
    clients.insert("bare".to_string(), bare_slot());
    let (manager, wallet, account, network) = poll_target(&clients, "bare").unwrap();
    assert_eq!((manager, wallet, account, network.as_str()), (None, None, 0, "mainnet"));
}

#[test]
fn poll_reports_the_state() {
    let cases = [
        (reading(true, true, Some(9), true), "SYNCING", 50),
        (reading(true, true, Some(9), false), "SYNCING", 100),
        (reading(false, true, Some(9), false), "SYNCED", 100),
        (reading(false, true, Some(9), true), "SYNCED", 50),
        (reading(false, false, Some(9), false), "STOPPED", 100),
    ];
    for (read, status, progress) in cases {
        let mut clients = opened(&["a"]);
        let report = poll(&mut clients, None, "a".to_string(), "testnet", Some(read)).unwrap();
        assert_eq!(report.alias, "a");
        assert_eq!(report.status, status);
        assert_eq!(report.scan_progress, progress);
        assert_eq!(report.available_credits, "9");
        assert_eq!(report.total_credits, "9");
        assert_eq!(report.transactions.len(), 0);
        assert_eq!(slot(&clients, "a").status, status);
        assert_eq!(slot(&clients, "a").available_credits, "9");
        assert_eq!(slot(&clients, "a").total_credits, "9");
    }
}

#[test]
fn wallets_without_handles_are_disconnected() {
    let mut clients: Clients<u8, char> = AliasMap::new();
    clients.insert("bare".to_string(), bare_slot());
    let report = poll(&mut clients, None, "bare".to_string(), "mainnet", None).unwrap();
    assert_eq!(report.status, "DISCONNECTED");
    assert_eq!(report.scan_progress, 0);
    assert_eq!(report.available_credits, "0");
    assert_eq!(report.network_block_height, 12);
    assert_eq!(slot(&clients, "bare").available_credits, "0");
    assert!(poll(&mut clients, None, "x".to_string(), "mainnet", None).is_err());
}

#[test]
fn unread_balances_count_as_zero() {
    let mut clients = opened(&["a"]);
    let read = reading(false, true, None, false);
    let report = poll(&mut clients, None, "a".to_string(), "testnet", Some(read)).unwrap();
    assert_eq!(report.available_credits, "0");
}

#[test]
fn errors_stay_through_a_poll() {
    let mut clients = opened(&["a"]);
    record_sync_pass(&mut clients, "a", Some(PassOutcome::Failed("timeout".to_string())));
    let read = reading(false, true, Some(5), false);
    let report = poll(&mut clients, None, "a".to_string(), "testnet", Some(read)).unwrap();
    assert_eq!(report.status, "ERROR: timeout");
    assert_eq!(report.available_credits, "5");
    assert_eq!(slot(&clients, "a").status, "ERROR: timeout");
    start_sync(&mut clients, "a".to_string()).unwrap();
    let read = reading(false, true, Some(5), false);
    let report = poll(&mut clients, None, "a".to_string(), "testnet", Some(read)).unwrap();
    assert_eq!(report.status, "SYNCED");
}

#[test]
fn poll_reports_the_height_of_the_scan() {
    let mut clients = opened(&["a", "b"]);
    let mut heights: AliasMap<u64> = AliasMap::new();
    record_progress(&mut heights, "a", 1234);
    let report = poll(&mut clients, Some(&heights), "a".to_string(), "testnet", None).unwrap();
    assert_eq!(report.network_block_height, 1234);
    let report = poll(&mut clients, Some(&heights), "b".to_string(), "testnet", None).unwrap();
    assert_eq!(report.network_block_height, 0);
    record_progress(&mut heights, "a", 1 << 40);
    let report = poll(&mut clients, Some(&heights), "a".to_string(), "testnet", None).unwrap();
    assert_eq!(report.network_block_height, u32::MAX);
}

#[test]
fn spends_are_reported_with_their_destination() {
    let t = entry_transaction(&entry(Direction::Out), "testnet");
    assert_eq!(t.txid, "dead");
    assert_eq!(t.block_time_in_seconds, 1_700_000_000);
    assert_eq!(t.mined_height, 99);
    assert_eq!(t.value, "250");
    assert_eq!(t.fee, Some("3".to_string()));
    assert_eq!(t.to_address, Some("010203".to_string()));
    assert_eq!(t.memos, vec!["hi"]);
}

#[test]
fn receipts_are_reported_without_a_destination() {
    let t = entry_transaction(&entry(Direction::In), "testnet");
    assert_eq!(t.to_address, None);
    let mut unknown = entry(Direction::Out);
    unknown.counterparty = None;
    unknown.fee = None;
    unknown.block_height = None;
    let t = entry_transaction(&unknown, "testnet");
    assert_eq!(t.to_address, None);
    assert_eq!(t.fee, None);
    assert_eq!(t.mined_height, 0);
    let mut late = entry(Direction::In);
    late.block_height = Some(u64::MAX);
    assert_eq!(entry_transaction(&late, "testnet").mined_height, -1);
}

#[test]
fn destinations_are_written_for_the_network() {
    let mut spend = entry(Direction::Out);
    spend.counterparty = Some(vec![0u8; 43]);
    assert_eq!(
        entry_transaction(&spend, "testnet").to_address,
        Some(
            "tdash1zqqqqqqqqqqqqqqqqqqqqqqqqqqqqqqqqqqqqqqqqqqqqqqqqqqqqqqqqqqqqqqqqqqqqqqqcpr06"
                .to_string()
        )
    );
}

#[test]
fn activity_is_reported_in_order() {
    let mut clients = opened(&["a"]);
    let mut read = reading(false, true, Some(1), false);
    read.activity.push(entry(Direction::In));
    let mut second = entry(Direction::Out);
    second.id = vec![1];
    read.activity.push(second);
    assert_eq!(activity_transactions(&read.activity, "testnet").len(), 2);
    let report = poll(&mut clients, None, "a".to_string(), "testnet", Some(read)).unwrap();
    assert_eq!(report.transactions.len(), 2);
    assert_eq!(report.transactions[0].txid, "dead");
    assert_eq!(report.transactions[1].txid, "01");
    assert_eq!(report.transactions[0].to_address, None);
    assert_eq!(report.transactions[1].to_address, Some("010203".to_string()));
}

#[test]
fn memos_are_text_without_zeros() {
    assert_eq!(entry_memos(&None), Vec::<String>::new());
    assert_eq!(entry_memos(&Some(Vec::new())), Vec::<String>::new());
    assert_eq!(entry_memos(&Some(vec![0u8; 36])), Vec::<String>::new());
    assert_eq!(entry_memos(&Some(vec![0xff, 0xfe])), Vec::<String>::new());
    assert_eq!(entry_memos(&Some(b"\0a\0b\0".to_vec())), vec!["a\0b"]);
    assert_eq!(entry_memos(&Some("gr\u{fc}\u{df}e".as_bytes().to_vec())), vec!["gr\u{fc}\u{df}e"]);
}

#[test]
fn sent_memos_come_back() {
    for memo in ["x", "thirty-two bytes of memo, exactly", "gr\u{fc}\u{df}e \u{1f600}", "a\0b"] {
        let wire = pad_memo(memo);
        assert_eq!(&wire[..memo.len()], memo.as_bytes());
        assert!(wire[memo.len()..].iter().all(|b| *b == 0));
        assert_eq!(entry_memos(&Some(wire.to_vec())), vec![memo]);
    }
    assert_eq!(entry_memos(&Some(pad_memo("").to_vec())), Vec::<String>::new());
    assert_eq!(memo_length("gr\u{fc}\u{df}e"), 7);
}
