use dash_shielded::activity::{ActivityEntry, Direction};
use dash_shielded::alias_map::AliasMap;
use dash_shielded::client::{register_client, ClientSlot, Clients, PendingProposal};
use dash_shielded::keys::phrase_to_seed;
use dash_shielded::network::WalletResult;
use dash_shielded::poll::{poll, Reading};
use dash_shielded::proposal::{propose_decoded, propose_transfer, TRANSFER_ACTIONS};
use dash_shielded::transfer::{
    claim_proposal, create_transfer, plan_decoded, plan_transfer, receipt_fee, Claim, Receipt,
    TransferAction, TransferEvent, TransferPlan, TransferState, LOOKS,
};

const PHRASE: &str = "abandon abandon abandon abandon abandon abandon abandon abandon abandon abandon abandon about";
const HERE: &str =
    "tdash1zqqqqqqqqqqqqqqqqqqqqqqqqqqqqqqqqqqqqqqqqqqqqqqqqqqqqqqqqqqqqqqqqqqqqqqqcpr06";
const ELSEWHERE: &str =
    "dash1zqqqqqqqqqqqqqqqqqqqqqqqqqqqqqqqqqqqqqqqqqqqqqqqqqqqqqqqqqqqqqqqqqqqqqqs9ac4r";

fn wallet_with(credits: u64) -> Clients<u8, char> {
    let mut clients: Clients<u8, char> = AliasMap::new();
    register_client(
        &mut clients,
        "a".to_string(),
        PHRASE.to_string(),
        "testnet".to_string(),
        4,
        "address".to_string(),
        "key".to_string(),
        7u8,
        'w',
    );
    let reading = Reading {
        syncing: false,
        running: true,
        balance: Some(credits),
        still_syncing: false,
        activity: Vec::new(),
    };
    poll(&mut clients, None, "a".to_string(), "testnet", Some(reading)).unwrap();
    clients
}

fn propose(
    clients: &mut Clients<u8, char>,
    alias: &str,
    amount: &str,
    to: &str,
    memo: Option<&str>,
    fee: WalletResult<u64>,
) -> WalletResult<String> {
    propose_transfer(
        clients,
        alias.to_string(),
        amount.to_string(),
        to.to_string(),
        memo.map(|m| m.to_string()),
        fee,
    )
}

fn refusal(alias: &str, amount: &str, to: &str, memo: Option<&str>, fee: WalletResult<u64>) -> String {
    let mut clients = wallet_with(100);
    let message = propose(&mut clients, alias, amount, to, memo, fee).unwrap_err();
    assert_eq!(clients.get("a").unwrap().proposals.len(), 0);
    message
}

fn entry(direction: Direction, id: &[u8]) -> ActivityEntry {
    ActivityEntry {
        id: id.to_vec(),
        direction,
        amount: 1,
        memo: None,
        created_at_ms: 0,
        block_height: None,
        fee: None,
        counterparty: None,
    }
}

fn claim(to: &str, amount: &str, memo: &str) -> Claim {
    Claim {
        proposal: PendingProposal {
            to_address: to.to_string(),
            amount_credits: amount.to_string(),
            memo: memo.to_string(),
        },
        account: 4,
        network: "testnet".to_string(),
    }
}

fn plan() -> TransferPlan {
    plan_transfer(claim(HERE, "60", "hi"), PHRASE).unwrap()
}

fn looking(looks: u32, before: Vec<Vec<u8>>) -> TransferState {
    TransferState::Looking {
        receipt: Receipt { amount: 60, fee: 2, to_address: HERE.to_string() },
        before,
        looks,
    }
}

#[test]
fn transfers_are_quoted() {
    let mut clients = wallet_with(100);
    assert_eq!(
        propose(&mut clients, "a", "60", HERE, Some("hi"), Ok(2)),
        Ok("{\"proposalId\":\"p-1\",\"feeCredits\":\"2\"}".to_string())
    );
    assert_eq!(
        propose(&mut clients, "a", "+98", HERE, None, Ok(2)),
        Ok("{\"proposalId\":\"p-2\",\"feeCredits\":\"2\"}".to_string())
    );
    let proposals = &clients.get("a").unwrap().proposals;
    let first = proposals.get("p-1").unwrap();
    assert_eq!(first.to_address, HERE);
    assert_eq!(first.amount_credits, "60");
    assert_eq!(first.memo, "hi");
    let second = proposals.get("p-2").unwrap();
    assert_eq!(second.amount_credits, "+98");
    assert_eq!(second.memo, "");
    assert_eq!(TRANSFER_ACTIONS, 2);
}

#[test]
fn refused_transfers_say_why() {
    let long = "x".repeat(33);
    assert_eq!(refusal("a", "1", HERE, Some(&long), Ok(2)), "memo exceeds 32 UTF-8 bytes");
    assert_eq!(
        refusal("a", "1", HERE, Some(&"\u{fc}".repeat(17)), Ok(2)),
        "memo exceeds 32 UTF-8 bytes"
    );
    for amount in ["", "x", "-1", "1.5", "18446744073709551616"] {
        assert_eq!(
            refusal("a", amount, HERE, None, Ok(2)),
            "amount must be a whole number of credits"
        );
    }
    assert_eq!(refusal("a", "0", HERE, None, Ok(2)), "amount must be greater than zero");
    assert_eq!(refusal("x", "1", HERE, None, Ok(2)), "unknown alias");
    assert_eq!(
        refusal("a", "1", ELSEWHERE, None, Ok(2)),
        "address is for a different network: expected tdash, got dash"
    );
    assert_eq!(
        refusal("a", "1", "nonsense", None, Ok(2)),
        bech32::decode("nonsense").unwrap_err().to_string()
    );
    assert_eq!(refusal("a", "1", HERE, None, Err("no fee".to_string())), "no fee");
    assert_eq!(
        refusal("a", "99", HERE, None, Ok(2)),
        "insufficient funds: 100 credits available, need 99 plus 2 fee"
    );
}

#[test]
fn first_reason_is_told() {
    let long = "x".repeat(33);
    let no_fee: WalletResult<u64> = Err("no fee".to_string());
    assert_eq!(
        refusal("x", "x", "nonsense", Some(&long), no_fee.clone()),
        "memo exceeds 32 UTF-8 bytes"
    );
    assert_eq!(refusal("x", "0", "nonsense", None, no_fee.clone()), "amount must be greater than zero");
    assert_eq!(refusal("x", "5", "nonsense", None, no_fee.clone()), "unknown alias");
    assert_eq!(
        refusal("a", "5", ELSEWHERE, None, no_fee),
        "address is for a different network: expected tdash, got dash"
    );
}

#[test]
fn memos_of_32_bytes_are_taken() {
    let mut clients = wallet_with(100);
    assert!(propose(&mut clients, "a", "1", HERE, Some(&"\u{fc}".repeat(16)), Ok(2)).is_ok());
}

#[test]
fn all_credits_can_be_spent() {
    let mut clients = wallet_with(100);
    assert!(propose(&mut clients, "a", "98", HERE, None, Ok(2)).is_ok());
    assert!(propose(&mut clients, "a", "99", HERE, None, Ok(2)).is_err());
    let mut rich = wallet_with(u64::MAX - 1);
    assert_eq!(
        propose(&mut rich, "a", "18446744073709551615", HERE, None, Ok(2)),
        Err("insufficient funds: 18446744073709551614 credits available, need 18446744073709551615 plus 2 fee".to_string())
    );
    let mut full = wallet_with(u64::MAX);
    assert!(propose(&mut full, "a", "18446744073709551615", HERE, None, Ok(2)).is_ok());
}

#[test]
fn unreadable_credits_count_as_zero() {
    let mut clients = wallet_with(100);
    let mut slot: ClientSlot<u8, char> = clients.remove("a").unwrap();
    slot.available_credits = "many".to_string();
    clients.insert("a".to_string(), slot);
    assert_eq!(
        propose(&mut clients, "a", "1", HERE, None, Ok(2)),
        Err("insufficient funds: 0 credits available, need 1 plus 2 fee".to_string())
    );
}

#[test]
fn decoded_recipients_are_quoted() {
    let mut clients = wallet_with(100);
    let mut data = vec![0x10u8];
    data.extend_from_slice(&[3u8; 43]);
    let proposal = PendingProposal {
        to_address: "shown".to_string(),
        amount_credits: "1".to_string(),
        memo: String::new(),
    };
    let decoded = Ok(("tdash".to_string(), data));
    assert_eq!(
        propose_decoded(&mut clients, "a", proposal, &decoded, Ok(0)),
        Ok("{\"proposalId\":\"p-1\",\"feeCredits\":\"0\"}".to_string())
    );
}

#[test]
fn proposals_are_claimed_once() {
    let mut clients = wallet_with(100);
    propose(&mut clients, "a", "60", HERE, Some("hi"), Ok(2)).unwrap();
    propose(&mut clients, "a", "70", HERE, None, Ok(2)).unwrap();
    let claim = claim_proposal(&mut clients, "a", "p-1").ok().unwrap();
    assert_eq!(claim.proposal.amount_credits, "60");
    assert_eq!(claim.proposal.to_address, HERE);
    assert_eq!(claim.proposal.memo, "hi");
    assert_eq!(claim.account, 4);
    assert_eq!(claim.network, "testnet");
    assert_eq!(claim_proposal(&mut clients, "a", "p-1").err(), Some("unknown proposal".to_string()));
    assert_eq!(clients.get("a").unwrap().proposals.len(), 1);
    assert!(claim_proposal(&mut clients, "a", "p-2").is_ok());
    assert_eq!(claim_proposal(&mut clients, "x", "p-2").err(), Some("unknown alias".to_string()));
}

#[test]
fn identifiers_follow_the_number_of_proposals() {
    let mut clients = wallet_with(100);
    propose(&mut clients, "a", "1", HERE, None, Ok(0)).unwrap();
    propose(&mut clients, "a", "2", HERE, None, Ok(0)).unwrap();
    assert!(claim_proposal(&mut clients, "a", "p-1").is_ok());
    assert_eq!(
        propose(&mut clients, "a", "3", HERE, None, Ok(0)),
        Ok("{\"proposalId\":\"p-2\",\"feeCredits\":\"0\"}".to_string())
    );
    assert_eq!(clients.get("a").unwrap().proposals.get("p-2").unwrap().amount_credits, "3");
}

#[test]
fn wallets_without_handles_lose_the_proposal() {
    for lost in [true, false] {
        let mut clients = wallet_with(100);
        propose(&mut clients, "a", "1", HERE, None, Ok(0)).unwrap();
        let mut slot: ClientSlot<u8, char> = clients.remove("a").unwrap();
        if lost {
            slot.manager = None;
        } else {
            slot.wallet = None;
        }
        clients.insert("a".to_string(), slot);
        assert_eq!(
            claim_proposal(&mut clients, "a", "p-1").err(),
            Some("wallet not initialized".to_string())
        );
        assert_eq!(clients.get("a").unwrap().proposals.len(), 0);
    }
}

#[test]
fn plans_hold_what_the_spend_needs() {
    let plan = plan();
    assert_eq!(plan.account, 4);
    assert_eq!(plan.recipient, [0u8; 43]);
    assert_eq!(plan.amount, 60);
    assert_eq!(Ok(plan.seed), phrase_to_seed(PHRASE));
    assert_eq!(&plan.memo[..2], b"hi");
    assert_eq!(plan.memo[2..], [0u8; 34]);
    assert_eq!(plan.to_address, HERE);
}

#[test]
fn plans_fail_as_the_first_part_fails() {
    assert_eq!(
        plan_transfer(claim(ELSEWHERE, "x", ""), "nonsense").err(),
        Some("address is for a different network: expected tdash, got dash".to_string())
    );
    assert_eq!(
        plan_transfer(claim(HERE, "x", ""), "nonsense").err(),
        Some("amount must be a whole number of credits".to_string())
    );
    assert_eq!(
        plan_transfer(claim(HERE, "1", ""), "nonsense").err(),
        phrase_to_seed("nonsense").err()
    );
    let decoded = Err("no".to_string());
    assert_eq!(
        plan_decoded(claim(HERE, "1", ""), &decoded, Ok([0u8; 64])).err(),
        Some("no".to_string())
    );
    let mut data = vec![0x10u8];
    data.extend_from_slice(&[3u8; 43]);
    let decoded = Ok(("tdash".to_string(), data));
    let plan = plan_decoded(claim(HERE, "1", ""), &decoded, Ok([5u8; 64])).ok().unwrap();
    assert_eq!(plan.recipient, [3u8; 43]);
    assert_eq!(plan.seed, [5u8; 64]);
    assert_eq!(plan.memo, [0u8; 36]);
    assert_eq!(
        plan_decoded(claim(HERE, "1", ""), &decoded, Err("why".to_string())).err(),
        Some("why".to_string())
    );
}

#[test]
fn transfers_go_through() {
    let state = TransferState::Planned { plan: plan(), fee: receipt_fee(Ok(2)) };
    let (state, action) = create_transfer(state, TransferEvent::Before(vec![vec![1], vec![2]]));
    match action {
        TransferAction::Submit { account, recipient, amount, seed, memo } => {
            assert_eq!(account, 4);
            assert_eq!(recipient, [0u8; 43]);
            assert_eq!(amount, 60);
            assert_eq!(Ok(seed), phrase_to_seed(PHRASE));
            assert_eq!(&memo[..2], b"hi");
        }
        _ => panic!("nothing to submit"),
    }
    let (state, action) = create_transfer(state, TransferEvent::Submitted(Ok(())));
    assert!(matches!(action, TransferAction::Look { pause: false }));
    let (state, action) = create_transfer(state, TransferEvent::Looked(None));
    assert!(matches!(action, TransferAction::Look { pause: true }));
    let (state, action) = create_transfer(
        state,
        TransferEvent::Looked(Some(vec![entry(Direction::Out, &[1]), entry(Direction::In, &[3])])),
    );
    assert!(matches!(action, TransferAction::Look { pause: true }));
    assert!(matches!(state, TransferState::Looking { looks: 2, .. }));
    let (state, action) = create_transfer(
        state,
        TransferEvent::Looked(Some(vec![
            entry(Direction::In, &[3]),
            entry(Direction::Out, &[2]),
            entry(Direction::Out, &[0xbe, 0xef]),
            entry(Direction::Out, &[5]),
        ])),
    );
    assert!(matches!(state, TransferState::Ended));
    match action {
        TransferAction::Finish(answer) => assert_eq!(
            answer,
            format!(
                "{{\"txid\":\"beef\",\"amountCredits\":\"60\",\"feeCredits\":\"2\",\"toAddress\":\"{}\"}}",
                HERE
            )
        ),
        _ => panic!("no answer"),
    }
}

#[test]
fn transfers_fail_with_a_message() {
    let failed = |action: TransferAction| match action {
        TransferAction::Fail(message) => message,
        _ => panic!("no failure"),
    };
    let state = TransferState::Planned { plan: plan(), fee: 0 };
    let (state, action) = create_transfer(state, TransferEvent::NoCoordinator);
    assert!(matches!(state, TransferState::Ended));
    assert_eq!(failed(action), "shielded coordinator missing");
    let state = TransferState::Planned { plan: plan(), fee: 0 };
    let (state, _) = create_transfer(state, TransferEvent::Before(Vec::new()));
    let (state, action) = create_transfer(state, TransferEvent::Submitted(Err("no".to_string())));
    assert!(matches!(state, TransferState::Ended));
    assert_eq!(failed(action), "shielded transfer failed: no");
    let empty = TransferEvent::Looked(Some(vec![entry(Direction::Out, &[])]));
    let (_, action) = create_transfer(looking(0, Vec::new()), empty);
    assert_eq!(failed(action), "transfer submitted but no outgoing activity was recorded");
}

#[test]
fn looking_ends_after_a_while() {
    let mut state = looking(0, Vec::new());
    let mut looks = 0;
    loop {
        let (next, action) = create_transfer(state, TransferEvent::Looked(None));
        looks += 1;
        if let TransferAction::Fail(message) = action {
            assert_eq!(message, "transfer submitted but no outgoing activity was recorded");
            break;
        }
        state = next;
    }
    assert_eq!(looks, 40);
    assert_eq!(LOOKS, 40);
}

#[test]
fn unknown_fees_are_told_as_zero() {
    assert_eq!(receipt_fee(Ok(7)), 7);
    assert_eq!(receipt_fee(Err("no".to_string())), 0);
}

#[test]
fn answers_are_escaped() {
    let state = TransferState::Looking {
        receipt: Receipt {
            amount: 1,
            fee: 0,
            to_address: "\"\\/\u{8}\t\n\u{c}\r\u{1}\u{1f}\u{7f}\u{e9}".to_string(),
        },
        before: Vec::new(),
        looks: 39,
    };
    let (_, action) = create_transfer(
        state,
        TransferEvent::Looked(Some(vec![entry(Direction::Out, &[0])])),
    );
    match action {
        TransferAction::Finish(answer) => assert_eq!(
            answer,
            "{\"txid\":\"00\",\"amountCredits\":\"1\",\"feeCredits\":\"0\",\"toAddress\":\"\\\"\\\\/\\b\\t\\n\\f\\r\\u0001\\u001f\u{7f}\u{e9}\"}"
        ),
        _ => panic!("no answer"),
    }
}
