use dash_shielded::address::decode_shielded_address;
use dash_shielded::keys::{derive_address_and_fvk, phrase_to_seed};
use dash_shielded::masternodes::Fetched;
use dash_shielded::network::Network;
use dash_shielded::opening::{
    accepted_endpoints, from_address, from_hosts, from_seed, initialize, store_directory,
    InitAction, InitEvent, InitRequest, InitStage, InitState, NOTES_FILE, STORE_ROOT, WALLET_FILE,
};

const PHRASE: &str = "abandon abandon abandon abandon abandon abandon abandon abandon abandon abandon abandon about";

fn request(network: &str, mnemonic: &str) -> InitRequest {
    InitRequest {
        mnemonic_seed: mnemonic.to_string(),
        account: 2,
        alias: "main".to_string(),
        network_name: network.to_string(),
        default_host: "localhost".to_string(),
        default_port: 3000,
    }
}

fn message(action: InitAction) -> String {
    match action {
        InitAction::Fail(text) => text,
        _ => panic!("no failure"),
    }
}

fn endpoints_to_try(action: InitAction) -> Vec<String> {
    match action {
        InitAction::TryEndpoints(uris) => uris,
        _ => panic!("no endpoints to try"),
    }
}

#[test]
fn wallet_is_opened_over_masternodes() {
    let request = request("testnet", PHRASE);
    let (state, action) = initialize(&request, InitState::Start, InitEvent::Begin);
    match action {
        InitAction::ListMasternodes(url) => {
            assert_eq!(url, "https://quorums.testnet.networks.dash.org/masternodes")
        }
        _ => panic!("no list"),
    }
    let body = r#"{"data": [
        {"address": "1.1.1.1:19999", "status": "ENABLED", "versionCheck": "success"},
        {"address": "bad host:19999", "status": "ENABLED", "versionCheck": "success"},
        {"address": "2.2.2.2:19999", "status": "ENABLED", "versionCheck": "success"}
    ]}"#;
    let (state, action) =
        initialize(&request, state, InitEvent::Listed(Fetched::Body(body.to_string())));
    assert_eq!(
        endpoints_to_try(action),
        vec!["https://1.1.1.1:443", "https://bad host:443", "https://2.2.2.2:443"]
    );
    let (state, action) = initialize(&request, state, InitEvent::Tried(vec![true, false, true]));
    match action {
        InitAction::OpenStores { network, endpoints, directory } => {
            assert_eq!(network, Network::Testnet);
            assert_eq!(endpoints, vec!["https://1.1.1.1:443", "https://2.2.2.2:443"]);
            assert_eq!(directory, vec!["dash-shielded", "main"]);
        }
        _ => panic!("no stores"),
    }
    let (state, action) = initialize(&request, state, InitEvent::Opened);
    let seed = match action {
        InitAction::CreateWallet { network, seed } => {
            assert_eq!(network, Network::Testnet);
            seed
        }
        _ => panic!("no wallet"),
    };
    assert_eq!(phrase_to_seed(PHRASE), Ok(seed));
    let (state, action) = initialize(&request, state, InitEvent::Created { coordinator: true });
    match action {
        InitAction::BindShielded { seed: bound, account } => {
            assert_eq!(bound, seed);
            assert_eq!(account, 2);
        }
        _ => panic!("no binding"),
    }
    let (state, action) = initialize(&request, state, InitEvent::Bound);
    assert!(matches!(action, InitAction::ReadAddress(2)));
    let (state, action) = initialize(&request, state, InitEvent::Address(Some([9u8; 43])));
    assert!(matches!(state, InitState::Ended));
    match action {
        InitAction::Register { address, viewing_key } => {
            assert_eq!(decode_shielded_address(&address, "testnet"), Ok([9u8; 43]));
            let (_, expected) = derive_address_and_fvk(PHRASE, "testnet", 2).unwrap();
            assert_eq!(viewing_key, expected);
        }
        _ => panic!("no wallet to enter"),
    }
}

#[test]
fn networks_without_a_service_use_what_the_host_supplies() {
    for network in ["devnet", "regtest", "other"] {
        let (state, action) =
            initialize(&request(network, PHRASE), InitState::Start, InitEvent::Begin);
        assert!(matches!(state, InitState::Trying { last: true, .. }));
        assert_eq!(endpoints_to_try(action), vec!["http://localhost:3000"]);
    }
    let (_, action) = initialize(&request("mainnet", PHRASE), InitState::Start, InitEvent::Begin);
    match action {
        InitAction::ListMasternodes(url) => {
            assert_eq!(url, "https://quorums.mainnet.networks.dash.org/masternodes")
        }
        _ => panic!("no list"),
    }
}

#[test]
fn failed_or_empty_lists_fall_back() {
    let answers = [
        Fetched::Unreachable("refused".to_string()),
        Fetched::Unreadable("cut".to_string()),
        Fetched::Body("no json".to_string()),
        Fetched::Body("{\"data\":[]}".to_string()),
    ];
    for answer in answers {
        let (state, action) =
            initialize(&request("mainnet", PHRASE), InitState::Listing, InitEvent::Listed(answer));
        assert!(matches!(state, InitState::Trying { last: true, .. }));
        assert_eq!(endpoints_to_try(action), vec!["http://localhost:3000"]);
    }
}

#[test]
fn malformed_endpoints_fall_back_once() {
    let request = request("mainnet", PHRASE);
    let (state, _) = from_hosts(&request, Ok(vec!["bad host".to_string()]));
    assert!(matches!(state, InitState::Trying { last: false, .. }));
    let (state, action) = initialize(&request, state, InitEvent::Tried(vec![false]));
    assert_eq!(endpoints_to_try(action), vec!["http://localhost:3000"]);
    let (state, action) = initialize(&request, state, InitEvent::Tried(vec![false]));
    assert!(matches!(state, InitState::Ended));
    assert_eq!(message(action), "no DAPI endpoints for Mainnet (host localhost:3000)");
}

#[test]
fn wallets_are_on_the_network_of_the_name() {
    let names = [
        ("mainnet", Network::Mainnet),
        ("testnet", Network::Testnet),
        ("devnet", Network::Devnet),
        ("other", Network::Regtest),
    ];
    for (name, expected) in names {
        let request = request(name, PHRASE);
        let state = InitState::Trying { uris: vec!["http://h:1".to_string()], last: true };
        match initialize(&request, state, InitEvent::Tried(vec![true])).1 {
            InitAction::OpenStores { network, .. } => assert_eq!(network, expected),
            _ => panic!("no stores"),
        }
        match initialize(&request, InitState::Opening, InitEvent::Opened).1 {
            InitAction::CreateWallet { network, .. } => assert_eq!(network, expected),
            _ => panic!("no wallet"),
        }
    }
}

#[test]
fn endpoints_are_kept_in_order() {
    let uris = vec!["a".to_string(), "b".to_string(), "c".to_string()];
    assert_eq!(accepted_endpoints(&uris, &vec![true, false, true]), vec!["a", "c"]);
    assert_eq!(accepted_endpoints(&uris, &vec![false, true]), vec!["b"]);
    assert_eq!(accepted_endpoints(&uris, &Vec::new()), Vec::<String>::new());
}

#[test]
fn stores_are_apart() {
    assert_eq!(store_directory("a"), vec![STORE_ROOT, "a"]);
    assert_ne!(store_directory("a"), store_directory("b"));
    assert_ne!(WALLET_FILE, NOTES_FILE);
}

#[test]
fn bad_mnemonics_are_refused() {
    let (state, action) =
        initialize(&request("devnet", "nonsense"), InitState::Opening, InitEvent::Opened);
    assert!(matches!(state, InitState::Ended));
    let e = phrase_to_seed("nonsense").unwrap_err();
    assert_eq!(message(action), format!("bad mnemonic: {}", e));
    let (_, action) = from_seed(Network::Devnet, Err("why".to_string()));
    assert_eq!(message(action), "bad mnemonic: why");
    let (state, action) = from_seed(Network::Devnet, Ok([3u8; 64]));
    assert!(matches!(state, InitState::Creating { seed } if seed == [3u8; 64]));
    match action {
        InitAction::CreateWallet { network, seed } => {
            assert_eq!(network, Network::Devnet);
            assert_eq!(seed, [3u8; 64]);
        }
        _ => panic!("no wallet"),
    }
}

#[test]
fn missing_pieces_are_told() {
    let request = request("devnet", PHRASE);
    let (_, action) = initialize(
        &request,
        InitState::Creating { seed: [0u8; 64] },
        InitEvent::Created { coordinator: false },
    );
    assert_eq!(message(action), "shielded coordinator missing after configure_shielded");
    let (_, action) = initialize(&request, InitState::Addressing, InitEvent::Address(None));
    assert_eq!(
        message(action),
        "shielded_default_address returned none (bind_shielded did not take)"
    );
}

#[test]
fn failed_stages_are_told() {
    let stages = [
        (InitStage::ContextProvider, "trusted context provider: e"),
        (InitStage::Sdk, "build sdk: e"),
        (InitStage::DocumentDirectory, "e"),
        (InitStage::StoreDirectory("\"/d/x\"".to_string()), "mkdir \"/d/x\": e"),
        (InitStage::WalletStore, "open wallet store: e"),
        (InitStage::ConfigureShielded, "configure_shielded: e"),
    ];
    let request = request("devnet", PHRASE);
    for (stage, expected) in stages {
        let (state, action) =
            initialize(&request, InitState::Opening, InitEvent::Failed(stage, "e".to_string()));
        assert!(matches!(state, InitState::Ended));
        assert_eq!(message(action), expected);
    }
    let (_, action) = initialize(
        &request,
        InitState::Creating { seed: [0u8; 64] },
        InitEvent::Failed(InitStage::CreateWallet, "e".to_string()),
    );
    assert_eq!(message(action), "create_wallet_from_seed_bytes: e");
    let (_, action) = initialize(
        &request,
        InitState::Binding,
        InitEvent::Failed(InitStage::BindShielded, "e".to_string()),
    );
    assert_eq!(message(action), "bind_shielded: e");
}

#[test]
fn missing_viewing_key_is_left_empty() {
    let (_, action) = from_address(&[1u8; 43], "mainnet", Err("no".to_string()));
    match action {
        InitAction::Register { address, viewing_key } => {
            assert_eq!(decode_shielded_address(&address, "mainnet"), Ok([1u8; 43]));
            assert_eq!(viewing_key, "");
        }
        _ => panic!("no wallet to enter"),
    }
    let derived = Ok(("ignored".to_string(), "key".to_string()));
    match from_address(&[1u8; 43], "mainnet", derived).1 {
        InitAction::Register { viewing_key, .. } => assert_eq!(viewing_key, "key"),
        _ => panic!("no wallet to enter"),
    }
}
