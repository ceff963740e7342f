//! The networks that a wallet can be opened on, and what depends on the choice.

use crate::text::same_text;
use vstd::prelude::*;

verus! {

/// The result of every wallet operation: a value, or a message for the host.
pub type WalletResult<T> = Result<T, String>;

/// Human-readable part of shielded addresses, except on the test network.
pub const MAINNET_HRP: &'static str = "dash";

/// Human-readable part of shielded addresses on the test network.
pub const TESTNET_HRP: &'static str = "tdash";

/// The networks that the platform knows.
#[derive(Clone, Copy, Debug, PartialEq, Eq, Structural)]
pub enum Network {
    Mainnet,
    Testnet,
    Devnet,
    Regtest,
}

/// The network of a given name; every name that is not one of the first three stands for a
/// local network.
pub open spec fn named_network(name: Seq<char>) -> Network {
    if name == "mainnet"@ {
        Network::Mainnet
    } else if name == "testnet"@ {
        Network::Testnet
    } else if name == "devnet"@ {
        Network::Devnet
    } else {
        Network::Regtest
    }
}

/// The network of a given name.
pub fn network_from_name(name: &str) -> (r: Network)
    ensures
        r == named_network(name@),
{
    if same_text(name, "mainnet") {
        Network::Mainnet
    } else if same_text(name, "testnet") {
        Network::Testnet
    } else if same_text(name, "devnet") {
        Network::Devnet
    } else {
        Network::Regtest
    }
}

/// The name under which a network appears in messages.
pub open spec fn network_label_text(network: Network) -> Seq<char> {
    match network {
        Network::Mainnet => "Mainnet"@,
        Network::Testnet => "Testnet"@,
        Network::Devnet => "Devnet"@,
        Network::Regtest => "Regtest"@,
    }
}

/// The name under which a network appears in messages.
pub fn network_label(network: Network) -> (r: &'static str)
    ensures
        r@ == network_label_text(network),
{
    match network {
        Network::Mainnet => "Mainnet",
        Network::Testnet => "Testnet",
        Network::Devnet => "Devnet",
        Network::Regtest => "Regtest",
    }
}

/// The registered coin type of a network: 1 for the test network, 5 for any other.
pub open spec fn coin_type_of(network: Seq<char>) -> u32 {
    if network == "testnet"@ {
        1
    } else {
        5
    }
}

/// The registered coin type of a network.
pub fn coin_type(network: &str) -> (r: u32)
    ensures
        r == coin_type_of(network@),
{
    if same_text(network, "testnet") {
        1
    } else {
        5
    }
}

/// The human-readable part of the addresses of a network.
pub open spec fn hrp_of(network: Seq<char>) -> Seq<char> {
    if network == "testnet"@ {
        TESTNET_HRP@
    } else {
        MAINNET_HRP@
    }
}

/// The human-readable part of the addresses of a network, as text.
pub fn hrp_text(network: &str) -> (r: &'static str)
    ensures
        r@ == hrp_of(network@),
{
    if same_text(network, "testnet") {
        TESTNET_HRP
    } else {
        MAINNET_HRP
    }
}

/// Base address of the quorum service of a network; empty where there is none.
pub open spec fn quorum_base_of(network: Network) -> Seq<char> {
    match network {
        Network::Mainnet => "https://quorums.mainnet.networks.dash.org"@,
        Network::Testnet => "https://quorums.testnet.networks.dash.org"@,
        _ => ""@,
    }
}

/// Base address of the quorum service of a network; empty where there is none.
pub fn quorum_base(network: Network) -> (r: &'static str)
    ensures
        r@ == quorum_base_of(network),
{
    match network {
        Network::Mainnet => "https://quorums.mainnet.networks.dash.org",
        Network::Testnet => "https://quorums.testnet.networks.dash.org",
        _ => "",
    }
}

// ---------------------------------------------------------------------------
// Laws
// ---------------------------------------------------------------------------

/// Three names stand for a network of their own each, and every other name stands for a local
/// one.
pub proof fn names_are_told_apart(name: Seq<char>)
    ensures
        named_network(name) == Network::Mainnet <==> name == "mainnet"@,
        named_network(name) == Network::Testnet <==> name == "testnet"@,
        named_network(name) == Network::Devnet <==> name == "devnet"@,
        named_network(name) == Network::Regtest <==> name != "mainnet"@ && name != "testnet"@
            && name != "devnet"@,
{
    reveal_strlit("mainnet");
    reveal_strlit("testnet");
    reveal_strlit("devnet");
    assert("mainnet"@[0] != "testnet"@[0]);
    assert("devnet"@.len() != "mainnet"@.len());
    assert("devnet"@.len() != "testnet"@.len());
}

/// The test network alone has coin type 1 and addresses with `tdash`; any other name has coin
/// type 5 and addresses with `dash`.
pub proof fn test_network_alone_differs(name: Seq<char>)
    ensures
        coin_type_of(name) == 1 <==> name == "testnet"@,
        coin_type_of(name) == 5 <==> name != "testnet"@,
        name == "testnet"@ ==> hrp_of(name) == seq!['t', 'd', 'a', 's', 'h'],
        name != "testnet"@ ==> hrp_of(name) == seq!['d', 'a', 's', 'h'],
{
    reveal_strlit("dash");
    reveal_strlit("tdash");
    assert("dash"@ =~= seq!['d', 'a', 's', 'h']);
    assert("tdash"@ =~= seq!['t', 'd', 'a', 's', 'h']);
}

/// The main network and the test network have a quorum service each, and no other network has
/// one.
pub proof fn two_networks_have_a_service(network: Network)
    ensures
        quorum_base_of(network).len() > 0 <==> network == Network::Mainnet || network
            == Network::Testnet,
        quorum_base_of(Network::Mainnet) == "https://quorums.mainnet.networks.dash.org"@,
        quorum_base_of(Network::Testnet) == "https://quorums.testnet.networks.dash.org"@,
{
    reveal_strlit("");
    reveal_strlit("https://quorums.mainnet.networks.dash.org");
    reveal_strlit("https://quorums.testnet.networks.dash.org");
}

/// Each network appears in messages under a name of its own.
pub proof fn labels_are_told_apart(a: Network, b: Network)
    ensures
        network_label_text(a) == network_label_text(b) <==> a == b,
{
    reveal_strlit("Mainnet");
    reveal_strlit("Testnet");
    reveal_strlit("Devnet");
    reveal_strlit("Regtest");
    assert("Mainnet"@[0] != "Testnet"@[0]);
    assert("Mainnet"@[0] != "Devnet"@[0]);
    assert("Mainnet"@[0] != "Regtest"@[0]);
    assert("Testnet"@[0] != "Devnet"@[0]);
    assert("Testnet"@[0] != "Regtest"@[0]);
    assert("Devnet"@[0] != "Regtest"@[0]);
}

}
