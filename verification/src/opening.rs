//! Opening a wallet: which endpoints to use, which seed both layers are given, and what is
//! entered when all of it has succeeded.

use crate::address::encode_raw_orchard_address;
use crate::keys::{derive_address_and_fvk, phrase_to_seed, seed_or_message};
use crate::masternodes::{
    fallback_uri, fetch_active_masternodes, masternodes_url, node_uris, Fetched,
};
use crate::network::{network_from_name, network_label, quorum_base, Network, WalletResult};
use crate::text::{decimal_text, joined};
use vstd::prelude::*;

verus! {

/// The directory below the host's document directory that holds the wallets.
pub const STORE_ROOT: &'static str = "dash-shielded";

/// The file that holds the state of a wallet.
pub const WALLET_FILE: &'static str = "wallet.db";

/// The file that holds the notes of a wallet.
pub const NOTES_FILE: &'static str = "shielded.db";

/// What the host asks for when it opens a wallet.
pub struct InitRequest {
    pub mnemonic_seed: String,
    pub account: u32,
    pub alias: String,
    pub network_name: String,
    pub default_host: String,
    pub default_port: u32,
}

/// How far a wallet is from being open.
pub enum InitState {
    /// Nothing was done.
    Start,
    /// The masternodes are being listed.
    Listing,
    /// These endpoints are being tried for their form; no others will be if it is the last
    /// time.
    Trying { uris: Vec<String>, last: bool },
    /// The connection and the stores are being opened.
    Opening,
    /// The wallet is being created from the seed.
    Creating { seed: [u8; 64] },
    /// The shielded keys are being bound.
    Binding,
    /// The receive address is being read.
    Addressing,
    /// The wallet is open, or will not be.
    Ended,
}

/// Where opening a wallet can fail outside.
pub enum InitStage {
    ContextProvider,
    Sdk,
    DocumentDirectory,
    /// Making the directory that is named.
    StoreDirectory(String),
    WalletStore,
    ConfigureShielded,
    CreateWallet,
    BindShielded,
}

/// What happened outside.
pub enum InitEvent {
    /// The host has asked.
    Begin,
    /// The quorum service has answered, or has not.
    Listed(Fetched),
    /// Which of the endpoints are well formed, in the same order.
    Tried(Vec<bool>),
    /// The connection and the stores are open.
    Opened,
    /// The wallet was created, and whether it has a coordinator.
    Created { coordinator: bool },
    /// The shielded keys were bound.
    Bound,
    /// The raw receive address, if there is one.
    Address(Option<[u8; 43]>),
    /// A stage failed.
    Failed(InitStage, String),
}

/// What is to be done next.
pub enum InitAction {
    /// Get the list of masternodes from an address.
    ListMasternodes(String),
    /// Find out which endpoints are well formed.
    TryEndpoints(Vec<String>),
    /// Connect to the endpoints of a network, and open the stores in a directory below the host's
    /// document directory.
    OpenStores { network: Network, endpoints: Vec<String>, directory: Vec<String> },
    /// Create the wallet on a network from a seed.
    CreateWallet { network: Network, seed: [u8; 64] },
    /// Bind the shielded keys of an account of a seed.
    BindShielded { seed: [u8; 64], account: u32 },
    /// Read the receive address of an account.
    ReadAddress(u32),
    /// Enter the wallet.
    Register { address: String, viewing_key: String },
    /// Tell the host that the wallet could not be opened.
    Fail(String),
}

// ---------------------------------------------------------------------------
// Model
// ---------------------------------------------------------------------------

/// What the message about a failed stage begins with.
pub open spec fn stage_text(stage: InitStage) -> Seq<char> {
    match stage {
        InitStage::ContextProvider => "trusted context provider: "@,
        InitStage::Sdk => "build sdk: "@,
        InitStage::DocumentDirectory => ""@,
        InitStage::StoreDirectory(path) => "mkdir "@ + path@ + ": "@,
        InitStage::WalletStore => "open wallet store: "@,
        InitStage::ConfigureShielded => "configure_shielded: "@,
        InitStage::CreateWallet => "create_wallet_from_seed_bytes: "@,
        InitStage::BindShielded => "bind_shielded: "@,
    }
}

/// The message about a network without endpoints.
pub open spec fn no_endpoints_text(request: InitRequest) -> Seq<char> {
    "no DAPI endpoints for "@ + crate::network::network_label_text(named(request)) + " (host "@ + request.default_host@ + ":"@ + crate::text::decimal(
        request.default_port as nat,
    ) + ")"@
}

/// The well-formed ones of some endpoints, in order.
pub open spec fn accepted(uris: Seq<Seq<char>>, well_formed: Seq<bool>) -> Seq<Seq<char>>
    decreases uris.len(),
{
    if uris.len() == 0 {
        Seq::empty()
    } else {
        let front = accepted(uris.drop_last(), well_formed);
        if uris.len() <= well_formed.len() && well_formed[uris.len() - 1] {
            front.push(uris.last())
        } else {
            front
        }
    }
}

/// The directory of a wallet below the host's document directory, as a list of names.
pub open spec fn store_directory_names(alias: Seq<char>) -> Seq<Seq<char>> {
    seq![STORE_ROOT@, alias]
}

/// The endpoint that the host supplies.
pub open spec fn supplied_uri(request: InitRequest) -> Seq<char> {
    crate::masternodes::fallback_uri_text(request.default_host@, request.default_port)
}

/// The network that is asked for.
pub open spec fn named(request: InitRequest) -> Network {
    crate::network::named_network(request.network_name@)
}

/// The quorum service of the network that is asked for; empty where there is none.
pub open spec fn service_of(request: InitRequest) -> Seq<char> {
    crate::network::quorum_base_of(named(request))
}

/// Tells whether a step ends with a message.
pub open spec fn refuses(next: InitState, action: InitAction, message: Seq<char>) -> bool {
    &&& next is Ended
    &&& action is Fail
    &&& action->Fail_0@ == message
}

/// Tells whether a step goes on to try endpoints.
pub open spec fn tries(next: InitState, action: InitAction, uris: Seq<Seq<char>>, last: bool) -> bool {
    &&& next is Trying
    &&& next->last == last
    &&& crate::text::texts_view(next->uris@) == uris
    &&& action is TryEndpoints
    &&& crate::text::texts_view(action->TryEndpoints_0@) == uris
}

/// Tells whether a step goes on to try what the host supplies, and nothing after that.
pub open spec fn falls_back(request: InitRequest, next: InitState, action: InitAction) -> bool {
    tries(next, action, seq![supplied_uri(request)], true)
}

/// The step that follows when the stores are open: the seed of the mnemonic decides.
pub open spec fn after_opening(
    network: Network,
    seed: Result<Seq<u8>, Seq<char>>,
    next: InitState,
    action: InitAction,
) -> bool {
    match seed {
        Err(message) => refuses(next, action, "bad mnemonic: "@ + message),
        Ok(bytes) => {
            &&& next is Creating
            &&& next->seed@ == bytes
            &&& action is CreateWallet
            &&& action->CreateWallet_network == network
            &&& action->CreateWallet_seed@ == bytes
        },
    }
}

/// The step that follows when the raw receive address is known. A viewing key that cannot be
/// derived is left empty.
pub open spec fn after_addressing(
    raw: Seq<u8>,
    network: Seq<char>,
    viewing_key: Result<Seq<char>, Seq<char>>,
    next: InitState,
    action: InitAction,
) -> bool {
    &&& next is Ended
    &&& action is Register
    &&& action->address@ == crate::address::address_text(raw, network)
    &&& action->viewing_key@ == match viewing_key {
        Ok(key) => key,
        Err(_) => Seq::empty(),
    }
}

/// Tells whether an event can happen while a wallet is in a state.
pub open spec fn expects(state: InitState, event: InitEvent) -> bool {
    match (state, event) {
        (InitState::Start, InitEvent::Begin) => true,
        (InitState::Listing, InitEvent::Listed(_)) => true,
        (InitState::Trying { .. }, InitEvent::Tried(_)) => true,
        (InitState::Opening, InitEvent::Opened) => true,
        (InitState::Opening, InitEvent::Failed(stage, _)) => !(stage is CreateWallet) && !(
        stage is BindShielded),
        (InitState::Creating { .. }, InitEvent::Created { .. }) => true,
        (InitState::Creating { .. }, InitEvent::Failed(stage, _)) => stage is CreateWallet,
        (InitState::Binding, InitEvent::Bound) => true,
        (InitState::Binding, InitEvent::Failed(stage, _)) => stage is BindShielded,
        (InitState::Addressing, InitEvent::Address(_)) => true,
        _ => false,
    }
}

/// Tells which state and which action follow on a state and an event.
pub open spec fn init_step(
    request: InitRequest,
    state: InitState,
    event: InitEvent,
    next: InitState,
    action: InitAction,
) -> bool {
    match (state, event) {
        (_, InitEvent::Failed(stage, message)) => refuses(
            next,
            action,
            stage_text(stage) + message@,
        ),
        (InitState::Start, InitEvent::Begin) => if service_of(request).len() == 0 {
            falls_back(request, next, action)
        } else {
            &&& next is Listing
            &&& action is ListMasternodes
            &&& action->ListMasternodes_0@ == crate::masternodes::masternodes_url_text(
                service_of(request),
            )
        },
        (InitState::Listing, InitEvent::Listed(fetched)) => {
            match crate::masternodes::fetched_hosts(fetched) {
                Ok(hosts) => if hosts.len() > 0 {
                    tries(next, action, crate::masternodes::node_uris_text(hosts), false)
                } else {
                    falls_back(request, next, action)
                },
                Err(_) => falls_back(request, next, action),
            }
        },
        (InitState::Trying { uris, last }, InitEvent::Tried(well_formed)) => {
            let good = accepted(crate::text::texts_view(uris@), well_formed@);
            if good.len() > 0 {
                &&& next is Opening
                &&& action is OpenStores
                &&& action->OpenStores_network == named(request)
                &&& crate::text::texts_view(action->endpoints@) == good
                &&& crate::text::texts_view(action->directory@) == store_directory_names(
                    request.alias@,
                )
            } else if last {
                refuses(next, action, no_endpoints_text(request))
            } else {
                falls_back(request, next, action)
            }
        },
        (InitState::Opening, InitEvent::Opened) => after_opening(
            named(request),
            crate::keys::bip39_seed(request.mnemonic_seed@, ""@),
            next,
            action,
        ),
        (InitState::Creating { seed }, InitEvent::Created { coordinator }) => if coordinator {
            &&& next is Binding
            &&& action == (InitAction::BindShielded { seed, account: request.account })
        } else {
            refuses(next, action, "shielded coordinator missing after configure_shielded"@)
        },
        (InitState::Binding, InitEvent::Bound) => {
            &&& next is Addressing
            &&& action == InitAction::ReadAddress(request.account)
        },
        (InitState::Addressing, InitEvent::Address(raw)) => match raw {
            Some(bytes) => after_addressing(
                bytes@,
                request.network_name@,
                crate::keys::viewing_key_text(
                    request.mnemonic_seed@,
                    request.network_name@,
                    request.account,
                ),
                next,
                action,
            ),
            None => refuses(
                next,
                action,
                "shielded_default_address returned none (bind_shielded did not take)"@,
            ),
        },
        _ => true,
    }
}

// ---------------------------------------------------------------------------
// Steps
// ---------------------------------------------------------------------------

/// The directory of a wallet below the host's document directory, as a list of names.
pub fn store_directory(alias: &str) -> (r: Vec<String>)
    ensures
        crate::text::texts_view(r@) == store_directory_names(alias@),
{
    let mut names: Vec<String> = Vec::new();
    names.push(STORE_ROOT.to_string());
    names.push(alias.to_string());
    names
}

/// Copies texts.
fn copied(texts: &Vec<String>) -> (r: Vec<String>)
    ensures
        crate::text::texts_view(r@) == crate::text::texts_view(texts@),
{
    let mut out: Vec<String> = Vec::new();
    let mut i: usize = 0;
    while i < texts.len()
        invariant
            i <= texts@.len(),
            out@.len() == i,
            forall|j: int| 0 <= j < i ==> (#[trigger] out@[j])@ == texts@[j]@,
        decreases texts@.len() - i,
    {
        out.push(texts[i].clone());
        i = i + 1;
    }
    out
}

/// The well-formed ones of some endpoints.
pub fn accepted_endpoints(uris: &Vec<String>, well_formed: &Vec<bool>) -> (r: Vec<String>)
    ensures
        crate::text::texts_view(r@) == accepted(
            crate::text::texts_view(uris@),
            well_formed@,
        ),
{
    let ghost all = crate::text::texts_view(uris@);
    let mut out: Vec<String> = Vec::new();
    let mut i: usize = 0;
    while i < uris.len()
        invariant
            i <= uris@.len(),
            all == crate::text::texts_view(uris@),
            crate::text::texts_view(out@) == accepted(all.take(i as int), well_formed@),
        decreases uris@.len() - i,
    {
        assert(all.take(i + 1).drop_last() =~= all.take(i as int));
        if i < well_formed.len() && well_formed[i] {
            out.push(uris[i].clone());
        }
        i = i + 1;
    }
    assert(all.take(uris@.len() as int) =~= all);
    out
}

/// The failure that ends the opening of a wallet.
fn refusal(message: String) -> (r: (InitState, InitAction))
    ensures
        refuses(r.0, r.1, message@),
{
    (InitState::Ended, InitAction::Fail(message))
}

/// Goes on to try endpoints.
fn trying(uris: Vec<String>, last: bool) -> (r: (InitState, InitAction))
    ensures
        tries(r.0, r.1, crate::text::texts_view(uris@), last),
{
    let action: InitAction = InitAction::TryEndpoints(copied(&uris));
    (InitState::Trying { uris, last }, action)
}

/// Goes on to try what the host supplies.
fn fall_back(request: &InitRequest) -> (r: (InitState, InitAction))
    ensures
        falls_back(*request, r.0, r.1),
{
    let mut uris: Vec<String> = Vec::new();
    uris.push(fallback_uri(request.default_host.as_str(), request.default_port));
    assert(crate::text::texts_view(uris@) =~= seq![supplied_uri(*request)]);
    trying(uris, true)
}

/// The message about a network without endpoints.
fn no_endpoints(request: &InitRequest) -> (r: String)
    ensures
        r@ == no_endpoints_text(*request),
{
    let mut message: String = joined(
        "no DAPI endpoints for ",
        network_label(network_from_name(request.network_name.as_str())),
    );
    message.append(" (host ");
    message.append(request.default_host.as_str());
    message.append(":");
    message.append(decimal_text(request.default_port as u128).as_str());
    message.append(")");
    message
}

/// The message about a failed stage.
fn stage_message(stage: &InitStage, message: &str) -> (r: String)
    ensures
        r@ == stage_text(*stage) + message@,
{
    match stage {
        InitStage::ContextProvider => joined("trusted context provider: ", message),
        InitStage::Sdk => joined("build sdk: ", message),
        InitStage::DocumentDirectory => joined("", message),
        InitStage::StoreDirectory(path) => {
            let mut text: String = joined("mkdir ", path.as_str());
            text.append(": ");
            text.append(message);
            text
        },
        InitStage::WalletStore => joined("open wallet store: ", message),
        InitStage::ConfigureShielded => joined("configure_shielded: ", message),
        InitStage::CreateWallet => joined("create_wallet_from_seed_bytes: ", message),
        InitStage::BindShielded => joined("bind_shielded: ", message),
    }
}

/// Goes on from what the list of masternodes came to.
pub fn from_hosts(request: &InitRequest, hosts: WalletResult<Vec<String>>) -> (r: (
    InitState,
    InitAction,
))
    ensures
        match crate::masternodes::hosts_view(hosts) {
            Ok(list) => if list.len() > 0 {
                tries(r.0, r.1, crate::masternodes::node_uris_text(list), false)
            } else {
                falls_back(*request, r.0, r.1)
            },
            Err(_) => falls_back(*request, r.0, r.1),
        },
{
    match hosts {
        Ok(list) => if list.len() > 0 {
            trying(node_uris(&list), false)
        } else {
            fall_back(request)
        },
        Err(_) => fall_back(request),
    }
}

/// Goes on from what the mnemonic came to.
pub fn from_seed(network: Network, seed: Result<[u8; 64], String>) -> (r: (InitState, InitAction))
    ensures
        after_opening(network, crate::keys::seed_view(seed), r.0, r.1),
{
    match seed_or_message("bad mnemonic: ", seed) {
        Ok(bytes) => (
            InitState::Creating { seed: bytes },
            InitAction::CreateWallet { network, seed: bytes },
        ),
        Err(message) => refusal(message),
    }
}

/// Goes on from the raw receive address and what the local derivation of the keys came to.
///
/// The address that is entered reads back as the raw address on the network.
pub fn from_address(raw: &[u8; 43], network: &str, derived: WalletResult<(String, String)>) -> (r: (
    InitState,
    InitAction,
))
    ensures
        after_addressing(
            raw@,
            network@,
            match crate::keys::pair_view(derived) {
                Ok((_, key)) => Ok(key),
                Err(message) => Err(message),
            },
            r.0,
            r.1,
        ),
        crate::address::stands_for(r.1->address@, network@, raw@),
{
    let address: String = match encode_raw_orchard_address(raw, network) {
        Ok(address) => address,
        Err(message) => {
            return refusal(message);
        },
    };
    let viewing_key: String = match derived {
        Ok((_, key)) => key,
        Err(_) => String::new(),
    };
    (InitState::Ended, InitAction::Register { address, viewing_key })
}

/// One step of opening a wallet.
///
/// Both layers derive from the whole seed: a part of it would give another master key, and
/// so another receive address.
pub fn initialize(request: &InitRequest, state: InitState, event: InitEvent) -> (r: (
    InitState,
    InitAction,
))
    requires
        expects(state, event),
    ensures
        init_step(*request, state, event, r.0, r.1),
        r.1 is CreateWallet && crate::keys::is_phrase_text(request.mnemonic_seed@) ==> crate::keys::seed_of(request.mnemonic_seed@) is Ok && crate::keys::seed_of(
            request.mnemonic_seed@,
        )->Ok_0 == r.1->CreateWallet_seed@,
        (event is Address && event->Address_0 is Some) ==> crate::address::stands_for(
            r.1->address@,
            request.network_name@,
            event->Address_0->0@,
        ),
{
    match (state, event) {
        (_, InitEvent::Failed(stage, message)) => refusal(stage_message(&stage, message.as_str())),
        (InitState::Start, InitEvent::Begin) => {
            let base: &str = quorum_base(network_from_name(request.network_name.as_str()));
            if base.unicode_len() == 0 {
                fall_back(request)
            } else {
                (InitState::Listing, InitAction::ListMasternodes(masternodes_url(base)))
            }
        },
        (InitState::Listing, InitEvent::Listed(fetched)) => from_hosts(
            request,
            fetch_active_masternodes(fetched),
        ),
        (InitState::Trying { uris, last }, InitEvent::Tried(well_formed)) => {
            let endpoints: Vec<String> = accepted_endpoints(&uris, &well_formed);
            if endpoints.len() > 0 {
                let directory: Vec<String> = store_directory(request.alias.as_str());
                let network: Network = network_from_name(request.network_name.as_str());
                (InitState::Opening, InitAction::OpenStores { network, endpoints, directory })
            } else if last {
                refusal(no_endpoints(request))
            } else {
                fall_back(request)
            }
        },
        (InitState::Opening, InitEvent::Opened) => from_seed(
            network_from_name(request.network_name.as_str()),
            phrase_to_seed(request.mnemonic_seed.as_str()),
        ),
        (InitState::Creating { seed }, InitEvent::Created { coordinator }) => if coordinator {
            (InitState::Binding, InitAction::BindShielded { seed, account: request.account })
        } else {
            refusal("shielded coordinator missing after configure_shielded".to_string())
        },
        (InitState::Binding, InitEvent::Bound) => (
            InitState::Addressing,
            InitAction::ReadAddress(request.account),
        ),
        (InitState::Addressing, InitEvent::Address(raw)) => match raw {
            Some(bytes) => from_address(
                &bytes,
                request.network_name.as_str(),
                derive_address_and_fvk(
                    request.mnemonic_seed.as_str(),
                    request.network_name.as_str(),
                    request.account,
                ),
            ),
            None => refusal(
                "shielded_default_address returned none (bind_shielded did not take)".to_string(),
            ),
        },
        _ => (InitState::Ended, InitAction::ReadAddress(request.account)),
    }
}

// ---------------------------------------------------------------------------
// Laws
// ---------------------------------------------------------------------------

/// Tells whether a state can have been reached for a request: the endpoints that are tried
/// last are the one that the host supplies, those tried before are those of masternodes, and
/// the seed is that of the mnemonic.
pub open spec fn is_reached(request: InitRequest, state: InitState) -> bool {
    match state {
        InitState::Trying { uris, last } => if last {
            crate::text::texts_view(uris@) == seq![supplied_uri(request)]
        } else {
            exists|hosts: Seq<Seq<char>>|
                hosts.len() > 0 && crate::text::texts_view(uris@)
                    == #[trigger] crate::masternodes::node_uris_text(hosts)
        },
        InitState::Creating { seed } => crate::keys::bip39_seed(request.mnemonic_seed@, ""@) == Ok::<
            Seq<u8>,
            Seq<char>,
        >(seed@),
        _ => true,
    }
}

/// Every step leads from a state that can have been reached to another.
pub proof fn steps_stay_within_reach(
    request: InitRequest,
    state: InitState,
    event: InitEvent,
    next: InitState,
    action: InitAction,
)
    requires
        is_reached(request, state),
        expects(state, event),
        init_step(request, state, event, next, action),
    ensures
        is_reached(request, next),
{
}

/// Both layers are given the same seed, whole: the 64 bytes of the mnemonic that the wallet
/// was created from are those that the shielded keys are bound with.
pub proof fn both_layers_get_the_whole_seed(
    request: InitRequest,
    created: InitState,
    create: InitAction,
    event: InitEvent,
    bound: InitState,
    bind: InitAction,
)
    requires
        init_step(request, InitState::Opening, InitEvent::Opened, created, create),
        create is CreateWallet,
        expects(created, event),
        init_step(request, created, event, bound, bind),
        bind is BindShielded,
    ensures
        bind->BindShielded_seed@ == create->CreateWallet_seed@,
        bind->BindShielded_seed@.len() == 64,
        crate::keys::bip39_seed(request.mnemonic_seed@, ""@) == Ok::<Seq<u8>, Seq<char>>(
            bind->BindShielded_seed@,
        ),
        bind->account == request.account,
{
}

/// A transfer that is planned with the mnemonic of a wallet spends from the seed that the
/// shielded keys of the wallet were bound with.
pub proof fn transfer_spends_from_the_bound_seed(
    request: InitRequest,
    seed: [u8; 64],
    event: InitEvent,
    bound: InitState,
    bind: InitAction,
    proposal: crate::client::ProposalView,
    account: u32,
    network: Seq<char>,
    decoded: Result<(Seq<char>, Seq<u8>), Seq<char>>,
)
    requires
        is_reached(request, (InitState::Creating { seed })),
        expects((InitState::Creating { seed }), event),
        init_step(request, (InitState::Creating { seed }), event, bound, bind),
        bind is BindShielded,
        crate::transfer::planned(
            proposal,
            account,
            network,
            decoded,
            crate::keys::bip39_seed(request.mnemonic_seed@, ""@),
        ) is Ok,
    ensures
        crate::transfer::planned(
            proposal,
            account,
            network,
            decoded,
            crate::keys::bip39_seed(request.mnemonic_seed@, ""@),
        )->Ok_0.seed == bind->BindShielded_seed@,
{
}

/// The connection is made, and the wallet is created, for the network of the name that is asked
/// for.
pub proof fn wallet_is_on_the_named_network(
    request: InitRequest,
    state: InitState,
    event: InitEvent,
    next: InitState,
    action: InitAction,
)
    requires
        expects(state, event),
        init_step(request, state, event, next, action),
    ensures
        action is OpenStores ==> action->OpenStores_network == crate::network::named_network(
            request.network_name@,
        ),
        action is CreateWallet ==> action->CreateWallet_network == crate::network::named_network(
            request.network_name@,
        ),
{
}

/// The connection is made to at least one endpoint. Either all of them are endpoints of
/// masternodes, or there is just the one that the host supplies.
pub proof fn endpoints_are_discovered_or_supplied(
    request: InitRequest,
    uris: Vec<String>,
    last: bool,
    well_formed: Vec<bool>,
    next: InitState,
    action: InitAction,
)
    requires
        is_reached(request, (InitState::Trying { uris, last })),
        init_step(
            request,
            (InitState::Trying { uris, last }),
            InitEvent::Tried(well_formed),
            next,
            action,
        ),
        action is OpenStores,
    ensures
        action->endpoints@.len() > 0,
        last ==> crate::text::texts_view(action->endpoints@) == seq![supplied_uri(request)],
        !last ==> forall|i: int|
            0 <= i < action->endpoints@.len() ==> exists|host: Seq<char>|
                (#[trigger] action->endpoints@[i])@ == #[trigger] crate::masternodes::node_uri_text(
                    host,
                ),
{
    let all = crate::text::texts_view(uris@);
    let good = crate::text::texts_view(action->endpoints@);
    lemma_accepted_are_among(all, well_formed@);
    if last {
        assert(accepted(all.drop_last(), well_formed@) =~= Seq::<Seq<char>>::empty());
    } else {
        let hosts = choose|hosts: Seq<Seq<char>>|
            hosts.len() > 0 && all == #[trigger] crate::masternodes::node_uris_text(hosts);
        assert forall|i: int| 0 <= i < action->endpoints@.len() implies exists|host: Seq<char>|
            (#[trigger] action->endpoints@[i])@ == #[trigger] crate::masternodes::node_uri_text(
                host,
            ) by {
            assert(all.contains(good[i]));
        }
    }
}

/// The endpoints that are accepted are among those that were tried.
proof fn lemma_accepted_are_among(uris: Seq<Seq<char>>, well_formed: Seq<bool>)
    ensures
        forall|i: int|
            0 <= i < accepted(uris, well_formed).len() ==> uris.contains(
                #[trigger] accepted(uris, well_formed)[i],
            ),
    decreases uris.len(),
{
    if uris.len() > 0 {
        let front = uris.drop_last();
        lemma_accepted_are_among(front, well_formed);
        let good = accepted(uris, well_formed);
        assert forall|i: int| 0 <= i < good.len() implies uris.contains(#[trigger] good[i]) by {
            if i < accepted(front, well_formed).len() {
                assert(uris[front.index_of(good[i])] == good[i]);
            }
        }
    }
}

/// What the host supplies is tried only where no endpoint of a masternode was accepted.
pub proof fn supplied_endpoint_is_tried_last(
    request: InitRequest,
    state: InitState,
    event: InitEvent,
    next: InitState,
    action: InitAction,
)
    requires
        expects(state, event),
        init_step(request, state, event, next, action),
        next is Trying,
        next->last,
    ensures
        match (state, event) {
            (InitState::Start, _) => service_of(request).len() == 0,
            (InitState::Listing, InitEvent::Listed(fetched)) => crate::masternodes::fetched_hosts(
                fetched,
            ) matches Ok(hosts) ==> hosts.len() == 0,
            (InitState::Trying { uris, last }, InitEvent::Tried(well_formed)) => !last && accepted(
                crate::text::texts_view(uris@),
                well_formed@,
            ).len() == 0,
            _ => false,
        },
{
}

/// The most steps that the opening of a wallet takes from a state.
pub open spec fn steps_to_open(state: InitState) -> nat {
    match state {
        InitState::Start => 8,
        InitState::Listing => 7,
        InitState::Trying { last, .. } => if last {
            5
        } else {
            6
        },
        InitState::Opening => 4,
        InitState::Creating { .. } => 3,
        InitState::Binding => 2,
        InitState::Addressing => 1,
        InitState::Ended => 0,
    }
}

/// Opening a wallet ends: each step leaves fewer steps, and it has ended exactly where the
/// wallet is entered or the host is told why not.
pub proof fn opening_ends(
    request: InitRequest,
    state: InitState,
    event: InitEvent,
    next: InitState,
    action: InitAction,
)
    requires
        expects(state, event),
        init_step(request, state, event, next, action),
    ensures
        steps_to_open(next) < steps_to_open(state),
        next is Ended <==> action is Register || action is Fail,
{
}

/// The stages come in order: the stores are opened once endpoints were accepted, the wallet is
/// created once the stores are open, the keys are bound once it was created and has a
/// coordinator, the address is read once they were bound, and the wallet is entered once the
/// address is known.
pub proof fn stages_come_in_order(
    request: InitRequest,
    state: InitState,
    event: InitEvent,
    next: InitState,
    action: InitAction,
)
    requires
        expects(state, event),
        init_step(request, state, event, next, action),
    ensures
        action is OpenStores ==> state is Trying && next is Opening,
        action is CreateWallet ==> state is Opening && event is Opened && next is Creating,
        action is BindShielded ==> state is Creating && event is Created && event->coordinator
            && next is Binding,
        action is ReadAddress ==> state is Binding && event is Bound && next is Addressing,
        action is Register ==> state is Addressing && event is Address && event->Address_0 is Some,
{
}

/// Wallets under different aliases have different directories, and the two files of a wallet
/// have different names, so that no two stores are shared.
pub proof fn stores_are_not_shared(a: Seq<char>, b: Seq<char>)
    requires
        a != b,
    ensures
        store_directory_names(a) != store_directory_names(b),
        WALLET_FILE@ != NOTES_FILE@,
        store_directory_names(a) == seq!["dash-shielded"@, a],
        WALLET_FILE@ == "wallet.db"@,
        NOTES_FILE@ == "shielded.db"@,
{
    reveal_strlit("wallet.db");
    reveal_strlit("shielded.db");
    assert("wallet.db"@.len() != "shielded.db"@.len());
}

/// On a network with a quorum service the masternodes are asked for first, below the address of
/// the service; on any other what the host supplies is tried at once.
pub proof fn opening_begins_with_the_service(
    request: InitRequest,
    next: InitState,
    action: InitAction,
)
    requires
        init_step(request, InitState::Start, InitEvent::Begin, next, action),
    ensures
        request.network_name@ == "mainnet"@ ==> next is Listing && action is ListMasternodes
            && action->ListMasternodes_0@
            == "https://quorums.mainnet.networks.dash.org"@ + "/masternodes"@,
        request.network_name@ == "testnet"@ ==> next is Listing && action is ListMasternodes
            && action->ListMasternodes_0@
            == "https://quorums.testnet.networks.dash.org"@ + "/masternodes"@,
        request.network_name@ != "mainnet"@ && request.network_name@ != "testnet"@ ==> {
            &&& next is Trying
            &&& next->last
            &&& action is TryEndpoints
            &&& action->TryEndpoints_0@.len() == 1
            &&& action->TryEndpoints_0@[0]@ == crate::masternodes::fallback_uri_text(
                request.default_host@,
                request.default_port,
            )
            &&& next->uris@.len() == 1
            &&& next->uris@[0]@ == action->TryEndpoints_0@[0]@
        },
{
    let name = request.network_name@;
    crate::network::names_are_told_apart(name);
    crate::network::two_networks_have_a_service(crate::network::named_network(name));
    reveal_strlit("https://quorums.mainnet.networks.dash.org");
    reveal_strlit("https://quorums.testnet.networks.dash.org");
    let none = Seq::<char>::empty();
    let main = "https://quorums.mainnet.networks.dash.org"@;
    let test = "https://quorums.testnet.networks.dash.org"@;
    assert(main + none =~= main);
    assert(test + none =~= test);
    crate::masternodes::list_is_asked_for_below_the_base(main, none);
    crate::masternodes::list_is_asked_for_below_the_base(test, none);
    if name != "mainnet"@ && name != "testnet"@ {
        crate::text::texts_are_told_as_they_are(action->TryEndpoints_0@, 0, None, Ok(request.alias));
        crate::text::texts_are_told_as_they_are(next->uris@, 0, None, Ok(request.alias));
    }
}

/// Where the list has active hosts, exactly their endpoints are tried, in the order of the list;
/// where it has none, or failed, what the host supplies is tried, and nothing after that.
pub proof fn listed_hosts_are_tried(
    request: InitRequest,
    fetched: Fetched,
    hosts: Seq<Seq<char>>,
    next: InitState,
    action: InitAction,
    i: int,
)
    requires
        init_step(request, InitState::Listing, InitEvent::Listed(fetched), next, action),
    ensures
        next is Trying,
        action is TryEndpoints,
        next->uris@.len() == action->TryEndpoints_0@.len(),
        0 <= i < next->uris@.len() ==> next->uris@[i]@ == action->TryEndpoints_0@[i]@,
        crate::masternodes::fetched_hosts(fetched) == Ok::<Seq<Seq<char>>, Seq<char>>(hosts)
            && hosts.len() > 0 ==> {
            &&& !next->last
            &&& action->TryEndpoints_0@.len() == hosts.len()
            &&& 0 <= i < hosts.len() ==> action->TryEndpoints_0@[i]@ == "https://"@ + hosts[i]
                + ":443"@
        },
        (crate::masternodes::fetched_hosts(fetched) matches Ok(list) ==> list.len() == 0) ==> {
            &&& next->last
            &&& action->TryEndpoints_0@.len() == 1
            &&& action->TryEndpoints_0@[0]@ == crate::masternodes::fallback_uri_text(
                request.default_host@,
                request.default_port,
            )
        },
{
    crate::text::texts_are_told_as_they_are(action->TryEndpoints_0@, i, None, Ok(request.alias));
    crate::text::texts_are_told_as_they_are(next->uris@, i, None, Ok(request.alias));
    crate::text::texts_are_told_as_they_are(action->TryEndpoints_0@, 0, None, Ok(request.alias));
}

/// The endpoints that are accepted are those that are well formed, all of them, in order.
pub proof fn well_formed_endpoints_are_accepted(
    a: Seq<Seq<char>>,
    uri: Seq<char>,
    well_formed: Seq<bool>,
)
    requires
        a.len() < well_formed.len(),
    ensures
        accepted(Seq::<Seq<char>>::empty(), well_formed).len() == 0,
        well_formed[a.len() as int] ==> accepted(a.push(uri), well_formed) == accepted(
            a,
            well_formed,
        ).push(uri),
        !well_formed[a.len() as int] ==> accepted(a.push(uri), well_formed) == accepted(
            a,
            well_formed,
        ),
{
    assert(a.push(uri).drop_last() =~= a);
}

/// With endpoints that are well formed the stores are opened: on the network that is asked for,
/// over exactly those endpoints, in the directory of the alias. Without any, what the host
/// supplies is tried if it was not, and else the host is told that there are none.
pub proof fn stores_are_opened_over_accepted_endpoints(
    request: InitRequest,
    uris: Vec<String>,
    last: bool,
    well_formed: Vec<bool>,
    next: InitState,
    action: InitAction,
)
    requires
        init_step(
            request,
            (InitState::Trying { uris, last }),
            InitEvent::Tried(well_formed),
            next,
            action,
        ),
    ensures
        ({
            let good = accepted(crate::text::texts_view(uris@), well_formed@);
            &&& good.len() > 0 ==> {
                &&& next is Opening
                &&& action is OpenStores
                &&& crate::text::texts_view(action->endpoints@) == good
                &&& action->OpenStores_network == crate::network::named_network(
                    request.network_name@,
                )
                &&& action->directory@.len() == 2
                &&& action->directory@[0]@ == "dash-shielded"@
                &&& action->directory@[1]@ == request.alias@
            }
            &&& good.len() == 0 && !last ==> {
                &&& next is Trying
                &&& next->last
                &&& action is TryEndpoints
                &&& action->TryEndpoints_0@.len() == 1
                &&& action->TryEndpoints_0@[0]@ == crate::masternodes::fallback_uri_text(
                    request.default_host@,
                    request.default_port,
                )
            }
            &&& good.len() == 0 && last ==> {
                &&& next is Ended
                &&& action is Fail
                &&& action->Fail_0@ == "no DAPI endpoints for "@
                    + crate::network::network_label_text(
                    crate::network::named_network(request.network_name@),
                ) + " (host "@ + request.default_host@ + ":"@ + crate::text::decimal(
                    request.default_port as nat,
                ) + ")"@
            }
        }),
{
    crate::text::texts_are_told_as_they_are(action->directory@, 0, None, Ok(request.alias));
    crate::text::texts_are_told_as_they_are(action->directory@, 1, None, Ok(request.alias));
    crate::text::texts_are_told_as_they_are(action->TryEndpoints_0@, 0, None, Ok(request.alias));
}

/// When the stores are open the wallet is created from the seed of the mnemonic, whole, on the
/// network that is asked for; a mnemonic without a seed is refused with what is wrong with it.
pub proof fn wallet_is_created_from_the_seed(
    request: InitRequest,
    next: InitState,
    action: InitAction,
)
    requires
        init_step(request, InitState::Opening, InitEvent::Opened, next, action),
    ensures
        match crate::keys::bip39_seed(request.mnemonic_seed@, ""@) {
            Ok(seed) => {
                &&& next is Creating
                &&& next->seed@ == seed
                &&& action is CreateWallet
                &&& action->CreateWallet_seed@ == seed
                &&& action->CreateWallet_network == crate::network::named_network(
                    request.network_name@,
                )
            },
            Err(reason) => next is Ended && action is Fail && action->Fail_0@ == "bad mnemonic: "@
                + reason,
        },
{
}

/// When the wallet was created the keys of the account that is asked for are bound from the same
/// seed; without a coordinator the host is told.
pub proof fn keys_are_bound_for_the_account(
    request: InitRequest,
    seed: [u8; 64],
    coordinator: bool,
    next: InitState,
    action: InitAction,
)
    requires
        init_step(
            request,
            (InitState::Creating { seed }),
            InitEvent::Created { coordinator },
            next,
            action,
        ),
    ensures
        coordinator ==> next is Binding && action is BindShielded && action->BindShielded_seed
            == seed && action->account == request.account,
        !coordinator ==> next is Ended && action is Fail && action->Fail_0@
            == "shielded coordinator missing after configure_shielded"@,
{
}

/// When the keys are bound the address of the same account is read.
pub proof fn address_of_the_account_is_read(
    request: InitRequest,
    next: InitState,
    action: InitAction,
)
    requires
        init_step(request, InitState::Binding, InitEvent::Bound, next, action),
    ensures
        next is Addressing,
        action is ReadAddress,
        action->ReadAddress_0 == request.account,
{
}

/// The wallet is entered with the address that was read, written for the network that is asked
/// for, and with the viewing key of the mnemonic and the account, or none where there is none;
/// without an address the host is told.
pub proof fn wallet_is_entered_with_its_address(
    request: InitRequest,
    raw: Option<[u8; 43]>,
    next: InitState,
    action: InitAction,
)
    requires
        init_step(request, InitState::Addressing, InitEvent::Address(raw), next, action),
    ensures
        next is Ended,
        raw matches Some(bytes) ==> {
            let key = crate::keys::viewing_key_text(
                request.mnemonic_seed@,
                request.network_name@,
                request.account,
            );
            &&& action is Register
            &&& action->address@ == crate::address::address_text(bytes@, request.network_name@)
            &&& key is Ok ==> action->viewing_key@ == key->Ok_0
            &&& key is Err ==> action->viewing_key@.len() == 0
        },
        raw is None ==> action is Fail && action->Fail_0@
            == "shielded_default_address returned none (bind_shielded did not take)"@,
{
}

/// A stage that fails ends the opening, and the host is told the stage and its reason.
pub proof fn failed_stage_is_told(
    request: InitRequest,
    state: InitState,
    stage: InitStage,
    reason: String,
    next: InitState,
    action: InitAction,
)
    requires
        init_step(request, state, InitEvent::Failed(stage, reason), next, action),
    ensures
        next is Ended,
        action is Fail,
        stage is ContextProvider ==> action->Fail_0@ == "trusted context provider: "@ + reason@,
        stage is Sdk ==> action->Fail_0@ == "build sdk: "@ + reason@,
        stage is DocumentDirectory ==> action->Fail_0@ == reason@,
        stage matches InitStage::StoreDirectory(path) ==> action->Fail_0@ == "mkdir "@ + path@ + ": "@
            + reason@,
        stage is WalletStore ==> action->Fail_0@ == "open wallet store: "@ + reason@,
        stage is ConfigureShielded ==> action->Fail_0@ == "configure_shielded: "@ + reason@,
        stage is CreateWallet ==> action->Fail_0@ == "create_wallet_from_seed_bytes: "@ + reason@,
        stage is BindShielded ==> action->Fail_0@ == "bind_shielded: "@ + reason@,
{
    reveal_strlit("");
    assert(""@ + reason@ =~= reason@);
}

/// Each state but the last expects what its action leads to.
pub proof fn opening_expects_its_events(
    uris: Vec<String>,
    last: bool,
    seed: [u8; 64],
    coordinator: bool,
    fetched: Fetched,
    well_formed: Vec<bool>,
    raw: Option<[u8; 43]>,
)
    ensures
        expects(InitState::Start, InitEvent::Begin),
        expects(InitState::Listing, InitEvent::Listed(fetched)),
        expects((InitState::Trying { uris, last }), InitEvent::Tried(well_formed)),
        expects(InitState::Opening, InitEvent::Opened),
        expects((InitState::Creating { seed }), InitEvent::Created { coordinator }),
        expects(InitState::Binding, InitEvent::Bound),
        expects(InitState::Addressing, InitEvent::Address(raw)),
{
}

}
