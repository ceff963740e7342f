//! The open wallets, each under its alias.
//!
//! A wallet has handles that this library only passes on: a manager, which owns the
//! connection, and the wallet inside it. Their types are left to the caller.

use crate::alias_map::AliasMap;
use crate::network::WalletResult;
use vstd::prelude::*;

verus! {

/// A transfer that was quoted and not yet made.
pub struct PendingProposal {
    pub to_address: String,
    pub amount_credits: String,
    pub memo: String,
}

/// An open wallet.
pub struct ClientSlot<M, W> {
    pub mnemonic: String,
    pub network: String,
    pub account: u32,
    pub address: String,
    pub viewing_key: String,
    pub status: String,
    pub available_credits: String,
    pub total_credits: String,
    pub proposals: AliasMap<PendingProposal>,
    /// Owns the connection and drives note scanning.
    pub manager: Option<M>,
    pub wallet: Option<W>,
    /// Commitments walked by the most recent sync pass, for scan progress.
    pub total_scanned: u64,
    pub network_block_height: u32,
}

/// The open wallets by alias.
pub type Clients<M, W> = AliasMap<ClientSlot<M, W>>;

/// The addresses of a wallet.
pub struct Addresses {
    pub shielded_address: String,
}

// ---------------------------------------------------------------------------
// Model
// ---------------------------------------------------------------------------

/// A pending proposal, by its contents.
pub struct ProposalView {
    pub to_address: Seq<char>,
    pub amount_credits: Seq<char>,
    pub memo: Seq<char>,
}

impl View for PendingProposal {
    type V = ProposalView;

    open spec fn view(&self) -> ProposalView {
        ProposalView {
            to_address: self.to_address@,
            amount_credits: self.amount_credits@,
            memo: self.memo@,
        }
    }
}

/// An open wallet, by its contents.
pub struct SlotView<M, W> {
    pub mnemonic: Seq<char>,
    pub network: Seq<char>,
    pub account: u32,
    pub address: Seq<char>,
    pub viewing_key: Seq<char>,
    pub status: Seq<char>,
    pub available_credits: Seq<char>,
    pub total_credits: Seq<char>,
    pub proposals: Map<Seq<char>, ProposalView>,
    pub manager: Option<M>,
    pub wallet: Option<W>,
    pub total_scanned: u64,
    pub network_block_height: u32,
}

/// The pending proposals of a wallet by identifier.
pub open spec fn proposals_view(proposals: Map<Seq<char>, PendingProposal>) -> Map<
    Seq<char>,
    ProposalView,
> {
    Map::new(|id: Seq<char>| proposals.contains_key(id), |id: Seq<char>| proposals[id]@)
}

impl<M, W> View for ClientSlot<M, W> {
    type V = SlotView<M, W>;

    open spec fn view(&self) -> SlotView<M, W> {
        SlotView {
            mnemonic: self.mnemonic@,
            network: self.network@,
            account: self.account,
            address: self.address@,
            viewing_key: self.viewing_key@,
            status: self.status@,
            available_credits: self.available_credits@,
            total_credits: self.total_credits@,
            proposals: proposals_view(self.proposals@),
            manager: self.manager,
            wallet: self.wallet,
            total_scanned: self.total_scanned,
            network_block_height: self.network_block_height,
        }
    }
}

/// The open wallets by alias, by their contents.
pub open spec fn book<M, W>(clients: Clients<M, W>) -> Map<Seq<char>, SlotView<M, W>> {
    Map::new(|alias: Seq<char>| clients@.contains_key(alias), |alias: Seq<char>| clients@[alias]@)
}

/// The message about an alias under which no wallet is open.
pub open spec fn unknown_alias() -> Seq<char> {
    "unknown alias"@
}

/// The message about a wallet without its handles.
pub open spec fn not_initialized() -> Seq<char> {
    "wallet not initialized"@
}

/// The wallets after the one under `alias`, if there is one, was given a status.
pub open spec fn with_status<M, W>(
    wallets: Map<Seq<char>, SlotView<M, W>>,
    alias: Seq<char>,
    status: Seq<char>,
) -> Map<Seq<char>, SlotView<M, W>> {
    if wallets.contains_key(alias) {
        wallets.insert(alias, SlotView { status: status, ..wallets[alias] })
    } else {
        wallets
    }
}

/// What an operation answers that succeeds exactly where a wallet is open under `alias`.
pub open spec fn known<M, W>(r: WalletResult<()>, wallets: Map<Seq<char>, SlotView<M, W>>, alias: Seq<char>) -> bool {
    match r {
        Ok(_) => wallets.contains_key(alias),
        Err(message) => !wallets.contains_key(alias) && message@ == unknown_alias(),
    }
}

/// The wallet that is entered when its initialization succeeds: nothing scanned, nothing
/// proposed, no credits.
pub open spec fn fresh_slot<M, W>(
    mnemonic: Seq<char>,
    network: Seq<char>,
    account: u32,
    address: Seq<char>,
    viewing_key: Seq<char>,
    manager: M,
    wallet: W,
) -> SlotView<M, W> {
    SlotView {
        mnemonic,
        network,
        account,
        address,
        viewing_key,
        status: "DISCONNECTED"@,
        available_credits: "0"@,
        total_credits: "0"@,
        proposals: Map::empty(),
        manager: Some(manager),
        wallet: Some(wallet),
        total_scanned: 0,
        network_block_height: 0,
    }
}

// ---------------------------------------------------------------------------
// Operations
// ---------------------------------------------------------------------------

/// Puts a wallet back under its alias.
pub(crate) fn put<M, W>(clients: &mut Clients<M, W>, alias: &str, slot: ClientSlot<M, W>)
    ensures
        book(*final(clients)) == book(*old(clients)).insert(alias@, slot@),
{
    clients.insert(alias.to_string(), slot);
}

/// Takes a wallet from under its alias.
pub(crate) fn take<M, W>(clients: &mut Clients<M, W>, alias: &str) -> (r: Option<ClientSlot<M, W>>)
    ensures
        book(*final(clients)) == book(*old(clients)).remove(alias@),
        match r {
            Some(slot) => book(*old(clients)).contains_key(alias@) && slot@ == book(*old(clients))[alias@],
            None => !book(*old(clients)).contains_key(alias@),
        },
{
    let r: Option<ClientSlot<M, W>> = clients.remove(alias);
    r
}

/// Enters a wallet whose initialization has succeeded, in place of the one that may have
/// been open under the alias.
pub fn register_client<M, W>(
    clients: &mut Clients<M, W>,
    alias: String,
    mnemonic: String,
    network: String,
    account: u32,
    address: String,
    viewing_key: String,
    manager: M,
    wallet: W,
)
    ensures
        book(*final(clients)) == book(*old(clients)).insert(
            alias@,
            fresh_slot(mnemonic@, network@, account, address@, viewing_key@, manager, wallet),
        ),
{
    let proposals: AliasMap<PendingProposal> = AliasMap::new();
    let slot: ClientSlot<M, W> = ClientSlot {
        mnemonic,
        network,
        account,
        address,
        viewing_key,
        status: "DISCONNECTED".to_string(),
        available_credits: "0".to_string(),
        total_credits: "0".to_string(),
        proposals,
        manager: Some(manager),
        wallet: Some(wallet),
        total_scanned: 0,
        network_block_height: 0,
    };
    assert(slot@.proposals =~= Map::empty());
    put(clients, alias.as_str(), slot);
}

/// The wallets after the one under `alias` was closed.
pub open spec fn closed<M, W>(
    wallets: Map<Seq<char>, SlotView<M, W>>,
    alias: Seq<char>,
) -> Map<Seq<char>, SlotView<M, W>> {
    wallets.remove(alias)
}

/// The receive address of the wallet under an alias, or why there is none.
pub open spec fn address_under<M, W>(
    wallets: Map<Seq<char>, SlotView<M, W>>,
    alias: Seq<char>,
) -> Result<Seq<char>, Seq<char>> {
    if wallets.contains_key(alias) {
        Ok(wallets[alias].address)
    } else {
        Err(unknown_alias())
    }
}

/// The handles of the wallet under an alias, or why there are none.
pub open spec fn handles_under<M, W>(
    wallets: Map<Seq<char>, SlotView<M, W>>,
    alias: Seq<char>,
) -> Result<(Option<M>, Option<W>), Seq<char>> {
    if wallets.contains_key(alias) {
        Ok((wallets[alias].manager, wallets[alias].wallet))
    } else {
        Err(unknown_alias())
    }
}

/// A handle or a message, by their contents.
pub open spec fn handle_view<H>(r: WalletResult<Option<&H>>) -> Result<Option<H>, Seq<char>> {
    match r {
        Ok(Some(handle)) => Ok(Some(*handle)),
        Ok(None) => Ok(None),
        Err(message) => Err(message@),
    }
}

/// Addresses or a message, by their contents.
pub open spec fn addresses_view(r: WalletResult<Addresses>) -> Result<Seq<char>, Seq<char>> {
    match r {
        Ok(addresses) => Ok(addresses.shielded_address@),
        Err(message) => Err(message@),
    }
}

/// Closes the wallet under an alias. That no wallet was open there is no error.
pub fn stop<M, W>(clients: &mut Clients<M, W>, alias: String) -> (r: WalletResult<String>)
    ensures
        book(*final(clients)) == book(*old(clients)).remove(alias@),
        book(*final(clients)) == closed(book(*old(clients)), alias@),
        r is Ok,
        r->Ok_0@ == "STOPPED"@,
{
    let _ = take(clients, alias.as_str());
    Ok("STOPPED".to_string())
}

/// The wallet under an alias.
pub(crate) fn open_slot<'a, M, W>(clients: &'a Clients<M, W>, alias: &str) -> (r: WalletResult<
    &'a ClientSlot<M, W>,
>)
    ensures
        match r {
            Ok(slot) => book(*clients).contains_key(alias@) && slot@ == book(*clients)[alias@],
            Err(message) => !book(*clients).contains_key(alias@) && message@ == unknown_alias(),
        },
{
    match clients.get(alias) {
        Some(slot) => Ok(slot),
        None => Err("unknown alias".to_string()),
    }
}

/// The receive address of the wallet under an alias.
pub fn derive_shielded_address<M, W>(clients: &Clients<M, W>, alias: String) -> (r: WalletResult<
    Addresses,
>)
    ensures
        addresses_view(r) == address_under(book(*clients), alias@),
        match r {
            Ok(addresses) => book(*clients).contains_key(alias@)
                && addresses.shielded_address@ == book(*clients)[alias@].address,
            Err(message) => !book(*clients).contains_key(alias@) && message@ == unknown_alias(),
        },
{
    let slot: &ClientSlot<M, W> = open_slot(clients, alias.as_str())?;
    Ok(Addresses { shielded_address: slot.address.clone() })
}

/// The manager of the wallet under an alias, if it has one.
pub fn attached_manager<'a, M, W>(clients: &'a Clients<M, W>, alias: &str) -> (r: WalletResult<
    Option<&'a M>,
>)
    ensures
        match handles_under(book(*clients), alias@) {
            Ok((manager, _)) => handle_view(r) == Ok::<Option<M>, Seq<char>>(manager),
            Err(message) => handle_view(r) == Err::<Option<M>, Seq<char>>(message),
        },
        match r {
            Ok(Some(manager)) => book(*clients).contains_key(alias@)
                && book(*clients)[alias@].manager == Some(*manager),
            Ok(None) => book(*clients).contains_key(alias@) && book(*clients)[alias@].manager is None,
            Err(message) => !book(*clients).contains_key(alias@) && message@ == unknown_alias(),
        },
{
    let slot: &ClientSlot<M, W> = open_slot(clients, alias)?;
    match &slot.manager {
        Some(manager) => Ok(Some(manager)),
        None => Ok(None),
    }
}

/// The inner wallet of the wallet under an alias, if it has one.
pub fn attached_wallet<'a, M, W>(clients: &'a Clients<M, W>, alias: &str) -> (r: WalletResult<
    Option<&'a W>,
>)
    ensures
        match handles_under(book(*clients), alias@) {
            Ok((_, wallet)) => handle_view(r) == Ok::<Option<W>, Seq<char>>(wallet),
            Err(message) => handle_view(r) == Err::<Option<W>, Seq<char>>(message),
        },
        match r {
            Ok(Some(wallet)) => book(*clients).contains_key(alias@)
                && book(*clients)[alias@].wallet == Some(*wallet),
            Ok(None) => book(*clients).contains_key(alias@) && book(*clients)[alias@].wallet is None,
            Err(message) => !book(*clients).contains_key(alias@) && message@ == unknown_alias(),
        },
{
    let slot: &ClientSlot<M, W> = open_slot(clients, alias)?;
    match &slot.wallet {
        Some(wallet) => Ok(Some(wallet)),
        None => Ok(None),
    }
}

/// Gives the wallet under an alias a status.
pub(crate) fn set_status<M, W>(clients: &mut Clients<M, W>, alias: &str, status: String) -> (r: WalletResult<
    (),
>)
    ensures
        book(*final(clients)) == with_status(book(*old(clients)), alias@, status@),
        known(r, book(*old(clients)), alias@),
{
    match take(clients, alias) {
        Some(mut slot) => {
            slot.status = status;
            put(clients, alias, slot);
            Ok(())
        },
        None => {
            Err("unknown alias".to_string())
        },
    }
}

// ---------------------------------------------------------------------------
// Laws
// ---------------------------------------------------------------------------

/// What is said of a wallet says every field of it, as it is.
pub proof fn slot_view_tells_every_field<M, W>(slot: ClientSlot<M, W>, id: Seq<char>)
    ensures
        slot@.mnemonic == slot.mnemonic@,
        slot@.network == slot.network@,
        slot@.account == slot.account,
        slot@.address == slot.address@,
        slot@.viewing_key == slot.viewing_key@,
        slot@.status == slot.status@,
        slot@.available_credits == slot.available_credits@,
        slot@.total_credits == slot.total_credits@,
        slot@.manager == slot.manager,
        slot@.wallet == slot.wallet,
        slot@.total_scanned == slot.total_scanned,
        slot@.network_block_height == slot.network_block_height,
        slot@.proposals.contains_key(id) <==> slot.proposals@.contains_key(id),
        slot.proposals@.contains_key(id) ==> ({
            let said = slot@.proposals[id];
            let pending = slot.proposals@[id];
            &&& said.to_address == pending.to_address@
            &&& said.amount_credits == pending.amount_credits@
            &&& said.memo == pending.memo@
        }),
{
}

/// What is said of the wallets says which aliases they are open under, and each wallet.
pub proof fn book_tells_every_wallet<M, W>(clients: Clients<M, W>, alias: Seq<char>)
    ensures
        book(clients).contains_key(alias) <==> clients@.contains_key(alias),
        clients@.contains_key(alias) ==> book(clients)[alias] == clients@[alias]@,
{
}

/// After a wallet was entered it is found under its alias with everything that was handed in:
/// mnemonic, network, account, address, viewing key and both handles. It is disconnected, has no
/// credits, no proposals and nothing scanned, and the wallets under other aliases are as they
/// were.
pub proof fn entered_wallet_is_found<M, W>(
    wallets: Map<Seq<char>, SlotView<M, W>>,
    alias: Seq<char>,
    other: Seq<char>,
    mnemonic: Seq<char>,
    network: Seq<char>,
    account: u32,
    address: Seq<char>,
    viewing_key: Seq<char>,
    manager: M,
    wallet: W,
)
    requires
        other != alias,
    ensures
        ({
            let slot = fresh_slot(mnemonic, network, account, address, viewing_key, manager, wallet);
            let after = wallets.insert(alias, slot);
            &&& after.contains_key(alias)
            &&& after[alias].mnemonic == mnemonic
            &&& after[alias].network == network
            &&& after[alias].account == account
            &&& after[alias].address == address
            &&& after[alias].viewing_key == viewing_key
            &&& after[alias].manager == Some(manager)
            &&& after[alias].wallet == Some(wallet)
            &&& after[alias].status == "DISCONNECTED"@
            &&& crate::text::parsed_u64(after[alias].available_credits) == Some(0u64)
            &&& after[alias].available_credits == seq!['0']
            &&& after[alias].total_credits == seq!['0']
            &&& forall|id: Seq<char>| !#[trigger] after[alias].proposals.contains_key(id)
            &&& after[alias].proposals.len() == 0
            &&& after[alias].total_scanned == 0
            &&& after[alias].network_block_height == 0
            &&& after.contains_key(other) == wallets.contains_key(other)
            &&& wallets.contains_key(other) ==> after[other] == wallets[other]
        }),
{
    reveal_strlit("0");
    assert("0"@ =~= seq!['0']);
    crate::text::decimal_reads_back(0);
    assert(crate::text::decimal(0) =~= seq!['0']);
}

/// A wallet that is given a status has that status, whatever it had before; everything else of
/// it stays, and so do all other wallets. Where no wallet is open nothing happens.
pub proof fn status_is_replaced_whatever_it_was<M, W>(
    wallets: Map<Seq<char>, SlotView<M, W>>,
    alias: Seq<char>,
    other: Seq<char>,
    status: Seq<char>,
)
    requires
        other != alias,
    ensures
        ({
            let after = with_status(wallets, alias, status);
            &&& forall|a: Seq<char>| #[trigger] after.contains_key(a) <==> wallets.contains_key(a)
            &&& wallets.contains_key(alias) ==> after[alias].status == status
            &&& wallets.contains_key(alias) ==> {
                &&& after[alias].mnemonic == wallets[alias].mnemonic
                &&& after[alias].network == wallets[alias].network
                &&& after[alias].account == wallets[alias].account
                &&& after[alias].address == wallets[alias].address
                &&& after[alias].viewing_key == wallets[alias].viewing_key
                &&& after[alias].available_credits == wallets[alias].available_credits
                &&& after[alias].total_credits == wallets[alias].total_credits
                &&& after[alias].proposals == wallets[alias].proposals
                &&& after[alias].manager == wallets[alias].manager
                &&& after[alias].wallet == wallets[alias].wallet
                &&& after[alias].total_scanned == wallets[alias].total_scanned
                &&& after[alias].network_block_height == wallets[alias].network_block_height
            }
            &&& wallets.contains_key(other) ==> after[other] == wallets[other]
        }),
{
}

/// An operation that needs an open wallet answers well exactly where one is open under the
/// alias, and otherwise that the alias is unknown.
pub proof fn unknown_alias_is_told<M, W>(
    r: WalletResult<()>,
    wallets: Map<Seq<char>, SlotView<M, W>>,
    alias: Seq<char>,
)
    requires
        known(r, wallets, alias),
    ensures
        r is Ok <==> wallets.contains_key(alias),
        r matches Err(message) ==> message@ == "unknown alias"@,
{
}

/// After a wallet was closed its alias is unknown, whatever was open before, to everything that
/// asks for its address or its handles, and the wallets under other aliases are as they were.
pub proof fn closed_wallet_is_unknown<M, W>(
    wallets: Map<Seq<char>, SlotView<M, W>>,
    alias: Seq<char>,
    other: Seq<char>,
)
    requires
        other != alias,
    ensures
        !closed(wallets, alias).contains_key(alias),
        address_under(closed(wallets, alias), alias) == Err::<Seq<char>, Seq<char>>(
            "unknown alias"@,
        ),
        handles_under(closed(wallets, alias), alias) == Err::<(Option<M>, Option<W>), Seq<char>>(
            "unknown alias"@,
        ),
        closed(wallets, alias).contains_key(other) == wallets.contains_key(other),
        wallets.contains_key(other) ==> closed(wallets, alias)[other] == wallets[other],
{
}

/// An open wallet gives its own address and its own handles.
pub proof fn open_wallet_gives_its_own<M, W>(
    wallets: Map<Seq<char>, SlotView<M, W>>,
    alias: Seq<char>,
)
    requires
        wallets.contains_key(alias),
    ensures
        address_under(wallets, alias) == Ok::<Seq<char>, Seq<char>>(wallets[alias].address),
        handles_under(wallets, alias) == Ok::<(Option<M>, Option<W>), Seq<char>>(
            (wallets[alias].manager, wallets[alias].wallet),
        ),
{
}

/// A wallet that was entered and asked for its address gives the address that it was entered
/// with, and closing it leaves the wallets without it.
pub proof fn entering_and_closing<M, W>(
    wallets: Map<Seq<char>, SlotView<M, W>>,
    alias: Seq<char>,
    mnemonic: Seq<char>,
    network: Seq<char>,
    account: u32,
    address: Seq<char>,
    viewing_key: Seq<char>,
    manager: M,
    wallet: W,
)
    ensures
        ({
            let slot = fresh_slot(mnemonic, network, account, address, viewing_key, manager, wallet);
            let entered = wallets.insert(alias, slot);
            &&& address_under(entered, alias) == Ok::<Seq<char>, Seq<char>>(address)
            &&& handles_under(entered, alias) == Ok::<(Option<M>, Option<W>), Seq<char>>(
                (Some(manager), Some(wallet)),
            )
            &&& closed(entered, alias) == closed(wallets, alias)
            &&& !wallets.contains_key(alias) ==> closed(entered, alias) == wallets
        }),
{
    let slot = fresh_slot(mnemonic, network, account, address, viewing_key, manager, wallet);
    assert(closed(wallets.insert(alias, slot), alias) =~= closed(wallets, alias));
    if !wallets.contains_key(alias) {
        assert(closed(wallets, alias) =~= wallets);
    }
}

}
