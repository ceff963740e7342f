//! Making a transfer that was quoted: the claim on the proposal, the plan of the spend, and
//! the steps up to the transaction identifier.

use crate::activity::{ActivityEntry, Direction};
use crate::address::recipient_from_decoded;
use crate::bech32m::{bech32_decode, Decoded};
use crate::client::{put, take, ClientSlot, Clients, PendingProposal};
use crate::hexadecimal::hex_encode;
use crate::json_text::{object_dump, object_insert, object_new};
use crate::keys::phrase_to_seed;
use crate::memo::{pad_memo, WIRE_LENGTH};
use crate::network::WalletResult;
use crate::text::{decimal_text, joined, parse_u64};
use json::object::Object;
use vstd::prelude::*;

verus! {

// ---------------------------------------------------------------------------
// The claim
// ---------------------------------------------------------------------------

/// A proposal that was taken from its wallet, with what the transfer needs of the wallet.
pub struct Claim {
    pub proposal: PendingProposal,
    pub account: u32,
    pub network: String,
}

/// The message about an identifier under which no proposal is pending.
pub open spec fn unknown_proposal() -> Seq<char> {
    "unknown proposal"@
}

/// A wallet without one of its proposals.
pub open spec fn without_proposal<M, W>(
    slot: crate::client::SlotView<M, W>,
    id: Seq<char>,
) -> crate::client::SlotView<M, W> {
    crate::client::SlotView { proposals: slot.proposals.remove(id), ..slot }
}

/// The wallets after a proposal was claimed: it is gone from its wallet, if it was there.
pub open spec fn after_claim<M, W>(
    wallets: Map<Seq<char>, crate::client::SlotView<M, W>>,
    alias: Seq<char>,
    id: Seq<char>,
) -> Map<Seq<char>, crate::client::SlotView<M, W>> {
    if wallets.contains_key(alias) && wallets[alias].proposals.contains_key(id) {
        wallets.insert(alias, without_proposal(wallets[alias], id))
    } else {
        wallets
    }
}

/// What a claim answers: the proposal, with the account and the network of its wallet, or
/// why there is none. A wallet that lacks a handle answers so although the proposal is gone.
pub open spec fn claimed<M, W>(
    wallets: Map<Seq<char>, crate::client::SlotView<M, W>>,
    alias: Seq<char>,
    id: Seq<char>,
) -> Result<(crate::client::ProposalView, u32, Seq<char>), Seq<char>> {
    if !wallets.contains_key(alias) {
        Err(crate::client::unknown_alias())
    } else if !wallets[alias].proposals.contains_key(id) {
        Err(unknown_proposal())
    } else if wallets[alias].wallet is None || wallets[alias].manager is None {
        Err(crate::client::not_initialized())
    } else {
        Ok((wallets[alias].proposals[id], wallets[alias].account, wallets[alias].network))
    }
}

/// A claim or a message, by their contents.
pub open spec fn claim_view(r: WalletResult<Claim>) -> Result<
    (crate::client::ProposalView, u32, Seq<char>),
    Seq<char>,
> {
    match r {
        Ok(claim) => Ok((claim.proposal@, claim.account, claim.network@)),
        Err(message) => Err(message@),
    }
}

/// Takes a proposal from its wallet, so that it is spent at most once.
pub fn claim_proposal<M, W>(clients: &mut Clients<M, W>, alias: &str, proposal_id: &str) -> (r: WalletResult<
    Claim,
>)
    ensures
        claim_view(r) == claimed(crate::client::book(*old(clients)), alias@, proposal_id@),
        crate::client::book(*final(clients)) == after_claim(
            crate::client::book(*old(clients)),
            alias@,
            proposal_id@,
        ),
{
    let mut slot: ClientSlot<M, W> = match take(clients, alias) {
        Some(slot) => slot,
        None => {
            return Err("unknown alias".to_string());
        },
    };
    let ghost was = slot@;
    let taken: Option<PendingProposal> = slot.proposals.remove(proposal_id);
    assert(slot@.proposals =~= was.proposals.remove(proposal_id@));
    let has_wallet: bool = slot.wallet.is_some();
    let has_manager: bool = slot.manager.is_some();
    let account: u32 = slot.account;
    let network: String = slot.network.clone();
    put(clients, alias, slot);
    proof {
        if taken is None {
            assert(was.proposals.remove(proposal_id@) =~= was.proposals);
        }
    }
    match taken {
        None => Err("unknown proposal".to_string()),
        Some(proposal) => if !has_wallet || !has_manager {
            Err("wallet not initialized".to_string())
        } else {
            Ok(Claim { proposal, account, network })
        },
    }
}

// ---------------------------------------------------------------------------
// The plan
// ---------------------------------------------------------------------------

/// Everything that a spend is made from.
pub struct TransferPlan {
    pub account: u32,
    pub recipient: [u8; 43],
    pub amount: u64,
    pub seed: [u8; 64],
    pub memo: [u8; 36],
    pub to_address: String,
}

/// A plan, by its contents.
pub struct PlanView {
    pub account: u32,
    pub recipient: Seq<u8>,
    pub amount: u64,
    pub seed: Seq<u8>,
    pub memo: Seq<u8>,
    pub to_address: Seq<char>,
}

impl View for TransferPlan {
    type V = PlanView;

    open spec fn view(&self) -> PlanView {
        PlanView {
            account: self.account,
            recipient: self.recipient@,
            amount: self.amount,
            seed: self.seed@,
            memo: self.memo@,
            to_address: self.to_address@,
        }
    }
}

/// A plan or a message, by their contents.
pub open spec fn plan_view(r: WalletResult<TransferPlan>) -> Result<PlanView, Seq<char>> {
    match r {
        Ok(plan) => Ok(plan@),
        Err(message) => Err(message@),
    }
}

/// The plan of a transfer, or the first reason why there is none: what the decoder made of
/// the recipient, the amount, or the seed.
pub open spec fn planned(
    proposal: crate::client::ProposalView,
    account: u32,
    network: Seq<char>,
    decoded: Result<(Seq<char>, Seq<u8>), Seq<char>>,
    seed: Result<Seq<u8>, Seq<char>>,
) -> Result<PlanView, Seq<char>> {
    match crate::address::recipient(decoded, network) {
        Err(message) => Err(message),
        Ok(raw) => match crate::text::parsed_u64(proposal.amount_credits) {
            None => Err("amount must be a whole number of credits"@),
            Some(amount) => match seed {
                Err(message) => Err(message),
                Ok(bytes) => Ok(
                    PlanView {
                        account,
                        recipient: raw,
                        amount,
                        seed: bytes,
                        memo: crate::memo::padded(proposal.memo),
                        to_address: proposal.to_address,
                    },
                ),
            },
        },
    }
}

/// Plans a transfer to a recipient given by what the decoder made of its address, from a
/// seed that was derived before.
pub fn plan_decoded(claim: Claim, decoded: &Decoded, seed: Result<[u8; 64], String>) -> (r: WalletResult<
    TransferPlan,
>)
    requires
        crate::memo::memo_bytes(claim.proposal@.memo).len() <= WIRE_LENGTH,
    ensures
        plan_view(r) == planned(
            claim.proposal@,
            claim.account,
            claim.network@,
            crate::bech32m::decoded_view(*decoded),
            crate::keys::seed_view(seed),
        ),
{
    let recipient: [u8; 43] = match recipient_from_decoded(decoded, claim.network.as_str()) {
        Ok(raw) => raw,
        Err(message) => {
            return Err(message);
        },
    };
    let amount: u64 = match parse_u64(claim.proposal.amount_credits.as_str()) {
        Some(amount) => amount,
        None => {
            return Err("amount must be a whole number of credits".to_string());
        },
    };
    let bytes: [u8; 64] = match seed {
        Ok(bytes) => bytes,
        Err(message) => {
            return Err(message);
        },
    };
    let memo: [u8; 36] = pad_memo(claim.proposal.memo.as_str());
    Ok(
        TransferPlan {
            account: claim.account,
            recipient,
            amount,
            seed: bytes,
            memo,
            to_address: claim.proposal.to_address,
        },
    )
}

/// Plans the transfer of a claimed proposal.
///
/// The spend authority is derived from the mnemonic for this transfer alone, from the whole
/// seed: a part of it would derive another wallet.
pub fn plan_transfer(claim: Claim, mnemonic_seed: &str) -> (r: WalletResult<TransferPlan>)
    requires
        crate::memo::memo_bytes(claim.proposal@.memo).len() <= WIRE_LENGTH,
    ensures
        plan_view(r) == planned(
            claim.proposal@,
            claim.account,
            claim.network@,
            crate::bech32m::bech32_decoded(claim.proposal@.to_address),
            crate::keys::bip39_seed(mnemonic_seed@, ""@),
        ),
{
    let decoded: Decoded = bech32_decode(claim.proposal.to_address.as_str());
    plan_decoded(claim, &decoded, phrase_to_seed(mnemonic_seed))
}

// ---------------------------------------------------------------------------
// The steps
// ---------------------------------------------------------------------------

/// How often the activity is looked at for the new spend.
pub const LOOKS: u32 = 40;

/// What is told of a transfer, apart from its identifier.
pub struct Receipt {
    pub amount: u64,
    pub fee: u64,
    pub to_address: String,
}

/// How far a transfer is.
pub enum TransferState {
    /// It is planned.
    Planned { plan: TransferPlan, fee: u64 },
    /// It is being proved and sent; these entries were there before.
    Submitting { receipt: Receipt, before: Vec<Vec<u8>> },
    /// It was accepted, and the activity was looked at this often without finding it.
    Looking { receipt: Receipt, before: Vec<Vec<u8>>, looks: u32 },
    /// It has ended.
    Ended,
}

/// What happened outside.
pub enum TransferEvent {
    /// The wallet has no coordinator.
    NoCoordinator,
    /// The coordinator is there, and the activity held entries with these identifiers.
    Before(Vec<Vec<u8>>),
    /// The spend was accepted, or why it was not.
    Submitted(Result<(), String>),
    /// The activity was looked at; none where it could not be read.
    Looked(Option<Vec<ActivityEntry>>),
}

/// What is to be done next.
pub enum TransferAction {
    /// Prove the spend and send it.
    Submit { account: u32, recipient: [u8; 43], amount: u64, seed: [u8; 64], memo: [u8; 36] },
    /// Look at the activity, after a pause or at once.
    Look { pause: bool },
    /// Answer the host.
    Finish(String),
    /// Tell the host that the transfer failed.
    Fail(String),
}

/// The identifiers of entries, by their contents.
pub open spec fn ids_view(ids: Seq<Vec<u8>>) -> Seq<Seq<u8>> {
    ids.map_values(|id: Vec<u8>| id@)
}

/// Tells whether an entry is a spend that was not there before.
pub open spec fn is_new_spend(entry: ActivityEntry, before: Seq<Seq<u8>>) -> bool {
    entry.direction == Direction::Out && !before.contains(entry.id@)
}

/// The identifier of the first spend that was not there before.
pub open spec fn first_new_spend(entries: Seq<ActivityEntry>, before: Seq<Seq<u8>>) -> Option<Seq<u8>>
    decreases entries.len(),
{
    if entries.len() == 0 {
        None
    } else if is_new_spend(entries.first(), before) {
        Some(entries.first().id@)
    } else {
        first_new_spend(entries.drop_first(), before)
    }
}

/// The identifier of the new spend that a look has found.
pub open spec fn found(entries: Option<Vec<ActivityEntry>>, before: Seq<Seq<u8>>) -> Option<Seq<u8>> {
    match entries {
        Some(list) => first_new_spend(list@, before),
        None => None,
    }
}

/// The answer to a transfer that was made.
pub open spec fn receipt_text(txid: Seq<char>, receipt: Receipt) -> Seq<char> {
    crate::json_text::object_text(
        seq![
            ("txid"@, txid),
            ("amountCredits"@, crate::text::decimal(receipt.amount as nat)),
            ("feeCredits"@, crate::text::decimal(receipt.fee as nat)),
            ("toAddress"@, receipt.to_address@),
        ],
    )
}

/// The message about a transfer that was accepted and did not appear.
pub open spec fn not_recorded() -> Seq<char> {
    "transfer submitted but no outgoing activity was recorded"@
}

/// Tells whether a step ends the transfer with a message.
pub open spec fn fails(next: TransferState, action: TransferAction, message: Seq<char>) -> bool {
    &&& next is Ended
    &&& action is Fail
    &&& action->Fail_0@ == message
}

/// Tells whether an event can happen while a transfer is in a state.
pub open spec fn awaits(state: TransferState, event: TransferEvent) -> bool {
    match (state, event) {
        (TransferState::Planned { .. }, TransferEvent::NoCoordinator) => true,
        (TransferState::Planned { .. }, TransferEvent::Before(_)) => true,
        (TransferState::Submitting { .. }, TransferEvent::Submitted(_)) => true,
        (TransferState::Looking { looks, .. }, TransferEvent::Looked(_)) => looks < LOOKS,
        _ => false,
    }
}

/// Tells which state and which action follow on a state and an event.
pub open spec fn transfer_step(
    state: TransferState,
    event: TransferEvent,
    next: TransferState,
    action: TransferAction,
) -> bool {
    match (state, event) {
        (TransferState::Planned { plan, fee }, TransferEvent::NoCoordinator) => fails(
            next,
            action,
            "shielded coordinator missing"@,
        ),
        (TransferState::Planned { plan, fee }, TransferEvent::Before(ids)) => {
            &&& next is Submitting
            &&& next->Submitting_receipt.amount == plan.amount
            &&& next->Submitting_receipt.fee == fee
            &&& next->Submitting_receipt.to_address@ == plan.to_address@
            &&& next->Submitting_before == ids
            &&& action == (TransferAction::Submit {
                account: plan.account,
                recipient: plan.recipient,
                amount: plan.amount,
                seed: plan.seed,
                memo: plan.memo,
            })
        },
        (TransferState::Submitting { receipt, before }, TransferEvent::Submitted(outcome)) => {
            match outcome {
                Err(e) => fails(next, action, "shielded transfer failed: "@ + e@),
                Ok(_) => {
                    &&& next == (TransferState::Looking { receipt, before, looks: 0 })
                    &&& action == (TransferAction::Look { pause: false })
                },
            }
        },
        (TransferState::Looking { receipt, before, looks }, TransferEvent::Looked(entries)) => {
            match found(entries, ids_view(before@)) {
                Some(id) => if id.len() == 0 {
                    fails(next, action, not_recorded())
                } else {
                    &&& next is Ended
                    &&& action is Finish
                    &&& action->Finish_0@ == receipt_text(
                        crate::hexadecimal::hex_text(id),
                        receipt,
                    )
                },
                None => if looks + 1 < LOOKS {
                    &&& next == (TransferState::Looking {
                        receipt,
                        before,
                        looks: (looks + 1) as u32,
                    })
                    &&& action == (TransferAction::Look { pause: true })
                } else {
                    fails(next, action, not_recorded())
                },
            }
        },
        _ => true,
    }
}

/// Tells whether two byte strings are the same.
fn same_bytes(a: &[u8], b: &[u8]) -> (r: bool)
    ensures
        r == (a@ == b@),
{
    if a.len() != b.len() {
        return false;
    }
    let mut i: usize = 0;
    while i < a.len()
        invariant
            i <= a@.len(),
            a@.len() == b@.len(),
            forall|j: int| 0 <= j < i ==> a@[j] == b@[j],
        decreases a@.len() - i,
    {
        if a[i] != b[i] {
            return false;
        }
        i = i + 1;
    }
    assert(a@ =~= b@);
    true
}

/// Tells whether an identifier is among others.
fn is_among(id: &[u8], ids: &Vec<Vec<u8>>) -> (r: bool)
    ensures
        r == ids_view(ids@).contains(id@),
{
    let mut i: usize = 0;
    while i < ids.len()
        invariant
            i <= ids@.len(),
            forall|j: int| 0 <= j < i ==> (#[trigger] ids@[j])@ != id@,
        decreases ids@.len() - i,
    {
        if same_bytes(ids[i].as_slice(), id) {
            assert(ids_view(ids@)[i as int] == id@);
            return true;
        }
        i = i + 1;
    }
    false
}

/// The place of the first spend that was not there before.
fn find_new_spend(entries: &Vec<ActivityEntry>, before: &Vec<Vec<u8>>) -> (r: Option<usize>)
    ensures
        match r {
            Some(i) => i < entries@.len() && first_new_spend(entries@, ids_view(before@)) == Some(
                entries@[i as int].id@,
            ),
            None => first_new_spend(entries@, ids_view(before@)) is None,
        },
{
    let ghost known = ids_view(before@);
    let mut i: usize = 0;
    assert(entries@.skip(0) =~= entries@);
    while i < entries.len()
        invariant
            i <= entries@.len(),
            known == ids_view(before@),
            first_new_spend(entries@, known) == first_new_spend(entries@.skip(i as int), known),
        decreases entries@.len() - i,
    {
        assert(entries@.skip(i as int).drop_first() =~= entries@.skip(i + 1));
        let entry: &ActivityEntry = &entries[i];
        if entry.direction == Direction::Out && !is_among(entry.id.as_slice(), before) {
            return Some(i);
        }
        i = i + 1;
    }
    None
}

/// The answer to a transfer that was made.
fn receipt_answer(txid: &str, receipt: &Receipt) -> (r: String)
    ensures
        r@ == receipt_text(txid@, *receipt),
{
    proof {
        reveal_strlit("txid");
        reveal_strlit("amountCredits");
        reveal_strlit("feeCredits");
        reveal_strlit("toAddress");
        assert("txid"@.len() != "amountCredits"@.len());
        assert("txid"@.len() != "feeCredits"@.len());
    }
    let mut answer: Object = object_new();
    object_insert(&mut answer, "txid", txid);
    object_insert(&mut answer, "amountCredits", decimal_text(receipt.amount as u128).as_str());
    object_insert(&mut answer, "feeCredits", decimal_text(receipt.fee as u128).as_str());
    object_insert(&mut answer, "toAddress", receipt.to_address.as_str());
    assert(crate::json_text::object_fields(answer) =~= seq![
        ("txid"@, txid@),
        ("amountCredits"@, crate::text::decimal(receipt.amount as nat)),
        ("feeCredits"@, crate::text::decimal(receipt.fee as nat)),
        ("toAddress"@, receipt.to_address@),
    ]);
    object_dump(answer)
}

/// The fee that is told of a transfer: zero where it is not known.
pub open spec fn told_fee(fee: Result<u64, Seq<char>>) -> u64 {
    match fee {
        Ok(credits) => credits,
        Err(_) => 0,
    }
}

/// The fee that is told of a transfer: zero where it is not known.
pub fn receipt_fee(fee: WalletResult<u64>) -> (r: u64)
    ensures
        r == told_fee(crate::proposal::fee_view(fee)),
        r == match fee {
            Ok(credits) => credits,
            Err(_) => 0,
        },
{
    match fee {
        Ok(credits) => credits,
        Err(_) => 0,
    }
}

/// The failure that ends a transfer.
fn failure(message: &str) -> (r: (TransferState, TransferAction))
    ensures
        fails(r.0, r.1, message@),
{
    (TransferState::Ended, TransferAction::Fail(message.to_string()))
}

/// Looks through the activity for the new spend.
fn after_look(receipt: Receipt, before: Vec<Vec<u8>>, looks: u32, entries: Option<Vec<ActivityEntry>>) -> (r: (
    TransferState,
    TransferAction,
))
    requires
        looks < LOOKS,
    ensures
        transfer_step(
            (TransferState::Looking { receipt, before, looks }),
            TransferEvent::Looked(entries),
            r.0,
            r.1,
        ),
{
    let place: Option<usize> = match &entries {
        Some(list) => find_new_spend(list, &before),
        None => None,
    };
    if let (Some(list), Some(i)) = (&entries, place) {
        let txid: String = hex_encode(list[i].id.as_slice());
        if list[i].id.len() == 0 {
            return failure("transfer submitted but no outgoing activity was recorded");
        }
        let answer: String = receipt_answer(txid.as_str(), &receipt);
        return (TransferState::Ended, TransferAction::Finish(answer));
    }
    if looks + 1 < LOOKS {
        (
            TransferState::Looking { receipt, before, looks: looks + 1 },
            TransferAction::Look { pause: true },
        )
    } else {
        failure("transfer submitted but no outgoing activity was recorded")
    }
}

/// One step of a transfer.
///
/// A spend has an identifier only once it is in the activity. So the identifiers that are
/// there before the spend are recorded, and the first spend that is not among them is taken
/// for this transfer's.
pub fn create_transfer(state: TransferState, event: TransferEvent) -> (r: (
    TransferState,
    TransferAction,
))
    requires
        awaits(state, event),
    ensures
        transfer_step(state, event, r.0, r.1),
{
    match (state, event) {
        (TransferState::Planned { .. }, TransferEvent::NoCoordinator) => failure(
            "shielded coordinator missing",
        ),
        (TransferState::Planned { plan, fee }, TransferEvent::Before(ids)) => {
            let action: TransferAction = TransferAction::Submit {
                account: plan.account,
                recipient: plan.recipient,
                amount: plan.amount,
                seed: plan.seed,
                memo: plan.memo,
            };
            let receipt: Receipt = Receipt { amount: plan.amount, fee, to_address: plan.to_address };
            (TransferState::Submitting { receipt, before: ids }, action)
        },
        (TransferState::Submitting { receipt, before }, TransferEvent::Submitted(outcome)) => match outcome {
            Err(e) => failure(joined("shielded transfer failed: ", e.as_str()).as_str()),
            Ok(_) => (
                TransferState::Looking { receipt, before, looks: 0 },
                TransferAction::Look { pause: false },
            ),
        },
        (TransferState::Looking { receipt, before, looks }, TransferEvent::Looked(entries)) => after_look(
            receipt,
            before,
            looks,
            entries,
        ),
        _ => (TransferState::Ended, TransferAction::Look { pause: false }),
    }
}

// ---------------------------------------------------------------------------
// Laws
// ---------------------------------------------------------------------------

/// A proposal is spent at most once: a second claim on it is refused, whether the first one
/// was granted or not.
pub proof fn proposal_is_claimed_once<M, W>(
    wallets: Map<Seq<char>, crate::client::SlotView<M, W>>,
    alias: Seq<char>,
    id: Seq<char>,
)
    ensures
        claimed(after_claim(wallets, alias, id), alias, id) == if wallets.contains_key(alias) {
            Err::<(crate::client::ProposalView, u32, Seq<char>), Seq<char>>(unknown_proposal())
        } else {
            Err::<(crate::client::ProposalView, u32, Seq<char>), Seq<char>>(
                crate::client::unknown_alias(),
            )
        },
{
}

/// A claim touches no other proposal and no other wallet.
pub proof fn claim_touches_nothing_else<M, W>(
    wallets: Map<Seq<char>, crate::client::SlotView<M, W>>,
    alias: Seq<char>,
    id: Seq<char>,
    other_alias: Seq<char>,
    other_id: Seq<char>,
)
    requires
        other_alias != alias || other_id != id,
    ensures
        after_claim(wallets, alias, id).dom() =~= wallets.dom(),
        claimed(after_claim(wallets, alias, id), other_alias, other_id) == claimed(
            wallets,
            other_alias,
            other_id,
        ),
{
}

/// Where every pending proposal could have been quoted, one that is claimed can be planned:
/// its memo fits, its recipient is that of the quote, and its amount is positive. Only the
/// mnemonic can still be refused.
pub proof fn claimed_proposal_can_be_planned<M, W>(
    wallets: Map<Seq<char>, crate::client::SlotView<M, W>>,
    alias: Seq<char>,
    id: Seq<char>,
    seed: Seq<u8>,
)
    requires
        crate::proposal::all_quotable(wallets),
        claimed(wallets, alias, id) is Ok,
    ensures
        ({
            let (proposal, account, network) = claimed(wallets, alias, id)->Ok_0;
            let decoded = crate::bech32m::bech32_decoded(proposal.to_address);
            let plan = planned(proposal, account, network, decoded, Ok(seed));
            &&& crate::memo::memo_bytes(proposal.memo).len() <= WIRE_LENGTH
            &&& plan is Ok
            &&& crate::address::stands_for(proposal.to_address, network, plan->Ok_0.recipient)
            &&& plan->Ok_0.amount > 0
            &&& plan->Ok_0.amount == crate::proposal::number_or_zero(proposal.amount_credits)
            &&& plan->Ok_0.seed == seed
        }),
{
}

/// A claim keeps every pending proposal quotable.
pub proof fn claiming_keeps_proposals_quotable<M, W>(
    wallets: Map<Seq<char>, crate::client::SlotView<M, W>>,
    alias: Seq<char>,
    id: Seq<char>,
)
    requires
        crate::proposal::all_quotable(wallets),
    ensures
        crate::proposal::all_quotable(after_claim(wallets, alias, id)),
{
}

/// The transaction that is told of is a spend, it is in the activity, and it was not there
/// before the transfer was sent.
pub proof fn told_spend_is_new(entries: Seq<ActivityEntry>, before: Seq<Seq<u8>>)
    ensures
        first_new_spend(entries, before) matches Some(id) ==> !before.contains(id) && exists|i: int|
            0 <= i < entries.len() && (#[trigger] entries[i]).id@ == id && entries[i].direction
                == Direction::Out && forall|j: int|
                0 <= j < i ==> !is_new_spend(#[trigger] entries[j], before),
        first_new_spend(entries, before) is None ==> forall|j: int|
            0 <= j < entries.len() ==> !is_new_spend(#[trigger] entries[j], before),
    decreases entries.len(),
{
    if entries.len() > 0 {
        let rest = entries.drop_first();
        told_spend_is_new(rest, before);
        if !is_new_spend(entries.first(), before) {
            assert forall|j: int|
                0 < j < entries.len() && !is_new_spend(rest[j - 1], before) implies !is_new_spend(
                #[trigger] entries[j],
                before,
            ) by {
                assert(entries[j] == rest[j - 1]);
            }
            if first_new_spend(entries, before) is Some {
                let id = first_new_spend(entries, before)->0;
                let k = choose|k: int|
                    0 <= k < rest.len() && (#[trigger] rest[k]).id@ == id && rest[k].direction
                        == Direction::Out && forall|j: int|
                        0 <= j < k ==> !is_new_spend(#[trigger] rest[j], before);
                assert(entries[k + 1].id@ == id);
            }
        }
    }
}

/// The most steps that a transfer takes from a state.
pub open spec fn steps_left(state: TransferState) -> nat {
    match state {
        TransferState::Planned { .. } => (LOOKS + 2) as nat,
        TransferState::Submitting { .. } => (LOOKS + 1) as nat,
        TransferState::Looking { looks, .. } => if looks < LOOKS {
            (LOOKS - looks) as nat
        } else {
            0
        },
        TransferState::Ended => 0,
    }
}

/// A transfer ends: each step leaves fewer steps, the host is answered exactly where it has
/// ended, and a state that has not ended awaits the outcome of its action.
pub proof fn transfer_ends(
    state: TransferState,
    event: TransferEvent,
    next: TransferState,
    action: TransferAction,
)
    requires
        awaits(state, event),
        transfer_step(state, event, next, action),
    ensures
        steps_left(next) < steps_left(state),
        next is Ended <==> action is Finish || action is Fail,
        action is Submit ==> next is Submitting,
        action is Look ==> next is Looking && next->looks < LOOKS,
{
}

/// What is told of a transfer is what was planned: the amount and the address stay from the
/// plan to the answer, and so do the identifiers that were there before.
pub proof fn answer_tells_of_the_plan(
    plan: TransferPlan,
    fee: u64,
    ids: Vec<Vec<u8>>,
    submitting: TransferState,
    submit: TransferAction,
    looks: u32,
    entries: Option<Vec<ActivityEntry>>,
    next: TransferState,
    answer: TransferAction,
)
    requires
        transfer_step(
            (TransferState::Planned { plan, fee }),
            TransferEvent::Before(ids),
            submitting,
            submit,
        ),
        transfer_step(
            (TransferState::Looking {
                receipt: submitting->Submitting_receipt,
                before: submitting->Submitting_before,
                looks,
            }),
            TransferEvent::Looked(entries),
            next,
            answer,
        ),
        answer is Finish,
    ensures
        found(entries, ids_view(ids@)) is Some,
        answer->Finish_0@ == crate::json_text::object_text(
            seq![
                ("txid"@, crate::hexadecimal::hex_text(found(entries, ids_view(ids@))->0)),
                ("amountCredits"@, crate::text::decimal(plan.amount as nat)),
                ("feeCredits"@, crate::text::decimal(fee as nat)),
                ("toAddress"@, plan.to_address@),
            ],
        ),
{
}

/// What is submitted is the plan, all of it: for every plan the spend carries its account, its
/// recipient, its amount, its seed and its memo, and the receipt carries its amount, its address
/// and the fee.
pub proof fn plan_is_submitted_whole(
    plan: TransferPlan,
    fee: u64,
    ids: Vec<Vec<u8>>,
    next: TransferState,
    action: TransferAction,
)
    requires
        transfer_step(
            (TransferState::Planned { plan, fee }),
            TransferEvent::Before(ids),
            next,
            action,
        ),
    ensures
        action is Submit,
        action->account == plan.account,
        action->recipient == plan.recipient,
        action->Submit_amount == plan.amount,
        action->seed == plan.seed,
        action->memo == plan.memo,
        next is Submitting,
        next->Submitting_receipt.amount == plan.amount,
        next->Submitting_receipt.fee == fee,
        next->Submitting_receipt.to_address@ == plan.to_address@,
        next->Submitting_before == ids,
{
}

/// What is submitted is what was proposed: the amount that its text reads as, to the raw address
/// that its recipient stands for on the network, with its memo and zeros, from the account and
/// the whole seed.
pub proof fn proposal_is_submitted(
    proposal: crate::client::ProposalView,
    account: u32,
    network: Seq<char>,
    seed: Result<Seq<u8>, Seq<char>>,
    plan: TransferPlan,
    fee: u64,
    ids: Vec<Vec<u8>>,
    next: TransferState,
    action: TransferAction,
)
    requires
        planned(
            proposal,
            account,
            network,
            crate::bech32m::bech32_decoded(proposal.to_address),
            seed,
        ) == Ok::<PlanView, Seq<char>>(plan@),
        transfer_step(
            (TransferState::Planned { plan, fee }),
            TransferEvent::Before(ids),
            next,
            action,
        ),
    ensures
        action is Submit,
        crate::text::parsed_u64(proposal.amount_credits) == Some(action->Submit_amount),
        crate::address::stands_for(proposal.to_address, network, action->recipient@),
        seed == Ok::<Seq<u8>, Seq<char>>(action->seed@),
        action->account == account,
        action->memo@ == crate::memo::padded(proposal.memo),
        next->Submitting_receipt.amount == action->Submit_amount,
        next->Submitting_receipt.to_address@ == proposal.to_address,
{
}

/// What is told of a transfer is what was submitted: `amountCredits` reads back as the amount of
/// the spend, `feeCredits` as the fee, `toAddress` is the address, and `txid` reads back as the
/// identifier of a spend that was not in the activity before.
pub proof fn answer_tells_what_was_submitted(
    plan: TransferPlan,
    fee: u64,
    ids: Vec<Vec<u8>>,
    submitting: TransferState,
    submit: TransferAction,
    looks: u32,
    entries: Option<Vec<ActivityEntry>>,
    next: TransferState,
    answer: TransferAction,
)
    requires
        transfer_step(
            (TransferState::Planned { plan, fee }),
            TransferEvent::Before(ids),
            submitting,
            submit,
        ),
        transfer_step(
            (TransferState::Looking {
                receipt: submitting->Submitting_receipt,
                before: submitting->Submitting_before,
                looks,
            }),
            TransferEvent::Looked(entries),
            next,
            answer,
        ),
        answer is Finish,
    ensures
        exists|fields: Seq<(Seq<char>, Seq<char>)>, id: Seq<u8>|
            {
                &&& answer->Finish_0@ == #[trigger] crate::json_text::object_text(fields)
                &&& fields.len() == 4
                &&& fields[0].0 == "txid"@
                &&& fields[1].0 == "amountCredits"@
                &&& fields[2].0 == "feeCredits"@
                &&& fields[3].0 == "toAddress"@
                &&& fields[0].1 == #[trigger] crate::hexadecimal::hex_text(id)
                &&& crate::hexadecimal::hex_bytes(fields[0].1) == Some(id)
                &&& id.len() > 0
                &&& crate::text::parsed_u64(fields[1].1) == Some(submit->Submit_amount)
                &&& fields[1].1 == crate::text::decimal(submit->Submit_amount as nat)
                &&& crate::text::parsed_u64(fields[2].1) == Some(fee)
                &&& fields[2].1 == crate::text::decimal(fee as nat)
                &&& fields[3].1 == plan.to_address@
                &&& entries is Some
                &&& exists|i: int|
                    0 <= i < entries->0@.len() && (#[trigger] entries->0@[i]).id@ == id
                        && entries->0@[i].direction == Direction::Out
                &&& forall|j: int| 0 <= j < ids@.len() ==> (#[trigger] ids@[j])@ != id
            },
{
    let known = ids_view(ids@);
    let id = found(entries, known)->0;
    told_spend_is_new(entries->0@, known);
    crate::hexadecimal::hex_reads_back(id);
    crate::text::decimal_reads_back(plan.amount);
    crate::text::decimal_reads_back(fee);
    assert forall|j: int| 0 <= j < ids@.len() implies (#[trigger] ids@[j])@ != id by {
        assert(known[j] == ids@[j]@);
    }
    let fields = seq![
        ("txid"@, crate::hexadecimal::hex_text(id)),
        ("amountCredits"@, crate::text::decimal(plan.amount as nat)),
        ("feeCredits"@, crate::text::decimal(fee as nat)),
        ("toAddress"@, plan.to_address@),
    ];
    assert(answer->Finish_0@ == crate::json_text::object_text(fields));
}

/// A transfer is planned exactly where its recipient is an address of the network, its amount
/// is a number, and its mnemonic has a seed; the plan is made of these, the account and the
/// memo.
pub proof fn plan_is_made_of_the_proposal(
    proposal: crate::client::ProposalView,
    account: u32,
    network: Seq<char>,
    decoded: Result<(Seq<char>, Seq<u8>), Seq<char>>,
    seed: Result<Seq<u8>, Seq<char>>,
)
    ensures
        ({
            let plan = planned(proposal, account, network, decoded, seed);
            let recipient = crate::address::recipient(decoded, network);
            let amount = crate::text::parsed_u64(proposal.amount_credits);
            &&& plan is Ok <==> recipient is Ok && amount is Some && seed is Ok
            &&& plan is Ok ==> {
                &&& plan->Ok_0.account == account
                &&& plan->Ok_0.recipient == recipient->Ok_0
                &&& Some(plan->Ok_0.amount) == amount
                &&& plan->Ok_0.seed == seed->Ok_0
                &&& plan->Ok_0.memo == crate::memo::padded(proposal.memo)
                &&& plan->Ok_0.to_address == proposal.to_address
            }
            &&& plan is Err ==> plan->Err_0 == if recipient is Err {
                recipient->Err_0
            } else if amount is None {
                "amount must be a whole number of credits"@
            } else {
                seed->Err_0
            }
        }),
{
}

/// What is said of a plan says every field of it, as it is.
pub proof fn plan_view_tells_every_field(plan: TransferPlan)
    ensures
        plan@.account == plan.account,
        plan@.recipient == plan.recipient@,
        plan@.amount == plan.amount,
        plan@.seed == plan.seed@,
        plan@.memo == plan.memo@,
        plan@.to_address == plan.to_address@,
{
}

/// A claim is granted exactly where a wallet with both handles is open under the alias and has
/// the proposal; it gives that proposal, with the account and the network of that wallet. A
/// claim that is refused tells the first reason that there is.
pub proof fn claim_gives_the_pending_proposal<M, W>(
    wallets: Map<Seq<char>, crate::client::SlotView<M, W>>,
    alias: Seq<char>,
    id: Seq<char>,
)
    ensures
        ({
            let claim = claimed(wallets, alias, id);
            let slot = wallets[alias];
            &&& claim is Ok <==> wallets.contains_key(alias) && slot.proposals.contains_key(id)
                && slot.manager is Some && slot.wallet is Some
            &&& claim is Ok ==> {
                &&& claim->Ok_0.0.to_address == slot.proposals[id].to_address
                &&& claim->Ok_0.0.amount_credits == slot.proposals[id].amount_credits
                &&& claim->Ok_0.0.memo == slot.proposals[id].memo
                &&& claim->Ok_0.1 == slot.account
                &&& claim->Ok_0.2 == slot.network
            }
            &&& claim is Err ==> claim->Err_0 == if !wallets.contains_key(alias) {
                "unknown alias"@
            } else if !slot.proposals.contains_key(id) {
                "unknown proposal"@
            } else {
                "wallet not initialized"@
            }
        }),
{
}

/// A claim takes the proposal from its wallet, granted or not, and leaves the wallet's other
/// proposals, everything else of it, and the other wallets.
pub proof fn claim_takes_the_proposal_alone<M, W>(
    wallets: Map<Seq<char>, crate::client::SlotView<M, W>>,
    alias: Seq<char>,
    id: Seq<char>,
    other_alias: Seq<char>,
    other_id: Seq<char>,
)
    requires
        other_alias != alias,
        other_id != id,
    ensures
        ({
            let after = after_claim(wallets, alias, id);
            &&& after.contains_key(alias) <==> wallets.contains_key(alias)
            &&& after.contains_key(other_alias) <==> wallets.contains_key(other_alias)
            &&& wallets.contains_key(other_alias) ==> after[other_alias] == wallets[other_alias]
            &&& wallets.contains_key(alias) ==> {
                &&& !after[alias].proposals.contains_key(id)
                &&& after[alias].proposals.contains_key(other_id)
                    <==> wallets[alias].proposals.contains_key(other_id)
                &&& wallets[alias].proposals.contains_key(other_id)
                    ==> after[alias].proposals[other_id] == wallets[alias].proposals[other_id]
                &&& after[alias].mnemonic == wallets[alias].mnemonic
                &&& after[alias].network == wallets[alias].network
                &&& after[alias].account == wallets[alias].account
                &&& after[alias].address == wallets[alias].address
                &&& after[alias].viewing_key == wallets[alias].viewing_key
                &&& after[alias].status == wallets[alias].status
                &&& after[alias].available_credits == wallets[alias].available_credits
                &&& after[alias].total_credits == wallets[alias].total_credits
                &&& after[alias].manager == wallets[alias].manager
                &&& after[alias].wallet == wallets[alias].wallet
                &&& after[alias].total_scanned == wallets[alias].total_scanned
                &&& after[alias].network_block_height == wallets[alias].network_block_height
            }
        }),
{
}

/// A transfer without a coordinator, and one that was not accepted, end with their reason.
pub proof fn failed_transfer_tells_its_reason(
    plan: TransferPlan,
    fee: u64,
    receipt: Receipt,
    before: Vec<Vec<u8>>,
    reason: String,
    next: TransferState,
    action: TransferAction,
)
    ensures
        transfer_step(
            (TransferState::Planned { plan, fee }),
            TransferEvent::NoCoordinator,
            next,
            action,
        ) ==> next is Ended && action is Fail && action->Fail_0@ == "shielded coordinator missing"@,
        transfer_step(
            (TransferState::Submitting { receipt, before }),
            TransferEvent::Submitted(Err(reason)),
            next,
            action,
        ) ==> next is Ended && action is Fail && action->Fail_0@ == "shielded transfer failed: "@
            + reason@,
{
}

/// A transfer that was accepted is looked for at once, with the receipt and the identifiers
/// from before, and no look counted.
pub proof fn accepted_transfer_is_looked_for(
    receipt: Receipt,
    before: Vec<Vec<u8>>,
    next: TransferState,
    action: TransferAction,
)
    requires
        transfer_step(
            (TransferState::Submitting { receipt, before }),
            TransferEvent::Submitted(Ok(())),
            next,
            action,
        ),
    ensures
        next is Looking,
        next->Looking_receipt == receipt,
        next->Looking_before == before,
        next->looks == 0,
        action is Look,
        !action->pause,
{
}

/// A look that finds a new spend ends the transfer, a look that finds none leads to another one
/// after a pause, with the same receipt and the same identifiers, and the fortieth such look
/// ends it. A spend is new where its entry is outgoing and its identifier was not there before.
pub proof fn looks_go_on_until_a_spend_is_found(
    receipt: Receipt,
    before: Vec<Vec<u8>>,
    looks: u32,
    entries: Option<Vec<ActivityEntry>>,
    next: TransferState,
    action: TransferAction,
)
    requires
        looks < 40,
        transfer_step(
            (TransferState::Looking { receipt, before, looks }),
            TransferEvent::Looked(entries),
            next,
            action,
        ),
    ensures
        ({
            let seen = entries is Some && exists|i: int|
                0 <= i < entries->0@.len() && (#[trigger] entries->0@[i]).direction == Direction::Out
                    && forall|j: int|
                    0 <= j < before@.len() ==> (#[trigger] before@[j])@ != entries->0@[i].id@;
            &&& seen ==> next is Ended
            &&& !seen && looks < 39 ==> {
                &&& next is Looking
                &&& next->Looking_receipt == receipt
                &&& next->Looking_before == before
                &&& next->looks == looks + 1
                &&& action is Look
                &&& action->pause
            }
            &&& !seen && looks == 39 ==> next is Ended && action is Fail && action->Fail_0@
                == "transfer submitted but no outgoing activity was recorded"@
        }),
{
    let known = ids_view(before@);
    if entries is Some {
        let list = entries->0@;
        told_spend_is_new(list, known);
        if exists|i: int|
            0 <= i < list.len() && (#[trigger] list[i]).direction == Direction::Out && forall|j: int|
                0 <= j < before@.len() ==> (#[trigger] before@[j])@ != list[i].id@ {
            let i = choose|i: int|
                0 <= i < list.len() && (#[trigger] list[i]).direction == Direction::Out && forall|
                    j: int,
                |
                    0 <= j < before@.len() ==> (#[trigger] before@[j])@ != list[i].id@;
            if known.contains(list[i].id@) {
                let k = known.index_of(list[i].id@);
                assert(before@[k]@ == list[i].id@);
            }
            assert(is_new_spend(list[i], known));
        }
        if first_new_spend(list, known) is Some {
            let id = first_new_spend(list, known)->0;
            let i = choose|i: int|
                0 <= i < list.len() && (#[trigger] list[i]).id@ == id && list[i].direction
                    == Direction::Out && forall|j: int|
                    0 <= j < i ==> !is_new_spend(#[trigger] list[j], known);
            assert forall|j: int| 0 <= j < before@.len() implies (#[trigger] before@[j])@ != list[i].id@ by {
                assert(known[j] == before@[j]@);
            }
        }
    }
}

/// A transfer awaits an event in each state but the last: the coordinator's when it is planned,
/// the outcome when it is being sent, and the activity when it is looked for.
pub proof fn transfer_awaits_its_events(
    plan: TransferPlan,
    fee: u64,
    receipt: Receipt,
    before: Vec<Vec<u8>>,
    looks: u32,
    ids: Vec<Vec<u8>>,
    outcome: Result<(), String>,
    entries: Option<Vec<ActivityEntry>>,
)
    ensures
        awaits((TransferState::Planned { plan, fee }), TransferEvent::NoCoordinator),
        awaits((TransferState::Planned { plan, fee }), TransferEvent::Before(ids)),
        awaits((TransferState::Submitting { receipt, before }), TransferEvent::Submitted(outcome)),
        awaits((TransferState::Looking { receipt, before, looks }), TransferEvent::Looked(entries))
            <==> looks < 40,
{
}

/// Of the new spends the first in the activity is told, under its own identifier; one without an
/// identifier cannot be told, and the transfer ends as one that did not appear.
pub proof fn first_new_spend_is_told(
    receipt: Receipt,
    before: Vec<Vec<u8>>,
    looks: u32,
    entries: Vec<ActivityEntry>,
    i: int,
    next: TransferState,
    action: TransferAction,
)
    requires
        transfer_step(
            (TransferState::Looking { receipt, before, looks }),
            TransferEvent::Looked(Some(entries)),
            next,
            action,
        ),
        0 <= i < entries@.len(),
        entries@[i].direction == Direction::Out,
        forall|j: int| 0 <= j < before@.len() ==> (#[trigger] before@[j])@ != entries@[i].id@,
        forall|k: int|
            0 <= k < i ==> (#[trigger] entries@[k]).direction == Direction::In || exists|j: int|
                0 <= j < before@.len() && (#[trigger] before@[j])@ == entries@[k].id@,
    ensures
        next is Ended,
        entries@[i].id@.len() > 0 ==> action is Finish && action->Finish_0@
            == crate::json_text::object_text(
            seq![
                ("txid"@, crate::hexadecimal::hex_text(entries@[i].id@)),
                ("amountCredits"@, crate::text::decimal(receipt.amount as nat)),
                ("feeCredits"@, crate::text::decimal(receipt.fee as nat)),
                ("toAddress"@, receipt.to_address@),
            ],
        ),
        entries@[i].id@.len() == 0 ==> action is Fail && action->Fail_0@
            == "transfer submitted but no outgoing activity was recorded"@,
{
    let known = ids_view(before@);
    let list = entries@;
    told_spend_is_new(list, known);
    if known.contains(list[i].id@) {
        let k = known.index_of(list[i].id@);
        assert(before@[k]@ == list[i].id@);
    }
    assert(is_new_spend(list[i], known));
    assert forall|k: int| 0 <= k < i implies !is_new_spend(#[trigger] list[k], known) by {
        if list[k].direction == Direction::Out {
            let j = choose|j: int| 0 <= j < before@.len() && (#[trigger] before@[j])@ == list[k].id@;
            assert(known[j] == list[k].id@);
        }
    }
    let id = first_new_spend(list, known)->0;
    let first = choose|f: int|
        0 <= f < list.len() && (#[trigger] list[f]).id@ == id && list[f].direction == Direction::Out
            && forall|j: int| 0 <= j < f ==> !is_new_spend(#[trigger] list[j], known);
    assert(is_new_spend(list[first], known));
    assert(first == i);
}

/// The fee that is told of a transfer is the one that is charged, and zero where none is known;
/// a fee that was quoted is told again.
pub proof fn told_fee_is_the_charged_one<M, W>(
    wallets: Map<Seq<char>, crate::client::SlotView<M, W>>,
    alias: Seq<char>,
    amount_credits: Seq<char>,
    decoded: Result<(Seq<char>, Seq<u8>), Seq<char>>,
    memo: Seq<char>,
    fee: Result<u64, Seq<char>>,
    charged: u64,
    message: Seq<char>,
)
    ensures
        told_fee(Ok(charged)) == charged,
        told_fee(Err(message)) == 0,
        crate::proposal::quote(wallets, alias, amount_credits, decoded, memo, fee) matches Ok(quoted)
            ==> told_fee(fee) == quoted,
{
}

/// Claims and plans are told by their contents, and refusals by their messages.
pub proof fn claims_and_plans_are_told_as_they_are(
    claim: WalletResult<Claim>,
    plan: WalletResult<TransferPlan>,
    ids: Seq<Vec<u8>>,
    i: int,
)
    ensures
        claim is Ok <==> claim_view(claim) is Ok,
        claim matches Ok(c) ==> {
            let told = claim_view(claim)->Ok_0;
            &&& told.0.to_address == c.proposal.to_address@
            &&& told.0.amount_credits == c.proposal.amount_credits@
            &&& told.0.memo == c.proposal.memo@
            &&& told.1 == c.account
            &&& told.2 == c.network@
        },
        claim is Err ==> claim_view(claim)->Err_0 == claim->Err_0@,
        plan is Ok <==> plan_view(plan) is Ok,
        plan is Ok ==> plan_view(plan)->Ok_0 == plan->Ok_0@,
        plan is Err ==> plan_view(plan)->Err_0 == plan->Err_0@,
        ids_view(ids).len() == ids.len(),
        0 <= i < ids.len() ==> ids_view(ids)[i] == ids[i]@,
{
}

}
