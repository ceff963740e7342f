//! Quoting a transfer: the checks before it, and the proposal that is kept.

use crate::address::recipient_from_decoded;
use crate::bech32m::{bech32_decode, Decoded};
use crate::client::{put, take, ClientSlot, Clients, PendingProposal};
use crate::json_text::{object_dump, object_insert, object_new};
use crate::memo::{memo_length, MEMO_LIMIT};
use crate::network::WalletResult;
use crate::text::{decimal_text, joined, parse_u64};
use json::object::Object;
use vstd::prelude::*;

verus! {

/// Orchard actions in a transfer of two notes spent and two created, for the recipient and
/// the change. The fee of a transfer is the fee of this many actions.
pub const TRANSFER_ACTIONS: usize = 2;

// ---------------------------------------------------------------------------
// Model
// ---------------------------------------------------------------------------

/// A fee or a message, by their contents.
pub open spec fn fee_view(fee: WalletResult<u64>) -> Result<u64, Seq<char>> {
    match fee {
        Ok(credits) => Ok(credits),
        Err(message) => Err(message@),
    }
}

/// A number that a text reads as, and zero where it reads as none.
pub open spec fn number_or_zero(text: Seq<char>) -> u64 {
    match crate::text::parsed_u64(text) {
        Some(n) => n,
        None => 0,
    }
}

/// What a transfer takes from the wallet: the amount and the fee, as far as 64 bits can
/// tell.
pub open spec fn total_cost(amount: u64, fee: u64) -> u64 {
    if amount + fee <= u64::MAX {
        (amount + fee) as u64
    } else {
        u64::MAX
    }
}

/// The message about a transfer that the wallet has too few credits for.
pub open spec fn insufficient_text(available: u64, amount: u64, fee: u64) -> Seq<char> {
    "insufficient funds: "@ + crate::text::decimal(available as nat)
        + " credits available, need "@ + crate::text::decimal(amount as nat) + " plus "@
        + crate::text::decimal(fee as nat) + " fee"@
}

/// The amount that a request asks for, or why it asks for none.
pub open spec fn requested_amount(amount_credits: Seq<char>) -> Result<u64, Seq<char>> {
    match crate::text::parsed_u64(amount_credits) {
        None => Err("amount must be a whole number of credits"@),
        Some(amount) => if amount == 0 {
            Err("amount must be greater than zero"@)
        } else {
            Ok(amount)
        },
    }
}

/// The fee that a transfer from a wallet is quoted at, or the first reason why there is no
/// quote. The recipient is given by what the decoder made of its address.
pub open spec fn wallet_quote<M, W>(
    slot: crate::client::SlotView<M, W>,
    amount: u64,
    decoded: Result<(Seq<char>, Seq<u8>), Seq<char>>,
    fee: Result<u64, Seq<char>>,
) -> Result<u64, Seq<char>> {
    match crate::address::recipient(decoded, slot.network) {
        Err(message) => Err(message),
        Ok(_) => match fee {
            Err(message) => Err(message),
            Ok(credits) => if number_or_zero(slot.available_credits) < total_cost(amount, credits) {
                Err(insufficient_text(number_or_zero(slot.available_credits), amount, credits))
            } else {
                Ok(credits)
            },
        },
    }
}

/// The fee that a transfer is quoted at, or the first reason why there is no quote: the memo
/// is too long, the amount is no positive whole number, no wallet is open under the alias,
/// the recipient is no address of the wallet's network, there is no fee, or the credits do
/// not suffice.
pub open spec fn quote<M, W>(
    wallets: Map<Seq<char>, crate::client::SlotView<M, W>>,
    alias: Seq<char>,
    amount_credits: Seq<char>,
    decoded: Result<(Seq<char>, Seq<u8>), Seq<char>>,
    memo: Seq<char>,
    fee: Result<u64, Seq<char>>,
) -> Result<u64, Seq<char>> {
    if crate::memo::memo_bytes(memo).len() > MEMO_LIMIT {
        Err("memo exceeds 32 UTF-8 bytes"@)
    } else {
        match requested_amount(amount_credits) {
            Err(message) => Err(message),
            Ok(amount) => if !wallets.contains_key(alias) {
                Err(crate::client::unknown_alias())
            } else {
                wallet_quote(wallets[alias], amount, decoded, fee)
            },
        }
    }
}

/// The memo of a request; none is an empty one.
pub open spec fn memo_or_empty(memo: Option<String>) -> Seq<char> {
    match memo {
        Some(text) => text@,
        None => Seq::empty(),
    }
}

/// The identifier of the next proposal of a wallet that has `pending` of them.
pub open spec fn proposal_id_text(pending: nat) -> Seq<char> {
    "p-"@ + crate::text::decimal(pending + 1)
}

/// The answer to a request that was quoted.
pub open spec fn quote_text(id: Seq<char>, fee: u64) -> Seq<char> {
    crate::json_text::object_text(
        seq![("proposalId"@, id), ("feeCredits"@, crate::text::decimal(fee as nat))],
    )
}

/// A wallet after one more proposal.
pub open spec fn with_proposal<M, W>(
    slot: crate::client::SlotView<M, W>,
    proposal: crate::client::ProposalView,
) -> crate::client::SlotView<M, W> {
    crate::client::SlotView {
        proposals: slot.proposals.insert(proposal_id_text(slot.proposals.len()), proposal),
        ..slot
    }
}

/// Tells whether a proposal could have been quoted on a network: its memo is short enough,
/// its amount is a positive number, and its recipient is an address of the network.
pub open spec fn is_quotable(proposal: crate::client::ProposalView, network: Seq<char>) -> bool {
    &&& crate::memo::memo_bytes(proposal.memo).len() <= MEMO_LIMIT
    &&& requested_amount(proposal.amount_credits) is Ok
    &&& crate::address::decoded_address(proposal.to_address, network) is Ok
}

/// Tells whether every pending proposal of every wallet could have been quoted.
pub open spec fn all_quotable<M, W>(wallets: Map<Seq<char>, crate::client::SlotView<M, W>>) -> bool {
    forall|alias: Seq<char>, id: Seq<char>| #[trigger]
        wallets[alias].proposals.contains_key(id) && wallets.contains_key(alias) ==> is_quotable(
            wallets[alias].proposals[id],
            wallets[alias].network,
        )
}

/// The outcome of a request over the wallets: where it is quoted the proposal is kept and
/// its identifier and fee are told; where it is refused nothing changes.
pub open spec fn proposes<M, W>(
    before: Map<Seq<char>, crate::client::SlotView<M, W>>,
    alias: Seq<char>,
    proposal: crate::client::ProposalView,
    quoted: Result<u64, Seq<char>>,
    after: Map<Seq<char>, crate::client::SlotView<M, W>>,
    answer: Result<Seq<char>, Seq<char>>,
) -> bool {
    match quoted {
        Ok(fee) => {
            &&& after == before.insert(alias, with_proposal(before[alias], proposal))
            &&& answer is Ok
            &&& answer->Ok_0 == quote_text(proposal_id_text(before[alias].proposals.len()), fee)
        },
        Err(message) => {
            &&& after == before
            &&& answer is Err
            &&& answer->Err_0 == message
        },
    }
}

// ---------------------------------------------------------------------------
// Operations
// ---------------------------------------------------------------------------

/// The message about a transfer that the wallet has too few credits for.
fn insufficient(available: u64, amount: u64, fee: u64) -> (r: String)
    ensures
        r@ == insufficient_text(available, amount, fee),
{
    let mut message: String = joined(
        "insufficient funds: ",
        decimal_text(available as u128).as_str(),
    );
    message.append(" credits available, need ");
    message.append(decimal_text(amount as u128).as_str());
    message.append(" plus ");
    message.append(decimal_text(fee as u128).as_str());
    message.append(" fee");
    message
}

/// The amount that a request asks for.
fn amount_of(amount_credits: &str) -> (r: WalletResult<u64>)
    ensures
        fee_view(r) == requested_amount(amount_credits@),
{
    match parse_u64(amount_credits) {
        None => Err("amount must be a whole number of credits".to_string()),
        Some(amount) => if amount == 0 {
            Err("amount must be greater than zero".to_string())
        } else {
            Ok(amount)
        },
    }
}

/// The fee that a transfer from a wallet is quoted at.
fn quote_for<M, W>(
    slot: &ClientSlot<M, W>,
    amount: u64,
    decoded: &Decoded,
    fee: WalletResult<u64>,
) -> (r: WalletResult<u64>)
    ensures
        fee_view(r) == wallet_quote(
            slot@,
            amount,
            crate::bech32m::decoded_view(*decoded),
            fee_view(fee),
        ),
{
    match recipient_from_decoded(decoded, slot.network.as_str()) {
        Ok(_) => {},
        Err(message) => {
            return Err(message);
        },
    }
    let credits: u64 = fee?;
    let available: u64 = match parse_u64(slot.available_credits.as_str()) {
        Some(n) => n,
        None => 0,
    };
    if available < amount.saturating_add(credits) {
        return Err(insufficient(available, amount, credits));
    }
    Ok(credits)
}

/// The answer to a request that was quoted.
fn quote_answer(id: &str, fee: u64) -> (r: String)
    ensures
        r@ == quote_text(id@, fee),
{
    proof {
        reveal_strlit("proposalId");
        reveal_strlit("feeCredits");
        assert("proposalId"@[0] != "feeCredits"@[0]);
    }
    let mut answer: Object = object_new();
    object_insert(&mut answer, "proposalId", id);
    object_insert(&mut answer, "feeCredits", decimal_text(fee as u128).as_str());
    assert(crate::json_text::object_fields(answer) =~= seq![
        ("proposalId"@, id@),
        ("feeCredits"@, crate::text::decimal(fee as nat)),
    ]);
    object_dump(answer)
}

/// Keeps a proposal with a wallet, and gives its identifier.
fn keep_proposal<M, W>(slot: &mut ClientSlot<M, W>, proposal: PendingProposal) -> (r: String)
    ensures
        final(slot)@ == with_proposal(old(slot)@, proposal@),
        r@ == proposal_id_text(old(slot)@.proposals.len()),
{
    let id: String = joined("p-", decimal_text(slot.proposals.len() as u128 + 1).as_str());
    assert(old(slot)@.proposals.dom() =~= old(slot).proposals@.dom());
    slot.proposals.insert(id.clone(), proposal);
    assert(slot@.proposals =~= old(slot)@.proposals.insert(id@, proposal@));
    id
}

/// Quotes a transfer to a recipient given by what the decoder made of its address, and keeps
/// the proposal.
pub fn propose_decoded<M, W>(
    clients: &mut Clients<M, W>,
    alias: &str,
    proposal: PendingProposal,
    decoded: &Decoded,
    fee: WalletResult<u64>,
) -> (r: WalletResult<String>)
    ensures
        proposes(
            crate::client::book(*old(clients)),
            alias@,
            proposal@,
            quote(
                crate::client::book(*old(clients)),
                alias@,
                proposal@.amount_credits,
                crate::bech32m::decoded_view(*decoded),
                proposal@.memo,
                fee_view(fee),
            ),
            crate::client::book(*final(clients)),
            crate::text::text_view(r),
        ),
{
    if memo_length(proposal.memo.as_str()) > MEMO_LIMIT {
        return Err("memo exceeds 32 UTF-8 bytes".to_string());
    }
    let amount: u64 = match amount_of(proposal.amount_credits.as_str()) {
        Ok(amount) => amount,
        Err(message) => {
            return Err(message);
        },
    };
    let mut slot: ClientSlot<M, W> = match take(clients, alias) {
        Some(slot) => slot,
        None => {
            assert(crate::client::book(*clients) =~= crate::client::book(*old(clients)));
            return Err("unknown alias".to_string());
        },
    };
    match quote_for(&slot, amount, decoded, fee) {
        Ok(credits) => {
            let id: String = keep_proposal(&mut slot, proposal);
            put(clients, alias, slot);
            assert(crate::client::book(*clients) =~= crate::client::book(*old(clients)).insert(
                alias@,
                with_proposal(crate::client::book(*old(clients))[alias@], proposal@),
            ));
            Ok(quote_answer(id.as_str(), credits))
        },
        Err(message) => {
            put(clients, alias, slot);
            assert(crate::client::book(*clients) =~= crate::client::book(*old(clients)));
            Err(message)
        },
    }
}

/// Quotes a transfer, and keeps the proposal.
///
/// `fee` is what the network charges for a transfer. A malformed recipient, or one on another
/// network, is refused here, before anyone agrees to the fee.
pub fn propose_transfer<M, W>(
    clients: &mut Clients<M, W>,
    alias: String,
    amount_credits: String,
    to_address: String,
    memo: Option<String>,
    fee: WalletResult<u64>,
) -> (r: WalletResult<String>)
    ensures
        proposes(
            crate::client::book(*old(clients)),
            alias@,
            (crate::client::ProposalView {
                to_address: to_address@,
                amount_credits: amount_credits@,
                memo: memo_or_empty(memo),
            }),
            quote(
                crate::client::book(*old(clients)),
                alias@,
                amount_credits@,
                crate::bech32m::bech32_decoded(to_address@),
                memo_or_empty(memo),
                fee_view(fee),
            ),
            crate::client::book(*final(clients)),
            crate::text::text_view(r),
        ),
{
    let memo_text: String = match memo {
        Some(text) => text,
        None => String::new(),
    };
    let decoded: Decoded = bech32_decode(to_address.as_str());
    let proposal: PendingProposal = PendingProposal { to_address, amount_credits, memo: memo_text };
    propose_decoded(clients, alias.as_str(), proposal, &decoded, fee)
}

// ---------------------------------------------------------------------------
// Laws
// ---------------------------------------------------------------------------

/// What is quoted is sound: the memo is short enough, the amount is positive, the recipient
/// is an address of the wallet's network, and the credits of the wallet cover the amount and
/// the fee, as long as 64 bits can hold their sum.
pub proof fn quoted_transfer_is_covered<M, W>(
    wallets: Map<Seq<char>, crate::client::SlotView<M, W>>,
    alias: Seq<char>,
    amount_credits: Seq<char>,
    decoded: Result<(Seq<char>, Seq<u8>), Seq<char>>,
    memo: Seq<char>,
    fee: Result<u64, Seq<char>>,
)
    requires
        quote(wallets, alias, amount_credits, decoded, memo, fee) is Ok,
        number_or_zero(amount_credits) + fee->Ok_0 <= u64::MAX,
    ensures
        crate::memo::memo_bytes(memo).len() <= MEMO_LIMIT,
        number_or_zero(amount_credits) > 0,
        wallets.contains_key(alias),
        crate::address::recipient(decoded, wallets[alias].network) is Ok,
        quote(wallets, alias, amount_credits, decoded, memo, fee) == fee,
        number_or_zero(amount_credits) + fee->Ok_0 <= number_or_zero(
            wallets[alias].available_credits,
        ),
{
}

/// A transfer that a poll has shown the credits for is quoted, where nothing else is wrong
/// with it.
pub proof fn polled_credits_can_be_spent<M, W>(
    wallets: Map<Seq<char>, crate::client::SlotView<M, W>>,
    alias: Seq<char>,
    reading: crate::poll::Reading,
    balance: u64,
    amount: u64,
    decoded: Result<(Seq<char>, Seq<u8>), Seq<char>>,
    memo: Seq<char>,
    fee: u64,
)
    requires
        wallets.contains_key(alias),
        reading.balance == Some(balance),
        amount > 0,
        amount + fee <= balance,
        crate::address::recipient(decoded, wallets[alias].network) is Ok,
        crate::memo::memo_bytes(memo).len() <= MEMO_LIMIT,
    ensures
        quote(
            wallets.insert(alias, crate::poll::polled(wallets[alias], Some(reading))),
            alias,
            crate::text::decimal(amount as nat),
            decoded,
            memo,
            Ok(fee),
        ) == Ok::<u64, Seq<char>>(fee),
{
    crate::text::decimal_reads_back(balance);
    crate::text::decimal_reads_back(amount);
}

/// A request that is quoted keeps every pending proposal quotable; so does one that is
/// refused.
pub proof fn proposing_keeps_proposals_quotable<M, W>(
    before: Map<Seq<char>, crate::client::SlotView<M, W>>,
    alias: Seq<char>,
    proposal: crate::client::ProposalView,
    fee: Result<u64, Seq<char>>,
    after: Map<Seq<char>, crate::client::SlotView<M, W>>,
    answer: Result<Seq<char>, Seq<char>>,
)
    requires
        all_quotable(before),
        proposes(
            before,
            alias,
            proposal,
            quote(
                before,
                alias,
                proposal.amount_credits,
                crate::bech32m::bech32_decoded(proposal.to_address),
                proposal.memo,
                fee,
            ),
            after,
            answer,
        ),
    ensures
        all_quotable(after),
{
}

/// Opening, closing, scanning and polling keep every pending proposal quotable, and so do the
/// wallets at the start, when there are none.
pub proof fn other_operations_keep_proposals_quotable<M, W>(
    wallets: Map<Seq<char>, crate::client::SlotView<M, W>>,
    alias: Seq<char>,
    status: Seq<char>,
    outcome: Option<crate::sync::PassOutcome>,
    reading: Option<crate::poll::Reading>,
    fresh: crate::client::SlotView<M, W>,
)
    requires
        all_quotable(wallets),
        fresh.proposals == Map::<Seq<char>, crate::client::ProposalView>::empty(),
    ensures
        all_quotable(Map::<Seq<char>, crate::client::SlotView<M, W>>::empty()),
        all_quotable(wallets.insert(alias, fresh)),
        all_quotable(wallets.remove(alias)),
        all_quotable(crate::client::with_status(wallets, alias, status)),
        all_quotable(crate::sync::with_pass(wallets, alias, outcome)),
        wallets.contains_key(alias) ==> all_quotable(
            wallets.insert(alias, crate::poll::polled(wallets[alias], reading)),
        ),
{
    lemma_same_proposals(wallets, wallets.insert(alias, fresh));
    lemma_same_proposals(wallets, wallets.remove(alias));
    lemma_same_proposals(wallets, crate::client::with_status(wallets, alias, status));
    lemma_same_proposals(wallets, crate::sync::with_pass(wallets, alias, outcome));
    if wallets.contains_key(alias) {
        lemma_same_proposals(
            wallets,
            wallets.insert(alias, crate::poll::polled(wallets[alias], reading)),
        );
    }
}

/// Where each wallet has no proposals, or those that it had on the same network, every
/// pending proposal stays quotable.
proof fn lemma_same_proposals<M, W>(
    before: Map<Seq<char>, crate::client::SlotView<M, W>>,
    after: Map<Seq<char>, crate::client::SlotView<M, W>>,
)
    requires
        all_quotable(before),
        forall|a: Seq<char>| #[trigger]
            after.contains_key(a) ==> after[a].proposals == Map::<
                Seq<char>,
                crate::client::ProposalView,
            >::empty() || (before.contains_key(a) && after[a].proposals == before[a].proposals
                && after[a].network == before[a].network),
    ensures
        all_quotable(after),
{
}

/// The proposals of a wallet whose identifiers count up from one without a gap.
pub open spec fn counts_up(proposals: Map<Seq<char>, crate::client::ProposalView>) -> bool {
    forall|id: Seq<char>| #[trigger]
        proposals.contains_key(id) ==> exists|k: nat|
            k < proposals.len() && id == #[trigger] proposal_id_text(k)
}

/// As long as no proposal was claimed, so that the identifiers count up from one, a new
/// proposal has a new identifier: no pending one is lost, and they go on counting up.
pub proof fn new_proposal_has_new_identifier<M, W>(
    slot: crate::client::SlotView<M, W>,
    proposal: crate::client::ProposalView,
)
    requires
        slot.proposals.dom().finite(),
        counts_up(slot.proposals),
    ensures
        !slot.proposals.contains_key(proposal_id_text(slot.proposals.len())),
        forall|id: Seq<char>| #[trigger]
            slot.proposals.contains_key(id) ==> with_proposal(
                slot,
                proposal,
            ).proposals.contains_key(id) && with_proposal(slot, proposal).proposals[id]
                == slot.proposals[id],
        with_proposal(slot, proposal).proposals.len() == slot.proposals.len() + 1,
        counts_up(with_proposal(slot, proposal).proposals),
{
    let n = slot.proposals.len();
    let id = proposal_id_text(n);
    if slot.proposals.contains_key(id) {
        let k = choose|k: nat| k < n && id == #[trigger] proposal_id_text(k);
        lemma_identifiers_differ(k, n);
    }
}

/// Different counts give different identifiers.
proof fn lemma_identifiers_differ(a: nat, b: nat)
    ensures
        proposal_id_text(a) == proposal_id_text(b) ==> a == b,
{
    if proposal_id_text(a) == proposal_id_text(b) {
        let n = "p-"@.len() as int;
        assert(proposal_id_text(a).skip(n) =~= crate::text::decimal(a + 1));
        assert(proposal_id_text(b).skip(n) =~= crate::text::decimal(b + 1));
        crate::text::decimal_is_injective(a + 1, b + 1);
    }
}

/// A transfer is quoted at a fee exactly where that is what the network charges, the memo has at
/// most 32 bytes of UTF-8, the amount is a positive number, a wallet is open under the alias, the
/// recipient is an address of its network, and its credits cover the amount and the fee
/// together. (A sum over 64 bits counts as the largest number that they hold.)
pub proof fn transfer_is_quoted_where_it_can_be_paid<M, W>(
    wallets: Map<Seq<char>, crate::client::SlotView<M, W>>,
    alias: Seq<char>,
    amount_credits: Seq<char>,
    decoded: Result<(Seq<char>, Seq<u8>), Seq<char>>,
    memo: Seq<char>,
    fee: Result<u64, Seq<char>>,
    charged: u64,
)
    ensures
        quote(wallets, alias, amount_credits, decoded, memo, fee) == Ok::<u64, Seq<char>>(charged)
            <==> {
            let amount = crate::text::parsed_u64(amount_credits);
            let held = crate::text::parsed_u64(wallets[alias].available_credits);
            let cost = amount->0 + charged;
            &&& fee == Ok::<u64, Seq<char>>(charged)
            &&& vstd::utf8::encode_utf8(memo).len() <= 32
            &&& amount is Some
            &&& amount->0 > 0
            &&& wallets.contains_key(alias)
            &&& crate::address::recipient(decoded, wallets[alias].network) is Ok
            &&& held is Some
            &&& held->0 >= cost || (held->0 == u64::MAX && cost > u64::MAX)
        },
{
}

/// A transfer that is not quoted is refused for the first reason that there is.
pub proof fn refused_transfer_has_a_reason<M, W>(
    wallets: Map<Seq<char>, crate::client::SlotView<M, W>>,
    alias: Seq<char>,
    amount_credits: Seq<char>,
    decoded: Result<(Seq<char>, Seq<u8>), Seq<char>>,
    memo: Seq<char>,
    fee: Result<u64, Seq<char>>,
)
    requires
        quote(wallets, alias, amount_credits, decoded, memo, fee) is Err,
    ensures
        ({
            let message = quote(wallets, alias, amount_credits, decoded, memo, fee)->Err_0;
            let amount = crate::text::parsed_u64(amount_credits);
            let recipient = crate::address::recipient(decoded, wallets[alias].network);
            if vstd::utf8::encode_utf8(memo).len() > 32 {
                message == "memo exceeds 32 UTF-8 bytes"@
            } else if amount is None {
                message == "amount must be a whole number of credits"@
            } else if amount->0 == 0 {
                message == "amount must be greater than zero"@
            } else if !wallets.contains_key(alias) {
                message == "unknown alias"@
            } else if recipient is Err {
                message == recipient->Err_0
            } else if fee is Err {
                message == fee->Err_0
            } else {
                exists|available: Seq<char>, asked: Seq<char>, charged: Seq<char>|
                    {
                        &&& message == "insufficient funds: "@ + available
                            + " credits available, need "@ + asked + " plus "@ + charged + " fee"@
                        &&& #[trigger] crate::text::parsed_u64(asked) == amount
                        &&& #[trigger] crate::text::parsed_u64(charged) == Some(fee->Ok_0)
                        &&& #[trigger] crate::text::parsed_u64(available) == match crate::text::parsed_u64(
                            wallets[alias].available_credits,
                        ) {
                            Some(n) => Some(n),
                            None => Some(0u64),
                        }
                    }
            }
        }),
{
    let amount = crate::text::parsed_u64(amount_credits);
    if amount is Some && fee is Ok {
        let available = number_or_zero(wallets[alias].available_credits);
        crate::text::decimal_reads_back(available);
        crate::text::decimal_reads_back(amount->0);
        crate::text::decimal_reads_back(fee->Ok_0);
        assert(crate::text::parsed_u64(crate::text::decimal(available as nat)) == Some(available));
        assert(crate::text::parsed_u64(crate::text::decimal(amount->0 as nat)) == amount);
        assert(crate::text::parsed_u64(crate::text::decimal(fee->Ok_0 as nat)) == Some(fee->Ok_0));
    }
}

/// Where a request is quoted, the answer is an object of two fields. `feeCredits` reads back as
/// the fee that the network charges and that the credits were held against. `proposalId` is the
/// key under which the wallet now has the proposal, to the recipient, over the amount and with
/// the memo of the request. The wallet's other proposals and everything else of it stay, and so
/// do the other wallets.
pub proof fn quoted_answer_tells_fee_and_proposal<M, W>(
    before: Map<Seq<char>, crate::client::SlotView<M, W>>,
    alias: Seq<char>,
    proposal: crate::client::ProposalView,
    decoded: Result<(Seq<char>, Seq<u8>), Seq<char>>,
    fee: Result<u64, Seq<char>>,
    after: Map<Seq<char>, crate::client::SlotView<M, W>>,
    answer: Result<Seq<char>, Seq<char>>,
)
    requires
        proposes(
            before,
            alias,
            proposal,
            quote(before, alias, proposal.amount_credits, decoded, proposal.memo, fee),
            after,
            answer,
        ),
        answer is Ok,
    ensures
        fee is Ok,
        exists|fields: Seq<(Seq<char>, Seq<char>)>|
            {
                &&& answer->Ok_0 == #[trigger] crate::json_text::object_text(fields)
                &&& fields.len() == 2
                &&& fields[0].0 == "proposalId"@
                &&& fields[1].0 == "feeCredits"@
                &&& crate::text::parsed_u64(fields[1].1) == Some(fee->Ok_0)
                &&& fields[1].1 == crate::text::decimal(fee->Ok_0 as nat)
                &&& after[alias].proposals.contains_key(fields[0].1)
                &&& after[alias].proposals[fields[0].1].to_address == proposal.to_address
                &&& after[alias].proposals[fields[0].1].amount_credits == proposal.amount_credits
                &&& after[alias].proposals[fields[0].1].memo == proposal.memo
                &&& forall|id: Seq<char>|
                    id != fields[0].1 ==> (#[trigger] after[alias].proposals.contains_key(id)
                        <==> before[alias].proposals.contains_key(id))
                &&& forall|id: Seq<char>|
                    id != fields[0].1 && #[trigger] before[alias].proposals.contains_key(id)
                        ==> after[alias].proposals[id] == before[alias].proposals[id]
            },
        before.contains_key(alias),
        after[alias].mnemonic == before[alias].mnemonic,
        after[alias].network == before[alias].network,
        after[alias].account == before[alias].account,
        after[alias].address == before[alias].address,
        after[alias].viewing_key == before[alias].viewing_key,
        after[alias].status == before[alias].status,
        after[alias].available_credits == before[alias].available_credits,
        after[alias].total_credits == before[alias].total_credits,
        after[alias].manager == before[alias].manager,
        after[alias].wallet == before[alias].wallet,
        after[alias].total_scanned == before[alias].total_scanned,
        after[alias].network_block_height == before[alias].network_block_height,
        forall|a: Seq<char>| #[trigger] after.contains_key(a) <==> before.contains_key(a),
        forall|a: Seq<char>|
            a != alias && #[trigger] before.contains_key(a) ==> after[a] == before[a],
{
    let charged = fee->Ok_0;
    crate::text::decimal_reads_back(charged);
    let id = proposal_id_text(before[alias].proposals.len());
    let fields = seq![("proposalId"@, id), ("feeCredits"@, crate::text::decimal(charged as nat))];
    assert(answer->Ok_0 == crate::json_text::object_text(fields));
    assert(fields[0].1 == id);
}

/// A request that is refused answers with its reason and leaves every wallet as it was.
pub proof fn refused_request_changes_nothing<M, W>(
    before: Map<Seq<char>, crate::client::SlotView<M, W>>,
    alias: Seq<char>,
    proposal: crate::client::ProposalView,
    quoted: Result<u64, Seq<char>>,
    after: Map<Seq<char>, crate::client::SlotView<M, W>>,
    answer: Result<Seq<char>, Seq<char>>,
)
    requires
        proposes(before, alias, proposal, quoted, after, answer),
    ensures
        answer is Err <==> quoted is Err,
        answer is Err ==> answer->Err_0 == quoted->Err_0,
        answer is Err ==> after == before,
{
}

/// The identifier of a proposal is `p-` and the number of pending proposals and one more.
pub proof fn identifier_counts_the_proposals(pending: nat)
    ensures
        proposal_id_text(pending).len() > 2,
        proposal_id_text(pending)[0] == 'p',
        proposal_id_text(pending)[1] == '-',
        crate::text::decimal_value(
            proposal_id_text(pending).subrange(2, proposal_id_text(pending).len() as int),
        ) == pending + 1,
        proposal_id_text(pending).subrange(2, proposal_id_text(pending).len() as int)
            == crate::text::decimal(pending + 1),
{
    reveal_strlit("p-");
    crate::text::lemma_decimal_digits(pending + 1);
    assert(proposal_id_text(pending).subrange(2, proposal_id_text(pending).len() as int)
        =~= crate::text::decimal(pending + 1));
}

/// A request without a memo is one with an empty memo, and a memo that is given is kept as it
/// is.
pub proof fn given_memo_is_kept(memo: Option<String>)
    ensures
        memo is None ==> memo_or_empty(memo).len() == 0,
        memo is Some ==> memo_or_empty(memo) == memo->0@,
{
}

/// A wallet that was just entered quotes transfers to the addresses of the network that it was
/// entered with, and to no others, once a poll has shown the credits.
pub proof fn entered_wallet_pays_on_its_network<M, W>(
    wallets: Map<Seq<char>, crate::client::SlotView<M, W>>,
    alias: Seq<char>,
    mnemonic: Seq<char>,
    network: Seq<char>,
    account: u32,
    address: Seq<char>,
    viewing_key: Seq<char>,
    manager: M,
    wallet: W,
    reading: crate::poll::Reading,
    balance: u64,
    amount: u64,
    decoded: Result<(Seq<char>, Seq<u8>), Seq<char>>,
    memo: Seq<char>,
    fee: u64,
)
    requires
        reading.balance == Some(balance),
        amount > 0,
        amount + fee <= balance,
        vstd::utf8::encode_utf8(memo).len() <= 32,
    ensures
        ({
            let slot = crate::client::fresh_slot(
                mnemonic,
                network,
                account,
                address,
                viewing_key,
                manager,
                wallet,
            );
            let after = wallets.insert(alias, crate::poll::polled(slot, Some(reading)));
            quote(
                after,
                alias,
                crate::text::decimal(amount as nat),
                decoded,
                memo,
                Ok(fee),
            ) is Ok <==> crate::address::is_address(decoded, network)
        }),
{
    crate::text::decimal_reads_back(balance);
    crate::text::decimal_reads_back(amount);
    crate::address::valid_iff_decodes(decoded, network);
}

/// Where a pending proposal could have been quoted, its memo, its amount and its recipient are
/// sound.
pub proof fn quotable_proposal_is_sound(proposal: crate::client::ProposalView, network: Seq<char>)
    ensures
        is_quotable(proposal, network) <==> {
            &&& vstd::utf8::encode_utf8(proposal.memo).len() <= 32
            &&& crate::text::parsed_u64(proposal.amount_credits) is Some
            &&& crate::text::parsed_u64(proposal.amount_credits)->0 > 0
            &&& crate::address::recipient(
                crate::bech32m::bech32_decoded(proposal.to_address),
                network,
            ) is Ok
        },
{
}

/// A fee is told as it is, and a missing one by its message.
pub proof fn fees_are_told_as_they_are(fee: WalletResult<u64>)
    ensures
        fee is Ok <==> fee_view(fee) is Ok,
        fee is Ok ==> fee_view(fee)->Ok_0 == fee->Ok_0,
        fee is Err ==> fee_view(fee)->Err_0 == fee->Err_0@,
{
}

}
