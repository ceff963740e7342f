//! The state of a wallet, as it is reported to the host.

use crate::activity::{activity_transactions, ActivityEntry, Transaction};
use crate::alias_map::AliasMap;
use crate::client::{open_slot, put, take, ClientSlot, Clients};
use crate::network::WalletResult;
use crate::text::{decimal_text, starts_with};
use vstd::prelude::*;

verus! {

/// What was read from a wallet that has its handles.
pub struct Reading {
    /// A pass was running when the status was read.
    pub syncing: bool,
    /// The scan loop was running when the status was read.
    pub running: bool,
    /// The sum of the balances; none where they could not be read.
    pub balance: Option<u64>,
    /// A pass was running after the balances were read.
    pub still_syncing: bool,
    /// The activity; empty where it could not be read in time.
    pub activity: Vec<ActivityEntry>,
}

/// The state of a wallet.
pub struct Poll {
    pub alias: String,
    pub status: String,
    /// How far the scan is, in percent.
    pub scan_progress: u8,
    pub network_block_height: u32,
    pub available_credits: String,
    pub total_credits: String,
    pub transactions: Vec<Transaction>,
}

// ---------------------------------------------------------------------------
// Model
// ---------------------------------------------------------------------------

/// The state of a wallet, by its contents.
pub struct PollView {
    pub alias: Seq<char>,
    pub status: Seq<char>,
    pub scan_progress: u8,
    pub network_block_height: u32,
    pub available_credits: Seq<char>,
    pub total_credits: Seq<char>,
    pub transactions: Seq<crate::activity::TransactionView>,
}

impl View for Poll {
    type V = PollView;

    open spec fn view(&self) -> PollView {
        PollView {
            alias: self.alias@,
            status: self.status@,
            scan_progress: self.scan_progress,
            network_block_height: self.network_block_height,
            available_credits: self.available_credits@,
            total_credits: self.total_credits@,
            transactions: crate::activity::transactions_view(self.transactions@),
        }
    }
}

/// The sum of balances.
pub open spec fn sum(balances: Seq<u64>) -> nat
    decreases balances.len(),
{
    if balances.len() == 0 {
        0
    } else {
        sum(balances.drop_last()) + balances.last() as nat
    }
}

/// The status that a reading shows. A wallet without its handles is disconnected.
pub open spec fn read_status(reading: Option<Reading>) -> Seq<char> {
    match reading {
        Some(r) => if r.syncing {
            "SYNCING"@
        } else if r.running {
            "SYNCED"@
        } else {
            "STOPPED"@
        },
        None => "DISCONNECTED"@,
    }
}

/// How far the scan is, in percent: a pass that has ended means that the wallet is current.
pub open spec fn read_progress(reading: Option<Reading>) -> u8 {
    match reading {
        Some(r) => if r.still_syncing {
            50
        } else {
            100
        },
        None => 0,
    }
}

/// The credits that a reading shows; zero where there is no balance to show.
pub open spec fn read_credits(reading: Option<Reading>) -> Seq<char> {
    match reading {
        Some(r) => match r.balance {
            Some(balance) => crate::text::decimal(balance as nat),
            None => "0"@,
        },
        None => "0"@,
    }
}

/// The transactions that a reading shows.
pub open spec fn read_transactions(reading: Option<Reading>, network: Seq<char>) -> Seq<
    crate::activity::TransactionView,
> {
    match reading {
        Some(r) => crate::activity::all_reported(r.activity@, network),
        None => Seq::empty(),
    }
}

/// The status of a wallet after a poll: an error stays until a pass or a request of the host
/// replaces it.
pub open spec fn next_status(status: Seq<char>, reading: Option<Reading>) -> Seq<char> {
    if crate::text::begins_with(status, "ERROR"@) {
        status
    } else {
        read_status(reading)
    }
}

/// A wallet after a poll.
pub open spec fn polled<M, W>(
    slot: crate::client::SlotView<M, W>,
    reading: Option<Reading>,
) -> crate::client::SlotView<M, W> {
    crate::client::SlotView {
        status: next_status(slot.status, reading),
        available_credits: read_credits(reading),
        total_credits: read_credits(reading),
        ..slot
    }
}

/// The height that the scan has reached: the one that was recorded for the alias, or else
/// the one that the wallet holds; no more than 32 bits can tell.
pub open spec fn synced_height(
    heights: Option<Map<Seq<char>, u64>>,
    alias: Seq<char>,
    own: u32,
) -> u32 {
    match heights {
        Some(map) => if map.contains_key(alias) {
            if map[alias] <= u32::MAX {
                map[alias] as u32
            } else {
                u32::MAX
            }
        } else {
            own
        },
        None => own,
    }
}

/// The heights that were recorded, if they could be read.
pub open spec fn heights_view(heights: Option<&AliasMap<u64>>) -> Option<Map<Seq<char>, u64>> {
    match heights {
        Some(map) => Some(map@),
        None => None,
    }
}

/// What is reported of a wallet.
pub open spec fn poll_report<M, W>(
    slot: crate::client::SlotView<M, W>,
    heights: Option<Map<Seq<char>, u64>>,
    alias: Seq<char>,
    network: Seq<char>,
    reading: Option<Reading>,
) -> PollView {
    PollView {
        alias,
        status: next_status(slot.status, reading),
        scan_progress: read_progress(reading),
        network_block_height: synced_height(heights, alias, slot.network_block_height),
        available_credits: read_credits(reading),
        total_credits: read_credits(reading),
        transactions: read_transactions(reading, network),
    }
}

// ---------------------------------------------------------------------------
// Operations
// ---------------------------------------------------------------------------

/// The sum of balances; none where it takes more than 64 bits.
pub fn balance_sum(balances: &Vec<u64>) -> (r: Option<u64>)
    ensures
        match r {
            Some(total) => total == sum(balances@),
            None => sum(balances@) > u64::MAX,
        },
{
    let mut total: u64 = 0;
    let mut i: usize = 0;
    while i < balances.len()
        invariant
            i <= balances@.len(),
            total == sum(balances@.take(i as int)),
        decreases balances@.len() - i,
    {
        proof {
            assert(balances@.take(i + 1).drop_last() =~= balances@.take(i as int));
            lemma_sum_prefix(balances@, i + 1);
        }
        match total.checked_add(balances[i]) {
            Some(next) => {
                total = next;
            },
            None => {
                return None;
            },
        }
        i = i + 1;
    }
    assert(balances@.take(balances@.len() as int) =~= balances@);
    Some(total)
}

/// The first balances sum up to no more than all of them.
proof fn lemma_sum_prefix(balances: Seq<u64>, k: int)
    requires
        0 <= k <= balances.len(),
    ensures
        sum(balances.take(k)) <= sum(balances),
    decreases balances.len() - k,
{
    if k < balances.len() {
        lemma_sum_prefix(balances, k + 1);
        assert(balances.take(k + 1).drop_last() =~= balances.take(k));
    } else {
        assert(balances.take(k) =~= balances);
    }
}

/// The account and the network of the wallet under an alias, or why there is none.
pub open spec fn account_under<M, W>(
    wallets: Map<Seq<char>, crate::client::SlotView<M, W>>,
    alias: Seq<char>,
) -> Result<(u32, Seq<char>), Seq<char>> {
    if wallets.contains_key(alias) {
        Ok((wallets[alias].account, wallets[alias].network))
    } else {
        Err(crate::client::unknown_alias())
    }
}

/// What has to be read for a poll: the handles of the wallet, its account and its network.
pub fn poll_target<'a, M, W>(clients: &'a Clients<M, W>, alias: &str) -> (r: WalletResult<
    (Option<&'a M>, Option<&'a W>, u32, String),
>)
    ensures
        match r {
            Ok((manager, wallet, account, network)) => {
                &&& account_under(crate::client::book(*clients), alias@) == Ok::<
                    (u32, Seq<char>),
                    Seq<char>,
                >((account, network@))
                &&& crate::client::handles_under(crate::client::book(*clients), alias@) is Ok
                &&& crate::client::handle_view(Ok(manager)) == Ok::<Option<M>, Seq<char>>(
                    crate::client::handles_under(crate::client::book(*clients), alias@)->Ok_0.0,
                )
                &&& crate::client::handle_view(Ok(wallet)) == Ok::<Option<W>, Seq<char>>(
                    crate::client::handles_under(crate::client::book(*clients), alias@)->Ok_0.1,
                )
            },
            Err(message) => account_under(crate::client::book(*clients), alias@) == Err::<
                (u32, Seq<char>),
                Seq<char>,
            >(message@),
        },
        match r {
            Ok((manager, wallet, account, network)) => {
                let slot = crate::client::book(*clients)[alias@];
                &&& crate::client::book(*clients).contains_key(alias@)
                &&& match manager {
                    Some(m) => slot.manager == Some(*m),
                    None => slot.manager is None,
                }
                &&& match wallet {
                    Some(w) => slot.wallet == Some(*w),
                    None => slot.wallet is None,
                }
                &&& account == slot.account
                &&& network@ == slot.network
            },
            Err(message) => !crate::client::book(*clients).contains_key(alias@) && message@
                == crate::client::unknown_alias(),
        },
{
    let slot: &ClientSlot<M, W> = open_slot(clients, alias)?;
    let manager: Option<&M> = match &slot.manager {
        Some(manager) => Some(manager),
        None => None,
    };
    let wallet: Option<&W> = match &slot.wallet {
        Some(wallet) => Some(wallet),
        None => None,
    };
    Ok((manager, wallet, slot.account, slot.network.clone()))
}

/// The status that a reading shows.
fn status_of(reading: &Option<Reading>) -> (r: &'static str)
    ensures
        r@ == read_status(*reading),
{
    match reading {
        Some(r) => if r.syncing {
            "SYNCING"
        } else if r.running {
            "SYNCED"
        } else {
            "STOPPED"
        },
        None => "DISCONNECTED",
    }
}

/// The height that the scan has reached.
fn height_of(heights: Option<&AliasMap<u64>>, alias: &str, own: u32) -> (r: u32)
    ensures
        r == synced_height(heights_view(heights), alias@, own),
{
    let recorded: Option<&u64> = match heights {
        Some(map) => map.get(alias),
        None => None,
    };
    match recorded {
        Some(height) => if *height <= u32::MAX as u64 {
            *height as u32
        } else {
            u32::MAX
        },
        None => own,
    }
}

/// Records what was read from a wallet, and reports its state.
///
/// `network` is the network that the wallet was on when the reading began, and `reading` is
/// none where the wallet lacked a handle.
pub fn poll<M, W>(
    clients: &mut Clients<M, W>,
    heights: Option<&AliasMap<u64>>,
    alias: String,
    network: &str,
    reading: Option<Reading>,
) -> (r: WalletResult<Poll>)
    ensures
        match r {
            Ok(report) => {
                let slot = crate::client::book(*old(clients))[alias@];
                &&& crate::client::book(*old(clients)).contains_key(alias@)
                &&& crate::client::book(*final(clients)) == crate::client::book(
                    *old(clients),
                ).insert(alias@, polled(slot, reading))
                &&& report@ == poll_report(slot, heights_view(heights), alias@, network@, reading)
            },
            Err(message) => {
                &&& !crate::client::book(*old(clients)).contains_key(alias@)
                &&& crate::client::book(*final(clients)) == crate::client::book(*old(clients))
                &&& message@ == crate::client::unknown_alias()
            },
        },
{
    let transactions: Vec<Transaction> = match &reading {
        Some(r) => activity_transactions(&r.activity, network),
        None => Vec::new(),
    };
    let credits: String = match &reading {
        Some(r) => match r.balance {
            Some(balance) => decimal_text(balance as u128),
            None => "0".to_string(),
        },
        None => "0".to_string(),
    };
    let scan_progress: u8 = match &reading {
        Some(r) => if r.still_syncing {
            50
        } else {
            100
        },
        None => 0,
    };
    assert(crate::activity::transactions_view(transactions@) =~= read_transactions(
        reading,
        network@,
    ));
    let mut slot: ClientSlot<M, W> = match take(clients, alias.as_str()) {
        Some(slot) => slot,
        None => {
            return Err("unknown alias".to_string());
        },
    };
    if !starts_with(slot.status.as_str(), "ERROR") {
        slot.status = status_of(&reading).to_string();
    }
    slot.available_credits = credits.clone();
    slot.total_credits = credits.clone();
    let status: String = slot.status.clone();
    let network_block_height: u32 = height_of(heights, alias.as_str(), slot.network_block_height);
    put(clients, alias.as_str(), slot);
    Ok(
        Poll {
            alias,
            status,
            scan_progress,
            network_block_height,
            available_credits: credits.clone(),
            total_credits: credits,
            transactions,
        },
    )
}

// ---------------------------------------------------------------------------
// Laws
// ---------------------------------------------------------------------------

/// A status that begins with `ERROR` stays through every poll, and is what the poll reports.
pub proof fn error_status_is_sticky<M, W>(
    slot: crate::client::SlotView<M, W>,
    heights: Option<Map<Seq<char>, u64>>,
    alias: Seq<char>,
    network: Seq<char>,
    reading: Option<Reading>,
)
    requires
        crate::text::begins_with(slot.status, "ERROR"@),
    ensures
        polled(slot, reading).status == slot.status,
        poll_report(slot, heights, alias, network, reading).status == slot.status,
{
}

/// A poll reports the status and the credits that it leaves with the wallet, and touches
/// nothing else of it: its keys, its address, its proposals and its handles stay.
pub proof fn poll_reports_what_it_leaves<M, W>(
    slot: crate::client::SlotView<M, W>,
    heights: Option<Map<Seq<char>, u64>>,
    alias: Seq<char>,
    network: Seq<char>,
    reading: Option<Reading>,
)
    ensures
        ({
            let report = poll_report(slot, heights, alias, network, reading);
            let after = polled(slot, reading);
            &&& report.status == after.status
            &&& report.available_credits == after.available_credits
            &&& report.total_credits == after.total_credits
            &&& after == (crate::client::SlotView {
                status: after.status,
                available_credits: after.available_credits,
                total_credits: after.total_credits,
                ..slot
            })
        }),
{
}

/// The balance that was read is the number that the wallet's credits read back as.
pub proof fn credits_read_back<M, W>(
    slot: crate::client::SlotView<M, W>,
    reading: Reading,
    balance: u64,
)
    requires
        reading.balance == Some(balance),
    ensures
        crate::text::parsed_u64(polled(slot, Some(reading)).available_credits) == Some(balance),
        polled(slot, Some(reading)).total_credits == polled(
            slot,
            Some(reading),
        ).available_credits,
{
    crate::text::decimal_reads_back(balance);
}

/// A second poll with the same reading changes nothing more.
pub proof fn poll_is_idempotent<M, W>(
    slot: crate::client::SlotView<M, W>,
    reading: Option<Reading>,
)
    ensures
        polled(polled(slot, reading), reading) == polled(slot, reading),
{
}

/// What is said of a report says every field of it, as it is.
pub proof fn poll_view_tells_every_field(p: Poll)
    ensures
        p@.alias == p.alias@,
        p@.status == p.status@,
        p@.scan_progress == p.scan_progress,
        p@.network_block_height == p.network_block_height,
        p@.available_credits == p.available_credits@,
        p@.total_credits == p.total_credits@,
        p@.transactions.len() == p.transactions@.len(),
        forall|i: int|
            0 <= i < p.transactions@.len() ==> #[trigger] p@.transactions[i] == p.transactions@[i]@,
{
}

/// The sum of balances counts each of them once.
pub proof fn sum_counts_each_balance(a: Seq<u64>, b: Seq<u64>, x: u64)
    ensures
        sum(Seq::<u64>::empty()) == 0,
        sum(seq![x]) == x,
        sum(a + b) == sum(a) + sum(b),
    decreases b.len(),
{
    assert(seq![x].drop_last() =~= Seq::<u64>::empty());
    if b.len() == 0 {
        assert(a + b =~= a);
    } else {
        sum_counts_each_balance(a, b.drop_last(), x);
        assert((a + b).drop_last() =~= a + b.drop_last());
        assert((a + b).last() == b.last());
    }
}

/// A wallet whose status is no error takes the status of its reading: `SYNCING` while a pass
/// runs, else `SYNCED` while the loop runs, else `STOPPED`; and `DISCONNECTED` without its
/// handles. The report tells it.
pub proof fn status_is_that_of_the_reading<M, W>(
    slot: crate::client::SlotView<M, W>,
    heights: Option<Map<Seq<char>, u64>>,
    alias: Seq<char>,
    network: Seq<char>,
    reading: Option<Reading>,
)
    requires
        !crate::text::begins_with(slot.status, "ERROR"@),
    ensures
        ({
            let status = polled(slot, reading).status;
            &&& poll_report(slot, heights, alias, network, reading).status == status
            &&& reading is None ==> status == "DISCONNECTED"@
            &&& reading matches Some(r) ==> r.syncing ==> status == "SYNCING"@
            &&& reading matches Some(r) ==> !r.syncing && r.running ==> status == "SYNCED"@
            &&& reading matches Some(r) ==> !r.syncing && !r.running ==> status == "STOPPED"@
        }),
{
}

/// Progress is 50 while a pass still runs, 100 when none does, and 0 without the handles.
pub proof fn progress_is_that_of_the_reading<M, W>(
    slot: crate::client::SlotView<M, W>,
    heights: Option<Map<Seq<char>, u64>>,
    alias: Seq<char>,
    network: Seq<char>,
    reading: Option<Reading>,
)
    ensures
        ({
            let progress = poll_report(slot, heights, alias, network, reading).scan_progress;
            &&& reading is None <==> progress == 0
            &&& reading matches Some(r) ==> (r.still_syncing <==> progress == 50)
            &&& reading matches Some(r) ==> (!r.still_syncing <==> progress == 100)
        }),
{
}

/// The credits that are told and kept read back as the balance, and as zero where there is no
/// balance; total and available are the same, and they are written plainly.
pub proof fn credits_are_the_balance<M, W>(
    slot: crate::client::SlotView<M, W>,
    heights: Option<Map<Seq<char>, u64>>,
    alias: Seq<char>,
    network: Seq<char>,
    reading: Option<Reading>,
)
    ensures
        ({
            let report = poll_report(slot, heights, alias, network, reading);
            let after = polled(slot, reading);
            let balance: u64 = match reading {
                Some(r) => match r.balance {
                    Some(n) => n,
                    None => 0,
                },
                None => 0,
            };
            &&& crate::text::parsed_u64(report.available_credits) == Some(balance)
            &&& report.available_credits == crate::text::decimal(balance as nat)
            &&& report.total_credits == report.available_credits
            &&& after.available_credits == report.available_credits
            &&& after.total_credits == report.available_credits
        }),
{
    reveal_strlit("0");
    assert("0"@ =~= crate::text::decimal(0));
    crate::text::decimal_reads_back(0);
    match reading {
        Some(r) => match r.balance {
            Some(n) => {
                crate::text::decimal_reads_back(n);
            },
            None => {},
        },
        None => {},
    }
}

/// The report tells each entry of the activity as a transaction, in order; there are none
/// without the handles.
pub proof fn every_entry_of_the_reading_is_told<M, W>(
    slot: crate::client::SlotView<M, W>,
    heights: Option<Map<Seq<char>, u64>>,
    alias: Seq<char>,
    network: Seq<char>,
    reading: Option<Reading>,
    i: int,
)
    ensures
        ({
            let told = poll_report(slot, heights, alias, network, reading).transactions;
            &&& reading is None ==> told.len() == 0
            &&& reading matches Some(r) ==> told.len() == r.activity@.len()
            &&& reading matches Some(r) ==> 0 <= i < r.activity@.len() ==> told[i]
                == crate::activity::reported(r.activity@[i], network)
        }),
{
}

/// The report carries the alias, and the height that was recorded for that alias, or else the
/// wallet's own; a height over 32 bits is told as the largest that 32 bits hold.
pub proof fn height_is_the_recorded_one<M, W>(
    slot: crate::client::SlotView<M, W>,
    heights: Option<Map<Seq<char>, u64>>,
    alias: Seq<char>,
    network: Seq<char>,
    reading: Option<Reading>,
)
    ensures
        ({
            let report = poll_report(slot, heights, alias, network, reading);
            &&& report.alias == alias
            &&& heights is None ==> report.network_block_height == slot.network_block_height
            &&& heights matches Some(map) ==> !map.contains_key(alias)
                ==> report.network_block_height == slot.network_block_height
            &&& heights matches Some(map) ==> map.contains_key(alias) && map[alias] <= 0xffff_ffff
                ==> report.network_block_height == map[alias]
            &&& heights matches Some(map) ==> map.contains_key(alias) && map[alias] > 0xffff_ffff
                ==> report.network_block_height == 0xffff_ffff
        }),
{
}

/// A poll leaves of the wallet what it does not read: its keys, its account, its network, its
/// address, its proposals, its handles, what it has scanned and its own height.
pub proof fn poll_leaves_the_rest<M, W>(
    slot: crate::client::SlotView<M, W>,
    reading: Option<Reading>,
)
    ensures
        ({
            let after = polled(slot, reading);
            &&& after.mnemonic == slot.mnemonic
            &&& after.network == slot.network
            &&& after.account == slot.account
            &&& after.address == slot.address
            &&& after.viewing_key == slot.viewing_key
            &&& after.proposals == slot.proposals
            &&& after.manager == slot.manager
            &&& after.wallet == slot.wallet
            &&& after.total_scanned == slot.total_scanned
            &&& after.network_block_height == slot.network_block_height
        }),
{
}

/// A failed pass shows in every poll until the scan is started or stopped: after that a poll
/// tells the status of its reading again.
pub proof fn stopping_clears_an_error<M, W>(
    wallets: Map<Seq<char>, crate::client::SlotView<M, W>>,
    alias: Seq<char>,
    reading: Option<Reading>,
)
    requires
        wallets.contains_key(alias),
    ensures
        polled(crate::sync::stopped(wallets, alias)[alias], reading).status == read_status(reading),
        polled(crate::sync::started(wallets, alias)[alias], reading).status == read_status(reading),
        !crate::text::begins_with(read_status(reading), "ERROR"@),
{
    reveal_strlit("ERROR");
    reveal_strlit("STOPPED");
    reveal_strlit("SYNCING");
    reveal_strlit("SYNCED");
    reveal_strlit("DISCONNECTED");
    assert("STOPPED"@.take(5)[0] != "ERROR"@[0]);
    assert("SYNCING"@.take(5)[0] != "ERROR"@[0]);
    assert("SYNCED"@.take(5)[0] != "ERROR"@[0]);
    assert("DISCONNECTED"@.take(5)[0] != "ERROR"@[0]);
}

/// A poll reads the account and the network of the wallet itself; where none is open it is told
/// that the alias is unknown.
pub proof fn poll_reads_the_wallets_own_account<M, W>(
    wallets: Map<Seq<char>, crate::client::SlotView<M, W>>,
    alias: Seq<char>,
)
    ensures
        wallets.contains_key(alias) ==> account_under(wallets, alias) == Ok::<
            (u32, Seq<char>),
            Seq<char>,
        >((wallets[alias].account, wallets[alias].network)),
        !wallets.contains_key(alias) ==> account_under(wallets, alias) == Err::<
            (u32, Seq<char>),
            Seq<char>,
        >("unknown alias"@),
{
}

/// The heights are told as they are, where they could be read.
pub proof fn heights_are_told_as_they_are(heights: Option<&AliasMap<u64>>)
    ensures
        heights is Some <==> heights_view(heights) is Some,
        heights is Some ==> heights_view(heights)->0 == heights->0@,
{
}

}
