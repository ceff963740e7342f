//! Starting, recording and stopping the scan for notes.

use crate::alias_map::AliasMap;
use crate::client::{attached_manager, attached_wallet, put, set_status, take, Clients};
use crate::network::WalletResult;
use crate::text::joined;
use vstd::prelude::*;

verus! {

/// How a sync pass ended for a wallet.
pub enum PassOutcome {
    /// It walked this many commitments.
    Scanned(u64),
    /// It failed, for the reason given.
    Failed(String),
}

/// The number of commitments that a pass has walked, as it is recorded: none where the pass
/// failed or reported nothing for the wallet.
pub open spec fn recorded_scan(outcome: Option<PassOutcome>) -> u64 {
    match outcome {
        Some(PassOutcome::Scanned(n)) => n,
        _ => 0,
    }
}

/// The status after a pass. A pass that reported nothing for the wallet has not failed.
pub open spec fn recorded_status(outcome: Option<PassOutcome>) -> Seq<char> {
    match outcome {
        Some(PassOutcome::Failed(reason)) => "ERROR: "@ + reason@,
        _ => "SYNCED"@,
    }
}

/// The wallets after a pass was recorded for the one under `alias`, if it is still open.
pub open spec fn with_pass<M, W>(
    wallets: Map<Seq<char>, crate::client::SlotView<M, W>>,
    alias: Seq<char>,
    outcome: Option<PassOutcome>,
) -> Map<Seq<char>, crate::client::SlotView<M, W>> {
    if wallets.contains_key(alias) {
        wallets.insert(
            alias,
            crate::client::SlotView {
                total_scanned: recorded_scan(outcome),
                status: recorded_status(outcome),
                ..wallets[alias]
            },
        )
    } else {
        wallets
    }
}

/// The wallets after the scan of the one under `alias` was started.
pub open spec fn started<M, W>(
    wallets: Map<Seq<char>, crate::client::SlotView<M, W>>,
    alias: Seq<char>,
) -> Map<Seq<char>, crate::client::SlotView<M, W>> {
    crate::client::with_status(wallets, alias, "SYNCING"@)
}

/// The wallets after the scan of the one under `alias` was stopped.
pub open spec fn stopped<M, W>(
    wallets: Map<Seq<char>, crate::client::SlotView<M, W>>,
    alias: Seq<char>,
) -> Map<Seq<char>, crate::client::SlotView<M, W>> {
    crate::client::with_status(wallets, alias, "STOPPED"@)
}

/// The manager that is to scan for the wallet under an alias, or why there is none.
pub open spec fn scanner_under<M, W>(
    wallets: Map<Seq<char>, crate::client::SlotView<M, W>>,
    alias: Seq<char>,
) -> Result<M, Seq<char>> {
    if !wallets.contains_key(alias) {
        Err(crate::client::unknown_alias())
    } else {
        match wallets[alias].manager {
            Some(manager) => Ok(manager),
            None => Err(crate::client::not_initialized()),
        }
    }
}

/// The manager that is to scan for the wallet under an alias.
pub fn begin_sync<'a, M, W>(clients: &'a Clients<M, W>, alias: &str) -> (r: WalletResult<&'a M>)
    ensures
        match r {
            Ok(manager) => scanner_under(crate::client::book(*clients), alias@) == Ok::<
                M,
                Seq<char>,
            >(*manager),
            Err(message) => scanner_under(crate::client::book(*clients), alias@) == Err::<
                M,
                Seq<char>,
            >(message@),
        },
        match r {
            Ok(manager) => crate::client::book(*clients).contains_key(alias@) && crate::client::book(
                *clients,
            )[alias@].manager == Some(*manager),
            Err(message) => if crate::client::book(*clients).contains_key(alias@) {
                crate::client::book(*clients)[alias@].manager is None && message@
                    == crate::client::not_initialized()
            } else {
                message@ == crate::client::unknown_alias()
            },
        },
{
    match attached_manager(clients, alias)? {
        Some(manager) => Ok(manager),
        None => Err("wallet not initialized".to_string()),
    }
}

/// The inner wallet whose result a pass is to be recorded by; none where the alias is
/// unknown by then.
pub fn pass_wallet<'a, M, W>(clients: &'a Clients<M, W>, alias: &str) -> (r: Option<&'a W>)
    ensures
        match r {
            Some(wallet) => crate::client::book(*clients).contains_key(alias@) && crate::client::book(
                *clients,
            )[alias@].wallet == Some(*wallet),
            None => !crate::client::book(*clients).contains_key(alias@) || crate::client::book(
                *clients,
            )[alias@].wallet is None,
        },
{
    match attached_wallet(clients, alias) {
        Ok(wallet) => wallet,
        Err(_) => None,
    }
}

/// Records that the scan was started. A wallet without a manager is refused.
pub fn start_sync<M, W>(clients: &mut Clients<M, W>, alias: String) -> (r: WalletResult<()>)
    ensures
        match r {
            Ok(_) => {
                &&& scanner_under(crate::client::book(*old(clients)), alias@) is Ok
                &&& crate::client::book(*old(clients)).contains_key(alias@)
                &&& crate::client::book(*old(clients))[alias@].manager is Some
                &&& crate::client::book(*final(clients)) == started(
                    crate::client::book(*old(clients)),
                    alias@,
                )
                &&& crate::client::book(*final(clients))[alias@].status == "SYNCING"@
            },
            Err(message) => {
                &&& scanner_under(crate::client::book(*old(clients)), alias@) == Err::<
                    M,
                    Seq<char>,
                >(message@)
                &&& crate::client::book(*final(clients)) == crate::client::book(*old(clients))
                &&& if crate::client::book(*old(clients)).contains_key(alias@) {
                    crate::client::book(*old(clients))[alias@].manager is None && message@
                        == crate::client::not_initialized()
                } else {
                    message@ == crate::client::unknown_alias()
                }
            },
        },
{
    match begin_sync(clients, alias.as_str()) {
        Ok(_) => {},
        Err(message) => {
            return Err(message);
        },
    }
    set_status(clients, alias.as_str(), "SYNCING".to_string())
}

/// Records that the scan was stopped.
pub fn stop_sync<M, W>(clients: &mut Clients<M, W>, alias: String) -> (r: WalletResult<()>)
    ensures
        crate::client::book(*final(clients)) == stopped(crate::client::book(*old(clients)), alias@),
        r is Ok ==> crate::client::book(*final(clients))[alias@].status == "STOPPED"@,
        crate::client::known(r, crate::client::book(*old(clients)), alias@),
{
    set_status(clients, alias.as_str(), "STOPPED".to_string())
}

/// Records what a pass did for the wallet under an alias. A wallet that was closed meanwhile
/// is left closed.
pub fn record_sync_pass<M, W>(clients: &mut Clients<M, W>, alias: &str, outcome: Option<PassOutcome>)
    ensures
        crate::client::book(*final(clients)) == with_pass(
            crate::client::book(*old(clients)),
            alias@,
            outcome,
        ),
{
    let mut scanned: u64 = 0;
    let mut status: String = "SYNCED".to_string();
    match &outcome {
        Some(PassOutcome::Scanned(n)) => {
            scanned = *n;
        },
        Some(PassOutcome::Failed(reason)) => {
            status = joined("ERROR: ", reason.as_str());
        },
        None => {},
    }
    match take(clients, alias) {
        Some(mut slot) => {
            slot.total_scanned = scanned;
            slot.status = status;
            put(clients, alias, slot);
        },
        None => {},
    }
}

/// The heights after one more was reported for `alias`: the highest so far is kept, and
/// zero is no report.
pub open spec fn with_height(heights: Map<Seq<char>, u64>, alias: Seq<char>, height: u64) -> Map<
    Seq<char>,
    u64,
> {
    if height == 0 || (heights.contains_key(alias) && heights[alias] >= height) {
        heights
    } else {
        heights.insert(alias, height)
    }
}

/// Records the height that a chunk of a pass was proven at, where it is the highest that was
/// reported for the alias.
pub fn record_progress(heights: &mut AliasMap<u64>, alias: &str, height: u64)
    ensures
        final(heights)@ == with_height(old(heights)@, alias@, height),
{
    if height == 0 {
        return;
    }
    if let Some(highest) = heights.get(alias) {
        if *highest >= height {
            return;
        }
    }
    heights.insert(alias.to_string(), height);
}

/// Of the heights that were reported for an alias the highest is kept, in whatever order
/// they came; other aliases are not touched.
pub proof fn highest_height_is_kept(
    heights: Map<Seq<char>, u64>,
    alias: Seq<char>,
    other: Seq<char>,
    a: u64,
    b: u64,
)
    requires
        a > 0,
        b > 0,
        !heights.contains_key(alias),
        other != alias,
    ensures
        with_height(with_height(heights, alias, a), alias, b)[alias] == if a >= b {
            a
        } else {
            b
        },
        with_height(with_height(heights, alias, a), alias, b) == with_height(
            with_height(heights, alias, b),
            alias,
            a,
        ),
        with_height(heights, alias, a).contains_key(other) == heights.contains_key(other),
        heights.contains_key(other) ==> with_height(heights, alias, a)[other] == heights[other],
{
}

/// A height that is kept never goes down.
pub proof fn height_never_goes_down(heights: Map<Seq<char>, u64>, alias: Seq<char>, height: u64)
    requires
        heights.contains_key(alias),
    ensures
        with_height(heights, alias, height).contains_key(alias),
        with_height(heights, alias, height)[alias] >= heights[alias],
        with_height(heights, alias, height)[alias] >= height,
{
}

/// A failed pass leaves a status that begins with `ERROR`, and only a failed pass does.
pub proof fn only_failure_is_error(outcome: Option<PassOutcome>)
    ensures
        crate::text::begins_with(recorded_status(outcome), "ERROR"@) <==> outcome is Some
            && outcome->0 is Failed,
{
    reveal_strlit("ERROR");
    reveal_strlit("ERROR: ");
    reveal_strlit("SYNCED");
    match outcome {
        Some(PassOutcome::Failed(reason)) => {
            assert(recorded_status(outcome).take(5) =~= "ERROR"@);
        },
        _ => {
            assert("SYNCED"@.take(5)[0] != "ERROR"@[0]);
        },
    }
}

/// Whatever status a wallet had, an error included, it is `SYNCING` once its scan was started
/// and `STOPPED` once it was stopped; nothing else of it changes, and no other wallet does.
pub proof fn scan_status_replaces_any_other<M, W>(
    wallets: Map<Seq<char>, crate::client::SlotView<M, W>>,
    alias: Seq<char>,
    other: Seq<char>,
)
    requires
        wallets.contains_key(alias),
        other != alias,
    ensures
        started(wallets, alias)[alias] == (crate::client::SlotView {
            status: "SYNCING"@,
            ..wallets[alias]
        }),
        stopped(wallets, alias)[alias] == (crate::client::SlotView {
            status: "STOPPED"@,
            ..wallets[alias]
        }),
        started(wallets, alias).contains_key(alias),
        stopped(wallets, alias).contains_key(alias),
        started(wallets, alias).contains_key(other) <==> wallets.contains_key(other),
        stopped(wallets, alias).contains_key(other) <==> wallets.contains_key(other),
        wallets.contains_key(other) ==> started(wallets, alias)[other] == wallets[other],
        wallets.contains_key(other) ==> stopped(wallets, alias)[other] == wallets[other],
{
}

/// Of two requests the later one decides: stopping a scan that was started leaves what stopping
/// it at once leaves, and the other way round.
pub proof fn later_request_decides<M, W>(
    wallets: Map<Seq<char>, crate::client::SlotView<M, W>>,
    alias: Seq<char>,
)
    ensures
        stopped(started(wallets, alias), alias) == stopped(wallets, alias),
        started(stopped(wallets, alias), alias) == started(wallets, alias),
        stopped(stopped(wallets, alias), alias) == stopped(wallets, alias),
{
    assert(stopped(started(wallets, alias), alias) =~= stopped(wallets, alias));
    assert(started(stopped(wallets, alias), alias) =~= started(wallets, alias));
    assert(stopped(stopped(wallets, alias), alias) =~= stopped(wallets, alias));
}

/// A pass that walked some commitments leaves their number and `SYNCED`; a failed one leaves
/// zero and the reason behind `ERROR: `; one that told nothing of the wallet leaves zero and
/// `SYNCED`. Nothing else of the wallet changes, no other wallet does, and a closed wallet stays
/// closed.
pub proof fn pass_leaves_its_outcome<M, W>(
    wallets: Map<Seq<char>, crate::client::SlotView<M, W>>,
    alias: Seq<char>,
    other: Seq<char>,
    outcome: Option<PassOutcome>,
)
    requires
        other != alias,
    ensures
        ({
            let after = with_pass(wallets, alias, outcome);
            &&& after.contains_key(alias) <==> wallets.contains_key(alias)
            &&& after.contains_key(other) <==> wallets.contains_key(other)
            &&& wallets.contains_key(other) ==> after[other] == wallets[other]
            &&& wallets.contains_key(alias) ==> after[alias] == (crate::client::SlotView {
                total_scanned: match outcome {
                    Some(PassOutcome::Scanned(n)) => n,
                    Some(PassOutcome::Failed(_)) => 0,
                    None => 0,
                },
                status: match outcome {
                    Some(PassOutcome::Scanned(_)) => "SYNCED"@,
                    Some(PassOutcome::Failed(reason)) => "ERROR: "@ + reason@,
                    None => "SYNCED"@,
                },
                ..wallets[alias]
            })
        }),
{
}

/// A height is recorded exactly where it is above zero and above what was recorded, and only
/// for its own alias.
pub proof fn height_is_recorded_for_its_alias(
    heights: Map<Seq<char>, u64>,
    alias: Seq<char>,
    other: Seq<char>,
    height: u64,
)
    requires
        other != alias,
    ensures
        ({
            let after = with_height(heights, alias, height);
            &&& after.contains_key(alias) <==> heights.contains_key(alias) || height > 0
            &&& after.contains_key(alias) && !heights.contains_key(alias) ==> after[alias] == height
            &&& heights.contains_key(alias) ==> after[alias] == heights[alias] || (after[alias]
                == height && height > heights[alias])
            &&& heights.contains_key(alias) ==> after[alias] >= height
            &&& after.contains_key(other) <==> heights.contains_key(other)
            &&& heights.contains_key(other) ==> after[other] == heights[other]
        }),
{
}

/// A scan is started exactly where a wallet with a manager is open, by that manager; a closed
/// wallet and one without a manager are refused, each in its words.
pub proof fn scan_needs_a_manager<M, W>(
    wallets: Map<Seq<char>, crate::client::SlotView<M, W>>,
    alias: Seq<char>,
)
    ensures
        !wallets.contains_key(alias) ==> scanner_under(wallets, alias) == Err::<M, Seq<char>>(
            "unknown alias"@,
        ),
        wallets.contains_key(alias) && wallets[alias].manager is None ==> scanner_under(
            wallets,
            alias,
        ) == Err::<M, Seq<char>>("wallet not initialized"@),
        wallets.contains_key(alias) && wallets[alias].manager is Some ==> scanner_under(
            wallets,
            alias,
        ) == Ok::<M, Seq<char>>(wallets[alias].manager->0),
{
}

}
