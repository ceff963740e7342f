//! What the host sets up before any wallet is opened.

use crate::network::WalletResult;
use vstd::prelude::*;

verus! {

/// The directory after one was set.
pub open spec fn chosen_directory(before: Option<Seq<char>>, path: Seq<char>) -> Option<Seq<char>> {
    Some(path)
}

/// Whether the proving key counts as built.
pub open spec fn counts_as_ready(ready: Option<bool>) -> bool {
    ready == Some(true)
}

/// Sets the directory below which the wallets are stored, in place of the one that may have
/// been set before.
pub fn set_document_directory(directory: &mut Option<String>, path: String) -> (r: WalletResult<()>)
    ensures
        r is Ok,
        *final(directory) == Some(path),
        crate::text::optional_view(*final(directory)) == chosen_directory(
            crate::text::optional_view(*old(directory)),
            path@,
        ),
{
    *directory = Some(path);
    Ok(())
}

/// Records that the proving key was built.
pub fn warm_up_prover(ready: &mut bool) -> (r: WalletResult<()>)
    ensures
        r is Ok,
        *final(ready),
        counts_as_ready(Some(*final(ready))),
{
    *ready = true;
    Ok(())
}

/// Tells whether the proving key was built. What cannot be read counts as not built.
pub fn is_prover_ready(ready: Option<bool>) -> (r: bool)
    ensures
        r == (ready == Some(true)),
        r == counts_as_ready(ready),
{
    match ready {
        Some(built) => built,
        None => false,
    }
}

/// The directory is the one that was set last, whatever was set before.
pub proof fn directory_is_the_last_one(
    before: Option<Seq<char>>,
    first: Seq<char>,
    second: Seq<char>,
)
    ensures
        chosen_directory(before, first) == Some(first),
        chosen_directory(chosen_directory(before, first), second) == Some(second),
{
}

/// The prover is ready exactly where it is known that its key was built.
pub proof fn prover_is_ready_where_it_was_built(built: bool)
    ensures
        counts_as_ready(Some(built)) == built,
        !counts_as_ready(None),
{
}

}
