//! Which masternodes to talk to, and under which address.

use crate::json_text::{nonzero_fractions, read_table, Row};
use crate::network::WalletResult;
use crate::text::{before_last, decimal_text, joined, same_text, trim_trailing};
use vstd::prelude::*;

verus! {

/// The address at which a quorum service lists the masternodes.
pub open spec fn masternodes_url_text(quorum_base: Seq<char>) -> Seq<char> {
    crate::text::without_trailing(quorum_base, '/') + "/masternodes"@
}

/// The address at which a quorum service lists the masternodes.
pub fn masternodes_url(quorum_base: &str) -> (r: String)
    ensures
        r@ == masternodes_url_text(quorum_base@),
{
    joined(trim_trailing(quorum_base, '/'), "/masternodes")
}

/// The host of a row of the list: status, version check and address. It is none unless the
/// node is enabled, passes the version check, and has an address with a port.
pub open spec fn active_host(
    row: (Option<Seq<char>>, Option<Seq<char>>, Option<Seq<char>>),
) -> Option<Seq<char>> {
    if row.0 == Some("ENABLED"@) && row.1 == Some("success"@) {
        match row.2 {
            Some(address) => crate::text::text_before_last(address, ':'),
            None => None,
        }
    } else {
        None
    }
}

/// The hosts of the active rows, in order.
pub open spec fn active_hosts(
    rows: Seq<(Option<Seq<char>>, Option<Seq<char>>, Option<Seq<char>>)>,
) -> Seq<Seq<char>>
    decreases rows.len(),
{
    if rows.len() == 0 {
        Seq::empty()
    } else {
        match active_host(rows.last()) {
            Some(host) => active_hosts(rows.drop_last()).push(host),
            None => active_hosts(rows.drop_last()),
        }
    }
}

/// Texts or a message, by their characters.
pub open spec fn hosts_view(r: WalletResult<Vec<String>>) -> Result<Seq<Seq<char>>, Seq<char>> {
    match r {
        Ok(hosts) => Ok(crate::text::texts_view(hosts@)),
        Err(message) => Err(message@),
    }
}

/// Tells whether a field holds a given text.
fn field_is(field: &Option<String>, text: &str) -> (r: bool)
    ensures
        r == (crate::text::optional_view(*field) == Some(text@)),
{
    match field {
        Some(value) => same_text(value.as_str(), text),
        None => false,
    }
}

/// The host of an active masternode.
fn row_host(row: &Row) -> (r: Option<String>)
    ensures
        crate::text::optional_view(r) == active_host(crate::json_text::row_view(*row)),
{
    if !field_is(&row.0, "ENABLED") {
        return None;
    }
    if !field_is(&row.1, "success") {
        return None;
    }
    match &row.2 {
        Some(address) => match before_last(address.as_str(), ':') {
            Some(host) => Some(host.to_string()),
            None => None,
        },
        None => None,
    }
}

/// The hosts of the masternodes that are enabled and pass the version check.
pub fn active_masternodes(rows: &Vec<Row>) -> (r: Vec<String>)
    ensures
        crate::text::texts_view(r@) == active_hosts(crate::json_text::rows_view(rows@)),
{
    let ghost all = crate::json_text::rows_view(rows@);
    let mut out: Vec<String> = Vec::new();
    let mut i: usize = 0;
    while i < rows.len()
        invariant
            i <= rows@.len(),
            all == crate::json_text::rows_view(rows@),
            crate::text::texts_view(out@) == active_hosts(all.take(i as int)),
        decreases rows@.len() - i,
    {
        assert(all.take(i + 1).drop_last() =~= all.take(i as int));
        if let Some(host) = row_host(&rows[i]) {
            out.push(host);
        }
        i = i + 1;
    }
    assert(all.take(rows@.len() as int) =~= all);
    out
}

/// What came back from the quorum service.
pub enum Fetched {
    /// The service could not be reached.
    Unreachable(String),
    /// The answer could not be read.
    Unreadable(String),
    /// The text of the answer.
    Body(String),
}

/// The hosts of the active masternodes that an answer of the quorum service lists, or what
/// went wrong.
pub open spec fn fetched_hosts(fetched: Fetched) -> Result<Seq<Seq<char>>, Seq<char>> {
    match fetched {
        Fetched::Unreachable(e) => Err("masternode list: "@ + e@),
        Fetched::Unreadable(e) => Err("masternode list body: "@ + e@),
        Fetched::Body(body) => listed_hosts(
            crate::json_text::json_table(
                body@,
                "data"@,
                "status"@,
                "versionCheck"@,
                "address"@,
            ),
        ),
    }
}

/// The hosts of the active rows of a table, or what was wrong with the text of the table.
pub open spec fn listed_hosts(
    table: Result<Seq<(Option<Seq<char>>, Option<Seq<char>>, Option<Seq<char>>)>, Seq<char>>,
) -> Result<Seq<Seq<char>>, Seq<char>> {
    match table {
        Ok(rows) => Ok(active_hosts(rows)),
        Err(e) => Err("masternode list json: "@ + e),
    }
}

/// The hosts of the active masternodes of a table, or what was wrong with its text.
pub fn hosts_from_table(table: Result<Vec<Row>, String>) -> (r: WalletResult<Vec<String>>)
    ensures
        hosts_view(r) == listed_hosts(crate::json_text::table_view(table)),
{
    match table {
        Ok(rows) => Ok(active_masternodes(&rows)),
        Err(e) => Err(joined("masternode list json: ", e.as_str())),
    }
}

/// The hosts of the active masternodes that an answer of the quorum service lists.
///
/// A node that fails the version check runs an older build, which cannot answer the
/// shielded queries.
pub fn fetch_active_masternodes(fetched: Fetched) -> (r: WalletResult<Vec<String>>)
    ensures
        hosts_view(r) == fetched_hosts(fetched),
{
    match fetched {
        Fetched::Unreachable(e) => Err(joined("masternode list: ", e.as_str())),
        Fetched::Unreadable(e) => Err(joined("masternode list body: ", e.as_str())),
        Fetched::Body(body) => {
            let readable: String = nonzero_fractions(body.as_str());
            hosts_from_table(
                read_table(readable.as_str(), "data", "status", "versionCheck", "address"),
            )
        },
    }
}

/// The endpoint of a masternode, which serves on port 443.
pub open spec fn node_uri_text(host: Seq<char>) -> Seq<char> {
    "https://"@ + host + ":443"@
}

/// The endpoints of masternodes, in order.
pub open spec fn node_uris_text(hosts: Seq<Seq<char>>) -> Seq<Seq<char>> {
    hosts.map_values(|host: Seq<char>| node_uri_text(host))
}

/// The endpoints of masternodes.
pub fn node_uris(hosts: &Vec<String>) -> (r: Vec<String>)
    ensures
        crate::text::texts_view(r@) == node_uris_text(crate::text::texts_view(hosts@)),
{
    let mut out: Vec<String> = Vec::new();
    let mut i: usize = 0;
    while i < hosts.len()
        invariant
            i <= hosts@.len(),
            out@.len() == i,
            forall|j: int| 0 <= j < i ==> (#[trigger] out@[j])@ == node_uri_text(hosts@[j]@),
        decreases hosts@.len() - i,
    {
        let mut uri: String = joined("https://", hosts[i].as_str());
        uri.append(":443");
        out.push(uri);
        i = i + 1;
    }
    out
}

/// The endpoint that the host of the wallet supplies: `https` on port 443 and `http` on any
/// other.
pub open spec fn fallback_uri_text(host: Seq<char>, port: u32) -> Seq<char> {
    let scheme = if port == 443 {
        "https"@
    } else {
        "http"@
    };
    scheme + "://"@ + host + ":"@ + crate::text::decimal(port as nat)
}

/// The endpoint that the host of the wallet supplies.
pub fn fallback_uri(host: &str, port: u32) -> (r: String)
    ensures
        r@ == fallback_uri_text(host@, port),
{
    let scheme: &str = if port == 443 {
        "https"
    } else {
        "http"
    };
    let mut uri: String = joined(scheme, "://");
    uri.append(host);
    uri.append(":");
    uri.append(decimal_text(port as u128).as_str());
    uri
}

/// An active host comes from a row that is enabled and passes the version check, and is
/// the part of the row's address before the last colon.
pub proof fn hosts_are_active(
    rows: Seq<(Option<Seq<char>>, Option<Seq<char>>, Option<Seq<char>>)>,
    host: Seq<char>,
)
    ensures
        active_hosts(rows).contains(host) <==> exists|i: int|
            0 <= i < rows.len() && active_host(#[trigger] rows[i]) == Some(host),
    decreases rows.len(),
{
    if rows.len() > 0 {
        let front = rows.drop_last();
        hosts_are_active(front, host);
        if exists|i: int| 0 <= i < rows.len() && active_host(#[trigger] rows[i]) == Some(host) {
            let i = choose|i: int|
                0 <= i < rows.len() && active_host(#[trigger] rows[i]) == Some(host);
            if i < front.len() {
                assert(active_host(front[i]) == Some(host));
                let k = active_hosts(front).index_of(host);
                assert(active_hosts(rows)[k] == host);
            } else {
                assert(active_hosts(rows).last() == host);
            }
        }
    }
}

/// A row has an active host exactly where its status is `ENABLED`, its version check is
/// `success`, and its address has a colon; the host is what stands before the last one.
pub proof fn active_host_is_before_the_last_colon(
    row: (Option<Seq<char>>, Option<Seq<char>>, Option<Seq<char>>),
    host: Seq<char>,
    port: Seq<char>,
)
    requires
        !port.contains(':'),
    ensures
        row.0 == Some("ENABLED"@) && row.1 == Some("success"@) && row.2 == Some(
            host + seq![':'] + port,
        ) ==> active_host(row) == Some(host),
        row.0 != Some("ENABLED"@) ==> active_host(row) is None,
        row.1 != Some("success"@) ==> active_host(row) is None,
        row.2 is None ==> active_host(row) is None,
        row.2 is Some && !row.2->0.contains(':') ==> active_host(row) is None,
{
    let address = host + seq![':'] + port;
    crate::text::text_is_split_at_the_last(address, ':');
    assert(address[host.len() as int] == ':');
    let part = crate::text::text_before_last(address, ':')->0;
    assert forall|i: int| host.len() < i < address.len() implies #[trigger] address[i] != ':' by {
        assert(port.contains(port[i - host.len() - 1]));
    }
    assert(part.len() == host.len());
    assert(part =~= host);
    if row.2 is Some {
        crate::text::text_is_split_at_the_last(row.2->0, ':');
    }
}

/// The active hosts of rows in a row are those of the first and then those of the others: no
/// row is looked at twice, none is passed over, and their order stays.
pub proof fn hosts_keep_the_order_of_rows(
    a: Seq<(Option<Seq<char>>, Option<Seq<char>>, Option<Seq<char>>)>,
    b: Seq<(Option<Seq<char>>, Option<Seq<char>>, Option<Seq<char>>)>,
    row: (Option<Seq<char>>, Option<Seq<char>>, Option<Seq<char>>),
)
    ensures
        active_hosts(a + b) == active_hosts(a) + active_hosts(b),
        active_hosts(seq![row]) == match active_host(row) {
            Some(host) => seq![host],
            None => Seq::empty(),
        },
    decreases b.len(),
{
    assert(seq![row].drop_last() =~= Seq::empty());
    assert(active_hosts(Seq::empty()) =~= Seq::empty());
    if b.len() == 0 {
        assert(a + b =~= a);
    } else {
        hosts_keep_the_order_of_rows(a, b.drop_last(), row);
        assert((a + b).drop_last() =~= a + b.drop_last());
        assert((a + b).last() == b.last());
    }
}

/// A list that was read gives the hosts of its rows, and one that was not gives no hosts and
/// tells where it failed.
pub proof fn read_lists_give_their_hosts(
    e: String,
    body: String,
    rows: Seq<(Option<Seq<char>>, Option<Seq<char>>, Option<Seq<char>>)>,
    reason: Seq<char>,
)
    ensures
        fetched_hosts(Fetched::Unreachable(e)) == Err::<Seq<Seq<char>>, Seq<char>>(
            "masternode list: "@ + e@,
        ),
        fetched_hosts(Fetched::Unreadable(e)) == Err::<Seq<Seq<char>>, Seq<char>>(
            "masternode list body: "@ + e@,
        ),
        crate::json_text::json_table(body@, "data"@, "status"@, "versionCheck"@, "address"@) == Ok::<
            Seq<(Option<Seq<char>>, Option<Seq<char>>, Option<Seq<char>>)>,
            Seq<char>,
        >(rows) ==> fetched_hosts(Fetched::Body(body)) == Ok::<Seq<Seq<char>>, Seq<char>>(
            active_hosts(rows),
        ),
        crate::json_text::json_table(body@, "data"@, "status"@, "versionCheck"@, "address"@) == Err::<
            Seq<(Option<Seq<char>>, Option<Seq<char>>, Option<Seq<char>>)>,
            Seq<char>,
        >(reason) ==> fetched_hosts(Fetched::Body(body)) == Err::<Seq<Seq<char>>, Seq<char>>(
            "masternode list json: "@ + reason,
        ),
{
}

/// The list is asked for under the base address, with one slash between the two whatever the
/// base ends with.
pub proof fn list_is_asked_for_below_the_base(base: Seq<char>, slashes: Seq<char>)
    requires
        forall|i: int| 0 <= i < slashes.len() ==> #[trigger] slashes[i] == '/',
        base.len() > 0 ==> base.last() != '/',
    ensures
        masternodes_url_text(base + slashes) == base + "/masternodes"@,
    decreases slashes.len(),
{
    if slashes.len() == 0 {
        assert(base + slashes =~= base);
    } else {
        list_is_asked_for_below_the_base(base, slashes.drop_last());
        assert((base + slashes).drop_last() =~= base + slashes.drop_last());
        assert((base + slashes).last() == '/');
    }
}

/// The endpoint of each host is `https` on port 443 of that host, in the order of the hosts.
pub proof fn node_endpoints_belong_to_their_hosts(hosts: Seq<Seq<char>>, i: int)
    requires
        0 <= i < hosts.len(),
    ensures
        node_uris_text(hosts).len() == hosts.len(),
        node_uris_text(hosts)[i] == "https://"@ + hosts[i] + ":443"@,
{
}

/// The endpoint that the host of the wallet supplies names that host and that port, whose
/// number reads back; it is `https` on port 443 alone.
pub proof fn supplied_endpoint_names_host_and_port(host: Seq<char>, port: u32)
    ensures
        exists|number: Seq<char>|
            fallback_uri_text(host, port) == (if port == 443 {
                "https://"@
            } else {
                "http://"@
            }) + host + ":"@ + number && #[trigger] crate::text::parsed_u64(number) == Some(
                port as u64,
            ) && number == crate::text::decimal(port as nat),
{
    reveal_strlit("https");
    reveal_strlit("http");
    reveal_strlit("://");
    reveal_strlit("https://");
    reveal_strlit("http://");
    crate::text::decimal_reads_back(port as u64);
    let number = crate::text::decimal(port as nat);
    assert("https"@ + "://"@ =~= "https://"@);
    assert("http"@ + "://"@ =~= "http://"@);
    assert(crate::text::parsed_u64(number) == Some(port as u64));
}

/// Hosts are told one by one, in order, and a failure by its message.
pub proof fn hosts_are_told_as_they_are(r: WalletResult<Vec<String>>, i: int)
    ensures
        r is Ok <==> hosts_view(r) is Ok,
        r is Err ==> hosts_view(r)->Err_0 == r->Err_0@,
        r matches Ok(hosts) ==> hosts_view(r)->Ok_0.len() == hosts@.len(),
        r matches Ok(hosts) ==> 0 <= i < hosts@.len() ==> hosts_view(r)->Ok_0[i] == hosts@[i]@,
{
}

}
