//! The state tracker's verifiable half: the annotation keys and values that
//! persist the last reconciled pair onto the owning resource. The caller
//! turns them into a merge patch and issues it.

use vstd::prelude::*;
use vstd::string::StringExecFns;
use crate::record::IngressRecord;

verus! {

/// The annotation key under which the previously reconciled host is stored.
pub open spec fn prev_host_key() -> Seq<char> {
    "adguard-external-dns/old-host"@
}

/// The annotation key under which the previously reconciled address is
/// stored.
pub open spec fn prev_ip_key() -> Seq<char> {
    "adguard-external-dns/old-ip"@
}

/// The annotation key for the previously reconciled host.
pub fn prev_host_annotation_key() -> (r: String)
    ensures
        r@ == prev_host_key(),
{
    String::from_str("adguard-external-dns/old-host")
}

/// The annotation key for the previously reconciled address.
pub fn prev_ip_annotation_key() -> (r: String)
    ensures
        r@ == prev_ip_key(),
{
    String::from_str("adguard-external-dns/old-ip")
}

/// The two key / value pairs a persist of `rec` writes onto the resource:
/// the host under the host key, the address under the address key. Written
/// always as a whole, so the pair the next event reads back is never
/// partial.
pub fn annotation_pairs(rec: &IngressRecord) -> (r: Vec<(String, String)>)
    ensures
        r@.len() == 2,
        r@[0].0@ == prev_host_key(),
        r@[0].1@ == rec@.host,
        r@[1].0@ == prev_ip_key(),
        r@[1].1@ == rec@.ip,
{
    let mut pairs: Vec<(String, String)> = Vec::new();
    pairs.push((prev_host_annotation_key(), rec.host.clone()));
    pairs.push((prev_ip_annotation_key(), rec.ip.clone()));
    pairs
}

} // verus!
