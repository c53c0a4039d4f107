//! The record-store adapter's verifiable half: building the request URLs for
//! the external rewrite service, and reading the record set its list
//! operation returns.

use vstd::prelude::*;
use vstd::string::StringExecFns;
use crate::record::{Record, RecordModel};

verus! {

/// Connection settings for the external rewrite service.
pub struct AdGuard {
    pub host: String,
    pub use_https: bool,
}

/// The URL for `endpoint` on a service at `host`: scheme, separator, host
/// and endpoint path, in that order.
pub open spec fn url_for(use_https: bool, host: Seq<char>, endpoint: Seq<char>) -> Seq<char> {
    (if use_https {
        "https"@
    } else {
        "http"@
    }) + "://"@ + host + endpoint
}

impl AdGuard {
    pub fn new(host: String, use_https: bool) -> (r: Self)
        ensures
            r.host@ == host@,
            r.use_https == use_https,
    {
        AdGuard { host, use_https }
    }

    /// The URL of the service's record-creation endpoint.
    pub fn add_url(&self) -> (r: String)
        ensures
            r@ == url_for(self.use_https, self.host@, "/control/rewrite/add"@),
    {
        self.build_url("/control/rewrite/add")
    }

    /// The URL of the service's record-removal endpoint.
    pub fn delete_url(&self) -> (r: String)
        ensures
            r@ == url_for(self.use_https, self.host@, "/control/rewrite/delete"@),
    {
        self.build_url("/control/rewrite/delete")
    }

    /// The URL of the service's record-listing endpoint.
    pub fn list_url(&self) -> (r: String)
        ensures
            r@ == url_for(self.use_https, self.host@, "/control/rewrite/list"@),
    {
        self.build_url("/control/rewrite/list")
    }

    /// The full URL for one endpoint path on this service.
    pub fn build_url(&self, endpoint: &str) -> (r: String)
        ensures
            r@ == url_for(self.use_https, self.host@, endpoint@),
    {
        let mut url = String::from_str("http");
        if self.use_https {
            url.append("s");
        }
        url.append("://");
        url.append(self.host.as_str());
        url.append(endpoint);
        proof {
            reveal_strlit("http");
            reveal_strlit("https");
            reveal_strlit("s");
            assert("http"@ + "s"@ =~= "https"@);
        }
        url
    }
}

/// The answer the listed record set holds for `domain`, considering the
/// first `i` entries: later entries override earlier ones sharing a domain.
pub open spec fn lookup_upto(records: Seq<RecordModel>, i: int, domain: Seq<char>) -> Option<
    Seq<char>,
>
    decreases i,
{
    if i <= 0 || i > records.len() {
        None
    } else if records[i - 1].domain == domain {
        Some(records[i - 1].answer)
    } else {
        lookup_upto(records, i - 1, domain)
    }
}

/// The answer the listed record set maps `domain` to, if any.
pub open spec fn listed_answer(records: Seq<RecordModel>, domain: Seq<char>) -> Option<Seq<char>> {
    lookup_upto(records, records.len() as int, domain)
}

/// Looks `domain` up in a listed record set, last entry winning, as a
/// mapping built from the list entry by entry would have it.
pub fn lookup_answer(records: &Vec<Record>, domain: &String) -> (r: Option<String>)
    ensures
        crate::ingress::opt_view(r) == listed_answer(
            records@.map_values(|rec: Record| rec@),
            domain@,
        ),
{
    lookup_answer_upto(records, records.len(), domain)
}

/// Looks `domain` up among the first `i` entries of a listed record set.
fn lookup_answer_upto(records: &Vec<Record>, i: usize, domain: &String) -> (r: Option<String>)
    requires
        i <= records.len(),
    ensures
        crate::ingress::opt_view(r) == lookup_upto(
            records@.map_values(|rec: Record| rec@),
            i as int,
            domain@,
        ),
    decreases i,
{
    if i == 0 {
        None
    } else if records[i - 1].domain == *domain {
        Some(records[i - 1].answer.clone())
    } else {
        lookup_answer_upto(records, i - 1, domain)
    }
}

} // verus!
