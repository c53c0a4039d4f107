//! Properties that hold across the library's components, stated and proved
//! once so that callers need not rediscover them from the contracts.

use vstd::prelude::*;
use crate::engine::{applied_unit_plan, deleted_unit_plan, restarted_unit_plan};
use crate::filter::pattern_matches;
use crate::ingress::{
    assigned_ip, assigned_ips, assigned_ips_from, extract_error, extracted_units,
    first_rule_host, prior_record, IngressSnapshotModel,
};
use crate::record::{IngressRecordModel, RecordModel, ReconciliationUnitModel};

verus! {

/// A resource with exactly one routing-rule host and exactly one assigned
/// address yields exactly one reconciliation unit, carrying that very pair
/// as its current record.
pub proof fn lemma_single_host_single_address(
    s: IngressSnapshotModel,
    host: Seq<char>,
    ip: Seq<char>,
)
    requires
        s.rule_hosts.len() == 1,
        s.rule_hosts[0] == Some(host),
        s.lb_ips.len() == 1,
        s.lb_ips[0] == Some(ip),
        s.prev_host is Some <==> s.prev_ip is Some,
    ensures
        extract_error(s) is None,
        extracted_units(s).len() == 1,
        extracted_units(s)[0].current == (IngressRecordModel { host, ip }),
        extracted_units(s)[0].previous == prior_record(s),
{
    assert(first_rule_host(s) == Some(host));
    assert(assigned_ips_from(s.lb_ips, 1) =~= Seq::<Seq<char>>::empty());
    assert(assigned_ips(s) =~= seq![ip] + Seq::<Seq<char>>::empty());
    assert(assigned_ips(s) =~= seq![ip]);
    assert(assigned_ip(s) == Some(ip));
}

/// A resource with no assigned address yields no reconciliation unit and no
/// error, whatever routing rules and annotations it declares.
pub proof fn lemma_no_address_no_units(s: IngressSnapshotModel)
    requires
        forall|i: int| 0 <= i < s.lb_ips.len() ==> s.lb_ips[i] is None,
    ensures
        extract_error(s) is None,
        extracted_units(s).len() == 0,
{
    lemma_all_entries_empty_no_address(s.lb_ips, 0);
    assert(assigned_ip(s) is None);
}

/// Status entries that carry no IP contribute no assigned address.
proof fn lemma_all_entries_empty_no_address(lb_ips: Seq<Option<Seq<char>>>, i: int)
    requires
        0 <= i,
        forall|j: int| i <= j < lb_ips.len() ==> lb_ips[j] is None,
    ensures
        assigned_ips_from(lb_ips, i).len() == 0,
    decreases lb_ips.len() - i,
{
    if i < lb_ips.len() {
        lemma_all_entries_empty_no_address(lb_ips, i + 1);
    }
}

/// Filtering is total: a unit whose host fails the domain filter plans no
/// adapter call and no persist, in every event kind.
pub proof fn lemma_filtered_host_is_inert(
    pattern: Seq<char>,
    listed: Seq<RecordModel>,
    u: ReconciliationUnitModel,
)
    requires
        !pattern_matches(pattern, u.current.host),
    ensures
        applied_unit_plan(pattern, u).len() == 0,
        deleted_unit_plan(pattern, u).len() == 0,
        restarted_unit_plan(pattern, listed, u).len() == 0,
{
}

} // verus!
