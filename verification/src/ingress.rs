//! The desired-state extractor: turns one ingress resource snapshot into the
//! reconciliation units the engine evaluates.

use vstd::prelude::*;
use crate::record::{IngressRecord, IngressRecordModel, ReconciliationUnit, ReconciliationUnitModel};

verus! {

/// The fields of an ingress resource that reconciliation reads, as plain
/// values: one optional hostname per routing rule in declaration order, one
/// optional address per load-balancer status entry, and the two annotation
/// values left by the last reconciliation.
pub struct IngressSnapshot {
    pub rule_hosts: Vec<Option<String>>,
    pub lb_ips: Vec<Option<String>>,
    pub prev_host: Option<String>,
    pub prev_ip: Option<String>,
}

/// Mathematical image of an [`IngressSnapshot`].
#[verifier::ext_equal]
pub struct IngressSnapshotModel {
    pub rule_hosts: Seq<Option<Seq<char>>>,
    pub lb_ips: Seq<Option<Seq<char>>>,
    pub prev_host: Option<Seq<char>>,
    pub prev_ip: Option<Seq<char>>,
}

/// The view of an optional string.
pub open spec fn opt_view(o: Option<String>) -> Option<Seq<char>> {
    match o {
        Some(s) => Some(s@),
        None => None,
    }
}

impl View for IngressSnapshot {
    type V = IngressSnapshotModel;

    open spec fn view(&self) -> IngressSnapshotModel {
        IngressSnapshotModel {
            rule_hosts: self.rule_hosts@.map_values(|o: Option<String>| opt_view(o)),
            lb_ips: self.lb_ips@.map_values(|o: Option<String>| opt_view(o)),
            prev_host: opt_view(self.prev_host),
            prev_ip: opt_view(self.prev_ip),
        }
    }
}

/// Why a snapshot cannot be reconciled: its single-valued fields hold more
/// than the data model allows.
#[derive(Debug, Clone, Copy, PartialEq, Eq, Structural)]
pub enum ExtractError {
    /// More than one assigned load-balancer address on the resource.
    TooManyAddresses,
    /// Exactly one of the two previous-pair annotations is present; the pair
    /// is only ever written whole.
    PartialPriorPair,
}

/// The first hostname declared at or after rule index `i`, if any.
pub open spec fn first_host_from(hosts: Seq<Option<Seq<char>>>, i: int) -> Option<Seq<char>>
    decreases hosts.len() - i,
{
    if i < 0 || i >= hosts.len() {
        None
    } else if hosts[i] is Some {
        hosts[i]
    } else {
        first_host_from(hosts, i + 1)
    }
}

/// The first hostname the resource's routing rules declare, if any.
pub open spec fn first_rule_host(s: IngressSnapshotModel) -> Option<Seq<char>> {
    first_host_from(s.rule_hosts, 0)
}

/// The addresses assigned at or after status entry `i`: the entries that
/// carry an IP, in order.
pub open spec fn assigned_ips_from(lb_ips: Seq<Option<Seq<char>>>, i: int) -> Seq<Seq<char>>
    decreases lb_ips.len() - i,
{
    if i < 0 || i >= lb_ips.len() {
        Seq::empty()
    } else {
        match lb_ips[i] {
            Some(ip) => seq![ip] + assigned_ips_from(lb_ips, i + 1),
            None => assigned_ips_from(lb_ips, i + 1),
        }
    }
}

/// The load-balancer addresses the resource has assigned; a status entry
/// without an IP does not count as an address.
pub open spec fn assigned_ips(s: IngressSnapshotModel) -> Seq<Seq<char>> {
    assigned_ips_from(s.lb_ips, 0)
}

/// The resource's assigned load-balancer address, if any.
pub open spec fn assigned_ip(s: IngressSnapshotModel) -> Option<Seq<char>> {
    if assigned_ips(s).len() == 0 {
        None
    } else {
        Some(assigned_ips(s)[0])
    }
}

/// The invariant violation that keeps a snapshot from being reconciled, if
/// any: more than one assigned address, or — on a snapshot that does have
/// an assigned address — a partially written previous pair. A snapshot with
/// no assigned address is never an error, whatever its other fields hold;
/// multiple addresses are detected before a partial pair.
pub open spec fn extract_error(s: IngressSnapshotModel) -> Option<ExtractError> {
    if assigned_ips(s).len() > 1 {
        Some(ExtractError::TooManyAddresses)
    } else if assigned_ips(s).len() == 1 && (s.prev_host is Some) != (s.prev_ip is Some) {
        Some(ExtractError::PartialPriorPair)
    } else {
        None
    }
}

/// The previously reconciled pair recovered from the annotations, if both
/// halves are present.
pub open spec fn prior_record(s: IngressSnapshotModel) -> Option<IngressRecordModel> {
    if s.prev_host is Some && s.prev_ip is Some {
        Some(IngressRecordModel { host: s.prev_host->0, ip: s.prev_ip->0 })
    } else {
        None
    }
}

/// The units a well-formed snapshot yields: one per declared host paired
/// with the assigned address — so none while no address is assigned, and
/// none without a declared host.
pub open spec fn extracted_units(s: IngressSnapshotModel) -> Seq<ReconciliationUnitModel> {
    match (first_rule_host(s), assigned_ip(s)) {
        (Some(host), Some(ip)) => seq![
            ReconciliationUnitModel {
                current: IngressRecordModel { host: host, ip: ip },
                previous: prior_record(s),
            },
        ],
        _ => Seq::empty(),
    }
}

/// Finds the first declared hostname at or after rule index `i`.
fn find_first_host(hosts: &Vec<Option<String>>, i: usize) -> (r: Option<String>)
    requires
        i <= hosts.len(),
    ensures
        opt_view(r) == first_host_from(hosts@.map_values(|o: Option<String>| opt_view(o)), i as int),
    decreases hosts.len() - i,
{
    if i == hosts.len() {
        None
    } else {
        match &hosts[i] {
            Some(h) => Some(h.clone()),
            None => find_first_host(hosts, i + 1),
        }
    }
}

/// Collects the assigned addresses at or after status entry `i`.
fn collect_assigned_ips(lb_ips: &Vec<Option<String>>, i: usize) -> (r: Vec<String>)
    requires
        i <= lb_ips.len(),
    ensures
        r@.map_values(|ip: String| ip@) == assigned_ips_from(
            lb_ips@.map_values(|o: Option<String>| opt_view(o)),
            i as int,
        ),
    decreases lb_ips.len() - i,
{
    if i == lb_ips.len() {
        Vec::new()
    } else {
        let mut rest = collect_assigned_ips(lb_ips, i + 1);
        match &lb_ips[i] {
            Some(ip) => {
                let mut out: Vec<String> = Vec::new();
                out.push(ip.clone());
                out.append(&mut rest);
                proof {
                    assert(out@.map_values(|ip: String| ip@) =~= assigned_ips_from(
                        lb_ips@.map_values(|o: Option<String>| opt_view(o)),
                        i as int,
                    ));
                }
                out
            },
            None => rest,
        }
    }
}

/// Converts one resource snapshot into its reconciliation units.
///
/// A snapshot with no assigned address yields no unit and is checked no
/// further — a normal transient state, not an error, whatever routing rules
/// and annotations it holds. A snapshot with an assigned address but no
/// declared host likewise yields no unit. Once an address is assigned, an
/// over-filled single-valued field — a second assigned address, or a
/// half-written previous pair — is rejected: that violates the data model
/// and reconciliation cannot proceed safely.
pub fn extract_needed_info(s: &IngressSnapshot) -> (r: Result<Vec<ReconciliationUnit>, ExtractError>)
    ensures
        match r {
            Ok(units) => extract_error(s@) is None
                && units@.map_values(|u: ReconciliationUnit| u@) == extracted_units(s@),
            Err(e) => extract_error(s@) == Some(e),
        },
{
    let assigned = collect_assigned_ips(&s.lb_ips, 0);
    let mut units: Vec<ReconciliationUnit> = Vec::new();
    if assigned.len() > 1 {
        return Err(ExtractError::TooManyAddresses);
    }
    if assigned.len() == 0 {
        proof {
            assert(units@.map_values(|u: ReconciliationUnit| u@) =~= extracted_units(s@));
        }
        return Ok(units);
    }
    let previous: Option<IngressRecord> = match (&s.prev_host, &s.prev_ip) {
        (Some(h), Some(ip)) => Some(IngressRecord { host: h.clone(), ip: ip.clone() }),
        (None, None) => None,
        _ => {
            return Err(ExtractError::PartialPriorPair);
        },
    };
    let host = find_first_host(&s.rule_hosts, 0);
    match host {
        Some(host) => {
            let ip = assigned[0].clone();
            units.push(ReconciliationUnit {
                current: IngressRecord { host, ip },
                previous,
            });
            proof {
                assert(units@.map_values(|u: ReconciliationUnit| u@) =~= extracted_units(s@));
            }
        },
        None => {
            proof {
                assert(units@.map_values(|u: ReconciliationUnit| u@) =~= extracted_units(s@));
            }
        },
    }
    Ok(units)
}

} // verus!
