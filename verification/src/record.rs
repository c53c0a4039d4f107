//! The record types the reconciliation engine works over.

use vstd::prelude::*;

verus! {

/// A rewrite entry of the external DNS service: `domain` is the lookup key,
/// `answer` the IP literal it resolves to. The service keys records by
/// `domain` alone; the `answer` is the value attached to that key.
#[derive(Debug)]
pub struct Record {
    pub domain: String,
    pub answer: String,
}

/// Mathematical image of a [`Record`].
#[verifier::ext_equal]
pub struct RecordModel {
    pub domain: Seq<char>,
    pub answer: Seq<char>,
}

impl View for Record {
    type V = RecordModel;

    open spec fn view(&self) -> RecordModel {
        RecordModel { domain: self.domain@, answer: self.answer@ }
    }
}

impl Record {
    pub fn new(domain: String, answer: String) -> (r: Self)
        ensures
            r@ == (RecordModel { domain: domain@, answer: answer@ }),
    {
        Record { domain, answer }
    }
}

impl Clone for Record {
    fn clone(&self) -> (r: Self)
        ensures
            r@ == self@,
    {
        Record { domain: self.domain.clone(), answer: self.answer.clone() }
    }
}

/// The hostname / address pair advertised by one ingress resource, either
/// freshly read from the resource (desired state) or recovered from its
/// annotations (the previously reconciled pair).
#[derive(Debug)]
pub struct IngressRecord {
    pub host: String,
    pub ip: String,
}

/// Mathematical image of an [`IngressRecord`].
#[verifier::ext_equal]
pub struct IngressRecordModel {
    pub host: Seq<char>,
    pub ip: Seq<char>,
}

impl View for IngressRecord {
    type V = IngressRecordModel;

    open spec fn view(&self) -> IngressRecordModel {
        IngressRecordModel { host: self.host@, ip: self.ip@ }
    }
}

/// The rewrite record a host / address pair asks for: the host becomes the
/// domain, the address the answer.
pub open spec fn record_of(p: IngressRecordModel) -> RecordModel {
    RecordModel { domain: p.host, answer: p.ip }
}

impl IngressRecord {
    pub fn new(host: String, ip: String) -> (r: Self)
        ensures
            r@ == (IngressRecordModel { host: host@, ip: ip@ }),
    {
        IngressRecord { host, ip }
    }

    /// Full-field equality: host and address must both agree.
    pub fn same_as(&self, other: &IngressRecord) -> (r: bool)
        ensures
            r == (self@ == other@),
    {
        let hosts_equal = self.host == other.host;
        let ips_equal = self.ip == other.ip;
        hosts_equal && ips_equal
    }

    /// The rewrite record this pair asks the external service for.
    pub fn to_record(&self) -> (r: Record)
        ensures
            r@ == record_of(self@),
    {
        Record { domain: self.host.clone(), answer: self.ip.clone() }
    }
}

impl Clone for IngressRecord {
    fn clone(&self) -> (r: Self)
        ensures
            r@ == self@,
    {
        IngressRecord { host: self.host.clone(), ip: self.ip.clone() }
    }
}

/// One unit of reconciliation work: the pair the resource advertises now,
/// and the pair recorded by the last successful reconciliation, if any.
#[derive(Debug)]
pub struct ReconciliationUnit {
    pub current: IngressRecord,
    pub previous: Option<IngressRecord>,
}

/// Mathematical image of a [`ReconciliationUnit`].
#[verifier::ext_equal]
pub struct ReconciliationUnitModel {
    pub current: IngressRecordModel,
    pub previous: Option<IngressRecordModel>,
}

impl View for ReconciliationUnit {
    type V = ReconciliationUnitModel;

    open spec fn view(&self) -> ReconciliationUnitModel {
        ReconciliationUnitModel {
            current: self.current@,
            previous: match self.previous {
                Some(p) => Some(p@),
                None => None,
            },
        }
    }
}

impl ReconciliationUnit {
    pub fn new(current: IngressRecord, previous: Option<IngressRecord>) -> (r: Self)
        ensures
            r.current == current,
            r.previous == previous,
    {
        ReconciliationUnit { current, previous }
    }
}

} // verus!
