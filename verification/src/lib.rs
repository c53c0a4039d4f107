//! Keeps an external DNS-rewrite service in step with the hostname / address
//! pairs advertised by cluster ingress resources.
//!
//! The verified core covers the desired-state extractor, the domain filter,
//! the record-store request building, and the reconciliation engine that
//! decides which add / delete / persist operations each watch event demands.

pub mod adguard;
pub mod engine;
pub mod filter;
pub mod ingress;
pub mod laws;
pub mod record;
pub mod tracker;

pub use record::IngressRecord;
pub use record::Record;
pub use record::ReconciliationUnit;
