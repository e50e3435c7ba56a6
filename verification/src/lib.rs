//! A verified job-board ledger: employers post listings, candidates apply,
//! and each record is tracked under a sequentially issued identifier.

pub mod laws;
pub mod ledger;
pub mod records;
