//! A usage-statistics and metadata ledger for foreign data wrappers.

pub mod client;
pub mod laws;
pub mod ledger;
pub mod metric;
pub mod session;
pub mod sql;
