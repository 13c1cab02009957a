//! A custodial asset pool: a record per (owner, asset pair) whose address is
//! derived from public data, with a token vault that only that record can
//! move funds out of.

pub mod address;
pub mod ledger;
pub mod pool;
pub mod transfer;
