//! Pool, donation, application and disbursement ledger for a scholarship
//! crowdfunding contract, with its deadline helpers.

pub mod deadline;
pub mod keys;
pub mod types;
pub mod model;
pub mod contract;
pub mod laws;
