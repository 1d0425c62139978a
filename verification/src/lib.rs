//! Core of a desktop activity tracker: the ledger of per-title focus time,
//! its stored form, and the decisions of a tracking session.

pub mod json;
pub mod ledger;
pub mod session;
pub mod store;
pub mod title;
