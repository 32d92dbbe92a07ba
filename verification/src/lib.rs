//! A verified in-memory stock ledger: products keyed by name, with sales,
//! restocking and a listing of everything on hand.

pub mod catalogue;
pub mod error;
pub mod laws;
pub mod ledger;
pub mod product;
pub mod report;
pub mod text;
