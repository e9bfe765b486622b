//! A token ledger in the IS20 style: principals, transaction records, the
//! transaction history with its retention window, allowances and balances,
//! vesting designations, the query and owner-only entry points, and the
//! ingress-message access checks.

mod convert;

pub mod amounts;
pub mod api;
pub mod designation;
pub mod inspect;
pub mod laws;
pub mod ledger;
pub mod principal;
pub mod tx_record;
pub mod types;
