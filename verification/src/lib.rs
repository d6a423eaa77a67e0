//! A ledger-resident marketplace for tokenized services.
//!
//! Vendors list a service, buyers purchase it by paying its price and
//! receiving a unique ownership token, and owners may resell that token with
//! an automatic royalty split back to the marketplace operator.
//!
//! The crate is the marketplace's state-transition engine: a record store
//! (registry and listings), a model of the fungible-token ledger it moves
//! value on, and the four operations — initialize the marketplace, list a
//! service, purchase, resell — each executed as an all-or-nothing unit.
//! Every operation is specified by a total transition function over the
//! mathematical state, and the executable code is proved to implement it
//! exactly; the safety laws (availability never reverses, at most one
//! ownership unit per listing, failed operations have no effect, resale
//! splits the price without remainder) are proved in `laws`.

pub mod engine;
pub mod errors;
pub mod laws;
pub mod ledger;
pub mod records;
pub mod royalty;
