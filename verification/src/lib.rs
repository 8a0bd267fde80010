//! A collateralized lending ledger: user profiles, deposited collateral,
//! loan records and the transitions between ledger states, with every
//! transition stated as a contract over a mathematical model of the ledger.

/// The reasons for which a call is rejected.
pub mod error;
/// The records that the ledger stores.
pub mod state;
/// What a user profile does on deposits, withdrawals and loans.
pub mod profile;
/// The key-value table that holds the records of one kind.
pub mod store;
/// The ledger's whole state, and what the host tells a call.
pub mod ledger;
/// The messages that the ledger takes.
pub mod msg;
/// What a call hands back: token instructions and attributes.
pub mod response;
/// Amounts, numbers and token orders in the forms in which they leave the ledger.
pub mod codec;
/// The transitions of the ledger, as functions on its state.
pub mod model;
/// The calls themselves.
pub mod contract;
/// What holds of the ledger over single calls and over sequences of them.
pub mod laws;
