//! Verified core of the Intelligence Rail contracts: an intelligence-asset
//! marketplace with license sales, and streaming micropayments.
//!
//! Each contract is modelled as a state machine: a call takes the current
//! contract state (plus the ledger time where the call reads it) and either
//! refuses, leaving the state as it was, or moves to the next state and queues
//! the token transfers and events that the host has to carry out.
pub mod ledger;
pub mod marketplace;
pub mod micropayments;
pub mod market_laws;
pub mod stream_laws;
