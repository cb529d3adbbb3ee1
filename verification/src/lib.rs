//! The decision logic of a capability-based RPC runtime, free of I/O.
//!
//! [`queued`] holds the placeholders that accept calls and pipelined
//! extractions against an endpoint that has not resolved yet, and
//! [`ordering`] what holds of them over whole histories. [`twoparty`] holds
//! the state of a vat network with exactly two participants.
//! [`forked_promise`] keeps the books of one result that many wait for.
//!
//! Every operation is a transition of a small state machine: it takes what
//! happened, updates the state, and says what has to be done next.
//! Scheduling, sockets and futures belong to the embedding program.

pub mod error;
pub mod forked_promise;
pub mod ordering;
pub mod outside;
pub mod queued;
pub mod twoparty;
