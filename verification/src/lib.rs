//! A crowdfunding ledger engine: campaigns with goals and deadlines, shared
//! funding pools with a timed refund window, an access gate (admin, pause,
//! blacklist), platform-fee accounting and a time-locked emergency withdrawal.
//!
//! The engine is a pure state machine. Every operation takes the asserted
//! caller identity (an [`types::AuthContext`]) and the current time as
//! arguments, checks its preconditions in a fixed order, and either returns a
//! typed error with the state untouched, or applies its whole effect at once.
//! Movements of value are not performed here: an operation that moves funds
//! returns a [`types::TransferEffect`] describing the debit/credit pair, and
//! the surrounding host is expected to carry it out atomically.
//!
//! [`state`] holds the ledger state and its well-formedness invariant,
//! [`admin`], [`campaign`], [`pool`] and [`treasury`] the operations, and
//! [`laws`] the properties that hold across whole sequences of operations,
//! each stated and proved once over the operations' contracts.

pub mod admin;
pub mod campaign;
pub mod errors;
pub mod laws;
pub mod pool;
pub mod state;
pub mod sums;
pub mod treasury;
pub mod types;
