//! Verified core of a peer-to-peer rental marketplace: a leap-year-aware
//! calendar engine for rent due dates, and the lease / escrow / dispute
//! state machines that move a security deposit from hold through
//! dual-confirmation release, negotiated settlement, or arbitration.
//!
//! The library is pure: every operation validates its inputs, mutates the
//! records it is given, and returns the ledger transfers the caller must
//! perform. Performing the transfers (and rolling the records back if a
//! transfer fails) is the surrounding runtime's job.

pub mod calendar;
pub mod config;
pub mod dispute;
pub mod error;
pub mod escrow;
pub mod lease;
pub mod ledger;
