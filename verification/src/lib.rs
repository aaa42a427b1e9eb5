//! A minimal on-chain voting library: polls with a bounded question,
//! a register of voter identities, an optional vote threshold, and an
//! expiry time. The state-transition logic is verified; the host
//! runtime (account wiring, clock reads, signing) stays outside.

pub mod laws;
pub mod poll;
pub mod voting;
