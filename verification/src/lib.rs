//! A worst case for the parachains inherent: a block in which as many candidates as possible are
//! disputed.
//!
//! `scenario` takes a host configuration to the finished inherent. The runtime does its own part
//! between the steps: it starts the session, hashes candidates, encodes what is signed and enters
//! the inherent. `blocks` decides how the chain is run forward, and `inherent` what storage must
//! show in the end.
//!
//! The types are those of the relay chain: 32 bit block numbers, Blake2 header hashes, 32 byte
//! accounts and sr25519 keys.

pub mod availability;
pub mod backing;
pub mod bits;
pub mod blocks;
pub mod crypto;
pub mod disputes;
pub mod inherent;
pub mod primitives;
pub mod scenario;
pub mod setup;
pub mod sizes;
pub mod storage;
pub mod validators;
