//! Final, publicly-auditable step of a multi-party trusted-setup ceremony:
//! a public randomness-beacon value is decoded into a 32-byte seed, the seed
//! drives one deterministic generator shared across the three parameter-set
//! contributions (Spend, Output, Mint, in that fixed order), and the three
//! per-set commitment digests are bound into one auditable hash.

pub mod ceremony;
pub mod hash;
pub mod report;
pub mod hex;
pub mod rng;
