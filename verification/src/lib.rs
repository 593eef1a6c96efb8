//! A pay-per-play royalty ledger for a content-streaming platform.
//!
//! Listeners pay a per-song fee, the fee is escrowed into the owning
//! artist's pending balance, and artists later withdraw their accumulated
//! balance through an external value-transfer capability.  The ledger is
//! modelled over plain values: caller identities and amounts are `u64`,
//! and the outcome of the external transfer enters the ledger as an event,
//! so every accounting decision is verified.

pub mod balance;
pub mod catalog;
pub mod errors;
pub mod laws;
pub mod platform;
pub mod records;
pub mod state;

pub use errors::Error;
pub use platform::MusicStreamingPlatform;
pub use records::{ArtistRecord, PlatformConfig, Song, TransferRecord};
