//! The plain records the ledger stores: songs, artist counters, transfer
//! receipts, and the platform configuration.

use vstd::prelude::*;

verus! {

/// One song of the catalog.
///
/// Ids are assigned sequentially starting at `1`; `0` is reserved as
/// "does not exist".  `plays` only ever grows; `active` can be toggled
/// by the owner.
#[derive(Clone, Copy, Debug, PartialEq, Eq, Structural)]
pub struct Song {
    /// Unique id, never reused or reassigned.
    pub id: u64,
    /// Identity of the owning artist.
    pub artist: u64,
    /// Exact fee a listener must pay for one play.
    pub price_per_play: u64,
    /// Number of successful plays against this song.
    pub plays: u64,
    /// Whether the song can currently be played.
    pub active: bool,
}

/// Lifetime counters of a registered artist.
///
/// Both counters are monotonically non-decreasing; `total_earnings` is a
/// lifetime sum and is never reduced by withdrawals.
#[derive(Clone, Copy, Debug, PartialEq, Eq, Structural)]
pub struct ArtistRecord {
    /// Total successful plays across all of the artist's songs.
    pub total_plays: u64,
    /// Total fees ever credited to the artist.
    pub total_earnings: u64,
}

/// Receipt of one successful external value transfer.
#[derive(Clone, Copy, Debug, PartialEq, Eq, Structural)]
pub struct TransferRecord {
    /// Recipient of the funds.
    pub to: u64,
    /// Amount moved out of the platform.
    pub amount: u64,
}

/// The platform's configuration, as reported by `get_config`.
#[derive(Clone, Copy, Debug, PartialEq, Eq, Structural)]
pub struct PlatformConfig {
    /// Whether `initialize` has run.
    pub initialized: bool,
    /// The single owner identity; meaningful only once initialized.
    pub owner: u64,
    /// The platform-wide price per play.
    pub price_per_play: u64,
    /// Id the next uploaded song will receive.
    pub next_song_id: u64,
    /// Number of songs uploaded so far.
    pub total_songs: u64,
}

} // verus!
