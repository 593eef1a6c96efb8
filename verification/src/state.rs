//! The mathematical model of the ledger: abstract views of the catalog
//! and the platform, their well-formedness, and one transition function
//! per public operation.
//!
//! Every executable operation promises that its effect on the platform's
//! view equals the corresponding transition here, so the laws in
//! `laws` speak about these functions alone.

use vstd::prelude::*;
use crate::errors::Error;
use crate::records::{ArtistRecord, Song, TransferRecord};

verus! {

/// Pending balance of `artist` in the balance map; an absent entry is
/// equivalent to a balance of zero.
pub open spec fn balance_in(balances: Map<u64, u64>, artist: u64) -> u64 {
    if balances.contains_key(artist) {
        balances[artist]
    } else {
        0
    }
}

/// Abstract view of the catalog: registered artists with their lifetime
/// counters, and the uploaded songs in order of allocation.
#[verifier::ext_equal]
pub struct CatalogView {
    /// An identity is registered exactly when it is a key of this map.
    pub artists: Map<u64, ArtistRecord>,
    /// The song with id `k` sits at index `k - 1`.
    pub songs: Seq<Song>,
}

impl CatalogView {
    /// The canonical existence predicate: a song id exists exactly when
    /// it lies in the allocated range `1 ..= songs.len()`.
    pub open spec fn song_exists(self, song_id: u64) -> bool {
        1 <= song_id && song_id <= self.songs.len()
    }

    /// The song stored under an existing id.
    pub open spec fn song_at(self, song_id: u64) -> Song
        recommends
            self.song_exists(song_id),
    {
        self.songs[song_id - 1]
    }

    /// Whether `artist` has registered.
    pub open spec fn is_registered(self, artist: u64) -> bool {
        self.artists.contains_key(artist)
    }

    /// Well-formedness: ids are sequential from 1, the next id still
    /// fits in `u64`, and every song belongs to a registered artist.
    pub open spec fn wf(self) -> bool {
        &&& self.songs.len() < u64::MAX
        &&& forall|i: int|
            0 <= i < self.songs.len() ==> (#[trigger] self.songs[i]).id == i + 1
        &&& forall|i: int|
            0 <= i < self.songs.len() ==> self.artists.contains_key(
                (#[trigger] self.songs[i]).artist,
            )
    }
}

/// Abstract view of the whole platform.
#[verifier::ext_equal]
pub struct PlatformView {
    /// Whether `initialize` has run.
    pub initialized: bool,
    /// The single owner identity; `0` until initialized.
    pub owner: u64,
    /// The platform-wide price per play; `0` until initialized.
    pub price_per_play: u64,
    /// Registered artists and uploaded songs.
    pub catalog: CatalogView,
    /// Pending balance per artist identity; absent means zero.
    pub balances: Map<u64, u64>,
    /// Receipts of the successful external transfers, in order.
    pub transfers: Seq<TransferRecord>,
}

impl PlatformView {
    /// Pending balance of `artist`, defaulting to zero.
    pub open spec fn balance_of(self, artist: u64) -> u64 {
        balance_in(self.balances, artist)
    }

    /// The canonical song-existence predicate, shared by every reader.
    pub open spec fn song_exists(self, song_id: u64) -> bool {
        self.catalog.song_exists(song_id)
    }

    /// The song stored under an existing id.
    pub open spec fn song_at(self, song_id: u64) -> Song
        recommends
            self.song_exists(song_id),
    {
        self.catalog.song_at(song_id)
    }

    /// Whether `artist` has registered.
    pub open spec fn is_registered(self, artist: u64) -> bool {
        self.catalog.is_registered(artist)
    }

    /// Only the one owner of an initialized platform is authorized.
    pub open spec fn is_owner(self, caller: u64) -> bool {
        self.initialized && caller == self.owner
    }

    /// Well-formedness of the whole ledger state.
    pub open spec fn wf(self) -> bool {
        &&& self.catalog.wf()
        &&& !self.initialized ==> self.owner == 0 && self.price_per_play == 0
    }

    /// The state of a freshly constructed, uninitialized platform.
    pub open spec fn empty() -> PlatformView {
        PlatformView {
            initialized: false,
            owner: 0,
            price_per_play: 0,
            catalog: CatalogView { artists: Map::empty(), songs: Seq::empty() },
            balances: Map::empty(),
            transfers: Seq::empty(),
        }
    }
}

/// Transition of `initialize`: records the owner and the initial global
/// price, once; a second call fails and changes nothing.
pub open spec fn initialize_tr(s: PlatformView, caller: u64, initial_price: u64) -> (
    PlatformView,
    Result<(), Error>,
) {
    if s.initialized {
        (s, Err(Error::AlreadyInitialized))
    } else {
        (
            PlatformView { initialized: true, owner: caller, price_per_play: initial_price, ..s },
            Ok(()),
        )
    }
}

/// Transition of `register_artist`: marks the caller registered with
/// zero lifetime counters; registering twice fails and changes nothing.
pub open spec fn register_artist_tr(s: PlatformView, caller: u64) -> (
    PlatformView,
    Result<(), Error>,
) {
    if s.is_registered(caller) {
        (s, Err(Error::ArtistAlreadyRegistered))
    } else {
        (
            PlatformView {
                catalog: CatalogView {
                    artists: s.catalog.artists.insert(
                        caller,
                        ArtistRecord { total_plays: 0, total_earnings: 0 },
                    ),
                    ..s.catalog
                },
                ..s
            },
            Ok(()),
        )
    }
}

/// Transition of `upload_song`: a registered caller receives the next
/// sequential id and a fresh, active song with zero plays.
pub open spec fn upload_song_tr(s: PlatformView, caller: u64, price: u64) -> (
    PlatformView,
    Result<u64, Error>,
) {
    if !s.is_registered(caller) {
        (s, Err(Error::ArtistNotRegistered))
    } else {
        let id = (s.catalog.songs.len() + 1) as u64;
        let song = Song { id, artist: caller, price_per_play: price, plays: 0, active: true };
        (
            PlatformView {
                catalog: CatalogView { songs: s.catalog.songs.push(song), ..s.catalog },
                ..s
            },
            Ok(id),
        )
    }
}

/// Transition of `play_song`: against an existing, active song and an
/// exactly matching payment, increments the song's play counter and the
/// artist's lifetime counters, and escrows the fee into the artist's
/// pending balance.  No external transfer happens on a play.
pub open spec fn play_song_tr(s: PlatformView, caller: u64, song_id: u64, paid: u64) -> (
    PlatformView,
    Result<(), Error>,
) {
    if !s.song_exists(song_id) {
        (s, Err(Error::SongNotFound))
    } else {
        let song = s.song_at(song_id);
        if !song.active {
            (s, Err(Error::SongInactive))
        } else if paid != song.price_per_play {
            (s, Err(Error::IncorrectPayment))
        } else {
            let artist = s.catalog.artists[song.artist];
            let post = PlatformView {
                catalog: CatalogView {
                    songs: s.catalog.songs.update(
                        song_id - 1,
                        Song { plays: (song.plays + 1) as u64, ..song },
                    ),
                    artists: s.catalog.artists.insert(
                        song.artist,
                        ArtistRecord {
                            total_plays: (artist.total_plays + 1) as u64,
                            total_earnings: (artist.total_earnings + song.price_per_play) as u64,
                        },
                    ),
                },
                balances: s.balances.insert(
                    song.artist,
                    (s.balance_of(song.artist) + song.price_per_play) as u64,
                ),
                ..s
            };
            (post, Ok(()))
        }
    }
}

/// Whether a play of `song_id` stays within the machine's counters, so
/// that the incremented values still fit in `u64`.
pub open spec fn play_within_limits(s: PlatformView, song_id: u64) -> bool {
    s.song_exists(song_id) ==> {
        let song = s.song_at(song_id);
        let artist = s.catalog.artists[song.artist];
        &&& song.plays < u64::MAX
        &&& artist.total_plays < u64::MAX
        &&& artist.total_earnings + song.price_per_play <= u64::MAX
        &&& s.balance_of(song.artist) + song.price_per_play <= u64::MAX
    }
}

/// Transition of `withdraw`, with the report of the external
/// value-transfer capability as an input event.  The executable protocol
/// debits before the external call is made and applies a compensating
/// credit if the transfer reports failure, so a failed transfer leaves
/// the state exactly as it was; a successful one leaves the balance
/// debited and a receipt recorded.
pub open spec fn withdraw_tr(s: PlatformView, caller: u64, amount: u64, transfer_ok: bool) -> (
    PlatformView,
    Result<(), Error>,
) {
    if amount == 0 {
        (s, Err(Error::InvalidAmount))
    } else if amount > s.balance_of(caller) {
        (s, Err(Error::InsufficientBalance))
    } else if !transfer_ok {
        (s, Err(Error::TransferFailed))
    } else {
        (
            PlatformView {
                balances: s.balances.insert(caller, (s.balance_of(caller) - amount) as u64),
                transfers: s.transfers.push(TransferRecord { to: caller, amount }),
                ..s
            },
            Ok(()),
        )
    }
}

/// Transition of `transfer_funds`: a direct tip moved by the external
/// capability; the ledger only validates the amount and records the
/// receipt, balances are untouched.
pub open spec fn transfer_funds_tr(
    s: PlatformView,
    recipient: u64,
    amount: u64,
    transfer_ok: bool,
) -> (PlatformView, Result<(), Error>) {
    if amount == 0 {
        (s, Err(Error::InvalidAmount))
    } else if !transfer_ok {
        (s, Err(Error::TransferFailed))
    } else {
        (
            PlatformView {
                transfers: s.transfers.push(TransferRecord { to: recipient, amount }),
                ..s
            },
            Ok(()),
        )
    }
}

/// Transition of `set_price_per_play`: the owner sets the platform-wide
/// price, which is applied to every song of the catalog.
pub open spec fn set_price_per_play_tr(s: PlatformView, caller: u64, new_price: u64) -> (
    PlatformView,
    Result<(), Error>,
) {
    if !s.is_owner(caller) {
        (s, Err(Error::Unauthorized))
    } else {
        (
            PlatformView {
                price_per_play: new_price,
                catalog: CatalogView {
                    songs: s.catalog.songs.map(
                        |i: int, song: Song| Song { price_per_play: new_price, ..song },
                    ),
                    ..s.catalog
                },
                ..s
            },
            Ok(()),
        )
    }
}

/// Transition of `set_song_price`: the owner overrides the price of one
/// existing song.
pub open spec fn set_song_price_tr(s: PlatformView, caller: u64, song_id: u64, new_price: u64) -> (
    PlatformView,
    Result<(), Error>,
) {
    if !s.is_owner(caller) {
        (s, Err(Error::Unauthorized))
    } else if !s.song_exists(song_id) {
        (s, Err(Error::SongNotFound))
    } else {
        let song = s.song_at(song_id);
        (
            PlatformView {
                catalog: CatalogView {
                    songs: s.catalog.songs.update(
                        song_id - 1,
                        Song { price_per_play: new_price, ..song },
                    ),
                    ..s.catalog
                },
                ..s
            },
            Ok(()),
        )
    }
}

/// Transition of `toggle_song_status`: the owner flips the active flag
/// of one existing song.
pub open spec fn toggle_song_status_tr(s: PlatformView, caller: u64, song_id: u64) -> (
    PlatformView,
    Result<(), Error>,
) {
    if !s.is_owner(caller) {
        (s, Err(Error::Unauthorized))
    } else if !s.song_exists(song_id) {
        (s, Err(Error::SongNotFound))
    } else {
        let song = s.song_at(song_id);
        (
            PlatformView {
                catalog: CatalogView {
                    songs: s.catalog.songs.update(song_id - 1, Song { active: !song.active, ..song }),
                    ..s.catalog
                },
                ..s
            },
            Ok(()),
        )
    }
}

/// One platform operation together with its inputs, so that laws can
/// quantify over arbitrary sequences of operations.
pub enum Op {
    /// `initialize(caller, initial_price)`.
    Initialize { caller: u64, initial_price: u64 },
    /// `register_artist(caller)`.
    RegisterArtist { caller: u64 },
    /// `upload_song(caller, price)`.
    UploadSong { caller: u64, price: u64 },
    /// `play_song(caller, song_id, paid)`.
    PlaySong { caller: u64, song_id: u64, paid: u64 },
    /// `withdraw(caller, amount)` with the transfer capability's report.
    Withdraw { caller: u64, amount: u64, transfer_ok: bool },
    /// `transfer_funds(recipient, amount)` with the capability's report.
    TransferFunds { recipient: u64, amount: u64, transfer_ok: bool },
    /// `set_price_per_play(caller, new_price)`.
    SetPricePerPlay { caller: u64, new_price: u64 },
    /// `set_song_price(caller, song_id, new_price)`.
    SetSongPrice { caller: u64, song_id: u64, new_price: u64 },
    /// `toggle_song_status(caller, song_id)`.
    ToggleSongStatus { caller: u64, song_id: u64 },
}

/// The machine limits under which one operation's executable
/// counterpart runs: the counters it increments must still fit in
/// `u64`.  Operations that only subtract or leave counters alone have
/// no such limit.
pub open spec fn op_within_limits(s: PlatformView, op: Op) -> bool {
    match op {
        Op::UploadSong { .. } => s.catalog.songs.len() + 1 < u64::MAX,
        Op::PlaySong { song_id, .. } => play_within_limits(s, song_id),
        _ => true,
    }
}

/// The machine limits of `op_within_limits`, holding at every
/// intermediate state of a whole sequence of operations.
pub open spec fn ops_within_limits(s: PlatformView, ops: Seq<Op>) -> bool
    decreases ops.len(),
{
    ops.len() == 0 || {
        &&& ops_within_limits(s, ops.drop_last())
        &&& op_within_limits(run(s, ops.drop_last()), ops.last())
    }
}

/// The state reached by performing one operation; a failing operation
/// leaves the state unchanged, as each transition above states.
pub open spec fn step(s: PlatformView, op: Op) -> PlatformView {
    match op {
        Op::Initialize { caller, initial_price } => initialize_tr(s, caller, initial_price).0,
        Op::RegisterArtist { caller } => register_artist_tr(s, caller).0,
        Op::UploadSong { caller, price } => upload_song_tr(s, caller, price).0,
        Op::PlaySong { caller, song_id, paid } => play_song_tr(s, caller, song_id, paid).0,
        Op::Withdraw { caller, amount, transfer_ok } => withdraw_tr(
            s,
            caller,
            amount,
            transfer_ok,
        ).0,
        Op::TransferFunds { recipient, amount, transfer_ok } => transfer_funds_tr(
            s,
            recipient,
            amount,
            transfer_ok,
        ).0,
        Op::SetPricePerPlay { caller, new_price } => set_price_per_play_tr(s, caller, new_price).0,
        Op::SetSongPrice { caller, song_id, new_price } => set_song_price_tr(
            s,
            caller,
            song_id,
            new_price,
        ).0,
        Op::ToggleSongStatus { caller, song_id } => toggle_song_status_tr(s, caller, song_id).0,
    }
}

/// The state reached by performing a whole sequence of operations.
pub open spec fn run(s: PlatformView, ops: Seq<Op>) -> PlatformView
    decreases ops.len(),
{
    if ops.len() == 0 {
        s
    } else {
        step(run(s, ops.drop_last()), ops.last())
    }
}

} // verus!
