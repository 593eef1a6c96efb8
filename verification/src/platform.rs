//! The platform: one shared ledger combining the catalog, the balance
//! store, the owner configuration and the transfer receipts.
//!
//! Every mutating operation promises that its effect on the abstract
//! view equals the matching transition of [`crate::state`], so a failing
//! call provably leaves the whole state as it was.  The caller identity
//! is always an explicit argument: the surrounding host supplies it from
//! its unspoofable identity provider.  The external value-transfer
//! capability is driven through the `withdraw_begin` / `withdraw_finish`
//! protocol: the balance is debited to its final value *before* the
//! external call is made, so a re-entrant call observes a balance that
//! already excludes the in-flight withdrawal.

use vstd::prelude::*;
use crate::balance::BalanceStore;
use crate::catalog::CatalogRegistry;
use crate::errors::Error;
use crate::records::{ArtistRecord, PlatformConfig, Song, TransferRecord};
use crate::state::{
    initialize_tr, play_song_tr, play_within_limits, register_artist_tr, set_price_per_play_tr,
    set_song_price_tr, toggle_song_status_tr, transfer_funds_tr, upload_song_tr, withdraw_tr,
    PlatformView,
};

verus! {

/// The pay-per-play royalty ledger.
pub struct MusicStreamingPlatform {
    initialized: bool,
    owner: u64,
    price_per_play: u64,
    catalog: CatalogRegistry,
    balances: BalanceStore,
    transfers: Vec<TransferRecord>,
}

impl View for MusicStreamingPlatform {
    type V = PlatformView;

    closed spec fn view(&self) -> PlatformView {
        PlatformView {
            initialized: self.initialized,
            owner: self.owner,
            price_per_play: self.price_per_play,
            catalog: self.catalog@,
            balances: self.balances@,
            transfers: self.transfers@,
        }
    }
}

impl MusicStreamingPlatform {
    /// Internal consistency, established by `new` and preserved by
    /// every operation.
    pub closed spec fn inv(&self) -> bool {
        &&& self@.wf()
        &&& self.catalog.inv()
    }

    /// A fresh, uninitialized platform with an empty ledger.
    pub fn new() -> (r: MusicStreamingPlatform)
        ensures
            r.inv(),
            r@ == PlatformView::empty(),
    {
        let platform = MusicStreamingPlatform {
            initialized: false,
            owner: 0,
            price_per_play: 0,
            catalog: CatalogRegistry::new(),
            balances: BalanceStore::new(),
            transfers: Vec::new(),
        };
        proof {
            assert(platform@ =~= PlatformView::empty());
        }
        platform
    }

    /// Records the caller as the single owner and sets the initial
    /// platform-wide price; fails with `AlreadyInitialized` exactly
    /// when called a second time, leaving everything unchanged.
    pub fn initialize(&mut self, caller: u64, initial_price: u64) -> (r: Result<(), Error>)
        requires
            old(self).inv(),
        ensures
            final(self).inv(),
            ({
                let (post, res) = initialize_tr(old(self)@, caller, initial_price);
                final(self)@ == post && r == res
            }),
    {
        if self.initialized {
            Err(Error::AlreadyInitialized)
        } else {
            self.initialized = true;
            self.owner = caller;
            self.price_per_play = initial_price;
            Ok(())
        }
    }

    /// Whether `initialize` has run.
    pub fn is_initialized(&self) -> (r: bool)
        ensures
            r == self@.initialized,
    {
        self.initialized
    }

    /// The owner identity, or `0` while uninitialized.
    pub fn get_owner(&self) -> (r: u64)
        requires
            self.inv(),
        ensures
            r == self@.owner,
            !self@.initialized ==> r == 0,
    {
        self.owner
    }

    /// The current configuration; total functions over the view.
    pub fn get_config(&self) -> (r: PlatformConfig)
        requires
            self.inv(),
        ensures
            r == (PlatformConfig {
                initialized: self@.initialized,
                owner: self@.owner,
                price_per_play: self@.price_per_play,
                next_song_id: (self@.catalog.songs.len() + 1) as u64,
                total_songs: self@.catalog.songs.len() as u64,
            }),
    {
        let total_songs = self.catalog.total_songs();
        PlatformConfig {
            initialized: self.initialized,
            owner: self.owner,
            price_per_play: self.price_per_play,
            next_song_id: total_songs + 1,
            total_songs,
        }
    }

    /// Marks the caller registered as an artist with zero lifetime
    /// counters; fails with `ArtistAlreadyRegistered` exactly when the
    /// same identity registered before, leaving everything unchanged.
    pub fn register_artist(&mut self, caller: u64) -> (r: Result<(), Error>)
        requires
            old(self).inv(),
        ensures
            final(self).inv(),
            ({
                let (post, res) = register_artist_tr(old(self)@, caller);
                final(self)@ == post && r == res
            }),
    {
        let r = self.catalog.register(caller);
        proof {
            assert(self@ =~= register_artist_tr(old(self)@, caller).0);
        }
        r
    }

    /// The lifetime counters of a registered artist, `None` for an
    /// unregistered identity.
    pub fn get_artist(&self, artist: u64) -> (r: Option<ArtistRecord>)
        ensures
            match r {
                Some(record) => self@.is_registered(artist) && record
                    == self@.catalog.artists[artist],
                None => !self@.is_registered(artist),
            },
    {
        self.catalog.get_artist(artist)
    }

    /// Whether `artist` has registered.
    pub fn is_artist(&self, artist: u64) -> (r: bool)
        ensures
            r == self@.is_registered(artist),
    {
        self.catalog.is_artist(artist)
    }

    /// Stores a new active song with zero plays under the next
    /// sequential id and returns that id; fails with
    /// `ArtistNotRegistered` exactly when the caller has not
    /// registered, leaving everything unchanged.
    pub fn upload_song(&mut self, caller: u64, price: u64) -> (r: Result<u64, Error>)
        requires
            old(self).inv(),
            old(self)@.catalog.songs.len() + 1 < u64::MAX,
        ensures
            final(self).inv(),
            ({
                let (post, res) = upload_song_tr(old(self)@, caller, price);
                final(self)@ == post && r == res
            }),
    {
        let r = self.catalog.upload_song(caller, price);
        proof {
            assert(self@ =~= upload_song_tr(old(self)@, caller, price).0);
        }
        r
    }

    /// The song stored under `song_id`, or `None` exactly when no such
    /// song exists.
    pub fn get_song(&self, song_id: u64) -> (r: Option<Song>)
        requires
            self.inv(),
        ensures
            match r {
                Some(song) => self@.song_exists(song_id) && song == self@.song_at(song_id),
                None => !self@.song_exists(song_id),
            },
    {
        self.catalog.find_song(song_id)
    }

    /// Number of songs uploaded so far.
    pub fn get_total_songs(&self) -> (r: u64)
        requires
            self.inv(),
        ensures
            r == self@.catalog.songs.len(),
    {
        self.catalog.total_songs()
    }

    /// Validates a play request and, on success, increments the song's
    /// play counter and the artist's lifetime counters and escrows the
    /// fee into the artist's pending balance.  Payment is exact-match:
    /// any other amount fails with `IncorrectPayment` and changes
    /// nothing, as the transition states.  No external transfer happens
    /// on a play.
    #[allow(unused_variables)]
    pub fn play_song(&mut self, caller: u64, song_id: u64, paid: u64) -> (r: Result<(), Error>)
        requires
            old(self).inv(),
            play_within_limits(old(self)@, song_id),
        ensures
            final(self).inv(),
            ({
                let (post, res) = play_song_tr(old(self)@, caller, song_id, paid);
                final(self)@ == post && r == res
            }),
    {
        let song = match self.catalog.find_song(song_id) {
            None => {
                return Err(Error::SongNotFound);
            },
            Some(song) => song,
        };
        if !song.active {
            return Err(Error::SongInactive);
        }
        if paid != song.price_per_play {
            return Err(Error::IncorrectPayment);
        }
        self.catalog.record_play(song_id);
        self.balances.credit(song.artist, song.price_per_play);
        proof {
            assert(self@ =~= play_song_tr(old(self)@, caller, song_id, paid).0);
        }
        Ok(())
    }

    /// Play counter of a song, zero for an id that does not exist.
    pub fn get_song_plays(&self, song_id: u64) -> (r: u64)
        requires
            self.inv(),
        ensures
            r == (if self@.song_exists(song_id) {
                self@.song_at(song_id).plays
            } else {
                0
            }),
    {
        match self.catalog.find_song(song_id) {
            Some(song) => song.plays,
            None => 0,
        }
    }

    /// Price of a song, zero for an id that does not exist.
    pub fn get_price_per_play(&self, song_id: u64) -> (r: u64)
        requires
            self.inv(),
        ensures
            r == (if self@.song_exists(song_id) {
                self@.song_at(song_id).price_per_play
            } else {
                0
            }),
    {
        match self.catalog.find_song(song_id) {
            Some(song) => song.price_per_play,
            None => 0,
        }
    }

    /// The canonical song-existence check, shared by every reader.
    pub fn song_exists(&self, song_id: u64) -> (r: bool)
        requires
            self.inv(),
        ensures
            r == self@.song_exists(song_id),
    {
        self.catalog.song_exists(song_id)
    }

    /// Pending balance of an artist, zero for unknown identities.
    pub fn get_artist_balance(&self, artist: u64) -> (r: u64)
        ensures
            r == self@.balance_of(artist),
    {
        self.balances.read(artist)
    }

    /// First half of a withdrawal: validates the request and debits the
    /// pending balance to its final value, *before* any external call
    /// is made.  Fails with `InvalidAmount` exactly when `amount` is
    /// zero and with `InsufficientBalance` exactly when `amount`
    /// exceeds the pending balance; a failure changes nothing.
    pub fn withdraw_begin(&mut self, caller: u64, amount: u64) -> (r: Result<(), Error>)
        requires
            old(self).inv(),
        ensures
            final(self).inv(),
            ({
                let b = old(self)@.balance_of(caller);
                match r {
                    Ok(()) => {
                        &&& 1 <= amount <= b
                        &&& final(self)@ == (PlatformView {
                            balances: old(self)@.balances.insert(caller, (b - amount) as u64),
                            ..old(self)@
                        })
                    },
                    Err(e) => {
                        &&& final(self)@ == old(self)@
                        &&& amount == 0 || amount > b
                        &&& e == (if amount == 0 {
                            Error::InvalidAmount
                        } else {
                            Error::InsufficientBalance
                        })
                    },
                }
            }),
    {
        if amount == 0 {
            return Err(Error::InvalidAmount);
        }
        let current = self.balances.read(caller);
        if amount > current {
            return Err(Error::InsufficientBalance);
        }
        match self.balances.debit(caller, amount) {
            Ok(_) => Ok(()),
            // Dead arm: the balance was just read and covers the amount.
            Err(e) => Err(e),
        }
    }

    /// Second half of a withdrawal, fed the report of the external
    /// value-transfer capability.  On success the receipt is recorded;
    /// on failure the compensating credit restores the pre-debit
    /// balance and the call reports `TransferFailed`.
    pub fn withdraw_finish(&mut self, caller: u64, amount: u64, transfer_ok: bool) -> (r: Result<
        (),
        Error,
    >)
        requires
            old(self).inv(),
            old(self)@.balance_of(caller) + amount <= u64::MAX,
        ensures
            final(self).inv(),
            transfer_ok ==> r == Ok::<(), Error>(()) && final(self)@ == (PlatformView {
                transfers: old(self)@.transfers.push(TransferRecord { to: caller, amount }),
                ..old(self)@
            }),
            !transfer_ok ==> r == Err::<(), Error>(Error::TransferFailed) && final(self)@
                == (PlatformView {
                balances: old(self)@.balances.insert(
                    caller,
                    (old(self)@.balance_of(caller) + amount) as u64,
                ),
                ..old(self)@
            }),
    {
        if transfer_ok {
            self.transfers.push(TransferRecord { to: caller, amount });
            Ok(())
        } else {
            self.balances.credit(caller, amount);
            Err(Error::TransferFailed)
        }
    }

    /// A whole withdrawal as one transition, with the report of the
    /// external value-transfer capability as an input event: debit,
    /// then the external transfer, then the compensating credit if the
    /// transfer failed.  A host performing the real external call runs
    /// `withdraw_begin` / `withdraw_finish` around it instead.
    pub fn withdraw(&mut self, caller: u64, amount: u64, transfer_ok: bool) -> (r: Result<
        (),
        Error,
    >)
        requires
            old(self).inv(),
        ensures
            final(self).inv(),
            ({
                let (post, res) = withdraw_tr(old(self)@, caller, amount, transfer_ok);
                final(self)@ == post && r == res
            }),
    {
        match self.withdraw_begin(caller, amount) {
            Err(e) => {
                return Err(e);
            },
            Ok(()) => {},
        }
        let r = self.withdraw_finish(caller, amount, transfer_ok);
        proof {
            if !transfer_ok {
                assert(self@.balances =~= old(self)@.balances);
            }
            assert(self@ =~= withdraw_tr(old(self)@, caller, amount, transfer_ok).0);
        }
        r
    }

    /// A direct tip moved by the external value-transfer capability;
    /// the ledger validates the amount, records the receipt on success,
    /// and leaves every balance untouched.
    pub fn transfer_funds(&mut self, recipient: u64, amount: u64, transfer_ok: bool) -> (r: Result<
        (),
        Error,
    >)
        requires
            old(self).inv(),
        ensures
            final(self).inv(),
            ({
                let (post, res) = transfer_funds_tr(old(self)@, recipient, amount, transfer_ok);
                final(self)@ == post && r == res
            }),
    {
        if amount == 0 {
            Err(Error::InvalidAmount)
        } else if !transfer_ok {
            Err(Error::TransferFailed)
        } else {
            self.transfers.push(TransferRecord { to: recipient, amount });
            Ok(())
        }
    }

    /// Sets the platform-wide price and applies it to every song;
    /// fails with `Unauthorized` exactly when the caller is not the
    /// owner of an initialized platform, leaving everything unchanged.
    pub fn set_price_per_play(&mut self, caller: u64, new_price: u64) -> (r: Result<(), Error>)
        requires
            old(self).inv(),
        ensures
            final(self).inv(),
            ({
                let (post, res) = set_price_per_play_tr(old(self)@, caller, new_price);
                final(self)@ == post && r == res
            }),
    {
        if !self.initialized || caller != self.owner {
            return Err(Error::Unauthorized);
        }
        self.price_per_play = new_price;
        self.catalog.set_all_prices(new_price);
        proof {
            assert(self@ =~= set_price_per_play_tr(old(self)@, caller, new_price).0);
        }
        Ok(())
    }

    /// Overrides the price of one song; fails with `Unauthorized` for
    /// anyone but the owner and with `SongNotFound` for an id outside
    /// the allocated range, leaving everything unchanged.
    pub fn set_song_price(&mut self, caller: u64, song_id: u64, new_price: u64) -> (r: Result<
        (),
        Error,
    >)
        requires
            old(self).inv(),
        ensures
            final(self).inv(),
            ({
                let (post, res) = set_song_price_tr(old(self)@, caller, song_id, new_price);
                final(self)@ == post && r == res
            }),
    {
        if !self.initialized || caller != self.owner {
            return Err(Error::Unauthorized);
        }
        if !self.catalog.song_exists(song_id) {
            return Err(Error::SongNotFound);
        }
        self.catalog.set_song_price(song_id, new_price);
        proof {
            assert(self@ =~= set_song_price_tr(old(self)@, caller, song_id, new_price).0);
        }
        Ok(())
    }

    /// Flips one song's active flag; fails with `Unauthorized` for
    /// anyone but the owner and with `SongNotFound` for an id outside
    /// the allocated range, leaving everything unchanged.
    pub fn toggle_song_status(&mut self, caller: u64, song_id: u64) -> (r: Result<(), Error>)
        requires
            old(self).inv(),
        ensures
            final(self).inv(),
            ({
                let (post, res) = toggle_song_status_tr(old(self)@, caller, song_id);
                final(self)@ == post && r == res
            }),
    {
        if !self.initialized || caller != self.owner {
            return Err(Error::Unauthorized);
        }
        if !self.catalog.song_exists(song_id) {
            return Err(Error::SongNotFound);
        }
        self.catalog.toggle_song_status(song_id);
        proof {
            assert(self@ =~= toggle_song_status_tr(old(self)@, caller, song_id).0);
        }
        Ok(())
    }

    /// Number of recorded external transfer receipts.
    pub fn transfer_count(&self) -> (r: usize)
        ensures
            r == self@.transfers.len(),
    {
        self.transfers.len()
    }

    /// The `index`-th transfer receipt, oldest first.
    pub fn get_transfer(&self, index: usize) -> (r: Option<TransferRecord>)
        ensures
            match r {
                Some(record) => index < self@.transfers.len() && record
                    == self@.transfers[index as int],
                None => index >= self@.transfers.len(),
            },
    {
        if index < self.transfers.len() {
            Some(self.transfers[index])
        } else {
            None
        }
    }
}

} // verus!
