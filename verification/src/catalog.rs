//! The catalog registry: registered artists with their lifetime
//! counters, and the uploaded songs with sequentially allocated ids.

use vstd::prelude::*;
use std::collections::HashMap;
use crate::errors::Error;
use crate::records::{ArtistRecord, Song};
use crate::state::CatalogView;

verus! {

broadcast use vstd::std_specs::hash::group_hash_axioms;

/// Owned storage behind [`CatalogView`]: an identity-keyed artist table
/// and an arena of songs where the song with id `k` sits at index
/// `k - 1`.
pub struct CatalogRegistry {
    artists: HashMap<u64, ArtistRecord>,
    songs: Vec<Song>,
    total_songs: u64,
}

impl View for CatalogRegistry {
    type V = CatalogView;

    closed spec fn view(&self) -> CatalogView {
        CatalogView { artists: self.artists@, songs: self.songs@ }
    }
}

impl CatalogRegistry {
    /// Internal consistency: the view is well-formed and the stored
    /// song counter equals the number of uploaded songs.
    pub closed spec fn inv(&self) -> bool {
        &&& self@.wf()
        &&& self.total_songs == self.songs@.len()
    }

    /// An empty catalog: no artists, no songs.
    pub fn new() -> (r: CatalogRegistry)
        ensures
            r.inv(),
            r@ == (CatalogView { artists: Map::empty(), songs: Seq::empty() }),
    {
        CatalogRegistry { artists: HashMap::new(), songs: Vec::new(), total_songs: 0 }
    }

    /// Whether `artist` has registered.
    pub fn is_artist(&self, artist: u64) -> (r: bool)
        ensures
            r == self@.is_registered(artist),
    {
        self.artists.contains_key(&artist)
    }

    /// The lifetime counters of a registered artist, `None` for an
    /// unregistered identity.
    pub fn get_artist(&self, artist: u64) -> (r: Option<ArtistRecord>)
        ensures
            match r {
                Some(record) => self@.is_registered(artist) && record == self@.artists[artist],
                None => !self@.is_registered(artist),
            },
    {
        match self.artists.get(&artist) {
            Some(record) => Some(*record),
            None => None,
        }
    }

    /// Number of songs uploaded so far.
    pub fn total_songs(&self) -> (r: u64)
        requires
            self.inv(),
        ensures
            r == self@.songs.len(),
    {
        self.total_songs
    }

    /// The canonical existence check: the id lies in the allocated
    /// range `1 ..= total_songs`.
    pub fn song_exists(&self, song_id: u64) -> (r: bool)
        requires
            self.inv(),
        ensures
            r == self@.song_exists(song_id),
    {
        1 <= song_id && song_id <= self.total_songs
    }

    /// The song stored under `song_id`, or `None` exactly when no such
    /// song exists.
    pub fn find_song(&self, song_id: u64) -> (r: Option<Song>)
        requires
            self.inv(),
        ensures
            match r {
                Some(song) => self@.song_exists(song_id) && song == self@.song_at(song_id),
                None => !self@.song_exists(song_id),
            },
    {
        let n = self.songs.len();
        if 1 <= song_id && song_id <= self.total_songs {
            proof {
                assert(song_id - 1 < n);
            }
            Some(self.songs[(song_id - 1) as usize])
        } else {
            None
        }
    }

    /// Marks the caller registered with zero lifetime counters; fails
    /// with `ArtistAlreadyRegistered` exactly when the identity is
    /// already registered, leaving the catalog unchanged.
    pub fn register(&mut self, caller: u64) -> (r: Result<(), Error>)
        requires
            old(self).inv(),
        ensures
            final(self).inv(),
            ({
                if old(self)@.is_registered(caller) {
                    &&& r == Err::<(), Error>(Error::ArtistAlreadyRegistered)
                    &&& final(self)@ == old(self)@
                } else {
                    &&& r == Ok::<(), Error>(())
                    &&& final(self)@ == (CatalogView {
                        artists: old(self)@.artists.insert(
                            caller,
                            ArtistRecord { total_plays: 0, total_earnings: 0 },
                        ),
                        ..old(self)@
                    })
                }
            }),
    {
        if self.artists.contains_key(&caller) {
            Err(Error::ArtistAlreadyRegistered)
        } else {
            self.artists.insert(caller, ArtistRecord { total_plays: 0, total_earnings: 0 });
            Ok(())
        }
    }

    /// Allocates the next sequential id and stores a fresh, active song
    /// with zero plays for the caller; fails with `ArtistNotRegistered`
    /// exactly when the caller has not registered, leaving the catalog
    /// unchanged.
    pub fn upload_song(&mut self, caller: u64, price: u64) -> (r: Result<u64, Error>)
        requires
            old(self).inv(),
            old(self)@.songs.len() + 1 < u64::MAX,
        ensures
            final(self).inv(),
            ({
                if !old(self)@.is_registered(caller) {
                    &&& r == Err::<u64, Error>(Error::ArtistNotRegistered)
                    &&& final(self)@ == old(self)@
                } else {
                    let id = (old(self)@.songs.len() + 1) as u64;
                    let song = Song {
                        id,
                        artist: caller,
                        price_per_play: price,
                        plays: 0,
                        active: true,
                    };
                    &&& r == Ok::<u64, Error>(id)
                    &&& final(self)@ == (CatalogView {
                        songs: old(self)@.songs.push(song),
                        ..old(self)@
                    })
                }
            }),
    {
        if !self.artists.contains_key(&caller) {
            Err(Error::ArtistNotRegistered)
        } else {
            let id = self.total_songs + 1;
            let song = Song { id, artist: caller, price_per_play: price, plays: 0, active: true };
            self.songs.push(song);
            self.total_songs = id;
            Ok(id)
        }
    }

    /// Records one successful play: increments the song's play counter
    /// and the owning artist's lifetime play and earnings counters.
    pub fn record_play(&mut self, song_id: u64)
        requires
            old(self).inv(),
            old(self)@.song_exists(song_id),
            old(self)@.song_at(song_id).plays < u64::MAX,
            old(self)@.artists[old(self)@.song_at(song_id).artist].total_plays < u64::MAX,
            old(self)@.artists[old(self)@.song_at(song_id).artist].total_earnings + old(
                self,
            )@.song_at(song_id).price_per_play <= u64::MAX,
        ensures
            final(self).inv(),
            ({
                let song = old(self)@.song_at(song_id);
                let artist = old(self)@.artists[song.artist];
                final(self)@ == (CatalogView {
                    songs: old(self)@.songs.update(
                        song_id - 1,
                        Song { plays: (song.plays + 1) as u64, ..song },
                    ),
                    artists: old(self)@.artists.insert(
                        song.artist,
                        ArtistRecord {
                            total_plays: (artist.total_plays + 1) as u64,
                            total_earnings: (artist.total_earnings + song.price_per_play) as u64,
                        },
                    ),
                })
            }),
    {
        let n = self.songs.len();
        proof {
            assert(song_id - 1 < n);
        }
        let idx = (song_id - 1) as usize;
        let song = self.songs[idx];
        self.songs.set(idx, Song { plays: song.plays + 1, ..song });
        let record = match self.artists.get(&song.artist) {
            Some(record) => *record,
            // Dead arm: every stored song belongs to a registered artist.
            None => ArtistRecord { total_plays: 0, total_earnings: 0 },
        };
        self.artists.insert(
            song.artist,
            ArtistRecord {
                total_plays: record.total_plays + 1,
                total_earnings: record.total_earnings + song.price_per_play,
            },
        );
    }

    /// Overrides the price of one existing song.
    pub fn set_song_price(&mut self, song_id: u64, new_price: u64)
        requires
            old(self).inv(),
            old(self)@.song_exists(song_id),
        ensures
            final(self).inv(),
            ({
                let song = old(self)@.song_at(song_id);
                final(self)@ == (CatalogView {
                    songs: old(self)@.songs.update(
                        song_id - 1,
                        Song { price_per_play: new_price, ..song },
                    ),
                    ..old(self)@
                })
            }),
    {
        let n = self.songs.len();
        proof {
            assert(song_id - 1 < n);
        }
        let idx = (song_id - 1) as usize;
        let song = self.songs[idx];
        self.songs.set(idx, Song { price_per_play: new_price, ..song });
    }

    /// Flips the active flag of one existing song.
    pub fn toggle_song_status(&mut self, song_id: u64)
        requires
            old(self).inv(),
            old(self)@.song_exists(song_id),
        ensures
            final(self).inv(),
            ({
                let song = old(self)@.song_at(song_id);
                final(self)@ == (CatalogView {
                    songs: old(self)@.songs.update(song_id - 1, Song { active: !song.active, ..song }),
                    ..old(self)@
                })
            }),
    {
        let n = self.songs.len();
        proof {
            assert(song_id - 1 < n);
        }
        let idx = (song_id - 1) as usize;
        let song = self.songs[idx];
        self.songs.set(idx, Song { active: !song.active, ..song });
    }

    /// Applies one price to every song of the catalog.
    pub fn set_all_prices(&mut self, new_price: u64)
        requires
            old(self).inv(),
        ensures
            final(self).inv(),
            final(self)@ == (CatalogView {
                songs: old(self)@.songs.map(
                    |i: int, song: Song| Song { price_per_play: new_price, ..song },
                ),
                ..old(self)@
            }),
    {
        let n = self.songs.len();
        let mut i: usize = 0;
        while i < n
            invariant
                i <= n,
                n == self.songs@.len(),
                self.artists@ == old(self)@.artists,
                self.total_songs == old(self).total_songs,
                old(self).inv(),
                self.songs@.len() == old(self)@.songs.len(),
                forall|j: int|
                    0 <= j < i ==> self.songs@[j] == (Song {
                        price_per_play: new_price,
                        ..old(self)@.songs[j]
                    }),
                forall|j: int| i <= j < n ==> self.songs@[j] == old(self)@.songs[j],
            decreases n - i,
        {
            let song = self.songs[i];
            self.songs.set(i, Song { price_per_play: new_price, ..song });
            i += 1;
        }
        proof {
            assert(self.songs@ =~= old(self)@.songs.map(
                |i: int, song: Song| Song { price_per_play: new_price, ..song },
            ));
            assert(self@ =~= (CatalogView {
                songs: old(self)@.songs.map(
                    |i: int, song: Song| Song { price_per_play: new_price, ..song },
                ),
                ..old(self)@
            }));
        }
    }
}

} // verus!
