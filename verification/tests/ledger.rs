//! End-to-end tests of the platform: the documented scenarios, every
//! error kind, and the edge cases around ids and balances.

use royalty_ledger::{Error, MusicStreamingPlatform, TransferRecord};

const OWNER: u64 = 1;
const ARTIST: u64 = 2;
const LISTENER: u64 = 3;

/// A platform initialized by `OWNER` with price 100 and one song of
/// `ARTIST` priced 100.
fn platform_with_song() -> MusicStreamingPlatform {
    let mut p = MusicStreamingPlatform::new();
    assert_eq!(p.initialize(OWNER, 100), Ok(()));
    assert_eq!(p.register_artist(ARTIST), Ok(()));
    assert_eq!(p.upload_song(ARTIST, 100), Ok(1));
    p
}

#[test]
fn scenario_play_then_withdraw() {
    let mut p = platform_with_song();
    assert_eq!(p.play_song(LISTENER, 1, 100), Ok(()));
    assert_eq!(p.get_song_plays(1), 1);
    assert_eq!(p.get_artist_balance(ARTIST), 100);

    assert_eq!(p.withdraw(ARTIST, 60, true), Ok(()));
    assert_eq!(p.get_artist_balance(ARTIST), 40);
    assert_eq!(p.transfer_count(), 1);
    assert_eq!(p.get_transfer(0), Some(TransferRecord { to: ARTIST, amount: 60 }));

    assert_eq!(p.withdraw(ARTIST, 41, true), Err(Error::InsufficientBalance));
    assert_eq!(p.get_artist_balance(ARTIST), 40);
}

#[test]
fn withdraw_same_amount_twice_fails_second_time() {
    let mut p = platform_with_song();
    assert_eq!(p.play_song(LISTENER, 1, 100), Ok(()));
    assert_eq!(p.withdraw(ARTIST, 100, true), Ok(()));
    assert_eq!(p.get_artist_balance(ARTIST), 0);
    assert_eq!(p.withdraw(ARTIST, 100, true), Err(Error::InsufficientBalance));
    assert_eq!(p.get_artist_balance(ARTIST), 0);
}

#[test]
fn withdraw_transfer_failure_restores_balance() {
    let mut p = platform_with_song();
    assert_eq!(p.play_song(LISTENER, 1, 100), Ok(()));
    assert_eq!(p.withdraw(ARTIST, 60, true), Ok(()));
    assert_eq!(p.get_artist_balance(ARTIST), 40);

    assert_eq!(p.withdraw(ARTIST, 40, false), Err(Error::TransferFailed));
    assert_eq!(p.get_artist_balance(ARTIST), 40);
    // Only the first, successful withdrawal left a receipt.
    assert_eq!(p.transfer_count(), 1);
}

#[test]
fn withdraw_zero_is_invalid() {
    let mut p = platform_with_song();
    assert_eq!(p.withdraw(ARTIST, 0, true), Err(Error::InvalidAmount));
}

#[test]
fn withdraw_protocol_debits_before_transfer() {
    let mut p = platform_with_song();
    assert_eq!(p.play_song(LISTENER, 1, 100), Ok(()));

    assert_eq!(p.withdraw_begin(ARTIST, 60), Ok(()));
    // The balance is already at its post-withdrawal value while the
    // external transfer would be in flight, so a re-entrant attempt to
    // withdraw the same funds fails.
    assert_eq!(p.get_artist_balance(ARTIST), 40);
    assert_eq!(p.withdraw_begin(ARTIST, 60), Err(Error::InsufficientBalance));

    assert_eq!(p.withdraw_finish(ARTIST, 60, true), Ok(()));
    assert_eq!(p.get_artist_balance(ARTIST), 40);
    assert_eq!(p.get_transfer(0), Some(TransferRecord { to: ARTIST, amount: 60 }));
}

#[test]
fn withdraw_protocol_compensates_on_failure() {
    let mut p = platform_with_song();
    assert_eq!(p.play_song(LISTENER, 1, 100), Ok(()));
    assert_eq!(p.withdraw_begin(ARTIST, 100), Ok(()));
    assert_eq!(p.get_artist_balance(ARTIST), 0);
    assert_eq!(p.withdraw_finish(ARTIST, 100, false), Err(Error::TransferFailed));
    assert_eq!(p.get_artist_balance(ARTIST), 100);
}

#[test]
fn play_wrong_payment_changes_nothing() {
    let mut p = platform_with_song();
    assert_eq!(p.play_song(LISTENER, 1, 99), Err(Error::IncorrectPayment));
    assert_eq!(p.play_song(LISTENER, 1, 101), Err(Error::IncorrectPayment));
    assert_eq!(p.play_song(LISTENER, 1, 0), Err(Error::IncorrectPayment));
    assert_eq!(p.get_song_plays(1), 0);
    assert_eq!(p.get_artist_balance(ARTIST), 0);
    let record = p.get_artist(ARTIST).unwrap();
    assert_eq!(record.total_plays, 0);
    assert_eq!(record.total_earnings, 0);
}

#[test]
fn play_missing_song_changes_nothing() {
    let mut p = platform_with_song();
    assert_eq!(p.play_song(LISTENER, 0, 100), Err(Error::SongNotFound));
    assert_eq!(p.play_song(LISTENER, 2, 100), Err(Error::SongNotFound));
    assert_eq!(p.get_total_songs(), 1);
    assert_eq!(p.get_song_plays(1), 0);
    assert_eq!(p.get_artist_balance(ARTIST), 0);
}

#[test]
fn play_inactive_song_fails_until_reactivated() {
    let mut p = platform_with_song();
    assert_eq!(p.toggle_song_status(OWNER, 1), Ok(()));
    assert_eq!(p.play_song(LISTENER, 1, 100), Err(Error::SongInactive));
    assert_eq!(p.get_song_plays(1), 0);
    assert_eq!(p.toggle_song_status(OWNER, 1), Ok(()));
    assert_eq!(p.play_song(LISTENER, 1, 100), Ok(()));
    assert_eq!(p.get_song_plays(1), 1);
}

#[test]
fn play_accumulates_counters_and_earnings() {
    let mut p = platform_with_song();
    for _ in 0..3 {
        assert_eq!(p.play_song(LISTENER, 1, 100), Ok(()));
    }
    assert_eq!(p.get_song_plays(1), 3);
    assert_eq!(p.get_artist_balance(ARTIST), 300);
    let record = p.get_artist(ARTIST).unwrap();
    assert_eq!(record.total_plays, 3);
    assert_eq!(record.total_earnings, 300);

    // A withdrawal reduces the pending balance but not the lifetime
    // earnings counter.
    assert_eq!(p.withdraw(ARTIST, 250, true), Ok(()));
    assert_eq!(p.get_artist_balance(ARTIST), 50);
    assert_eq!(p.get_artist(ARTIST).unwrap().total_earnings, 300);
}

#[test]
fn register_twice_fails_and_keeps_state() {
    let mut p = MusicStreamingPlatform::new();
    assert_eq!(p.initialize(OWNER, 100), Ok(()));
    assert_eq!(p.register_artist(ARTIST), Ok(()));
    assert_eq!(p.register_artist(ARTIST), Err(Error::ArtistAlreadyRegistered));
    assert!(p.is_artist(ARTIST));
    let record = p.get_artist(ARTIST).unwrap();
    assert_eq!(record.total_plays, 0);
    assert_eq!(record.total_earnings, 0);
}

#[test]
fn initialize_twice_fails_and_keeps_owner() {
    let mut p = MusicStreamingPlatform::new();
    assert!(!p.is_initialized());
    assert_eq!(p.initialize(OWNER, 100), Ok(()));
    assert!(p.is_initialized());
    assert_eq!(p.initialize(ARTIST, 7), Err(Error::AlreadyInitialized));
    assert_eq!(p.get_owner(), OWNER);
    assert_eq!(p.get_config().price_per_play, 100);
}

#[test]
fn upload_requires_registration() {
    let mut p = MusicStreamingPlatform::new();
    assert_eq!(p.initialize(OWNER, 100), Ok(()));
    assert_eq!(p.upload_song(LISTENER, 100), Err(Error::ArtistNotRegistered));
    assert_eq!(p.get_total_songs(), 0);
}

#[test]
fn upload_assigns_sequential_ids() {
    let mut p = MusicStreamingPlatform::new();
    assert_eq!(p.initialize(OWNER, 100), Ok(()));
    assert_eq!(p.register_artist(ARTIST), Ok(()));
    assert_eq!(p.upload_song(ARTIST, 10), Ok(1));
    assert_eq!(p.upload_song(ARTIST, 20), Ok(2));
    assert_eq!(p.upload_song(ARTIST, 30), Ok(3));
    assert_eq!(p.get_total_songs(), 3);
    assert_eq!(p.get_config().next_song_id, 4);

    assert!(!p.song_exists(0));
    assert!(p.song_exists(1));
    assert!(p.song_exists(3));
    assert!(!p.song_exists(4));

    let song = p.get_song(2).unwrap();
    assert_eq!(song.id, 2);
    assert_eq!(song.artist, ARTIST);
    assert_eq!(song.price_per_play, 20);
    assert_eq!(song.plays, 0);
    assert!(song.active);
}

#[test]
fn set_price_per_play_by_non_owner_changes_nothing() {
    let mut p = platform_with_song();
    assert_eq!(p.set_price_per_play(ARTIST, 55), Err(Error::Unauthorized));
    assert_eq!(p.get_config().price_per_play, 100);
    assert_eq!(p.get_price_per_play(1), 100);
}

#[test]
fn set_price_per_play_applies_to_every_song() {
    let mut p = MusicStreamingPlatform::new();
    assert_eq!(p.initialize(OWNER, 100), Ok(()));
    assert_eq!(p.register_artist(ARTIST), Ok(()));
    assert_eq!(p.upload_song(ARTIST, 10), Ok(1));
    assert_eq!(p.upload_song(ARTIST, 20), Ok(2));
    assert_eq!(p.set_price_per_play(OWNER, 70), Ok(()));
    assert_eq!(p.get_config().price_per_play, 70);
    assert_eq!(p.get_price_per_play(1), 70);
    assert_eq!(p.get_price_per_play(2), 70);
    // Playback now requires the new exact price.
    assert_eq!(p.play_song(LISTENER, 1, 10), Err(Error::IncorrectPayment));
    assert_eq!(p.play_song(LISTENER, 1, 70), Ok(()));
}

#[test]
fn set_song_price_changes_one_song() {
    let mut p = MusicStreamingPlatform::new();
    assert_eq!(p.initialize(OWNER, 100), Ok(()));
    assert_eq!(p.register_artist(ARTIST), Ok(()));
    assert_eq!(p.upload_song(ARTIST, 10), Ok(1));
    assert_eq!(p.upload_song(ARTIST, 20), Ok(2));
    assert_eq!(p.set_song_price(ARTIST, 1, 30), Err(Error::Unauthorized));
    assert_eq!(p.set_song_price(OWNER, 9, 30), Err(Error::SongNotFound));
    assert_eq!(p.set_song_price(OWNER, 1, 30), Ok(()));
    assert_eq!(p.get_price_per_play(1), 30);
    assert_eq!(p.get_price_per_play(2), 20);
}

#[test]
fn toggle_song_status_checks_owner_and_existence() {
    let mut p = platform_with_song();
    assert_eq!(p.toggle_song_status(ARTIST, 1), Err(Error::Unauthorized));
    assert!(p.get_song(1).unwrap().active);
    assert_eq!(p.toggle_song_status(OWNER, 0), Err(Error::SongNotFound));
    assert_eq!(p.toggle_song_status(OWNER, 2), Err(Error::SongNotFound));
    assert_eq!(p.toggle_song_status(OWNER, 1), Ok(()));
    assert!(!p.get_song(1).unwrap().active);
}

#[test]
fn admin_operations_before_initialize_are_unauthorized() {
    let mut p = MusicStreamingPlatform::new();
    assert_eq!(p.set_price_per_play(0, 5), Err(Error::Unauthorized));
    assert_eq!(p.toggle_song_status(0, 1), Err(Error::Unauthorized));
}

#[test]
fn transfer_funds_validates_and_records() {
    let mut p = platform_with_song();
    assert_eq!(p.transfer_funds(ARTIST, 0, true), Err(Error::InvalidAmount));
    assert_eq!(p.transfer_funds(ARTIST, 25, false), Err(Error::TransferFailed));
    assert_eq!(p.transfer_count(), 0);
    assert_eq!(p.transfer_funds(ARTIST, 25, true), Ok(()));
    assert_eq!(p.transfer_count(), 1);
    assert_eq!(p.get_transfer(0), Some(TransferRecord { to: ARTIST, amount: 25 }));
    // A tip does not touch the ledger's balances.
    assert_eq!(p.get_artist_balance(ARTIST), 0);
}

#[test]
fn queries_return_defaults_on_empty_platform() {
    let p = MusicStreamingPlatform::new();
    assert!(!p.is_initialized());
    assert_eq!(p.get_owner(), 0);
    assert!(!p.is_artist(ARTIST));
    assert_eq!(p.get_artist(ARTIST), None);
    assert_eq!(p.get_artist_balance(ARTIST), 0);
    assert_eq!(p.get_song(0), None);
    assert_eq!(p.get_song(1), None);
    assert_eq!(p.get_song_plays(1), 0);
    assert_eq!(p.get_price_per_play(1), 0);
    assert!(!p.song_exists(0));
    assert!(!p.song_exists(1));
    assert_eq!(p.get_total_songs(), 0);
    assert_eq!(p.transfer_count(), 0);
    assert_eq!(p.get_transfer(0), None);

    let config = p.get_config();
    assert!(!config.initialized);
    assert_eq!(config.owner, 0);
    assert_eq!(config.price_per_play, 0);
    assert_eq!(config.next_song_id, 1);
    assert_eq!(config.total_songs, 0);
}
