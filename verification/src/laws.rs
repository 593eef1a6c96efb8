//! The ledger's laws, proved once over the transitions of
//! [`crate::state`].  Every executable operation promises that its
//! effect equals the matching transition, so these lemmas carry over to
//! arbitrary call sequences against the platform.

use vstd::prelude::*;
use crate::errors::Error;
use crate::state::{
    op_within_limits, ops_within_limits, play_song_tr, register_artist_tr, run, step, withdraw_tr,
    Op, PlatformView,
};

verus! {

/// Every pending balance stays non-negative, whatever sequence of
/// operations is performed: balances are unsigned throughout, and a
/// debit is only applied after the balance was checked to cover it, so
/// no subtraction ever wraps below zero.  Well-formedness of the state
/// is preserved along the way.
pub proof fn lemma_run_preserves_wf(s: PlatformView, ops: Seq<Op>)
    requires
        s.wf(),
        ops_within_limits(s, ops),
    ensures
        run(s, ops).wf(),
        forall|artist: u64| 0 <= #[trigger] run(s, ops).balance_of(artist),
    decreases ops.len(),
{
    if ops.len() > 0 {
        lemma_run_preserves_wf(s, ops.drop_last());
        lemma_step_preserves_wf(run(s, ops.drop_last()), ops.last());
    }
}

/// One operation preserves well-formedness, within the machine limits
/// under which the executable operations run.
pub proof fn lemma_step_preserves_wf(s: PlatformView, op: Op)
    requires
        s.wf(),
        op_within_limits(s, op),
    ensures
        step(s, op).wf(),
{
    let post = step(s, op);
    match op {
        Op::UploadSong { caller, .. } => {
            if s.is_registered(caller) {
                assert(forall|i: int|
                    0 <= i < post.catalog.songs.len() ==> (#[trigger] post.catalog.songs[i]).id == i
                        + 1);
            }
        },
        Op::PlaySong { song_id, paid, .. } => {
            if s.song_exists(song_id) && s.song_at(song_id).active && paid == s.song_at(
                song_id,
            ).price_per_play {
                assert(forall|i: int|
                    0 <= i < post.catalog.songs.len() ==> (#[trigger] post.catalog.songs[i]).id == i
                        + 1);
                assert(forall|i: int|
                    0 <= i < post.catalog.songs.len() ==> post.catalog.artists.contains_key(
                        (#[trigger] post.catalog.songs[i]).artist,
                    ));
            }
        },
        Op::SetPricePerPlay { caller, .. } => {
            if s.is_owner(caller) {
                assert(forall|i: int|
                    0 <= i < post.catalog.songs.len() ==> (#[trigger] post.catalog.songs[i]).id == i
                        + 1);
                assert(forall|i: int|
                    0 <= i < post.catalog.songs.len() ==> post.catalog.artists.contains_key(
                        (#[trigger] post.catalog.songs[i]).artist,
                    ));
            }
        },
        _ => {},
    }
}

/// Records are never deleted and the lifetime counters never decrease:
/// one operation keeps every song under its id with its owner, keeps
/// every registered artist registered, and can only grow the play and
/// earnings counters and the number of songs.
pub proof fn lemma_step_monotonic(s: PlatformView, op: Op)
    requires
        s.wf(),
        op_within_limits(s, op),
    ensures
        s.catalog.songs.len() <= step(s, op).catalog.songs.len(),
        forall|song_id: u64| s.song_exists(song_id) ==> #[trigger] step(s, op).song_exists(song_id),
        forall|song_id: u64|
            s.song_exists(song_id) ==> {
                let before = s.song_at(song_id);
                let after = #[trigger] step(s, op).song_at(song_id);
                after.id == before.id && after.artist == before.artist && after.plays
                    >= before.plays
            },
        forall|artist: u64|
            s.is_registered(artist) ==> #[trigger] step(s, op).is_registered(artist),
        forall|artist: u64|
            s.is_registered(artist) ==> {
                let before = s.catalog.artists[artist];
                let after = #[trigger] step(s, op).catalog.artists[artist];
                after.total_plays >= before.total_plays && after.total_earnings
                    >= before.total_earnings
            },
{
}

/// No double spend: once a withdrawal succeeds and fully debits an
/// amount that the remaining balance no longer covers, an immediate
/// second withdrawal of the same amount, with no intervening credit,
/// fails with `InsufficientBalance` and changes nothing — whatever the
/// external transfer capability would have reported for it.
pub proof fn lemma_withdraw_no_double_spend(
    s: PlatformView,
    caller: u64,
    amount: u64,
    second_transfer_ok: bool,
)
    requires
        withdraw_tr(s, caller, amount, true).1 is Ok,
        s.balance_of(caller) < 2 * amount,
    ensures
        ({
            let s1 = withdraw_tr(s, caller, amount, true).0;
            withdraw_tr(s1, caller, amount, second_transfer_ok) == (
                s1,
                Err::<(), Error>(Error::InsufficientBalance),
            )
        }),
{
}

/// Exact payment only: a play request whose paid amount does not match
/// the song's price — or whose song does not exist at all — always
/// fails and leaves the whole state unchanged, in particular the play
/// counter, the pending balance and the lifetime earnings.
pub proof fn lemma_play_wrong_payment(s: PlatformView, caller: u64, song_id: u64, paid: u64)
    requires
        s.song_exists(song_id) ==> paid != s.song_at(song_id).price_per_play,
    ensures
        play_song_tr(s, caller, song_id, paid).0 == s,
        play_song_tr(s, caller, song_id, paid).1 is Err,
{
}

/// A play request against an id outside the allocated range — zero, or
/// greater than the number of uploaded songs — fails with
/// `SongNotFound` and mutates nothing.
pub proof fn lemma_play_missing_song(s: PlatformView, caller: u64, song_id: u64, paid: u64)
    requires
        song_id == 0 || song_id > s.catalog.songs.len(),
    ensures
        play_song_tr(s, caller, song_id, paid) == (s, Err::<(), Error>(Error::SongNotFound)),
{
}

/// Registering the same identity twice: once the first registration
/// succeeds, the second fails with `ArtistAlreadyRegistered` and the
/// state is identical to the state after the first.
pub proof fn lemma_register_artist_repeated(s: PlatformView, caller: u64)
    requires
        register_artist_tr(s, caller).1 is Ok,
    ensures
        ({
            let s1 = register_artist_tr(s, caller).0;
            register_artist_tr(s1, caller) == (
                s1,
                Err::<(), Error>(Error::ArtistAlreadyRegistered),
            )
        }),
{
}

/// Compensation on transfer failure: when the external capability
/// fails during a withdrawal that was otherwise valid, the balance is
/// restored to its pre-debit value — the state is exactly the one
/// before the call — and the call reports `TransferFailed`.
pub proof fn lemma_withdraw_transfer_failure(s: PlatformView, caller: u64, amount: u64)
    requires
        1 <= amount <= s.balance_of(caller),
    ensures
        withdraw_tr(s, caller, amount, false) == (s, Err::<(), Error>(Error::TransferFailed)),
{
}

} // verus!
