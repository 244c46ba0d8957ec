use vstd::prelude::*;
use crate::media::library::{after_save, ids_of};
use crate::media::navigation::{next_repeat, sources_of, RepeatState};
use crate::media::session::{CommandView, PlayState, SessionView};
use crate::media::source::PlaylistView;

verus! {

/// A stop leaves the session stopped with every timer at zero and no clock
/// anchor, and a second stop right after it changes nothing.
pub proof fn lemma_stop_is_idempotent(session: SessionView)
    ensures
        session.stopped().stopped() == session.stopped(),
        session.stopped().play_state == PlayState::Stopped,
        session.stopped().elapsed == 0,
        session.stopped().start_offset == 0,
        session.stopped().total_duration == 0,
        session.stopped().clock_anchor is None,
{
}

/// On any one session the effective elapsed time never runs backward as
/// the clock advances.
pub proof fn lemma_elapsed_never_decreases(session: SessionView, earlier: nat, later: nat)
    requires
        earlier <= later,
    ensures
        session.effective_elapsed(earlier) <= session.effective_elapsed(later),
{
}

/// A session that began to play during the tick reconciled at `tick` starts
/// its stretch at the elapsed time it had then, and from there on its
/// effective elapsed time is that offset plus the time since `tick`.
pub proof fn lemma_elapsed_follows_clock(session: SessionView, tick: nat, later: nat)
    requires
        session.starting,
        !session.stopping,
        tick <= later,
    ensures
        session.reconciled(tick).clock_anchor == Some(tick),
        session.reconciled(tick).start_offset == session.effective_elapsed(tick),
        session.reconciled(tick).effective_elapsed(later) == session.reconciled(tick).start_offset + (
        later - tick),
{
}

/// While a session plays, the reconciliation of a later tick does not
/// disturb its effective elapsed time: what it reads at any clock reading
/// from that tick on is what it would have read without the tick.
pub proof fn lemma_tick_keeps_elapsed(session: SessionView, tick: nat, later: nat)
    requires
        session.starting,
        !session.stopping,
        session.clock_anchor is Some,
        session.clock_anchor->0 <= tick,
        tick <= later,
    ensures
        session.reconciled(tick).effective_elapsed(later) == session.effective_elapsed(later),
{
}

/// Ticks in between change nothing of that: with a second reconciliation
/// at `next`, the effective elapsed time is still the offset of the first
/// stretch plus the time since `tick`.
pub proof fn lemma_elapsed_across_ticks(session: SessionView, tick: nat, next: nat, later: nat)
    requires
        session.starting,
        !session.stopping,
        tick <= next,
        next <= later,
    ensures
        session.reconciled(tick).reconciled(next).effective_elapsed(later) == session.reconciled(
            tick,
        ).start_offset + (later - tick),
        session.reconciled(tick).reconciled(next).effective_elapsed(later) >= session.reconciled(
            tick,
        ).effective_elapsed(next),
{
}

/// A pause or a stop freezes the time: once the tick is reconciled, the
/// effective elapsed time is the stored one at every clock reading.
pub proof fn lemma_rest_freezes_elapsed(session: SessionView, tick: nat, later: nat)
    requires
        session.stopping,
    ensures
        session.reconciled(tick).clock_anchor is None,
        session.reconciled(tick).effective_elapsed(later) == session.effective_elapsed(tick),
{
}

/// Applying the repeat toggle three times leads back to where it began.
pub proof fn lemma_repeat_cycle_closes(state: RepeatState)
    ensures
        next_repeat(next_repeat(next_repeat(state))) == state,
        next_repeat(state) != state,
        next_repeat(next_repeat(state)) != state,
        next_repeat(RepeatState::Off) == RepeatState::All,
        next_repeat(RepeatState::All) == RepeatState::One,
        next_repeat(RepeatState::One) == RepeatState::Off,
{
}

/// Turning shuffle on and then off again, on a session whose reference
/// list holds a source, leaves the reference list as the navigation list,
/// and so each of its sources as often as the reference list holds it.
pub proof fn lemma_shuffle_off_restores_reference(
    session: SessionView,
    shuffled: Option<PlaylistView>,
    restored: Option<PlaylistView>,
)
    requires
        sources_of(session.sorted_reference_list).len() > 0,
        (SessionView { is_shuffled: true, ..session }).refreshes_to(shuffled),
        (SessionView { is_shuffled: false, now_playing_list: shuffled, ..session }).refreshes_to(
            restored,
        ),
    ensures
        restored == session.sorted_reference_list,
        sources_of(restored).to_multiset() == sources_of(session.sorted_reference_list).to_multiset(),
{
}

/// Turning shuffle on and then off again never loses or adds a source:
/// without a reference list to return to, the navigation list holds each
/// source as often as it did before.
pub proof fn lemma_shuffle_keeps_sources(
    session: SessionView,
    shuffled: Option<PlaylistView>,
    restored: Option<PlaylistView>,
)
    requires
        sources_of(session.sorted_reference_list).len() == 0,
        (SessionView { is_shuffled: true, ..session }).refreshes_to(shuffled),
        (SessionView { is_shuffled: false, now_playing_list: shuffled, ..session }).refreshes_to(
            restored,
        ),
    ensures
        sources_of(restored).to_multiset() == sources_of(session.now_playing_list).to_multiset(),
{
}

/// The end of a track is never detected while the length of the track is
/// unknown or nothing is selected: such a tick issues no command and
/// touches nothing but the stored length.
pub proof fn lemma_unknown_length_never_ends(
    session: SessionView,
    now: nat,
    total: nat,
    after: SessionView,
    command: Option<CommandView>,
)
    requires
        total == 0 || session.now_playing.len() == 0,
        session.ticks_into(now, total, after, command),
    ensures
        command is None,
        after == (SessionView { total_duration: 0, ..session }),
{
}

/// Saving an edited playlist keeps every identifier of the collection in
/// its place, and gives the edited playlist's place to its new content.
pub proof fn lemma_save_keeps_identifiers(playlists: Seq<PlaylistView>, edited: PlaylistView)
    ensures
        ids_of(after_save(playlists, Some(edited))) == ids_of(playlists),
        forall|i: int| 0 <= i < playlists.len() && playlists[i].id == edited.id
            ==> #[trigger] after_save(playlists, Some(edited))[i] == edited,
        forall|i: int| 0 <= i < playlists.len() && playlists[i].id != edited.id
            ==> #[trigger] after_save(playlists, Some(edited))[i] == playlists[i],
{
    assert(ids_of(after_save(playlists, Some(edited))) =~= ids_of(playlists));
}

} // verus!
