//! The track-position module: keeps the playback position of the current
//! track from the times its status changes, for players that do not report
//! one.

use vstd::prelude::*;

use crate::metadata::{Metadata, MetadataView, TrackStatus};
use crate::time::{elapsed, elapsed_spec, MAX_DURATION_NANOS};

verus! {

/// What is known of the track being followed.
pub struct TrackInfo {
    pub id: String,
    /// Since when it has been playing, if it is playing.
    pub playing_since: Option<u128>,
    /// How long it has played before `playing_since`.
    pub position: u128,
}

/// The mathematical content of a [`TrackInfo`].
pub struct TrackInfoView {
    pub id: Seq<char>,
    pub playing_since: Option<u128>,
    pub position: int,
}

impl View for TrackInfo {
    type V = TrackInfoView;

    open spec fn view(&self) -> TrackInfoView {
        TrackInfoView { id: self.id@, playing_since: self.playing_since, position: self.position as int }
    }
}

/// The state of a track-position module.
pub struct TrackPosition {
    pub current_track: Option<TrackInfo>,
}

/// The view of the followed track, if any.
pub open spec fn track_view(t: Option<TrackInfo>) -> Option<TrackInfoView> {
    match t {
        Some(t) => Some(t@),
        None => None,
    }
}

/// The track followed before a record with this id arrives: the current one
/// when the id is the same, else a new track at position zero, not playing.
pub open spec fn track_for(cur: Option<TrackInfoView>, id: Seq<char>) -> TrackInfoView {
    match cur {
        Some(t) if t.id == id => t,
        _ => TrackInfoView { id, playing_since: None, position: 0 },
    }
}

/// The followed track after a record with this id and status at `now`:
/// time spent playing since the last record is added, and the track is
/// playing from `now` exactly when the record says it plays.
pub open spec fn track_after(
    cur: Option<TrackInfoView>,
    id: Seq<char>,
    status: TrackStatus,
    now: u128,
) -> TrackInfoView {
    let t = track_for(cur, id);
    match (status, t.playing_since) {
        (TrackStatus::Playing, Some(since)) => TrackInfoView {
            id,
            playing_since: Some(now),
            position: t.position + elapsed_spec(now, since),
        },
        (TrackStatus::Playing, None) => TrackInfoView { id, playing_since: Some(now), ..t },
        (_, Some(since)) => TrackInfoView {
            id,
            playing_since: None,
            position: t.position + elapsed_spec(now, since),
        },
        (_, None) => t,
    }
}

/// The position reported for a track: the kept position, but never past the
/// track's length when that is known.
pub open spec fn reported_position(position: int, length: Option<u128>) -> int {
    match length {
        Some(l) => if position <= l {
            position
        } else {
            l as int
        },
        None => position,
    }
}

impl TrackPosition {
    /// A module that follows no track yet.
    pub fn new() -> (r: TrackPosition)
        ensures
            r.current_track is None,
    {
        TrackPosition { current_track: None }
    }

    /// Whether following a record of track `id` with `status` at `now` keeps
    /// the position within the longest `Duration` (past it, the module
    /// would overflow).
    pub fn position_fits(&self, id: &String, status: TrackStatus, now: u128) -> (r: bool)
        ensures
            r == (track_after(track_view(self.current_track), id@, status, now).position <= MAX_DURATION_NANOS),
    {
        match &self.current_track {
            Some(t) => {
                if t.id != *id {
                    return true;
                }
                match t.playing_since {
                    Some(since) => {
                        let e = elapsed(now, since);
                        t.position <= MAX_DURATION_NANOS && e <= MAX_DURATION_NANOS - t.position
                    },
                    None => t.position <= MAX_DURATION_NANOS,
                }
            },
            None => true,
        }
    }

    /// Follows a record of track `id` with `status` at `now`; returns the
    /// position kept for the track.
    pub fn advance(&mut self, id: &String, status: TrackStatus, now: u128) -> (r: u128)
        requires
            track_after(track_view(old(self).current_track), id@, status, now).position
                <= MAX_DURATION_NANOS,
        ensures
            track_view(final(self).current_track) == Some(
                track_after(track_view(old(self).current_track), id@, status, now),
            ),
            r as int == track_after(track_view(old(self).current_track), id@, status, now).position,
    {
        let same = match &self.current_track {
            Some(t) => t.id == *id,
            None => false,
        };
        let mut t = if same {
            match self.current_track.take() {
                Some(t) => t,
                None => TrackInfo { id: id.clone(), playing_since: None, position: 0 },
            }
        } else {
            TrackInfo { id: id.clone(), playing_since: None, position: 0 }
        };
        match (status, t.playing_since) {
            (TrackStatus::Playing, Some(since)) => {
                t.position = t.position + elapsed(now, since);
                t.playing_since = Some(now);
            },
            (TrackStatus::Playing, None) => {
                t.playing_since = Some(now);
            },
            (_, Some(since)) => {
                t.position = t.position + elapsed(now, since);
                t.playing_since = None;
            },
            (_, None) => {},
        }
        let position = t.position;
        self.current_track = Some(t);
        position
    }

    /// Takes in a record at `now` and gives it back with the position kept
    /// for its track, never past the track's length.
    pub fn process(&mut self, metadata: Metadata, now: u128) -> (r: Metadata)
        requires
            track_after(track_view(old(self).current_track), metadata@.id, metadata@.status, now).position
                <= MAX_DURATION_NANOS,
        ensures
            track_view(final(self).current_track) == Some(
                track_after(track_view(old(self).current_track), metadata@.id, metadata@.status, now),
            ),
            r@ == (MetadataView {
                position: Some(
                    reported_position(
                        track_after(
                            track_view(old(self).current_track),
                            metadata@.id,
                            metadata@.status,
                            now,
                        ).position,
                        metadata@.length,
                    ) as u128,
                ),
                ..metadata@
            }),
    {
        let position = self.advance(&metadata.id, metadata.status, now);
        let reported = match metadata.length {
            Some(l) => if position <= l {
                position
            } else {
                l
            },
            None => position,
        };
        let mut out = metadata;
        out.position = Some(reported);
        out
    }
}

/// A reported position never exceeds the track's length.
pub proof fn law_position_within_length(position: int, length: u128)
    ensures
        reported_position(position, Some(length)) <= length,
{
}

/// Within one track, the kept position never goes back.
pub proof fn law_position_monotone(t: TrackInfoView, status: TrackStatus, now: u128)
    ensures
        track_after(Some(t), t.id, status, now).position >= t.position,
{
}

/// A new track starts from position zero.
pub proof fn law_new_track_starts_at_zero(cur: Option<TrackInfoView>, id: Seq<char>, status: TrackStatus, now: u128)
    requires
        cur matches Some(t) ==> t.id != id,
    ensures
        track_after(cur, id, status, now).position == 0,
{
}

/// A track that is not playing keeps its position while records say it
/// still is not playing.
pub proof fn law_paused_position_frozen(t: TrackInfoView, status: TrackStatus, now: u128)
    requires
        t.playing_since is None,
        status != TrackStatus::Playing,
    ensures
        track_after(Some(t), t.id, status, now) == t,
{
}

/// The time a run of records of one track says it played: for each record
/// after the first, the time since the one before when that one said
/// "playing".
pub open spec fn played(events: Seq<(TrackStatus, u128)>) -> int
    decreases events.len(),
{
    if events.len() <= 1 {
        0
    } else {
        let prev = events[events.len() - 2];
        let cur = events[events.len() - 1];
        played(events.drop_last()) + if prev.0 == TrackStatus::Playing {
            elapsed_spec(cur.1, prev.1) as int
        } else {
            0
        }
    }
}

/// The followed track after a run of records of track `id`, each a status
/// and the time it arrived.
pub open spec fn run_track(cur: Option<TrackInfoView>, id: Seq<char>, events: Seq<(TrackStatus, u128)>) -> Option<
    TrackInfoView,
>
    decreases events.len(),
{
    if events.len() == 0 {
        cur
    } else {
        let last = events[events.len() - 1];
        Some(track_after(run_track(cur, id, events.drop_last()), id, last.0, last.1))
    }
}

/// Over a run of records of one track that starts with the track (nothing
/// followed yet, or another track), the kept position is the time the
/// records say it played, and the track plays from the last record's time
/// exactly when that record says it plays.
pub proof fn law_position_is_time_played(cur: Option<TrackInfoView>, id: Seq<char>, events: Seq<(TrackStatus, u128)>)
    requires
        events.len() > 0,
        cur matches Some(t) ==> t.id != id,
    ensures
        run_track(cur, id, events) matches Some(t) && t.id == id && t.position == played(events)
            && t.playing_since == (if events.last().0 == TrackStatus::Playing {
            Some(events.last().1)
        } else {
            None::<u128>
        }),
    decreases events.len(),
{
    let rest = events.drop_last();
    if events.len() == 1 {
        assert(run_track(cur, id, rest) == cur);
        assert(played(events) == 0);
    } else {
        law_position_is_time_played(cur, id, rest);
        assert(rest.last() == events[events.len() - 2]);
        let prev = run_track(cur, id, rest)->0;
        assert(run_track(cur, id, events) == Some(track_after(Some(prev), id, events.last().0, events.last().1)));
        assert(track_for(Some(prev), id) == prev);
    }
}

} // verus!
