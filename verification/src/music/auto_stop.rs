//! The auto-stop module: when a track stays paused, or the player goes
//! quiet, for long enough, a "stopped" record is sent for it so that the
//! presence is cleared. The timers themselves run outside; this state
//! machine says what to do with them and what to send.

use vstd::prelude::*;

use crate::metadata::{Metadata, MetadataView, TrackStatus};

verus! {

/// What to do with a timer.
#[derive(Debug, Clone, Copy, PartialEq, Eq, Structural)]
pub enum TimerCommand {
    /// Leave it as it is.
    Keep,
    /// Start it again from its full delay.
    Restart,
    /// Stop it until it is restarted.
    Stop,
}

/// The timer commands after a record.
#[derive(Debug, Clone, Copy, PartialEq, Eq, Structural)]
pub struct TimerCommands {
    pub pause: TimerCommand,
    pub inactivity: TimerCommand,
}

/// The track that a stop would be sent for.
pub struct PlayingTrack {
    pub player: String,
    pub id: String,
}

/// The state of an auto-stop module.
pub struct AutoStop {
    /// Whether a delay after pausing is configured.
    pub pause_enabled: bool,
    /// Whether a delay after inactivity is configured.
    pub inactivity_enabled: bool,
    pub playing_track: Option<PlayingTrack>,
}

/// The player and id of the track a stop would be sent for.
pub open spec fn playing_view(t: Option<PlayingTrack>) -> Option<(Seq<char>, Seq<char>)> {
    match t {
        Some(t) => Some((t.player@, t.id@)),
        None => None,
    }
}

/// The track a stop would be sent for after a record: none after a stopped
/// record; the record's track when it differs from the one followed (by
/// id); else the one followed.
pub open spec fn playing_after(
    cur: Option<(Seq<char>, Seq<char>)>,
    m: MetadataView,
) -> Option<(Seq<char>, Seq<char>)> {
    if m.status == TrackStatus::Stopped {
        None
    } else {
        match cur {
            Some(t) if t.1 == m.id => Some(t),
            _ => Some((m.player, m.id)),
        }
    }
}

/// The timer commands after a record: the inactivity timer restarts on any
/// record, the pause timer restarts on a paused record and stops on a
/// playing one; unconfigured timers are left alone.
pub open spec fn commands_after(
    pause_enabled: bool,
    inactivity_enabled: bool,
    status: TrackStatus,
) -> TimerCommands {
    TimerCommands {
        inactivity: if inactivity_enabled {
            TimerCommand::Restart
        } else {
            TimerCommand::Keep
        },
        pause: if !pause_enabled || status == TrackStatus::Stopped {
            TimerCommand::Keep
        } else if status == TrackStatus::Paused {
            TimerCommand::Restart
        } else {
            TimerCommand::Stop
        },
    }
}

/// Whether `m` is the stopped record sent for a track: the track's player
/// and id, the status "stopped", and nothing else.
pub open spec fn is_stop_record(m: MetadataView, player: Seq<char>, id: Seq<char>) -> bool {
    &&& m.player == player
    &&& m.id == id
    &&& m.status == TrackStatus::Stopped
    &&& m.title is None
    &&& m.album is None
    &&& m.artist is None
    &&& m.url is None
    &&& m.art_url is None
    &&& m.position is None
    &&& m.length is None
    &&& m.extra.len() == 0
}

impl AutoStop {
    /// A module with the given timers configured, following no track.
    pub fn new(pause_enabled: bool, inactivity_enabled: bool) -> (r: AutoStop)
        ensures
            r.pause_enabled == pause_enabled,
            r.inactivity_enabled == inactivity_enabled,
            r.playing_track is None,
    {
        AutoStop { pause_enabled, inactivity_enabled, playing_track: None }
    }

    /// What to do with the inactivity timer when the module starts: restart
    /// it when it is configured.
    pub fn start(&self) -> (r: TimerCommand)
        ensures
            r == (if self.inactivity_enabled {
                TimerCommand::Restart
            } else {
                TimerCommand::Keep
            }),
    {
        if self.inactivity_enabled {
            TimerCommand::Restart
        } else {
            TimerCommand::Keep
        }
    }

    /// Takes in a record, which is then passed on unchanged; returns what to
    /// do with the timers.
    pub fn process_metadata(&mut self, m: &Metadata) -> (r: TimerCommands)
        ensures
            final(self).pause_enabled == old(self).pause_enabled,
            final(self).inactivity_enabled == old(self).inactivity_enabled,
            playing_view(final(self).playing_track) == playing_after(
                playing_view(old(self).playing_track),
                m@,
            ),
            r == commands_after(old(self).pause_enabled, old(self).inactivity_enabled, m.status),
    {
        let inactivity = if self.inactivity_enabled {
            TimerCommand::Restart
        } else {
            TimerCommand::Keep
        };
        match m.status {
            TrackStatus::Stopped => {
                self.playing_track = None;
                TimerCommands { pause: TimerCommand::Keep, inactivity }
            },
            status => {
                let same = match &self.playing_track {
                    Some(t) => t.id == m.id,
                    None => false,
                };
                if !same {
                    self.playing_track = Some(
                        PlayingTrack { player: m.player.clone(), id: m.id.clone() },
                    );
                }
                let pause = if !self.pause_enabled {
                    TimerCommand::Keep
                } else if status == TrackStatus::Paused {
                    TimerCommand::Restart
                } else {
                    TimerCommand::Stop
                };
                TimerCommands { pause, inactivity }
            },
        }
    }

    /// A timer expired: the stopped record to send for the followed track,
    /// if any. The track is no longer followed afterwards.
    pub fn do_stop(&mut self) -> (r: Option<Metadata>)
        ensures
            final(self).pause_enabled == old(self).pause_enabled,
            final(self).inactivity_enabled == old(self).inactivity_enabled,
            final(self).playing_track is None,
            stop_step(playing_view(old(self).playing_track), r),
    {
        match self.playing_track.take() {
            Some(t) => Some(
                Metadata {
                    player: t.player,
                    id: t.id,
                    status: TrackStatus::Stopped,
                    title: None,
                    album: None,
                    artist: None,
                    url: None,
                    art_url: None,
                    position: None,
                    length: None,
                    extra: Vec::new(),
                },
            ),
            None => None,
        }
    }
}

/// What a timer's expiry sends for the followed track: a stopped record
/// for it, or nothing when no track is followed.
pub open spec fn stop_step(cur: Option<(Seq<char>, Seq<char>)>, r: Option<Metadata>) -> bool {
    match cur {
        Some(t) => r matches Some(m) && is_stop_record(m@, t.0, t.1),
        None => r is None,
    }
}

/// After a stopped record there is nothing left to stop.
pub proof fn law_nothing_to_stop_after_stop(cur: Option<(Seq<char>, Seq<char>)>, m: MetadataView, r: Option<Metadata>)
    requires
        m.status == TrackStatus::Stopped,
        stop_step(playing_after(cur, m), r),
    ensures
        r is None,
{
}

/// A timer stops the track of the last record that was not a stop.
pub proof fn law_stop_targets_last_track(cur: Option<(Seq<char>, Seq<char>)>, m: MetadataView, r: Option<Metadata>)
    requires
        m.status != TrackStatus::Stopped,
        stop_step(playing_after(cur, m), r),
    ensures
        r matches Some(x) && x@.id == m.id && x@.status == TrackStatus::Stopped,
{
}

/// A track is stopped at most once: after a stop, a second expiry sends
/// nothing.
pub proof fn law_one_stop_per_track(cur: Option<(Seq<char>, Seq<char>)>, r1: Option<Metadata>, r2: Option<Metadata>)
    requires
        stop_step(cur, r1),
        stop_step(None, r2),
    ensures
        r2 is None,
{
}

/// An auto-stop module follows the track of the last record that is not a
/// stop: after such a record it follows a track with that record's id; the
/// track followed before stays (with its player) when the id is the same,
/// else the record's player and id are taken; after a stop it follows
/// nothing.
pub proof fn law_follows_last_track(cur: Option<(Seq<char>, Seq<char>)>, m: MetadataView)
    ensures
        m.status == TrackStatus::Stopped ==> playing_after(cur, m) is None,
        m.status != TrackStatus::Stopped ==> (playing_after(cur, m) matches Some(t) && t.1 == m.id),
        m.status != TrackStatus::Stopped && (cur matches Some(c) && c.1 == m.id) ==> playing_after(cur, m) == cur,
        m.status != TrackStatus::Stopped && !(cur matches Some(c) && c.1 == m.id) ==> playing_after(cur, m) == Some(
            (m.player, m.id),
        ),
{
}

/// The timers after a record: a configured inactivity timer restarts on
/// every record; a configured pause timer restarts on a paused record,
/// stops on a playing one and is left alone on a stop; a timer that is not
/// configured is never touched.
pub proof fn law_timer_commands(pause_enabled: bool, inactivity_enabled: bool, status: TrackStatus)
    ensures
        commands_after(pause_enabled, inactivity_enabled, status).inactivity == (if inactivity_enabled {
            TimerCommand::Restart
        } else {
            TimerCommand::Keep
        }),
        pause_enabled && status == TrackStatus::Paused ==> commands_after(pause_enabled, inactivity_enabled, status).pause
            == TimerCommand::Restart,
        pause_enabled && status == TrackStatus::Playing ==> commands_after(pause_enabled, inactivity_enabled, status).pause
            == TimerCommand::Stop,
        (!pause_enabled || status == TrackStatus::Stopped) ==> commands_after(
            pause_enabled,
            inactivity_enabled,
            status,
        ).pause == TimerCommand::Keep,
{
}

} // verus!
