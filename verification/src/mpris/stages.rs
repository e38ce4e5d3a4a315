//! Stages of the MPRIS bridge pipeline, each taking in a record and passing
//! on what becomes of it.

use vstd::prelude::*;

use super::transformer::opt_filter_accepts;
use super::{Record, RecordView};
use crate::metadata::{opt_view, TrackStatus};
use crate::music::auto_stop::{TimerCommand, TimerCommands};
use crate::music::filter::Filter;
use crate::music::rewrite::{rewrite_opt, rewrite_text, Rule};
use crate::music::track_position::{track_after, track_view, TrackPosition};
use crate::text::{format_hex16, hex16};
use crate::time::MAX_DURATION_NANOS;

verus! {

// ---------------------------------------------------------------------------
// Filter

/// The filters of a filter stage, one per field; an unset one passes
/// everything.
pub struct StageFilters {
    pub player: Option<Filter>,
    pub track_id: Option<Filter>,
    pub title: Option<Filter>,
    pub album: Option<Filter>,
    pub artist: Option<Filter>,
    pub url: Option<Filter>,
    pub art_url: Option<Filter>,
}

/// Whether the record passes every filter of the stage.
pub open spec fn stage_filters_accept(fs: StageFilters, r: RecordView) -> bool {
    &&& opt_filter_accepts(fs.player, Some(r.player))
    &&& opt_filter_accepts(fs.track_id, Some(r.track_id))
    &&& opt_filter_accepts(fs.title, r.title)
    &&& opt_filter_accepts(fs.album, r.album)
    &&& opt_filter_accepts(fs.artist, r.artist)
    &&& opt_filter_accepts(fs.url, r.url)
    &&& opt_filter_accepts(fs.art_url, r.art_url)
}

fn opt_as_str(o: &Option<String>) -> (r: Option<&str>)
    ensures
        crate::music::filter::opt_str_view(r) == opt_view(*o),
{
    match o {
        Some(s) => Some(s.as_str()),
        None => None,
    }
}

fn check(f: &Option<Filter>, value: Option<&str>) -> (r: bool)
    ensures
        r == opt_filter_accepts(*f, crate::music::filter::opt_str_view(value)),
{
    match f {
        Some(f) => f.matches_opt(value),
        None => true,
    }
}

impl StageFilters {
    /// Whether the record passes every filter.
    pub fn matches(&self, r: &Record) -> (b: bool)
        ensures
            b == stage_filters_accept(*self, r@),
    {
        check(&self.player, Some(r.player.as_str())) && check(&self.track_id, Some(r.track_id.as_str()))
            && check(&self.title, opt_as_str(&r.title)) && check(&self.album, opt_as_str(&r.album))
            && check(&self.artist, opt_as_str(&r.artist)) && check(&self.url, opt_as_str(&r.url))
            && check(&self.art_url, opt_as_str(&r.art_url))
    }
}

// ---------------------------------------------------------------------------
// Rewrite

/// The rules of a rewrite stage, one per field.
pub struct StageRules {
    pub player: Option<Rule>,
    pub track_id: Option<Rule>,
    pub title: Option<Rule>,
    pub album: Option<Rule>,
    pub artist: Option<Rule>,
    pub url: Option<Rule>,
    pub art_url: Option<Rule>,
}

/// A text after an optional rule.
pub open spec fn opt_rule_text(rule: Option<Rule>, s: Seq<char>) -> Seq<char> {
    match rule {
        Some(r) => rewrite_text(r.pattern(), r.template(), s),
        None => s,
    }
}

/// An optional text after an optional rule.
pub open spec fn opt_rule_opt(rule: Option<Rule>, s: Option<Seq<char>>) -> Option<Seq<char>> {
    match rule {
        Some(r) => rewrite_opt(r.pattern(), r.template(), s),
        None => s,
    }
}

/// A record after the stage's rules; status and durations are kept.
pub open spec fn rewritten(rules: StageRules, r: RecordView) -> RecordView {
    RecordView {
        player: opt_rule_text(rules.player, r.player),
        status: r.status,
        track_id: opt_rule_text(rules.track_id, r.track_id),
        title: opt_rule_opt(rules.title, r.title),
        album: opt_rule_opt(rules.album, r.album),
        artist: opt_rule_opt(rules.artist, r.artist),
        url: opt_rule_opt(rules.url, r.url),
        art_url: opt_rule_opt(rules.art_url, r.art_url),
        position: r.position,
        length: r.length,
    }
}

fn rule_text(rule: &Option<Rule>, s: &str) -> (r: String)
    ensures
        r@ == opt_rule_text(*rule, s@),
{
    match rule {
        Some(rule) => rule.apply(s),
        None => s.to_owned(),
    }
}

fn rule_opt(rule: &Option<Rule>, s: Option<String>) -> (r: Option<String>)
    ensures
        opt_view(r) == opt_rule_opt(*rule, opt_view(s)),
{
    match s {
        Some(x) => Some(rule_text(rule, x.as_str())),
        None => None,
    }
}

impl StageRules {
    /// The record after the rules.
    pub fn rewrite_record(&self, record: Record) -> (r: Record)
        ensures
            r@ == rewritten(*self, record@),
    {
        Record {
            player: rule_text(&self.player, record.player.as_str()),
            status: record.status,
            track_id: rule_text(&self.track_id, record.track_id.as_str()),
            title: rule_opt(&self.title, record.title),
            album: rule_opt(&self.album, record.album),
            artist: rule_opt(&self.artist, record.artist),
            url: rule_opt(&self.url, record.url),
            art_url: rule_opt(&self.art_url, record.art_url),
            position: record.position,
            length: record.length,
        }
    }
}

// ---------------------------------------------------------------------------
// Track ids

/// The fields a fixup-track-id stage hashes.
#[derive(Debug, Clone, Copy, PartialEq, Eq, Structural)]
pub struct Sensitivity {
    pub track_id: bool,
    pub title: bool,
    pub album: bool,
    pub artist: bool,
}

impl Sensitivity {
    /// Sensitive to all four fields, as a stage is unless configured
    /// otherwise.
    pub fn all() -> (r: Sensitivity)
        ensures
            r.track_id && r.title && r.album && r.artist,
    {
        Sensitivity { track_id: true, title: true, album: true, artist: true }
    }
}

/// What a field contributes to the hash: its text when the stage is
/// sensitive to it and it is present, else the empty text.
pub open spec fn sensitive_text(on: bool, s: Option<Seq<char>>) -> Seq<char> {
    match s {
        Some(x) if on => x,
        _ => Seq::empty(),
    }
}

fn pick<'a>(on: bool, s: &'a Option<String>) -> (r: &'a str)
    ensures
        r@ == sensitive_text(on, opt_view(*s)),
{
    proof {
        reveal_strlit("");
    }
    match s {
        Some(x) if on => x.as_str(),
        _ => "",
    }
}

/// The texts a stage with sensitivity `s` hashes for a record, in order:
/// track id, title, album, artist, each empty when the stage is not
/// sensitive to it or it is absent.
pub open spec fn sensitive_texts(s: Sensitivity, r: RecordView) -> (Seq<char>, Seq<char>, Seq<char>, Seq<char>) {
    (
        if s.track_id {
            r.track_id
        } else {
            Seq::empty()
        },
        sensitive_text(s.title, r.title),
        sensitive_text(s.album, r.album),
        sensitive_text(s.artist, r.artist),
    )
}

/// The texts a fixup-track-id stage hashes, in order: track id, title,
/// album, artist.
pub fn hashed_texts<'a>(s: Sensitivity, r: &'a Record) -> (t: (&'a str, &'a str, &'a str, &'a str))
    ensures
        t.0@ == (if s.track_id {
            r.track_id@
        } else {
            Seq::empty()
        }),
        t.1@ == sensitive_text(s.title, opt_view(r.title)),
        t.2@ == sensitive_text(s.album, opt_view(r.album)),
        t.3@ == sensitive_text(s.artist, opt_view(r.artist)),
{
    proof {
        reveal_strlit("");
    }
    let id: &str = if s.track_id {
        r.track_id.as_str()
    } else {
        ""
    };
    (id, pick(s.title, &r.title), pick(s.album, &r.album), pick(s.artist, &r.artist))
}

/// Replaces the record's track id by the FxHash of the texts it is
/// sensitive to, in sixteen hex digits; every other field is kept.
pub fn fixup_track_id(s: Sensitivity, record: Record) -> (r: Record)
    ensures
        r@ == (RecordView { track_id: r@.track_id, ..record@ }),
        ({
            let t = sensitive_texts(s, record@);
            r@.track_id == hex16(super::fx_texts_hash(t.0, t.1, t.2, t.3))
        }),
{
    let texts = hashed_texts(s, &record);
    let h = super::fx_hash_texts(texts.0, texts.1, texts.2, texts.3);
    let mut out = record;
    out.track_id = format_hex16(h);
    out
}

/// Replaces the record's track id by its fingerprint (the FxHash of its
/// track id, title, album and artist) in sixteen hex digits.
pub fn fingerprint_track_id(record: Record) -> (r: Record)
    ensures
        r@ == (RecordView { track_id: r@.track_id, ..record@ }),
        r@.track_id == hex16(super::transformer::record_fingerprint(record@)),
{
    let h = super::transformer::take_fingerprint(&record);
    let mut out = record;
    out.track_id = format_hex16(h);
    out
}

// ---------------------------------------------------------------------------
// Positions

/// Keeps the position of the record's track (see the music bridge's
/// track-position module); it is reported only when the length is known.
pub fn keep_track_position(state: &mut TrackPosition, record: Record, now: u128) -> (r: Record)
    requires
        track_after(track_view(old(state).current_track), record@.track_id, record@.status, now).position
            <= MAX_DURATION_NANOS,
    ensures
        track_view(final(state).current_track) == Some(
            track_after(track_view(old(state).current_track), record@.track_id, record@.status, now),
        ),
        r@ == (RecordView {
            position: if record@.length is Some {
                Some(
                    track_after(track_view(old(state).current_track), record@.track_id, record@.status, now).position as u128,
                )
            } else {
                record@.position
            },
            ..record@
        }),
{
    let p = state.advance(&record.track_id, record.status, now);
    let mut out = record;
    if out.length.is_some() {
        out.position = Some(p);
    }
    out
}

/// Keeps the position of the record's track; when the length is known, the
/// position is reported, but never past the length.
pub fn track_position(state: &mut TrackPosition, record: Record, now: u128) -> (r: Record)
    requires
        track_after(track_view(old(state).current_track), record@.track_id, record@.status, now).position
            <= MAX_DURATION_NANOS,
    ensures
        track_view(final(state).current_track) == Some(
            track_after(track_view(old(state).current_track), record@.track_id, record@.status, now),
        ),
        r@ == (RecordView {
            position: match record@.length {
                Some(l) => Some(
                    crate::music::track_position::reported_position(
                        track_after(track_view(old(state).current_track), record@.track_id, record@.status, now).position,
                        Some(l),
                    ) as u128,
                ),
                None => record@.position,
            },
            ..record@
        }),
{
    let p = state.advance(&record.track_id, record.status, now);
    let mut out = record;
    if let Some(l) = out.length {
        out.position = Some(if p <= l {
            p
        } else {
            l
        });
    }
    out
}

// ---------------------------------------------------------------------------
// Auto-stop

/// The track an auto-stop stage would stop.
pub struct StageTrack {
    pub player: String,
    pub id: String,
}

/// The state of an auto-stop stage. Both timers always exist; one that is
/// not configured has a zero delay.
pub struct AutoStopStage {
    pub playing_track: Option<StageTrack>,
}

/// The player and track id of the track a stop would be sent for.
pub open spec fn stage_track_view(t: Option<StageTrack>) -> Option<(Seq<char>, Seq<char>)> {
    match t {
        Some(t) => Some((t.player@, t.id@)),
        None => None,
    }
}

/// The track an auto-stop stage would stop after a record.
pub open spec fn stage_track_after(cur: Option<(Seq<char>, Seq<char>)>, r: RecordView) -> Option<(Seq<char>, Seq<char>)> {
    if r.status == TrackStatus::Stopped {
        None
    } else {
        match cur {
            Some(t) if t.1 == r.track_id => Some(t),
            _ => Some((r.player, r.track_id)),
        }
    }
}

impl AutoStopStage {
    /// A stage that follows no track yet.
    pub fn new() -> (r: AutoStopStage)
        ensures
            r.playing_track is None,
    {
        AutoStopStage { playing_track: None }
    }

    /// Takes in a record, which is passed on unchanged; the inactivity timer
    /// restarts on every record and the pause timer on every record that is
    /// not a stop.
    pub fn process_record(&mut self, r: &Record) -> (c: TimerCommands)
        ensures
            stage_track_view(final(self).playing_track) == stage_track_after(stage_track_view(old(self).playing_track), r@),
            c.inactivity == TimerCommand::Restart,
            c.pause == (if r.status == TrackStatus::Stopped {
                TimerCommand::Keep
            } else {
                TimerCommand::Restart
            }),
    {
        if r.status == TrackStatus::Stopped {
            self.playing_track = None;
            return TimerCommands { pause: TimerCommand::Keep, inactivity: TimerCommand::Restart };
        }
        let same = match &self.playing_track {
            Some(t) => t.id == r.track_id,
            None => false,
        };
        if !same {
            self.playing_track = Some(StageTrack { player: r.player.clone(), id: r.track_id.clone() });
        }
        TimerCommands { pause: TimerCommand::Restart, inactivity: TimerCommand::Restart }
    }

    /// A timer expired: the stopped record for the followed track, if any.
    pub fn process_timer_expiration(&mut self) -> (r: Option<Record>)
        ensures
            final(self).playing_track is None,
            match stage_track_view(old(self).playing_track) {
                Some(t) => r matches Some(x) && x@ == (RecordView {
                    player: t.0,
                    track_id: t.1,
                    status: TrackStatus::Stopped,
                    title: None,
                    album: None,
                    artist: None,
                    url: None,
                    art_url: None,
                    position: None,
                    length: None,
                }),
                None => r is None,
            },
    {
        match self.playing_track.take() {
            Some(t) => Some(
                Record {
                    player: t.player,
                    track_id: t.id,
                    status: TrackStatus::Stopped,
                    title: None,
                    album: None,
                    artist: None,
                    url: None,
                    art_url: None,
                    position: None,
                    length: None,
                },
            ),
            None => None,
        }
    }
}

/// Each rule of a rewrite stage rewrites its own field and nothing else:
/// a field with a rule becomes that rule's rewrite of it (an absent one
/// stays absent), a field without one is kept, and the status and
/// durations are always kept.
pub proof fn law_stage_rules_per_field(rules: StageRules, r: RecordView)
    ensures
        rewritten(rules, r).player == (match rules.player {
            Some(rule) => rewrite_text(rule.pattern(), rule.template(), r.player),
            None => r.player,
        }),
        rewritten(rules, r).track_id == (match rules.track_id {
            Some(rule) => rewrite_text(rule.pattern(), rule.template(), r.track_id),
            None => r.track_id,
        }),
        rewritten(rules, r).title == (match rules.title {
            Some(rule) => rewrite_opt(rule.pattern(), rule.template(), r.title),
            None => r.title,
        }),
        rewritten(rules, r).album == (match rules.album {
            Some(rule) => rewrite_opt(rule.pattern(), rule.template(), r.album),
            None => r.album,
        }),
        rewritten(rules, r).artist == (match rules.artist {
            Some(rule) => rewrite_opt(rule.pattern(), rule.template(), r.artist),
            None => r.artist,
        }),
        rewritten(rules, r).url == (match rules.url {
            Some(rule) => rewrite_opt(rule.pattern(), rule.template(), r.url),
            None => r.url,
        }),
        rewritten(rules, r).art_url == (match rules.art_url {
            Some(rule) => rewrite_opt(rule.pattern(), rule.template(), r.art_url),
            None => r.art_url,
        }),
        rewritten(rules, r).status == r.status,
        rewritten(rules, r).position == r.position,
        rewritten(rules, r).length == r.length,
{
}

/// The verdict of one optional filter on a value: an unset filter passes
/// everything, a set one passes a present value its pattern matches (or,
/// inverted, does not) and never an absent one.
pub open spec fn stage_verdict(f: Option<Filter>, v: Option<Seq<char>>) -> bool {
    match f {
        Some(f) => v matches Some(x) && crate::pattern::regex_matches(f.pattern(), x) != f.inverted(),
        None => true,
    }
}

/// A record passes a filter stage exactly when each filter passes its own
/// field: player, track id, title, album, artist, url and art url.
pub proof fn law_stage_filters_per_field(fs: StageFilters, r: RecordView)
    ensures
        stage_filters_accept(fs, r) == (stage_verdict(fs.player, Some(r.player)) && stage_verdict(
            fs.track_id,
            Some(r.track_id),
        ) && stage_verdict(fs.title, r.title) && stage_verdict(fs.album, r.album) && stage_verdict(fs.artist, r.artist)
            && stage_verdict(fs.url, r.url) && stage_verdict(fs.art_url, r.art_url)),
{
}

/// An auto-stop stage follows the track of the last record that is not a
/// stop: after such a record it follows a track with that record's id; the
/// track followed before stays (with its player) when the id is the same,
/// else the record's player and id are taken; after a stop it follows
/// nothing.
pub proof fn law_stage_follows_last_track(cur: Option<(Seq<char>, Seq<char>)>, r: RecordView)
    ensures
        r.status == TrackStatus::Stopped ==> stage_track_after(cur, r) is None,
        r.status != TrackStatus::Stopped ==> (stage_track_after(cur, r) matches Some(t) && t.1 == r.track_id),
        r.status != TrackStatus::Stopped && (cur matches Some(c) && c.1 == r.track_id) ==> stage_track_after(cur, r)
            == cur,
        r.status != TrackStatus::Stopped && !(cur matches Some(c) && c.1 == r.track_id) ==> stage_track_after(cur, r)
            == Some((r.player, r.track_id)),
{
}

/// What a fixup-track-id stage hashes of each field: the field's text when
/// the stage is sensitive to it and it is present, else the empty text.
pub proof fn law_sensitive_texts(s: Sensitivity, r: RecordView)
    ensures
        sensitive_texts(s, r).0 == (if s.track_id {
            r.track_id
        } else {
            Seq::<char>::empty()
        }),
        sensitive_texts(s, r).1 == (if s.title && r.title is Some {
            r.title->0
        } else {
            Seq::<char>::empty()
        }),
        sensitive_texts(s, r).2 == (if s.album && r.album is Some {
            r.album->0
        } else {
            Seq::<char>::empty()
        }),
        sensitive_texts(s, r).3 == (if s.artist && r.artist is Some {
            r.artist->0
        } else {
            Seq::<char>::empty()
        }),
{
}

} // verus!
