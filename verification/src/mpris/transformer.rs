//! The transformer between `playerctl` and Discord: it filters records,
//! follows the current track (by a fingerprint of its id, title, album and
//! artist), keeps its playback position, and stops it when nothing has been
//! playing for a while.

use vstd::prelude::*;

use super::{Record, RecordView};
use crate::metadata::{opt_view, TrackStatus};
use crate::music::filter::{filter_accepts, Filter};
use crate::text::{format_hex16, hex16};
use crate::time::{elapsed, elapsed_spec, MAX_DURATION_NANOS};

verus! {

/// The filters of the transformer, one per field; an unset one passes
/// everything.
pub struct FilterSet {
    pub player: Option<Filter>,
    pub status: Option<Filter>,
    pub track_id: Option<Filter>,
    pub title: Option<Filter>,
    pub album: Option<Filter>,
    pub artist: Option<Filter>,
    pub url: Option<Filter>,
    pub art_url: Option<Filter>,
}

/// Whether an optional filter passes a value: an unset one always does.
pub open spec fn opt_filter_accepts(f: Option<Filter>, value: Option<Seq<char>>) -> bool {
    match f {
        Some(f) => filter_accepts(f.pattern(), f.inverted(), value),
        None => true,
    }
}

/// Whether the record passes every filter. The artist filter is applied to
/// the album field.
pub open spec fn filters_accept(fs: FilterSet, r: RecordView) -> bool {
    &&& opt_filter_accepts(fs.player, Some(r.player))
    &&& opt_filter_accepts(fs.status, Some(r.status.name()))
    &&& opt_filter_accepts(fs.track_id, Some(r.track_id))
    &&& opt_filter_accepts(fs.title, r.title)
    &&& opt_filter_accepts(fs.album, r.album)
    &&& opt_filter_accepts(fs.artist, r.album)
    &&& opt_filter_accepts(fs.url, r.url)
    &&& opt_filter_accepts(fs.art_url, r.art_url)
}

fn opt_as_str(o: &Option<String>) -> (r: Option<&str>)
    ensures
        crate::music::filter::opt_str_view(r) == opt_view(*o),
{
    match o {
        Some(s) => Some(s.as_str()),
        None => None,
    }
}

fn check(f: &Option<Filter>, value: Option<&str>) -> (r: bool)
    ensures
        r == opt_filter_accepts(*f, crate::music::filter::opt_str_view(value)),
{
    match f {
        Some(f) => f.matches_opt(value),
        None => true,
    }
}

impl FilterSet {
    /// Whether the record passes every filter.
    pub fn matches(&self, r: &Record) -> (b: bool)
        ensures
            b == filters_accept(*self, r@),
    {
        check(&self.player, Some(r.player.as_str())) && check(&self.status, Some(r.status.to_str()))
            && check(&self.track_id, Some(r.track_id.as_str())) && check(&self.title, opt_as_str(&r.title))
            && check(&self.album, opt_as_str(&r.album)) && check(&self.artist, opt_as_str(&r.album))
            && check(&self.url, opt_as_str(&r.url)) && check(&self.art_url, opt_as_str(&r.art_url))
    }
}

/// Where the followed track stands.
#[derive(Debug, Clone, Copy, PartialEq, Eq, Structural)]
pub enum TrackState {
    /// Playing since this instant.
    Playing { since: u128 },
    Paused,
    Stopped,
}

/// The track the transformer follows.
pub struct TrackInfo {
    pub fingerprint: u64,
    pub state: TrackState,
    /// How long it has played before the current playing stretch.
    pub position: u128,
    pub id: String,
    pub player: String,
    pub title: Option<String>,
    pub album: Option<String>,
    pub artist: Option<String>,
}

/// The mathematical content of a [`TrackInfo`].
pub struct TrackInfoView {
    pub fingerprint: u64,
    pub state: TrackState,
    pub position: int,
    pub id: Seq<char>,
    pub player: Seq<char>,
    pub title: Option<Seq<char>>,
    pub album: Option<Seq<char>>,
    pub artist: Option<Seq<char>>,
}

impl View for TrackInfo {
    type V = TrackInfoView;

    open spec fn view(&self) -> TrackInfoView {
        TrackInfoView {
            fingerprint: self.fingerprint,
            state: self.state,
            position: self.position as int,
            id: self.id@,
            player: self.player@,
            title: opt_view(self.title),
            album: opt_view(self.album),
            artist: opt_view(self.artist),
        }
    }
}

/// The view of the followed track, if any.
pub open spec fn track_view(t: Option<TrackInfo>) -> Option<TrackInfoView> {
    match t {
        Some(t) => Some(t@),
        None => None,
    }
}

/// The state a new track starts in.
pub open spec fn initial_state(status: TrackStatus, now: u128) -> TrackState {
    match status {
        TrackStatus::Playing => TrackState::Playing { since: now },
        TrackStatus::Paused => TrackState::Paused,
        TrackStatus::Stopped => TrackState::Stopped,
    }
}

/// The followed track when a record with this fingerprint arrives: the
/// current one if the fingerprint is the same, else a new one from the
/// record; either way with the record's player.
pub open spec fn track_before(cur: Option<TrackInfoView>, r: RecordView, fp: u64, now: u128) -> TrackInfoView {
    let t = match cur {
        Some(t) if t.fingerprint == fp => t,
        _ => TrackInfoView {
            fingerprint: fp,
            state: initial_state(r.status, now),
            position: 0,
            id: r.track_id,
            player: r.player,
            title: r.title,
            album: r.album,
            artist: r.artist,
        },
    };
    TrackInfoView { player: r.player, ..t }
}

/// The followed track with the time played up to `now` added, when it was
/// playing.
pub open spec fn track_accounted(t: TrackInfoView, now: u128) -> TrackInfoView {
    match t.state {
        TrackState::Playing { since } => TrackInfoView {
            position: t.position + elapsed_spec(now, since),
            state: TrackState::Playing { since: now },
            ..t
        },
        _ => t,
    }
}

/// The state after a record's status, and whether the record is passed on:
/// a stopped track stays stopped and silent until it plays again.
pub open spec fn transition(state: TrackState, status: TrackStatus, now: u128) -> (TrackState, bool) {
    match (state, status) {
        (TrackState::Playing { .. }, TrackStatus::Playing) => (state, true),
        (TrackState::Playing { .. }, TrackStatus::Paused) => (TrackState::Paused, true),
        (TrackState::Playing { .. }, TrackStatus::Stopped) => (TrackState::Stopped, true),
        (_, TrackStatus::Playing) => (TrackState::Playing { since: now }, true),
        (TrackState::Paused, TrackStatus::Paused) => (state, true),
        (TrackState::Paused, TrackStatus::Stopped) => (TrackState::Stopped, true),
        (TrackState::Stopped, _) => (state, false),
    }
}

/// The followed track after a record.
pub open spec fn track_after(cur: Option<TrackInfoView>, r: RecordView, fp: u64, now: u128) -> TrackInfoView {
    let t = track_accounted(track_before(cur, r, fp, now), now);
    TrackInfoView { state: transition(t.state, r.status, now).0, ..t }
}

/// Whether a record is passed on.
pub open spec fn passes_on(cur: Option<TrackInfoView>, r: RecordView, fp: u64, now: u128) -> bool {
    transition(track_accounted(track_before(cur, r, fp, now), now).state, r.status, now).1
}

/// The record that is passed on: its track id replaced by the fingerprint
/// in hex, its position by the one kept for the track.
pub open spec fn record_out(r: RecordView, fp: u64, position: int) -> RecordView {
    RecordView { track_id: hex16(fp), position: Some(position as u128), ..r }
}

/// The fields that identify a record's track, in the order they are hashed
/// into its fingerprint: track id, title, album and artist. The player,
/// status, urls and durations are not among them.
pub fn fingerprint_fields(r: &Record) -> (t: (&String, &Option<String>, &Option<String>, &Option<String>))
    ensures
        *t.0 == r.track_id,
        *t.1 == r.title,
        *t.2 == r.album,
        *t.3 == r.artist,
        t.0@ == r@.track_id,
        opt_view(*t.1) == r@.title,
        opt_view(*t.2) == r@.album,
        opt_view(*t.3) == r@.artist,
{
    (&r.track_id, &r.title, &r.album, &r.artist)
}

/// The fingerprint of a record: the FxHash of its track id, title, album
/// and artist.
pub open spec fn record_fingerprint(r: RecordView) -> u64 {
    super::fx_fingerprint(r.track_id, r.title, r.album, r.artist)
}

/// The fingerprint of a record: the FxHash of its
/// [`fingerprint_fields`].
pub fn take_fingerprint(r: &Record) -> (h: u64)
    ensures
        h == record_fingerprint(r@),
{
    let (track_id, title, album, artist) = fingerprint_fields(r);
    super::fx_hash_track(track_id, title, album, artist)
}

/// The state of a transformer.
pub struct Transformer {
    pub current_track: Option<TrackInfo>,
}

fn clone_opt(o: &Option<String>) -> (r: Option<String>)
    ensures
        opt_view(r) == opt_view(*o),
{
    crate::metadata::clone_opt(o)
}

impl Transformer {
    /// Whether the followed track's position fits in a `Duration`, as every
    /// position the transformer keeps does.
    pub open spec fn well_formed(self) -> bool {
        match self.current_track {
            Some(t) => t.position <= MAX_DURATION_NANOS,
            None => true,
        }
    }

    /// A transformer that follows no track yet.
    pub fn new() -> (r: Transformer)
        ensures
            r.current_track is None,
            r.well_formed(),
    {
        Transformer { current_track: None }
    }

    /// Takes in a record with fingerprint `fp` at `now`; returns the record
    /// to pass on, if any.
    pub fn handle_record(&mut self, record: Record, fp: u64, now: u128) -> (r: Option<Record>)
        requires
            track_after(track_view(old(self).current_track), record@, fp, now).position <= MAX_DURATION_NANOS,
        ensures
            final(self).well_formed(),
            track_view(final(self).current_track) == Some(track_after(track_view(old(self).current_track), record@, fp, now)),
            passes_on(track_view(old(self).current_track), record@, fp, now) ==> (r matches Some(out) && out@ == record_out(
                record@,
                fp,
                track_after(track_view(old(self).current_track), record@, fp, now).position,
            )),
            !passes_on(track_view(old(self).current_track), record@, fp, now) ==> r is None,
    {
        let same = match &self.current_track {
            Some(t) => t.fingerprint == fp,
            None => false,
        };
        let mut t = if same {
            match self.current_track.take() {
                Some(t) => t,
                None => {
                    return None;
                },
            }
        } else {
            TrackInfo {
                fingerprint: fp,
                state: match record.status {
                    TrackStatus::Playing => TrackState::Playing { since: now },
                    TrackStatus::Paused => TrackState::Paused,
                    TrackStatus::Stopped => TrackState::Stopped,
                },
                position: 0,
                id: record.track_id.clone(),
                player: record.player.clone(),
                title: clone_opt(&record.title),
                album: clone_opt(&record.album),
                artist: clone_opt(&record.artist),
            }
        };
        t.player = record.player.clone();
        if let TrackState::Playing { since } = t.state {
            t.position = t.position + elapsed(now, since);
            t.state = TrackState::Playing { since: now };
        }
        let pass = match (t.state, record.status) {
            (TrackState::Playing { .. }, TrackStatus::Playing) => true,
            (TrackState::Playing { .. }, TrackStatus::Paused) => {
                t.state = TrackState::Paused;
                true
            },
            (TrackState::Playing { .. }, TrackStatus::Stopped) => {
                t.state = TrackState::Stopped;
                true
            },
            (_, TrackStatus::Playing) => {
                t.state = TrackState::Playing { since: now };
                true
            },
            (TrackState::Paused, TrackStatus::Paused) => true,
            (TrackState::Paused, TrackStatus::Stopped) => {
                t.state = TrackState::Stopped;
                true
            },
            (TrackState::Stopped, _) => false,
        };
        let position = t.position;
        self.current_track = Some(t);
        if !pass {
            return None;
        }
        let mut out = record;
        out.track_id = format_hex16(fp);
        out.position = Some(position);
        Some(out)
    }

    /// The stop timer expired: a stopped record for the followed track goes
    /// through the transformer as if the player had sent it.
    pub fn handle_stop_timer(&mut self, now: u128) -> (r: Option<Record>)
        requires
            old(self).current_track matches Some(t) ==> track_after(
                track_view(old(self).current_track),
                stop_record_view(t@),
                t.fingerprint,
                now,
            ).position <= MAX_DURATION_NANOS,
        ensures
            old(self).current_track is None ==> r is None && final(self).current_track is None,
            old(self).current_track is Some ==> final(self).well_formed(),
            old(self).current_track matches Some(t) ==> {
                &&& track_view(final(self).current_track) == Some(track_after(track_view(old(self).current_track), stop_record_view(t@), t.fingerprint, now))
                &&& passes_on(track_view(old(self).current_track), stop_record_view(t@), t.fingerprint, now) ==> (r matches Some(out) && out@ == record_out(
                    stop_record_view(t@),
                    t.fingerprint,
                    track_after(track_view(old(self).current_track), stop_record_view(t@), t.fingerprint, now).position,
                ))
                &&& !passes_on(track_view(old(self).current_track), stop_record_view(t@), t.fingerprint, now) ==> r is None
            },
    {
        let (record, fp) = match &self.current_track {
            None => {
                return None;
            },
            Some(t) => (
                Record {
                    player: t.player.clone(),
                    status: TrackStatus::Stopped,
                    track_id: t.id.clone(),
                    title: clone_opt(&t.title),
                    album: clone_opt(&t.album),
                    artist: clone_opt(&t.artist),
                    url: None,
                    art_url: None,
                    position: None,
                    length: None,
                },
                t.fingerprint,
            ),
        };
        self.handle_record(record, fp, now)
    }
}

/// The stopped record sent for a track when the stop timer expires.
pub open spec fn stop_record_view(t: TrackInfoView) -> RecordView {
    RecordView {
        player: t.player,
        status: TrackStatus::Stopped,
        track_id: t.id,
        title: t.title,
        album: t.album,
        artist: t.artist,
        url: None,
        art_url: None,
        position: None,
        length: None,
    }
}

} // verus!

verus! {

/// A configured filter: a pattern, and whether it is inverted.
pub struct MetadataFilter {
    pub pattern: String,
    pub invert: bool,
}

/// The configured filters of the transformer, one per field.
pub struct MetadataFilters {
    pub player: Option<MetadataFilter>,
    pub status: Option<MetadataFilter>,
    pub track_id: Option<MetadataFilter>,
    pub title: Option<MetadataFilter>,
    pub album: Option<MetadataFilter>,
    pub artist: Option<MetadataFilter>,
    pub url: Option<MetadataFilter>,
    pub art_url: Option<MetadataFilter>,
}

/// A field of the transformer's filters.
#[derive(Debug, Clone, Copy, PartialEq, Eq, Structural)]
pub enum FilterField {
    Player,
    Status,
    TrackId,
    Title,
    Album,
    Artist,
    Url,
    ArtUrl,
}

/// Whether a configured filter compiles (an unset one does).
pub open spec fn config_ok(c: Option<MetadataFilter>) -> bool {
    match c {
        Some(f) => crate::pattern::regex_valid(f.pattern@),
        None => true,
    }
}

/// Whether a compiled filter is the configured one.
pub open spec fn compiled_from(f: Option<Filter>, c: Option<MetadataFilter>) -> bool {
    match (f, c) {
        (Some(f), Some(c)) => f.pattern() == c.pattern@ && f.inverted() == c.invert,
        (None, None) => true,
        _ => false,
    }
}

/// The first field, in declaration order, whose pattern does not compile.
pub open spec fn first_invalid(c: MetadataFilters) -> Option<FilterField> {
    if !config_ok(c.player) {
        Some(FilterField::Player)
    } else if !config_ok(c.status) {
        Some(FilterField::Status)
    } else if !config_ok(c.track_id) {
        Some(FilterField::TrackId)
    } else if !config_ok(c.title) {
        Some(FilterField::Title)
    } else if !config_ok(c.album) {
        Some(FilterField::Album)
    } else if !config_ok(c.artist) {
        Some(FilterField::Artist)
    } else if !config_ok(c.url) {
        Some(FilterField::Url)
    } else if !config_ok(c.art_url) {
        Some(FilterField::ArtUrl)
    } else {
        None
    }
}

fn compile_one(c: Option<MetadataFilter>) -> (r: Result<Option<Filter>, ()>)
    ensures
        r is Ok <==> config_ok(c),
        r matches Ok(f) ==> compiled_from(f, c),
{
    match c {
        None => Ok(None),
        Some(m) => {
            let ghost mv = m;
            match Filter::new(m.pattern, m.invert) {
                Ok(f) => Ok(Some(f)),
                Err(_) => Err(()),
            }
        },
    }
}

/// Compiles the configured filters; refused, with the first field whose
/// pattern does not compile, when one does not.
pub fn compile_filters(c: MetadataFilters) -> (r: Result<FilterSet, FilterField>)
    ensures
        r is Err <==> first_invalid(c) is Some,
        r matches Err(field) ==> first_invalid(c) == Some(field),
        r matches Ok(fs) ==> {
            &&& compiled_from(fs.player, c.player)
            &&& compiled_from(fs.status, c.status)
            &&& compiled_from(fs.track_id, c.track_id)
            &&& compiled_from(fs.title, c.title)
            &&& compiled_from(fs.album, c.album)
            &&& compiled_from(fs.artist, c.artist)
            &&& compiled_from(fs.url, c.url)
            &&& compiled_from(fs.art_url, c.art_url)
        },
{
    let ghost cv = c;
    let MetadataFilters { player, status, track_id, title, album, artist, url, art_url } = c;
    let player = match compile_one(player) {
        Ok(f) => f,
        Err(()) => {
            return Err(FilterField::Player);
        },
    };
    let status = match compile_one(status) {
        Ok(f) => f,
        Err(()) => {
            return Err(FilterField::Status);
        },
    };
    let track_id = match compile_one(track_id) {
        Ok(f) => f,
        Err(()) => {
            return Err(FilterField::TrackId);
        },
    };
    let title = match compile_one(title) {
        Ok(f) => f,
        Err(()) => {
            return Err(FilterField::Title);
        },
    };
    let album = match compile_one(album) {
        Ok(f) => f,
        Err(()) => {
            return Err(FilterField::Album);
        },
    };
    let artist = match compile_one(artist) {
        Ok(f) => f,
        Err(()) => {
            return Err(FilterField::Artist);
        },
    };
    let url = match compile_one(url) {
        Ok(f) => f,
        Err(()) => {
            return Err(FilterField::Url);
        },
    };
    let art_url = match compile_one(art_url) {
        Ok(f) => f,
        Err(()) => {
            return Err(FilterField::ArtUrl);
        },
    };
    Ok(FilterSet { player, status, track_id, title, album, artist, url, art_url })
}

} // verus!

verus! {

/// Whether the followed track's position can take the time played up to
/// `now` without overflowing a `Duration`.
pub open spec fn position_fits(cur: Option<TrackInfoView>, now: u128) -> bool {
    match cur {
        Some(t) => track_accounted(t, now).position <= MAX_DURATION_NANOS,
        None => true,
    }
}

proof fn lemma_position_fits(cur: Option<TrackInfoView>, r: RecordView, fp: u64, now: u128)
    requires
        position_fits(cur, now),
    ensures
        track_after(cur, r, fp, now).position <= MAX_DURATION_NANOS,
{
}

/// What the transformer does with a record from the player.
pub struct Handled {
    /// Whether the stop timer restarts (it does on every playing record,
    /// filtered out or not).
    pub restart_stop_timer: bool,
    /// The record to pass on, if any.
    pub output: Option<Record>,
}

impl Transformer {
    /// Takes in a record from the player at `now`: filtered out records
    /// change nothing; the others go through [`Transformer::handle_record`]
    /// with their fingerprint.
    pub fn process(&mut self, filters: &FilterSet, record: Record, now: u128) -> (r: Handled)
        requires
            position_fits(track_view(old(self).current_track), now),
        ensures
            final(self).well_formed(),
            r.restart_stop_timer == (record.status == TrackStatus::Playing),
            !filters_accept(*filters, record@) ==> r.output is None && track_view(final(self).current_track) == track_view(old(self).current_track),
            filters_accept(*filters, record@) ==> {
                let fp = record_fingerprint(record@);
                &&& track_view(final(self).current_track) == Some(track_after(track_view(old(self).current_track), record@, fp, now))
                &&& passes_on(track_view(old(self).current_track), record@, fp, now) ==> (r.output matches Some(out) && out@ == record_out(
                    record@,
                    fp,
                    track_after(track_view(old(self).current_track), record@, fp, now).position,
                ))
                &&& !passes_on(track_view(old(self).current_track), record@, fp, now) ==> r.output is None
            },
    {
        let restart = record.status == TrackStatus::Playing;
        if !filters.matches(&record) {
            return Handled { restart_stop_timer: restart, output: None };
        }
        let fp = take_fingerprint(&record);
        proof {
            lemma_position_fits(track_view(self.current_track), record@, fp, now);
        }
        let ghost before = track_view(self.current_track);
        let ghost rv = record@;
        let output = self.handle_record(record, fp, now);
        assert(track_view(self.current_track) == Some(track_after(before, rv, fp, now)));
        Handled { restart_stop_timer: restart, output }
    }
}

/// A stopped track stays stopped and silent until it plays again: paused
/// or stopped records for it are not passed on.
pub proof fn law_stopped_track_is_silent(t: TrackInfoView, r: RecordView, now: u128)
    requires
        t.state == TrackState::Stopped,
        r.status != TrackStatus::Playing,
    ensures
        !passes_on(Some(t), r, t.fingerprint, now),
        track_after(Some(t), r, t.fingerprint, now).state == TrackState::Stopped,
{
}

/// When the stop timer expires on a track that is not stopped yet, a
/// stopped record for it is passed on and the track is stopped.
pub proof fn law_stop_timer_stops(t: TrackInfoView, now: u128)
    requires
        t.state != TrackState::Stopped,
    ensures
        passes_on(Some(t), stop_record_view(t), t.fingerprint, now),
        track_after(Some(t), stop_record_view(t), t.fingerprint, now).state == TrackState::Stopped,
{
}

/// A record passed on carries the track's fingerprint as its id, so that
/// players that report one id for every track still tell tracks apart.
pub proof fn law_id_is_fingerprint(r: RecordView, fp: u64, position: int)
    ensures
        record_out(r, fp, position).track_id == hex16(fp),
{
}

/// A stopped track that meets a record that does not play it stays as it
/// was: nothing is passed on, it stays stopped at the same position (only
/// the player is the record's), and, its position fitting in a `Duration`,
/// the transformer may always take that record.
pub proof fn law_stopped_track_stays(t: TrackInfoView, r: RecordView, now: u128)
    requires
        t.state == TrackState::Stopped,
        r.status != TrackStatus::Playing,
        t.position <= MAX_DURATION_NANOS,
    ensures
        track_after(Some(t), r, t.fingerprint, now) == (TrackInfoView { player: r.player, ..t }),
        track_after(Some(t), r, t.fingerprint, now).position <= MAX_DURATION_NANOS,
        !passes_on(Some(t), r, t.fingerprint, now),
{
}

/// A filter's verdict on a value: an unset filter passes everything; a set
/// one passes a present value that its pattern matches (or, inverted, does
/// not match) and never an absent one.
pub open spec fn verdict(f: Option<Filter>, v: Option<Seq<char>>) -> bool {
    match f {
        Some(f) => v matches Some(x) && crate::pattern::regex_matches(f.pattern(), x) != f.inverted(),
        None => true,
    }
}

/// Whether every filter of the set but the one of `field` is unset.
pub open spec fn only_filter(fs: FilterSet, field: FilterField) -> bool {
    &&& field != FilterField::Player ==> fs.player is None
    &&& field != FilterField::Status ==> fs.status is None
    &&& field != FilterField::TrackId ==> fs.track_id is None
    &&& field != FilterField::Title ==> fs.title is None
    &&& field != FilterField::Album ==> fs.album is None
    &&& field != FilterField::Artist ==> fs.artist is None
    &&& field != FilterField::Url ==> fs.url is None
    &&& field != FilterField::ArtUrl ==> fs.art_url is None
}

/// Which field of a record each filter of the transformer looks at: with
/// only one filter set, a record passes exactly when that filter passes the
/// player, the status by its name, the track id, the title, the album, the
/// url or the art url. The artist filter looks at the album, as the bridge
/// has it.
pub proof fn law_transformer_filter_fields(fs: FilterSet, r: RecordView)
    ensures
        only_filter(fs, FilterField::Player) ==> filters_accept(fs, r) == verdict(fs.player, Some(r.player)),
        only_filter(fs, FilterField::Status) ==> filters_accept(fs, r) == verdict(fs.status, Some(r.status.name())),
        only_filter(fs, FilterField::TrackId) ==> filters_accept(fs, r) == verdict(fs.track_id, Some(r.track_id)),
        only_filter(fs, FilterField::Title) ==> filters_accept(fs, r) == verdict(fs.title, r.title),
        only_filter(fs, FilterField::Album) ==> filters_accept(fs, r) == verdict(fs.album, r.album),
        only_filter(fs, FilterField::Artist) ==> filters_accept(fs, r) == verdict(fs.artist, r.album),
        only_filter(fs, FilterField::Url) ==> filters_accept(fs, r) == verdict(fs.url, r.url),
        only_filter(fs, FilterField::ArtUrl) ==> filters_accept(fs, r) == verdict(fs.art_url, r.art_url),
{
}

/// A record passes the transformer's filters exactly when it passes each of
/// them, each on its own field.
pub proof fn law_transformer_filters_conjoin(fs: FilterSet, r: RecordView)
    ensures
        filters_accept(fs, r) == (verdict(fs.player, Some(r.player)) && verdict(fs.status, Some(r.status.name()))
            && verdict(fs.track_id, Some(r.track_id)) && verdict(fs.title, r.title) && verdict(fs.album, r.album)
            && verdict(fs.artist, r.album) && verdict(fs.url, r.url) && verdict(fs.art_url, r.art_url)),
{
}

/// The stop timer sends a stopped record for the followed track itself:
/// its player, id, title, album and artist, and no urls or durations.
pub proof fn law_stop_record_is_the_track(t: TrackInfoView)
    ensures
        stop_record_view(t).player == t.player,
        stop_record_view(t).track_id == t.id,
        stop_record_view(t).title == t.title,
        stop_record_view(t).album == t.album,
        stop_record_view(t).artist == t.artist,
        stop_record_view(t).status == TrackStatus::Stopped,
        stop_record_view(t).url is None && stop_record_view(t).art_url is None,
        stop_record_view(t).position is None && stop_record_view(t).length is None,
{
}

/// The fingerprint is taken of the track id, title, album and artist only:
/// records that agree on them have one fingerprint, whatever their player,
/// status, urls and durations.
pub proof fn law_fingerprint_fields(a: RecordView, b: RecordView)
    requires
        a.track_id == b.track_id,
        a.title == b.title,
        a.album == b.album,
        a.artist == b.artist,
    ensures
        record_fingerprint(a) == record_fingerprint(b),
{
}

} // verus!
