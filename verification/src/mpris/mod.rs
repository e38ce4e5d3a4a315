//! The MPRIS bridge: records that `playerctl` prints as JSON pass through
//! a transformer (or a chain of stages) before they become a presence.

pub mod stages;
pub mod transformer;

use vstd::prelude::*;

use crate::metadata::{opt_view, TrackStatus};
use crate::text::{parse_u64, parse_u64_spec, to_chars};

verus! {

/// The text that `html_escape::decode_html_entities` gives for `s`.
pub uninterp spec fn html_decoded(s: Seq<char>) -> Seq<char>;

/// `html_escape::decode_html_entities`, copied into a `String`.
#[verifier::external_body]
pub(crate) fn html_decode(s: &str) -> (r: String)
    ensures
        r@ == html_decoded(s@),
{
    html_escape::decode_html_entities(s).into_owned()
}

/// `fxhash::hash64` of a track's identifying fields, hashed as the tuple
/// `(&String, &Option<String>, &Option<String>, &Option<String>)`. FxHash is
/// not seeded; its byte order and word size are those of the target the
/// program is built for, so within one program the value depends on the
/// fields alone.
pub uninterp spec fn fx_fingerprint(
    track_id: Seq<char>,
    title: Option<Seq<char>>,
    album: Option<Seq<char>>,
    artist: Option<Seq<char>>,
) -> u64;

/// `fxhash::hash64` of four texts, hashed as the tuple
/// `(&str, &str, &str, &str)`; as for [`fx_fingerprint`], the value
/// depends on the texts alone within one program.
pub uninterp spec fn fx_texts_hash(a: Seq<char>, b: Seq<char>, c: Seq<char>, d: Seq<char>) -> u64;

/// `fxhash::hash64` at the type `(&String, &Option<String>, &Option<String>,
/// &Option<String>)`: the result is the named FxHash of the four fields.
#[verifier::external_body]
pub(crate) fn fx_hash_track(
    track_id: &String,
    title: &Option<String>,
    album: &Option<String>,
    artist: &Option<String>,
) -> (r: u64)
    ensures
        r == fx_fingerprint(track_id@, opt_view(*title), opt_view(*album), opt_view(*artist)),
{
    fxhash::hash64(&(track_id, title, album, artist))
}

/// `fxhash::hash64` at the type `(&str, &str, &str, &str)`: the result is
/// the named FxHash of the four texts.
#[verifier::external_body]
pub(crate) fn fx_hash_texts(a: &str, b: &str, c: &str, d: &str) -> (r: u64)
    ensures
        r == fx_texts_hash(a@, b@, c@, d@),
{
    fxhash::hash64(&(a, b, c, d))
}

/// The `--format` argument that makes `playerctl` print one JSON record per
/// line.
pub const PLAYERCTL_FORMAT: &'static str =
    "{\"player\":\"{{markup_escape(playerName)}}\",\"status\":\"{{lc(status)}}\",\"track_id\":\"{{markup_escape(mpris:trackid)}}\",\"title\":\"{{markup_escape(xesam:title)}}\",\"album\":\"{{markup_escape(xesam:album)}}\",\"artist\":\"{{markup_escape(xesam:artist)}}\",\"url\":\"{{markup_escape(xesam:url)}}\",\"art_url\":\"{{markup_escape(mpris:artUrl)}}\",\"position\":\"{{position}}\",\"length\":\"{{mpris:length}}\"}";

/// A record of what a player is playing. Durations are in nanoseconds.
#[derive(Debug)]
pub struct Record {
    pub player: String,
    pub status: TrackStatus,
    pub track_id: String,
    pub title: Option<String>,
    pub album: Option<String>,
    pub artist: Option<String>,
    pub url: Option<String>,
    pub art_url: Option<String>,
    pub position: Option<u128>,
    pub length: Option<u128>,
}

/// The mathematical content of a [`Record`].
pub struct RecordView {
    pub player: Seq<char>,
    pub status: TrackStatus,
    pub track_id: Seq<char>,
    pub title: Option<Seq<char>>,
    pub album: Option<Seq<char>>,
    pub artist: Option<Seq<char>>,
    pub url: Option<Seq<char>>,
    pub art_url: Option<Seq<char>>,
    pub position: Option<u128>,
    pub length: Option<u128>,
}

impl View for Record {
    type V = RecordView;

    open spec fn view(&self) -> RecordView {
        RecordView {
            player: self.player@,
            status: self.status,
            track_id: self.track_id@,
            title: opt_view(self.title),
            album: opt_view(self.album),
            artist: opt_view(self.artist),
            url: opt_view(self.url),
            art_url: opt_view(self.art_url),
            position: self.position,
            length: self.length,
        }
    }
}

/// A text field as `playerctl` prints it: entities decoded, and absent when
/// empty.
pub open spec fn text_field(raw: Seq<char>) -> Option<Seq<char>> {
    if html_decoded(raw).len() == 0 {
        None
    } else {
        Some(html_decoded(raw))
    }
}

/// Reads a text field: entities decoded, absent when empty.
pub fn none_if_empty(raw: &str) -> (r: Option<String>)
    ensures
        opt_view(r) == text_field(raw@),
{
    let s = html_decode(raw);
    let v = to_chars(s.as_str());
    if v.len() == 0 {
        None
    } else {
        Some(s)
    }
}

/// A duration field that is not a number of microseconds.
#[derive(Debug)]
pub struct InvalidMicros;

/// A duration field as `playerctl` prints it: absent when empty after
/// decoding, else a decimal number of microseconds, here in nanoseconds.
pub open spec fn micros_field(raw: Seq<char>) -> Result<Option<u128>, ()> {
    let s = html_decoded(raw);
    if s.len() == 0 {
        Ok(None)
    } else {
        match parse_u64_spec(s) {
            Some(us) => Ok(Some((us * 1000) as u128)),
            None => Err(()),
        }
    }
}

/// Reads a duration field of microseconds.
pub fn none_if_empty_us(raw: &str) -> (r: Result<Option<u128>, InvalidMicros>)
    ensures
        r is Ok <==> micros_field(raw@) is Ok,
        r matches Ok(v) ==> micros_field(raw@) == Ok::<Option<u128>, ()>(v),
{
    let s = html_decode(raw);
    let v = to_chars(s.as_str());
    if v.len() == 0 {
        return Ok(None);
    }
    match parse_u64(v.as_slice()) {
        Some(us) => Ok(Some((us as u128) * 1000)),
        None => Err(InvalidMicros),
    }
}

} // verus!

verus! {

/// A record as the music bridge's metadata (its track id as the id, with no
/// extra fields).
pub open spec fn as_metadata(r: RecordView) -> crate::metadata::MetadataView {
    crate::metadata::MetadataView {
        player: r.player,
        id: r.track_id,
        status: r.status,
        title: r.title,
        album: r.album,
        artist: r.artist,
        url: r.url,
        art_url: r.art_url,
        position: r.position,
        length: r.length,
        extra: Seq::empty(),
    }
}

/// The presence for a record seen at `now`: the same as the music bridge
/// shows (see [`crate::music::listening_activity`]).
pub fn record_activity(record: Record, now: u128) -> (r: Option<crate::activity::Activity>)
    requires
        record.status != TrackStatus::Stopped ==> crate::music::times_representable(now, record.position, record.length),
    ensures
        match r {
            Some(a) => crate::music::listening_activity(as_metadata(record@), now) == Some(a@),
            None => crate::music::listening_activity(as_metadata(record@), now) is None,
        },
{
    let m = crate::metadata::Metadata {
        player: record.player,
        id: record.track_id,
        status: record.status,
        title: record.title,
        album: record.album,
        artist: record.artist,
        url: record.url,
        art_url: record.art_url,
        position: record.position,
        length: record.length,
        extra: Vec::new(),
    };
    assert(crate::metadata::pairs_view(m.extra@) =~= Seq::<(Seq<char>, Seq<char>)>::empty());
    assert(m@ == as_metadata(record@));
    crate::music::build_activity(m, now)
}

} // verus!
