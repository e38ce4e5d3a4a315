//! Parsing the metadata lines that `playerctl metadata --follow` prints with
//! [`PLAYERCTL_METADATA_FORMAT`].

use std::hash::{DefaultHasher, Hasher};
use vstd::prelude::*;
use vstd::std_specs::hash::DefaultHasherAdditionalSpecFns;

use crate::hashing::{hash_opt_str, opt_str_hash_writes};
use crate::metadata::{status_from_name, Metadata, TrackStatus};
use crate::text::{
    format_hex16, hex16, lemma_split_nonempty, parse_u64, parse_u64_spec, split_ranges,
    split_spec, subvec, to_chars,
};

verus! {

/// The `--format` argument given to `playerctl`: the fields between STX and
/// ETX, separated by tabs.
pub const PLAYERCTL_METADATA_FORMAT: &'static str =
    "\x02{{playerName}}\t{{mpris:trackid}}\t{{lc(status)}}\t{{xesam:title}}\t{{xesam:album}}\t{{xesam:artist}}\t{{xesam:url}}\t{{mpris:artUrl}}\t{{position}}\t{{mpris:length}}\x03";

/// A field of a metadata line.
#[derive(Debug, Clone, Copy, PartialEq, Eq, Structural)]
pub enum LineField {
    Player,
    TrackId,
    Status,
    Title,
    Album,
    Artist,
    Url,
    ArtUrl,
    Position,
    Length,
}

/// Why a metadata line was refused.
#[derive(Debug)]
pub enum LineError {
    /// The line does not start with STX and end with ETX.
    InvalidFormat,
    /// The line has fewer fields than this one.
    MissingField(LineField),
    /// The status field is none of `playing`, `paused`, `stopped`.
    InvalidStatus(String),
    /// A duration field is not a decimal number of microseconds.
    InvalidNumber(LineField),
}

/// The mathematical content of a [`LineError`].
pub enum LineErrorView {
    InvalidFormat,
    MissingField(LineField),
    InvalidStatus(Seq<char>),
    InvalidNumber(LineField),
}

impl View for LineError {
    type V = LineErrorView;

    open spec fn view(&self) -> LineErrorView {
        match self {
            LineError::InvalidFormat => LineErrorView::InvalidFormat,
            LineError::MissingField(f) => LineErrorView::MissingField(*f),
            LineError::InvalidStatus(s) => LineErrorView::InvalidStatus(s@),
            LineError::InvalidNumber(f) => LineErrorView::InvalidNumber(*f),
        }
    }
}

/// The fields of a well-formed metadata line. Durations are in nanoseconds.
pub struct LineFields {
    pub player: Seq<char>,
    pub track_id: Option<Seq<char>>,
    pub status: TrackStatus,
    pub title: Option<Seq<char>>,
    pub album: Option<Seq<char>>,
    pub artist: Option<Seq<char>>,
    pub url: Option<Seq<char>>,
    pub art_url: Option<Seq<char>>,
    pub position: Option<u128>,
    pub length: Option<u128>,
}

/// Whether a line is framed by STX and ETX.
pub open spec fn framed(line: Seq<char>) -> bool {
    line.len() >= 2 && line[0] == '\x02' && line.last() == '\x03'
}

/// An empty field stands for an absent value.
pub open spec fn nonempty(s: Seq<char>) -> Option<Seq<char>> {
    if s.len() == 0 {
        None
    } else {
        Some(s)
    }
}

/// A duration field: absent when empty, else microseconds in nanoseconds.
pub open spec fn micros_field(s: Seq<char>) -> Option<u128> {
    match parse_u64_spec(s) {
        Some(us) => Some((us * 1000) as u128),
        None => None,
    }
}

/// Whether a duration field is acceptable: empty, or a decimal number.
pub open spec fn micros_field_ok(s: Seq<char>) -> bool {
    s.len() == 0 || parse_u64_spec(s) is Some
}

/// The result of parsing a metadata line: the first failing step decides
/// the error, in the order player, track id, status, title, album, artist,
/// url, art url, position, length.
pub open spec fn parse_line_spec(line: Seq<char>) -> Result<LineFields, LineErrorView> {
    if !framed(line) {
        Err(LineErrorView::InvalidFormat)
    } else {
        let f = split_spec(line.subrange(1, line.len() - 1), '\t');
        if f.len() < 2 {
            Err(LineErrorView::MissingField(LineField::TrackId))
        } else if f.len() < 3 {
            Err(LineErrorView::MissingField(LineField::Status))
        } else if status_from_name(f[2]) is None {
            Err(LineErrorView::InvalidStatus(f[2]))
        } else if f.len() < 4 {
            Err(LineErrorView::MissingField(LineField::Title))
        } else if f.len() < 5 {
            Err(LineErrorView::MissingField(LineField::Album))
        } else if f.len() < 6 {
            Err(LineErrorView::MissingField(LineField::Artist))
        } else if f.len() < 7 {
            Err(LineErrorView::MissingField(LineField::Url))
        } else if f.len() < 8 {
            Err(LineErrorView::MissingField(LineField::ArtUrl))
        } else if f.len() < 9 {
            Err(LineErrorView::MissingField(LineField::Position))
        } else if !micros_field_ok(f[8]) {
            Err(LineErrorView::InvalidNumber(LineField::Position))
        } else if f.len() < 10 {
            Err(LineErrorView::MissingField(LineField::Length))
        } else if !micros_field_ok(f[9]) {
            Err(LineErrorView::InvalidNumber(LineField::Length))
        } else {
            Ok(
                LineFields {
                    player: f[0],
                    track_id: nonempty(f[1]),
                    status: status_from_name(f[2])->0,
                    title: nonempty(f[3]),
                    album: nonempty(f[4]),
                    artist: nonempty(f[5]),
                    url: nonempty(f[6]),
                    art_url: nonempty(f[7]),
                    position: if f[8].len() == 0 {
                        None
                    } else {
                        micros_field(f[8])
                    },
                    length: if f[9].len() == 0 {
                        None
                    } else {
                        micros_field(f[9])
                    },
                },
            )
        }
    }
}

/// The hash that identifies the track of a line: `DefaultHasher`'s hash of
/// its track id, title, album and artist, in that order, each as an
/// optional text.
pub open spec fn track_hash(
    track_id: Option<Seq<char>>,
    title: Option<Seq<char>>,
    album: Option<Seq<char>>,
    artist: Option<Seq<char>>,
) -> u64 {
    DefaultHasher::spec_finish(
        opt_str_hash_writes(track_id) + opt_str_hash_writes(title) + opt_str_hash_writes(album)
            + opt_str_hash_writes(artist),
    )
}

/// Whether a parsed record holds exactly the given fields, with the track
/// hash in sixteen hex digits as its identifier and no extra fields.
pub open spec fn record_of_fields(m: crate::metadata::MetadataView, f: LineFields) -> bool {
    &&& m.player == f.player
    &&& m.status == f.status
    &&& m.title == f.title
    &&& m.album == f.album
    &&& m.artist == f.artist
    &&& m.url == f.url
    &&& m.art_url == f.art_url
    &&& m.position == f.position
    &&& m.length == f.length
    &&& m.extra.len() == 0
    &&& m.id == hex16(track_hash(f.track_id, f.title, f.album, f.artist))
}

/// Parsed fields of a line, still as text where the spec keeps them.
struct RawFields {
    player: String,
    track_id: Option<String>,
    status: TrackStatus,
    title: Option<String>,
    album: Option<String>,
    artist: Option<String>,
    url: Option<String>,
    art_url: Option<String>,
    position: Option<u128>,
    length: Option<u128>,
}

fn opt_field(s: &[char], a: usize, b: usize) -> (r: Option<String>)
    requires
        a <= b <= s@.len(),
    ensures
        crate::metadata::opt_view(r) == nonempty(s@.subrange(a as int, b as int)),
{
    if a == b {
        None
    } else {
        Some(crate::text::substring(s, a, b))
    }
}

fn micros(s: &[char], a: usize, b: usize) -> (r: Result<Option<u128>, ()>)
    requires
        a <= b <= s@.len(),
    ensures
        r is Ok <==> micros_field_ok(s@.subrange(a as int, b as int)),
        r matches Ok(v) ==> v == (if a == b {
            None
        } else {
            micros_field(s@.subrange(a as int, b as int))
        }),
{
    if a == b {
        return Ok(None);
    }
    let piece = subvec(s, a, b);
    match parse_u64(piece.as_slice()) {
        Some(us) => Ok(Some((us as u128) * 1000)),
        None => Err(()),
    }
}

fn parse_fields(line: &str) -> (r: Result<RawFields, LineError>)
    ensures
        match (r, parse_line_spec(line@)) {
            (Ok(raw), Ok(f)) => {
                &&& raw.player@ == f.player
                &&& crate::metadata::opt_view(raw.track_id) == f.track_id
                &&& raw.status == f.status
                &&& crate::metadata::opt_view(raw.title) == f.title
                &&& crate::metadata::opt_view(raw.album) == f.album
                &&& crate::metadata::opt_view(raw.artist) == f.artist
                &&& crate::metadata::opt_view(raw.url) == f.url
                &&& crate::metadata::opt_view(raw.art_url) == f.art_url
                &&& raw.position == f.position
                &&& raw.length == f.length
            },
            (Err(e), Err(ev)) => e@ == ev,
            _ => false,
        },
{
    let s = to_chars(line);
    let n = s.len();
    if !(n >= 2 && s[0] == '\x02' && s[n - 1] == '\x03') {
        return Err(LineError::InvalidFormat);
    }
    let ghost inner = s@.subrange(1, n - 1);
    let ghost f = split_spec(inner, '\t');
    proof {
        lemma_split_nonempty(inner, '\t');
    }
    let p = split_ranges(s.as_slice(), 1, n - 1, '\t');
    let k = p.len();
    let player = crate::text::substring(s.as_slice(), p[0].0, p[0].1);
    if k < 2 {
        return Err(LineError::MissingField(LineField::TrackId));
    }
    let track_id = opt_field(s.as_slice(), p[1].0, p[1].1);
    if k < 3 {
        return Err(LineError::MissingField(LineField::Status));
    }
    let status_text = crate::text::substring(s.as_slice(), p[2].0, p[2].1);
    let status = match TrackStatus::from_name(status_text.as_str()) {
        Some(st) => st,
        None => {
            return Err(LineError::InvalidStatus(status_text));
        },
    };
    if k < 4 {
        return Err(LineError::MissingField(LineField::Title));
    }
    let title = opt_field(s.as_slice(), p[3].0, p[3].1);
    if k < 5 {
        return Err(LineError::MissingField(LineField::Album));
    }
    let album = opt_field(s.as_slice(), p[4].0, p[4].1);
    if k < 6 {
        return Err(LineError::MissingField(LineField::Artist));
    }
    let artist = opt_field(s.as_slice(), p[5].0, p[5].1);
    if k < 7 {
        return Err(LineError::MissingField(LineField::Url));
    }
    let url = opt_field(s.as_slice(), p[6].0, p[6].1);
    if k < 8 {
        return Err(LineError::MissingField(LineField::ArtUrl));
    }
    let art_url = opt_field(s.as_slice(), p[7].0, p[7].1);
    if k < 9 {
        return Err(LineError::MissingField(LineField::Position));
    }
    let position = match micros(s.as_slice(), p[8].0, p[8].1) {
        Ok(v) => v,
        Err(()) => {
            return Err(LineError::InvalidNumber(LineField::Position));
        },
    };
    if k < 10 {
        return Err(LineError::MissingField(LineField::Length));
    }
    let length = match micros(s.as_slice(), p[9].0, p[9].1) {
        Ok(v) => v,
        Err(()) => {
            return Err(LineError::InvalidNumber(LineField::Length));
        },
    };
    Ok(
        RawFields {
            player,
            track_id,
            status,
            title,
            album,
            artist,
            url,
            art_url,
            position,
            length,
        },
    )
}

fn opt_as_str(o: &Option<String>) -> (r: Option<&str>)
    ensures
        match (r, *o) {
            (Some(a), Some(b)) => a@ == b@,
            (None, None) => true,
            _ => false,
        },
        crate::music::filter::opt_str_view(r) == crate::metadata::opt_view(*o),
{
    match o {
        Some(s) => Some(s.as_str()),
        None => None,
    }
}

/// Parses one line of `playerctl` output into a record. The record's
/// identifier is the hash of the track id, title, album and artist, in
/// sixteen hex digits.
pub fn parse_metadata_line(line: &str) -> (r: Result<Metadata, LineError>)
    ensures
        match (r, parse_line_spec(line@)) {
            (Ok(m), Ok(f)) => record_of_fields(m@, f),
            (Err(e), Err(ev)) => e@ == ev,
            _ => false,
        },
{
    let raw = match parse_fields(line) {
        Ok(raw) => raw,
        Err(e) => {
            return Err(e);
        },
    };
    let mut hasher = DefaultHasher::new();
    hash_opt_str(&mut hasher, opt_as_str(&raw.track_id));
    hash_opt_str(&mut hasher, opt_as_str(&raw.title));
    hash_opt_str(&mut hasher, opt_as_str(&raw.album));
    hash_opt_str(&mut hasher, opt_as_str(&raw.artist));
    let h = hasher.finish();
    assert(h == track_hash(
        crate::metadata::opt_view(raw.track_id),
        crate::metadata::opt_view(raw.title),
        crate::metadata::opt_view(raw.album),
        crate::metadata::opt_view(raw.artist),
    ));
    let id = format_hex16(h);
    Ok(
        Metadata {
            player: raw.player,
            id,
            status: raw.status,
            title: raw.title,
            album: raw.album,
            artist: raw.artist,
            url: raw.url,
            art_url: raw.art_url,
            position: raw.position,
            length: raw.length,
            extra: Vec::new(),
        },
    )
}

} // verus!

verus! {

/// The text of an optional field: empty when absent.
pub open spec fn opt_text(s: Option<Seq<char>>) -> Seq<char> {
    match s {
        Some(x) => x,
        None => Seq::empty(),
    }
}

/// The text of a duration field: decimal microseconds, empty when absent.
pub open spec fn micros_text(us: Option<u64>) -> Seq<char> {
    match us {
        Some(n) => crate::text::dec_digits(n as nat),
        None => Seq::empty(),
    }
}

/// The line `playerctl` prints for these fields with
/// [`PLAYERCTL_METADATA_FORMAT`].
pub open spec fn format_line(
    player: Seq<char>,
    track_id: Option<Seq<char>>,
    status: TrackStatus,
    title: Option<Seq<char>>,
    album: Option<Seq<char>>,
    artist: Option<Seq<char>>,
    url: Option<Seq<char>>,
    art_url: Option<Seq<char>>,
    position: Option<u64>,
    length: Option<u64>,
) -> Seq<char> {
    seq!['\x02'] + crate::text::join_spec(
        seq![
            player,
            opt_text(track_id),
            status.name(),
            opt_text(title),
            opt_text(album),
            opt_text(artist),
            opt_text(url),
            opt_text(art_url),
            micros_text(position),
            micros_text(length),
        ],
        '\t',
    ) + seq!['\x03']
}

/// Whether a present field is a non-empty text without tabs.
pub open spec fn field_ok(s: Option<Seq<char>>) -> bool {
    match s {
        Some(x) => x.len() > 0 && crate::text::free_of(x, '\t'),
        None => true,
    }
}

/// Parsing gives back the fields of a line that `playerctl` printed: for
/// fields without tabs (present ones not empty), the parse succeeds with
/// exactly those fields, durations in nanoseconds.
pub proof fn law_parse_format_roundtrip(
    player: Seq<char>,
    track_id: Option<Seq<char>>,
    status: TrackStatus,
    title: Option<Seq<char>>,
    album: Option<Seq<char>>,
    artist: Option<Seq<char>>,
    url: Option<Seq<char>>,
    art_url: Option<Seq<char>>,
    position: Option<u64>,
    length: Option<u64>,
)
    requires
        crate::text::free_of(player, '\t'),
        field_ok(track_id),
        field_ok(title),
        field_ok(album),
        field_ok(artist),
        field_ok(url),
        field_ok(art_url),
    ensures
        parse_line_spec(format_line(player, track_id, status, title, album, artist, url, art_url, position, length))
            == Ok::<LineFields, LineErrorView>(
            LineFields {
                player,
                track_id,
                status,
                title,
                album,
                artist,
                url,
                art_url,
                position: match position {
                    Some(us) => Some((us * 1000) as u128),
                    None => None,
                },
                length: match length {
                    Some(us) => Some((us * 1000) as u128),
                    None => None,
                },
            },
        ),
{
    reveal_strlit("playing");
    reveal_strlit("paused");
    reveal_strlit("stopped");
    let fields = seq![
        player,
        opt_text(track_id),
        status.name(),
        opt_text(title),
        opt_text(album),
        opt_text(artist),
        opt_text(url),
        opt_text(art_url),
        micros_text(position),
        micros_text(length),
    ];
    let inner = crate::text::join_spec(fields, '\t');
    let line = format_line(player, track_id, status, title, album, artist, url, art_url, position, length);
    assert(line.subrange(1, line.len() - 1) == inner);
    assert forall|i: int| 0 <= i < fields.len() implies crate::text::free_of(#[trigger] fields[i], '\t') by {
        if i == 8 || i == 9 {
            let t = if i == 8 {
                position
            } else {
                length
            };
            if let Some(n) = t {
                lemma_decimal_free_of_tab(n as nat);
            }
        }
    }
    crate::text::lemma_split_join(fields, '\t');
    assert(split_spec(inner, '\t')[2] == status.name());
    assert(status_from_name(status.name()) == Some(status)) by {
        match status {
            TrackStatus::Playing => {},
            TrackStatus::Paused => {
                assert("paused"@[1] != "playing"@[1]);
            },
            TrackStatus::Stopped => {
                assert("stopped"@[1] != "playing"@[1]);
                assert("stopped"@[0] != "paused"@[0]);
            },
        }
    }
    if let Some(n) = position {
        crate::text::lemma_parse_decimal(n);
        lemma_decimal_nonempty(n as nat);
    }
    if let Some(n) = length {
        crate::text::lemma_parse_decimal(n);
        lemma_decimal_nonempty(n as nat);
    }
}

/// Two lines parse to the same identifier when their track id, title,
/// album and artist agree, whatever their player, status, urls and
/// durations.
pub proof fn law_id_depends_only_on_track_fields(a: Seq<char>, b: Seq<char>)
    requires
        parse_line_spec(a) is Ok,
        parse_line_spec(b) is Ok,
        parse_line_spec(a)->Ok_0.track_id == parse_line_spec(b)->Ok_0.track_id,
        parse_line_spec(a)->Ok_0.title == parse_line_spec(b)->Ok_0.title,
        parse_line_spec(a)->Ok_0.album == parse_line_spec(b)->Ok_0.album,
        parse_line_spec(a)->Ok_0.artist == parse_line_spec(b)->Ok_0.artist,
    ensures
        ({
            let fa = parse_line_spec(a)->Ok_0;
            let fb = parse_line_spec(b)->Ok_0;
            hex16(track_hash(fa.track_id, fa.title, fa.album, fa.artist)) == hex16(
                track_hash(fb.track_id, fb.title, fb.album, fb.artist),
            )
        }),
{
}

proof fn lemma_decimal_nonempty(n: nat)
    ensures
        crate::text::dec_digits(n).len() > 0,
    decreases n,
{
    if n >= 10 {
        lemma_decimal_nonempty(n / 10);
    }
}

proof fn lemma_decimal_free_of_tab(n: nat)
    ensures
        crate::text::free_of(crate::text::dec_digits(n), '\t'),
    decreases n,
{
    if n >= 10 {
        lemma_decimal_free_of_tab(n / 10);
        let s = crate::text::dec_digits(n);
        assert forall|i: int| 0 <= i < s.len() implies s[i] != '\t' by {
            if i < s.len() - 1 {
                assert(s[i] == crate::text::dec_digits(n / 10)[i]);
            }
        }
    }
}

} // verus!
