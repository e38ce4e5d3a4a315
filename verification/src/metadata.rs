//! Track metadata as it flows through the music bridge pipeline.

use vstd::prelude::*;

use crate::text::str_equal;

verus! {

/// Playback status of a track.
#[derive(Debug, Clone, Copy, PartialEq, Eq, Structural)]
pub enum TrackStatus {
    Playing,
    Paused,
    Stopped,
}

impl TrackStatus {
    /// The lower-case name of the status, as players report it.
    pub open spec fn name(self) -> Seq<char> {
        match self {
            TrackStatus::Playing => "playing"@,
            TrackStatus::Paused => "paused"@,
            TrackStatus::Stopped => "stopped"@,
        }
    }

    /// The lower-case name of the status.
    pub fn to_str(&self) -> (r: &'static str)
        ensures
            r@ == self.name(),
    {
        match self {
            TrackStatus::Playing => "playing",
            TrackStatus::Paused => "paused",
            TrackStatus::Stopped => "stopped",
        }
    }

    /// The status named by `s`, if `s` is one of the three names.
    pub fn from_name(s: &str) -> (r: Option<TrackStatus>)
        ensures
            r == status_from_name(s@),
    {
        if str_equal(s, "playing") {
            Some(TrackStatus::Playing)
        } else if str_equal(s, "paused") {
            Some(TrackStatus::Paused)
        } else if str_equal(s, "stopped") {
            Some(TrackStatus::Stopped)
        } else {
            None
        }
    }
}

/// The status whose name is `s`.
pub open spec fn status_from_name(s: Seq<char>) -> Option<TrackStatus> {
    if s == "playing"@ {
        Some(TrackStatus::Playing)
    } else if s == "paused"@ {
        Some(TrackStatus::Paused)
    } else if s == "stopped"@ {
        Some(TrackStatus::Stopped)
    } else {
        None
    }
}

/// Metadata of the track a player reports. Durations are in nanoseconds.
#[derive(Debug)]
pub struct Metadata {
    pub player: String,
    pub id: String,
    pub status: TrackStatus,
    pub title: Option<String>,
    pub album: Option<String>,
    pub artist: Option<String>,
    pub url: Option<String>,
    pub art_url: Option<String>,
    pub position: Option<u128>,
    pub length: Option<u128>,
    /// Further fields, by name (no name occurs twice).
    pub extra: Vec<(String, String)>,
}

/// The mathematical content of a [`Metadata`].
pub struct MetadataView {
    pub player: Seq<char>,
    pub id: Seq<char>,
    pub status: TrackStatus,
    pub title: Option<Seq<char>>,
    pub album: Option<Seq<char>>,
    pub artist: Option<Seq<char>>,
    pub url: Option<Seq<char>>,
    pub art_url: Option<Seq<char>>,
    pub position: Option<u128>,
    pub length: Option<u128>,
    pub extra: Seq<(Seq<char>, Seq<char>)>,
}

impl MetadataView {
    /// Whether no extra field name occurs twice (the extra fields are a map
    /// from name to text).
    pub open spec fn well_formed(self) -> bool {
        crate::keyed::unique_keys(self.extra)
    }
}

/// The view of an optional string.
pub open spec fn opt_view(o: Option<String>) -> Option<Seq<char>> {
    match o {
        Some(s) => Some(s@),
        None => None,
    }
}

/// The view of a list of named string fields.
pub open spec fn pairs_view(v: Seq<(String, String)>) -> Seq<(Seq<char>, Seq<char>)> {
    v.map_values(|p: (String, String)| (p.0@, p.1@))
}

impl View for Metadata {
    type V = MetadataView;

    open spec fn view(&self) -> MetadataView {
        MetadataView {
            player: self.player@,
            id: self.id@,
            status: self.status,
            title: opt_view(self.title),
            album: opt_view(self.album),
            artist: opt_view(self.artist),
            url: opt_view(self.url),
            art_url: opt_view(self.art_url),
            position: self.position,
            length: self.length,
            extra: pairs_view(self.extra@),
        }
    }
}

/// The value of the first extra field named `key`.
pub open spec fn extra_get(extra: Seq<(Seq<char>, Seq<char>)>, key: Seq<char>) -> Option<
    Seq<char>,
>
    decreases extra.len(),
{
    if extra.len() == 0 {
        None
    } else if extra[0].0 == key {
        Some(extra[0].1)
    } else {
        extra_get(extra.drop_first(), key)
    }
}

/// The index of the first extra field named `key`.
pub open spec fn extra_index(extra: Seq<(Seq<char>, Seq<char>)>, key: Seq<char>) -> Option<int>
    decreases extra.len(),
{
    if extra.len() == 0 {
        None
    } else if extra[0].0 == key {
        Some(0)
    } else {
        match extra_index(extra.drop_first(), key) {
            Some(i) => Some(i + 1),
            None => None,
        }
    }
}

/// Where the first extra field named `key` stands, if it does.
pub fn find_extra(extra: &Vec<(String, String)>, key: &str) -> (r: Option<usize>)
    ensures
        match r {
            Some(i) => extra_index(pairs_view(extra@), key@) == Some(i as int),
            None => extra_index(pairs_view(extra@), key@) is None,
        },
        match r {
            Some(i) => i < extra@.len() && extra_get(pairs_view(extra@), key@) == Some(
                extra@[i as int].1@,
            ),
            None => extra_get(pairs_view(extra@), key@) is None,
        },
{
    let ghost all = pairs_view(extra@);
    let mut i: usize = 0;
    while i < extra.len()
        invariant
            i <= extra@.len(),
            all == pairs_view(extra@),
            all.len() == extra@.len(),
            forall|j: int| 0 <= j < i ==> all[j].0 != key@,
        decreases extra@.len() - i,
    {
        assert(all[i as int] == (extra@[i as int].0@, extra@[i as int].1@));
        if str_equal(extra[i].0.as_str(), key) {
            proof {
                lemma_extra_first(all, key@, i as int);
            }
            return Some(i);
        }
        i = i + 1;
    }
    proof {
        lemma_extra_absent(all, key@);
    }
    None
}

proof fn lemma_extra_first(e: Seq<(Seq<char>, Seq<char>)>, key: Seq<char>, i: int)
    requires
        0 <= i < e.len(),
        e[i].0 == key,
        forall|j: int| 0 <= j < i ==> e[j].0 != key,
    ensures
        extra_index(e, key) == Some(i),
        extra_get(e, key) == Some(e[i].1),
    decreases i,
{
    if i > 0 {
        lemma_extra_first(e.drop_first(), key, i - 1);
    }
}

proof fn lemma_extra_absent(e: Seq<(Seq<char>, Seq<char>)>, key: Seq<char>)
    requires
        forall|j: int| 0 <= j < e.len() ==> e[j].0 != key,
    ensures
        extra_index(e, key) is None,
        extra_get(e, key) is None,
    decreases e.len(),
{
    if e.len() > 0 {
        lemma_extra_absent(e.drop_first(), key);
    }
}

/// The value of the first extra field named `key`, copied.
pub fn get_extra(extra: &Vec<(String, String)>, key: &str) -> (r: Option<String>)
    ensures
        opt_view(r) == extra_get(pairs_view(extra@), key@),
{
    match find_extra(extra, key) {
        Some(i) => Some(extra[i].1.clone()),
        None => None,
    }
}

/// Copies an optional string.
pub fn clone_opt(o: &Option<String>) -> (r: Option<String>)
    ensures
        opt_view(r) == opt_view(*o),
{
    match o {
        Some(s) => Some(s.clone()),
        None => None,
    }
}

/// The field names a record is addressed by are all different.
pub proof fn lemma_field_names_distinct()
    ensures
        "player"@ != "id"@,
        "player"@ != "status"@,
        "player"@ != "title"@,
        "player"@ != "album"@,
        "player"@ != "artist"@,
        "player"@ != "url"@,
        "player"@ != "art_url"@,
        "id"@ != "status"@,
        "id"@ != "title"@,
        "id"@ != "album"@,
        "id"@ != "artist"@,
        "id"@ != "url"@,
        "id"@ != "art_url"@,
        "status"@ != "title"@,
        "status"@ != "album"@,
        "status"@ != "artist"@,
        "status"@ != "url"@,
        "status"@ != "art_url"@,
        "title"@ != "album"@,
        "title"@ != "artist"@,
        "title"@ != "url"@,
        "title"@ != "art_url"@,
        "album"@ != "artist"@,
        "album"@ != "url"@,
        "album"@ != "art_url"@,
        "artist"@ != "url"@,
        "artist"@ != "art_url"@,
        "url"@ != "art_url"@,
{
    reveal_strlit("player");
    reveal_strlit("id");
    reveal_strlit("status");
    reveal_strlit("title");
    reveal_strlit("album");
    reveal_strlit("artist");
    reveal_strlit("url");
    reveal_strlit("art_url");
    assert("player"@[0] != "id"@[0]);
    assert("player"@[0] != "status"@[0]);
    assert("player"@[0] != "title"@[0]);
    assert("player"@[0] != "album"@[0]);
    assert("player"@[0] != "artist"@[0]);
    assert("player"@[0] != "url"@[0]);
    assert("player"@[0] != "art_url"@[0]);
    assert("id"@[0] != "status"@[0]);
    assert("id"@[0] != "title"@[0]);
    assert("id"@[0] != "album"@[0]);
    assert("id"@[0] != "artist"@[0]);
    assert("id"@[0] != "url"@[0]);
    assert("id"@[0] != "art_url"@[0]);
    assert("status"@[0] != "title"@[0]);
    assert("status"@[0] != "album"@[0]);
    assert("status"@[0] != "artist"@[0]);
    assert("status"@[0] != "url"@[0]);
    assert("status"@[0] != "art_url"@[0]);
    assert("title"@[0] != "album"@[0]);
    assert("title"@[0] != "artist"@[0]);
    assert("title"@[0] != "url"@[0]);
    assert("title"@[0] != "art_url"@[0]);
    assert("album"@[1] != "artist"@[1]);
    assert("album"@[0] != "url"@[0]);
    assert("album"@[1] != "art_url"@[1]);
    assert("artist"@[0] != "url"@[0]);
    assert("artist"@[3] != "art_url"@[3]);
    assert("url"@[0] != "art_url"@[0]);
}

} // verus!
