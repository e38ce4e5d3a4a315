use rich_presence_wrapper::metadata::TrackStatus;
use rich_presence_wrapper::mpris::stages::{
    fingerprint_track_id, fixup_track_id, hashed_texts, keep_track_position, track_position, AutoStopStage, Sensitivity,
};
use rich_presence_wrapper::mpris::transformer::{
    compile_filters, fingerprint_fields, take_fingerprint, FilterField, MetadataFilter, MetadataFilters, TrackState, Transformer,
};
use rich_presence_wrapper::mpris::{none_if_empty, none_if_empty_us, record_activity, Record, PLAYERCTL_FORMAT};
use rich_presence_wrapper::music::auto_stop::TimerCommand;
use rich_presence_wrapper::music::track_position::TrackPosition;

const SEC: u128 = 1_000_000_000;

fn record(status: TrackStatus) -> Record {
    Record {
        player: "spotify".to_string(),
        status,
        track_id: "spotify:track:1".to_string(),
        title: Some("Song".to_string()),
        album: Some("Album".to_string()),
        artist: Some("Band".to_string()),
        url: None,
        art_url: None,
        position: None,
        length: Some(200 * SEC),
    }
}

fn no_filters() -> MetadataFilters {
    MetadataFilters {
        player: None,
        status: None,
        track_id: None,
        title: None,
        album: None,
        artist: None,
        url: None,
        art_url: None,
    }
}

fn filter(pattern: &str, invert: bool) -> Option<MetadataFilter> {
    Some(MetadataFilter { pattern: pattern.to_string(), invert })
}

#[test]
fn text_fields_decode_entities_and_drop_empty_ones() {
    assert_eq!(none_if_empty(""), None);
    assert_eq!(none_if_empty("Rock &amp; Roll"), Some("Rock & Roll".to_string()));
    assert_eq!(none_if_empty("&lt;b&gt;"), Some("<b>".to_string()));
    assert_eq!(none_if_empty("plain"), Some("plain".to_string()));
}

#[test]
fn micro_second_fields() {
    assert_eq!(none_if_empty_us("").unwrap(), None);
    assert_eq!(none_if_empty_us("1500000").unwrap(), Some(1_500_000_000));
    assert_eq!(none_if_empty_us("0").unwrap(), Some(0));
    assert!(none_if_empty_us("12s").is_err());
    assert!(none_if_empty_us("-1").is_err());
}

#[test]
fn playerctl_format_lists_ten_fields() {
    assert_eq!(PLAYERCTL_FORMAT.matches("{{").count(), 10);
    assert!(PLAYERCTL_FORMAT.contains("mpris:length"));
}

#[test]
fn transformer_keeps_position_per_fingerprint() {
    let mut t = Transformer::new();
    let out = t.handle_record(record(TrackStatus::Playing), 7, 10 * SEC).unwrap();
    assert_eq!(out.track_id, "0000000000000007");
    assert_eq!(out.position, Some(0));
    assert_eq!(out.title.as_deref(), Some("Song"));

    let out = t.handle_record(record(TrackStatus::Playing), 7, 15 * SEC).unwrap();
    assert_eq!(out.position, Some(5 * SEC));

    let out = t.handle_record(record(TrackStatus::Paused), 7, 20 * SEC).unwrap();
    assert_eq!(out.position, Some(10 * SEC));
    assert_eq!(t.current_track.as_ref().unwrap().state, TrackState::Paused);

    // Paused time does not count.
    let out = t.handle_record(record(TrackStatus::Paused), 7, 60 * SEC).unwrap();
    assert_eq!(out.position, Some(10 * SEC));

    let out = t.handle_record(record(TrackStatus::Playing), 7, 70 * SEC).unwrap();
    assert_eq!(out.position, Some(10 * SEC));
    let out = t.handle_record(record(TrackStatus::Playing), 7, 71 * SEC).unwrap();
    assert_eq!(out.position, Some(11 * SEC));

    // Another fingerprint starts over.
    let out = t.handle_record(record(TrackStatus::Playing), 8, 80 * SEC).unwrap();
    assert_eq!(out.track_id, "0000000000000008");
    assert_eq!(out.position, Some(0));
}

#[test]
fn transformer_stopped_track_is_silent_until_it_plays() {
    let mut t = Transformer::new();
    assert!(t.handle_record(record(TrackStatus::Playing), 1, 0).is_some());
    let stopped = t.handle_record(record(TrackStatus::Stopped), 1, 3 * SEC).unwrap();
    assert_eq!(stopped.status, TrackStatus::Stopped);
    assert_eq!(stopped.position, Some(3 * SEC));
    assert!(t.handle_record(record(TrackStatus::Stopped), 1, 4 * SEC).is_none());
    assert!(t.handle_record(record(TrackStatus::Paused), 1, 5 * SEC).is_none());
    let again = t.handle_record(record(TrackStatus::Playing), 1, 6 * SEC).unwrap();
    assert_eq!(again.position, Some(3 * SEC));
}

#[test]
fn transformer_new_stopped_track_is_silent() {
    let mut t = Transformer::new();
    assert!(t.handle_record(record(TrackStatus::Stopped), 9, 0).is_none());
    assert_eq!(t.current_track.as_ref().unwrap().state, TrackState::Stopped);
}

#[test]
fn stop_timer_stops_the_followed_track() {
    let mut t = Transformer::new();
    assert!(t.handle_stop_timer(0).is_none());
    t.handle_record(record(TrackStatus::Playing), 5, 0).unwrap();
    let out = t.handle_stop_timer(12 * SEC).unwrap();
    assert_eq!(out.status, TrackStatus::Stopped);
    assert_eq!(out.player, "spotify");
    assert_eq!(out.track_id, "0000000000000005");
    assert_eq!(out.position, Some(12 * SEC));
    assert_eq!(out.length, None);
    assert!(t.handle_stop_timer(13 * SEC).is_none());
}

#[test]
fn transformer_process_filters_and_restarts_timer() {
    let filters = compile_filters(MetadataFilters { player: filter("^spotify$", false), ..no_filters() }).unwrap();
    let mut t = Transformer::new();
    let h = t.process(&filters, record(TrackStatus::Playing), 0);
    assert!(h.restart_stop_timer);
    let out = h.output.unwrap();
    assert_eq!(out.track_id.len(), 16);

    let mut other = record(TrackStatus::Playing);
    other.player = "vlc".to_string();
    let h = t.process(&filters, other, SEC);
    assert!(h.restart_stop_timer);
    assert!(h.output.is_none());

    let h = t.process(&filters, record(TrackStatus::Paused), 2 * SEC);
    assert!(!h.restart_stop_timer);
    assert_eq!(h.output.unwrap().position, Some(2 * SEC));
}

#[test]
fn artist_filter_looks_at_the_album() {
    let filters = compile_filters(MetadataFilters { artist: filter("^Album$", false), ..no_filters() }).unwrap();
    let mut t = Transformer::new();
    assert!(t.process(&filters, record(TrackStatus::Playing), 0).output.is_some());
    let filters = compile_filters(MetadataFilters { artist: filter("^Band$", false), ..no_filters() }).unwrap();
    let mut t = Transformer::new();
    assert!(t.process(&filters, record(TrackStatus::Playing), 0).output.is_none());
}

#[test]
fn inverted_status_filter() {
    let filters = compile_filters(MetadataFilters { status: filter("^paused$", true), ..no_filters() }).unwrap();
    let mut t = Transformer::new();
    assert!(t.process(&filters, record(TrackStatus::Playing), 0).output.is_some());
    assert!(t.process(&filters, record(TrackStatus::Paused), SEC).output.is_none());
}

#[test]
fn compile_filters_names_the_first_bad_field() {
    assert!(compile_filters(no_filters()).is_ok());
    let bad = MetadataFilters { title: filter("(", false), url: filter("[", false), ..no_filters() };
    assert_eq!(compile_filters(bad).err(), Some(FilterField::Title));
    let bad = MetadataFilters { art_url: filter("a{2,1}", false), ..no_filters() };
    assert_eq!(compile_filters(bad).err(), Some(FilterField::ArtUrl));
}

#[test]
fn fingerprints_follow_track_fields() {
    let a = record(TrackStatus::Playing);
    let mut b = record(TrackStatus::Paused);
    b.player = "other".to_string();
    b.position = Some(SEC);
    assert_eq!(take_fingerprint(&a), take_fingerprint(&b));
    b.title = Some("Another".to_string());
    assert_ne!(take_fingerprint(&a), take_fingerprint(&b));
}

#[test]
fn fingerprint_stage_replaces_only_the_id() {
    let r = fingerprint_track_id(record(TrackStatus::Playing));
    assert_eq!(r.track_id, format!("{:016x}", take_fingerprint(&record(TrackStatus::Playing))));
    assert_eq!(r.title.as_deref(), Some("Song"));
    assert_eq!(r.player, "spotify");
}

#[test]
fn hashed_texts_follow_sensitivity() {
    let r = record(TrackStatus::Playing);
    assert_eq!(hashed_texts(Sensitivity::all(), &r), ("spotify:track:1", "Song", "Album", "Band"));
    let s = Sensitivity { track_id: false, title: true, album: false, artist: true };
    assert_eq!(hashed_texts(s, &r), ("", "Song", "", "Band"));
    let mut untitled = record(TrackStatus::Playing);
    untitled.title = None;
    assert_eq!(hashed_texts(Sensitivity::all(), &untitled).1, "");
}

#[test]
fn fixup_stage_ignores_fields_it_is_not_sensitive_to() {
    let s = Sensitivity { track_id: false, title: true, album: true, artist: true };
    let a = fixup_track_id(s, record(TrackStatus::Playing));
    let mut other = record(TrackStatus::Playing);
    other.track_id = "spotify:track:2".to_string();
    let b = fixup_track_id(s, other);
    assert_eq!(a.track_id, b.track_id);
    assert_eq!(a.track_id.len(), 16);
    let c = fixup_track_id(Sensitivity::all(), record(TrackStatus::Playing));
    let mut other = record(TrackStatus::Playing);
    other.track_id = "spotify:track:2".to_string();
    let d = fixup_track_id(Sensitivity::all(), other);
    assert_ne!(c.track_id, d.track_id);
}

#[test]
fn position_stages() {
    let mut state = TrackPosition::new();
    let r = keep_track_position(&mut state, record(TrackStatus::Playing), 0);
    assert_eq!(r.position, Some(0));
    let r = keep_track_position(&mut state, record(TrackStatus::Playing), 300 * SEC);
    assert_eq!(r.position, Some(300 * SEC));

    let mut state = TrackPosition::new();
    let _ = track_position(&mut state, record(TrackStatus::Playing), 0);
    let r = track_position(&mut state, record(TrackStatus::Playing), 300 * SEC);
    // Never past the length.
    assert_eq!(r.position, Some(200 * SEC));

    let mut no_length = record(TrackStatus::Playing);
    no_length.length = None;
    no_length.position = Some(7);
    let r = track_position(&mut state, no_length, 301 * SEC);
    assert_eq!(r.position, Some(7));
}

#[test]
fn auto_stop_stage() {
    let mut s = AutoStopStage::new();
    assert!(s.process_timer_expiration().is_none());
    let c = s.process_record(&record(TrackStatus::Playing));
    assert_eq!(c.pause, TimerCommand::Restart);
    assert_eq!(c.inactivity, TimerCommand::Restart);
    let c = s.process_record(&record(TrackStatus::Paused));
    assert_eq!(c.pause, TimerCommand::Restart);
    let stopped = s.process_timer_expiration().unwrap();
    assert_eq!(stopped.status, TrackStatus::Stopped);
    assert_eq!(stopped.track_id, "spotify:track:1");
    assert_eq!(stopped.player, "spotify");
    assert!(stopped.title.is_none());
    assert!(s.process_timer_expiration().is_none());

    let c = s.process_record(&record(TrackStatus::Stopped));
    assert_eq!(c.pause, TimerCommand::Keep);
    assert_eq!(c.inactivity, TimerCommand::Restart);
    assert!(s.process_timer_expiration().is_none());
}

#[test]
fn record_presence() {
    let mut r = record(TrackStatus::Playing);
    r.position = Some(30 * SEC);
    let a = record_activity(r, 1_000 * SEC).unwrap();
    assert_eq!(a.details.as_deref(), Some("Song"));
    let ts = a.timestamps.unwrap();
    assert_eq!(ts.start, Some(970));
    assert_eq!(ts.end, Some(1_170));
    assert!(record_activity(record(TrackStatus::Stopped), 0).is_none());
}

#[test]
fn fingerprint_fields_are_the_track_fields() {
    let mut r = record(TrackStatus::Playing);
    r.url = Some("https://x".to_string());
    let (id, title, album, artist) = fingerprint_fields(&r);
    assert_eq!(id, "spotify:track:1");
    assert_eq!(title.as_deref(), Some("Song"));
    assert_eq!(album.as_deref(), Some("Album"));
    assert_eq!(artist.as_deref(), Some("Band"));
    assert_eq!(take_fingerprint(&r), fxhash::hash64(&(&r.track_id, &r.title, &r.album, &r.artist)));
    let mut other = record(TrackStatus::Playing);
    other.album = None;
    assert_ne!(take_fingerprint(&r), take_fingerprint(&other));
}

#[test]
fn stopped_track_stays_stopped_and_silent() {
    let mut t = Transformer::new();
    t.handle_record(record(TrackStatus::Playing), 4, 0).unwrap();
    t.handle_record(record(TrackStatus::Stopped), 4, 5 * SEC).unwrap();
    let mut paused = record(TrackStatus::Paused);
    paused.player = "vlc".to_string();
    assert!(t.handle_record(paused, 4, 9 * SEC).is_none());
    let track = t.current_track.as_ref().unwrap();
    assert_eq!(track.state, TrackState::Stopped);
    assert_eq!(track.position, 5 * SEC);
    assert_eq!(track.player, "vlc");
}

#[test]
fn fixup_stage_hashes_the_sensitive_texts() {
    let s = Sensitivity { track_id: false, title: true, album: false, artist: true };
    let r = fixup_track_id(s, record(TrackStatus::Playing));
    assert_eq!(r.track_id, format!("{:016x}", fxhash::hash64(&("", "Song", "", "Band"))));
    let all = fixup_track_id(Sensitivity::all(), record(TrackStatus::Playing));
    assert_eq!(all.track_id, format!("{:016x}", fxhash::hash64(&("spotify:track:1", "Song", "Album", "Band"))));
}

#[test]
fn stopped_record_has_no_presence_whatever_its_times() {
    let mut r = record(TrackStatus::Stopped);
    r.position = Some(u128::MAX);
    assert!(record_activity(r, 0).is_none());
}
