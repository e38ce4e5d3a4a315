use rich_presence_wrapper::activity::{ActivityType, StatusDisplayType};
use rich_presence_wrapper::metadata::{Metadata, TrackStatus};
use rich_presence_wrapper::music::auto_stop::{AutoStop, TimerCommand};
use rich_presence_wrapper::music::filter::{Filter, FilterSet};
use rich_presence_wrapper::music::fixup_id::{default_sensitivity_list, fixup_id, hash_inputs, hash_metadata, HashInput};
use rich_presence_wrapper::music::rewrite::{Rule, RuleSet};
use rich_presence_wrapper::music::track_position::{TrackInfo, TrackPosition};
use rich_presence_wrapper::time::MAX_DURATION_NANOS;
use rich_presence_wrapper::music::{build_activity, default_module_order, module_plan, times_fit, Module, ModuleConfig};

const SEC: u128 = 1_000_000_000;

fn record(id: &str, status: TrackStatus) -> Metadata {
    Metadata {
        player: "spotify".to_string(),
        id: id.to_string(),
        status,
        title: Some("Title".to_string()),
        album: Some("Album".to_string()),
        artist: Some("Artist".to_string()),
        url: None,
        art_url: None,
        position: None,
        length: None,
        extra: vec![("genre".to_string(), "jazz".to_string())],
    }
}

fn filters(entries: &[(&str, &str, bool)]) -> FilterSet {
    FilterSet {
        filters: entries
            .iter()
            .map(|(k, p, inv)| (k.to_string(), Filter::new(p.to_string(), *inv).unwrap()))
            .collect(),
    }
}

#[test]
fn filter_invalid_pattern_is_refused() {
    assert!(Filter::new("(".to_string(), false).is_err());
    assert!(Filter::new("a+".to_string(), false).is_ok());
}

#[test]
fn filter_matches_every_field_kind() {
    let m = record("1", TrackStatus::Playing);
    assert!(filters(&[]).matches(&m));
    assert!(filters(&[("player", "^spot", false)]).matches(&m));
    assert!(!filters(&[("player", "^spot", true)]).matches(&m));
    assert!(filters(&[("status", "^playing$", false)]).matches(&m));
    assert!(!filters(&[("status", "paused", false)]).matches(&m));
    assert!(filters(&[("genre", "jazz", false)]).matches(&m));
    // an absent field never passes, even an inverted filter
    assert!(!filters(&[("url", "x", false)]).matches(&m));
    assert!(!filters(&[("url", "x", true)]).matches(&m));
    assert!(!filters(&[("mood", "x", true)]).matches(&m));
    // all filters must pass
    assert!(!filters(&[("player", "spot", false), ("title", "^Nope", false)]).matches(&m));
}

#[test]
fn rewrite_with_captures() {
    let rules = RuleSet {
        rules: vec![
            ("title".to_string(), Rule::new("^(.*) - Remaster(ed)?$".to_string(), "$1".to_string()).unwrap()),
            ("player".to_string(), Rule::new("^spot(.*)$".to_string(), "Spot$1".to_string()).unwrap()),
            ("url".to_string(), Rule::new(".*".to_string(), "x".to_string()).unwrap()),
            ("genre".to_string(), Rule::new("jazz".to_string(), "Jazz".to_string()).unwrap()),
            ("mood".to_string(), Rule::new(".*".to_string(), "calm".to_string()).unwrap()),
        ],
    };
    let mut m = record("1", TrackStatus::Paused);
    m.title = Some("Song - Remastered".to_string());
    rules.rewrite(&mut m);
    assert_eq!(m.title.as_deref(), Some("Song"));
    assert_eq!(m.player, "Spotify");
    assert_eq!(m.url, None);
    assert_eq!(m.extra, vec![("genre".to_string(), "Jazz".to_string())]);
    assert_eq!(m.status, TrackStatus::Paused);
    // no match leaves the field as it was
    let rules = RuleSet { rules: vec![("artist".to_string(), Rule::new("^zzz".to_string(), "y".to_string()).unwrap())] };
    let mut m = record("1", TrackStatus::Paused);
    rules.rewrite(&mut m);
    assert_eq!(m.artist.as_deref(), Some("Artist"));
    assert!(Rule::new("[".to_string(), "x".to_string()).is_err());
}

#[test]
fn rewrite_order_of_distinct_fields_does_not_matter() {
    let r1 = || ("title".to_string(), Rule::new("T".to_string(), "t".to_string()).unwrap());
    let r2 = || ("album".to_string(), Rule::new("A".to_string(), "a".to_string()).unwrap());
    let mut a = record("1", TrackStatus::Playing);
    let mut b = record("1", TrackStatus::Playing);
    RuleSet { rules: vec![r1(), r2()] }.rewrite(&mut a);
    RuleSet { rules: vec![r2(), r1()] }.rewrite(&mut b);
    assert_eq!(a.title, b.title);
    assert_eq!(a.album, b.album);
}

#[test]
fn fixup_id_formats_hash_in_angle_brackets() {
    let sens = default_sensitivity_list();
    assert_eq!(sens, vec!["id", "title", "album", "artist"]);
    let mut a = record("static", TrackStatus::Playing);
    fixup_id(&mut a, &sens);
    assert_eq!(a.id.len(), 18);
    assert!(a.id.starts_with('<') && a.id.ends_with('>'));
    assert_eq!(a.title.as_deref(), Some("Title"));
    let mut b = record("static", TrackStatus::Paused);
    b.player = "other".to_string();
    fixup_id(&mut b, &sens);
    assert_eq!(a.id, b.id);
    let mut c = record("static", TrackStatus::Playing);
    c.title = Some("Other".to_string());
    fixup_id(&mut c, &sens);
    assert_ne!(a.id, c.id);
}

#[test]
fn hash_inputs_follow_sensitivity() {
    let m = record("7", TrackStatus::Playing);
    let sens: Vec<String> = ["player", "url", "genre", "mood"].iter().map(|s| s.to_string()).collect();
    let inputs = hash_inputs(&m, &sens);
    assert!(matches!(&inputs[0], HashInput::Text(s) if s == "spotify"));
    assert!(matches!(&inputs[1], HashInput::OptText(None)));
    assert!(matches!(&inputs[2], HashInput::OptText(Some(s)) if s == "jazz"));
    assert!(matches!(&inputs[3], HashInput::OptText(None)));
}

#[test]
fn track_position_accumulates_playing_time() {
    let mut tp = TrackPosition::new();
    let mut m = record("a", TrackStatus::Playing);
    m.length = Some(100 * SEC);
    let out = tp.process(m, 10 * SEC);
    assert_eq!(out.position, Some(0));
    let mut m = record("a", TrackStatus::Paused);
    m.length = Some(100 * SEC);
    let out = tp.process(m, 25 * SEC);
    assert_eq!(out.position, Some(15 * SEC));
    // paused: position frozen
    let mut m = record("a", TrackStatus::Paused);
    m.length = Some(100 * SEC);
    assert_eq!(tp.process(m, 60 * SEC).position, Some(15 * SEC));
    // playing again, then past the length: clamped
    let mut m = record("a", TrackStatus::Playing);
    m.length = Some(100 * SEC);
    tp.process(m, 60 * SEC);
    let mut m = record("a", TrackStatus::Playing);
    m.length = Some(100 * SEC);
    assert_eq!(tp.process(m, 500 * SEC).position, Some(100 * SEC));
    // without a length the position is reported as kept
    let m = record("a", TrackStatus::Playing);
    assert_eq!(tp.process(m, 510 * SEC).position, Some(465 * SEC));
    // a new track starts over
    let m = record("b", TrackStatus::Playing);
    assert_eq!(tp.process(m, 600 * SEC).position, Some(0));
    // a clock that goes back adds nothing
    let m = record("b", TrackStatus::Playing);
    assert_eq!(tp.process(m, 590 * SEC).position, Some(0));
}

#[test]
fn auto_stop_commands_and_stop_records() {
    let mut s = AutoStop::new(true, true);
    assert_eq!(s.start(), TimerCommand::Restart);
    let c = s.process_metadata(&record("a", TrackStatus::Paused));
    assert_eq!(c.pause, TimerCommand::Restart);
    assert_eq!(c.inactivity, TimerCommand::Restart);
    let c = s.process_metadata(&record("a", TrackStatus::Playing));
    assert_eq!(c.pause, TimerCommand::Stop);
    let stop = s.do_stop().unwrap();
    assert_eq!(stop.id, "a");
    assert_eq!(stop.player, "spotify");
    assert_eq!(stop.status, TrackStatus::Stopped);
    assert_eq!(stop.title, None);
    assert!(s.do_stop().is_none());
    // after a stopped record there is nothing to stop
    s.process_metadata(&record("b", TrackStatus::Playing));
    let c = s.process_metadata(&record("b", TrackStatus::Stopped));
    assert_eq!(c.pause, TimerCommand::Keep);
    assert!(s.do_stop().is_none());
    // unconfigured timers are left alone
    let mut s = AutoStop::new(false, false);
    assert_eq!(s.start(), TimerCommand::Keep);
    let c = s.process_metadata(&record("a", TrackStatus::Paused));
    assert_eq!(c.pause, TimerCommand::Keep);
    assert_eq!(c.inactivity, TimerCommand::Keep);
}

#[test]
fn auto_stop_keeps_first_player_of_a_track() {
    let mut s = AutoStop::new(true, false);
    s.process_metadata(&record("a", TrackStatus::Playing));
    let mut other = record("a", TrackStatus::Playing);
    other.player = "mpv".to_string();
    s.process_metadata(&other);
    assert_eq!(s.do_stop().unwrap().player, "spotify");
}

fn module(enable: bool, order: i64) -> Module {
    Module { enable, order, inner: ModuleConfig::TrackPosition }
}

#[test]
fn module_plan_is_stable_sort_of_enabled() {
    assert_eq!(default_module_order(), 0);
    let ms = vec![module(true, 5), module(true, 0), module(false, -3), module(true, 5), module(true, -1), module(true, 0)];
    assert_eq!(module_plan(&ms), vec![4, 1, 5, 0, 3]);
    assert_eq!(module_plan(&vec![]), Vec::<usize>::new());
}

#[test]
fn module_kinds() {
    assert_eq!(ModuleConfig::TrackPosition.kind(), "track-position");
    assert_eq!(ModuleConfig::AutoStop { after_pause: None, after_inactivity: None }.kind(), "auto-stop");
    assert_eq!(ModuleConfig::FixupId { sensitivity: vec![] }.kind(), "fixup-id");
    assert_eq!(ModuleConfig::External { command: None, args: vec![] }.kind(), "external");
    assert_eq!(ModuleConfig::Filter(FilterSet { filters: vec![] }).kind(), "filter");
    assert_eq!(ModuleConfig::Rewrite(RuleSet { rules: vec![] }).kind(), "rewrite");
}

#[test]
fn build_activity_for_listening() {
    let mut m = record("a", TrackStatus::Playing);
    m.url = Some("https://listen".to_string());
    m.art_url = Some("https://art".to_string());
    m.position = Some(30 * SEC);
    m.length = Some(200 * SEC);
    m.player = "firefox nightly".to_string();
    let a = build_activity(m, 1_000 * SEC + 500).unwrap();
    assert_eq!(a.name.as_deref(), Some("Firefox Nightly"));
    assert_eq!(a.details.as_deref(), Some("Title"));
    assert_eq!(a.state.as_deref(), Some("Artist • Album"));
    let t = a.timestamps.unwrap();
    assert_eq!(t.start, Some(970));
    assert_eq!(t.end, Some(1170));
    let b = a.buttons.unwrap();
    assert_eq!(b.len(), 1);
    assert_eq!(b[0].label, "Listen");
    assert_eq!(b[0].url, "https://listen");
    assert_eq!(a.assets.unwrap().large_image.as_deref(), Some("https://art"));
    assert_eq!(a.activity_type, Some(ActivityType::Listening));
    assert_eq!(a.status_display_type, Some(StatusDisplayType::Details));
}

#[test]
fn build_activity_state_and_stop() {
    let mut m = record("a", TrackStatus::Paused);
    m.album = None;
    let a = build_activity(m, 0).unwrap();
    assert_eq!(a.state.as_deref(), Some("Artist"));
    assert!(a.timestamps.is_none());
    assert!(a.buttons.is_none());
    let mut m = record("a", TrackStatus::Paused);
    m.artist = None;
    assert_eq!(build_activity(m, 0).unwrap().state.as_deref(), Some("Album"));
    let mut m = record("a", TrackStatus::Paused);
    m.artist = None;
    m.album = None;
    assert_eq!(build_activity(m, 0).unwrap().state, None);
    assert!(build_activity(record("a", TrackStatus::Stopped), 0).is_none());
}

#[test]
fn position_fits_guards_overflow() {
    let mut state = TrackPosition::new();
    assert!(state.position_fits(&"a".to_string(), TrackStatus::Playing, 0));
    state.current_track = Some(TrackInfo { id: "a".to_string(), playing_since: Some(0), position: MAX_DURATION_NANOS - 10 });
    assert!(state.position_fits(&"a".to_string(), TrackStatus::Paused, 10));
    assert!(!state.position_fits(&"a".to_string(), TrackStatus::Paused, 11));
    // Another track starts from zero.
    assert!(state.position_fits(&"b".to_string(), TrackStatus::Playing, u128::MAX));
    state.current_track = Some(TrackInfo { id: "a".to_string(), playing_since: None, position: MAX_DURATION_NANOS + 1 });
    assert!(!state.position_fits(&"a".to_string(), TrackStatus::Paused, 0));
}

#[test]
fn time_bar_fits() {
    assert!(times_fit(10 * SEC, Some(5 * SEC), Some(100 * SEC)));
    assert!(times_fit(0, None, Some(1)));
    assert!(!times_fit(SEC, Some(2 * SEC), Some(SEC)));
    assert!(!times_fit(u128::MAX, Some(0), Some(u128::MAX)));
    assert!(!times_fit(0, Some(0), Some(9_223_372_036_854_775_808 * SEC)));
    assert!(times_fit(0, Some(0), Some(9_223_372_036_854_775_807 * SEC)));
}

#[test]
fn inverted_filter_flips_present_values() {
    let plain = Filter::new("^Ti".to_string(), false).unwrap();
    let inverted = Filter::new("^Ti".to_string(), true).unwrap();
    for v in ["Title", "Other", ""] {
        assert_eq!(inverted.matches_str(v), !plain.matches_str(v));
        assert_eq!(inverted.matches_opt(Some(v)), !plain.matches_opt(Some(v)));
    }
    assert!(!plain.matches_opt(None));
    assert!(!inverted.matches_opt(None));
}

#[test]
fn fixup_id_hashes_the_sensitivity_list() {
    let sens: Vec<String> = vec!["title".to_string()];
    let mut a = record("x", TrackStatus::Playing);
    let mut b = record("y", TrackStatus::Paused);
    b.album = Some("Other album".to_string());
    b.extra.clear();
    // Agreeing on the one sensitive field gives one identifier.
    assert_eq!(hash_metadata(&a, &sens), hash_metadata(&b, &sens));
    fixup_id(&mut a, &sens);
    fixup_id(&mut b, &sens);
    assert_eq!(a.id, b.id);
    // The list decides what is hashed.
    let m = record("x", TrackStatus::Playing);
    assert_ne!(hash_metadata(&m, &sens), hash_metadata(&m, &Vec::new()));
    assert_ne!(hash_metadata(&m, &sens), hash_metadata(&m, &vec!["album".to_string()]));
}

#[test]
fn filter_and_rule_sets_keep_one_entry_per_field() {
    let mut f = FilterSet::new();
    f.insert("title".to_string(), Filter::new("^X".to_string(), false).unwrap());
    f.insert("album".to_string(), Filter::new("^A".to_string(), false).unwrap());
    f.insert("title".to_string(), Filter::new("^T".to_string(), false).unwrap());
    assert_eq!(f.filters.len(), 2);
    assert_eq!(f.filters[0].0, "title");
    assert!(f.matches(&record("1", TrackStatus::Playing)));

    let mut r = RuleSet::new();
    r.insert("title".to_string(), Rule::new("T".to_string(), "x".to_string()).unwrap());
    r.insert("title".to_string(), Rule::new("T".to_string(), "y".to_string()).unwrap());
    assert_eq!(r.rules.len(), 1);
    let mut m = record("1", TrackStatus::Playing);
    r.rewrite(&mut m);
    assert_eq!(m.title.as_deref(), Some("y"));
}

#[test]
fn rewrite_fields_one_by_one() {
    let mut r = RuleSet::new();
    r.insert("title".to_string(), Rule::new("^(T)itle$".to_string(), "$1".to_string()).unwrap());
    r.insert("album".to_string(), Rule::new("^nomatch$".to_string(), "z".to_string()).unwrap());
    r.insert("url".to_string(), Rule::new(".*".to_string(), "u".to_string()).unwrap());
    r.insert("genre".to_string(), Rule::new("jazz".to_string(), "blues".to_string()).unwrap());
    let mut m = record("1", TrackStatus::Paused);
    m.position = Some(5);
    r.rewrite(&mut m);
    assert_eq!(m.title.as_deref(), Some("T"));
    assert_eq!(m.album.as_deref(), Some("Album"));
    assert_eq!(m.url, None);
    assert_eq!(m.artist.as_deref(), Some("Artist"));
    assert_eq!(m.extra, vec![("genre".to_string(), "blues".to_string())]);
    assert_eq!(m.status, TrackStatus::Paused);
    assert_eq!(m.position, Some(5));
}

#[test]
fn position_over_a_run_is_the_time_played() {
    let mut state = TrackPosition::new();
    let run = [
        (TrackStatus::Paused, 0),
        (TrackStatus::Playing, 10 * SEC),
        (TrackStatus::Playing, 15 * SEC),
        (TrackStatus::Paused, 17 * SEC),
        (TrackStatus::Playing, 30 * SEC),
        (TrackStatus::Stopped, 31 * SEC),
    ];
    let mut last = 0;
    for (status, now) in run {
        last = state.advance(&"t".to_string(), status, now);
    }
    // 10..15, 15..17 and 30..31 were played.
    assert_eq!(last, 8 * SEC);
}

#[test]
fn stopped_metadata_has_no_presence_whatever_its_times() {
    let mut m = record("a", TrackStatus::Stopped);
    m.position = Some(u128::MAX);
    m.length = Some(u128::MAX);
    assert!(build_activity(m, 0).is_none());
}
