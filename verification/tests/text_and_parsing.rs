use rich_presence_wrapper::playerctl::{parse_metadata_line, LineError, LineField};
use rich_presence_wrapper::metadata::TrackStatus;
use rich_presence_wrapper::text::{
    capitalize_words, format_hex16, parse_u64, push_decimal, split_ranges, to_chars, trim,
};

fn chars(s: &str) -> Vec<char> {
    s.chars().collect()
}

#[test]
fn capitalize_words_uppercases_each_word() {
    assert_eq!(capitalize_words("spotify"), "Spotify");
    assert_eq!(capitalize_words("firefox nightly"), "Firefox Nightly");
    assert_eq!(capitalize_words(""), "");
    assert_eq!(capitalize_words("  x"), "  X");
    assert_eq!(capitalize_words("éa b"), "éa B");
}

#[test]
fn hex16_is_zero_padded_lowercase() {
    assert_eq!(format_hex16(0), "0000000000000000");
    assert_eq!(format_hex16(255), "00000000000000ff");
    assert_eq!(format_hex16(u64::MAX), "ffffffffffffffff");
    assert_eq!(format_hex16(0x1234abcd), format!("{:016x}", 0x1234abcdu64));
}

#[test]
fn decimal_formatting() {
    let mut s = String::from("/proc/");
    push_decimal(4242, &mut s);
    assert_eq!(s, "/proc/4242");
    let mut z = String::new();
    push_decimal(0, &mut z);
    assert_eq!(z, "0");
}

#[test]
fn parse_u64_like_std() {
    for text in ["0", "12", "+12", "", "+", "-1", "12a", "18446744073709551615", "18446744073709551616", "007"] {
        assert_eq!(parse_u64(&chars(text)), text.parse::<u64>().ok(), "{text:?}");
    }
}

#[test]
fn trim_like_std() {
    for text in ["  main \n", "\t\u{3000}x y\u{2009}", "", "   ", "abc"] {
        let t: String = trim(&chars(text)).into_iter().collect();
        assert_eq!(t, text.trim());
    }
}

#[test]
fn split_like_std() {
    for text in ["a\tb\t\tc", "", "\t", "abc", "x\t"] {
        let v = chars(text);
        let ranges = split_ranges(&v, 0, v.len(), '\t');
        let pieces: Vec<String> = ranges.iter().map(|(a, b)| v[*a..*b].iter().collect()).collect();
        let expected: Vec<String> = text.split('\t').map(String::from).collect();
        assert_eq!(pieces, expected);
    }
    assert_eq!(to_chars("héllo"), chars("héllo"));
}

fn line(fields: &[&str]) -> String {
    format!("\x02{}\x03", fields.join("\t"))
}

#[test]
fn parse_metadata_line_reads_all_fields() {
    let l = line(&["spotify", "spotify:track:1", "playing", "Song", "Album", "Artist", "https://x", "https://art", "1500000", "180000000"]);
    let m = parse_metadata_line(&l).unwrap();
    assert_eq!(m.player, "spotify");
    assert_eq!(m.status, TrackStatus::Playing);
    assert_eq!(m.title.as_deref(), Some("Song"));
    assert_eq!(m.album.as_deref(), Some("Album"));
    assert_eq!(m.artist.as_deref(), Some("Artist"));
    assert_eq!(m.url.as_deref(), Some("https://x"));
    assert_eq!(m.art_url.as_deref(), Some("https://art"));
    assert_eq!(m.position, Some(1_500_000_000));
    assert_eq!(m.length, Some(180_000_000_000));
    assert!(m.extra.is_empty());
    assert_eq!(m.id.len(), 16);
    assert!(m.id.chars().all(|c| c.is_ascii_hexdigit() && !c.is_ascii_uppercase()));
}

#[test]
fn parse_metadata_line_empty_fields_are_absent() {
    let l = line(&["mpv", "", "paused", "", "", "", "", "", "", ""]);
    let m = parse_metadata_line(&l).unwrap();
    assert_eq!(m.status, TrackStatus::Paused);
    assert_eq!(m.title, None);
    assert_eq!(m.position, None);
    assert_eq!(m.length, None);
}

#[test]
fn parse_metadata_line_id_depends_on_track_fields_only() {
    let a = parse_metadata_line(&line(&["p", "id", "playing", "T", "A", "R", "", "", "1", "2"])).unwrap();
    let b = parse_metadata_line(&line(&["q", "id", "paused", "T", "A", "R", "u", "v", "", ""])).unwrap();
    let c = parse_metadata_line(&line(&["p", "id", "playing", "T2", "A", "R", "", "", "1", "2"])).unwrap();
    assert_eq!(a.id, b.id);
    assert_ne!(a.id, c.id);
}

#[test]
fn parse_metadata_line_errors() {
    assert!(matches!(parse_metadata_line("no framing"), Err(LineError::InvalidFormat)));
    assert!(matches!(parse_metadata_line("\x02"), Err(LineError::InvalidFormat)));
    assert!(matches!(parse_metadata_line("\x02player\x03"), Err(LineError::MissingField(LineField::TrackId))));
    assert!(matches!(parse_metadata_line(&line(&["p", "i"])), Err(LineError::MissingField(LineField::Status))));
    match parse_metadata_line(&line(&["p", "i", "bogus"])) {
        Err(LineError::InvalidStatus(s)) => assert_eq!(s, "bogus"),
        other => panic!("{other:?}"),
    }
    assert!(matches!(parse_metadata_line(&line(&["p", "i", "playing"])), Err(LineError::MissingField(LineField::Title))));
    assert!(matches!(parse_metadata_line(&line(&["p", "i", "stopped", "t", "a", "r", "u", "a"])), Err(LineError::MissingField(LineField::Position))));
    assert!(matches!(parse_metadata_line(&line(&["p", "i", "stopped", "t", "a", "r", "u", "a", "x1"])), Err(LineError::InvalidNumber(LineField::Position))));
    assert!(matches!(parse_metadata_line(&line(&["p", "i", "stopped", "t", "a", "r", "u", "a", "1"])), Err(LineError::MissingField(LineField::Length))));
    assert!(matches!(parse_metadata_line(&line(&["p", "i", "stopped", "t", "a", "r", "u", "a", "1", "-2"])), Err(LineError::InvalidNumber(LineField::Length))));
}

#[test]
fn parse_metadata_line_ignores_extra_fields() {
    let l = line(&["p", "i", "playing", "t", "a", "r", "u", "a", "1", "2", "more"]);
    assert!(parse_metadata_line(&l).is_ok());
}

#[test]
fn format_constant_has_ten_fields() {
    let f = rich_presence_wrapper::playerctl::PLAYERCTL_METADATA_FORMAT;
    assert!(f.starts_with('\x02') && f.ends_with('\x03'));
    assert_eq!(f.split('\t').count(), 10);
}
