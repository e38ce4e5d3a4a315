use rich_presence_wrapper::activity::{ActivityType, StatusDisplayType};
use rich_presence_wrapper::editor::{branch_from_output, editor_activity, party_of_one, to_unix_secs, workspace, EditorContext, Options};
use rich_presence_wrapper::lsp::{branch_dir, details, lsp_activity, ActivityParams, DocumentRef, LspState, PresenceUpdate};

const SEC: u128 = 1_000_000_000;

fn doc(uri: &str, path: &str) -> DocumentRef {
    DocumentRef { uri: uri.to_string(), path: path.to_string() }
}

#[test]
fn default_refresh_delay_is_five_seconds() {
    assert_eq!(Options::default().refresh_delay, 5 * SEC);
}

#[test]
fn unix_seconds_truncate_nanoseconds() {
    assert_eq!(to_unix_secs(0), 0);
    assert_eq!(to_unix_secs(1_999_999_999), 1);
    assert_eq!(to_unix_secs(1_700_000_000 * SEC + 5), 1_700_000_000);
}

#[test]
fn workspace_prefers_repository_name() {
    assert_eq!(workspace("/home/u/proj/src", Some("/home/u/proj"), Some("/home/u")), "proj");
}

#[test]
fn workspace_relative_to_home() {
    assert_eq!(workspace("/home/u/dev/x", None, Some("/home/u")), "~/dev/x");
    assert_eq!(workspace("/home/u", None, Some("/home/u")), "~/");
}

#[test]
fn workspace_outside_home_is_the_directory() {
    assert_eq!(workspace("/srv/data", None, Some("/home/u")), "/srv/data");
    assert_eq!(workspace("/srv/data", None, None), "/srv/data");
    // A repository root without a final component falls back to the rest.
    assert_eq!(workspace("/srv/data", Some("/"), None), "/srv/data");
}

#[test]
fn editor_activity_with_context() {
    let ctx = EditorContext {
        cwd: "/home/u/proj/src".to_string(),
        repo_root: Some("/home/u/proj".to_string()),
        home: Some("/home/u".to_string()),
        branch: Some("main".to_string()),
    };
    let a = editor_activity("Helix", "helix-logo", 3 * SEC + 500, Some(ctx));
    assert_eq!(a.name.as_deref(), Some("Helix"));
    assert_eq!(a.details.as_deref(), Some("In proj"));
    assert_eq!(a.state.as_deref(), Some("main"));
    assert_eq!(a.activity_type, Some(ActivityType::Playing));
    let ts = a.timestamps.unwrap();
    assert_eq!(ts.start, Some(3));
    assert_eq!(ts.end, None);
    let party = a.party.unwrap();
    assert_eq!(party.size, Some([1, 1]));
    assert_eq!(party.id, None);
    let assets = a.assets.unwrap();
    assert_eq!(assets.large_image.as_deref(), Some("helix-logo"));
    assert_eq!(assets.small_image, None);
    assert!(a.buttons.is_none());
}

#[test]
fn editor_activity_without_context() {
    let a = editor_activity("Zed", "zed-logo", 0, None);
    assert_eq!(a.name.as_deref(), Some("Zed"));
    assert_eq!(a.details, None);
    assert_eq!(a.state, None);
    assert_eq!(a.timestamps.unwrap().start, Some(0));
}

#[test]
fn party_of_one_has_size_one_of_one() {
    let p = party_of_one();
    assert_eq!(p.size, Some([1, 1]));
    assert!(p.id.is_none());
}

#[test]
fn branch_output_is_trimmed() {
    assert_eq!(branch_from_output(b"main\n").unwrap(), Some("main".to_string()));
    assert_eq!(branch_from_output(b"  feature/x \r\n").unwrap(), Some("feature/x".to_string()));
    assert_eq!(branch_from_output(b" \n").unwrap(), None);
    assert_eq!(branch_from_output(b"").unwrap(), None);
}

#[test]
fn branch_output_must_be_utf8() {
    assert!(branch_from_output(&[0x6d, 0xff, 0x0a]).is_err());
}

#[test]
fn document_details_inside_repository() {
    assert_eq!(details("/home/u/proj/src/main.rs", Some("/home/u/proj"), Some("/home/u")), "proj: src/main.rs");
    // A document outside the repository keeps its full path.
    assert_eq!(details("/etc/hosts", Some("/home/u/proj"), None), "proj: /etc/hosts");
}

#[test]
fn document_details_without_repository() {
    assert_eq!(details("/home/u/notes.md", None, Some("/home/u")), "notes.md");
    assert_eq!(details("/etc/hosts", None, Some("/home/u")), "/etc/hosts");
    assert_eq!(details("/etc/hosts", None, None), "/etc/hosts");
}

#[test]
fn branch_directory_is_the_parent() {
    assert_eq!(branch_dir("/home/u/proj/src/main.rs"), "/home/u/proj/src");
    assert_eq!(branch_dir("/"), "/");
}

#[test]
fn lsp_session_open_commit_and_close() {
    let mut s = LspState::new(10 * SEC);
    assert!(matches!(s.presence_update(), PresenceUpdate::Clear));
    assert_eq!(s.start_time(), 10 * SEC);
    assert_eq!(s.client_name(), None);

    let update = s.did_open(doc("file:///tmp/a%20b.rs", "/tmp/a%20b.rs"), "rust".to_string());
    let params = match update {
        PresenceUpdate::Show(p) => p,
        _ => panic!("expected the document to be shown"),
    };
    assert_eq!(params.document_path, "/tmp/a b.rs");
    assert_eq!(params.language, "rust");

    s.commit(params);
    assert!(matches!(s.presence_update(), PresenceUpdate::Skip));
    // Turning to the same document again changes nothing.
    assert!(matches!(s.set_focus(doc("file:///tmp/a%20b.rs", "/tmp/a%20b.rs")), PresenceUpdate::Skip));

    assert!(matches!(s.did_close("file:///tmp/a%20b.rs"), PresenceUpdate::Clear));
    // The closed document is forgotten.
    assert!(matches!(s.set_focus(doc("file:///tmp/a%20b.rs", "/tmp/a%20b.rs")), PresenceUpdate::NeverOpened));
}

#[test]
fn lsp_switching_documents_shows_the_new_one() {
    let mut s = LspState::new(0);
    let first = s.did_open(doc("file:///a.rs", "/a.rs"), "rust".to_string());
    if let PresenceUpdate::Show(p) = first {
        s.commit(p);
    } else {
        panic!("expected the first document to be shown");
    }
    match s.did_open(doc("file:///b.py", "/b.py"), "python".to_string()) {
        PresenceUpdate::Show(p) => {
            assert_eq!(p.document_path, "/b.py");
            assert_eq!(p.language, "python");
            s.commit(p);
        },
        _ => panic!("expected the second document to be shown"),
    }
    // Back to the first, which is still open.
    match s.set_focus(doc("file:///a.rs", "/a.rs")) {
        PresenceUpdate::Show(p) => assert_eq!(p.language, "rust"),
        _ => panic!("expected the first document to be shown again"),
    }
}

#[test]
fn lsp_uncommitted_update_is_asked_for_again() {
    let mut s = LspState::new(0);
    let _ = s.did_open(doc("file:///a.rs", "/a.rs"), "rust".to_string());
    // Nothing was committed, so the same document is still to be shown.
    assert!(matches!(s.set_focus(doc("file:///a.rs", "/a.rs")), PresenceUpdate::Show(_)));
}

#[test]
fn lsp_reopening_updates_the_language() {
    let mut s = LspState::new(0);
    let _ = s.did_open(doc("file:///a", "/a"), "plaintext".to_string());
    match s.did_open(doc("file:///a", "/a"), "markdown".to_string()) {
        PresenceUpdate::Show(p) => assert_eq!(p.language, "markdown"),
        _ => panic!("expected a show"),
    }
}

#[test]
fn lsp_path_that_is_not_utf8() {
    let mut s = LspState::new(0);
    assert!(matches!(s.did_open(doc("file:///%FF", "/%FF"), "rust".to_string()), PresenceUpdate::NonUtf8Path));
}

#[test]
fn lsp_same_path_spelled_differently_is_skipped() {
    let mut s = LspState::new(0);
    s.commit(ActivityParams { document_path: "/tmp//x.rs".to_string(), language: "rust".to_string() });
    assert!(matches!(s.did_open(doc("file:///tmp/x.rs", "/tmp/x.rs"), "rust".to_string()), PresenceUpdate::Skip));
}

#[test]
fn lsp_initialize_and_shutdown() {
    let mut s = LspState::new(0);
    s.initialize(Some("helix".to_string()), 7);
    assert_eq!(s.client_name(), Some("helix"));
    assert_eq!(s.start_time(), 7);
    s.initialize(None, 8);
    assert_eq!(s.client_name(), Some("helix"));
    assert_eq!(s.start_time(), 8);
    let _ = s.did_open(doc("file:///a", "/a"), "rust".to_string());
    assert!(matches!(s.shutdown(), PresenceUpdate::Clear));
    assert!(matches!(s.set_focus(doc("file:///a", "/a")), PresenceUpdate::NeverOpened));
}

#[test]
fn lsp_activity_fields() {
    let params = ActivityParams { document_path: "/home/u/proj/lib.rs".to_string(), language: "rust".to_string() };
    let a = lsp_activity(Some("helix"), 42 * SEC, &params, Some("/home/u/proj"), Some("/home/u"), Some("dev".to_string()));
    assert_eq!(a.name.as_deref(), Some("helix"));
    assert_eq!(a.activity_type, Some(ActivityType::Playing));
    assert_eq!(a.status_display_type, Some(StatusDisplayType::Name));
    assert_eq!(a.timestamps.unwrap().start, Some(42));
    assert_eq!(a.party.unwrap().size, Some([1, 1]));
    assert_eq!(a.details.as_deref(), Some("proj: lib.rs"));
    assert_eq!(a.state.as_deref(), Some("dev"));
    assert_eq!(a.assets.unwrap().large_image.as_deref(), Some("rust"));

    let b = lsp_activity(None, 0, &params, None, None, None);
    assert_eq!(b.name, None);
    assert_eq!(b.state, None);
    assert_eq!(b.details.as_deref(), Some("/home/u/proj/lib.rs"));
}
