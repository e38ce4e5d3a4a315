use discord_rich_presence::error::Error as DiscordError;
use rich_presence_wrapper::backoff::{at_least, at_most, Backoff, Max, Min, Strategy};
use rich_presence_wrapper::discord::{connect_should_retry, is_retryable, is_retryable_kind, recovery, DiscordErrorKind, Recovery};
use rich_presence_wrapper::keyed::{get, insert, remove};
use rich_presence_wrapper::mailbox::{Mailbox, Received};
use rich_presence_wrapper::paths::{ancestors, ChildHandle, PathJoin};
use rich_presence_wrapper::programs::{
    available_programs, format_program_columns, format_program_lines, make_path_env_var, program, ProgramKind, HELIX_APP_ID,
    ZED_APP_ID,
};
use rich_presence_wrapper::rpc::{fill_editor_activity, wrapper_workspace_name, Activity, App, ConnectError, Connection, Party, ProgramApp, UpdateError, WrapperContext};
use rich_presence_wrapper::time::{elapsed, MAX_DURATION_NANOS, NANOS_PER_SEC};
use rich_presence_wrapper::util::{exit_code, CommandKind, ExtendTuple};

/// A strategy that hands out the delays it was given, then the last one.
struct Scripted {
    delays: Vec<u128>,
    next: usize,
    resets: usize,
}

impl Strategy for Scripted {
    fn tick(&mut self) -> u128 {
        let i = self.next.min(self.delays.len() - 1);
        self.next += 1;
        self.delays[i]
    }

    fn reset(&mut self) {
        self.next = 0;
        self.resets += 1;
    }
}

fn scripted(delays: &[u128]) -> Scripted {
    Scripted { delays: delays.to_vec(), next: 0, resets: 0 }
}

#[test]
fn min_raises_short_delays() {
    let mut s = Min::new(5, scripted(&[2, 7]));
    assert_eq!(s.tick(), 5);
    assert_eq!(s.tick(), 7);
}

#[test]
fn max_lowers_long_delays() {
    let mut s = Max::new(10, scripted(&[20, 3]));
    assert_eq!(s.tick(), 10);
    assert_eq!(s.tick(), 3);
}

#[test]
fn min_max_bound_delays_on_both_sides() {
    let mut b = Backoff::new(Max::new(10, Min::new(1, scripted(&[0, 4, 40]))));
    assert_eq!(b.next_delay(), 1);
    assert_eq!(b.next_delay(), 4);
    assert_eq!(b.next_delay(), 10);
    b.reset();
    assert_eq!(b.strategy.inner.inner.resets, 1);
    assert_eq!(b.next_delay(), 1);
}

#[test]
fn clamping_helpers() {
    assert_eq!(at_least(3, 5), 5);
    assert_eq!(at_least(8, 5), 8);
    assert_eq!(at_most(3, 5), 3);
    assert_eq!(at_most(8, 5), 5);
}

#[test]
fn retryable_discord_errors() {
    assert!(is_retryable(&DiscordError::NotConnected));
    assert!(is_retryable(&DiscordError::IPCNotFound));
    assert!(is_retryable(&DiscordError::IPCConnectionFailed));
    assert!(is_retryable(&DiscordError::ReadError(std::io::Error::other("eof"))));
    assert!(is_retryable(&DiscordError::WriteError(std::io::Error::other("pipe"))));
    assert!(is_retryable(&DiscordError::FlushError(std::io::Error::other("pipe"))));
    assert!(!is_retryable(&DiscordError::DecodeOpcode));
    assert!(!is_retryable(&DiscordError::DecodeHeader));
    assert!(!is_retryable(&DiscordError::RecvUtf8Response));
    assert!(!is_retryable(&DiscordError::JsonParseResponse));
}

#[test]
fn retryable_kinds_and_recovery() {
    assert!(is_retryable_kind(DiscordErrorKind::WriteError));
    assert!(!is_retryable_kind(DiscordErrorKind::JsonParseResponse));
    assert_eq!(recovery(DiscordErrorKind::NotConnected), Recovery::Connect);
    assert_eq!(recovery(DiscordErrorKind::IpcNotFound), Recovery::Connect);
    assert_eq!(recovery(DiscordErrorKind::ReadError), Recovery::Reconnect);
    assert_eq!(recovery(DiscordErrorKind::FlushError), Recovery::Reconnect);
    assert_eq!(recovery(DiscordErrorKind::DecodeHeader), Recovery::Fail);
    assert!(connect_should_retry(DiscordErrorKind::IpcNotFound));
    assert!(connect_should_retry(DiscordErrorKind::IpcConnectionFailed));
    assert!(!connect_should_retry(DiscordErrorKind::NotConnected));
}

#[test]
fn mailbox_keeps_the_latest_value() {
    let mut m: Mailbox<u32> = Mailbox::new();
    assert!(matches!(m.receive(), Received::Empty));
    assert!(m.push(1));
    assert!(m.push(2));
    assert!(matches!(m.receive(), Received::Item(2)));
    assert!(matches!(m.receive(), Received::Empty));
}

#[test]
fn mailbox_closed() {
    let mut m: Mailbox<u32> = Mailbox::new();
    assert!(m.offer(3).is_ok());
    m.close();
    assert!(m.closed());
    assert!(!m.push(4));
    assert_eq!(m.offer(5), Err(5));
    assert!(matches!(m.receive(), Received::Closed));
}

#[test]
fn keyed_texts() {
    let mut v: Vec<(String, String)> = Vec::new();
    insert(&mut v, "a".to_string(), "1".to_string());
    insert(&mut v, "b".to_string(), "2".to_string());
    insert(&mut v, "a".to_string(), "3".to_string());
    assert_eq!(v.len(), 2);
    assert_eq!(get(&v, "a").map(String::as_str), Some("3"));
    assert_eq!(get(&v, "b").map(String::as_str), Some("2"));
    remove(&mut v, "a");
    assert_eq!(get(&v, "a"), None);
    assert_eq!(v.len(), 1);
    remove(&mut v, "missing");
    assert_eq!(v.len(), 1);
}

#[test]
fn exit_codes() {
    assert_eq!(exit_code(Some(0)), 0);
    assert_eq!(exit_code(Some(3)), 3);
    assert_eq!(exit_code(Some(256 + 7)), 7);
    assert_eq!(exit_code(Some(-1)), 255);
    assert_eq!(exit_code(None), 1);
}

#[test]
fn tuples_grow_by_one() {
    let t = ().extend(1u8);
    assert_eq!(t, (1u8,));
    let t = t.extend("x").extend(true);
    assert_eq!(t, (1u8, "x", true));
    let t = (1, 2, 3, 4, 5, 6, 7, 8).extend(9);
    assert_eq!(t, (1, 2, 3, 4, 5, 6, 7, 8, 9));
}

#[test]
fn elapsed_never_negative() {
    assert_eq!(elapsed(10, 4), 6);
    assert_eq!(elapsed(4, 10), 0);
    assert_eq!(NANOS_PER_SEC, 1_000_000_000);
    assert_eq!(MAX_DURATION_NANOS, std::time::Duration::MAX.as_nanos());
}

#[test]
fn programs_by_binary_name() {
    assert_eq!(program("hx"), Some(ProgramKind::Helix));
    assert_eq!(program("zeditor"), Some(ProgramKind::Zed));
    assert_eq!(program("vim"), None);
    assert_eq!(ProgramKind::Helix.id(), HELIX_APP_ID);
    assert_eq!(ProgramKind::Zed.id(), ZED_APP_ID);
    assert_eq!(ProgramKind::Helix.logo(), "helix-logo");
    assert_eq!(ProgramKind::Zed.logo(), "zed-logo");
    assert_eq!(available_programs(), vec!["hx", "zeditor"]);
    assert_eq!(make_path_env_var("hx"), "_hx");
}

#[test]
fn program_listings() {
    let names = vec!["hx", "zeditor", "nvim", "emacs"];
    assert_eq!(format_program_lines(&names), "  hx\n  zeditor\n  nvim\n  emacs\n");
    assert_eq!(format_program_columns(&names), "  hx  zeditor\n  nvim  emacs");
    let five = vec!["a", "b", "c", "d", "e"];
    assert_eq!(format_program_columns(&five), "  a  b\n  c  d  e\n");
    assert_eq!(format_program_lines(&Vec::new()), "");
}

#[test]
fn ancestors_walk_up_to_the_root() {
    assert_eq!(ancestors("/a/b/c", 10), vec!["/a/b/c", "/a/b", "/a", "/"]);
    assert_eq!(ancestors("/a/b/c", 2), vec!["/a/b/c", "/a/b"]);
    assert!(ancestors("/a", 0).is_empty());
    assert_eq!(ancestors("x", 5), vec!["x", ""]);
}

#[test]
fn child_working_directory_link() {
    assert_eq!(ChildHandle { pid: 42 }.cwd_link(), "/proc/42/cwd");
    assert_eq!(ChildHandle { pid: 0 }.cwd_link(), "/proc/0/cwd");
}

#[test]
fn path_components_join() {
    let parts = vec!["/usr".to_string(), "share".to_string(), "doc".to_string()];
    assert_eq!(PathJoin::join(parts), "/usr/share/doc");
    let rel = vec!["a".to_string(), "/b".to_string()];
    assert_eq!(PathJoin::join(rel), "/b");
    assert_eq!(PathJoin::join(Vec::<String>::new()), "");
}

#[test]
fn connection_refuses_double_connect() {
    let mut c = Connection { connected: false };
    assert_eq!(c.check_update(), Err(UpdateError::NotConnected));
    assert_eq!(c.connect(), Ok(()));
    assert_eq!(c.connect(), Err(ConnectError::AlreadyConnected));
    assert_eq!(c.check_update(), Ok(()));
}

fn context(cwd: &str, repo: Option<&str>, branch: Option<&str>) -> WrapperContext {
    WrapperContext {
        cwd: cwd.to_string(),
        repo_root: repo.map(str::to_string),
        home: Some("/home/u".to_string()),
        branch: branch.map(str::to_string),
    }
}

#[test]
fn wrapper_workspace_names() {
    assert_eq!(wrapper_workspace_name(&context("/home/u/p/src", Some("/home/u/p"), None), true), "p");
    assert_eq!(wrapper_workspace_name(&context("/home/u/notes", None, None), true), "notes");
    assert_eq!(wrapper_workspace_name(&context("/home/u", None, None), true), "~/");
    assert_eq!(wrapper_workspace_name(&context("/home/u", None, None), false), "");
    assert_eq!(wrapper_workspace_name(&context("/tmp", None, None), true), "/tmp");
}

#[test]
fn wrapper_fills_editor_activity() {
    let mut a = Activity::default();
    a.state = Some("before".to_string());
    fill_editor_activity(&mut a, "helix-logo", Some(context("/home/u/p", Some("/home/u/p"), Some("main"))), true);
    assert_eq!(a.details.as_deref(), Some("In p"));
    assert_eq!(a.state.as_deref(), Some("main"));
    assert_eq!(a.small.image.as_deref(), Some("edit"));
    assert_eq!(a.large.image.as_deref(), Some("helix-logo"));
    assert_eq!(a.party, Some(Party { size: 1, capacity: 1 }));

    // Outside a repository the branch is not shown.
    let mut b = Activity::default();
    fill_editor_activity(&mut b, "zed-logo", Some(context("/tmp", None, Some("main"))), true);
    assert_eq!(b.state, None);
    assert_eq!(b.details.as_deref(), Some("In /tmp"));

    // With no context nothing changes.
    let mut c = Activity::default();
    fill_editor_activity(&mut c, "zed-logo", None, true);
    assert!(c.details.is_none() && c.party.is_none() && c.large.image.is_none());
}

#[test]
fn command_names_and_console_logging() {
    assert_eq!(CommandKind::Helix.name(), "helix");
    assert_eq!(CommandKind::Zed.name(), "zed");
    assert_eq!(CommandKind::MusicBridge.name(), "music-bridge");
    assert_eq!(CommandKind::Lsp.name(), "lsp");
    assert!(!CommandKind::Helix.can_use_stdio_for_log());
    assert!(!CommandKind::Lsp.can_use_stdio_for_log());
    assert!(CommandKind::Zed.can_use_stdio_for_log());
    assert!(CommandKind::MusicBridge.can_use_stdio_for_log());
}

#[test]
fn recovered_errors_are_the_retryable_ones() {
    let kinds = [
        DiscordErrorKind::DecodeOpcode,
        DiscordErrorKind::DecodeHeader,
        DiscordErrorKind::RecvUtf8Response,
        DiscordErrorKind::JsonParseResponse,
        DiscordErrorKind::IpcNotFound,
        DiscordErrorKind::IpcConnectionFailed,
        DiscordErrorKind::NotConnected,
        DiscordErrorKind::ReadError,
        DiscordErrorKind::WriteError,
        DiscordErrorKind::FlushError,
    ];
    for k in kinds {
        assert_eq!(recovery(k) != Recovery::Fail, is_retryable_kind(k));
        if connect_should_retry(k) {
            assert!(is_retryable_kind(k));
        }
    }
}

#[test]
fn program_app_fills_in_from_the_last_directory_read() {
    use_program_app();
}

fn use_program_app() {
    let mut app = ProgramApp { kind: ProgramKind::Zed, context: Some(context("/home/u", None, None)) };
    assert_eq!(app.id(), ZED_APP_ID);
    let mut a = Activity::default();
    app.activity(&mut a);
    assert_eq!(a.details.as_deref(), Some("In ~/"));
    assert_eq!(a.large.image.as_deref(), Some("zed-logo"));
    assert!(app.context.is_none());
    // Without a fresh reading nothing more is changed.
    let mut b = Activity::default();
    app.activity(&mut b);
    assert!(b.details.is_none());
}
