//! Presence for editors (helix, zed): which workspace is open, on which
//! branch.

use vstd::prelude::*;

use crate::activity::{large_image_assets, Activity, ActivityType, ActivityView, Assets, Party, Timestamps};
use crate::metadata::opt_view;
use crate::paths::{file_name, file_name_of, join, joined, strip_prefix, stripped};
use crate::text::{from_chars, owned, push_str, to_chars, trim, trim_spec, utf8_to_string};
use crate::time::NANOS_PER_SEC;

verus! {

/// How often an editor's presence is refreshed.
pub struct Options {
    /// Nanoseconds between refreshes.
    pub refresh_delay: u128,
}

impl Default for Options {
    /// Five seconds between refreshes.
    fn default() -> (r: Options)
        ensures
            r.refresh_delay == 5 * NANOS_PER_SEC,
    {
        Options { refresh_delay: 5 * NANOS_PER_SEC }
    }
}

/// The Unix seconds of an instant given in nanoseconds, as `as_secs() as
/// i64` gives them.
pub open spec fn unix_secs(t: u128) -> i64 {
    ((t / NANOS_PER_SEC) as u64) as i64
}

/// The Unix seconds of an instant given in nanoseconds.
pub fn to_unix_secs(t: u128) -> (r: i64)
    ensures
        r == unix_secs(t),
{
    ((t / NANOS_PER_SEC) as u64) as i64
}

/// What is known of the editor's working directory for its presence.
pub struct EditorContext {
    /// The working directory.
    pub cwd: String,
    /// The nearest ancestor of it that holds a `.git` directory.
    pub repo_root: Option<String>,
    /// The user's home directory.
    pub home: Option<String>,
    /// The branch checked out there.
    pub branch: Option<String>,
}

/// The workspace an editor shows: the repository's directory name, else the
/// directory relative to `~`, else the directory itself.
pub open spec fn workspace_name(cwd: Seq<char>, repo_root: Option<Seq<char>>, home: Option<Seq<char>>) -> Seq<char> {
    match repo_root {
        Some(r) if file_name_of(r) is Some => file_name_of(r)->0,
        _ => match home {
            Some(h) => match stripped(cwd, h) {
                Some(x) => joined("~"@, x),
                None => cwd,
            },
            None => cwd,
        },
    }
}

/// The workspace an editor shows.
pub fn workspace(cwd: &str, repo_root: Option<&str>, home: Option<&str>) -> (r: String)
    ensures
        r@ == workspace_name(
            cwd@,
            match repo_root {
                Some(s) => Some(s@),
                None => None,
            },
            match home {
                Some(s) => Some(s@),
                None => None,
            },
        ),
{
    if let Some(root) = repo_root {
        if let Some(name) = file_name(root) {
            return name;
        }
    }
    match home {
        Some(h) => match strip_prefix(cwd, h) {
            Some(x) => join("~", x.as_str()),
            None => owned(cwd),
        },
        None => owned(cwd),
    }
}

/// The presence of an editor: the editor's name and logo, playing since
/// `start`, a party of one; with "In <workspace>" and the branch when the
/// working directory is known.
pub open spec fn editor_activity_spec(
    name: Seq<char>,
    logo: Seq<char>,
    start: u128,
    context: Option<(Seq<char>, Option<Seq<char>>, Option<Seq<char>>, Option<Seq<char>>)>,
) -> ActivityView {
    ActivityView {
        name: Some(name),
        assets: Some(large_image_assets(logo)),
        timestamps: Some(Timestamps { start: Some(unix_secs(start)), end: None }),
        activity_type: Some(ActivityType::Playing),
        party: Some(crate::activity::PartyView { id: None, size: Some((1, 1)) }),
        details: match context {
            Some(c) => Some("In "@ + workspace_name(c.0, c.1, c.2)),
            None => None,
        },
        state: match context {
            Some(c) => c.3,
            None => None,
        },
        ..crate::activity::empty_activity()
    }
}

/// The view of an editor context.
pub open spec fn context_view(c: Option<EditorContext>) -> Option<(Seq<char>, Option<Seq<char>>, Option<Seq<char>>, Option<Seq<char>>)> {
    match c {
        Some(c) => Some((c.cwd@, opt_view(c.repo_root), opt_view(c.home), opt_view(c.branch))),
        None => None,
    }
}

fn opt_as_str(o: &Option<String>) -> (r: Option<&str>)
    ensures
        match r {
            Some(s) => opt_view(*o) == Some(s@),
            None => o is None,
        },
{
    match o {
        Some(s) => Some(s.as_str()),
        None => None,
    }
}

/// A party of one, as editors show.
pub fn party_of_one() -> (r: Party)
    ensures
        r@ == (crate::activity::PartyView { id: None, size: Some((1, 1)) }),
{
    Party { id: None, size: Some([1, 1]) }
}

/// The presence of an editor.
pub fn editor_activity(name: &str, logo: &str, start: u128, context: Option<EditorContext>) -> (r: Activity)
    ensures
        r@ == editor_activity_spec(name@, logo@, start, context_view(context)),
{
    let mut a = Activity::new();
    a.name = Some(owned(name));
    a.assets = Some(Assets::large_image(owned(logo)));
    a.timestamps = Some(Timestamps { start: Some(to_unix_secs(start)), end: None });
    a.activity_type = Some(ActivityType::Playing);
    a.party = Some(party_of_one());
    if let Some(c) = context {
        let ws = workspace(c.cwd.as_str(), opt_as_str(&c.repo_root), opt_as_str(&c.home));
        let mut details = owned("In ");
        push_str(&mut details, ws.as_str());
        a.details = Some(details);
        a.state = c.branch;
    }
    a
}

/// Why the output of `git` could not be read.
#[derive(Debug)]
pub struct InvalidData;

/// The branch in the output of `git rev-parse --abbrev-ref HEAD`: the
/// trimmed text, or nothing when it is empty.
pub open spec fn branch_of_output(text: Seq<char>) -> Option<Seq<char>> {
    if trim_spec(text).len() == 0 {
        None
    } else {
        Some(trim_spec(text))
    }
}

/// Reads the branch from the output of `git rev-parse --abbrev-ref HEAD`;
/// refused when the output is not UTF-8.
pub fn branch_from_output(stdout: &[u8]) -> (r: Result<Option<String>, InvalidData>)
    ensures
        r is Ok <==> vstd::utf8::valid_utf8(stdout@),
        r matches Ok(b) ==> opt_view(b) == branch_of_output(vstd::utf8::decode_utf8(stdout@)),
{
    let text = match utf8_to_string(stdout) {
        Some(t) => t,
        None => {
            return Err(InvalidData);
        },
    };
    let chars = to_chars(text.as_str());
    let trimmed = trim(chars.as_slice());
    if trimmed.len() == 0 {
        Ok(None)
    } else {
        Ok(Some(from_chars(trimmed.as_slice())))
    }
}

/// The workspace an editor shows: the repository's directory name when the
/// repository root has one; else the directory relative to home, under
/// `~`; else the directory itself.
pub proof fn law_workspace_choice(cwd: Seq<char>, repo_root: Option<Seq<char>>, home: Option<Seq<char>>)
    ensures
        (repo_root is Some && file_name_of(repo_root->0) is Some) ==> workspace_name(cwd, repo_root, home)
            == file_name_of(repo_root->0)->0,
        (!(repo_root matches Some(r) && file_name_of(r) is Some) && home is Some && stripped(cwd, home->0) is Some)
            ==> workspace_name(cwd, repo_root, home) == joined("~"@, stripped(cwd, home->0)->0),
        !(repo_root matches Some(r) && file_name_of(r) is Some) && !(home matches Some(h) && stripped(cwd, h) is Some)
            ==> workspace_name(cwd, repo_root, home) == cwd,
{
}

/// An editor's presence: "playing" the editor's name since it started, its
/// logo as large image, a party of one, and, when its working directory is
/// known, "In <workspace>" as details and the branch as state.
pub proof fn law_editor_presence(
    name: Seq<char>,
    logo: Seq<char>,
    start: u128,
    context: Option<(Seq<char>, Option<Seq<char>>, Option<Seq<char>>, Option<Seq<char>>)>,
)
    ensures
        editor_activity_spec(name, logo, start, context).name == Some(name),
        editor_activity_spec(name, logo, start, context).activity_type == Some(ActivityType::Playing),
        editor_activity_spec(name, logo, start, context).assets == Some(large_image_assets(logo)),
        editor_activity_spec(name, logo, start, context).timestamps == Some(
            Timestamps { start: Some(unix_secs(start)), end: None },
        ),
        editor_activity_spec(name, logo, start, context).party == Some(
            crate::activity::PartyView { id: None, size: Some((1, 1)) },
        ),
        context matches Some(c) ==> editor_activity_spec(name, logo, start, context).details == Some(
            "In "@ + workspace_name(c.0, c.1, c.2),
        ) && editor_activity_spec(name, logo, start, context).state == c.3,
        context is None ==> editor_activity_spec(name, logo, start, context).details is None
            && editor_activity_spec(name, logo, start, context).state is None,
{
}

} // verus!
