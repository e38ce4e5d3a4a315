//! The presence model of the wrapper mode, where this program stands in for
//! the editor it launches: an app fills in an activity of images, texts and
//! a party.

use vstd::prelude::*;

use crate::metadata::opt_view;
use crate::paths::{file_name, file_name_of, strip_prefix, stripped};
use crate::programs::{ProgramKind, HELIX_APP_ID, ZED_APP_ID};
use crate::text::{owned, push_str};

verus! {

/// An image and its hover text.
#[derive(Debug)]
pub struct Asset {
    pub text: Option<String>,
    pub image: Option<String>,
}

/// A party: its size and capacity.
#[derive(Debug, Clone, Copy, PartialEq, Eq, Structural)]
pub struct Party {
    pub size: u32,
    pub capacity: u32,
}

/// An activity as an app fills it in.
#[derive(Debug)]
pub struct Activity {
    pub details: Option<String>,
    pub state: Option<String>,
    pub small: Asset,
    pub large: Asset,
    pub party: Option<Party>,
}

impl Default for Asset {
    fn default() -> (r: Asset)
        ensures
            r.text is None,
            r.image is None,
    {
        Asset { text: None, image: None }
    }
}

impl Default for Activity {
    fn default() -> (r: Activity)
        ensures
            r.details is None,
            r.state is None,
            r.small.text is None,
            r.small.image is None,
            r.large.text is None,
            r.large.image is None,
            r.party is None,
    {
        Activity {
            details: None,
            state: None,
            small: Asset { text: None, image: None },
            large: Asset { text: None, image: None },
            party: None,
        }
    }
}

/// A program whose presence is shown: its Discord application id and how it
/// fills in an activity.
pub trait App {
    fn id(&self) -> u64;

    fn activity(&mut self, activity: &mut Activity);
}

/// The presence was already connected.
#[derive(Debug, Clone, Copy, PartialEq, Eq, Structural)]
pub enum ConnectError {
    AlreadyConnected,
}

/// The presence is not connected.
#[derive(Debug, Clone, Copy, PartialEq, Eq, Structural)]
pub enum UpdateError {
    NotConnected,
}

/// Whether the presence is connected, as far as connecting and updating
/// are concerned.
pub struct Connection {
    pub connected: bool,
}

impl Connection {
    /// Connecting twice is refused.
    pub fn connect(&mut self) -> (r: Result<(), ConnectError>)
        ensures
            old(self).connected ==> r == Err::<(), ConnectError>(ConnectError::AlreadyConnected) && final(self).connected,
            !old(self).connected ==> r is Ok && final(self).connected,
    {
        if self.connected {
            return Err(ConnectError::AlreadyConnected);
        }
        self.connected = true;
        Ok(())
    }

    /// Updating needs a connection.
    pub fn check_update(&self) -> (r: Result<(), UpdateError>)
        ensures
            r is Ok <==> self.connected,
            r is Err ==> r == Err::<(), UpdateError>(UpdateError::NotConnected),
    {
        if self.connected {
            Ok(())
        } else {
            Err(UpdateError::NotConnected)
        }
    }
}

/// What the wrapper knows of an editor's working directory.
pub struct WrapperContext {
    pub cwd: String,
    pub repo_root: Option<String>,
    pub home: Option<String>,
    /// The branch, when `git` could tell it (asked only inside a
    /// repository).
    pub branch: Option<String>,
}

/// The workspace the wrapper shows: the repository's directory name, else
/// the directory relative to home (`~/` for home itself when
/// `tilde_for_home`), else the directory.
pub open spec fn wrapper_workspace(
    cwd: Seq<char>,
    repo_root: Option<Seq<char>>,
    home: Option<Seq<char>>,
    tilde_for_home: bool,
) -> Seq<char> {
    match repo_root {
        Some(r) if file_name_of(r) is Some => file_name_of(r)->0,
        _ => match home {
            Some(h) if stripped(cwd, h) is Some => if tilde_for_home && stripped(cwd, h)->0.len() == 0 {
                "~/"@
            } else {
                stripped(cwd, h)->0
            },
            _ => cwd,
        },
    }
}

/// The workspace the wrapper shows.
pub fn wrapper_workspace_name(c: &WrapperContext, tilde_for_home: bool) -> (r: String)
    ensures
        r@ == wrapper_workspace(c.cwd@, opt_view(c.repo_root), opt_view(c.home), tilde_for_home),
{
    if let Some(root) = &c.repo_root {
        if let Some(name) = file_name(root.as_str()) {
            return name;
        }
    }
    if let Some(h) = &c.home {
        if let Some(x) = strip_prefix(c.cwd.as_str(), h.as_str()) {
            if tilde_for_home && x.as_str().is_empty() {
                return owned("~/");
            }
            return x;
        }
    }
    c.cwd.clone()
}

/// Whether `after` is `before` filled in for an editor run through the
/// wrapper: "In <workspace>", the edit icon as small image, the editor's
/// logo as large image, a party of one, and the branch inside a
/// repository. Nothing is changed when the working directory is unknown.
pub open spec fn filled_editor_activity(
    before: Activity,
    after: Activity,
    logo: Seq<char>,
    context: Option<WrapperContext>,
    tilde_for_home: bool,
) -> bool {
    &&& context is None ==> after == before
    &&& context matches Some(c) ==> {
        &&& opt_view(after.details) == Some("In "@ + wrapper_workspace(c.cwd@, opt_view(c.repo_root), opt_view(c.home), tilde_for_home))
        &&& opt_view(after.small.image) == Some("edit"@)
        &&& opt_view(after.large.image) == Some(logo)
        &&& after.party == Some(Party { size: 1, capacity: 1 })
        &&& opt_view(after.state) == (if c.repo_root is Some && c.branch is Some {
            opt_view(c.branch)
        } else {
            opt_view(before.state)
        })
        &&& opt_view(after.small.text) == opt_view(before.small.text)
        &&& opt_view(after.large.text) == opt_view(before.large.text)
    }
}

/// Fills in the activity of an editor run through the wrapper.
pub fn fill_editor_activity(activity: &mut Activity, logo: &str, context: Option<WrapperContext>, tilde_for_home: bool)
    ensures
        filled_editor_activity(*old(activity), *final(activity), logo@, context, tilde_for_home),
{
    let c = match context {
        Some(c) => c,
        None => {
            return;
        },
    };
    let ws = wrapper_workspace_name(&c, tilde_for_home);
    let mut details = owned("In ");
    push_str(&mut details, ws.as_str());
    activity.details = Some(details);
    activity.small.image = Some(owned("edit"));
    activity.large.image = Some(owned(logo));
    activity.party = Some(Party { size: 1, capacity: 1 });
    if c.repo_root.is_some() {
        if let Some(b) = c.branch {
            activity.state = Some(b);
        }
    }
}

/// A program the wrapper launched, as the presence loop sees it: which
/// program it is, and what the loop last read of its working directory
/// (read again before each update).
pub struct ProgramApp {
    pub kind: ProgramKind,
    pub context: Option<WrapperContext>,
}

impl App for ProgramApp {
    /// The program's Discord application id.
    fn id(&self) -> (r: u64)
        ensures
            r == (match self.kind {
                ProgramKind::Helix => HELIX_APP_ID,
                ProgramKind::Zed => ZED_APP_ID,
            }),
    {
        self.kind.id()
    }

    /// Fills in the activity from the working directory last read, which is
    /// used up; home shows as `~/`.
    fn activity(&mut self, activity: &mut Activity)
        ensures
            final(self).kind == old(self).kind,
            final(self).context is None,
            filled_editor_activity(
                *old(activity),
                *final(activity),
                match old(self).kind {
                    ProgramKind::Helix => "helix-logo"@,
                    ProgramKind::Zed => "zed-logo"@,
                },
                old(self).context,
                true,
            ),
    {
        let c = self.context.take();
        fill_editor_activity(activity, self.kind.logo(), c, true);
    }
}

} // verus!
