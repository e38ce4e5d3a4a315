//! Paths as text, through `std::path`.
//!
//! The library keeps paths as `String`s (the program only shows them, and
//! the paths it handles come from UTF-8 sources). The `std::path`
//! operations it needs are called through the items below, each of which
//! names its result; the results follow the Unix path syntax.

use vstd::prelude::*;

use crate::metadata::opt_view;
use crate::text::{dec_digits, owned, push_decimal, push_str};

verus! {

/// The final component of path `p`, as `Path::file_name` gives it.
pub uninterp spec fn file_name_of(p: Seq<char>) -> Option<Seq<char>>;

/// Path `p` relative to `base`, as `Path::strip_prefix` gives it, or `None`
/// when `base` is not a prefix of `p`.
pub uninterp spec fn stripped(p: Seq<char>, base: Seq<char>) -> Option<Seq<char>>;

/// Path `p` without its final component, as `Path::parent` gives it.
pub uninterp spec fn parent_of(p: Seq<char>) -> Option<Seq<char>>;

/// Path `a` with `b` adjoined, as `Path::join` gives it.
pub uninterp spec fn joined(a: Seq<char>, b: Seq<char>) -> Seq<char>;

/// `Path::file_name`, as text.
#[verifier::external_body]
pub(crate) fn file_name(p: &str) -> (r: Option<String>)
    ensures
        opt_view(r) == file_name_of(p@),
{
    match std::path::Path::new(p).file_name() {
        Some(x) => Some(x.to_string_lossy().into_owned()),
        None => None,
    }
}

/// `Path::strip_prefix`, as text; `None` in place of the error.
#[verifier::external_body]
pub(crate) fn strip_prefix(p: &str, base: &str) -> (r: Option<String>)
    ensures
        opt_view(r) == stripped(p@, base@),
{
    match std::path::Path::new(p).strip_prefix(base) {
        Ok(x) => Some(x.to_string_lossy().into_owned()),
        Err(_) => None,
    }
}

/// `Path::parent`, as text.
#[verifier::external_body]
pub(crate) fn parent(p: &str) -> (r: Option<String>)
    ensures
        opt_view(r) == parent_of(p@),
{
    match std::path::Path::new(p).parent() {
        Some(x) => Some(x.to_string_lossy().into_owned()),
        None => None,
    }
}

/// `Path::join`, as text.
#[verifier::external_body]
pub(crate) fn join(a: &str, b: &str) -> (r: String)
    ensures
        r@ == joined(a@, b@),
{
    std::path::Path::new(a).join(b).to_string_lossy().into_owned()
}

/// The ancestors of `p` from itself upwards, each the parent of the one
/// before, as `Path::ancestors` walks them; at most `limit` of them.
pub open spec fn ancestors_spec(p: Seq<char>, limit: nat) -> Seq<Seq<char>>
    decreases limit,
{
    if limit == 0 {
        Seq::empty()
    } else {
        seq![p] + match parent_of(p) {
            Some(q) => ancestors_spec(q, (limit - 1) as nat),
            None => Seq::empty(),
        }
    }
}

/// The ancestors of `p` from itself upwards, at most `limit` of them: the
/// places where a repository root is looked for.
pub fn ancestors(p: &str, limit: usize) -> (r: Vec<String>)
    ensures
        r@.len() == ancestors_spec(p@, limit as nat).len(),
        forall|i: int| 0 <= i < r@.len() ==> (#[trigger] r@[i])@ == ancestors_spec(p@, limit as nat)[i],
{
    let mut r: Vec<String> = Vec::new();
    let mut cur: String = owned(p);
    let mut left: usize = limit;
    let ghost first = p@;
    loop
        invariant_except_break
            left <= limit,
            (r@.map_values(|s: String| s@) + ancestors_spec(cur@, left as nat)) == ancestors_spec(first, limit as nat),
        ensures
            r@.map_values(|s: String| s@) == ancestors_spec(first, limit as nat),
        decreases left,
    {
        if left == 0 {
            assert(ancestors_spec(cur@, 0) == Seq::<Seq<char>>::empty());
            assert(r@.map_values(|s: String| s@) + Seq::<Seq<char>>::empty() == r@.map_values(|s: String| s@));
            break;
        }
        let next = parent(cur.as_str());
        let ghost before = r@.map_values(|s: String| s@);
        let ghost cur_view = cur@;
        r.push(cur);
        assert(r@.map_values(|s: String| s@) == before.push(cur_view));
        match next {
            Some(q) => {
                cur = q;
                left = left - 1;
                assert(before.push(cur_view) + ancestors_spec(cur@, left as nat) == before + ancestors_spec(cur_view, (left + 1) as nat));
            },
            None => {
                assert(ancestors_spec(cur_view, left as nat) == seq![cur_view]);
                assert(before.push(cur_view) == before + seq![cur_view]);
                break;
            },
        }
    }
    proof {
        assert forall|i: int| 0 <= i < r@.len() implies (#[trigger] r@[i])@ == ancestors_spec(first, limit as nat)[i] by {
            assert(r@.map_values(|s: String| s@)[i] == r@[i]@);
        }
    }
    r
}

/// The link to a process's working directory in `/proc`.
pub open spec fn proc_cwd_link(pid: u32) -> Seq<char> {
    "/proc/"@ + dec_digits(pid as nat) + "/cwd"@
}

/// A handle on a child process, by which its working directory is found.
#[derive(Debug, Clone, Copy, PartialEq, Eq, Structural)]
pub struct ChildHandle {
    pub pid: u32,
}

impl ChildHandle {
    /// The `/proc` link that holds the child's working directory.
    pub fn cwd_link(&self) -> (r: String)
        ensures
            r@ == proc_cwd_link(self.pid),
    {
        let mut s = owned("/proc/");
        push_decimal(self.pid as u64, &mut s);
        push_str(&mut s, "/cwd");
        s
    }
}

/// Gives a handle on a child process, while it has not been waited for.
pub trait ChildExt {
    fn handle(&self) -> Option<ChildHandle>;
}

/// Joins path pieces, each adjoined to the ones before as `PathBuf::push`
/// does (which `Path::join` mirrors).
pub trait PathJoin {
    fn join(self) -> String;
}

/// The pieces joined from the left.
pub open spec fn join_all(parts: Seq<Seq<char>>) -> Seq<char>
    decreases parts.len(),
{
    if parts.len() == 0 {
        Seq::empty()
    } else {
        joined(join_all(parts.drop_last()), parts.last())
    }
}

impl PathJoin for Vec<String> {
    fn join(self) -> (r: String)
        ensures
            r@ == join_all(self@.map_values(|s: String| s@)),
    {
        let parts = self;
        let mut acc = String::new();
        let mut i: usize = 0;
        while i < parts.len()
            invariant
                i <= parts@.len(),
                acc@ == join_all(parts@.map_values(|s: String| s@).take(i as int)),
            decreases parts@.len() - i,
        {
            let ghost views = parts@.map_values(|s: String| s@);
            assert(views.take(i + 1).drop_last() == views.take(i as int));
            acc = join(acc.as_str(), parts[i].as_str());
            i = i + 1;
        }
        assert(parts@.map_values(|s: String| s@).take(parts@.len() as int) == parts@.map_values(|s: String| s@));
        acc
    }
}

} // verus!
