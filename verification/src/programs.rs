//! The programs the wrapper mode can stand in for, and how it finds the
//! real binary.

use vstd::prelude::*;

use crate::text::{owned, push_char, push_str, str_equal};

verus! {

/// A program with rich-presence support.
#[derive(Debug, Clone, Copy, PartialEq, Eq, Structural)]
pub enum ProgramKind {
    Helix,
    Zed,
}

/// The Discord application id of helix.
pub const HELIX_APP_ID: u64 = 1339918035842105417u64;

/// The Discord application id of zed.
pub const ZED_APP_ID: u64 = 1342862237538193418u64;

impl ProgramKind {
    /// The Discord application id of the program.
    pub fn id(&self) -> (r: u64)
        ensures
            r == (match self {
                ProgramKind::Helix => HELIX_APP_ID,
                ProgramKind::Zed => ZED_APP_ID,
            }),
    {
        match self {
            ProgramKind::Helix => HELIX_APP_ID,
            ProgramKind::Zed => ZED_APP_ID,
        }
    }

    /// The program's logo among the application's images.
    pub fn logo(&self) -> (r: &'static str)
        ensures
            r@ == (match self {
                ProgramKind::Helix => "helix-logo"@,
                ProgramKind::Zed => "zed-logo"@,
            }),
    {
        match self {
            ProgramKind::Helix => "helix-logo",
            ProgramKind::Zed => "zed-logo",
        }
    }
}

/// The program a binary name stands for: `hx` is helix and `zeditor` zed.
pub open spec fn program_for(name: Seq<char>) -> Option<ProgramKind> {
    if name == "hx"@ {
        Some(ProgramKind::Helix)
    } else if name == "zeditor"@ {
        Some(ProgramKind::Zed)
    } else {
        None
    }
}

/// The program a binary name stands for.
pub fn program(name: &str) -> (r: Option<ProgramKind>)
    ensures
        r == program_for(name@),
{
    if str_equal(name, "hx") {
        Some(ProgramKind::Helix)
    } else if str_equal(name, "zeditor") {
        Some(ProgramKind::Zed)
    } else {
        None
    }
}

/// The binary names of the supported programs.
pub fn available_programs() -> (r: Vec<&'static str>)
    ensures
        r@.len() == 2,
        r@[0]@ == "hx"@,
        r@[1]@ == "zeditor"@,
{
    let mut r: Vec<&'static str> = Vec::new();
    r.push("hx");
    r.push("zeditor");
    r
}

/// The environment variable that holds the real binary of program `name`:
/// the name after an underscore, so that the wrapper never finds itself.
pub fn make_path_env_var(name: &str) -> (r: String)
    ensures
        r@ == seq!['_'] + name@,
{
    let mut x = String::new();
    push_char(&mut x, '_');
    push_str(&mut x, name);
    x
}

/// The list of programs as the error for an unknown one shows it: each on
/// a line of its own, indented by two spaces.
pub open spec fn program_lines(names: Seq<Seq<char>>) -> Seq<char>
    decreases names.len(),
{
    if names.len() == 0 {
        Seq::empty()
    } else {
        program_lines(names.drop_last()) + "  "@ + names.last() + "\n"@
    }
}

/// The list of programs, one per line.
pub fn format_program_lines(names: &Vec<&str>) -> (r: String)
    ensures
        r@ == program_lines(names@.map_values(|s: &str| s@)),
{
    let mut out = String::new();
    let mut i: usize = 0;
    while i < names.len()
        invariant
            i <= names@.len(),
            out@ == program_lines(names@.map_values(|s: &str| s@).take(i as int)),
        decreases names@.len() - i,
    {
        let ghost views = names@.map_values(|s: &str| s@);
        assert(views.take(i + 1).drop_last() == views.take(i as int));
        push_str(&mut out, "  ");
        push_str(&mut out, names[i]);
        push_str(&mut out, "\n");
        i = i + 1;
    }
    assert(names@.map_values(|s: &str| s@).take(names@.len() as int) == names@.map_values(|s: &str| s@));
    out
}

/// The list of programs in the table of the newer error message: each
/// indented by two spaces, a line ending after the second of each three.
pub open spec fn program_columns(names: Seq<Seq<char>>) -> Seq<char>
    decreases names.len(),
{
    if names.len() == 0 {
        Seq::empty()
    } else {
        let i = names.len() - 1;
        program_columns(names.drop_last()) + "  "@ + names.last() + if i % 3 == 1 {
            "\n"@
        } else {
            Seq::empty()
        }
    }
}

/// The list of programs in columns.
pub fn format_program_columns(names: &Vec<&str>) -> (r: String)
    ensures
        r@ == program_columns(names@.map_values(|s: &str| s@)),
{
    let mut out = String::new();
    let mut i: usize = 0;
    while i < names.len()
        invariant
            i <= names@.len(),
            out@ == program_columns(names@.map_values(|s: &str| s@).take(i as int)),
        decreases names@.len() - i,
    {
        let ghost views = names@.map_values(|s: &str| s@);
        assert(views.take(i + 1).drop_last() == views.take(i as int));
        push_str(&mut out, "  ");
        push_str(&mut out, names[i]);
        if i % 3 == 1 {
            push_str(&mut out, "\n");
        } else {
            assert(out@ + Seq::<char>::empty() == out@);
        }
        i = i + 1;
    }
    assert(names@.map_values(|s: &str| s@).take(names@.len() as int) == names@.map_values(|s: &str| s@));
    out
}

} // verus!
