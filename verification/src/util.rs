//! Small pieces shared by the commands.

use vstd::prelude::*;

verus! {

/// The log levels that can be asked for on the command line.
#[derive(Debug, Clone, Copy, PartialEq, Eq, Structural)]
pub enum LogLevel {
    Off,
    Error,
    Warn,
    Info,
    Debug,
    Trace,
}

/// The commands of the program.
#[derive(Debug, Clone, Copy, PartialEq, Eq, Structural)]
pub enum CommandKind {
    Helix,
    Zed,
    MusicBridge,
    Lsp,
}

impl CommandKind {
    /// The name of the command.
    pub fn name(&self) -> (r: &'static str)
        ensures
            r@ == match self {
                CommandKind::Helix => "helix"@,
                CommandKind::Zed => "zed"@,
                CommandKind::MusicBridge => "music-bridge"@,
                CommandKind::Lsp => "lsp"@,
            },
    {
        match self {
            CommandKind::Helix => "helix",
            CommandKind::Zed => "zed",
            CommandKind::MusicBridge => "music-bridge",
            CommandKind::Lsp => "lsp",
        }
    }

    /// Whether the log may go to the console while the command runs: not
    /// while helix owns the terminal, nor while a language server talks over
    /// standard input and output.
    pub fn can_use_stdio_for_log(&self) -> (r: bool)
        ensures
            r == !(*self == CommandKind::Helix || *self == CommandKind::Lsp),
    {
        match self {
            CommandKind::Helix | CommandKind::Lsp => false,
            CommandKind::Zed | CommandKind::MusicBridge => true,
        }
    }
}

/// The process exit code for a child's exit status: the low byte of its
/// code, or failure (1) when it had none (it was killed by a signal).
pub open spec fn exit_code_spec(code: Option<i32>) -> u8 {
    match code {
        Some(c) => c as u8,
        None => 1,
    }
}

/// The process exit code for a child's exit status.
pub fn exit_code(code: Option<i32>) -> (r: u8)
    ensures
        r == exit_code_spec(code),
{
    match code {
        Some(c) => c as u8,
        None => 1,
    }
}

/// Appends one more element to a tuple.
pub trait ExtendTuple<T>: Sized {
    type Output;

    fn extend(self, item: T) -> Self::Output;
}

impl<T> ExtendTuple<T> for () {
    type Output = (T,);

    fn extend(self, item: T) -> (r: (T,))
        ensures
            r == (item,),
    {
        (item,)
    }
}

impl<T1, T> ExtendTuple<T> for (T1,) {
    type Output = (T1, T);

    fn extend(self, item: T) -> (r: (T1, T))
        ensures
            r == (self.0, item),
    {
        let (a,) = self;
        (a, item)
    }
}

impl<T1, T2, T> ExtendTuple<T> for (T1, T2) {
    type Output = (T1, T2, T);

    fn extend(self, item: T) -> (r: (T1, T2, T))
        ensures
            r == (self.0, self.1, item),
    {
        let (a, b) = self;
        (a, b, item)
    }
}

impl<T1, T2, T3, T> ExtendTuple<T> for (T1, T2, T3) {
    type Output = (T1, T2, T3, T);

    fn extend(self, item: T) -> (r: (T1, T2, T3, T))
        ensures
            r == (self.0, self.1, self.2, item),
    {
        let (a, b, c) = self;
        (a, b, c, item)
    }
}

impl<T1, T2, T3, T4, T> ExtendTuple<T> for (T1, T2, T3, T4) {
    type Output = (T1, T2, T3, T4, T);

    fn extend(self, item: T) -> (r: (T1, T2, T3, T4, T))
        ensures
            r == (self.0, self.1, self.2, self.3, item),
    {
        let (a, b, c, d) = self;
        (a, b, c, d, item)
    }
}

impl<T1, T2, T3, T4, T5, T> ExtendTuple<T> for (T1, T2, T3, T4, T5) {
    type Output = (T1, T2, T3, T4, T5, T);

    fn extend(self, item: T) -> (r: (T1, T2, T3, T4, T5, T))
        ensures
            r == (self.0, self.1, self.2, self.3, self.4, item),
    {
        let (a, b, c, d, e) = self;
        (a, b, c, d, e, item)
    }
}

impl<T1, T2, T3, T4, T5, T6, T> ExtendTuple<T> for (T1, T2, T3, T4, T5, T6) {
    type Output = (T1, T2, T3, T4, T5, T6, T);

    fn extend(self, item: T) -> (r: (T1, T2, T3, T4, T5, T6, T))
        ensures
            r == (self.0, self.1, self.2, self.3, self.4, self.5, item),
    {
        let (a, b, c, d, e, f) = self;
        (a, b, c, d, e, f, item)
    }
}

impl<T1, T2, T3, T4, T5, T6, T7, T> ExtendTuple<T> for (T1, T2, T3, T4, T5, T6, T7) {
    type Output = (T1, T2, T3, T4, T5, T6, T7, T);

    fn extend(self, item: T) -> (r: (T1, T2, T3, T4, T5, T6, T7, T))
        ensures
            r == (self.0, self.1, self.2, self.3, self.4, self.5, self.6, item),
    {
        let (a, b, c, d, e, f, g) = self;
        (a, b, c, d, e, f, g, item)
    }
}

impl<T1, T2, T3, T4, T5, T6, T7, T8, T> ExtendTuple<T> for (T1, T2, T3, T4, T5, T6, T7, T8) {
    type Output = (T1, T2, T3, T4, T5, T6, T7, T8, T);

    fn extend(self, item: T) -> (r: (T1, T2, T3, T4, T5, T6, T7, T8, T))
        ensures
            r == (self.0, self.1, self.2, self.3, self.4, self.5, self.6, self.7, item),
    {
        let (a, b, c, d, e, f, g, h) = self;
        (a, b, c, d, e, f, g, h, item)
    }
}

} // verus!
