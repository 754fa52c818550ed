//! The decisions of a formatting session over a stream of lines: which
//! scheme to run with, and what to do with each line read.

use vstd::prelude::*;

use crate::palette::{lookup, scheme_named};
use crate::render::{formatted, FormatService};

verus! {

/// What the session asks its driver to do next.
#[derive(Clone, Debug)]
pub enum Action {
    /// Write this text as one output line.
    Print(String),
    /// Stop, with this exit status.
    Exit(i32),
}

/// The session for the scheme named `name`: a formatter for it, or exit
/// status 1, before any line is read, where no scheme has that name.
pub fn open_session(name: &str) -> (r: Result<FormatService, i32>)
    ensures
        match scheme_named(name@) {
            Some(p) => r == Ok::<FormatService, i32>(FormatService { colors: p }),
            None => r == Err::<FormatService, i32>(1),
        },
{
    match lookup(name) {
        Some(colors) => Ok(FormatService { colors }),
        None => Err(1),
    }
}

impl FormatService {
    /// The step after a read: `None` stands for the end of the input, or a
    /// failed read, and ends the session with status 0; each line read is
    /// formatted and printed, and the session goes on.
    pub fn next_action(&self, read: Option<&str>) -> (r: Action)
        ensures
            match read {
                None => r matches Action::Exit(c) && c == 0,
                Some(line) => r matches Action::Print(s) && s@ == formatted(self.colors, line@),
            },
    {
        match read {
            None => Action::Exit(0),
            Some(line) => Action::Print(self.format_input(line)),
        }
    }
}

} // verus!
