//! The tool's processes that record: what it takes to start one, and what is
//! read out of its diagnostics.

use crate::text::{contains, has_infix};
use vstd::prelude::*;

verus! {

/// What it takes to start the tool as a process of its own: the program, its
/// arguments, and the file it writes.
#[derive(Debug, Clone)]
pub struct RecordingLaunch {
    pub program: String,
    pub args: Vec<String>,
    pub output_path: String,
}

/// Whether a diagnostic line of the tool tells of an error.
pub open spec fn tells_of_error(line: Seq<char>) -> bool {
    has_infix(line, "error"@) || has_infix(line, "Error"@) || has_infix(line, "ERROR"@)
}

/// Whether a diagnostic line of the tool tells of an error, and so is to be
/// logged.
pub fn is_error_line(line: &str) -> (r: bool)
    ensures
        r == tells_of_error(line@),
{
    contains(line, "error") || contains(line, "Error") || contains(line, "ERROR")
}

} // verus!
