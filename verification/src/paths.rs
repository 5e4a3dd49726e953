//! File paths, as `std::path` has them on the platform for which the program is built.

use std::path::PathBuf;

use vstd::prelude::*;

verus! {

/// `std::path::PathBuf`, a path of the platform, which need not be text.
#[verifier::external_type_specification]
#[verifier::external_body]
pub struct ExPathBuf(std::path::PathBuf);

/// The path that `Path::join` gives for a path and a part that is put below it.
pub uninterp spec fn joined(base: std::path::PathBuf, part: Seq<char>) -> std::path::PathBuf;

/// The text that `Path::display` shows for a path.
pub uninterp spec fn path_text(path: std::path::PathBuf) -> Seq<char>;

/// Calls `std::path::Path::join`, whose result depends on the path and the part alone.
#[verifier::external_body]
pub(crate) fn join(base: &PathBuf, part: &str) -> (path: PathBuf)
    ensures
        path == joined(*base, part@),
{
    base.join(part)
}

/// Calls `std::path::Path::display` and gives what it shows as a string.
#[verifier::external_body]
pub(crate) fn display(path: &PathBuf) -> (text: String)
    ensures
        text@ == path_text(*path),
{
    path.display().to_string()
}

} // verus!
