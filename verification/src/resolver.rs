//! Where the backend might live: the ordered list of directories to try.

use crate::paths::{parent, spec_parent, spec_under, under};
use vstd::prelude::*;
use vstd::string::*;

verus! {

/// The working directory as a path: the empty path when it is unknown.
pub open spec fn spec_working_directory(working_dir: Option<Seq<char>>) -> Seq<char> {
    match working_dir {
        Some(dir) => dir,
        None => Seq::<char>::empty(),
    }
}

/// The directory from which the packaged layouts are derived: the one that
/// holds the executable, or the working directory when the executable's
/// location is unknown or has no parent.
pub open spec fn spec_base_directory(executable: Option<Seq<char>>, working_dir: Seq<char>) -> Seq<
    char,
> {
    match executable {
        Some(location) => match spec_parent(location) {
            Some(dir) => dir,
            None => working_dir,
        },
        None => working_dir,
    }
}

/// The candidate directories for a given base and working directory, in the
/// order in which they are tried: next to the executable, one and two levels
/// above it, the project layout below it, the project layout relative to the
/// working directory, and the same made absolute.
pub open spec fn spec_resolve(base: Seq<char>, working_dir: Seq<char>) -> Seq<Seq<char>> {
    seq![
        spec_under(base, "backend"@),
        spec_under(base, "../backend"@),
        spec_under(base, "../../backend"@),
        spec_under(base, "src-tauri/backend"@),
        "src-tauri/backend"@,
        spec_under(working_dir, "src-tauri/backend"@),
    ]
}

/// The working directory as a path. Never fails: an unknown working
/// directory is the empty path, below which every relative path stays as it
/// is.
pub fn working_directory(working_dir: &Option<String>) -> (dir: String)
    ensures
        dir@ == spec_working_directory(working_dir.deep_view()),
{
    match working_dir {
        Some(dir) => dir.clone(),
        None => String::new(),
    }
}

/// Picks the base directory. Never fails: without a usable executable
/// location the working directory is the base.
pub fn base_directory(executable: &Option<String>, working_dir: &str) -> (base: String)
    ensures
        base@ == spec_base_directory(executable.deep_view(), working_dir@),
{
    match executable {
        Some(location) => {
            match parent(location.as_str()) {
                Some(dir) => dir,
                None => String::from_str(working_dir),
            }
        },
        None => String::from_str(working_dir),
    }
}

/// Lists the candidate directories, first choice first. The list depends on
/// the two arguments alone and is never empty.
pub fn resolve(base: &str, working_dir: &str) -> (candidates: Vec<String>)
    ensures
        candidates.deep_view() == spec_resolve(base@, working_dir@),
        candidates@.len() == 6,
{
    let mut candidates: Vec<String> = Vec::new();
    candidates.push(under(base, "backend"));
    candidates.push(under(base, "../backend"));
    candidates.push(under(base, "../../backend"));
    candidates.push(under(base, "src-tauri/backend"));
    candidates.push(String::from_str("src-tauri/backend"));
    candidates.push(under(working_dir, "src-tauri/backend"));
    candidates
}

} // verus!
