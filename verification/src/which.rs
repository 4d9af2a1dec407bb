//! Finding the executables of the external tools.

use std::path::PathBuf;
use vstd::prelude::*;
use crate::error::{Error, ErrorView};

verus! {

#[verifier::external_type_specification]
#[verifier::external_body]
pub struct ExPathBuf(std::path::PathBuf);

/// Calls `which::which`, which looks for an executable named `name` in the
/// directories of the search path, and hands on the path that it found or
/// the words in which its error describes itself (the error's `Display`).
/// What it finds depends on the machine, so nothing is claimed of it.
#[verifier::external_body]
fn find_executable(name: &str) -> (found: Result<PathBuf, String>) {
    match ::which::which(name) {
        Ok(path) => Ok(path),
        Err(e) => Err(e.to_string()),
    }
}

/// What a search for the executable `name` comes to, given what the
/// search found or the reason why it found nothing: the path, or the error
/// that names the executable and the reason.
pub fn located(name: &str, found: Result<PathBuf, String>) -> (path: Result<PathBuf, Error>)
    ensures
        match found {
            Ok(p) => path == Ok::<PathBuf, Error>(p),
            Err(reason) => path matches Err(e) && e@ == ErrorView::WhichError(name@, reason@),
        },
{
    match found {
        Ok(p) => Ok(p),
        Err(reason) => Err(Error::WhichError(String::from_str(name), reason)),
    }
}

/// Looks for the executable `name` on the search path. Whether it is found
/// depends on the machine; where it is not, the error names it.
pub fn which(name: &str) -> (path: Result<PathBuf, Error>)
    ensures
        path matches Err(e) ==> e@ matches ErrorView::WhichError(n, _) && n == name@,
{
    located(name, find_executable(name))
}

} // verus!
