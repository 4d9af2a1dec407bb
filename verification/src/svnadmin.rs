//! The command lines of the Subversion administration tool.

use std::path::PathBuf;
use vstd::prelude::*;
use crate::text::push_line;

verus! {

/// The Subversion administration tool as it was found on this machine.
#[derive(Debug)]
pub struct SvnAdmin {
    path: PathBuf,
    version: String,
}

/// An [`SvnAdmin`] as a plain value.
pub struct SvnAdminView {
    pub path: PathBuf,
    pub version: Seq<char>,
}

impl View for SvnAdmin {
    type V = SvnAdminView;

    closed spec fn view(&self) -> SvnAdminView {
        SvnAdminView { path: self.path, version: self.version@ }
    }
}

/// The arguments of `svnadmin create` for a repository at `path`.
pub open spec fn create_args(path: Seq<char>) -> Seq<Seq<char>> {
    seq!["create"@, path]
}

impl SvnAdmin {
    /// The tool at `path`, which gave `version` as its version.
    pub fn init(path: PathBuf, version: String) -> (svnadmin: SvnAdmin)
        ensures
            svnadmin@ == (SvnAdminView { path, version: version@ }),
    {
        SvnAdmin { path, version }
    }

    /// Where the executable of the tool lies.
    pub fn path(&self) -> (path: &PathBuf)
        ensures
            *path == self@.path,
    {
        &self.path
    }

    /// The version that the tool gave of itself.
    pub fn version(&self) -> (version: &str)
        ensures
            version@ == self@.version,
    {
        self.version.as_str()
    }

    /// The arguments with which the tool creates a repository at `path`.
    pub fn create(&self, path: &str) -> (args: Vec<String>)
        ensures
            args.deep_view() == create_args(path@),
    {
        let mut args: Vec<String> = Vec::new();
        push_line(&mut args, String::from_str("create"));
        push_line(&mut args, String::from_str(path));
        assert(args.deep_view() =~= create_args(path@));
        args
    }
}

} // verus!
