//! The command lines of the Subversion client.

use std::path::PathBuf;
use vstd::prelude::*;
use crate::location::Url;
use crate::text::{decimal, push_line, to_decimal};

verus! {

/// The Subversion client as it was found on this machine.
#[derive(Debug)]
pub struct Svn {
    path: PathBuf,
    version: String,
}

/// An [`Svn`] as a plain value.
pub struct SvnView {
    pub path: PathBuf,
    pub version: Seq<char>,
}

impl View for Svn {
    type V = SvnView;

    closed spec fn view(&self) -> SvnView {
        SvnView { path: self.path, version: self.version@ }
    }
}

/// The arguments with which a tool prints its version and nothing else.
pub open spec fn version_args() -> Seq<Seq<char>> {
    seq!["--version"@, "--quiet"@]
}

/// The argument `--quiet` where `quiet` holds, else nothing.
pub open spec fn quiet_args(quiet: bool) -> Seq<Seq<char>> {
    if quiet {
        seq!["--quiet"@]
    } else {
        Seq::empty()
    }
}

/// The arguments of `svn add` for `paths`.
pub open spec fn add_args(quiet: bool, paths: Seq<Seq<char>>) -> Seq<Seq<char>> {
    seq!["add"@] + quiet_args(quiet) + paths
}

/// The arguments of `svn checkout`: the revision, where there is one, as
/// `--revision` and its decimal numeral; then the URL; then the directory,
/// where there is one.
pub open spec fn checkout_args(
    quiet: bool,
    rev: Option<usize>,
    url: Seq<char>,
    path: Option<Seq<char>>,
) -> Seq<Seq<char>> {
    seq!["checkout"@] + quiet_args(quiet) + (match rev {
        Some(r) => seq!["--revision"@, decimal(r as nat)],
        None => Seq::empty(),
    }) + seq![url] + (match path {
        Some(p) => seq![p],
        None => Seq::empty(),
    })
}

/// The arguments of `svn commit` for `paths` with the message `msg`.
pub open spec fn commit_args(quiet: bool, msg: Seq<char>, paths: Seq<Seq<char>>) -> Seq<
    Seq<char>,
> {
    seq!["commit"@] + quiet_args(quiet) + seq!["-m"@, msg] + paths
}

/// Appends a copy of each of `paths` to `args`.
pub fn push_paths(args: &mut Vec<String>, paths: &Vec<String>)
    ensures
        final(args).deep_view() == old(args).deep_view() + paths.deep_view(),
{
    let mut i: usize = 0;
    while i < paths.len()
        invariant
            i <= paths.len(),
            args.deep_view() == old(args).deep_view() + paths.deep_view().take(i as int),
        decreases paths.len() - i,
    {
        push_line(args, paths[i].clone());
        assert(paths.deep_view().take(i + 1) =~= paths.deep_view().take(i as int).push(
            paths[i as int]@,
        ));
        i += 1;
    }
    assert(paths.deep_view().take(i as int) =~= paths.deep_view());
}

/// The arguments with which a tool prints its version and nothing else.
pub fn version_query() -> (args: Vec<String>)
    ensures
        args.deep_view() == version_args(),
{
    let mut args: Vec<String> = Vec::new();
    push_line(&mut args, String::from_str("--version"));
    push_line(&mut args, String::from_str("--quiet"));
    assert(args.deep_view() =~= version_args());
    args
}

impl Svn {
    /// The client at `path`, which gave `version` as its version.
    pub fn new(path: PathBuf, version: String) -> (svn: Svn)
        ensures
            svn@ == (SvnView { path, version: version@ }),
    {
        Svn { path, version }
    }

    /// Where the executable of the client lies.
    pub fn path(&self) -> (path: &PathBuf)
        ensures
            *path == self@.path,
    {
        &self.path
    }

    /// The version that the client gave of itself.
    pub fn version(&self) -> (version: &str)
        ensures
            version@ == self@.version,
    {
        self.version.as_str()
    }

    /// The arguments with which the client puts `paths` under version
    /// control.
    pub fn add(&self, quiet: bool, paths: &Vec<String>) -> (args: Vec<String>)
        ensures
            args.deep_view() == add_args(quiet, paths.deep_view()),
    {
        let mut args: Vec<String> = Vec::new();
        push_line(&mut args, String::from_str("add"));
        if quiet {
            push_line(&mut args, String::from_str("--quiet"));
        }
        assert(args.deep_view() =~= seq!["add"@] + quiet_args(quiet));
        push_paths(&mut args, paths);
        args
    }

    /// The arguments with which the client checks out `url`, at `rev` where
    /// one is given and else at the newest revision, to `path` where one is
    /// given and else to a directory of its own choice.
    pub fn checkout(&self, quiet: bool, rev: Option<usize>, url: &Url, path: Option<&str>) -> (args:
        Vec<String>)
        ensures
            args.deep_view() == checkout_args(quiet, rev, url@.text, path.deep_view()),
    {
        let mut args: Vec<String> = Vec::new();
        push_line(&mut args, String::from_str("checkout"));
        if quiet {
            push_line(&mut args, String::from_str("--quiet"));
        }
        assert(args.deep_view() =~= seq!["checkout"@] + quiet_args(quiet));
        match rev {
            Some(r) => {
                push_line(&mut args, String::from_str("--revision"));
                push_line(&mut args, to_decimal(r));
            },
            None => {},
        }
        push_line(&mut args, url.text.clone());
        match path {
            Some(p) => {
                push_line(&mut args, String::from_str(p));
            },
            None => {},
        }
        assert(args.deep_view() =~= checkout_args(quiet, rev, url@.text, path.deep_view()));
        args
    }

    /// The arguments with which the client commits `paths` with the message
    /// `msg`.
    pub fn commit(&self, quiet: bool, msg: &str, paths: &Vec<String>) -> (args: Vec<String>)
        ensures
            args.deep_view() == commit_args(quiet, msg@, paths.deep_view()),
    {
        let mut args: Vec<String> = Vec::new();
        push_line(&mut args, String::from_str("commit"));
        if quiet {
            push_line(&mut args, String::from_str("--quiet"));
        }
        push_line(&mut args, String::from_str("-m"));
        push_line(&mut args, String::from_str(msg));
        assert(args.deep_view() =~= seq!["commit"@] + quiet_args(quiet) + seq!["-m"@, msg@]);
        push_paths(&mut args, paths);
        args
    }
}

} // verus!
