use std::path::PathBuf;

use manifest::error::Error;
use manifest::location::Url;
use manifest::opt::{Level, Opt};
use manifest::svn::{push_paths, version_query, Svn};
use manifest::svnadmin::SvnAdmin;
use manifest::which::{located, which};

fn texts(lines: &[&str]) -> Vec<String> {
    lines.iter().map(|s| String::from(*s)).collect()
}

fn svn() -> Svn {
    Svn::new(PathBuf::from("/usr/bin/svn"), String::from("1.14.2\n"))
}

fn repo() -> Url {
    Url::parse("https://example.org/svn/proj").unwrap()
}

#[test]
fn svn_keeps_path_and_version() {
    let svn = svn();
    assert_eq!(svn.path(), &PathBuf::from("/usr/bin/svn"));
    assert_eq!(svn.version(), "1.14.2\n");
}

#[test]
fn svnadmin_keeps_path_and_version() {
    let admin = SvnAdmin::init(PathBuf::from("/usr/bin/svnadmin"), String::from("1.14.2"));
    assert_eq!(admin.path(), &PathBuf::from("/usr/bin/svnadmin"));
    assert_eq!(admin.version(), "1.14.2");
}

#[test]
fn version_query_is_quiet() {
    assert_eq!(version_query(), texts(&["--version", "--quiet"]));
}

#[test]
fn checkout_arguments_in_full() {
    assert_eq!(
        svn().checkout(true, Some(1234), &repo(), Some("work")),
        texts(&["checkout", "--quiet", "--revision", "1234", "https://example.org/svn/proj", "work"])
    );
}

#[test]
fn checkout_arguments_at_the_least() {
    assert_eq!(
        svn().checkout(false, None, &repo(), None),
        texts(&["checkout", "https://example.org/svn/proj"])
    );
}

#[test]
fn checkout_arguments_with_revision_zero() {
    assert_eq!(
        svn().checkout(false, Some(0), &repo(), None),
        texts(&["checkout", "--revision", "0", "https://example.org/svn/proj"])
    );
    assert_eq!(
        svn().checkout(true, None, &repo(), Some("")),
        texts(&["checkout", "--quiet", "https://example.org/svn/proj", ""])
    );
}

#[test]
fn add_arguments() {
    assert_eq!(svn().add(false, &texts(&["a.txt", "b c"])), texts(&["add", "a.txt", "b c"]));
    assert_eq!(svn().add(true, &texts(&["a.txt"])), texts(&["add", "--quiet", "a.txt"]));
    assert_eq!(svn().add(true, &Vec::new()), texts(&["add", "--quiet"]));
}

#[test]
fn commit_arguments() {
    assert_eq!(
        svn().commit(false, "new file", &Vec::new()),
        texts(&["commit", "-m", "new file"])
    );
    assert_eq!(
        svn().commit(true, "", &texts(&["a", "b"])),
        texts(&["commit", "--quiet", "-m", "", "a", "b"])
    );
}

#[test]
fn create_arguments() {
    let admin = SvnAdmin::init(PathBuf::from("svnadmin"), String::new());
    assert_eq!(admin.create("/tmp/repo"), texts(&["create", "/tmp/repo"]));
}

#[test]
fn push_paths_appends_all_in_order() {
    let mut args = texts(&["add"]);
    push_paths(&mut args, &texts(&["x", "y"]));
    push_paths(&mut args, &Vec::new());
    assert_eq!(args, texts(&["add", "x", "y"]));
}

#[test]
fn verbosity_is_one_less_than_the_level() {
    let at = |log_level: Level| Opt { quiet: false, log_level }.verbosity();
    assert_eq!(at(Level::Error), 0);
    assert_eq!(at(Level::Warn), 1);
    assert_eq!(at(Level::Info), 2);
    assert_eq!(at(Level::Debug), 3);
    assert_eq!(at(Level::Trace), 4);
    assert_eq!(Level::default(), Level::Info);
}

#[test]
fn located_hands_on_the_path_or_names_the_command() {
    assert_eq!(located("svn", Ok(PathBuf::from("/usr/bin/svn"))), Ok(PathBuf::from("/usr/bin/svn")));
    assert_eq!(
        located("svn", Err(String::from("cannot find binary path"))),
        Err(Error::WhichError(String::from("svn"), String::from("cannot find binary path")))
    );
}

#[test]
fn which_does_not_find_what_is_not_there() {
    let name = "no-such-command-as-this-one";
    assert_eq!(
        which(name),
        Err(Error::WhichError(String::from(name), String::from("cannot find binary path")))
    );
}

#[test]
fn which_finds_the_shell() {
    let found = which("sh").unwrap();
    assert!(found.is_absolute());
    assert_eq!(found.file_name().unwrap(), "sh");
}
