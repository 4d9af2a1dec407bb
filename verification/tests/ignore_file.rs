use manifest::error::Error;
use manifest::file::PathGitIgnore;
use manifest::gitignore::{GitIgnore, SubPaths};

fn texts(lines: &[&str]) -> Vec<String> {
    lines.iter().map(|s| String::from(*s)).collect()
}

fn sub(dir: &str, paths: &[&str]) -> SubPaths {
    SubPaths(String::from(dir), texts(paths))
}

#[test]
fn empty_rules_give_no_lines() {
    let ignore = GitIgnore::new(Vec::new());
    assert_eq!(ignore.lines(), Vec::<String>::new());
    assert_eq!(ignore.to_file("./", true), Ok(String::new()));
}

#[test]
fn new_rules_hold_the_global_lines_only() {
    let ignore = GitIgnore::new(texts(&["*.o", "target/"]));
    assert_eq!(ignore.exclude_all, texts(&["*.o", "target/"]));
    assert!(ignore.exclude_paths.is_empty());
    assert!(ignore.include_paths.is_empty());
    assert_eq!(ignore.lines(), texts(&["*.o", "target/"]));
}

#[test]
fn record_adds_one_entry_of_either_sort() {
    let mut ignore = GitIgnore::new(texts(&["*.o"]));
    let fragment = PathGitIgnore { exclude: texts(&["build"]), includes: texts(&["build/keep.txt"]) };
    ignore.record("proj", &fragment);
    assert_eq!(ignore.exclude_all, texts(&["*.o"]));
    assert_eq!(ignore.exclude_paths, vec![sub("proj", &["build"])]);
    assert_eq!(ignore.include_paths, vec![sub("proj", &["build/keep.txt"])]);
    ignore.record("other", &PathGitIgnore::default());
    assert_eq!(ignore.exclude_paths, vec![sub("proj", &["build"]), sub("other", &[])]);
    assert_eq!(ignore.include_paths, vec![sub("proj", &["build/keep.txt"]), sub("other", &[])]);
}

#[test]
fn exclude_build_keep_one_file() {
    let mut ignore = GitIgnore::new(Vec::new());
    let fragment = PathGitIgnore { exclude: texts(&["build"]), includes: texts(&["build/keep.txt"]) };
    ignore.record("proj", &fragment);
    assert_eq!(ignore.lines(), texts(&["/proj/build", "/proj/*", "!/proj/build/keep.txt"]));
}

#[test]
fn lines_come_in_three_sections() {
    let ignore = GitIgnore {
        exclude_all: texts(&["*.o", "!keep.o"]),
        exclude_paths: vec![sub("a", &["x", "y"]), sub("b", &[]), sub("c", &["z"])],
        include_paths: vec![sub("a", &["p"]), sub("b", &[]), sub("c", &["q", "r"])],
    };
    assert_eq!(
        ignore.lines(),
        texts(&[
            "*.o", "!keep.o", "/a/x", "/a/y", "/c/z", "/a/*", "!/a/p", "/b/*", "/c/*", "!/c/q",
            "!/c/r",
        ])
    );
}

#[test]
fn blanket_line_comes_before_its_exceptions_and_after_the_global_lines() {
    let ignore = GitIgnore {
        exclude_all: texts(&["*.o", "*.a"]),
        exclude_paths: vec![sub("d", &["tmp"])],
        include_paths: vec![sub("e", &["one"]), sub("d", &["two", "three"])],
    };
    let lines = ignore.lines();
    let at = |line: &str| lines.iter().position(|l| l == line).unwrap();
    assert!(at("*.o") < at("/d/*"));
    assert!(at("*.a") < at("/d/*"));
    assert!(at("/d/tmp") < at("/d/*"));
    assert!(at("/d/*") < at("!/d/two"));
    assert!(at("/d/*") < at("!/d/three"));
    assert_eq!(at("/d/*") + 1, at("!/d/two"));
    assert_eq!(at("/d/*") + 2, at("!/d/three"));
    assert!(at("/e/*") < at("!/e/one"));
    assert_eq!(at("/d/*"), 2 + 1 + 2);
}

#[test]
fn empty_directory_and_pattern_are_written_as_they_are() {
    let ignore = GitIgnore {
        exclude_all: texts(&[""]),
        exclude_paths: vec![sub("", &[""])],
        include_paths: vec![sub("", &[""])],
    };
    assert_eq!(ignore.lines(), texts(&["", "//", "//*", "!//"]));
}

#[test]
fn file_text_ends_each_line_with_a_line_feed() {
    let mut ignore = GitIgnore::new(texts(&["*.o"]));
    let fragment = PathGitIgnore { exclude: texts(&["build"]), includes: texts(&["build/keep.txt"]) };
    ignore.record("proj", &fragment);
    assert_eq!(
        ignore.to_file("./", true),
        Ok(String::from("*.o\n/proj/build\n/proj/*\n!/proj/build/keep.txt\n"))
    );
}

#[test]
fn missing_directory_is_a_path_error() {
    let ignore = GitIgnore::new(texts(&["*.o"]));
    assert_eq!(
        ignore.to_file("./nowhere", false),
        Err(Error::PathError(String::from(".gitignore path is not a directory: ./nowhere")))
    );
}
