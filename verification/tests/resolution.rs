use manifest::error::{Error, ErrorKind};
use manifest::file::{PathGitIgnore, SvnGroup, SvnItem};
use manifest::location::{resolve_url, Url};
use manifest::resolve::{directory_name, effective_revision, resolve_item, ResolvedItem};

fn segments(parts: &[&str]) -> Option<Vec<String>> {
    Some(parts.iter().map(|s| String::from(*s)).collect())
}

fn url(text: &str) -> Url {
    Url::parse(text).unwrap()
}

fn item(url: &str) -> SvnItem {
    SvnItem::new(String::from(url))
}

fn kind_of<T: std::fmt::Debug>(outcome: Result<T, Error>) -> ErrorKind {
    outcome.unwrap_err().kind()
}

#[test]
fn parse_reads_text_base_and_segments() {
    assert_eq!(
        Url::parse("https://example.org/svn/proj"),
        Ok(Url {
            text: String::from("https://example.org/svn/proj"),
            cannot_be_a_base: false,
            path_segments: segments(&["svn", "proj"]),
        })
    );
}

#[test]
fn parse_writes_the_url_in_its_normal_form() {
    let parsed = url("HTTPS://Example.ORG/a/../b c");
    assert_eq!(parsed.text, "https://example.org/b%20c");
    assert_eq!(parsed.path_segments, segments(&["b%20c"]));
    assert_eq!(url("https://example.org").text, "https://example.org/");
    assert_eq!(url("https://example.org").path_segments, segments(&[""]));
}

#[test]
fn parse_tells_what_cannot_be_a_base() {
    let mail = url("mailto:someone@example.org");
    assert!(mail.cannot_be_a_base);
    assert_eq!(mail.path_segments, None);
    assert_eq!(mail.text, "mailto:someone@example.org");
    assert!(url("data:text/plain,Stuff").cannot_be_a_base);
    assert!(!url("unix:/run/foo.socket").cannot_be_a_base);
    assert!(!url("file:///srv/repo").cannot_be_a_base);
}

#[test]
fn parse_refuses_what_is_not_absolute() {
    assert_eq!(
        Url::parse("proj"),
        Err(Error::UrlParseError(String::from("relative URL without a base")))
    );
    assert_eq!(
        Url::parse(""),
        Err(Error::UrlParseError(String::from("relative URL without a base")))
    );
    assert_eq!(Url::parse("https://"), Err(Error::UrlParseError(String::from("empty host"))));
    assert_eq!(
        Url::parse("https://example.org:99999/"),
        Err(Error::UrlParseError(String::from("invalid port number")))
    );
}

#[test]
fn without_base_an_absolute_fragment_is_the_url() {
    assert_eq!(resolve_url(&None, "https://example.org/svn/proj"), Ok(url("https://example.org/svn/proj")));
}

#[test]
fn without_base_a_relative_fragment_fails() {
    for fragment in ["proj", "/svn/proj", "../proj", "//example.org/proj", ""] {
        let outcome = resolve_url(&None, fragment);
        assert_eq!(
            outcome,
            Err(Error::UrlParseError(String::from("relative URL without a base")))
        );
        assert_eq!(kind_of(outcome), ErrorKind::UrlError);
    }
}

#[test]
fn base_that_cannot_be_a_base_fails_whatever_the_fragment() {
    let base = Some(url("mailto:someone@example.org"));
    for fragment in ["proj", "", "https://example.org/svn/proj", "/x"] {
        let outcome = resolve_url(&base, fragment);
        assert_eq!(
            outcome,
            Err(Error::UrlError(String::from(
                "url_base is not a URL base: mailto:someone@example.org"
            )))
        );
        assert_eq!(kind_of(outcome), ErrorKind::UrlError);
    }
}

#[test]
fn fragment_is_joined_onto_the_base() {
    let base = Some(url("https://example.org/svn/"));
    assert_eq!(resolve_url(&base, "proj").unwrap().text, "https://example.org/svn/proj");
    assert_eq!(resolve_url(&base, "a/b").unwrap().text, "https://example.org/svn/a/b");
    assert_eq!(resolve_url(&base, "/top").unwrap().text, "https://example.org/top");
    assert_eq!(resolve_url(&base, "").unwrap().text, "https://example.org/svn/");
    assert_eq!(resolve_url(&base, "proj").unwrap().path_segments, segments(&["svn", "proj"]));
}

#[test]
fn base_without_trailing_slash_loses_its_last_segment() {
    let base = Some(url("https://example.org/svn/trunk"));
    assert_eq!(resolve_url(&base, "proj").unwrap().text, "https://example.org/svn/proj");
}

#[test]
fn absolute_fragment_overrides_the_base() {
    let base = Some(url("https://example.org/svn/"));
    assert_eq!(
        resolve_url(&base, "http://other.example/repo").unwrap().text,
        "http://other.example/repo"
    );
    assert_eq!(resolve_url(&base, "//eve.example/b").unwrap().text, "https://eve.example/b");
}

#[test]
fn join_failure_is_a_url_parse_error() {
    let base = Some(url("https://example.org/svn/"));
    let outcome = resolve_url(&base, "https://example.org:99999/");
    assert_eq!(outcome, Err(Error::UrlParseError(String::from("invalid port number"))));
}

#[test]
fn base_whose_text_is_no_url_fails_the_join() {
    let base = Some(Url {
        text: String::from("not a url"),
        cannot_be_a_base: false,
        path_segments: None,
    });
    assert_eq!(
        resolve_url(&base, "proj"),
        Err(Error::UrlParseError(String::from("relative URL without a base")))
    );
}

#[test]
fn directory_is_the_last_segment() {
    assert_eq!(directory_name(&url("https://example.org/svn/proj"), &None), Ok(String::from("proj")));
    assert_eq!(directory_name(&url("https://example.org/proj"), &None), Ok(String::from("proj")));
    assert_eq!(
        directory_name(&url("https://example.org/a/b/c.d?x=1#frag"), &None),
        Ok(String::from("c.d"))
    );
}

#[test]
fn directory_inference_gives_the_same_name_twice() {
    let base = Some(url("https://example.org/svn/"));
    let first = directory_name(&resolve_url(&base, "proj").unwrap(), &None);
    let second = directory_name(&resolve_url(&base, "proj").unwrap(), &None);
    assert_eq!(first, Ok(String::from("proj")));
    assert_eq!(first, second);
    let group = SvnGroup { rev: None, url_base: base, items: Vec::new() };
    assert_eq!(resolve_item(&group, &item("proj")), resolve_item(&group, &item("proj")));
}

#[test]
fn url_ending_in_a_slash_has_no_directory() {
    for text in ["https://example.org/svn/proj/", "https://example.org/", "https://example.org"] {
        let parsed = url(text);
        let outcome = directory_name(&parsed, &None);
        assert_eq!(
            outcome,
            Err(Error::UrlError(format!("URL missing a path: {}", parsed.text)))
        );
        assert_eq!(kind_of(outcome), ErrorKind::UrlError);
    }
}

#[test]
fn url_without_segments_has_no_directory() {
    let outcome = directory_name(&url("mailto:someone@example.org"), &None);
    assert_eq!(
        outcome,
        Err(Error::UrlError(String::from("URL has no path: mailto:someone@example.org")))
    );
    let bare = Url { text: String::from("x:"), cannot_be_a_base: false, path_segments: segments(&[]) };
    assert_eq!(
        directory_name(&bare, &None),
        Err(Error::UrlError(String::from("URL has no path: x:")))
    );
}

#[test]
fn destination_overrides_inference() {
    let dest = Some(b"work/copy".to_vec());
    assert_eq!(
        directory_name(&url("https://example.org/svn/proj"), &dest),
        Ok(String::from("work/copy"))
    );
    assert_eq!(directory_name(&url("https://example.org/svn/"), &dest), Ok(String::from("work/copy")));
    assert_eq!(
        directory_name(&url("mailto:someone@example.org"), &dest),
        Ok(String::from("work/copy"))
    );
    assert_eq!(
        directory_name(&url("https://example.org/svn/proj"), &Some(Vec::new())),
        Ok(String::new())
    );
}

#[test]
fn destination_in_utf8_is_decoded() {
    let dest = Some("dépôt/日本".as_bytes().to_vec());
    assert_eq!(
        directory_name(&url("https://example.org/svn/proj"), &dest),
        Ok(String::from("dépôt/日本"))
    );
}

#[test]
fn destination_that_is_not_text_is_a_path_error() {
    for bytes in [vec![0xffu8, 0xfe], vec![b'a', 0x80], vec![0xc3], vec![0xed, 0xa0, 0x80]] {
        let outcome = directory_name(&url("https://example.org/svn/proj"), &Some(bytes));
        assert_eq!(
            outcome,
            Err(Error::PathError(String::from(
                "Path is not valid UTF-8: https://example.org/svn/proj"
            )))
        );
        assert_eq!(kind_of(outcome), ErrorKind::PathError);
    }
}

#[test]
fn item_revision_goes_before_the_group_revision() {
    assert_eq!(effective_revision(Some(9), Some(5)), Some(9));
    assert_eq!(effective_revision(Some(9), None), Some(9));
    assert_eq!(effective_revision(None, Some(5)), Some(5));
    assert_eq!(effective_revision(None, None), None);
    assert_eq!(effective_revision(Some(0), Some(5)), Some(0));
}

#[test]
fn item_resolves_to_url_revision_and_directory() {
    let group = SvnGroup {
        rev: Some(5),
        url_base: Some(url("https://example.org/svn/")),
        items: Vec::new(),
    };
    assert_eq!(
        resolve_item(&group, &item("proj")),
        Ok(ResolvedItem {
            url: url("https://example.org/svn/proj"),
            rev: Some(5),
            dir: String::from("proj"),
        })
    );
    let own = SvnItem {
        url: String::from("lib/trunk"),
        rev: Some(9),
        path: Some(b"vendor/lib".to_vec()),
        gitignore: Some(PathGitIgnore::default()),
    };
    assert_eq!(
        resolve_item(&group, &own),
        Ok(ResolvedItem {
            url: url("https://example.org/svn/lib/trunk"),
            rev: Some(9),
            dir: String::from("vendor/lib"),
        })
    );
}

#[test]
fn url_failure_comes_before_directory_failure() {
    let group = SvnGroup { rev: None, url_base: None, items: Vec::new() };
    let broken = SvnItem {
        url: String::from("proj"),
        rev: None,
        path: Some(vec![0xff]),
        gitignore: None,
    };
    assert_eq!(
        resolve_item(&group, &broken),
        Err(Error::UrlParseError(String::from("relative URL without a base")))
    );
    let no_text = SvnItem {
        url: String::from("https://example.org/svn/proj"),
        rev: None,
        path: Some(vec![0xff]),
        gitignore: None,
    };
    assert_eq!(
        resolve_item(&group, &no_text),
        Err(Error::PathError(String::from(
            "Path is not valid UTF-8: https://example.org/svn/proj"
        )))
    );
}

#[test]
fn new_item_has_nothing_but_its_url() {
    let fresh = item("https://example.org/svn/proj");
    assert_eq!(fresh.url, "https://example.org/svn/proj");
    assert_eq!(fresh.rev, None);
    assert_eq!(fresh.path, None);
    assert_eq!(fresh.gitignore, None);
    let fragment = PathGitIgnore::default();
    assert!(fragment.exclude.is_empty());
    assert!(fragment.includes.is_empty());
}
