//! Absolute URLs, as far as a run reads them.
//!
//! Parsing and joining are the work of the `url` crate. What it finds is
//! kept here as plain values, so that the rules built on it can be stated
//! and proved.

use vstd::prelude::*;
use crate::error::{fails_with, viewed, Error, ErrorKind, ErrorView};
use crate::text::prefixed;

verus! {

/// An absolute URL in the three readings that a run takes of it.
///
/// [`Url::parse`] and [`resolve_url`] give the readings that belong
/// together. A value that is written out by hand is taken as it stands:
/// nothing is asked of it, and every function here has an answer for it.
#[derive(Clone, Debug, PartialEq, Eq)]
pub struct Url {
    /// The URL written out in full.
    pub text: String,
    /// Whether nothing relative can be resolved against this URL, as with
    /// `mailto:` and `data:` URLs.
    pub cannot_be_a_base: bool,
    /// The segments of the path, in order, where the path is made of
    /// segments at all.
    pub path_segments: Option<Vec<String>>,
}

/// A [`Url`] with its texts as sequences of characters.
pub struct UrlView {
    pub text: Seq<char>,
    pub cannot_be_a_base: bool,
    pub path_segments: Option<Seq<Seq<char>>>,
}

impl View for Url {
    type V = UrlView;

    open spec fn view(&self) -> UrlView {
        UrlView {
            text: self.text@,
            cannot_be_a_base: self.cannot_be_a_base,
            path_segments: self.path_segments.deep_view(),
        }
    }
}

impl DeepView for Url {
    type V = UrlView;

    open spec fn deep_view(&self) -> UrlView {
        self@
    }
}

/// What `url::Url::parse` makes of `input`: the URL that it reads there, or
/// the reason for which it refuses the text, in the words of its error.
pub uninterp spec fn url_parse(input: Seq<char>) -> Result<UrlView, Seq<char>>;

/// What `url::Url::join` makes of `input` on the URL that `url::Url::parse`
/// reads in `base`: the joined URL, or the reason for which the first of the
/// two to fail refuses, in the words of its error.
pub uninterp spec fn url_join(base: Seq<char>, input: Seq<char>) -> Result<UrlView, Seq<char>>;

/// Calls `url::Url::parse` on `input`. A URL that comes back is read
/// through `String::from` (its serialization), `cannot_be_a_base` and
/// `path_segments`; an error is read through its `Display`. The contract
/// claims only that these readings depend on `input` alone.
#[verifier::external_body]
fn parse_url(input: &str) -> (parsed: Result<Url, String>)
    ensures
        url_parse(input@) == match parsed {
            Ok(url) => Ok::<UrlView, Seq<char>>(url@),
            Err(reason) => Err::<UrlView, Seq<char>>(reason@),
        },
{
    let url = match ::url::Url::parse(input) {
        Ok(url) => url,
        Err(e) => return Err(e.to_string()),
    };
    let cannot_be_a_base = url.cannot_be_a_base();
    let path_segments = url.path_segments().map(|segments| segments.map(String::from).collect());
    Ok(Url { text: String::from(url), cannot_be_a_base, path_segments })
}

/// Calls `url::Url::join` with `input` on the URL that `url::Url::parse`
/// reads in `base`, and reads the outcome as `parse_url` does. The contract
/// claims only that the outcome depends on the two texts alone.
#[verifier::external_body]
fn join_url(base: &str, input: &str) -> (joined: Result<Url, String>)
    ensures
        url_join(base@, input@) == match joined {
            Ok(url) => Ok::<UrlView, Seq<char>>(url@),
            Err(reason) => Err::<UrlView, Seq<char>>(reason@),
        },
{
    let base = match ::url::Url::parse(base) {
        Ok(base) => base,
        Err(e) => return Err(e.to_string()),
    };
    let url = match base.join(input) {
        Ok(url) => url,
        Err(e) => return Err(e.to_string()),
    };
    let cannot_be_a_base = url.cannot_be_a_base();
    let path_segments = url.path_segments().map(|segments| segments.map(String::from).collect());
    Ok(Url { text: String::from(url), cannot_be_a_base, path_segments })
}

/// What reading `input` as an absolute URL comes to.
pub open spec fn parsed_url(input: Seq<char>) -> Result<UrlView, ErrorView> {
    match url_parse(input) {
        Ok(url) => Ok(url),
        Err(reason) => Err(ErrorView::UrlParseError(reason)),
    }
}

/// What the resolution of `fragment` comes to. Without a base the fragment
/// must be an absolute URL itself. A base that cannot be a base is refused,
/// whatever the fragment; any other base has the fragment joined onto it.
pub open spec fn resolved_url(base: Option<UrlView>, fragment: Seq<char>) -> Result<
    UrlView,
    ErrorView,
> {
    match base {
        None => parsed_url(fragment),
        Some(b) => if b.cannot_be_a_base {
            Err(ErrorView::UrlError("url_base is not a URL base: "@ + b.text))
        } else {
            match url_join(b.text, fragment) {
                Ok(url) => Ok(url),
                Err(reason) => Err(ErrorView::UrlParseError(reason)),
            }
        },
    }
}

impl Url {
    /// Reads `input` as an absolute URL.
    pub fn parse(input: &str) -> (parsed: Result<Url, Error>)
        ensures
            viewed(parsed) == parsed_url(input@),
    {
        match parse_url(input) {
            Ok(url) => Ok(url),
            Err(reason) => Err(Error::UrlParseError(reason)),
        }
    }
}

/// Resolves `fragment` to an absolute URL: by itself where there is no
/// base, else against the base.
pub fn resolve_url(base: &Option<Url>, fragment: &str) -> (resolved: Result<Url, Error>)
    ensures
        viewed(resolved) == resolved_url(base.deep_view(), fragment@),
{
    match base {
        None => Url::parse(fragment),
        Some(b) => {
            if b.cannot_be_a_base {
                Err(Error::UrlError(prefixed("url_base is not a URL base: ", b.text.as_str())))
            } else {
                match join_url(b.text.as_str(), fragment) {
                    Ok(url) => Ok(url),
                    Err(reason) => Err(Error::UrlParseError(reason)),
                }
            }
        },
    }
}

/// Without a base, the fragment must be an absolute URL already: where the
/// URL parser refuses it, as it does any relative one, the resolution fails
/// with an error of the kind `UrlError`, and where the parser accepts it,
/// the resolution gives what the parser read.
pub proof fn lemma_fragment_alone_must_be_absolute(fragment: Seq<char>)
    ensures
        url_parse(fragment) is Err ==> fails_with(resolved_url(None, fragment), ErrorKind::UrlError),
        url_parse(fragment) matches Ok(url) ==> resolved_url(None, fragment) == Ok::<
            UrlView,
            ErrorView,
        >(url),
{
}

/// Against a base that cannot be a base, the resolution fails with an
/// error of the kind `UrlError`, whatever the fragment is.
pub proof fn lemma_base_must_be_a_base(base: UrlView, fragment: Seq<char>)
    requires
        base.cannot_be_a_base,
    ensures
        fails_with(resolved_url(Some(base), fragment), ErrorKind::UrlError),
{
}

} // verus!
