//! From an item of the manifest to what is checked out: the absolute URL,
//! the revision, and the directory that the working copy goes to.

use vstd::prelude::*;
use vstd::string::StringSliceAdditionalSpecFns;
use vstd::utf8::{decode_utf8, valid_utf8};
use crate::error::{fails_with, viewed, Error, ErrorKind, ErrorView};
use crate::file::{SvnGroup, SvnGroupView, SvnItem, SvnItemView};
use crate::location::{resolve_url, resolved_url, url_parse, Url, UrlView};
use crate::text::prefixed;

verus! {

#[verifier::external_type_specification]
#[verifier::external_body]
pub struct ExUtf8Error(core::str::Utf8Error);

/// `core::str::from_utf8` accepts exactly the bytes that are UTF-8, and the
/// text that it returns is made of the very bytes it was given.
pub assume_specification[ core::str::from_utf8 ](v: &[u8]) -> (text: Result<
    &str,
    core::str::Utf8Error,
>)
    ensures
        match text {
            Ok(s) => valid_utf8(v@) && s.spec_bytes() == v@,
            Err(_) => !valid_utf8(v@),
        },
;

/// The revision that is checked out: the item's own where it names one,
/// else the group's, which may be absent too.
pub open spec fn effective_revision_of(item: Option<usize>, group: Option<usize>) -> Option<usize> {
    match item {
        Some(_) => item,
        None => group,
    }
}

/// The revision that is checked out: the item's own where it names one,
/// else the group's, which may be absent too.
pub fn effective_revision(item: Option<usize>, group: Option<usize>) -> (rev: Option<usize>)
    ensures
        rev == effective_revision_of(item, group),
        item is Some ==> rev == item,
        item is None ==> rev == group,
{
    match item {
        Some(_) => item,
        None => group,
    }
}

/// The directory that a working copy of `url` goes to, or the error that
/// says why there is none. A destination that is given decides alone: it
/// must be UTF-8 text and is then taken as it is. Without one, the
/// directory is named after the last segment of the URL's path, which must
/// exist and must not be empty.
pub open spec fn directory(url: UrlView, destination: Option<Seq<u8>>) -> Result<
    Seq<char>,
    ErrorView,
> {
    match destination {
        Some(bytes) => if valid_utf8(bytes) {
            Ok(decode_utf8(bytes))
        } else {
            Err(ErrorView::PathError("Path is not valid UTF-8: "@ + url.text))
        },
        None => match url.path_segments {
            Some(segments) if segments.len() > 0 => if segments.last().len() > 0 {
                Ok(segments.last())
            } else {
                Err(ErrorView::UrlError("URL missing a path: "@ + url.text))
            },
            _ => Err(ErrorView::UrlError("URL has no path: "@ + url.text)),
        },
    }
}

/// The directory that a working copy of `url` goes to: `destination` where
/// one is given, else the last segment of the URL's path.
pub fn directory_name(url: &Url, destination: &Option<Vec<u8>>) -> (dir: Result<String, Error>)
    ensures
        viewed(dir) == directory(url@, destination.deep_view()),
{
    match destination {
        Some(bytes) => {
            assert(bytes.deep_view() =~= bytes@);
            match core::str::from_utf8(bytes.as_slice()) {
                Ok(text) => {
                    proof {
                        vstd::utf8::encode_utf8_decode_utf8(text@);
                    }
                    Ok(String::from_str(text))
                },
                Err(_) => Err(
                    Error::PathError(prefixed("Path is not valid UTF-8: ", url.text.as_str())),
                ),
            }
        },
        None => match &url.path_segments {
            Some(segments) => {
                if segments.len() == 0 {
                    Err(Error::UrlError(prefixed("URL has no path: ", url.text.as_str())))
                } else {
                    let last = &segments[segments.len() - 1];
                    if last.as_str().is_empty() {
                        Err(Error::UrlError(prefixed("URL missing a path: ", url.text.as_str())))
                    } else {
                        Ok(last.clone())
                    }
                }
            },
            None => Err(Error::UrlError(prefixed("URL has no path: ", url.text.as_str()))),
        },
    }
}

/// What is known of an item once it is resolved.
#[derive(Clone, Debug, PartialEq, Eq)]
pub struct ResolvedItem {
    /// The absolute URL of the repository.
    pub url: Url,
    /// The revision to check out; the newest where there is none.
    pub rev: Option<usize>,
    /// The directory that the working copy goes to.
    pub dir: String,
}

/// A [`ResolvedItem`] with its texts as sequences of characters.
pub struct ResolvedItemView {
    pub url: UrlView,
    pub rev: Option<usize>,
    pub dir: Seq<char>,
}

impl View for ResolvedItem {
    type V = ResolvedItemView;

    open spec fn view(&self) -> ResolvedItemView {
        ResolvedItemView { url: self.url@, rev: self.rev, dir: self.dir@ }
    }
}

impl DeepView for ResolvedItem {
    type V = ResolvedItemView;

    open spec fn deep_view(&self) -> ResolvedItemView {
        self@
    }
}

/// What `item` of `group` resolves to, or the error that says why it does
/// not. The URL is looked at first, the directory second.
pub open spec fn resolved_item(group: SvnGroupView, item: SvnItemView) -> Result<
    ResolvedItemView,
    ErrorView,
> {
    match resolved_url(group.url_base, item.url) {
        Ok(url) => match directory(url, item.path) {
            Ok(dir) => Ok(
                ResolvedItemView { url, rev: effective_revision_of(item.rev, group.rev), dir },
            ),
            Err(e) => Err(e),
        },
        Err(e) => Err(e),
    }
}

/// Resolves `item` of `group`: its absolute URL, its revision and its
/// directory.
pub fn resolve_item(group: &SvnGroup, item: &SvnItem) -> (resolved: Result<ResolvedItem, Error>)
    ensures
        viewed(resolved) == resolved_item(group@, item@),
{
    let url = match resolve_url(&group.url_base, item.url.as_str()) {
        Ok(url) => url,
        Err(e) => {
            return Err(e);
        },
    };
    let dir = match directory_name(&url, &item.path) {
        Ok(dir) => dir,
        Err(e) => {
            return Err(e);
        },
    };
    Ok(ResolvedItem { url, rev: effective_revision(item.rev, group.rev), dir })
}

/// Resolution is repeatable. Two runs on the same group and item end the
/// same way: both fail with the same error, or both succeed with the same
/// URL, revision and directory. In particular the directory that is
/// inferred for an item without a destination is the same each time.
pub proof fn lemma_resolution_repeatable(
    group: SvnGroup,
    item: SvnItem,
    first: Result<ResolvedItem, Error>,
    second: Result<ResolvedItem, Error>,
)
    requires
        viewed(first) == resolved_item(group@, item@),
        viewed(second) == resolved_item(group@, item@),
    ensures
        viewed(first) == viewed(second),
        first is Ok <==> second is Ok,
        first matches Ok(a) ==> second matches Ok(b) && a@.dir == b@.dir,
{
}

/// The revision of an item goes before that of its group: an item that
/// names a revision is checked out at that one, whatever the group says,
/// and one that names none is checked out at the group's, or at the newest
/// where the group names none either.
pub proof fn lemma_revision_precedence(group: SvnGroupView, item: SvnItemView)
    ensures
        match resolved_item(group, item) {
            Ok(resolved) => {
                &&& item.rev is Some ==> resolved.rev == item.rev
                &&& item.rev is None ==> resolved.rev == group.rev
            },
            Err(_) => true,
        },
{
}

/// In a manifest without a base, each item must give an absolute URL: an
/// item whose URL the parser refuses, as it does any relative one, does not
/// resolve, and the error is of the kind `UrlError`.
pub proof fn lemma_item_without_base_needs_absolute_url(group: SvnGroupView, item: SvnItemView)
    requires
        group.url_base is None,
        url_parse(item.url) is Err,
    ensures
        fails_with(resolved_item(group, item), ErrorKind::UrlError),
{
}

/// In a manifest whose base cannot be a base, no item resolves, whatever
/// it holds, and the error is of the kind `UrlError`.
pub proof fn lemma_item_needs_usable_base(group: SvnGroupView, item: SvnItemView)
    requires
        match group.url_base {
            Some(base) => base.cannot_be_a_base,
            None => false,
        },
    ensures
        fails_with(resolved_item(group, item), ErrorKind::UrlError),
{
}

/// A URL whose path ends in an empty segment, as every URL that ends in
/// `/` does, has no directory inferred for it, nor has one without path
/// segments: the attempt fails with an error of the kind `UrlError`.
pub proof fn lemma_no_directory_without_last_segment(url: UrlView)
    requires
        match url.path_segments {
            Some(segments) => segments.len() == 0 || segments.last().len() == 0,
            None => true,
        },
    ensures
        fails_with(directory(url, None), ErrorKind::UrlError),
{
}

/// A destination that is given is the directory, whatever the URL is: the
/// outcome is the same for any two URLs, and it is the destination's text
/// where the destination is text.
pub proof fn lemma_destination_overrides(url: UrlView, other: UrlView, destination: Seq<u8>)
    ensures
        valid_utf8(destination) ==> directory(url, Some(destination)) == Ok::<
            Seq<char>,
            ErrorView,
        >(decode_utf8(destination)),
        !valid_utf8(destination) ==> fails_with(
            directory(url, Some(destination)),
            ErrorKind::PathError,
        ),
        directory(url, Some(destination)) is Ok <==> directory(other, Some(destination)) is Ok,
        directory(url, Some(destination)) is Ok ==> directory(url, Some(destination)) == directory(
            other,
            Some(destination),
        ),
{
}

} // verus!
