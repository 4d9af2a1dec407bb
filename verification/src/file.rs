//! The manifest: which repositories to check out, where to, at which
//! revision, and what to keep out of version control around them.

use vstd::prelude::*;
use crate::location::{Url, UrlView};

verus! {

/// Ignore patterns of one item, relative to its checkout directory.
#[derive(Clone, Debug, PartialEq, Eq)]
pub struct PathGitIgnore {
    /// Paths below the directory that are ignored.
    pub exclude: Vec<String>,
    /// Paths below the directory that alone are kept, all others there
    /// being ignored.
    pub includes: Vec<String>,
}

/// A [`PathGitIgnore`] with its texts as sequences of characters.
pub struct PathGitIgnoreView {
    pub exclude: Seq<Seq<char>>,
    pub includes: Seq<Seq<char>>,
}

impl View for PathGitIgnore {
    type V = PathGitIgnoreView;

    open spec fn view(&self) -> PathGitIgnoreView {
        PathGitIgnoreView {
            exclude: self.exclude.deep_view(),
            includes: self.includes.deep_view(),
        }
    }
}

impl DeepView for PathGitIgnore {
    type V = PathGitIgnoreView;

    open spec fn deep_view(&self) -> PathGitIgnoreView {
        self@
    }
}

impl Default for PathGitIgnore {
    /// No pattern of either sort.
    fn default() -> (fragment: PathGitIgnore)
        ensures
            fragment@.exclude == Seq::<Seq<char>>::empty(),
            fragment@.includes == Seq::<Seq<char>>::empty(),
    {
        let fragment = PathGitIgnore { exclude: Vec::new(), includes: Vec::new() };
        assert(fragment@.exclude =~= Seq::<Seq<char>>::empty());
        assert(fragment@.includes =~= Seq::<Seq<char>>::empty());
        fragment
    }
}

/// One repository to check out.
#[derive(Clone, Debug, PartialEq, Eq)]
pub struct SvnItem {
    /// An absolute URL where the group has no base, else a URL that is
    /// resolved against the base.
    pub url: String,
    /// The revision to check out, taking precedence over the group's.
    pub rev: Option<usize>,
    /// The checkout directory, as the bytes of the path. It is used only
    /// where these are UTF-8 text. Without it the directory is named after
    /// the last segment of the URL's path.
    pub path: Option<Vec<u8>>,
    /// Ignore patterns below the checkout directory.
    pub gitignore: Option<PathGitIgnore>,
}

/// An [`SvnItem`] with its texts as sequences.
pub struct SvnItemView {
    pub url: Seq<char>,
    pub rev: Option<usize>,
    pub path: Option<Seq<u8>>,
    pub gitignore: Option<PathGitIgnoreView>,
}

impl View for SvnItem {
    type V = SvnItemView;

    open spec fn view(&self) -> SvnItemView {
        SvnItemView {
            url: self.url@,
            rev: self.rev,
            path: self.path.deep_view(),
            gitignore: self.gitignore.deep_view(),
        }
    }
}

impl DeepView for SvnItem {
    type V = SvnItemView;

    open spec fn deep_view(&self) -> SvnItemView {
        self@
    }
}

impl SvnItem {
    /// The item for `url` with nothing else said: no revision and no
    /// directory of its own, and no ignore patterns.
    pub fn new(url: String) -> (item: SvnItem)
        ensures
            item@ == (SvnItemView { url: url@, rev: None, path: None, gitignore: None }),
    {
        SvnItem { url, rev: None, path: None, gitignore: None }
    }
}

/// The repositories of a manifest, with what they share.
#[derive(Clone, Debug, PartialEq, Eq)]
pub struct SvnGroup {
    /// The revision of each item that names none.
    pub rev: Option<usize>,
    /// The URL against which the items' URLs are resolved.
    pub url_base: Option<Url>,
    /// The items, in the order in which they are checked out.
    pub items: Vec<SvnItem>,
}

/// An [`SvnGroup`] with its texts as sequences.
pub struct SvnGroupView {
    pub rev: Option<usize>,
    pub url_base: Option<UrlView>,
    pub items: Seq<SvnItemView>,
}

impl View for SvnGroup {
    type V = SvnGroupView;

    open spec fn view(&self) -> SvnGroupView {
        SvnGroupView {
            rev: self.rev,
            url_base: self.url_base.deep_view(),
            items: self.items.deep_view(),
        }
    }
}

impl DeepView for SvnGroup {
    type V = SvnGroupView;

    open spec fn deep_view(&self) -> SvnGroupView {
        self@
    }
}

/// A manifest.
#[derive(Debug, PartialEq, Eq)]
pub struct File {
    /// Lines that go into the ignore file as they are.
    pub gitignore: Vec<String>,
    /// The repositories to check out.
    pub svn_group: SvnGroup,
}

/// A [`File`] with its texts as sequences.
pub struct FileView {
    pub gitignore: Seq<Seq<char>>,
    pub svn_group: SvnGroupView,
}

impl View for File {
    type V = FileView;

    open spec fn view(&self) -> FileView {
        FileView { gitignore: self.gitignore.deep_view(), svn_group: self.svn_group@ }
    }
}

impl DeepView for File {
    type V = FileView;

    open spec fn deep_view(&self) -> FileView {
        self@
    }
}

impl File {
    /// The manifest of `svn_group` with no ignore lines of its own.
    pub fn new(svn_group: SvnGroup) -> (file: File)
        ensures
            file@ == (FileView { gitignore: Seq::empty(), svn_group: svn_group@ }),
    {
        let file = File { gitignore: Vec::new(), svn_group };
        assert(file@.gitignore =~= Seq::<Seq<char>>::empty());
        file
    }
}

} // verus!
