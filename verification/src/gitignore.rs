//! The ignore file: what it holds and in which order.
//!
//! The order of the lines matters to whoever reads the file, since a later
//! line overrules an earlier one. So all plain exclusions come first, and each
//! blanket exclusion of a directory comes before the lines that re-admit
//! paths below it.

use vstd::prelude::*;
use crate::error::{Error, ErrorView};
use crate::file::{PathGitIgnore, PathGitIgnoreView};
use crate::text::{clone_lines, prefixed, push_line};

verus! {

/// A directory, and paths below it.
#[derive(Clone, Debug, PartialEq, Eq)]
pub struct SubPaths(pub String, pub Vec<String>);

/// A [`SubPaths`] with its texts as sequences of characters.
pub struct SubPathsView {
    pub dir: Seq<char>,
    pub paths: Seq<Seq<char>>,
}

impl View for SubPaths {
    type V = SubPathsView;

    open spec fn view(&self) -> SubPathsView {
        SubPathsView { dir: self.0@, paths: self.1.deep_view() }
    }
}

impl DeepView for SubPaths {
    type V = SubPathsView;

    open spec fn deep_view(&self) -> SubPathsView {
        self@
    }
}

/// The line that excludes `path` below `dir`.
pub open spec fn exclude_line(dir: Seq<char>, path: Seq<char>) -> Seq<char> {
    "/"@ + dir + "/"@ + path
}

/// The line that excludes all that lies below `dir`.
pub open spec fn blanket_line(dir: Seq<char>) -> Seq<char> {
    "/"@ + dir + "/*"@
}

/// The line that re-admits `path` below `dir`.
pub open spec fn readmit_line(dir: Seq<char>, path: Seq<char>) -> Seq<char> {
    "!/"@ + dir + "/"@ + path
}

impl SubPathsView {
    /// One exclusion for each path.
    pub open spec fn exclude_lines(self) -> Seq<Seq<char>> {
        Seq::new(self.paths.len(), |j: int| exclude_line(self.dir, self.paths[j]))
    }

    /// The blanket exclusion of the directory, then one re-admission for
    /// each path.
    pub open spec fn readmit_lines(self) -> Seq<Seq<char>> {
        seq![blanket_line(self.dir)] + Seq::new(
            self.paths.len(),
            |j: int| readmit_line(self.dir, self.paths[j]),
        )
    }
}

/// What goes into the ignore file.
#[derive(Clone, Debug, PartialEq, Eq)]
pub struct GitIgnore {
    /// Lines that are written as they are.
    pub exclude_all: Vec<String>,
    /// For each directory, the paths below it that are ignored.
    pub exclude_paths: Vec<SubPaths>,
    /// For each directory, the paths below it that alone are kept.
    pub include_paths: Vec<SubPaths>,
}

/// A [`GitIgnore`] with its texts as sequences of characters.
pub struct GitIgnoreView {
    pub exclude_all: Seq<Seq<char>>,
    pub exclude_paths: Seq<SubPathsView>,
    pub include_paths: Seq<SubPathsView>,
}

impl View for GitIgnore {
    type V = GitIgnoreView;

    open spec fn view(&self) -> GitIgnoreView {
        GitIgnoreView {
            exclude_all: self.exclude_all.deep_view(),
            exclude_paths: self.exclude_paths.deep_view(),
            include_paths: self.include_paths.deep_view(),
        }
    }
}

impl DeepView for GitIgnore {
    type V = GitIgnoreView;

    open spec fn deep_view(&self) -> GitIgnoreView {
        self@
    }
}

/// The exclusions of each entry, entry after entry.
pub open spec fn exclude_section(entries: Seq<SubPathsView>) -> Seq<Seq<char>> {
    entries.map_values(|entry: SubPathsView| entry.exclude_lines()).flatten()
}

/// The blanket exclusion and the re-admissions of each entry, entry after
/// entry.
pub open spec fn readmit_section(entries: Seq<SubPathsView>) -> Seq<Seq<char>> {
    entries.map_values(|entry: SubPathsView| entry.readmit_lines()).flatten()
}

/// The text of a file that holds `lines`, each ended by a line feed.
pub open spec fn file_text(lines: Seq<Seq<char>>) -> Seq<char> {
    Seq::new(lines.len(), |i: int| lines[i] + "\n"@).flatten()
}

proof fn lemma_file_text_push(lines: Seq<Seq<char>>, line: Seq<char>)
    ensures
        file_text(lines.push(line)) == file_text(lines) + line + "\n"@,
{
    let ended = Seq::new(lines.len(), |i: int| lines[i] + "\n"@);
    let longer = lines.push(line);
    assert(Seq::new(longer.len(), |i: int| longer[i] + "\n"@) =~= ended.push(line + "\n"@));
    ended.lemma_flatten_push(line + "\n"@);
}

impl GitIgnoreView {
    /// The rules with nothing but the lines that are written as they are.
    pub open spec fn starting_with(exclude_all: Seq<Seq<char>>) -> GitIgnoreView {
        GitIgnoreView { exclude_all, exclude_paths: Seq::empty(), include_paths: Seq::empty() }
    }

    /// The rules after the patterns of `fragment`, which lie below `dir`,
    /// have been added at the end.
    pub open spec fn record(self, dir: Seq<char>, fragment: PathGitIgnoreView) -> GitIgnoreView {
        GitIgnoreView {
            exclude_all: self.exclude_all,
            exclude_paths: self.exclude_paths.push(SubPathsView { dir, paths: fragment.exclude }),
            include_paths: self.include_paths.push(
                SubPathsView { dir, paths: fragment.includes },
            ),
        }
    }

    /// The lines of the ignore file, in order.
    pub open spec fn lines(self) -> Seq<Seq<char>> {
        self.exclude_all + exclude_section(self.exclude_paths) + readmit_section(
            self.include_paths,
        )
    }

    /// The number of the line that excludes all below the directory of the
    /// `k`-th entry of `include_paths`.
    pub open spec fn blanket_position(self, k: int) -> int {
        (self.exclude_all.len() + exclude_section(self.exclude_paths).len() + readmit_section(
            self.include_paths.take(k),
        ).len()) as int
    }
}

proof fn lemma_section_push(entries: Seq<SubPathsView>, entry: SubPathsView)
    ensures
        exclude_section(entries.push(entry)) == exclude_section(entries) + entry.exclude_lines(),
        readmit_section(entries.push(entry)) == readmit_section(entries) + entry.readmit_lines(),
{
    let ex = |entry: SubPathsView| entry.exclude_lines();
    let re = |entry: SubPathsView| entry.readmit_lines();
    assert(entries.push(entry).map_values(ex) =~= entries.map_values(ex).push(ex(entry)));
    assert(entries.push(entry).map_values(re) =~= entries.map_values(re).push(re(entry)));
    entries.map_values(ex).lemma_flatten_push(ex(entry));
    entries.map_values(re).lemma_flatten_push(re(entry));
}

proof fn lemma_section_concat(front: Seq<SubPathsView>, back: Seq<SubPathsView>)
    ensures
        exclude_section(front + back) == exclude_section(front) + exclude_section(back),
        readmit_section(front + back) == readmit_section(front) + readmit_section(back),
{
    let ex = |entry: SubPathsView| entry.exclude_lines();
    let re = |entry: SubPathsView| entry.readmit_lines();
    assert((front + back).map_values(ex) =~= front.map_values(ex) + back.map_values(ex));
    assert((front + back).map_values(re) =~= front.map_values(re) + back.map_values(re));
    vstd::seq_lib::lemma_flatten_concat(front.map_values(ex), back.map_values(ex));
    vstd::seq_lib::lemma_flatten_concat(front.map_values(re), back.map_values(re));
}

/// The lines that are written as they are stand first in the ignore file,
/// in their order, and the exclusions below directories stand next. After
/// all of these, at `blanket_position(k)`, stands the blanket exclusion of
/// the `k`-th directory of `include_paths`, and right after it, in their
/// order, stand the lines that re-admit the paths below that directory. So
/// no re-admission comes before the exclusion that it is an exception to.
pub proof fn lemma_line_order(ignore: GitIgnoreView, k: int)
    requires
        0 <= k < ignore.include_paths.len(),
    ensures
        ({
            let lines = ignore.lines();
            let head = ignore.exclude_all.len() as int;
            let excluded = exclude_section(ignore.exclude_paths).len() as int;
            let blanket = ignore.blanket_position(k);
            let entry = ignore.include_paths[k];
            &&& lines.subrange(0, head) == ignore.exclude_all
            &&& lines.subrange(head, head + excluded) == exclude_section(ignore.exclude_paths)
            &&& head + excluded <= blanket
            &&& blanket + entry.paths.len() < lines.len()
            &&& lines[blanket] == blanket_line(entry.dir)
            &&& forall|j: int|
                0 <= j < entry.paths.len() ==> #[trigger] lines[blanket + 1 + j] == readmit_line(
                    entry.dir,
                    entry.paths[j],
                )
        }),
{
    let lines = ignore.lines();
    let head = ignore.exclude_all.len() as int;
    let excluded = exclude_section(ignore.exclude_paths).len() as int;
    let blanket = ignore.blanket_position(k);
    let entry = ignore.include_paths[k];
    let front = ignore.include_paths.take(k);
    let back = ignore.include_paths.skip(k + 1);
    assert(ignore.include_paths =~= front.push(entry) + back);
    lemma_section_concat(front.push(entry), back);
    lemma_section_push(front, entry);
    assert(lines.subrange(0, head) =~= ignore.exclude_all);
    assert(lines.subrange(head, head + excluded) =~= exclude_section(ignore.exclude_paths));
    assert(lines =~= ignore.exclude_all + exclude_section(ignore.exclude_paths)
        + readmit_section(front) + entry.readmit_lines() + readmit_section(back));
    assert(lines[blanket] == entry.readmit_lines()[0]);
    assert forall|j: int| 0 <= j < entry.paths.len() implies #[trigger] lines[blanket + 1 + j]
        == readmit_line(entry.dir, entry.paths[j]) by {
        assert(lines[blanket + 1 + j] == entry.readmit_lines()[1 + j]);
    }
}

fn push_exclude_lines(out: &mut Vec<String>, entry: &SubPaths)
    ensures
        final(out).deep_view() == old(out).deep_view() + entry@.exclude_lines(),
{
    let mut j: usize = 0;
    while j < entry.1.len()
        invariant
            j <= entry.1.len(),
            out.deep_view() == old(out).deep_view() + entry@.exclude_lines().take(j as int),
        decreases entry.1.len() - j,
    {
        let mut line = prefixed("/", entry.0.as_str());
        line.append("/");
        line.append(entry.1[j].as_str());
        push_line(out, line);
        assert(entry@.exclude_lines().take(j + 1) =~= entry@.exclude_lines().take(j as int).push(
            exclude_line(entry@.dir, entry@.paths[j as int]),
        ));
        j += 1;
    }
    assert(entry@.exclude_lines().take(j as int) =~= entry@.exclude_lines());
}

fn push_readmit_lines(out: &mut Vec<String>, entry: &SubPaths)
    ensures
        final(out).deep_view() == old(out).deep_view() + entry@.readmit_lines(),
{
    let mut blanket = prefixed("/", entry.0.as_str());
    blanket.append("/*");
    push_line(out, blanket);
    let mut j: usize = 0;
    while j < entry.1.len()
        invariant
            j <= entry.1.len(),
            out.deep_view() == old(out).deep_view() + entry@.readmit_lines().take(j + 1),
        decreases entry.1.len() - j,
    {
        let mut line = prefixed("!/", entry.0.as_str());
        line.append("/");
        line.append(entry.1[j].as_str());
        push_line(out, line);
        assert(entry@.readmit_lines().take(j + 2) =~= entry@.readmit_lines().take(j + 1).push(
            readmit_line(entry@.dir, entry@.paths[j as int]),
        ));
        j += 1;
    }
    assert(entry@.readmit_lines().take(j + 1) =~= entry@.readmit_lines());
}

impl GitIgnore {
    /// The rules with nothing but the lines that are written as they are.
    pub fn new(exclude_all: Vec<String>) -> (ignore: GitIgnore)
        ensures
            ignore@ == GitIgnoreView::starting_with(exclude_all.deep_view()),
    {
        let ignore = GitIgnore {
            exclude_all,
            exclude_paths: Vec::new(),
            include_paths: Vec::new(),
        };
        assert(ignore@.exclude_paths =~= Seq::empty());
        assert(ignore@.include_paths =~= Seq::empty());
        ignore
    }

    /// Adds the patterns of `fragment`, which lie below `dir`, at the end.
    pub fn record(&mut self, dir: &str, fragment: &PathGitIgnore)
        ensures
            final(self)@ == old(self)@.record(dir@, fragment@),
    {
        let ghost before = self@;
        self.exclude_paths.push(SubPaths(String::from_str(dir), clone_lines(&fragment.exclude)));
        self.include_paths.push(SubPaths(String::from_str(dir), clone_lines(&fragment.includes)));
        assert(self@.exclude_paths =~= before.record(dir@, fragment@).exclude_paths);
        assert(self@.include_paths =~= before.record(dir@, fragment@).include_paths);
    }

    /// The lines of the ignore file, in order: the lines that are written
    /// as they are; then, entry by entry, the exclusions below a directory;
    /// then, entry by entry, the blanket exclusion of a directory followed by
    /// the re-admissions below it.
    pub fn lines(&self) -> (out: Vec<String>)
        ensures
            out.deep_view() == self@.lines(),
    {
        let mut out = clone_lines(&self.exclude_all);
        let mut k: usize = 0;
        while k < self.exclude_paths.len()
            invariant
                k <= self.exclude_paths.len(),
                out.deep_view() == self@.exclude_all + exclude_section(
                    self@.exclude_paths.take(k as int),
                ),
            decreases self.exclude_paths.len() - k,
        {
            push_exclude_lines(&mut out, &self.exclude_paths[k]);
            proof {
                lemma_section_push(self@.exclude_paths.take(k as int), self@.exclude_paths[k as int]);
                assert(self@.exclude_paths.take(k + 1) =~= self@.exclude_paths.take(k as int).push(
                    self@.exclude_paths[k as int],
                ));
            }
            k += 1;
        }
        assert(self@.exclude_paths.take(k as int) =~= self@.exclude_paths);
        let mut k: usize = 0;
        while k < self.include_paths.len()
            invariant
                k <= self.include_paths.len(),
                out.deep_view() == self@.exclude_all + exclude_section(self@.exclude_paths)
                    + readmit_section(self@.include_paths.take(k as int)),
            decreases self.include_paths.len() - k,
        {
            push_readmit_lines(&mut out, &self.include_paths[k]);
            proof {
                lemma_section_push(self@.include_paths.take(k as int), self@.include_paths[k as int]);
                assert(self@.include_paths.take(k + 1) =~= self@.include_paths.take(k as int).push(
                    self@.include_paths[k as int],
                ));
            }
            k += 1;
        }
        assert(self@.include_paths.take(k as int) =~= self@.include_paths);
        out
    }

    /// The text of the ignore file that belongs into the directory `dir`,
    /// given whether `dir` is a directory that exists.
    pub fn to_file(&self, dir: &str, is_dir: bool) -> (text: Result<String, Error>)
        ensures
            match text {
                Ok(t) => is_dir && t@ == file_text(self@.lines()),
                Err(e) => !is_dir && e@ == ErrorView::PathError(
                    ".gitignore path is not a directory: "@ + dir@,
                ),
            },
    {
        if !is_dir {
            return Err(Error::PathError(prefixed(".gitignore path is not a directory: ", dir)));
        }
        let lines = self.lines();
        let mut text = String::new();
        let mut i: usize = 0;
        assert(file_text(lines.deep_view().take(0)) =~= Seq::<char>::empty());
        while i < lines.len()
            invariant
                i <= lines.len(),
                text@ == file_text(lines.deep_view().take(i as int)),
            decreases lines.len() - i,
        {
            text.append(lines[i].as_str());
            text.append("\n");
            proof {
                let done = lines.deep_view().take(i as int);
                assert(lines.deep_view().take(i + 1) =~= done.push(lines[i as int]@));
                lemma_file_text_push(done, lines[i as int]@);
            }
            i += 1;
        }
        assert(lines.deep_view().take(i as int) =~= lines.deep_view());
        Ok(text)
    }
}

} // verus!
