//! The course of a run, as a machine that is driven from outside.
//!
//! The machine decides; it neither starts a checkout nor writes a file.
//! Each step answers the outcome of the action that was handed out last
//! with the action that is due next. The items are taken strictly in their
//! order, the first failure ends the run, and the ignore file is asked for
//! only after the last checkout has succeeded.

use vstd::prelude::*;
use crate::error::{viewed, Error, ErrorView};
use crate::file::{File, FileView};
use crate::location::{Url, UrlView};
use crate::gitignore::{GitIgnore, GitIgnoreView};
use crate::resolve::{resolve_item, resolved_item, ResolvedItem, ResolvedItemView};

verus! {

/// A checkout that is due.
#[derive(Clone, Debug, PartialEq, Eq)]
pub struct Checkout {
    /// Whether the progress of the checkout is kept from the user.
    pub quiet: bool,
    /// The revision to check out; the newest where there is none.
    pub rev: Option<usize>,
    /// The absolute URL of the repository.
    pub url: Url,
    /// The directory to check out to: the destination that the item names,
    /// else the directory that was inferred from the URL.
    pub path: String,
}

/// A [`Checkout`] with its texts as sequences of characters.
pub struct CheckoutView {
    pub quiet: bool,
    pub rev: Option<usize>,
    pub url: UrlView,
    pub path: Seq<char>,
}

impl View for Checkout {
    type V = CheckoutView;

    open spec fn view(&self) -> CheckoutView {
        CheckoutView { quiet: self.quiet, rev: self.rev, url: self.url@, path: self.path@ }
    }
}

impl DeepView for Checkout {
    type V = CheckoutView;

    open spec fn deep_view(&self) -> CheckoutView {
        self@
    }
}

/// What the driver of a run is asked to do next.
#[derive(Debug, PartialEq, Eq)]
pub enum Action {
    /// Check out a working copy, and report how that went.
    Checkout(Checkout),
    /// Write the ignore file with these rules, and report how that went.
    WriteIgnore(GitIgnore),
    /// Nothing more: the run has succeeded.
    Finish,
    /// Nothing more: the run has failed with this error.
    Fail(Error),
}

/// An [`Action`] with its texts as sequences of characters.
pub enum ActionView {
    Checkout(CheckoutView),
    WriteIgnore(GitIgnoreView),
    Finish,
    Fail(ErrorView),
}

impl View for Action {
    type V = ActionView;

    open spec fn view(&self) -> ActionView {
        match self {
            Action::Checkout(request) => ActionView::Checkout(request@),
            Action::WriteIgnore(rules) => ActionView::WriteIgnore(rules@),
            Action::Finish => ActionView::Finish,
            Action::Fail(e) => ActionView::Fail(e@),
        }
    }
}

impl DeepView for Action {
    type V = ActionView;

    open spec fn deep_view(&self) -> ActionView {
        self@
    }
}

/// Where a run stands.
#[derive(Clone, Copy, Debug, PartialEq, Eq, Structural)]
pub enum Phase {
    /// A checkout has been handed out and its outcome is awaited.
    CheckingOut,
    /// All checkouts have succeeded; the outcome of writing the ignore file
    /// is awaited.
    Finalizing,
    /// The run has succeeded.
    Done,
    /// The run has failed.
    Failed,
}

enum State {
    CheckingOut { file: File, quiet: bool, next: usize, ignore: GitIgnore },
    Finalizing,
    Done,
    Failed(Error),
}

/// A run of the checkouts of one manifest.
pub struct Run {
    state: State,
}

/// A [`Run`] as a plain value.
pub enum RunView {
    /// The checkout of the item before `next` has been handed out. All
    /// items before that one have been checked out.
    CheckingOut { file: FileView, quiet: bool, next: nat },
    Finalizing,
    Done,
    Failed(ErrorView),
}

/// Whether each of the first `n` items of `file` resolves.
pub open spec fn all_resolve(file: FileView, n: nat) -> bool {
    forall|i: int|
        0 <= i < n ==> (#[trigger] resolved_item(file.svn_group, file.svn_group.items[i])) is Ok
}

/// The rules of the ignore file once the first `n` items of `file` have
/// been looked at: the lines of the manifest that go in as they are, and
/// for each item that has ignore patterns, in the order of the items, its
/// patterns below its directory.
pub open spec fn ignore_after(file: FileView, n: nat) -> GitIgnoreView
    decreases n,
{
    if n == 0 {
        GitIgnoreView::starting_with(file.gitignore)
    } else {
        let before = ignore_after(file, (n - 1) as nat);
        let item = file.svn_group.items[n - 1];
        match (item.gitignore, resolved_item(file.svn_group, item)) {
            (Some(fragment), Ok(resolved)) => before.record(resolved.dir, fragment),
            _ => before,
        }
    }
}

/// The checkout that is due for an item once it is resolved.
pub open spec fn checkout_of(quiet: bool, resolved: ResolvedItemView) -> CheckoutView {
    CheckoutView { quiet, rev: resolved.rev, url: resolved.url, path: resolved.dir }
}

/// How a run that has dealt with the first `next` items of `file` goes
/// on, and the action that it hands out. Where an item is left, it is
/// resolved: if that fails the run has failed, with the error of the
/// resolution; else its checkout is due. Where none is left, the ignore file
/// is due, with the rules of all items.
pub open spec fn advance_of(file: FileView, quiet: bool, next: nat) -> (RunView, ActionView) {
    if next >= file.svn_group.items.len() {
        (RunView::Finalizing, ActionView::WriteIgnore(ignore_after(file, next)))
    } else {
        match resolved_item(file.svn_group, file.svn_group.items[next as int]) {
            Ok(resolved) => (
                RunView::CheckingOut { file, quiet, next: next + 1 },
                ActionView::Checkout(checkout_of(quiet, resolved)),
            ),
            Err(e) => (RunView::Failed(e), ActionView::Fail(e)),
        }
    }
}

/// How a run begins, given the manifest that was loaded or the failure to
/// load it, and the action that it hands out first. Where loading failed,
/// the run has failed with that error and no item is looked at.
pub open spec fn start_of(loaded: Result<FileView, ErrorView>, quiet: bool) -> (
    RunView,
    ActionView,
) {
    match loaded {
        Ok(file) => advance_of(file, quiet, 0),
        Err(e) => (RunView::Failed(e), ActionView::Fail(e)),
    }
}

/// How a run at `before` goes on when it is told `outcome`, the outcome of
/// the action that it handed out last, and the action that it hands out
/// next. A failure ends the run with its error. A checkout that succeeded is
/// followed by the next item; the ignore file that was written, by the end
/// of the run. A run that has ended stays as it is and repeats its last
/// word.
pub open spec fn step_of(before: RunView, outcome: Result<(), ErrorView>) -> (
    RunView,
    ActionView,
) {
    match before {
        RunView::CheckingOut { file, quiet, next } => match outcome {
            Ok(_) => advance_of(file, quiet, next),
            Err(e) => (RunView::Failed(e), ActionView::Fail(e)),
        },
        RunView::Finalizing => match outcome {
            Ok(_) => (RunView::Done, ActionView::Finish),
            Err(e) => (RunView::Failed(e), ActionView::Fail(e)),
        },
        RunView::Done => (RunView::Done, ActionView::Finish),
        RunView::Failed(e) => (RunView::Failed(e), ActionView::Fail(e)),
    }
}

impl RunView {
    /// Where the run stands.
    pub open spec fn phase(self) -> Phase {
        match self {
            RunView::CheckingOut { .. } => Phase::CheckingOut,
            RunView::Finalizing => Phase::Finalizing,
            RunView::Done => Phase::Done,
            RunView::Failed(_) => Phase::Failed,
        }
    }

    /// What holds of every run: while checkouts are under way, at least
    /// one item and no more than there are have been dealt with, and each of
    /// them has resolved.
    pub open spec fn wf(self) -> bool {
        match self {
            RunView::CheckingOut { file, quiet, next } => {
                &&& 1 <= next <= file.svn_group.items.len()
                &&& all_resolve(file, next)
            },
            _ => true,
        }
    }
}

impl View for Run {
    type V = RunView;

    closed spec fn view(&self) -> RunView {
        match self.state {
            State::CheckingOut { file, quiet, next, ignore } => RunView::CheckingOut {
                file: file@,
                quiet,
                next: next as nat,
            },
            State::Finalizing => RunView::Finalizing,
            State::Done => RunView::Done,
            State::Failed(e) => RunView::Failed(e@),
        }
    }
}

fn advance(file: File, quiet: bool, next: usize, ignore: GitIgnore) -> (out: (Run, Action))
    requires
        next <= file@.svn_group.items.len(),
        all_resolve(file@, next as nat),
        ignore@ == ignore_after(file@, next as nat),
    ensures
        (out.0@, out.1@) == advance_of(file@, quiet, next as nat),
        out.0@.wf(),
{
    if next >= file.svn_group.items.len() {
        return (Run { state: State::Finalizing }, Action::WriteIgnore(ignore));
    }
    let item = &file.svn_group.items[next];
    assert(file@.svn_group.items[next as int] == item@);
    match resolve_item(&file.svn_group, item) {
        Err(e) => {
            let copy = e.duplicate();
            (Run { state: State::Failed(e) }, Action::Fail(copy))
        },
        Ok(resolved) => {
            let mut ignore = ignore;
            match &item.gitignore {
                Some(fragment) => {
                    ignore.record(resolved.dir.as_str(), fragment);
                },
                None => {},
            }
            let ResolvedItem { url, rev, dir } = resolved;
            let request = Checkout { quiet, rev, url, path: dir };
            (
                Run { state: State::CheckingOut { file, quiet, next: next + 1, ignore } },
                Action::Checkout(request),
            )
        },
    }
}

impl Run {
    #[verifier::type_invariant]
    spec fn inv(self) -> bool {
        match self.state {
            State::CheckingOut { file, quiet, next, ignore } => {
                &&& self@.wf()
                &&& ignore@ == ignore_after(file@, next as nat)
            },
            _ => true,
        }
    }

    /// Begins a run on the manifest that was loaded, or on the failure to
    /// load it, and hands out the first action.
    pub fn start(loaded: Result<File, Error>, quiet: bool) -> (out: (Run, Action))
        ensures
            out.0@.wf(),
            (out.0@, out.1@) == start_of(viewed(loaded), quiet),
    {
        match loaded {
            Ok(file) => {
                let ignore = GitIgnore::new(crate::text::clone_lines(&file.gitignore));
                advance(file, quiet, 0, ignore)
            },
            Err(e) => {
                let copy = e.duplicate();
                (Run { state: State::Failed(e) }, Action::Fail(copy))
            },
        }
    }

    /// Takes the outcome of the action that was handed out last, and hands
    /// out the next.
    pub fn step(self, outcome: Result<(), Error>) -> (out: (Run, Action))
        ensures
            self@.wf(),
            out.0@.wf(),
            (out.0@, out.1@) == step_of(self@, viewed(outcome)),
    {
        proof {
            use_type_invariant(&self);
        }
        match self.state {
            State::CheckingOut { file, quiet, next, ignore } => match outcome {
                Ok(_) => advance(file, quiet, next, ignore),
                Err(e) => {
                    let copy = e.duplicate();
                    (Run { state: State::Failed(e) }, Action::Fail(copy))
                },
            },
            State::Finalizing => match outcome {
                Ok(_) => (Run { state: State::Done }, Action::Finish),
                Err(e) => {
                    let copy = e.duplicate();
                    (Run { state: State::Failed(e) }, Action::Fail(copy))
                },
            },
            State::Done => (Run { state: State::Done }, Action::Finish),
            State::Failed(e) => {
                let copy = e.duplicate();
                (Run { state: State::Failed(e) }, Action::Fail(copy))
            },
        }
    }

    /// Where the run stands.
    pub fn phase(&self) -> (phase: Phase)
        ensures
            phase == self@.phase(),
    {
        match &self.state {
            State::CheckingOut { .. } => Phase::CheckingOut,
            State::Finalizing => Phase::Finalizing,
            State::Done => Phase::Done,
            State::Failed(_) => Phase::Failed,
        }
    }
}

/// A failure is final. An action that is reported to have failed fails
/// the run with the error that was reported, and a run that has failed stays
/// failed with its error whatever it is told. In neither case is a checkout
/// or the ignore file asked for, and what was checked out before is left
/// as it is: no action undoes one.
pub proof fn lemma_failure_is_final(before: RunView, outcome: Result<(), ErrorView>)
    requires
        before is Failed || (outcome is Err && !(before is Done)),
    ensures
        step_of(before, outcome).0 is Failed,
        step_of(before, outcome).1 == ActionView::Fail(step_of(before, outcome).0->Failed_0),
        before is Failed ==> step_of(before, outcome).0 == before,
        !(before is Failed) ==> outcome == Err::<(), ErrorView>(
            step_of(before, outcome).0->Failed_0,
        ),
{
}

/// The ignore file is asked for once the last checkout has succeeded, and
/// not before: when it is due, every item of the manifest has resolved and
/// its checkout has been handed out, the outcome just reported is a success,
/// and the rules are those of all the items.
pub proof fn lemma_ignore_file_comes_last(before: RunView, outcome: Result<(), ErrorView>)
    requires
        before.wf(),
        step_of(before, outcome).1 is WriteIgnore,
    ensures
        outcome is Ok,
        step_of(before, outcome).0 == RunView::Finalizing,
        match before {
            RunView::CheckingOut { file, quiet, next } => {
                &&& next == file.svn_group.items.len()
                &&& all_resolve(file, file.svn_group.items.len())
                &&& step_of(before, outcome).1 == ActionView::WriteIgnore(
                    ignore_after(file, file.svn_group.items.len()),
                )
            },
            _ => false,
        },
{
}

/// The checkouts come in the order of the items, one for each: the
/// checkout that follows a success is that of the item after the one just
/// checked out, with the URL, the revision and the directory that the item
/// resolves to.
pub proof fn lemma_checkouts_in_order(before: RunView, outcome: Result<(), ErrorView>)
    requires
        step_of(before, outcome).1 is Checkout,
    ensures
        outcome is Ok,
        match before {
            RunView::CheckingOut { file, quiet, next } => {
                &&& next < file.svn_group.items.len()
                &&& step_of(before, outcome).0 == RunView::CheckingOut {
                    file,
                    quiet,
                    next: next + 1,
                }
                &&& match resolved_item(file.svn_group, file.svn_group.items[next as int]) {
                    Ok(resolved) => step_of(before, outcome).1 == ActionView::Checkout(
                        checkout_of(quiet, resolved),
                    ),
                    Err(_) => false,
                }
            },
            _ => false,
        },
{
}

/// Where a run stands, and what it has handed out last, once `k` actions
/// in a row have been reported to have succeeded.
pub open spec fn after_successes(file: FileView, quiet: bool, k: nat) -> (RunView, ActionView)
    decreases k,
{
    if k == 0 {
        start_of(Ok(file), quiet)
    } else {
        step_of(after_successes(file, quiet, (k - 1) as nat).0, Ok(()))
    }
}

/// A run in which every action succeeds, on a manifest of `n` items that
/// all resolve, hands out the checkouts of the items in their order, one for
/// each, then the ignore file with the rules of all items, then the end, and
/// nothing else.
pub proof fn lemma_run_of_successes(file: FileView, quiet: bool, k: nat)
    requires
        all_resolve(file, file.svn_group.items.len()),
    ensures
        k < file.svn_group.items.len() ==> after_successes(file, quiet, k) == (
            RunView::CheckingOut { file, quiet, next: k + 1 },
            ActionView::Checkout(
                checkout_of(
                    quiet,
                    resolved_item(file.svn_group, file.svn_group.items[k as int])->Ok_0,
                ),
            ),
        ),
        k == file.svn_group.items.len() ==> after_successes(file, quiet, k) == (
            RunView::Finalizing,
            ActionView::WriteIgnore(ignore_after(file, file.svn_group.items.len())),
        ),
        k > file.svn_group.items.len() ==> after_successes(file, quiet, k) == (
            RunView::Done,
            ActionView::Finish,
        ),
    decreases k,
{
    if k > 0 {
        lemma_run_of_successes(file, quiet, (k - 1) as nat);
    }
    if k < file.svn_group.items.len() {
        assert(resolved_item(file.svn_group, file.svn_group.items[k as int]) is Ok);
    }
}

/// A run stops at the first item that does not resolve: the checkouts of
/// the items before it have been handed out in their order, and in place of
/// its own checkout the run fails with the error of its resolution.
pub proof fn lemma_run_stops_at_first_failure(file: FileView, quiet: bool, k: nat)
    requires
        k < file.svn_group.items.len(),
        all_resolve(file, k),
        resolved_item(file.svn_group, file.svn_group.items[k as int]) is Err,
    ensures
        after_successes(file, quiet, k) == (
            RunView::Failed(resolved_item(file.svn_group, file.svn_group.items[k as int])->Err_0),
            ActionView::Fail(resolved_item(file.svn_group, file.svn_group.items[k as int])->Err_0),
        ),
        forall|j: nat|
            j < k ==> (#[trigger] after_successes(file, quiet, j)).0 == (RunView::CheckingOut {
                file,
                quiet,
                next: j + 1,
            }),
{
    assert forall|j: nat| j < k implies (#[trigger] after_successes(file, quiet, j)).0 == (
    RunView::CheckingOut { file, quiet, next: j + 1 }) by {
        lemma_prefix_of_successes(file, quiet, k, j);
    }
    if k > 0 {
        lemma_prefix_of_successes(file, quiet, k, (k - 1) as nat);
    }
}

proof fn lemma_prefix_of_successes(file: FileView, quiet: bool, n: nat, j: nat)
    requires
        n <= file.svn_group.items.len(),
        all_resolve(file, n),
        j < n,
    ensures
        after_successes(file, quiet, j).0 == (RunView::CheckingOut { file, quiet, next: j + 1 }),
    decreases j,
{
    if j > 0 {
        lemma_prefix_of_successes(file, quiet, n, (j - 1) as nat);
    }
    assert(resolved_item(file.svn_group, file.svn_group.items[j as int]) is Ok);
}

/// The rules of the ignore file keep the lines of the manifest that go in
/// as they are, and hold one entry of either sort for each item with ignore
/// patterns. Where none of the items has any, the ignore file holds the
/// lines of the manifest and nothing else.
pub proof fn lemma_ignore_rules(file: FileView, n: nat)
    requires
        n <= file.svn_group.items.len(),
        all_resolve(file, n),
    ensures
        ignore_after(file, n).exclude_all == file.gitignore,
        ignore_after(file, n).exclude_paths.len() == ignore_after(file, n).include_paths.len(),
        ignore_after(file, n).exclude_paths.len() <= n,
        (forall|i: int| 0 <= i < n ==> (#[trigger] file.svn_group.items[i]).gitignore is None)
            ==> ignore_after(file, n) == GitIgnoreView::starting_with(file.gitignore)
            && ignore_after(file, n).lines() == file.gitignore,
    decreases n,
{
    if n > 0 {
        lemma_ignore_rules(file, (n - 1) as nat);
        let item = file.svn_group.items[n - 1];
        assert(resolved_item(file.svn_group, item) is Ok);
    }
    let plain = GitIgnoreView::starting_with(file.gitignore);
    assert(crate::gitignore::exclude_section(plain.exclude_paths) =~= Seq::empty());
    assert(crate::gitignore::readmit_section(plain.include_paths) =~= Seq::empty());
    assert(plain.lines() =~= file.gitignore);
}

} // verus!
