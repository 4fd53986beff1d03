//! The decisions of dependency resolution: where a declared dependency comes
//! from, whether the copy on disk may be used again, what has to be fetched,
//! and which failure ends the run.

use vstd::prelude::*;
use crate::config::{DependencyView, TestDepedency};
use crate::remote::{
    find_head, head_of, listed_refs, parse_refs, ref_name, ref_name_of, space_map,
};
use crate::state::{fresh, known, refreshed, EntryView, State};
use crate::text::{chars_of, has_prefix, joined, opt_chars, string_of};

verus! {

/// Where a declared dependency comes from, as a mathematical value.
pub enum SourceView {
    Directory { path: Seq<char>, absolute: bool },
    Repository,
}

/// Where a declared dependency comes from: a directory of this machine, named
/// by an absolute path or by one relative to the working directory, or a
/// remote repository.
#[derive(Debug, PartialEq, Eq)]
pub enum Source {
    Directory { path: String, absolute: bool },
    Repository,
}

impl View for Source {
    type V = SourceView;

    open spec fn view(&self) -> SourceView {
        match self {
            Source::Directory { path, absolute } => SourceView::Directory {
                path: path@,
                absolute: *absolute,
            },
            Source::Repository => SourceView::Repository,
        }
    }
}

/// A URI that begins with `file://` names a directory by its absolute path;
/// one that begins with `file:` names a directory relative to the working
/// directory; any other names a repository.
pub open spec fn source_of(uri: Seq<char>) -> SourceView {
    if "file://"@.is_prefix_of(uri) {
        SourceView::Directory { path: uri.skip("file://"@.len() as int), absolute: true }
    } else if "file:"@.is_prefix_of(uri) {
        SourceView::Directory { path: uri.skip("file:"@.len() as int), absolute: false }
    } else {
        SourceView::Repository
    }
}

/// Tells a local directory from a remote repository by the form of the URI.
pub fn source(dep: &TestDepedency) -> (r: Source)
    ensures
        r@ == source_of(dep@.uri),
{
    let uri = chars_of(dep.uri.as_str());
    let long = chars_of("file://");
    let short = chars_of("file:");
    if has_prefix(&uri, &long) {
        let path = string_of(&uri, long.len(), uri.len());
        Source::Directory { path, absolute: true }
    } else if has_prefix(&uri, &short) {
        let path = string_of(&uri, short.len(), uri.len());
        Source::Directory { path, absolute: false }
    } else {
        Source::Repository
    }
}

/// What to do with a local directory once it has been looked at.
#[derive(Debug, PartialEq, Eq, Structural, Clone, Copy)]
pub enum LocalVerdict {
    /// It is a directory: tests see it.
    Use,
    /// Nothing is there: the dependency is passed over.
    Missing,
    /// Something other than a directory is there: the dependency is passed over.
    NotDirectory,
}

/// A local dependency is used where its path leads to a directory, and is
/// passed over, never fatally, where it does not.
pub open spec fn local_verdict(exists: bool, is_dir: bool) -> LocalVerdict {
    if !exists {
        LocalVerdict::Missing
    } else if !is_dir {
        LocalVerdict::NotDirectory
    } else {
        LocalVerdict::Use
    }
}

/// Judges a local dependency from what the file system says of its path.
pub fn judge_local(exists: bool, is_dir: bool) -> (r: LocalVerdict)
    ensures
        r == local_verdict(exists, is_dir),
{
    if !exists {
        LocalVerdict::Missing
    } else if !is_dir {
        LocalVerdict::NotDirectory
    } else {
        LocalVerdict::Use
    }
}

/// A failure that ends the run before any test starts, as a mathematical
/// value.
pub enum ResolveErrorView {
    InvalidUri { uri: Seq<char> },
    GitMissing,
    NotARepository { uri: Seq<char> },
    BranchMissing { ref_name: Seq<char>, uri: Seq<char> },
    CloneFailed { uri: Seq<char>, detail: Seq<char> },
    ResetFailed { uri: Seq<char>, revision: Seq<char> },
    StateMissing { uri: Seq<char>, branch: Option<Seq<char>> },
}

/// A failure that ends the run before any test starts.
#[derive(Debug, PartialEq, Eq)]
pub enum ResolveError {
    /// The URI has no last component to name the copy after.
    InvalidUri { uri: String },
    /// The version-control tool could not be started.
    GitMissing,
    /// The remote did not list its references.
    NotARepository { uri: String },
    /// The remote lists no reference of this name.
    BranchMissing { ref_name: String, uri: String },
    /// The clone failed; `detail` is what the tool said.
    CloneFailed { uri: String, detail: String },
    /// The clone does not hold the revision.
    ResetFailed { uri: String, revision: String },
    /// Remote checks are off and nothing is remembered of this dependency.
    StateMissing { uri: String, branch: Option<String> },
}

impl View for ResolveError {
    type V = ResolveErrorView;

    open spec fn view(&self) -> ResolveErrorView {
        match self {
            ResolveError::InvalidUri { uri } => ResolveErrorView::InvalidUri { uri: uri@ },
            ResolveError::GitMissing => ResolveErrorView::GitMissing,
            ResolveError::NotARepository { uri } => ResolveErrorView::NotARepository { uri: uri@ },
            ResolveError::BranchMissing { ref_name, uri } => ResolveErrorView::BranchMissing {
                ref_name: ref_name@,
                uri: uri@,
            },
            ResolveError::CloneFailed { uri, detail } => ResolveErrorView::CloneFailed {
                uri: uri@,
                detail: detail@,
            },
            ResolveError::ResetFailed { uri, revision } => ResolveErrorView::ResetFailed {
                uri: uri@,
                revision: revision@,
            },
            ResolveError::StateMissing { uri, branch } => ResolveErrorView::StateMissing {
                uri: uri@,
                branch: opt_chars(*branch),
            },
        }
    }
}

/// The directory that holds the copy of a repository whose URI ends in the
/// component `name`.
pub open spec fn target_path_of(name: Seq<char>) -> Seq<char> {
    ".test/external-dep/"@ + name
}

/// The last component of `uri` read as a path, as `Path::file_name` of the
/// standard library finds it, or `None` where it finds none.
pub uninterp spec fn file_name_of(uri: Seq<char>) -> Option<Seq<char>>;

/// Asks `Path::file_name` for the last component of `uri` read as a path.
/// The answer depends on the text of `uri` alone and is taken as given:
/// nothing is claimed about which component it is, nor about which texts
/// have none.
#[verifier::external_body]
fn last_component(uri: &str) -> (r: Option<String>)
    ensures
        opt_chars(r) == file_name_of(uri@),
{
    let name = std::path::Path::new(uri).file_name()?;
    Some(name.to_str()?.to_owned())
}

/// The directory for the copy of the repository at `uri`, given the last
/// component of that URI; a URI without one is refused.
pub fn target_for(uri: &str, name: Option<String>) -> (r: Result<String, ResolveError>)
    ensures
        match name {
            Some(n) => r matches Ok(p) && p@ == target_path_of(n@),
            None => r matches Err(e) && e@ == (ResolveErrorView::InvalidUri { uri: uri@ }),
        },
{
    match name {
        Some(n) => Ok(joined(".test/external-dep/", n.as_str())),
        None => Err(ResolveError::InvalidUri { uri: uri.to_owned() }),
    }
}

/// The directory for the copy of a remote dependency: the directory of
/// copies, then the last component of the URI. The same URI always gives
/// the same directory. The only failure is a URI without a last component.
pub fn target_path(dep: &TestDepedency) -> (r: Result<String, ResolveError>)
    ensures
        match file_name_of(dep@.uri) {
            Some(n) => r matches Ok(p) && p@ == target_path_of(n),
            None => r matches Err(e) && e@ == (ResolveErrorView::InvalidUri { uri: dep@.uri }),
        },
{
    let name = last_component(dep.uri.as_str());
    target_for(dep.uri.as_str(), name)
}

/// With remote checks off, a remote dependency is accepted exactly where the
/// record holds an entry for its repository and branch, and for its pin where
/// it has one.
pub open spec fn offline_verdict(entries: Seq<EntryView>, dep: DependencyView) -> Result<
    (),
    ResolveErrorView,
> {
    if known(entries, dep) {
        Ok(())
    } else {
        Err(ResolveErrorView::StateMissing { uri: dep.uri, branch: dep.branch })
    }
}

/// Decides on a remote dependency without asking the remote.
pub fn resolve_offline(prior: &State, dep: &TestDepedency) -> (r: Result<(), ResolveError>)
    ensures
        match offline_verdict(prior@.entries, dep@) {
            Ok(_) => r is Ok,
            Err(v) => r matches Err(e) && e@ == v,
        },
{
    if prior.is_known(dep) {
        Ok(())
    } else {
        Err(ResolveError::StateMissing { uri: dep.uri.clone(), branch: dep.branch.clone() })
    }
}

/// What came of asking a remote for its references, as a mathematical value.
pub enum ListingView {
    NoTool,
    Refused,
    Listed(Seq<char>),
}

/// What came of asking a remote for its references.
#[derive(Debug, PartialEq, Eq)]
pub enum Listing {
    /// The version-control tool could not be started.
    NoTool,
    /// The tool ran and reported failure.
    Refused,
    /// The tool printed this list.
    Listed(String),
}

impl View for Listing {
    type V = ListingView;

    open spec fn view(&self) -> ListingView {
        match self {
            Listing::NoTool => ListingView::NoTool,
            Listing::Refused => ListingView::Refused,
            Listing::Listed(text) => ListingView::Listed(text@),
        }
    }
}

/// The commit at the head of the branch that `dep` names, or of the remote's
/// default head where it names none, as the listing gives it; or the failure
/// that the listing amounts to.
pub open spec fn branch_head_of(dep: DependencyView, listing: ListingView) -> Result<
    Seq<char>,
    ResolveErrorView,
> {
    match listing {
        ListingView::NoTool => Err(ResolveErrorView::GitMissing),
        ListingView::Refused => Err(ResolveErrorView::NotARepository { uri: dep.uri }),
        ListingView::Listed(text) => match head_of(
            listed_refs(text, space_map(text), 0),
            ref_name_of(dep.branch),
        ) {
            Some(hash) => Ok(hash),
            None => Err(
                ResolveErrorView::BranchMissing { ref_name: ref_name_of(dep.branch), uri: dep.uri },
            ),
        },
    }
}

/// Finds the commit at the head of the branch of `dep` in what the remote
/// listed.
pub fn branch_head(dep: &TestDepedency, listing: &Listing) -> (r: Result<String, ResolveError>)
    ensures
        match branch_head_of(dep@, listing@) {
            Ok(hash) => r matches Ok(h) && h@ == hash,
            Err(v) => r matches Err(e) && e@ == v,
        },
{
    match listing {
        Listing::NoTool => Err(ResolveError::GitMissing),
        Listing::Refused => Err(ResolveError::NotARepository { uri: dep.uri.clone() }),
        Listing::Listed(text) => {
            let refs = parse_refs(text.as_str());
            let name = ref_name(&dep.branch);
            match find_head(&refs, name.as_str()) {
                Some(hash) => Ok(hash),
                None => Err(ResolveError::BranchMissing { ref_name: name, uri: dep.uri.clone() }),
            }
        },
    }
}

/// What to do about a remote dependency, as a mathematical value.
pub enum PlanView {
    Reuse,
    Fetch { remove_existing: bool, revision: Seq<char> },
}

/// What to do about a remote dependency whose branch head is known.
#[derive(Debug, PartialEq, Eq)]
pub enum Plan {
    /// The copy on disk is the one to use: nothing on disk is touched.
    Reuse,
    /// Clone the repository and reset the clone to `revision`, after removing
    /// what stands in the way where `remove_existing` says so.
    Fetch { remove_existing: bool, revision: String },
}

impl View for Plan {
    type V = PlanView;

    open spec fn view(&self) -> PlanView {
        match self {
            Plan::Reuse => PlanView::Reuse,
            Plan::Fetch { remove_existing, revision } => PlanView::Fetch {
                remove_existing: *remove_existing,
                revision: revision@,
            },
        }
    }
}

/// The revision that a fresh clone of `dep` is reset to: its pin, or the head
/// of its branch where it has none.
pub open spec fn revision_of(dep: DependencyView, head: Seq<char>) -> Seq<char> {
    match dep.sha {
        Some(pin) => pin,
        None => head,
    }
}

/// The copy on disk is used again exactly where the record shows it fresh;
/// otherwise the repository is fetched, and a stale copy goes first.
pub open spec fn plan_of(
    entries: Seq<EntryView>,
    dep: DependencyView,
    head: Seq<char>,
    on_disk: bool,
) -> PlanView {
    if fresh(entries, dep, head) {
        PlanView::Reuse
    } else {
        PlanView::Fetch { remove_existing: on_disk, revision: revision_of(dep, head) }
    }
}

/// The revision that a fresh clone of `dep` is reset to.
pub fn revision(dep: &TestDepedency, head: &str) -> (r: String)
    ensures
        r@ == revision_of(dep@, head@),
{
    match &dep.sha {
        Some(pin) => pin.clone(),
        None => head.to_owned(),
    }
}

/// Decides between using the copy on disk again and fetching anew, from the
/// record of the last run, the head of the branch now, and whether anything
/// stands at the copy's path.
pub fn plan_remote(prior: &State, dep: &TestDepedency, head: &str, on_disk: bool) -> (r: Plan)
    ensures
        r@ == plan_of(prior@.entries, dep@, head@, on_disk),
{
    if prior.is_fresh(dep, head) {
        Plan::Reuse
    } else {
        Plan::Fetch { remove_existing: on_disk, revision: revision(dep, head) }
    }
}

/// How a fetch ended, as a mathematical value.
pub enum FetchReportView {
    Done,
    CloneFailed { detail: Seq<char> },
    ResetFailed,
}

/// How a fetch ended.
#[derive(Debug, PartialEq, Eq)]
pub enum FetchReport {
    /// The clone stands at the revision asked for.
    Done,
    /// The clone failed; `detail` is what the tool said.
    CloneFailed { detail: String },
    /// The clone was made, but could not be reset to the revision.
    ResetFailed,
}

impl View for FetchReport {
    type V = FetchReportView;

    open spec fn view(&self) -> FetchReportView {
        match self {
            FetchReport::Done => FetchReportView::Done,
            FetchReport::CloneFailed { detail } => FetchReportView::CloneFailed { detail: detail@ },
            FetchReport::ResetFailed => FetchReportView::ResetFailed,
        }
    }
}

/// The failure that a fetch of `dep` amounts to, if it failed.
pub open spec fn fetch_failure(
    dep: DependencyView,
    head: Seq<char>,
    report: FetchReportView,
) -> Option<ResolveErrorView> {
    match report {
        FetchReportView::Done => None,
        FetchReportView::CloneFailed { detail } => Some(
            ResolveErrorView::CloneFailed { uri: dep.uri, detail },
        ),
        FetchReportView::ResetFailed => Some(
            ResolveErrorView::ResetFailed { uri: dep.uri, revision: revision_of(dep, head) },
        ),
    }
}

/// Takes note of how the fetch of the remote dependency `dep` ended. Only
/// remote dependencies are fetched, and only they are ever remembered. A
/// fetch that succeeded is remembered in `next`, in place of whatever was remembered of the same
/// repository; one that failed leaves `next` as it was and ends the run.
pub fn fetched(next: &mut State, dep: &TestDepedency, head: &str, report: FetchReport) -> (r:
    Result<(), ResolveError>)
    requires
        is_remote(dep@),
    ensures
        final(next)@.test_utils == old(next)@.test_utils,
        match fetch_failure(dep@, head@, report@) {
            None => r is Ok && final(next)@.entries == refreshed(old(next)@.entries, dep@, head@),
            Some(v) => r matches Err(e) && e@ == v && final(next)@ == old(next)@,
        },
{
    match report {
        FetchReport::Done => {
            next.refresh(dep, head);
            Ok(())
        },
        FetchReport::CloneFailed { detail } => Err(
            ResolveError::CloneFailed { uri: dep.uri.clone(), detail },
        ),
        FetchReport::ResetFailed => Err(
            ResolveError::ResetFailed { uri: dep.uri.clone(), revision: revision(dep, head) },
        ),
    }
}

/// Whether `dep` names a remote repository.
pub open spec fn is_remote(dep: DependencyView) -> bool {
    source_of(dep.uri) is Repository
}

/// The record after one dependency has been resolved with remote checks on,
/// its branch head being `head`: a remote dependency that `prior` does not
/// show fresh is fetched and remembered in `next`; anything else leaves
/// `next` as it is.
pub open spec fn step_of(
    prior: Seq<EntryView>,
    next: Seq<EntryView>,
    dep: DependencyView,
    head: Seq<char>,
) -> Seq<EntryView> {
    if is_remote(dep) && !fresh(prior, dep, head) {
        refreshed(next, dep, head)
    } else {
        next
    }
}

/// The record after the dependencies `deps` have been resolved in order with
/// remote checks on, every fetch succeeding, where `heads[i]` is the head of
/// the branch of `deps[i]`. Freshness is judged by `prior`, the record of the
/// last run; what is fetched is remembered in `next`.
pub open spec fn run_of(
    prior: Seq<EntryView>,
    next: Seq<EntryView>,
    deps: Seq<DependencyView>,
    heads: Seq<Seq<char>>,
) -> Seq<EntryView>
    decreases deps.len(),
{
    if deps.len() == 0 {
        next
    } else {
        step_of(
            prior,
            run_of(prior, next, deps.drop_last(), heads.drop_last()),
            deps.last(),
            heads.last(),
        )
    }
}

/// How many of `deps` such a run fetches.
pub open spec fn fetches_of(
    prior: Seq<EntryView>,
    deps: Seq<DependencyView>,
    heads: Seq<Seq<char>>,
) -> nat
    decreases deps.len(),
{
    if deps.len() == 0 {
        0
    } else {
        fetches_of(prior, deps.drop_last(), heads.drop_last()) + if is_remote(deps.last())
            && !fresh(prior, deps.last(), heads.last()) {
            1nat
        } else {
            0nat
        }
    }
}

/// No two remote dependencies among `deps` name the same repository.
pub open spec fn distinct_repositories(deps: Seq<DependencyView>) -> bool {
    forall|i: int, j: int|
        0 <= i < j < deps.len() && is_remote(deps[i]) && is_remote(deps[j]) ==> deps[i].uri
            != deps[j].uri
}

} // verus!
