//! One run of dependency resolution: the record of the last run, the record
//! being written, and the directories found so far for the tests to see.

use vstd::prelude::*;
use crate::config::{DependencyView, TestDepedency};
use crate::report::{Notice, NoticeView};
use crate::resolve::{
    branch_head, branch_head_of, fetch_failure, fetched, is_remote, judge_local, local_verdict,
    plan_of, plan_remote, resolve_offline, FetchReport, Listing, LocalVerdict, Plan, PlanView,
    ResolveError, ResolveErrorView,
};
use crate::state::{known, refreshed, without_uri, State, StateView};
use crate::text::texts;

verus! {

/// A dependency that the tests will see, as a mathematical value.
pub struct ResolvedView {
    pub path: Seq<char>,
    pub origin: DependencyView,
}

/// A dependency that the tests will see: the directory it stands in, and the
/// declaration it answers.
#[derive(Debug, PartialEq, Eq)]
pub struct ResolvedDependency {
    pub path: String,
    pub origin: TestDepedency,
}

impl View for ResolvedDependency {
    type V = ResolvedView;

    open spec fn view(&self) -> ResolvedView {
        ResolvedView { path: self.path@, origin: self.origin@ }
    }
}

/// The views of a list of resolved dependencies.
pub open spec fn resolved_views(v: Seq<ResolvedDependency>) -> Seq<ResolvedView> {
    v.map_values(|r: ResolvedDependency| r@)
}

/// The directories of a list of resolved dependencies, in order.
pub open spec fn paths_of(v: Seq<ResolvedView>) -> Seq<Seq<char>> {
    v.map_values(|r: ResolvedView| r.path)
}

/// A run of dependency resolution, as a mathematical value.
pub struct ResolutionView {
    pub prior: StateView,
    pub next: StateView,
    pub skip_remote_check: bool,
    pub external: Seq<ResolvedView>,
    pub local: Seq<ResolvedView>,
}

/// A run of dependency resolution. Freshness is judged by `prior`, the
/// record of the last run; what is fetched is remembered in `next`, the
/// record to persist when the run is over. `external` and `local` list, in
/// the order of their declarations, the remote and the local dependencies
/// resolved so far.
#[derive(Debug, PartialEq, Eq)]
pub struct Resolution {
    pub prior: State,
    pub next: State,
    pub skip_remote_check: bool,
    pub external: Vec<ResolvedDependency>,
    pub local: Vec<ResolvedDependency>,
}

impl View for Resolution {
    type V = ResolutionView;

    open spec fn view(&self) -> ResolutionView {
        ResolutionView {
            prior: self.prior@,
            next: self.next@,
            skip_remote_check: self.skip_remote_check,
            external: resolved_views(self.external@),
            local: resolved_views(self.local@),
        }
    }
}

/// What a remote dependency needs next.
#[derive(Debug, PartialEq, Eq, Structural, Clone, Copy)]
pub enum RemoteStep {
    /// Nothing: the record vouches for the copy on disk, and the tests will
    /// see it.
    Settled,
    /// The remote has to be asked for its references.
    Ask,
}

/// The notice that goes with passing over a local dependency.
pub open spec fn local_notice_of(verdict: LocalVerdict, uri: Seq<char>) -> Option<NoticeView> {
    match verdict {
        LocalVerdict::Use => None,
        LocalVerdict::Missing => Some(NoticeView::PathMissing { uri }),
        LocalVerdict::NotDirectory => Some(NoticeView::NotDirectory { uri }),
    }
}

/// The notice that goes with passing over a local dependency: every skip is
/// told, and a dependency that is used needs no word.
pub fn local_notice(verdict: LocalVerdict, dep: &TestDepedency) -> (r: Option<Notice>)
    ensures
        match local_notice_of(verdict, dep@.uri) {
            Some(v) => r matches Some(n) && n@ == v,
            None => r is None,
        },
{
    match verdict {
        LocalVerdict::Use => None,
        LocalVerdict::Missing => Some(Notice::PathMissing { uri: dep.uri.clone() }),
        LocalVerdict::NotDirectory => Some(Notice::NotDirectory { uri: dep.uri.clone() }),
    }
}

/// What is decided about a remote dependency once its remote has answered.
#[derive(Debug, PartialEq, Eq)]
pub struct Decision {
    /// The commit at the head of the dependency's branch.
    pub head: String,
    /// Whether to use the copy on disk or to fetch.
    pub plan: Plan,
}

impl Resolution {
    /// Starts a run from the record of the last one.
    pub fn new(prior: State, skip_remote_check: bool) -> (r: Resolution)
        ensures
            r@ == (ResolutionView {
                prior: prior@,
                next: prior@,
                skip_remote_check,
                external: Seq::empty(),
                local: Seq::empty(),
            }),
    {
        let next = prior.clone();
        let r = Resolution {
            prior,
            next,
            skip_remote_check,
            external: Vec::new(),
            local: Vec::new(),
        };
        assert(r@.external =~= Seq::empty());
        assert(r@.local =~= Seq::empty());
        r
    }

    /// Takes in a local dependency whose directory, `path`, has been looked
    /// at. A directory is listed for the tests; anything else is passed
    /// over, and the run goes on unchanged.
    pub fn add_local(&mut self, dep: &TestDepedency, path: String, exists: bool, is_dir: bool) -> (r:
        LocalVerdict)
        ensures
            r == local_verdict(exists, is_dir),
            final(self)@ == if r == LocalVerdict::Use {
                ResolutionView {
                    local: old(self)@.local.push(ResolvedView { path: path@, origin: dep@ }),
                    ..old(self)@
                }
            } else {
                old(self)@
            },
    {
        let verdict = judge_local(exists, is_dir);
        match verdict {
            LocalVerdict::Use => {
                let ghost shown = self@.local;
                self.local.push(ResolvedDependency { path, origin: dep.clone() });
                assert(self@.local =~= shown.push(ResolvedView { path: path@, origin: dep@ }));
            },
            _ => {},
        }
        verdict
    }

    /// Lists the copy of `dep` at `path` for the tests.
    fn expose(&mut self, dep: &TestDepedency, path: String)
        ensures
            final(self)@ == (ResolutionView {
                external: old(self)@.external.push(ResolvedView { path: path@, origin: dep@ }),
                ..old(self)@
            }),
    {
        let ghost shown = self@.external;
        self.external.push(ResolvedDependency { path, origin: dep.clone() });
        assert(self@.external =~= shown.push(ResolvedView { path: path@, origin: dep@ }));
    }

    /// Takes up a remote dependency whose copy belongs at `path`; a local
    /// one goes to `add_local` and never reaches the record. With remote
    /// checks off, the record of the last run must know the dependency: then
    /// the copy is listed for the tests without a word to the remote, and
    /// otherwise the run fails. With remote checks on, the remote is to be
    /// asked.
    pub fn begin_remote(&mut self, dep: &TestDepedency, path: String) -> (r: Result<
        RemoteStep,
        ResolveError,
    >)
        requires
            is_remote(dep@),
        ensures
            !old(self)@.skip_remote_check ==> r == Ok::<RemoteStep, ResolveError>(RemoteStep::Ask)
                && final(self)@ == old(self)@,
            old(self)@.skip_remote_check && known(old(self)@.prior.entries, dep@) ==> r == Ok::<
                RemoteStep,
                ResolveError,
            >(RemoteStep::Settled) && final(self)@ == (ResolutionView {
                external: old(self)@.external.push(ResolvedView { path: path@, origin: dep@ }),
                ..old(self)@
            }),
            old(self)@.skip_remote_check && !known(old(self)@.prior.entries, dep@) ==> (r matches Err(
                e,
            ) && e@ == (ResolveErrorView::StateMissing { uri: dep@.uri, branch: dep@.branch }))
                && final(self)@ == old(self)@,
    {
        if !self.skip_remote_check {
            return Ok(RemoteStep::Ask);
        }
        match resolve_offline(&self.prior, dep) {
            Ok(()) => {
                self.expose(dep, path);
                Ok(RemoteStep::Settled)
            },
            Err(e) => Err(e),
        }
    }

    /// Decides about a remote dependency from what its remote listed and
    /// from whether anything stands at `path`. A failed listing, or one
    /// without the dependency's branch, fails the run. A copy that the
    /// record of the last run shows fresh is listed for the tests as it is.
    /// Otherwise a fetch is planned: the record to persist lets go of what
    /// it held of the repository, and nothing is listed until the fetch has
    /// succeeded.
    pub fn decide(&mut self, dep: &TestDepedency, path: String, listing: &Listing, on_disk: bool) -> (r:
        Result<Decision, ResolveError>)
        requires
            is_remote(dep@),
        ensures
            match branch_head_of(dep@, listing@) {
                Err(v) => r matches Err(e) && e@ == v && final(self)@ == old(self)@,
                Ok(head) => r matches Ok(d) && d.head@ == head && d.plan@ == plan_of(
                    old(self)@.prior.entries,
                    dep@,
                    head,
                    on_disk,
                ) && final(self)@ == if d.plan@ == PlanView::Reuse {
                    ResolutionView {
                        external: old(self)@.external.push(
                            ResolvedView { path: path@, origin: dep@ },
                        ),
                        ..old(self)@
                    }
                } else {
                    ResolutionView {
                        next: StateView {
                            entries: without_uri(old(self)@.next.entries, dep@.uri),
                            ..old(self)@.next
                        },
                        ..old(self)@
                    }
                },
            },
    {
        match branch_head(dep, listing) {
            Err(e) => Err(e),
            Ok(head) => {
                let plan = plan_remote(&self.prior, dep, head.as_str(), on_disk);
                match plan {
                    Plan::Reuse => {
                        self.expose(dep, path);
                    },
                    _ => {
                        self.next.forget(dep.uri.as_str());
                    },
                }
                Ok(Decision { head, plan })
            },
        }
    }

    /// Takes note of how the fetch of `dep` into `path` ended, the head of
    /// its branch being `head`. After a fetch that succeeded, the record to
    /// persist remembers it in place of whatever it held of the same
    /// repository, and the copy is listed for the tests. A fetch that failed
    /// fails the run, and nothing changes.
    pub fn fetched(&mut self, dep: &TestDepedency, path: String, head: &str, report: FetchReport) -> (r:
        Result<(), ResolveError>)
        requires
            is_remote(dep@),
        ensures
            match fetch_failure(dep@, head@, report@) {
                Some(v) => r matches Err(e) && e@ == v && final(self)@ == old(self)@,
                None => r is Ok && final(self)@ == (ResolutionView {
                    next: StateView {
                        entries: refreshed(old(self)@.next.entries, dep@, head@),
                        ..old(self)@.next
                    },
                    external: old(self)@.external.push(ResolvedView { path: path@, origin: dep@ }),
                    ..old(self)@
                }),
            },
    {
        match fetched(&mut self.next, dep, head, report) {
            Err(e) => Err(e),
            Ok(()) => {
                self.expose(dep, path);
                Ok(())
            },
        }
    }

    /// The directories of the remote dependencies resolved so far, in order.
    pub fn external_paths(&self) -> (r: Vec<String>)
        ensures
            texts(r@) == paths_of(self@.external),
    {
        paths(&self.external)
    }

    /// The directories of the local dependencies resolved so far, in order.
    pub fn local_paths(&self) -> (r: Vec<String>)
        ensures
            texts(r@) == paths_of(self@.local),
    {
        paths(&self.local)
    }
}

/// The directories of `resolved`, in order.
fn paths(resolved: &Vec<ResolvedDependency>) -> (r: Vec<String>)
    ensures
        texts(r@) == paths_of(resolved_views(resolved@)),
{
    let mut out: Vec<String> = Vec::new();
    let mut i: usize = 0;
    while i < resolved.len()
        invariant
            i <= resolved@.len(),
            out@.len() == i,
            forall|k: int| 0 <= k < i ==> out@[k]@ == resolved@[k].path@,
        decreases resolved@.len() - i,
    {
        out.push(resolved[i].path.clone());
        i = i + 1;
    }
    assert(texts(out@) =~= paths_of(resolved_views(resolved@)));
    out
}

} // verus!
