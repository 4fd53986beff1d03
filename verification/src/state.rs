//! The record kept between runs: which remote dependency was materialised from
//! which branch and pin, and at which commit.

use vstd::prelude::*;
use crate::config::{DependencyView, TestDepedency};
use crate::resolve::is_remote;
use crate::text::{opt_chars, same_opt_text, same_text};

verus! {

/// One remembered remote dependency, as a mathematical value.
pub struct EntryView {
    pub uri: Seq<char>,
    pub hash: Seq<char>,
    pub branch: Option<Seq<char>>,
    pub sha: Option<Seq<char>>,
}

/// The whole record, as a mathematical value.
pub struct StateView {
    pub entries: Seq<EntryView>,
    pub test_utils: Option<Seq<char>>,
}

/// One remembered remote dependency: the repository, the branch and pin it
/// was asked for with, and the commit at the head of that branch at the time.
#[derive(Debug, PartialEq, Eq)]
pub struct TestDepedencyState {
    pub uri: String,
    pub hash: String,
    pub branch: Option<String>,
    pub sha: Option<String>,
}

/// The version of the shared test utilities that is on disk.
#[derive(Debug, PartialEq, Eq)]
pub struct LuaTestUtilsState {
    pub version: String,
}

/// The record kept between runs.
#[derive(Debug, PartialEq, Eq)]
pub struct State {
    pub test_dependencies: Vec<TestDepedencyState>,
    pub lua_test_utils: Option<LuaTestUtilsState>,
}

impl View for TestDepedencyState {
    type V = EntryView;

    open spec fn view(&self) -> EntryView {
        EntryView {
            uri: self.uri@,
            hash: self.hash@,
            branch: opt_chars(self.branch),
            sha: opt_chars(self.sha),
        }
    }
}

impl View for State {
    type V = StateView;

    open spec fn view(&self) -> StateView {
        StateView {
            entries: self.test_dependencies@.map_values(|e: TestDepedencyState| e@),
            test_utils: match self.lua_test_utils {
                Some(t) => Some(t.version@),
                None => None,
            },
        }
    }
}

/// The entry `e` shows that the copy on disk still answers `dep`, given that
/// the head of the branch `dep` names is now `head`: with a pin, the pins
/// agree; without one, the branch agrees where `dep` names one, and the head
/// has not moved.
pub open spec fn entry_fresh(e: EntryView, dep: DependencyView, head: Seq<char>) -> bool {
    e.uri == dep.uri && if dep.sha is Some {
        e.sha == dep.sha
    } else {
        (dep.branch is Some ==> e.branch == dep.branch) && e.hash == head
    }
}

/// Some entry shows that the copy on disk still answers `dep`.
pub open spec fn fresh(entries: Seq<EntryView>, dep: DependencyView, head: Seq<char>) -> bool {
    exists|i: int| 0 <= i < entries.len() && entry_fresh(#[trigger] entries[i], dep, head)
}

/// The entry `e` was made for the repository and branch of `dep`, and for its
/// pin where it has one.
pub open spec fn entry_known(e: EntryView, dep: DependencyView) -> bool {
    e.uri == dep.uri && e.branch == dep.branch && (dep.sha is Some ==> e.sha == dep.sha)
}

/// Some entry was made for the repository, branch and pin of `dep`.
pub open spec fn known(entries: Seq<EntryView>, dep: DependencyView) -> bool {
    exists|i: int| 0 <= i < entries.len() && entry_known(#[trigger] entries[i], dep)
}

/// The entries for repositories other than `uri`, in their order.
pub open spec fn without_uri(entries: Seq<EntryView>, uri: Seq<char>) -> Seq<EntryView> {
    entries.filter(|e: EntryView| e.uri != uri)
}

/// The entry written when `dep` has been fetched with its branch at `head`.
pub open spec fn entry_for(dep: DependencyView, head: Seq<char>) -> EntryView {
    EntryView { uri: dep.uri, hash: head, branch: dep.branch, sha: dep.sha }
}

/// The entries after `dep` has been fetched anew: whatever was remembered of
/// its repository is gone, and its new entry stands last.
pub open spec fn refreshed(entries: Seq<EntryView>, dep: DependencyView, head: Seq<char>) -> Seq<
    EntryView,
> {
    without_uri(entries, dep.uri).push(entry_for(dep, head))
}

impl Clone for TestDepedencyState {
    fn clone(&self) -> (r: Self)
        ensures
            r == *self,
    {
        TestDepedencyState {
            uri: self.uri.clone(),
            hash: self.hash.clone(),
            branch: self.branch.clone(),
            sha: self.sha.clone(),
        }
    }
}

impl Clone for LuaTestUtilsState {
    fn clone(&self) -> (r: Self)
        ensures
            r == *self,
    {
        LuaTestUtilsState { version: self.version.clone() }
    }
}

impl Clone for State {
    fn clone(&self) -> (r: Self)
        ensures
            r@ == self@,
    {
        let mut deps: Vec<TestDepedencyState> = Vec::new();
        let mut i: usize = 0;
        while i < self.test_dependencies.len()
            invariant
                i <= self.test_dependencies@.len(),
                deps@ == self.test_dependencies@.subrange(0, i as int),
            decreases self.test_dependencies@.len() - i,
        {
            deps.push(self.test_dependencies[i].clone());
            i = i + 1;
            assert(deps@ =~= self.test_dependencies@.subrange(0, i as int));
        }
        assert(deps@ =~= self.test_dependencies@);
        let utils = match &self.lua_test_utils {
            Some(t) => Some(t.clone()),
            None => None,
        };
        State { test_dependencies: deps, lua_test_utils: utils }
    }
}

impl TestDepedencyState {
    /// Whether this entry shows the copy on disk to answer `dep` still.
    pub fn is_fresh_for(&self, dep: &TestDepedency, head: &str) -> (r: bool)
        ensures
            r == entry_fresh(self@, dep@, head@),
    {
        if !same_text(self.uri.as_str(), dep.uri.as_str()) {
            return false;
        }
        if dep.sha.is_some() {
            return same_opt_text(&self.sha, &dep.sha);
        }
        if dep.branch.is_some() && !same_opt_text(&self.branch, &dep.branch) {
            return false;
        }
        same_text(self.hash.as_str(), head)
    }

    /// Whether this entry was made for the repository, branch and pin of `dep`.
    pub fn is_known_for(&self, dep: &TestDepedency) -> (r: bool)
        ensures
            r == entry_known(self@, dep@),
    {
        same_text(self.uri.as_str(), dep.uri.as_str()) && same_opt_text(&self.branch, &dep.branch)
            && (dep.sha.is_none() || same_opt_text(&self.sha, &dep.sha))
    }
}

impl State {
    /// A record that remembers nothing.
    pub fn new() -> (r: State)
        ensures
            r@.entries == Seq::<EntryView>::empty(),
            r@.test_utils is None,
    {
        let r = State { test_dependencies: Vec::new(), lua_test_utils: None };
        assert(r@.entries =~= Seq::<EntryView>::empty());
        r
    }

    /// Whether the record shows that the copy of `dep` on disk is still the
    /// one to use, now that the head of its branch is `head`.
    pub fn is_fresh(&self, dep: &TestDepedency, head: &str) -> (r: bool)
        ensures
            r == fresh(self@.entries, dep@, head@),
    {
        let mut i: usize = 0;
        while i < self.test_dependencies.len()
            invariant
                i <= self.test_dependencies@.len(),
                forall|k: int| 0 <= k < i ==> !entry_fresh(#[trigger] self@.entries[k], dep@, head@),
            decreases self.test_dependencies@.len() - i,
        {
            if self.test_dependencies[i].is_fresh_for(dep, head) {
                assert(entry_fresh(self@.entries[i as int], dep@, head@));
                return true;
            }
            i = i + 1;
        }
        false
    }

    /// Whether the record holds an entry for the repository, branch and pin
    /// of `dep`, whatever the commit.
    pub fn is_known(&self, dep: &TestDepedency) -> (r: bool)
        ensures
            r == known(self@.entries, dep@),
    {
        let mut i: usize = 0;
        while i < self.test_dependencies.len()
            invariant
                i <= self.test_dependencies@.len(),
                forall|k: int| 0 <= k < i ==> !entry_known(#[trigger] self@.entries[k], dep@),
            decreases self.test_dependencies@.len() - i,
        {
            if self.test_dependencies[i].is_known_for(dep) {
                assert(entry_known(self@.entries[i as int], dep@));
                return true;
            }
            i = i + 1;
        }
        false
    }
}

impl State {
    /// Drops whatever the record remembers of the repository `uri`.
    pub fn forget(&mut self, uri: &str)
        ensures
            final(self)@.entries == without_uri(old(self)@.entries, uri@),
            final(self)@.test_utils == old(self)@.test_utils,
    {
        let ghost before = self@.entries;
        let mut kept: Vec<TestDepedencyState> = Vec::new();
        let mut i: usize = 0;
        proof {
            reveal(Seq::filter);
            assert(before.take(0) =~= Seq::<EntryView>::empty());
        }
        while i < self.test_dependencies.len()
            invariant
                *self == *old(self),
                before == self@.entries,
                i <= self.test_dependencies@.len(),
                kept@.map_values(|e: TestDepedencyState| e@) == without_uri(
                    before.take(i as int),
                    uri@,
                ),
            decreases self.test_dependencies@.len() - i,
        {
            let ghost shown = kept@.map_values(|e: TestDepedencyState| e@);
            proof {
                reveal(Seq::filter);
                assert(before.take(i + 1).drop_last() =~= before.take(i as int));
                assert(before.take(i + 1).last() == self.test_dependencies@[i as int]@);
            }
            if !same_text(self.test_dependencies[i].uri.as_str(), uri) {
                kept.push(self.test_dependencies[i].clone());
                assert(kept@.map_values(|e: TestDepedencyState| e@) =~= shown.push(
                    self.test_dependencies@[i as int]@,
                ));
            }
            i = i + 1;
        }
        assert(before.take(i as int) =~= before);
        self.test_dependencies = kept;
    }

    /// Remembers that the remote dependency `dep` was fetched anew while the
    /// head of its branch was `head`: the entries of its repository give way
    /// to this one. Local dependencies are never remembered.
    pub fn refresh(&mut self, dep: &TestDepedency, head: &str)
        requires
            is_remote(dep@),
        ensures
            final(self)@.entries == refreshed(old(self)@.entries, dep@, head@),
            final(self)@.test_utils == old(self)@.test_utils,
    {
        self.forget(dep.uri.as_str());
        let ghost shown = self@.entries;
        self.test_dependencies.push(
            TestDepedencyState {
                uri: dep.uri.clone(),
                hash: head.to_owned(),
                branch: dep.branch.clone(),
                sha: dep.sha.clone(),
            },
        );
        assert(self@.entries =~= shown.push(entry_for(dep@, head@)));
    }
}

impl Default for State {
    fn default() -> (r: Self)
        ensures
            r@.entries == Seq::<EntryView>::empty(),
            r@.test_utils is None,
    {
        State::new()
    }
}

} // verus!
