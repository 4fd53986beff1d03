//! What a project declares: the test dependencies to make available and the
//! patterns under which its test files are found.

use vstd::prelude::*;
use crate::text::{opt_chars, texts};

verus! {

/// A declared test dependency, as a mathematical value.
pub struct DependencyView {
    pub uri: Seq<char>,
    pub branch: Option<Seq<char>>,
    pub sha: Option<Seq<char>>,
}

/// A declared test dependency: a local directory (`file:` URI) or a remote
/// repository with an optional branch and an optional pinned revision.
#[derive(Debug, PartialEq, Eq)]
pub struct TestDepedency {
    pub uri: String,
    pub branch: Option<String>,
    pub sha: Option<String>,
}

impl View for TestDepedency {
    type V = DependencyView;

    open spec fn view(&self) -> DependencyView {
        DependencyView { uri: self.uri@, branch: opt_chars(self.branch), sha: opt_chars(self.sha) }
    }
}

impl Clone for TestDepedency {
    fn clone(&self) -> (r: Self)
        ensures
            r == *self,
    {
        TestDepedency { uri: self.uri.clone(), branch: self.branch.clone(), sha: self.sha.clone() }
    }
}

/// The declarations of one project.
#[derive(Debug, PartialEq, Eq)]
pub struct TestConfig {
    pub test_dependencies: Option<Vec<TestDepedency>>,
    pub test_paths: Option<Vec<String>>,
}

/// The patterns searched when a project declares none.
pub open spec fn default_patterns() -> Seq<Seq<char>> {
    seq!["tests/**/*.lua"@, "test/**/*.lua"@, "lua/tests/**/*.lua"@, "lua/test/**/*.lua"@]
}

impl TestConfig {
    /// A configuration that declares nothing.
    pub fn default() -> (r: TestConfig)
        ensures
            r.test_dependencies is None,
            r.test_paths is None,
    {
        TestConfig { test_dependencies: None, test_paths: None }
    }

    /// The patterns that this configuration asks for, as character sequences.
    pub open spec fn patterns_spec(&self) -> Seq<Seq<char>> {
        match self.test_paths {
            Some(p) => texts(p@),
            None => default_patterns(),
        }
    }

    /// The patterns to search for test files: those declared, or the four
    /// conventional ones where none is declared.
    pub fn patterns(&self) -> (r: Vec<String>)
        ensures
            texts(r@) == self.patterns_spec(),
    {
        match &self.test_paths {
            Some(p) => {
                let mut out: Vec<String> = Vec::new();
                let mut i: usize = 0;
                while i < p.len()
                    invariant
                        i <= p@.len(),
                        out@.len() == i,
                        forall|k: int| 0 <= k < i ==> out@[k]@ == p@[k]@,
                    decreases p@.len() - i,
                {
                    out.push(p[i].clone());
                    i = i + 1;
                }
                assert(texts(out@) =~= texts(p@));
                out
            },
            None => {
                let out = vec![
                    "tests/**/*.lua".to_owned(),
                    "test/**/*.lua".to_owned(),
                    "lua/tests/**/*.lua".to_owned(),
                    "lua/test/**/*.lua".to_owned(),
                ];
                assert(texts(out@) =~= default_patterns());
                out
            },
        }
    }
}

impl Default for TestConfig {
    fn default() -> (r: Self)
        ensures
            r.test_dependencies is None,
            r.test_paths is None,
    {
        TestConfig { test_dependencies: None, test_paths: None }
    }
}

} // verus!
