//! Launching one editor process per test file, judging what came of each,
//! and summing up the run.

use vstd::prelude::*;
use crate::text::{chars_of, contains, joined, occurs_in, texts};

verus! {

/// The words that the editor prints when a script fails.
pub open spec fn error_marker() -> Seq<char> {
    "Error detected while processing"@
}

/// The arguments that isolate the editor: no plugins loaded by themselves,
/// no window, no backup, swap or session files, and the project itself on
/// the search path.
pub open spec fn isolation_args() -> Seq<Seq<char>> {
    seq![
        "--noplugin"@,
        "--headless"@,
        "--cmd"@,
        "set nobackup nowritebackup noswapfile"@,
        "--cmd"@,
        "set shada=\"NONE\""@,
        "-i"@,
        "NONE"@,
        "--cmd"@,
        "set rtp+=."@,
    ]
}

/// The arguments that put each of `paths` on the editor's search path, in
/// order.
pub open spec fn search_path_args(paths: Seq<Seq<char>>) -> Seq<Seq<char>>
    decreases paths.len(),
{
    if paths.len() == 0 {
        Seq::empty()
    } else {
        search_path_args(paths.drop_last()) + seq!["--cmd"@, "set rtp+="@ + paths.last()]
    }
}

/// The arguments that load the shared test utilities, run `test` as the
/// editor's script, and make the editor quit when the script is done.
pub open spec fn script_args(test: Seq<char>) -> Seq<Seq<char>> {
    seq![
        "--cmd"@,
        "set rtp+=.test"@,
        "--cmd"@,
        "lua require(\"test-utils\")"@,
        "-u"@,
        test,
        "+qa"@,
    ]
}

/// The editor's whole argument list for one test: isolation, the remote
/// dependencies, the local ones, then the script and the command to quit.
pub open spec fn editor_args_of(
    external: Seq<Seq<char>>,
    local: Seq<Seq<char>>,
    test: Seq<char>,
) -> Seq<Seq<char>> {
    isolation_args() + search_path_args(external) + search_path_args(local) + script_args(test)
}

/// Appends the search-path arguments for `paths` to `args`.
fn push_search_paths(args: &mut Vec<String>, paths: &Vec<String>)
    ensures
        texts(final(args)@) == texts(old(args)@) + search_path_args(texts(paths@)),
{
    let ghost before = texts(args@);
    let mut i: usize = 0;
    assert(texts(paths@).take(0) =~= Seq::<Seq<char>>::empty());
    assert(before + Seq::<Seq<char>>::empty() =~= before);
    while i < paths.len()
        invariant
            i <= paths@.len(),
            texts(args@) == before + search_path_args(texts(paths@).take(i as int)),
        decreases paths@.len() - i,
    {
        let ghost shown = texts(args@);
        args.push("--cmd".to_owned());
        args.push(joined("set rtp+=", paths[i].as_str()));
        proof {
            let upto = texts(paths@).take(i + 1);
            assert(upto.drop_last() =~= texts(paths@).take(i as int));
            assert(upto.last() == paths@[i as int]@);
            assert(texts(args@) =~= shown + seq!["--cmd"@, "set rtp+="@ + paths@[i as int]@]);
            assert(texts(args@) =~= before + search_path_args(upto));
        }
        i = i + 1;
    }
    assert(texts(paths@).take(i as int) =~= texts(paths@));
}

/// The argument list with which the editor runs the test file `test`, given
/// the directories of the remote and of the local dependencies.
pub fn editor_args(external: &Vec<String>, local: &Vec<String>, test: &str) -> (args: Vec<String>)
    ensures
        texts(args@) == editor_args_of(texts(external@), texts(local@), test@),
{
    let mut args: Vec<String> = Vec::new();
    args.push("--noplugin".to_owned());
    args.push("--headless".to_owned());
    args.push("--cmd".to_owned());
    args.push("set nobackup nowritebackup noswapfile".to_owned());
    args.push("--cmd".to_owned());
    args.push("set shada=\"NONE\"".to_owned());
    args.push("-i".to_owned());
    args.push("NONE".to_owned());
    args.push("--cmd".to_owned());
    args.push("set rtp+=.".to_owned());
    assert(texts(args@) =~= isolation_args());
    push_search_paths(&mut args, external);
    push_search_paths(&mut args, local);
    let ghost shown = texts(args@);
    args.push("--cmd".to_owned());
    args.push("set rtp+=.test".to_owned());
    args.push("--cmd".to_owned());
    args.push("lua require(\"test-utils\")".to_owned());
    args.push("-u".to_owned());
    args.push(test.to_owned());
    args.push("+qa".to_owned());
    assert(texts(args@) =~= shown + script_args(test@));
    args
}

/// How one test ended.
#[derive(Debug, PartialEq, Eq, Structural, Clone, Copy)]
pub enum Verdict {
    /// The editor exited with success and reported no error.
    Passed,
    /// The editor exited with a failure status.
    ExitFailure,
    /// The editor exited with success, but its diagnostic output holds the
    /// error marker.
    ErrorReported,
}

/// A failure status of the editor always fails the test. After a success
/// status the test fails exactly where the diagnostic output is not empty
/// and holds the error marker; other diagnostic output is tolerated.
pub open spec fn verdict_of(exit_ok: bool, diagnostics: Seq<char>) -> Verdict {
    if !exit_ok {
        Verdict::ExitFailure
    } else if diagnostics.len() > 0 && occurs_in(diagnostics, error_marker()) {
        Verdict::ErrorReported
    } else {
        Verdict::Passed
    }
}

/// What came of one test, as a mathematical value.
pub struct OutcomeView {
    pub test: Seq<char>,
    pub verdict: Verdict,
    pub diagnostics: Seq<char>,
}

impl OutcomeView {
    /// Whether the test passed.
    pub open spec fn passed(self) -> bool {
        self.verdict == Verdict::Passed
    }
}

/// What came of one test: how it ended, and what the editor wrote to its
/// diagnostic output.
#[derive(Debug, PartialEq, Eq)]
pub struct TestOutcome {
    pub test: String,
    pub verdict: Verdict,
    pub diagnostics: String,
}

impl View for TestOutcome {
    type V = OutcomeView;

    open spec fn view(&self) -> OutcomeView {
        OutcomeView { test: self.test@, verdict: self.verdict, diagnostics: self.diagnostics@ }
    }
}

impl TestOutcome {
    /// Whether the test passed.
    pub fn passed(&self) -> (r: bool)
        ensures
            r == self@.passed(),
    {
        match self.verdict {
            Verdict::Passed => true,
            _ => false,
        }
    }
}

/// Judges one test from the editor's exit status and diagnostic output.
pub fn judge(test: String, exit_ok: bool, diagnostics: String) -> (r: TestOutcome)
    ensures
        r@ == (OutcomeView {
            test: test@,
            verdict: verdict_of(exit_ok, diagnostics@),
            diagnostics: diagnostics@,
        }),
{
    let verdict = if !exit_ok {
        Verdict::ExitFailure
    } else {
        let text = chars_of(diagnostics.as_str());
        let marker = chars_of("Error detected while processing");
        if text.len() > 0 && contains(&text, &marker) {
            Verdict::ErrorReported
        } else {
            Verdict::Passed
        }
    };
    TestOutcome { test, verdict, diagnostics }
}

/// How many of `outcomes` are failures.
pub open spec fn failed_count(outcomes: Seq<OutcomeView>) -> nat {
    outcomes.filter(|o: OutcomeView| !o.passed()).len()
}

/// How many of `outcomes` are passes.
pub open spec fn passed_count(outcomes: Seq<OutcomeView>) -> nat {
    outcomes.filter(|o: OutcomeView| o.passed()).len()
}

/// Every test either failed or passed: the two counts make up the whole.
pub proof fn lemma_failed_and_passed_make_all(outcomes: Seq<OutcomeView>)
    ensures
        failed_count(outcomes) + passed_count(outcomes) == outcomes.len(),
    decreases outcomes.len(),
{
    reveal(Seq::filter);
    if outcomes.len() > 0 {
        lemma_failed_and_passed_make_all(outcomes.drop_last());
    }
}

/// The views of a list of outcomes.
pub open spec fn outcome_views(outcomes: Seq<TestOutcome>) -> Seq<OutcomeView> {
    outcomes.map_values(|o: TestOutcome| o@)
}

/// The exit code of a run in which every test passed.
pub const EXIT_SUCCESS: i32 = 0;

/// The exit code of a run in which some test failed.
pub const EXIT_TESTS_FAILED: i32 = 1;

/// The exit code of a run that the harness itself could not complete.
pub const EXIT_HARNESS_ERROR: i32 = 2;

/// The sum of a run.
#[derive(Debug, PartialEq, Eq, Structural, Clone, Copy)]
pub struct Summary {
    pub total: usize,
    pub failed: usize,
}

impl Summary {
    /// Whether no test failed.
    pub open spec fn is_success(&self) -> bool {
        self.failed == 0
    }

    /// Whether no test failed.
    #[verifier::when_used_as_spec(is_success)]
    pub fn success(&self) -> (r: bool)
        ensures
            r == self.is_success(),
    {
        self.failed == 0
    }

    /// The exit code of the run: success where no test failed, and otherwise
    /// the code kept for failed tests, which is never the code of a harness
    /// error.
    pub fn exit_code(&self) -> (r: i32)
        ensures
            r == if self.failed == 0 {
                EXIT_SUCCESS
            } else {
                EXIT_TESTS_FAILED
            },
            r != EXIT_HARNESS_ERROR,
    {
        if self.failed == 0 {
            EXIT_SUCCESS
        } else {
            EXIT_TESTS_FAILED
        }
    }
}

/// Sums up a run once every test has ended: how many tests there were, and
/// how many of them failed.
pub fn summarize(outcomes: &Vec<TestOutcome>) -> (r: Summary)
    ensures
        r.total == outcomes@.len(),
        r.failed == failed_count(outcome_views(outcomes@)),
        r.total - r.failed == passed_count(outcome_views(outcomes@)),
{
    let mut failed: usize = 0;
    let mut i: usize = 0;
    proof {
        reveal(Seq::filter);
        assert(outcome_views(outcomes@).take(0) =~= Seq::<OutcomeView>::empty());
    }
    while i < outcomes.len()
        invariant
            i <= outcomes@.len(),
            failed <= i,
            failed == failed_count(outcome_views(outcomes@).take(i as int)),
        decreases outcomes@.len() - i,
    {
        proof {
            reveal(Seq::filter);
            let upto = outcome_views(outcomes@).take(i + 1);
            assert(upto.drop_last() =~= outcome_views(outcomes@).take(i as int));
            assert(upto.last() == outcomes@[i as int]@);
        }
        if !outcomes[i].passed() {
            failed = failed + 1;
        }
        i = i + 1;
    }
    proof {
        assert(outcome_views(outcomes@).take(i as int) =~= outcome_views(outcomes@));
        lemma_failed_and_passed_make_all(outcome_views(outcomes@));
    }
    Summary { total: outcomes.len(), failed }
}

} // verus!
