//! What the operator is told: the wording of each notice and failure, and
//! the colour it is shown in.

use vstd::prelude::*;
use vstd::string::StringExecFns;
use crate::resolve::{ResolveError, ResolveErrorView};
use crate::runner::{OutcomeView, Summary, TestOutcome, Verdict};
use crate::text::{decimal, decimal_of, joined, joined3, opt_chars};

verus! {

/// The colour a line is shown in.
#[derive(Debug, PartialEq, Eq, Structural, Clone, Copy)]
pub enum Tone {
    /// Yellow: something was passed over or is about to change.
    Warning,
    /// Red: a test or the run failed.
    Failure,
    /// Blue: a test passed.
    Success,
}

/// The number by which a terminal knows the colour of `tone`.
pub open spec fn tone_code(tone: Tone) -> Seq<char> {
    match tone {
        Tone::Warning => "33"@,
        Tone::Failure => "31"@,
        Tone::Success => "34"@,
    }
}

/// `text` between the escape sequence that switches to the colour of `tone`
/// and the one that resets the terminal.
pub open spec fn painted(tone: Tone, text: Seq<char>) -> Seq<char> {
    "\x1B["@ + tone_code(tone) + "m"@ + text + "\x1B[0m"@
}

/// Colours `text` by `Colour::paint` of the crate `ansi_term`, written out
/// as a string: the escape sequence for the foreground colour (yellow, red
/// or blue), the text unchanged, and the reset sequence.
#[verifier::external_body]
fn paint(tone: Tone, text: &str) -> (r: String)
    ensures
        r@ == painted(tone, text@),
{
    let colour = match tone {
        Tone::Warning => ansi_term::Colour::Yellow,
        Tone::Failure => ansi_term::Colour::Red,
        Tone::Success => ansi_term::Colour::Blue,
    };
    colour.paint(text).to_string()
}

/// The branch as the operator reads it: its name, or `HEAD` for the default.
pub open spec fn branch_label(branch: Option<Seq<char>>) -> Seq<char> {
    match branch {
        Some(b) => b,
        None => "HEAD"@,
    }
}

/// The pin as the operator reads it: the revision, or `<none>`.
pub open spec fn pin_label(sha: Option<Seq<char>>) -> Seq<char> {
    match sha {
        Some(s) => s,
        None => "<none>"@,
    }
}

fn label_of_branch(branch: &Option<String>) -> (r: String)
    ensures
        r@ == branch_label(opt_chars(*branch)),
{
    match branch {
        Some(b) => b.clone(),
        None => "HEAD".to_owned(),
    }
}

fn label_of_pin(sha: &Option<String>) -> (r: String)
    ensures
        r@ == pin_label(opt_chars(*sha)),
{
    match sha {
        Some(s) => s.clone(),
        None => "<none>".to_owned(),
    }
}

/// The wording of a failure of resolution: what failed, and the repository,
/// reference or revision it failed on.
pub open spec fn error_text(e: ResolveErrorView) -> Seq<char> {
    match e {
        ResolveErrorView::InvalidUri { uri } => "Invalid uri: "@ + uri,
        ResolveErrorView::GitMissing => "git is not installed"@,
        ResolveErrorView::NotARepository { uri } => uri + " is not a valid git repository"@,
        ResolveErrorView::BranchMissing { ref_name, uri } => "Branch "@ + ref_name
            + " does not exist in repository "@ + uri,
        ResolveErrorView::CloneFailed { uri, detail } => "Failed to clone repository "@ + uri
            + ":\n"@ + detail,
        ResolveErrorView::ResetFailed { uri, revision } => "Failed to reset repository "@ + uri
            + " to revision "@ + revision,
        ResolveErrorView::StateMissing { uri, branch } =>
            "State does not exist for test dependency "@ + uri + " @ branch "@ + branch_label(
                branch,
            ),
    }
}

impl ResolveError {
    /// The wording of this failure.
    pub fn message(&self) -> (r: String)
        ensures
            r@ == error_text(self@),
    {
        match self {
            ResolveError::InvalidUri { uri } => joined("Invalid uri: ", uri.as_str()),
            ResolveError::GitMissing => "git is not installed".to_owned(),
            ResolveError::NotARepository { uri } => joined(
                uri.as_str(),
                " is not a valid git repository",
            ),
            ResolveError::BranchMissing { ref_name, uri } => {
                let mut r = joined3("Branch ", ref_name.as_str(), " does not exist in repository ");
                r.append(uri.as_str());
                r
            },
            ResolveError::CloneFailed { uri, detail } => {
                let mut r = joined3("Failed to clone repository ", uri.as_str(), ":\n");
                r.append(detail.as_str());
                r
            },
            ResolveError::ResetFailed { uri, revision } => {
                let mut r = joined3("Failed to reset repository ", uri.as_str(), " to revision ");
                r.append(revision.as_str());
                r
            },
            ResolveError::StateMissing { uri, branch } => {
                let label = label_of_branch(branch);
                let mut r = joined3(
                    "State does not exist for test dependency ",
                    uri.as_str(),
                    " @ branch ",
                );
                r.append(label.as_str());
                r
            },
        }
    }

    /// This failure as the operator sees it: its wording, in red.
    pub fn render(&self) -> (r: String)
        ensures
            r@ == painted(Tone::Failure, error_text(self@)),
    {
        let text = self.message();
        paint(Tone::Failure, text.as_str())
    }
}

/// Something the operator is told while dependencies are resolved, as a
/// mathematical value.
pub enum NoticeView {
    ConfigMissing,
    StateMissing,
    UtilsUpgrade { from: Seq<char>, to: Seq<char> },
    UtilsDownload,
    PathMissing { uri: Seq<char> },
    NotDirectory { uri: Seq<char> },
    Overwriting { path: Seq<char> },
    Cloning { uri: Seq<char>, branch: Option<Seq<char>>, sha: Option<Seq<char>>, path: Seq<char> },
}

/// Something the operator is told while dependencies are resolved. None of
/// these ends the run.
#[derive(Debug, PartialEq, Eq)]
pub enum Notice {
    /// No configuration was found: the defaults are used.
    ConfigMissing,
    /// No record of an earlier run was found: an empty one is used.
    StateMissing,
    /// The shared test utilities on disk are of another version.
    UtilsUpgrade { from: String, to: String },
    /// The shared test utilities are not on disk yet.
    UtilsDownload,
    /// A local dependency is passed over: nothing is at its path.
    PathMissing { uri: String },
    /// A local dependency is passed over: its path is no directory.
    NotDirectory { uri: String },
    /// A stale copy is about to be removed.
    Overwriting { path: String },
    /// A repository is about to be cloned.
    Cloning { uri: String, branch: Option<String>, sha: Option<String>, path: String },
}

impl View for Notice {
    type V = NoticeView;

    open spec fn view(&self) -> NoticeView {
        match self {
            Notice::ConfigMissing => NoticeView::ConfigMissing,
            Notice::StateMissing => NoticeView::StateMissing,
            Notice::UtilsUpgrade { from, to } => NoticeView::UtilsUpgrade { from: from@, to: to@ },
            Notice::UtilsDownload => NoticeView::UtilsDownload,
            Notice::PathMissing { uri } => NoticeView::PathMissing { uri: uri@ },
            Notice::NotDirectory { uri } => NoticeView::NotDirectory { uri: uri@ },
            Notice::Overwriting { path } => NoticeView::Overwriting { path: path@ },
            Notice::Cloning { uri, branch, sha, path } => NoticeView::Cloning {
                uri: uri@,
                branch: opt_chars(*branch),
                sha: opt_chars(*sha),
                path: path@,
            },
        }
    }
}

/// The wording of a notice.
pub open spec fn notice_text(n: NoticeView) -> Seq<char> {
    match n {
        NoticeView::ConfigMissing => "Config file not found, using default config"@,
        NoticeView::StateMissing => "State file not found, creating new state"@,
        NoticeView::UtilsUpgrade { from, to } => "Upgrading test-utils from version "@ + from
            + " to version "@ + to,
        NoticeView::UtilsDownload => "Downloading test-utils.lua into .test/"@,
        NoticeView::PathMissing { uri } => "Path "@ + uri + " does not exist, skipping"@,
        NoticeView::NotDirectory { uri } => uri + " does not point to a directory, skipping"@,
        NoticeView::Overwriting { path } => "Overwriting existing test dependency at path "@
            + path,
        NoticeView::Cloning { uri, branch, sha, path } => "Cloning repo "@ + uri + " @ "@
            + branch_label(branch) + "-"@ + pin_label(sha) + " into path "@ + path + "..."@,
    }
}

impl Notice {
    /// The wording of this notice.
    pub fn message(&self) -> (r: String)
        ensures
            r@ == notice_text(self@),
    {
        match self {
            Notice::ConfigMissing => "Config file not found, using default config".to_owned(),
            Notice::StateMissing => "State file not found, creating new state".to_owned(),
            Notice::UtilsUpgrade { from, to } => {
                let mut r = joined3("Upgrading test-utils from version ", from.as_str(), " to version ");
                r.append(to.as_str());
                r
            },
            Notice::UtilsDownload => "Downloading test-utils.lua into .test/".to_owned(),
            Notice::PathMissing { uri } => joined3("Path ", uri.as_str(), " does not exist, skipping"),
            Notice::NotDirectory { uri } => joined(
                uri.as_str(),
                " does not point to a directory, skipping",
            ),
            Notice::Overwriting { path } => joined(
                "Overwriting existing test dependency at path ",
                path.as_str(),
            ),
            Notice::Cloning { uri, branch, sha, path } => {
                let b = label_of_branch(branch);
                let s = label_of_pin(sha);
                let mut r = joined3("Cloning repo ", uri.as_str(), " @ ");
                r.append(b.as_str());
                r.append("-");
                r.append(s.as_str());
                r.append(" into path ");
                r.append(path.as_str());
                r.append("...");
                r
            },
        }
    }

    /// This notice as the operator sees it: its wording, in yellow.
    pub fn render(&self) -> (r: String)
        ensures
            r@ == painted(Tone::Warning, notice_text(self@)),
    {
        let text = self.message();
        paint(Tone::Warning, text.as_str())
    }
}

/// The colour in which the end of a test is reported.
pub open spec fn outcome_tone(verdict: Verdict) -> Tone {
    match verdict {
        Verdict::Passed => Tone::Success,
        _ => Tone::Failure,
    }
}

/// The wording of a test's end. A test that passed is named and no more;
/// one that failed is named and followed by what the editor wrote to its
/// diagnostic output, if it wrote anything.
pub open spec fn outcome_text(o: OutcomeView) -> Seq<char> {
    match o.verdict {
        Verdict::Passed => "\u{2713} "@ + o.test,
        Verdict::ExitFailure => if o.diagnostics.len() == 0 {
            "Failed to run test "@ + o.test
        } else {
            "Failed to run test "@ + o.test + "\n"@ + o.diagnostics
        },
        Verdict::ErrorReported => "x "@ + o.test + "\n"@ + o.diagnostics,
    }
}

impl TestOutcome {
    /// The wording of this test's end.
    pub fn message(&self) -> (r: String)
        ensures
            r@ == outcome_text(self@),
    {
        match self.verdict {
            Verdict::Passed => joined("\u{2713} ", self.test.as_str()),
            Verdict::ExitFailure => {
                if self.diagnostics.as_str().is_empty() {
                    joined("Failed to run test ", self.test.as_str())
                } else {
                    let mut r = joined3("Failed to run test ", self.test.as_str(), "\n");
                    r.append(self.diagnostics.as_str());
                    r
                }
            },
            Verdict::ErrorReported => {
                let mut r = joined3("x ", self.test.as_str(), "\n");
                r.append(self.diagnostics.as_str());
                r
            },
        }
    }

    /// This test's end as the operator sees it: blue where it passed, red
    /// where it failed.
    pub fn render(&self) -> (r: String)
        ensures
            r@ == painted(outcome_tone(self@.verdict), outcome_text(self@)),
    {
        let text = self.message();
        let tone = match self.verdict {
            Verdict::Passed => Tone::Success,
            _ => Tone::Failure,
        };
        paint(tone, text.as_str())
    }
}

/// The closing line of a run in which `failed` tests failed.
pub open spec fn failures_text(failed: nat) -> Seq<char> {
    decimal_of(failed) + " test(s) failed"@
}

impl Summary {
    /// The closing line of the run, in red, where any test failed; nothing
    /// where none did.
    pub fn render(&self) -> (r: Option<String>)
        ensures
            opt_chars(r) == if self.failed == 0 {
                None
            } else {
                Some(painted(Tone::Failure, failures_text(self.failed as nat)))
            },
    {
        if self.failed == 0 {
            None
        } else {
            let count = decimal(self.failed);
            let text = joined(count.as_str(), " test(s) failed");
            Some(paint(Tone::Failure, text.as_str()))
        }
    }
}

} // verus!
