//! The shared test utilities: one file, fetched for the version of the
//! harness and fetched again when that version changes.

use vstd::prelude::*;
use crate::state::{LuaTestUtilsState, State};
use crate::text::{joined3, same_text};

verus! {

/// What to do about the shared test utilities, as a mathematical value.
pub enum UtilsPlanView {
    Keep,
    Upgrade { from: Seq<char> },
    Download,
}

/// What to do about the shared test utilities.
#[derive(Debug, PartialEq, Eq)]
pub enum UtilsPlan {
    /// The file on disk is of the harness's version.
    Keep,
    /// The file on disk is of the version `from`: fetch it again.
    Upgrade { from: String },
    /// No file is remembered: fetch it.
    Download,
}

impl View for UtilsPlan {
    type V = UtilsPlanView;

    open spec fn view(&self) -> UtilsPlanView {
        match self {
            UtilsPlan::Keep => UtilsPlanView::Keep,
            UtilsPlan::Upgrade { from } => UtilsPlanView::Upgrade { from: from@ },
            UtilsPlan::Download => UtilsPlanView::Download,
        }
    }
}

/// The utilities are kept where the record names the harness's version,
/// fetched again where it names another, and fetched where it names none.
pub open spec fn utils_plan_of(remembered: Option<Seq<char>>, version: Seq<char>) -> UtilsPlanView {
    match remembered {
        Some(v) => if v == version {
            UtilsPlanView::Keep
        } else {
            UtilsPlanView::Upgrade { from: v }
        },
        None => UtilsPlanView::Download,
    }
}

/// The address of the utilities of `version`.
pub open spec fn utils_uri_of(version: Seq<char>) -> Seq<char> {
    "https://raw.githubusercontent.com/samsze0/test.nvim/"@ + version + "/lua/test/init.lua"@
}

/// Decides what to do about the shared test utilities, from the record and
/// the harness's version.
pub fn utils_plan(state: &State, version: &str) -> (r: UtilsPlan)
    ensures
        r@ == utils_plan_of(state@.test_utils, version@),
{
    match &state.lua_test_utils {
        Some(t) => {
            if same_text(t.version.as_str(), version) {
                UtilsPlan::Keep
            } else {
                UtilsPlan::Upgrade { from: t.version.clone() }
            }
        },
        None => UtilsPlan::Download,
    }
}

/// The address from which the utilities of `version` are fetched.
pub fn utils_uri(version: &str) -> (r: String)
    ensures
        r@ == utils_uri_of(version@),
{
    joined3("https://raw.githubusercontent.com/samsze0/test.nvim/", version, "/lua/test/init.lua")
}

impl State {
    /// Remembers that the utilities on disk are of `version`.
    pub fn set_test_utils(&mut self, version: &str)
        ensures
            final(self)@.test_utils == Some(version@),
            final(self)@.entries == old(self)@.entries,
    {
        self.lua_test_utils = Some(LuaTestUtilsState { version: version.to_owned() });
    }
}

} // verus!
