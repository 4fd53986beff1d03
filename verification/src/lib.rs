//! Decision logic of a test harness for editor plugins: which declared test
//! dependencies must be fetched again, how each test process is launched and
//! judged, and how a run is summed up.

pub mod config;
pub mod laws;
pub mod locate;
pub mod remote;
pub mod report;
pub mod resolve;
pub mod runner;
pub mod session;
pub mod state;
pub mod text;
pub mod utils;
pub mod vcs;
