//! A batch harness that builds short source snippets pulled from a paginated
//! feed and reports how many built, failed, were skipped or were aborted.
//!
//! The library holds the decisions of such a run: the loop over pages and
//! items as a transition function, the verdict on one build attempt, the
//! tally, the cooperative cancellation flags and the text of the report.
//! Fetching pages, running the compiler and touching the scratch directory
//! are the caller's part.

pub mod config;
pub mod credentials;
pub mod item;
pub mod ignore;
pub mod verdict;
pub mod results;
pub mod text;
pub mod runner;
pub mod cancel;
pub mod harness;
pub mod laws;
pub mod report;
