//! Counts the recent commits on the mainline of a remote-tracking branch.
//!
//! The mainline is the chain of first parents that starts at the branch's tip.
//! Walking it stops at the first commit that is older than a cutoff instant;
//! every commit before that one is counted, as a merge when it has more than
//! one parent and as a non-merge otherwise.

pub mod conf;
pub mod counts;
pub mod error;
pub mod history;
pub mod laws;
pub mod walk;

pub use conf::{Conf, Opts};
pub use counts::{count_window, minimum_time_epoch, CommitCounts, CommitInfo, Totals};
pub use error::CountError;
pub use history::{Entry, History, Node};
pub use walk::{
    advance, count_commits_on_main_branch, count_commits_since, count_from, resolve_branch, Pulled,
    Step,
};
