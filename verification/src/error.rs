//! The ways in which counting can fail.

use vstd::prelude::*;

verus! {

/// Why no counts were produced.
#[derive(Clone, Copy, Debug, PartialEq, Eq, Structural)]
pub enum CountError {
    /// No remote-tracking branch of the requested name exists.
    RefNotFound,
    /// The branch exists but does not lead to a commit.
    ObjectResolution,
    /// The repository could not be read while walking the history.
    RepositoryRead,
}

impl CountError {
    /// A short text that names the stage that failed.
    pub fn describe(&self) -> (text: &'static str)
        ensures
            text@ == match *self {
                CountError::RefNotFound => "remote-tracking branch not found"@,
                CountError::ObjectResolution => "branch does not resolve to a commit"@,
                CountError::RepositoryRead => "repository could not be read during the walk"@,
            },
    {
        match self {
            CountError::RefNotFound => "remote-tracking branch not found",
            CountError::ObjectResolution => "branch does not resolve to a commit",
            CountError::RepositoryRead => "repository could not be read during the walk",
        }
    }
}

} // verus!
