//! The job value the broker produces for every detected patch update, and
//! the capability a worker drives a job through.

use vstd::prelude::*;
use crate::errors::ErrorKind;

verus! {

/// One CI job per detected patch update. All five fields are non-empty;
/// `git_uri` is the seed node's fetch URL for the repository.
#[derive(Debug, Clone, PartialEq, Eq)]
pub struct CIJob {
    pub project_name: String,
    pub patch_branch: String,
    pub patch_head: String,
    pub project_id: String,
    pub git_uri: String,
}

/// The fetch URL the broker hands the engine for a repository.
pub open spec fn seed_git_uri(project_id: Seq<char>) -> Seq<char> {
    "https://seed.radicle.xyz/"@ + project_id + ".git"@
}

/// A hexadecimal digit, as a commit object-id is written.
pub open spec fn is_hex_digit(c: char) -> bool {
    ('0' <= c && c <= '9') || ('a' <= c && c <= 'f') || ('A' <= c && c <= 'F')
}

/// A non-empty all-hexadecimal text: the shape of a commit object-id.
pub open spec fn is_hex_seq(s: Seq<char>) -> bool {
    s.len() > 0 && forall|i: int| 0 <= i < s.len() ==> is_hex_digit(#[trigger] s[i])
}

impl CIJob {
    /// The job invariant: all five fields non-empty, the head a hex commit
    /// id, and the fetch URL derived from the project id.
    pub open spec fn well_formed(&self) -> bool {
        &&& self.project_name@.len() > 0
        &&& self.patch_branch@.len() > 0
        &&& is_hex_seq(self.patch_head@)
        &&& self.project_id@.len() > 0
        &&& self.git_uri@.len() > 0
        &&& self.git_uri@ == seed_git_uri(self.project_id@)
    }
}

/// The capability a worker runs one job through: a setup phase that
/// provisions and activates the job's configuration pipeline, then a run
/// phase that triggers it and fans out to the downstream jobs. A driver
/// is cloneable so that every worker can own its own instance.
pub trait CI: Sized + Clone {
    fn setup(&mut self, job: CIJob) -> Result<(), ErrorKind>;

    fn run_pipeline(&self, project_id: &String) -> Result<(), ErrorKind>;
}

} // verus!
