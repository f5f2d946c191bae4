//! Workflows: local operations carried out one after the other, the first
//! failure ending the run.
//!
//! A workflow only names its steps. Whoever carries them out asks where to
//! begin, performs that step, reports how it ended, and is told what comes
//! next. Nothing is retried and nothing is undone: a step that failed leaves
//! the effects of those before it in place, and no later step is attempted.

use vstd::prelude::*;
use crate::api::local::Branch;
use crate::GitError;

verus! {

/// A file to create, or to overwrite where it exists.
#[derive(Debug, Clone, PartialEq, Eq)]
pub struct FileWrite {
    pub path: String,
    pub contents: String,
}

/// One operation on a local working tree.
#[derive(Debug, Clone, PartialEq, Eq)]
pub enum LocalStep {
    /// Create the repository at `path` with its first, empty commit.
    Init { path: String },
    /// Create or overwrite a file.
    WriteFile(FileWrite),
    /// Stage every change of the working tree at `path`.
    AddAll { path: String },
    /// Commit what is staged at `path`.
    Commit { path: String, message: String },
    /// Push a branch of the repository at `path` to its origin.
    Push { path: String, local_branch: Branch, remote_branch: Branch, token: String },
    /// Attach a submodule to the repository at `repo_path`.
    SubmoduleAdd { repo_path: String, remote_url: String, local_path: String },
    /// Update every submodule of the repository at `repo_path`.
    SubmoduleUpdate { repo_path: String },
    /// Register `url` as the origin of the repository at `repo_path`.
    RemoteAddOrigin { repo_path: String, url: String },
}

/// Where a run of a workflow stands.
#[derive(Debug, PartialEq, Eq)]
pub enum Progress {
    /// The step at this index is to be carried out next.
    Run(usize),
    /// The run is over, with this result.
    Finished(Result<(), GitError>),
}

/// The steps of one workflow, in the order in which they run.
#[derive(Debug, Clone, PartialEq, Eq)]
pub struct Workflow {
    pub steps: Vec<LocalStep>,
}

/// Whether a run gets as far as attempting step `at`, where `outcomes[i]` is
/// how step `i` ends if it is attempted: every earlier step succeeded.
pub open spec fn reaches(outcomes: Seq<Result<(), GitError>>, at: int) -> bool {
    &&& 0 <= at < outcomes.len()
    &&& forall|i: int| 0 <= i < at ==> outcomes[i] is Ok
}

/// The result of a run: the first failure, or success where no step fails.
pub open spec fn run_result(outcomes: Seq<Result<(), GitError>>) -> Result<(), GitError> {
    if exists|at: int| reaches(outcomes, at) && outcomes[at] is Err {
        outcomes[choose|at: int| reaches(outcomes, at) && outcomes[at] is Err]
    } else {
        Ok(())
    }
}

/// Where a run of `count` steps begins.
pub open spec fn spec_start(count: nat) -> Progress {
    if count == 0 {
        Progress::Finished(Ok(()))
    } else {
        Progress::Run(0)
    }
}

/// Where a run of `count` steps stands after step `at` ended with `outcome`.
pub open spec fn spec_advance(count: nat, at: usize, outcome: Result<(), GitError>) -> Progress {
    match outcome {
        Err(error) => Progress::Finished(Err(error)),
        Ok(_) => if at + 1 < count {
            Progress::Run((at + 1) as usize)
        } else {
            Progress::Finished(Ok(()))
        },
    }
}

impl Workflow {
    /// Where the run begins: at the first step, or at its end where there is
    /// none.
    pub fn start(&self) -> (progress: Progress)
        ensures
            progress == spec_start(self.steps@.len()),
    {
        if self.steps.len() == 0 {
            Progress::Finished(Ok(()))
        } else {
            Progress::Run(0)
        }
    }

    /// Where the run stands after step `at` ended with `outcome`: a failure
    /// ends it with that failure, a success leads to the next step, and a
    /// success of the last step ends it well.
    pub fn advance(&self, at: usize, outcome: Result<(), GitError>) -> (progress: Progress)
        ensures
            progress == spec_advance(self.steps@.len(), at, outcome),
    {
        let count: usize = self.steps.len();
        match outcome {
            Err(error) => Progress::Finished(Err(error)),
            Ok(_) => if count > 0 && at < count - 1 {
                Progress::Run(at + 1)
            } else {
                Progress::Finished(Ok(()))
            },
        }
    }
}

/// Only one step can be the first to fail.
pub proof fn lemma_first_failure_is_unique(outcomes: Seq<Result<(), GitError>>, a: int, b: int)
    requires
        reaches(outcomes, a),
        outcomes[a] is Err,
        reaches(outcomes, b),
        outcomes[b] is Err,
    ensures
        a == b,
{
}

/// A run that reaches a failing step ends with that failure, and reaches no
/// step behind it.
pub proof fn lemma_failure_ends_run(outcomes: Seq<Result<(), GitError>>, at: int)
    requires
        reaches(outcomes, at),
        outcomes[at] is Err,
    ensures
        run_result(outcomes) == outcomes[at],
        forall|later: int| at < later ==> !reaches(outcomes, later),
{
    let first = choose|k: int| reaches(outcomes, k) && outcomes[k] is Err;
    lemma_first_failure_is_unique(outcomes, at, first);
}

/// A run of a non-empty workflow begins at a step that it reaches.
pub proof fn lemma_start_reaches(outcomes: Seq<Result<(), GitError>>)
    ensures
        match spec_start(outcomes.len()) {
            Progress::Run(first) => reaches(outcomes, first as int),
            Progress::Finished(result) => result == run_result(outcomes),
        },
{
}

/// Carrying out a step that the run reaches leads to the next step, which
/// the run reaches too, or ends the run with its result.
pub proof fn lemma_advance_follows_run(outcomes: Seq<Result<(), GitError>>, at: usize)
    requires
        reaches(outcomes, at as int),
        outcomes.len() <= usize::MAX,
    ensures
        match spec_advance(outcomes.len(), at, outcomes[at as int]) {
            Progress::Run(next) => next == at + 1 && reaches(outcomes, next as int),
            Progress::Finished(result) => result == run_result(outcomes),
        },
{
    if outcomes[at as int] is Err {
        lemma_failure_ends_run(outcomes, at as int);
    } else if at + 1 >= outcomes.len() {
        assert forall|k: int| reaches(outcomes, k) implies outcomes[k] is Ok by {}
    }
}

} // verus!
