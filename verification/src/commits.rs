use vstd::prelude::*;

use crate::manifest::PackageManager;
use crate::outcome::{CommandOutcome, Invocation, RunError, spec_ran_successfully};
use crate::text::push_string;

verus! {

/// How staging the manifest files can fail: the staging process ran but was
/// ended by a signal, could not be started at all, or exited non-zero.
#[derive(Debug, Clone, PartialEq, Eq)]
pub enum CommitMetlManifestError {
    /// `git add` was ended by a signal and reported no exit code.
    AddSigInt,
    /// `git add` could not be started.
    AddError { message: String },
    /// `git add` exited with a non-zero code.
    AddFailed { code: i32 },
}

/// The three git invocations of the commit flow, in the order they run:
/// staging, committing, pushing.
#[derive(Clone, Copy, Debug, PartialEq, Eq, Structural)]
pub enum CommitStage {
    Add,
    Commit,
    Push,
}

/// The commit message: the manager and the proxied command that changed the
/// system.
pub open spec fn spec_commit_message(manager_name: Seq<char>, proxied_cmd: Seq<char>) -> Seq<
    char,
> {
    "Updated with: "@ + manager_name + " "@ + proxied_cmd
}

/// The git invocation of one stage, run from the manifest repository.
pub fn commit_invocation(
    stage: &CommitStage,
    repo_path: &str,
    manager: &PackageManager,
    proxied_cmd: &str,
) -> (r: Invocation)
    ensures
        r@.program == "git"@,
        r@.working_dir == Some(repo_path@),
        match *stage {
            CommitStage::Add => r@.args == seq!["add"@, "."@],
            CommitStage::Commit => r@.args == seq![
                "commit"@,
                "-m"@,
                spec_commit_message(manager.spec_name(), proxied_cmd@),
            ],
            CommitStage::Push => r@.args == seq!["push"@, "origin"@, "master"@],
        },
{
    let mut args: Vec<String> = Vec::new();
    match stage {
        CommitStage::Add => {
            push_string(&mut args, String::from_str("add"));
            push_string(&mut args, String::from_str("."));
            proof {
                assert(args.deep_view() =~~= seq!["add"@, "."@]);
            }
        },
        CommitStage::Commit => {
            let message = String::from_str("Updated with: ").concat(
                manager.to_string().as_str(),
            ).concat(" ").concat(proxied_cmd);
            push_string(&mut args, String::from_str("commit"));
            push_string(&mut args, String::from_str("-m"));
            push_string(&mut args, message);
            proof {
                assert(args.deep_view() =~~= seq![
                    "commit"@,
                    "-m"@,
                    spec_commit_message(manager.spec_name(), proxied_cmd@),
                ]);
            }
        },
        CommitStage::Push => {
            push_string(&mut args, String::from_str("push"));
            push_string(&mut args, String::from_str("origin"));
            push_string(&mut args, String::from_str("master"));
            proof {
                assert(args.deep_view() =~~= seq!["push"@, "origin"@, "master"@]);
            }
        },
    }
    Invocation {
        program: String::from_str("git"),
        args,
        working_dir: Some(String::from_str(repo_path)),
    }
}

/// Classifies the staging step's outcome into the staging error taxonomy.
pub fn git_add_result(outcome: &Result<CommandOutcome, RunError>) -> (r: Result<
    (),
    CommitMetlManifestError,
>)
    ensures
        match r {
            Ok(_) => spec_ran_successfully(*outcome),
            Err(CommitMetlManifestError::AddSigInt) => outcome is Ok
                && outcome->Ok_0.exit_code is None,
            Err(CommitMetlManifestError::AddError { message }) => outcome is Err && message@
                == outcome->Err_0.message@,
            Err(CommitMetlManifestError::AddFailed { code }) => outcome is Ok
                && outcome->Ok_0.exit_code == Some(code) && code != 0,
        },
{
    match outcome {
        Err(e) => Err(CommitMetlManifestError::AddError { message: e.message.clone() }),
        Ok(o) => match o.exit_code {
            None => Err(CommitMetlManifestError::AddSigInt),
            Some(code) => {
                if code == 0 {
                    Ok(())
                } else {
                    Err(CommitMetlManifestError::AddFailed { code })
                }
            },
        },
    }
}

/// How one stage of the commit flow failed. Every failure stops the flow
/// with a warning; nothing is silently swallowed.
pub enum StageFailure {
    /// The process could not be started.
    NotRun { message: String },
    /// The process was ended by a signal and reported no exit code.
    Interrupted,
    /// The process exited with a non-zero code.
    Exit { code: i32 },
}

/// Whether a recorded failure describes the given outcome.
pub open spec fn stage_failure_matches(
    f: StageFailure,
    outcome: Result<CommandOutcome, RunError>,
) -> bool {
    match f {
        StageFailure::NotRun { message } => outcome is Err && message@ == outcome->Err_0.message@,
        StageFailure::Interrupted => outcome is Ok && outcome->Ok_0.exit_code is None,
        StageFailure::Exit { code } => outcome is Ok && outcome->Ok_0.exit_code == Some(code)
            && code != 0,
    }
}

/// What the commit flow does after one of its stages finishes.
pub enum CommitProgress {
    /// The stage succeeded and this stage runs next.
    Next { stage: CommitStage },
    /// The push succeeded: the whole flow is done.
    Done,
    /// The named stage failed; the flow stops and warns.
    Stopped { stage: CommitStage, failure: StageFailure },
}

/// The commit flow's transition: given the stage that just ran and its
/// outcome, decide what happens next. Staging precedes committing, committing
/// precedes pushing, and any failure stops the flow with a warning for
/// exactly that stage.
pub fn commit_manifest(stage: &CommitStage, outcome: &Result<CommandOutcome, RunError>) -> (r:
    CommitProgress)
    ensures
        match r {
            CommitProgress::Next { stage: next } => spec_ran_successfully(*outcome) && ((*stage
                is Add && next is Commit) || (*stage is Commit && next is Push)),
            CommitProgress::Done => spec_ran_successfully(*outcome) && *stage is Push,
            CommitProgress::Stopped { stage: s, failure } => s == *stage && !spec_ran_successfully(
                *outcome,
            ) && stage_failure_matches(failure, *outcome),
        },
{
    let failure = match outcome {
        Err(e) => Some(StageFailure::NotRun { message: e.message.clone() }),
        Ok(o) => match o.exit_code {
            None => Some(StageFailure::Interrupted),
            Some(code) => {
                if code == 0 {
                    None
                } else {
                    Some(StageFailure::Exit { code })
                }
            },
        },
    };
    match failure {
        Some(f) => CommitProgress::Stopped { stage: *stage, failure: f },
        None => match stage {
            CommitStage::Add => CommitProgress::Next { stage: CommitStage::Commit },
            CommitStage::Commit => CommitProgress::Next { stage: CommitStage::Push },
            CommitStage::Push => CommitProgress::Done,
        },
    }
}

} // verus!
