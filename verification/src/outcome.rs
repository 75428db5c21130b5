use vstd::prelude::*;

verus! {

/// A description of one external-process invocation: the program to resolve
/// on PATH, its arguments in order, and the directory to run it from when one
/// is required.
#[derive(Debug, Clone, PartialEq, Eq)]
pub struct Invocation {
    pub program: String,
    pub args: Vec<String>,
    pub working_dir: Option<String>,
}

/// The mathematical content of an `Invocation`.
pub struct InvocationView {
    pub program: Seq<char>,
    pub args: Seq<Seq<char>>,
    pub working_dir: Option<Seq<char>>,
}

impl View for Invocation {
    type V = InvocationView;

    open spec fn view(&self) -> InvocationView {
        InvocationView {
            program: self.program@,
            args: self.args.deep_view(),
            working_dir: self.working_dir.deep_view(),
        }
    }
}

/// What one external process did: its exit code when it terminated normally,
/// its captured output, and whether it was terminated by a signal instead.
/// Created fresh per invocation and consumed immediately by the caller.
#[derive(Debug, Clone, PartialEq, Eq)]
pub struct CommandOutcome {
    pub exit_code: Option<i32>,
    pub stdout: Vec<u8>,
    pub stderr: Vec<u8>,
    pub signaled: bool,
}

impl CommandOutcome {
    /// A signal-terminated process has no exit code; a normally terminated
    /// process has one.
    pub open spec fn wf(self) -> bool {
        self.signaled <==> self.exit_code is None
    }

    /// Exit code zero is the one universally recognised success signal.
    pub open spec fn spec_success(self) -> bool {
        self.exit_code == Some(0i32)
    }

    /// Whether the process terminated normally with exit code zero.
    pub fn success(&self) -> (r: bool)
        ensures
            r == self.spec_success(),
    {
        match self.exit_code {
            Some(code) => code == 0,
            None => false,
        }
    }
}

/// A failure to start a process at all (binary missing, permission denied):
/// a fault of the local environment, distinct from the invoked tool reporting
/// failure through its exit code.
#[derive(Debug, Clone, PartialEq, Eq)]
pub struct RunError {
    pub message: String,
}

/// Whether an attempted invocation ran and exited with code zero.
pub open spec fn spec_ran_successfully(outcome: Result<CommandOutcome, RunError>) -> bool {
    match outcome {
        Ok(o) => o.exit_code == Some(0i32),
        Err(_) => false,
    }
}

/// The PATH-resolution probe for a binary: `which <binary>`.
pub fn plan_which(binary: &str) -> (r: Invocation)
    ensures
        r@.program == "which"@,
        r@.args == seq![binary@],
        r@.working_dir is None,
{
    let mut args: Vec<String> = Vec::new();
    args.push(String::from_str(binary));
    let r = Invocation { program: String::from_str("which"), args, working_dir: None };
    proof {
        assert(r@.args =~~= seq![binary@]);
    }
    r
}

/// Decides from the probe's outcome whether a binary resolves on PATH: only
/// a probe that ran and exited zero counts; a probe that could not run or
/// was ended by a signal counts as unavailable.
pub fn check_binary_availability(outcome: &Result<CommandOutcome, RunError>) -> (r: bool)
    ensures
        r == spec_ran_successfully(*outcome),
{
    match outcome {
        Ok(o) => o.success(),
        Err(_) => false,
    }
}

} // verus!
