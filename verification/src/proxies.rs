use vstd::prelude::*;

use crate::manifest::PackageManager;
use crate::outcome::{CommandOutcome, Invocation};
use crate::text::{clone_all, join_with, push_string, spec_join};

verus! {

/// What the proxy will run, and the text that describes the proxied command
/// in reports and in the manifest commit message.
pub struct ProxyPlan {
    pub invocation: Invocation,
    pub proxied_cmd: String,
}

/// The proxy's defaulting rule, preserved exactly: one single bare argument
/// gets the defaulted flags prepended; any other argument list is passed
/// through verbatim (the caller is assumed to know what they are doing with
/// explicit flags). This rule decides whether the default flags are ever
/// added.
pub open spec fn proxy_plan_matches(
    r: ProxyPlan,
    manager: PackageManager,
    args: Seq<Seq<char>>,
    default_args: Seq<Seq<char>>,
) -> bool {
    &&& r.invocation@.program == manager.spec_name()
    &&& r.invocation@.working_dir is None
    &&& if args.len() == 1 {
        r.invocation@.args == default_args.push(args[0]) && r.proxied_cmd@ == args[0]
    } else {
        r.invocation@.args == args && r.proxied_cmd@ == spec_join(args, ' ')
    }
}

/// Builds the ad-hoc invocation that the proxy hands to the configured
/// pacman-compatible manager.
pub fn pacman_compatible_proxy(
    manager: &PackageManager,
    args: &Vec<String>,
    default_args: &Vec<String>,
) -> (r: ProxyPlan)
    ensures
        proxy_plan_matches(r, *manager, args.deep_view(), default_args.deep_view()),
{
    if args.len() == 1 {
        let mut full = clone_all(default_args);
        push_string(&mut full, args[0].clone());
        proof {
            assert(args.deep_view()[0] == args@[0]@);
        }
        let invocation = Invocation { program: manager.to_string(), args: full, working_dir: None };
        ProxyPlan { invocation, proxied_cmd: args[0].clone() }
    } else {
        let full = clone_all(args);
        proof {
            reveal_strlit(" ");
            assert(" "@ =~= seq![' ']);
        }
        let proxied_cmd = join_with(args, ' ', " ");
        let invocation = Invocation { program: manager.to_string(), args: full, working_dir: None };
        ProxyPlan { invocation, proxied_cmd }
    }
}

/// Whether the raw arguments ask for verbose output.
pub fn has_verbose(args: &Vec<String>) -> (r: bool)
    ensures
        r == (exists|i: int|
            0 <= i < args.deep_view().len() && ((#[trigger] args.deep_view()[i]) == "-v"@
                || args.deep_view()[i] == "--verbose"@)),
{
    let mut k: usize = 0;
    while k < args.len()
        invariant
            0 <= k <= args@.len(),
            args.deep_view().len() == args@.len(),
            forall|i: int|
                0 <= i < k ==> (#[trigger] args.deep_view()[i]) != "-v"@ && args.deep_view()[i]
                    != "--verbose"@,
        decreases args@.len() - k,
    {
        proof {
            assert(args.deep_view()[k as int] == args@[k as int]@);
        }
        if args[k] == String::from_str("-v") || args[k] == String::from_str("--verbose") {
            return true;
        }
        k += 1;
    }
    false
}

/// The decision after the proxied command finishes: exit code zero triggers
/// the snapshot-and-commit cascade; any other outcome is reported as a
/// failure and nothing is snapshotted (an unsuccessful install must not be
/// recorded as if it succeeded). A missing exit code counts as failure code
/// one.
pub enum ProxyDecision {
    Success,
    Failed { code: i32 },
}

/// Classifies the proxied command's outcome.
pub fn classify_proxy(outcome: &CommandOutcome) -> (r: ProxyDecision)
    ensures
        match r {
            ProxyDecision::Success => outcome.exit_code == Some(0i32),
            ProxyDecision::Failed { code } => (outcome.exit_code == Some(code) && code != 0) || (
            outcome.exit_code is None && code == 1),
        },
{
    match outcome.exit_code {
        Some(code) => {
            if code == 0 {
                ProxyDecision::Success
            } else {
                ProxyDecision::Failed { code }
            }
        },
        None => ProxyDecision::Failed { code: 1 },
    }
}

} // verus!
